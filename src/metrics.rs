//! Snapshots of the host and the store that keeps them in the order they
//! were taken, with the lifecycle of the background poller that fills it.
//!
//! The store decides; the caller runs the poller. Starting returns
//! `AccionMonitor::LanzarSondeo` when a poller is to be spawned, stopping
//! returns `AccionMonitor::SenalarYEsperar` when the running one is to be
//! woken and joined, after which the caller reports `sondeo_terminado`.
//! The poller hands each snapshot to `registrar_sondeo` and exits as soon as
//! that returns `false`.

use vstd::prelude::*;
use crate::cpu::{CPUInfo, CpuVista};
use crate::disco::{DiscosInfo, DiscosVista};
use crate::interfaces::{InterfacesInfo, InterfacesVista};
use crate::memoria::{MemoriaInfo, MemoriaVista};
use crate::procesos::{ProcesosInfo, ProcesosVista};

verus! {

/// The first second of the year 1 UTC, in seconds since the Unix epoch:
/// the earliest instant a snapshot can carry.
pub const MIN_INSTANTE: i64 = -62135596800;

/// The last second of the year 9999 UTC, in seconds since the Unix epoch:
/// the latest instant a snapshot can carry.
pub const MAX_INSTANTE: i64 = 253402300799;

/// The text that identifies a snapshot taken `segundos` seconds after the
/// Unix epoch: its local time in Mexico City, ISO-8601 with the UTC offset.
pub uninterp spec fn id_de_instante(segundos: i64) -> Seq<char>;

/// Relies on chrono's `DateTime::from_timestamp`, `DateTime::with_timezone`
/// and `DateTime::format` with chrono-tz's table for America/Mexico_City:
/// the text depends on `segundos` alone. `from_timestamp` gives `None` only
/// when the day falls outside chrono's dates (beyond the year 262000 either
/// way), far from `MIN_INSTANTE` and `MAX_INSTANTE`.
#[verifier::external_body]
fn formatear_instante(segundos: i64) -> (r: String)
    requires
        MIN_INSTANTE <= segundos <= MAX_INSTANTE,
    ensures
        r@ == id_de_instante(segundos),
{
    chrono::DateTime::from_timestamp(segundos, 0).expect("instant within chrono's range").with_timezone(
        &chrono_tz::America::Mexico_City,
    ).format("%Y-%m-%dT%H:%M:%S%:z").to_string()
}

/// Relies on std's `SystemTime::now`, converted by chrono's
/// `From<SystemTime> for DateTime<Utc>`, and `DateTime::timestamp`: the whole
/// seconds since the Unix epoch by the system clock, negative for a clock set
/// before 1970. Nothing is promised of the value: it is the clock's.
#[verifier::external_body]
fn segundos_ahora() -> (r: i64) {
    chrono::DateTime::<chrono::Utc>::from(std::time::SystemTime::now()).timestamp()
}

/// What a `Metric` holds, field by field.
pub struct MetricVista {
    pub id: Seq<char>,
    pub instante: i64,
    pub cpu: CpuVista,
    pub memoria: MemoriaVista,
    pub red: InterfacesVista,
    pub disco: DiscosVista,
    pub procesos: ProcesosVista,
}

/// One snapshot of the host: when it was taken, in seconds since the Unix
/// epoch and as text, and the five readings. A snapshot is never changed
/// once taken.
pub struct Metric {
    id: String,
    instante: i64,
    cpu: CPUInfo,
    memoria: MemoriaInfo,
    red: InterfacesInfo,
    disco: DiscosInfo,
    procesos: ProcesosInfo,
}

impl View for Metric {
    type V = MetricVista;

    closed spec fn view(&self) -> MetricVista {
        MetricVista {
            id: self.id@,
            instante: self.instante,
            cpu: self.cpu@,
            memoria: self.memoria@,
            red: self.red@,
            disco: self.disco@,
            procesos: self.procesos@,
        }
    }
}

impl MetricVista {
    /// The instant is in range and the text names it.
    pub open spec fn bien_formada(self) -> bool {
        &&& MIN_INSTANTE <= self.instante <= MAX_INSTANTE
        &&& self.id == id_de_instante(self.instante)
    }
}

impl Clone for Metric {
    fn clone(&self) -> (r: Self)
        ensures
            r@ == self@,
    {
        proof {
            use_type_invariant(self);
        }
        Metric {
            id: self.id.clone(),
            instante: self.instante,
            cpu: self.cpu.clone(),
            memoria: self.memoria.clone(),
            red: self.red.clone(),
            disco: self.disco.clone(),
            procesos: self.procesos.clone(),
        }
    }
}

impl Metric {
    #[verifier::type_invariant]
    spec fn invariante(self) -> bool {
        self@.bien_formada()
    }

    /// The snapshot of the given readings taken at `instante`.
    pub fn nueva(
        instante: i64,
        cpu: CPUInfo,
        memoria: MemoriaInfo,
        red: InterfacesInfo,
        disco: DiscosInfo,
        procesos: ProcesosInfo,
    ) -> (r: Metric)
        requires
            MIN_INSTANTE <= instante <= MAX_INSTANTE,
        ensures
            r@ == (MetricVista {
                id: id_de_instante(instante),
                instante,
                cpu: cpu@,
                memoria: memoria@,
                red: red@,
                disco: disco@,
                procesos: procesos@,
            }),
    {
        Metric { id: formatear_instante(instante), instante, cpu, memoria, red, disco, procesos }
    }

    /// The snapshot of the given readings taken at `instante`, or `None` when
    /// the instant is out of range.
    pub fn sellar(
        instante: i64,
        cpu: CPUInfo,
        memoria: MemoriaInfo,
        red: InterfacesInfo,
        disco: DiscosInfo,
        procesos: ProcesosInfo,
    ) -> (r: Option<Metric>)
        ensures
            r is Some <==> MIN_INSTANTE <= instante <= MAX_INSTANTE,
            r matches Some(m) ==> m@ == (MetricVista {
                id: id_de_instante(instante),
                instante,
                cpu: cpu@,
                memoria: memoria@,
                red: red@,
                disco: disco@,
                procesos: procesos@,
            }),
    {
        if instante < MIN_INSTANTE || instante > MAX_INSTANTE {
            None
        } else {
            Some(Metric::nueva(instante, cpu, memoria, red, disco, procesos))
        }
    }

    /// The snapshot of the given readings, stamped with the clock; `None`
    /// when the clock reads outside `MIN_INSTANTE..=MAX_INSTANTE`.
    pub fn capturar(
        cpu: CPUInfo,
        memoria: MemoriaInfo,
        red: InterfacesInfo,
        disco: DiscosInfo,
        procesos: ProcesosInfo,
    ) -> (r: Option<Metric>)
        ensures
            r matches Some(m) ==> {
                &&& MIN_INSTANTE <= m@.instante <= MAX_INSTANTE
                &&& m@.id == id_de_instante(m@.instante)
                &&& m@.cpu == cpu@
                &&& m@.memoria == memoria@
                &&& m@.red == red@
                &&& m@.disco == disco@
                &&& m@.procesos == procesos@
            },
    {
        Metric::sellar(segundos_ahora(), cpu, memoria, red, disco, procesos)
    }

    /// When the snapshot was taken, in seconds since the Unix epoch.
    pub fn instante(&self) -> (r: i64)
        ensures
            r == self@.instante,
    {
        self.instante
    }

    /// When the snapshot was taken, as text.
    pub fn id(&self) -> (r: &str)
        ensures
            r@ == self@.id,
            r@ == id_de_instante(self@.instante),
    {
        proof {
            use_type_invariant(self);
        }
        self.id.as_str()
    }

    pub fn cpu(&self) -> (r: &CPUInfo)
        ensures
            r@ == self@.cpu,
    {
        &self.cpu
    }

    pub fn memoria(&self) -> (r: &MemoriaInfo)
        ensures
            r@ == self@.memoria,
    {
        &self.memoria
    }

    pub fn red(&self) -> (r: &InterfacesInfo)
        ensures
            r@ == self@.red,
    {
        &self.red
    }

    pub fn disco(&self) -> (r: &DiscosInfo)
        ensures
            r@ == self@.disco,
    {
        &self.disco
    }

    pub fn procesos(&self) -> (r: &ProcesosInfo)
        ensures
            r@ == self@.procesos,
    {
        &self.procesos
    }
}

/// Where the background poller stands.
#[derive(Clone, Copy, Debug, PartialEq, Eq, Structural)]
pub enum FaseMonitor {
    /// No poller runs.
    Inactivo,
    /// A poller runs and its snapshots are kept.
    Activo,
    /// The poller was told to stop and is being joined.
    Deteniendo,
}

/// What the caller must do after a lifecycle call.
#[derive(Clone, Copy, Debug, PartialEq, Eq, Structural)]
pub enum AccionMonitor {
    /// Nothing.
    Ninguna,
    /// Spawn the poller.
    LanzarSondeo,
    /// Wake the poller, wait for it to exit, then call `sondeo_terminado`.
    SenalarYEsperar,
}

/// What a `Metrics` store holds: its snapshots and the poller's phase.
pub struct MetricsVista {
    pub instantaneas: Seq<MetricVista>,
    pub fase: FaseMonitor,
}

/// The store after `refresh` with `m`.
pub open spec fn tras_refrescar(v: MetricsVista, m: MetricVista) -> MetricsVista {
    MetricsVista { instantaneas: v.instantaneas.push(m), fase: v.fase }
}

/// The store after `refresh` with each of `ms`, in order.
pub open spec fn tras_refrescar_todas(v: MetricsVista, ms: Seq<MetricVista>) -> MetricsVista
    decreases ms.len(),
{
    if ms.len() == 0 {
        v
    } else {
        tras_refrescar(tras_refrescar_todas(v, ms.drop_last()), ms.last())
    }
}

/// The last snapshot of the store, if any.
pub open spec fn ultima(v: MetricsVista) -> Option<MetricVista> {
    if v.instantaneas.len() == 0 {
        None
    } else {
        Some(v.instantaneas.last())
    }
}

/// A poller is running or being joined.
pub open spec fn monitoreando(v: MetricsVista) -> bool {
    v.fase != FaseMonitor::Inactivo
}

/// The store and the action after `start_monitoring`.
pub open spec fn tras_iniciar(v: MetricsVista) -> (MetricsVista, AccionMonitor) {
    if v.fase == FaseMonitor::Inactivo {
        (
            MetricsVista { instantaneas: Seq::empty(), fase: FaseMonitor::Activo },
            AccionMonitor::LanzarSondeo,
        )
    } else {
        (v, AccionMonitor::Ninguna)
    }
}

/// The store and the action after `stop_monitoring`.
pub open spec fn tras_detener(v: MetricsVista) -> (MetricsVista, AccionMonitor) {
    if v.fase == FaseMonitor::Activo {
        (
            MetricsVista { instantaneas: v.instantaneas, fase: FaseMonitor::Deteniendo },
            AccionMonitor::SenalarYEsperar,
        )
    } else {
        (v, AccionMonitor::Ninguna)
    }
}

/// The store after `sondeo_terminado`.
pub open spec fn tras_terminar(v: MetricsVista) -> MetricsVista {
    MetricsVista { instantaneas: v.instantaneas, fase: FaseMonitor::Inactivo }
}

/// The store and the answer after the poller offers `m`: kept while a
/// poller runs or is being stopped, as it was taken before the stop was
/// seen; the poller goes on only while monitoring is on.
pub open spec fn tras_sondeo(v: MetricsVista, m: MetricVista) -> (MetricsVista, bool) {
    match v.fase {
        FaseMonitor::Activo => (tras_refrescar(v, m), true),
        FaseMonitor::Deteniendo => (tras_refrescar(v, m), false),
        FaseMonitor::Inactivo => (v, false),
    }
}

/// Each snapshot of `s` was taken strictly later than the one before.
pub open spec fn instantes_crecientes(s: Seq<MetricVista>) -> bool {
    forall|i: int, j: int| 0 <= i < j < s.len() ==> s[i].instante < s[j].instante
}

/// The append-only sequence of snapshots and the phase of its poller.
pub struct Metrics {
    vector: Vec<Metric>,
    fase: FaseMonitor,
}

impl View for Metrics {
    type V = MetricsVista;

    closed spec fn view(&self) -> MetricsVista {
        MetricsVista { instantaneas: self.vector@.map_values(|m: Metric| m@), fase: self.fase }
    }
}

impl Clone for Metrics {
    /// A copy of the snapshots. The poller belongs to the store copied: the copy
    /// has none.
    fn clone(&self) -> (r: Self)
        ensures
            r@.instantaneas == self@.instantaneas,
            r@.fase == FaseMonitor::Inactivo,
    {
        let ghost s = self@.instantaneas;
        let mut vector: Vec<Metric> = Vec::new();
        let mut k: usize = 0;
        while k < self.vector.len()
            invariant
                s == self@.instantaneas,
                k <= s.len(),
                vector@.len() == k,
                vector@.map_values(|m: Metric| m@) == s.take(k as int),
            decreases s.len() - k,
        {
            let copia = self.vector[k].clone();
            let ghost antes = vector@;
            vector.push(copia);
            assert(vector@.map_values(|m: Metric| m@) =~= s.take(k + 1)) by {
                assert forall|j: int| 0 <= j < k implies vector@[j]@ == s[j] by {
                    assert(vector@[j] == antes[j]);
                    assert(antes.map_values(|m: Metric| m@)[j] == s.take(k as int)[j]);
                }
            }
            k = k + 1;
        }
        assert(s.take(s.len() as int) =~= s);
        Metrics { vector, fase: FaseMonitor::Inactivo }
    }
}

impl Metrics {
    /// An empty store with no poller.
    pub fn new() -> (r: Metrics)
        ensures
            r@.instantaneas == Seq::<MetricVista>::empty(),
            r@.fase == FaseMonitor::Inactivo,
    {
        let r = Metrics { vector: Vec::new(), fase: FaseMonitor::Inactivo };
        assert(r@.instantaneas =~= Seq::<MetricVista>::empty());
        r
    }

    /// Appends `metric` after every snapshot already kept.
    pub fn refresh(&mut self, metric: Metric)
        ensures
            final(self)@ == tras_refrescar(old(self)@, metric@),
    {
        self.vector.push(metric);
        assert(self@.instantaneas =~= old(self)@.instantaneas.push(metric@));
    }

    /// The last snapshot, or `None` while the store is empty.
    pub fn latest(&self) -> (r: Option<&Metric>)
        ensures
            r matches Some(m) ==> ultima(self@) == Some(m@),
            r is None ==> ultima(self@) is None,
    {
        let n = self.vector.len();
        if n == 0 {
            None
        } else {
            Some(&self.vector[n - 1])
        }
    }

    /// The number of snapshots kept.
    pub fn cantidad(&self) -> (r: usize)
        ensures
            r == self@.instantaneas.len(),
    {
        self.vector.len()
    }

    /// The snapshot at `index`, counting from the oldest; the index must be
    /// in range.
    pub fn instantanea(&self, index: usize) -> (r: &Metric)
        requires
            index < self@.instantaneas.len(),
        ensures
            r@ == self@.instantaneas[index as int],
    {
        &self.vector[index]
    }

    /// Where the poller stands.
    pub fn fase(&self) -> (r: FaseMonitor)
        ensures
            r == self@.fase,
    {
        self.fase
    }

    /// Whether a poller is running or being joined.
    pub fn monitoreando(&self) -> (r: bool)
        ensures
            r == monitoreando(self@),
    {
        self.fase != FaseMonitor::Inactivo
    }

    /// Starts monitoring: with no poller, empties the store and asks for one;
    /// otherwise changes nothing and asks for nothing.
    pub fn start_monitoring(&mut self) -> (r: AccionMonitor)
        ensures
            (final(self)@, r) == tras_iniciar(old(self)@),
    {
        if self.fase == FaseMonitor::Inactivo {
            self.vector.clear();
            self.fase = FaseMonitor::Activo;
            assert(self@.instantaneas =~= Seq::<MetricVista>::empty());
            AccionMonitor::LanzarSondeo
        } else {
            AccionMonitor::Ninguna
        }
    }

    /// Stops monitoring: a running poller is to be woken and joined; in any
    /// other phase nothing changes.
    pub fn stop_monitoring(&mut self) -> (r: AccionMonitor)
        ensures
            (final(self)@, r) == tras_detener(old(self)@),
    {
        if self.fase == FaseMonitor::Activo {
            self.fase = FaseMonitor::Deteniendo;
            AccionMonitor::SenalarYEsperar
        } else {
            AccionMonitor::Ninguna
        }
    }

    /// Records that the poller has exited and been joined.
    pub fn sondeo_terminado(&mut self)
        ensures
            final(self)@ == tras_terminar(old(self)@),
    {
        self.fase = FaseMonitor::Inactivo;
    }

    /// The poller offers `metric`. While monitoring is on it is appended and
    /// the poller goes on (`true`). While the poller is being stopped it is
    /// appended, having been taken before the stop, and the poller exits
    /// (`false`). With no poller it is dropped (`false`).
    pub fn registrar_sondeo(&mut self, metric: Metric) -> (r: bool)
        ensures
            (final(self)@, r) == tras_sondeo(old(self)@, metric@),
    {
        match self.fase {
            FaseMonitor::Activo => {
                self.refresh(metric);
                true
            },
            FaseMonitor::Deteniendo => {
                self.refresh(metric);
                false
            },
            FaseMonitor::Inactivo => false,
        }
    }
}

/// Refreshing keeps the snapshots in the order of the calls: after refreshing
/// with each of `ms` in turn, the store holds what it held followed by `ms`.
/// When the snapshots were taken one strictly after the other, their
/// instants strictly increase along the store.
pub proof fn ley_orden_de_llamadas(v: MetricsVista, ms: Seq<MetricVista>)
    ensures
        tras_refrescar_todas(v, ms).instantaneas == v.instantaneas + ms,
        tras_refrescar_todas(v, ms).fase == v.fase,
        instantes_crecientes(v.instantaneas) && instantes_crecientes(ms) && (
        v.instantaneas.len() == 0 || ms.len() == 0 || v.instantaneas.last().instante
            < ms[0].instante) ==> instantes_crecientes(tras_refrescar_todas(v, ms).instantaneas),
    decreases ms.len(),
{
    if ms.len() > 0 {
        ley_orden_de_llamadas(v, ms.drop_last());
        assert(v.instantaneas + ms =~= (v.instantaneas + ms.drop_last()).push(ms.last()));
    } else {
        assert(v.instantaneas + ms =~= v.instantaneas);
    }
    let s = v.instantaneas + ms;
    if instantes_crecientes(v.instantaneas) && instantes_crecientes(ms) && (
    v.instantaneas.len() == 0 || ms.len() == 0 || v.instantaneas.last().instante
        < ms[0].instante) {
        let n = v.instantaneas.len() as int;
        assert forall|i: int, j: int| 0 <= i < j < s.len() implies s[i].instante
            < s[j].instante by {
            if i < n && j >= n {
                if i < n - 1 {
                    assert(s[i].instante < s[n - 1].instante);
                }
                if j > n {
                    assert(ms[0].instante < ms[j - n].instante);
                }
            }
        }
    }
}

/// An empty store has no last snapshot; after one refresh its last snapshot
/// is the one just given.
pub proof fn ley_ultima_tras_un_refresco(v: MetricsVista, m: MetricVista)
    requires
        v.instantaneas.len() == 0,
    ensures
        ultima(v) is None,
        ultima(tras_refrescar(v, m)) == Some(m),
{
}

/// Starting twice without stopping asks for one poller only: the second start
/// asks for nothing and changes nothing.
pub proof fn ley_un_solo_sondeo(v: MetricsVista)
    ensures
        tras_iniciar(tras_iniciar(v).0).1 == AccionMonitor::Ninguna,
        tras_iniciar(tras_iniciar(v).0).0 == tras_iniciar(v).0,
        monitoreando(tras_iniciar(v).0),
{
}

/// A lifecycle call on the store, as the caller makes them.
pub enum Suceso {
    /// `start_monitoring`, spawning a poller when it asks for one.
    Iniciar,
    /// `stop_monitoring`.
    Detener,
    /// `sondeo_terminado`, once the poller has been joined.
    Terminar,
}

/// The store and the number of live pollers after `sucesos`, from `v` with
/// `vivos` pollers.
pub open spec fn recorrer(v: MetricsVista, vivos: nat, sucesos: Seq<Suceso>) -> (MetricsVista, nat)
    decreases sucesos.len(),
{
    if sucesos.len() == 0 {
        (v, vivos)
    } else {
        let (w, n) = recorrer(v, vivos, sucesos.drop_last());
        match sucesos.last() {
            Suceso::Iniciar => {
                let (w2, a) = tras_iniciar(w);
                (w2, if a == AccionMonitor::LanzarSondeo {
                    n + 1
                } else {
                    n
                })
            },
            Suceso::Detener => (tras_detener(w).0, n),
            Suceso::Terminar => (tras_terminar(w), 0),
        }
    }
}

/// Whatever the calls, at most one poller runs at a time: starting from a
/// store with none, a poller is alive exactly while the store is
/// monitoring.
pub proof fn ley_a_lo_sumo_un_sondeo(v: MetricsVista, sucesos: Seq<Suceso>)
    requires
        !monitoreando(v),
    ensures
        recorrer(v, 0, sucesos).1 <= 1,
        recorrer(v, 0, sucesos).1 == (if monitoreando(recorrer(v, 0, sucesos).0) {
            1nat
        } else {
            0nat
        }),
    decreases sucesos.len(),
{
    if sucesos.len() > 0 {
        ley_a_lo_sumo_un_sondeo(v, sucesos.drop_last());
    }
}

/// Stopping a running poller and joining it leaves no poller behind and
/// keeps every snapshot; a snapshot the poller offers after the stop is kept
/// and the poller is told to exit.
pub proof fn ley_detener_y_esperar(v: MetricsVista, m: MetricVista)
    requires
        monitoreando(v),
    ensures
        !monitoreando(tras_terminar(tras_detener(v).0)),
        tras_terminar(tras_detener(v).0).instantaneas == v.instantaneas,
        tras_sondeo(tras_detener(v).0, m) == (tras_refrescar(tras_detener(v).0, m), false),
{
}

} // verus!
