//! What the panels compute from the latest snapshot: the four charted
//! figures with their rolling histories, and the two alerts.
//! Percentages are in hundredths of a percent; network traffic in kB.

use vstd::prelude::*;
use crate::cpu::{promedio_uso, suma_uso};
use crate::disco::porcentaje_libre;
use crate::historial::{con_valor, con_valores, ley_capacidad_fija, ultimos, HistorialAcotado, HistorialVista};
use crate::interfaces::InterfacesVista;
use crate::memoria::{porcentaje_usado, supera_limite_memoria};
use crate::metrics::{Metric, MetricVista};

verus! {

/// How many points each chart keeps.
pub const MAX_PUNTOS: usize = 100;

/// Bytes in one kB.
pub const B_TO_KB: u64 = 1000;

/// The bytes received over all interfaces, in whole kB.
pub open spec fn red_en_kb(r: InterfacesVista) -> u64 {
    r.total_bytes_recibidos / B_TO_KB
}

/// The figure that the CPU chart draws for a snapshot: the mean usage.
pub open spec fn figura_cpu(m: MetricVista) -> u64 {
    promedio_uso(m.cpu.uso_nucleos) as u64
}

/// The figure that the memory chart draws: the share in use.
pub open spec fn figura_memoria(m: MetricVista) -> u64 {
    porcentaje_usado(m.memoria) as u64
}

/// The figure that the network chart draws: the kB received.
pub open spec fn figura_red(m: MetricVista) -> u64 {
    red_en_kb(m.red)
}

/// The figure that the disk chart draws: the share of space free.
pub open spec fn figura_disco(m: MetricVista) -> u64 {
    porcentaje_libre(m.disco) as u64
}

/// A history after `v` is pushed, keeping its capacity.
pub open spec fn con_figura(h: HistorialVista, v: u64) -> HistorialVista {
    HistorialVista { valores: con_valor(h.valores, h.capacidad, v), capacidad: h.capacidad }
}

/// The charts after `actualizar_historicos` with `m`.
pub open spec fn tras_actualizar(p: PanelGraficasVista, m: MetricVista) -> PanelGraficasVista {
    PanelGraficasVista {
        cpu: con_figura(p.cpu, figura_cpu(m)),
        memoria: con_figura(p.memoria, figura_memoria(m)),
        red: con_figura(p.red, figura_red(m)),
        disco: con_figura(p.disco, figura_disco(m)),
        max_puntos: p.max_puntos,
    }
}

/// The charts after `actualizar_historicos` with each of `ms` in turn.
pub open spec fn tras_actualizar_todas(p: PanelGraficasVista, ms: Seq<MetricVista>) -> PanelGraficasVista
    decreases ms.len(),
{
    if ms.len() == 0 {
        p
    } else {
        tras_actualizar(tras_actualizar_todas(p, ms.drop_last()), ms.last())
    }
}

/// The panel of statistics of the latest snapshot.
pub struct PanelMetricas;

/// What a `PanelGraficas` holds: one history per chart, and their capacity.
pub struct PanelGraficasVista {
    pub cpu: HistorialVista,
    pub memoria: HistorialVista,
    pub red: HistorialVista,
    pub disco: HistorialVista,
    pub max_puntos: nat,
}

impl PanelGraficasVista {
    /// Every history is well formed and has room for `max_puntos` values,
    /// which is `MAX_PUNTOS`.
    pub open spec fn bien_formado(self) -> bool {
        &&& self.max_puntos == MAX_PUNTOS
        &&& self.cpu.bien_formado() && self.cpu.capacidad == self.max_puntos
        &&& self.memoria.bien_formado() && self.memoria.capacidad == self.max_puntos
        &&& self.red.bien_formado() && self.red.capacidad == self.max_puntos
        &&& self.disco.bien_formado() && self.disco.capacidad == self.max_puntos
    }
}

/// The panel of charts: the rolling history of each charted figure.
pub struct PanelGraficas {
    historico_cpu: HistorialAcotado,
    historico_memoria: HistorialAcotado,
    historico_red: HistorialAcotado,
    historico_disco: HistorialAcotado,
    max_puntos: usize,
}

impl View for PanelGraficas {
    type V = PanelGraficasVista;

    closed spec fn view(&self) -> PanelGraficasVista {
        PanelGraficasVista {
            cpu: self.historico_cpu@,
            memoria: self.historico_memoria@,
            red: self.historico_red@,
            disco: self.historico_disco@,
            max_puntos: self.max_puntos as nat,
        }
    }
}

impl PanelGraficas {
    #[verifier::type_invariant]
    spec fn invariante(self) -> bool {
        self@.bien_formado()
    }

    /// Empty histories with room for `MAX_PUNTOS` values each.
    pub fn new() -> (r: PanelGraficas)
        ensures
            r@.bien_formado(),
            r@.cpu.valores.len() == 0,
            r@.memoria.valores.len() == 0,
            r@.red.valores.len() == 0,
            r@.disco.valores.len() == 0,
    {
        PanelGraficas {
            historico_cpu: HistorialAcotado::new(MAX_PUNTOS),
            historico_memoria: HistorialAcotado::new(MAX_PUNTOS),
            historico_red: HistorialAcotado::new(MAX_PUNTOS),
            historico_disco: HistorialAcotado::new(MAX_PUNTOS),
            max_puntos: MAX_PUNTOS,
        }
    }

    /// Pushes the four figures of `metric` onto their histories.
    pub fn actualizar_historicos(&mut self, metric: &Metric)
        ensures
            final(self)@ == tras_actualizar(old(self)@, metric@),
            final(self)@.bien_formado(),
    {
        proof {
            use_type_invariant(&*self);
        }
        let cpu = metric.cpu().promedio_uso();
        let memoria = metric.memoria().porcentaje_usado();
        let red = metric.red().get_bytes_recibidos() / B_TO_KB;
        let disco = metric.disco().porcentaje_libre();
        let mut h = HistorialAcotado::new(MAX_PUNTOS);
        std::mem::swap(&mut self.historico_cpu, &mut h);
        h.push(cpu);
        std::mem::swap(&mut self.historico_cpu, &mut h);
        let mut h = HistorialAcotado::new(MAX_PUNTOS);
        std::mem::swap(&mut self.historico_memoria, &mut h);
        h.push(memoria);
        std::mem::swap(&mut self.historico_memoria, &mut h);
        let mut h = HistorialAcotado::new(MAX_PUNTOS);
        std::mem::swap(&mut self.historico_red, &mut h);
        h.push(red);
        std::mem::swap(&mut self.historico_red, &mut h);
        let mut h = HistorialAcotado::new(MAX_PUNTOS);
        std::mem::swap(&mut self.historico_disco, &mut h);
        h.push(disco);
        std::mem::swap(&mut self.historico_disco, &mut h);
    }

    pub fn historico_cpu(&self) -> (r: &HistorialAcotado)
        ensures
            r@ == self@.cpu,
    {
        &self.historico_cpu
    }

    pub fn historico_memoria(&self) -> (r: &HistorialAcotado)
        ensures
            r@ == self@.memoria,
    {
        &self.historico_memoria
    }

    pub fn historico_red(&self) -> (r: &HistorialAcotado)
        ensures
            r@ == self@.red,
    {
        &self.historico_red
    }

    pub fn historico_disco(&self) -> (r: &HistorialAcotado)
        ensures
            r@ == self@.disco,
    {
        &self.historico_disco
    }

    pub fn max_puntos(&self) -> (r: usize)
        ensures
            r == self@.max_puntos,
    {
        self.max_puntos
    }
}

/// A chart history after updates with `ms`: what `con_valores` gives for the
/// figure of each snapshot.
proof fn lema_una_grafica(
    p: PanelGraficasVista,
    ms: Seq<MetricVista>,
    h: spec_fn(PanelGraficasVista) -> HistorialVista,
    figura: spec_fn(MetricVista) -> u64,
)
    requires
        forall|q: PanelGraficasVista, m: MetricVista| #[trigger] h(tras_actualizar(q, m)) == con_figura(h(q), figura(m)),
    ensures
        h(tras_actualizar_todas(p, ms)).valores == con_valores(
            h(p).valores,
            h(p).capacidad,
            ms.map_values(figura),
        ),
        h(tras_actualizar_todas(p, ms)).capacidad == h(p).capacidad,
    decreases ms.len(),
{
    if ms.len() > 0 {
        lema_una_grafica(p, ms.drop_last(), h, figura);
        assert(ms.map_values(figura).drop_last() =~= ms.drop_last().map_values(figura));
    } else {
        assert(ms.map_values(figura) =~= Seq::<u64>::empty());
    }
}

/// Every chart keeps at most `MAX_PUNTOS` values: after updates with any
/// snapshots in turn, each history holds exactly the figures of the most
/// recent `MAX_PUNTOS` of all it has seen, oldest first, or all of them when
/// there are fewer.
pub proof fn ley_graficas_acotadas(p: PanelGraficasVista, ms: Seq<MetricVista>)
    requires
        p.bien_formado(),
    ensures
        tras_actualizar_todas(p, ms).bien_formado(),
        tras_actualizar_todas(p, ms).cpu.valores == ultimos(
            p.cpu.valores + ms.map_values(|m| figura_cpu(m)),
            MAX_PUNTOS as nat,
        ),
        tras_actualizar_todas(p, ms).memoria.valores == ultimos(
            p.memoria.valores + ms.map_values(|m| figura_memoria(m)),
            MAX_PUNTOS as nat,
        ),
        tras_actualizar_todas(p, ms).red.valores == ultimos(
            p.red.valores + ms.map_values(|m| figura_red(m)),
            MAX_PUNTOS as nat,
        ),
        tras_actualizar_todas(p, ms).disco.valores == ultimos(
            p.disco.valores + ms.map_values(|m| figura_disco(m)),
            MAX_PUNTOS as nat,
        ),
{
    let fc = |m| figura_cpu(m);
    let fm = |m| figura_memoria(m);
    let fr = |m| figura_red(m);
    let fd = |m| figura_disco(m);
    lema_una_grafica(p, ms, |q: PanelGraficasVista| q.cpu, fc);
    lema_una_grafica(p, ms, |q: PanelGraficasVista| q.memoria, fm);
    lema_una_grafica(p, ms, |q: PanelGraficasVista| q.red, fr);
    lema_una_grafica(p, ms, |q: PanelGraficasVista| q.disco, fd);
    ley_capacidad_fija(p.cpu.valores, MAX_PUNTOS as nat, ms.map_values(fc));
    ley_capacidad_fija(p.memoria.valores, MAX_PUNTOS as nat, ms.map_values(fm));
    ley_capacidad_fija(p.red.valores, MAX_PUNTOS as nat, ms.map_values(fr));
    ley_capacidad_fija(p.disco.valores, MAX_PUNTOS as nat, ms.map_values(fd));
    lema_max_puntos(p, ms);
}

/// Updates keep the capacity of the charts.
proof fn lema_max_puntos(p: PanelGraficasVista, ms: Seq<MetricVista>)
    ensures
        tras_actualizar_todas(p, ms).max_puntos == p.max_puntos,
    decreases ms.len(),
{
    if ms.len() > 0 {
        lema_max_puntos(p, ms.drop_last());
    }
}

/// The mean CPU usage of `m` is above `limite` hundredths of a percent.
pub open spec fn alerta_cpu(m: MetricVista, limite: u64) -> bool {
    suma_uso(m.cpu.uso_nucleos) > limite * m.cpu.uso_nucleos.len()
}

/// The share of memory in use in `m` is above `limite` hundredths of a
/// percent.
pub open spec fn alerta_memoria(m: MetricVista, limite: u64) -> bool {
    supera_limite_memoria(m.memoria, limite)
}

/// Which alerts a snapshot raises.
pub struct EstadoAlertas {
    pub cpu: bool,
    pub memoria: bool,
}

/// The panel of alerts.
pub struct PanelAlertas;

impl PanelAlertas {
    /// Compares the mean CPU usage and the share of memory in use of
    /// `metric` with the two limits, in hundredths of a percent.
    pub fn evaluar(metric: &Metric, cpu_limite: u64, mem_limite: u64) -> (r: EstadoAlertas)
        ensures
            r.cpu == alerta_cpu(metric@, cpu_limite),
            r.memoria == alerta_memoria(metric@, mem_limite),
    {
        EstadoAlertas {
            cpu: metric.cpu().supera_limite(cpu_limite),
            memoria: metric.memoria().supera_limite(mem_limite),
        }
    }
}

} // verus!
