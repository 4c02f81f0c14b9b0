//! The process table of one snapshot and its four rankings.
//! CPU usage is kept in hundredths of a percentage point, memory in MiB.

use vstd::prelude::*;
use crate::memoria::B_TO_MB;

verus! {

/// What a `ProcesoInfo` holds, field by field.
pub struct ProcesoVista {
    pub pid: i32,
    pub nombre: Seq<char>,
    pub tiempo_ejecucion: u64,
    pub tiempo_en_cpu: u64,
    pub uso_cpu: u32,
    pub uso_memoria: u64,
    pub uso_memoria_virtual: u64,
    pub estado: Seq<char>,
}

/// One process: its id, name, run time and CPU time in seconds, CPU usage,
/// resident and virtual memory, and status.
pub struct ProcesoInfo {
    pid: i32,
    nombre: String,
    tiempo_ejecucion: u64,
    tiempo_en_cpu: u64,
    uso_cpu: u32,
    uso_memoria: u64,
    uso_memoria_virtual: u64,
    estado: String,
}

impl View for ProcesoInfo {
    type V = ProcesoVista;

    closed spec fn view(&self) -> ProcesoVista {
        ProcesoVista {
            pid: self.pid,
            nombre: self.nombre@,
            tiempo_ejecucion: self.tiempo_ejecucion,
            tiempo_en_cpu: self.tiempo_en_cpu,
            uso_cpu: self.uso_cpu,
            uso_memoria: self.uso_memoria,
            uso_memoria_virtual: self.uso_memoria_virtual,
            estado: self.estado@,
        }
    }
}

impl Clone for ProcesoInfo {
    fn clone(&self) -> (r: Self)
        ensures
            r@ == self@,
    {
        ProcesoInfo { nombre: self.nombre.clone(), estado: self.estado.clone(), ..*self }
    }
}

/// The figure by which a ranking orders the processes.
#[derive(Clone, Copy, PartialEq, Eq, Structural)]
pub enum Criterio {
    UsoCpu,
    UsoMemoria,
    TiempoCpu,
    TiempoEjecucion,
}

/// The figure of `p` that criterion `c` reads.
pub open spec fn clave(p: ProcesoVista, c: Criterio) -> u64 {
    match c {
        Criterio::UsoCpu => p.uso_cpu as u64,
        Criterio::UsoMemoria => p.uso_memoria,
        Criterio::TiempoCpu => p.tiempo_en_cpu,
        Criterio::TiempoEjecucion => p.tiempo_ejecucion,
    }
}

/// The processes of `s` whose figure under `c` is `k`, in their order in `s`.
pub open spec fn con_clave(s: Seq<ProcesoVista>, c: Criterio, k: u64) -> Seq<ProcesoVista> {
    s.filter(|p: ProcesoVista| clave(p, c) == k)
}

/// No process of `s` has a larger figure under `c` than one before it.
pub open spec fn ordenado_desc(s: Seq<ProcesoVista>, c: Criterio) -> bool {
    forall|i: int, j: int| 0 <= i < j < s.len() ==> clave(s[i], c) >= clave(s[j], c)
}

/// `salida` is `entrada` ordered from the largest figure under `c` down,
/// processes with equal figures keeping their order in `entrada`.
pub open spec fn ordenacion_estable(
    entrada: Seq<ProcesoVista>,
    salida: Seq<ProcesoVista>,
    c: Criterio,
) -> bool {
    &&& ordenado_desc(salida, c)
    &&& forall|k: u64| #[trigger] con_clave(salida, c, k) == con_clave(entrada, c, k)
}

/// The first `n` elements of `s`, or all of them when there are fewer.
pub open spec fn primeros(s: Seq<ProcesoVista>, n: nat) -> Seq<ProcesoVista> {
    if s.len() <= n {
        s
    } else {
        s.take(n as int)
    }
}

/// The view of each process of a list, in order.
pub open spec fn vistas_procesos(s: Seq<ProcesoInfo>) -> Seq<ProcesoVista> {
    s.map_values(|p: ProcesoInfo| p@)
}

/// The four rankings that a process table is built from: by CPU usage, then
/// by memory, then by CPU time, then by run time, each ordering the previous.
pub open spec fn cadena_de_rankings(
    entrada: Seq<ProcesoVista>,
    por_cpu: Seq<ProcesoVista>,
    por_memoria: Seq<ProcesoVista>,
    por_tiempo_cpu: Seq<ProcesoVista>,
    por_tiempo_ejecucion: Seq<ProcesoVista>,
) -> bool {
    &&& ordenacion_estable(entrada, por_cpu, Criterio::UsoCpu)
    &&& ordenacion_estable(por_cpu, por_memoria, Criterio::UsoMemoria)
    &&& ordenacion_estable(por_memoria, por_tiempo_cpu, Criterio::TiempoCpu)
    &&& ordenacion_estable(por_tiempo_cpu, por_tiempo_ejecucion, Criterio::TiempoEjecucion)
}

/// Inserting `x` at `p`, where every element before `p` has a figure at
/// least that of `x` and every element from `p` on a smaller one, adds `x`
/// to the end of the processes that share its figure and to no other.
proof fn lema_filtro_insercion(t: Seq<ProcesoVista>, p: int, x: ProcesoVista, c: Criterio, k: u64)
    requires
        0 <= p <= t.len(),
        forall|j: int| p <= j < t.len() ==> clave(t[j], c) < clave(x, c),
    ensures
        con_clave(t.insert(p, x), c, k) == if clave(x, c) == k {
            con_clave(t, c, k).push(x)
        } else {
            con_clave(t, c, k)
        },
{
    let pred = |q: ProcesoVista| clave(q, c) == k;
    let a = t.take(p);
    let b = t.skip(p);
    assert(t =~= a + b);
    assert(t.insert(p, x) =~= (a + seq![x]) + b);
    Seq::filter_distributes_over_add(a, b, pred);
    Seq::filter_distributes_over_add(a + seq![x], b, pred);
    Seq::filter_distributes_over_add(a, seq![x], pred);
    assert(seq![x] =~= Seq::<ProcesoVista>::empty().push(x));
    Seq::<ProcesoVista>::empty().lemma_filter_push(x, pred);
    reveal(Seq::filter);
    assert(Seq::<ProcesoVista>::empty().filter(pred) =~= Seq::<ProcesoVista>::empty());
    if clave(x, c) == k {
        assert(b.all(|q: ProcesoVista| !pred(q))) by {
            assert forall|j: int| 0 <= j < b.len() implies !pred(b[j]) by {
                assert(b[j] == t[p + j]);
            }
        }
        b.lemma_all_neg_filter_empty(pred);
        assert(b.filter(pred) =~= Seq::<ProcesoVista>::empty());
        assert(a.filter(pred) + seq![x] =~= (a.filter(pred) + b.filter(pred)).push(x));
    } else {
        assert(a.filter(pred) + Seq::<ProcesoVista>::empty() =~= a.filter(pred));
    }
}

/// Orders `v` from the largest figure under `c` down; processes with equal
/// figures keep their order.
pub fn ordenar_desc(v: &Vec<ProcesoInfo>, c: Criterio) -> (r: Vec<ProcesoInfo>)
    ensures
        ordenacion_estable(vistas_procesos(v@), vistas_procesos(r@), c),
        r@.len() == v@.len(),
{
    let ghost s = vistas_procesos(v@);
    let mut r: Vec<ProcesoInfo> = Vec::new();
    let mut i: usize = 0;
    assert(s.take(0) =~= vistas_procesos(r@));
    while i < v.len()
        invariant
            s == vistas_procesos(v@),
            i <= s.len(),
            r@.len() == i,
            ordenacion_estable(s.take(i as int), vistas_procesos(r@), c),
        decreases s.len() - i,
    {
        let kx = v[i].clave(c);
        let ghost t = vistas_procesos(r@);
        let mut p: usize = 0;
        while p < r.len() && r[p].clave(c) >= kx
            invariant
                t == vistas_procesos(r@),
                p <= r@.len(),
                forall|j: int| 0 <= j < p ==> clave(t[j], c) >= kx,
            decreases r@.len() - p,
        {
            p = p + 1;
        }
        proof {
            // the figures after `p` are smaller, as `t` is ordered
            assert forall|j: int| p <= j < t.len() implies clave(t[j], c) < kx by {
                assert(clave(t[p as int], c) < kx);
            }
        }
        let copia = v[i].clone();
        r.insert(p, copia);
        proof {
            let x = s[i as int];
            assert(vistas_procesos(r@) =~= t.insert(p as int, x));
            assert(s.take(i + 1) =~= s.take(i as int).push(x));
            assert forall|k: u64|
                #[trigger] con_clave(vistas_procesos(r@), c, k) == con_clave(
                    s.take(i + 1),
                    c,
                    k,
                ) by {
                lema_filtro_insercion(t, p as int, x, c, k);
                s.take(i as int).lemma_filter_push(x, |q: ProcesoVista| clave(q, c) == k);
            }
            assert forall|a: int, b: int|
                0 <= a < b < vistas_procesos(r@).len() implies clave(vistas_procesos(r@)[a], c)
                >= clave(vistas_procesos(r@)[b], c) by {
                let u = vistas_procesos(r@);
                if b < p {
                } else if b == p {
                } else if a < p {
                    assert(u[b] == t[b - 1]);
                } else if a == p {
                    assert(u[b] == t[b - 1]);
                } else {
                    assert(u[a] == t[a - 1]);
                    assert(u[b] == t[b - 1]);
                }
            }
        }
        i = i + 1;
    }
    assert(s.take(s.len() as int) =~= s);
    r
}

/// Copies of the first `n` processes of `v`, or of all when there are fewer.
fn copiar_primeros(v: &Vec<ProcesoInfo>, n: usize) -> (r: Vec<ProcesoInfo>)
    ensures
        vistas_procesos(r@) == primeros(vistas_procesos(v@), n as nat),
{
    let ghost s = vistas_procesos(v@);
    let limite = if v.len() <= n {
        v.len()
    } else {
        n
    };
    let mut r: Vec<ProcesoInfo> = Vec::new();
    let mut i: usize = 0;
    while i < limite
        invariant
            s == vistas_procesos(v@),
            limite <= s.len(),
            i <= limite,
            r@.len() == i,
            vistas_procesos(r@) == s.take(i as int),
        decreases limite - i,
    {
        let copia = v[i].clone();
        let ghost antes = r@;
        r.push(copia);
        assert(vistas_procesos(r@) =~= s.take(i + 1)) by {
            assert forall|j: int| 0 <= j < i implies r@[j]@ == s[j] by {
                assert(r@[j] == antes[j]);
                assert(vistas_procesos(antes)[j] == s.take(i as int)[j]);
            }
        }
        i = i + 1;
    }
    assert(s.take(s.len() as int) =~= s);
    r
}

/// Days, hours, minutes and seconds in `segundos`.
pub open spec fn desglose(segundos: u64) -> (u64, u64, u64, u64) {
    (
        segundos / 86400,
        (segundos % 86400) / 3600,
        (segundos % 3600) / 60,
        segundos % 60,
    )
}

/// The decimal digit `d`.
pub open spec fn digito(d: nat) -> char {
    seq!['0', '1', '2', '3', '4', '5', '6', '7', '8', '9'][(d % 10) as int]
}

/// `n` in decimal, without leading zeros.
pub open spec fn decimal(n: nat) -> Seq<char>
    decreases n,
{
    if n < 10 {
        seq![digito(n)]
    } else {
        decimal(n / 10).push(digito(n % 10))
    }
}

/// The text that `formatear_tiempo` gives for a duration split into days,
/// hours, minutes and seconds.
pub open spec fn texto_duracion(dias: u64, horas: u64, minutos: u64, segundos: u64) -> Seq<char> {
    decimal(dias as nat) + " días, "@ + decimal(horas as nat) + " horas, "@ + decimal(
        minutos as nat,
    ) + " minutos, "@ + decimal(segundos as nat) + " segundos"@
}

/// The text of the decimal digit `d`.
fn texto_digito(d: u64) -> (r: &'static str)
    requires
        d < 10,
    ensures
        r@ == seq![digito(d as nat)],
{
    match d {
        0 => {
            proof {
                reveal_strlit("0");
            }
            "0"
        },
        1 => {
            proof {
                reveal_strlit("1");
            }
            "1"
        },
        2 => {
            proof {
                reveal_strlit("2");
            }
            "2"
        },
        3 => {
            proof {
                reveal_strlit("3");
            }
            "3"
        },
        4 => {
            proof {
                reveal_strlit("4");
            }
            "4"
        },
        5 => {
            proof {
                reveal_strlit("5");
            }
            "5"
        },
        6 => {
            proof {
                reveal_strlit("6");
            }
            "6"
        },
        7 => {
            proof {
                reveal_strlit("7");
            }
            "7"
        },
        8 => {
            proof {
                reveal_strlit("8");
            }
            "8"
        },
        _ => {
            proof {
                reveal_strlit("9");
            }
            "9"
        },
    }
}

/// Appends `n` to `s` in decimal, without leading zeros.
fn escribir_decimal(s: &mut String, n: u64)
    ensures
        final(s)@ == old(s)@ + decimal(n as nat),
    decreases n,
{
    let ghost antes = s@;
    if n >= 10 {
        escribir_decimal(s, n / 10);
    }
    s.append(texto_digito(n % 10));
    proof {
        if n >= 10 {
            assert(s@ =~= antes + decimal((n / 10) as nat).push(digito((n % 10) as nat)));
        } else {
            assert(s@ =~= antes + decimal(n as nat));
        }
    }
}

impl ProcesoInfo {
    /// The record of one process; the memory figures come in bytes.
    pub fn desde_sistema(
        pid: i32,
        nombre: String,
        tiempo_ejecucion: u64,
        tiempo_en_cpu: u64,
        uso_cpu: u32,
        memoria_bytes: u64,
        memoria_virtual_bytes: u64,
        estado: String,
    ) -> (r: ProcesoInfo)
        ensures
            r@ == (ProcesoVista {
                pid,
                nombre: nombre@,
                tiempo_ejecucion,
                tiempo_en_cpu,
                uso_cpu,
                uso_memoria: memoria_bytes / B_TO_MB,
                uso_memoria_virtual: memoria_virtual_bytes / B_TO_MB,
                estado: estado@,
            }),
    {
        ProcesoInfo {
            pid,
            nombre,
            tiempo_ejecucion,
            tiempo_en_cpu,
            uso_cpu,
            uso_memoria: memoria_bytes / B_TO_MB,
            uso_memoria_virtual: memoria_virtual_bytes / B_TO_MB,
            estado,
        }
    }

    /// The figure of this process that criterion `c` reads.
    pub fn clave(&self, c: Criterio) -> (r: u64)
        ensures
            r == clave(self@, c),
    {
        match c {
            Criterio::UsoCpu => self.uso_cpu as u64,
            Criterio::UsoMemoria => self.uso_memoria,
            Criterio::TiempoCpu => self.tiempo_en_cpu,
            Criterio::TiempoEjecucion => self.tiempo_ejecucion,
        }
    }

    pub fn get_pid(&self) -> (r: i32)
        ensures
            r == self@.pid,
    {
        self.pid
    }

    pub fn get_nombre(&self) -> (r: &String)
        ensures
            r@ == self@.nombre,
    {
        &self.nombre
    }

    pub fn get_tiempo_ejecucion(&self) -> (r: u64)
        ensures
            r == self@.tiempo_ejecucion,
    {
        self.tiempo_ejecucion
    }

    pub fn get_tiempo_en_cpu(&self) -> (r: u64)
        ensures
            r == self@.tiempo_en_cpu,
    {
        self.tiempo_en_cpu
    }

    pub fn get_uso_cpu(&self) -> (r: u32)
        ensures
            r == self@.uso_cpu,
    {
        self.uso_cpu
    }

    pub fn get_uso_memoria(&self) -> (r: u64)
        ensures
            r == self@.uso_memoria,
    {
        self.uso_memoria
    }

    pub fn get_uso_memoria_virtual(&self) -> (r: u64)
        ensures
            r == self@.uso_memoria_virtual,
    {
        self.uso_memoria_virtual
    }

    pub fn get_estado(&self) -> (r: &String)
        ensures
            r@ == self@.estado,
    {
        &self.estado
    }

    /// Splits a number of seconds into days, hours, minutes and seconds.
    pub fn desglosar_tiempo(segundos: u64) -> (r: (u64, u64, u64, u64))
        ensures
            r == desglose(segundos),
            r.1 < 24 && r.2 < 60 && r.3 < 60,
            r.0 * 86400 + r.1 * 3600 + r.2 * 60 + r.3 == segundos,
    {
        let dias = segundos / 86400;
        let horas = (segundos % 86400) / 3600;
        let minutos = (segundos % 3600) / 60;
        let resto = segundos % 60;
        assert(dias * 86400 + horas * 3600 + minutos * 60 + resto == segundos) by (nonlinear_arith)
            requires
                dias == segundos / 86400,
                horas == (segundos % 86400) / 3600,
                minutos == (segundos % 3600) / 60,
                resto == segundos % 60,
        ;
        (dias, horas, minutos, resto)
    }

    /// A number of seconds as days, hours, minutes and seconds, in words.
    pub fn formatear_tiempo(segundos: u64) -> (r: String)
        ensures
            r@ == texto_duracion(
                desglose(segundos).0,
                desglose(segundos).1,
                desglose(segundos).2,
                desglose(segundos).3,
            ),
    {
        let (dias, horas, minutos, resto) = ProcesoInfo::desglosar_tiempo(segundos);
        let mut r = String::new();
        escribir_decimal(&mut r, dias);
        r.append(" días, ");
        escribir_decimal(&mut r, horas);
        r.append(" horas, ");
        escribir_decimal(&mut r, minutos);
        r.append(" minutos, ");
        escribir_decimal(&mut r, resto);
        r.append(" segundos");
        assert(r@ =~= texto_duracion(dias, horas, minutos, resto));
        r
    }
}

/// What a `ProcesosInfo` holds, field by field.
pub struct ProcesosVista {
    pub cantidad_procesos: usize,
    pub procesos: Seq<ProcesoVista>,
    pub top_procesos_uso_cpu: Seq<ProcesoVista>,
    pub top_procesos_uso_memoria: Seq<ProcesoVista>,
    pub top_procesos_tiempo_cpu: Seq<ProcesoVista>,
    pub top_procesos_tiempo_ejecucion: Seq<ProcesoVista>,
}

/// The processes of the host, ordered by run time, and the five that lead
/// each ranking.
pub struct ProcesosInfo {
    cantidad_procesos: usize,
    procesos: Vec<ProcesoInfo>,
    top_procesos_uso_cpu: Vec<ProcesoInfo>,
    top_procesos_uso_memoria: Vec<ProcesoInfo>,
    top_procesos_tiempo_cpu: Vec<ProcesoInfo>,
    top_procesos_tiempo_ejecucion: Vec<ProcesoInfo>,
}

impl View for ProcesosInfo {
    type V = ProcesosVista;

    closed spec fn view(&self) -> ProcesosVista {
        ProcesosVista {
            cantidad_procesos: self.cantidad_procesos,
            procesos: vistas_procesos(self.procesos@),
            top_procesos_uso_cpu: vistas_procesos(self.top_procesos_uso_cpu@),
            top_procesos_uso_memoria: vistas_procesos(self.top_procesos_uso_memoria@),
            top_procesos_tiempo_cpu: vistas_procesos(self.top_procesos_tiempo_cpu@),
            top_procesos_tiempo_ejecucion: vistas_procesos(self.top_procesos_tiempo_ejecucion@),
        }
    }
}

/// How many processes each ranking keeps.
pub const TOP: usize = 5;

impl Clone for ProcesosInfo {
    fn clone(&self) -> (r: Self)
        ensures
            r@ == self@,
    {
        proof {
            use_type_invariant(self);
        }
        let procesos = copiar_primeros(&self.procesos, self.procesos.len());
        let top_procesos_uso_cpu = copiar_primeros(
            &self.top_procesos_uso_cpu,
            self.top_procesos_uso_cpu.len(),
        );
        let top_procesos_uso_memoria = copiar_primeros(
            &self.top_procesos_uso_memoria,
            self.top_procesos_uso_memoria.len(),
        );
        let top_procesos_tiempo_cpu = copiar_primeros(
            &self.top_procesos_tiempo_cpu,
            self.top_procesos_tiempo_cpu.len(),
        );
        let top_procesos_tiempo_ejecucion = copiar_primeros(
            &self.top_procesos_tiempo_ejecucion,
            self.top_procesos_tiempo_ejecucion.len(),
        );
        let r = ProcesosInfo {
            cantidad_procesos: self.cantidad_procesos,
            procesos,
            top_procesos_uso_cpu,
            top_procesos_uso_memoria,
            top_procesos_tiempo_cpu,
            top_procesos_tiempo_ejecucion,
        };
        assert(r@.procesos.len() == self@.procesos.len());
        r
    }
}

impl ProcesosInfo {
    #[verifier::type_invariant]
    spec fn invariante(self) -> bool {
        self.cantidad_procesos == self.procesos@.len()
    }

    /// Ranks the processes by CPU usage, then memory, then CPU time, then run
    /// time, each ranking ordering the previous one, and keeps the first five
    /// of each; the table itself is the last ranking.
    pub fn desde_procesos(procesos: Vec<ProcesoInfo>) -> (r: ProcesosInfo)
        ensures
            exists|
                por_cpu: Seq<ProcesoVista>,
                por_memoria: Seq<ProcesoVista>,
                por_tiempo_cpu: Seq<ProcesoVista>,
            |
                {
                    &&& #[trigger] cadena_de_rankings(
                        vistas_procesos(procesos@),
                        por_cpu,
                        por_memoria,
                        por_tiempo_cpu,
                        r@.procesos,
                    )
                    &&& r@.top_procesos_uso_cpu == primeros(por_cpu, TOP as nat)
                    &&& r@.top_procesos_uso_memoria == primeros(por_memoria, TOP as nat)
                    &&& r@.top_procesos_tiempo_cpu == primeros(por_tiempo_cpu, TOP as nat)
                },
            r@.top_procesos_tiempo_ejecucion == primeros(r@.procesos, TOP as nat),
            r@.cantidad_procesos == procesos@.len(),
    {
        let por_cpu = ordenar_desc(&procesos, Criterio::UsoCpu);
        let top_procesos_uso_cpu = copiar_primeros(&por_cpu, TOP);
        let por_memoria = ordenar_desc(&por_cpu, Criterio::UsoMemoria);
        let top_procesos_uso_memoria = copiar_primeros(&por_memoria, TOP);
        let por_tiempo_cpu = ordenar_desc(&por_memoria, Criterio::TiempoCpu);
        let top_procesos_tiempo_cpu = copiar_primeros(&por_tiempo_cpu, TOP);
        let por_tiempo_ejecucion = ordenar_desc(&por_tiempo_cpu, Criterio::TiempoEjecucion);
        let top_procesos_tiempo_ejecucion = copiar_primeros(&por_tiempo_ejecucion, TOP);
        proof {
            assert(cadena_de_rankings(
                vistas_procesos(procesos@),
                vistas_procesos(por_cpu@),
                vistas_procesos(por_memoria@),
                vistas_procesos(por_tiempo_cpu@),
                vistas_procesos(por_tiempo_ejecucion@),
            ));
        }
        let ghost (a, b, c) = (
            vistas_procesos(por_cpu@),
            vistas_procesos(por_memoria@),
            vistas_procesos(por_tiempo_cpu@),
        );
        let r = ProcesosInfo {
            cantidad_procesos: por_tiempo_ejecucion.len(),
            procesos: por_tiempo_ejecucion,
            top_procesos_uso_cpu,
            top_procesos_uso_memoria,
            top_procesos_tiempo_cpu,
            top_procesos_tiempo_ejecucion,
        };
        assert(cadena_de_rankings(vistas_procesos(procesos@), a, b, c, r@.procesos)
            && r@.top_procesos_uso_cpu == primeros(a, TOP as nat)
            && r@.top_procesos_uso_memoria == primeros(b, TOP as nat)
            && r@.top_procesos_tiempo_cpu == primeros(c, TOP as nat));
        r
    }

    pub fn get_cantidad_procesos(&self) -> (r: usize)
        ensures
            r == self@.cantidad_procesos,
            r == self@.procesos.len(),
    {
        proof {
            use_type_invariant(self);
        }
        self.cantidad_procesos
    }

    pub fn get_procesos(&self) -> (r: &Vec<ProcesoInfo>)
        ensures
            vistas_procesos(r@) == self@.procesos,
    {
        &self.procesos
    }

    /// The process at `index`; the index must be in range.
    pub fn get_proceso(&self, index: usize) -> (r: &ProcesoInfo)
        requires
            index < self@.procesos.len(),
        ensures
            r@ == self@.procesos[index as int],
    {
        &self.procesos[index]
    }

    pub fn get_top_procesos_uso_cpu(&self) -> (r: &Vec<ProcesoInfo>)
        ensures
            vistas_procesos(r@) == self@.top_procesos_uso_cpu,
    {
        &self.top_procesos_uso_cpu
    }

    pub fn get_top_procesos_uso_memoria(&self) -> (r: &Vec<ProcesoInfo>)
        ensures
            vistas_procesos(r@) == self@.top_procesos_uso_memoria,
    {
        &self.top_procesos_uso_memoria
    }

    pub fn get_top_procesos_tiempo_cpu(&self) -> (r: &Vec<ProcesoInfo>)
        ensures
            vistas_procesos(r@) == self@.top_procesos_tiempo_cpu,
    {
        &self.top_procesos_tiempo_cpu
    }

    pub fn get_top_procesos_tiempo_ejecucion(&self) -> (r: &Vec<ProcesoInfo>)
        ensures
            vistas_procesos(r@) == self@.top_procesos_tiempo_ejecucion,
    {
        &self.top_procesos_tiempo_ejecucion
    }
}

} // verus!
