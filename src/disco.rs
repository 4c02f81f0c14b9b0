//! Disks of one snapshot, their space in whole GiB, and the totals over the
//! disks with distinct names.

use vstd::prelude::*;

verus! {

/// Bytes in one GiB.
pub const B_TO_GB: u64 = 1024 * 1024 * 1024;

/// What a `DiscoInfo` holds, field by field.
pub struct DiscoVista {
    pub nombre: Seq<char>,
    pub sistema_archivos: Seq<char>,
    pub espacio_total: u64,
    pub espacio_libre: u64,
    pub espacio_usado: u64,
    pub ruta: Seq<char>,
    pub removible: bool,
    pub solo_lectura: bool,
}

/// One mounted disk, its space in GiB.
pub struct DiscoInfo {
    nombre: String,
    sistema_archivos: String,
    espacio_total: u64,
    espacio_libre: u64,
    espacio_usado: u64,
    ruta: String,
    removible: bool,
    solo_lectura: bool,
}

impl View for DiscoInfo {
    type V = DiscoVista;

    closed spec fn view(&self) -> DiscoVista {
        DiscoVista {
            nombre: self.nombre@,
            sistema_archivos: self.sistema_archivos@,
            espacio_total: self.espacio_total,
            espacio_libre: self.espacio_libre,
            espacio_usado: self.espacio_usado,
            ruta: self.ruta@,
            removible: self.removible,
            solo_lectura: self.solo_lectura,
        }
    }
}

impl Clone for DiscoInfo {
    fn clone(&self) -> (r: Self)
        ensures
            r@ == self@,
    {
        DiscoInfo {
            nombre: self.nombre.clone(),
            sistema_archivos: self.sistema_archivos.clone(),
            ruta: self.ruta.clone(),
            ..*self
        }
    }
}

impl DiscoInfo {
    /// A disk with the given figures, in GiB.
    pub fn new(
        nombre: String,
        sistema_archivos: String,
        espacio_total: u64,
        espacio_libre: u64,
        espacio_usado: u64,
        ruta: String,
        removible: bool,
        solo_lectura: bool,
    ) -> (r: DiscoInfo)
        ensures
            r@ == (DiscoVista {
                nombre: nombre@,
                sistema_archivos: sistema_archivos@,
                espacio_total,
                espacio_libre,
                espacio_usado,
                ruta: ruta@,
                removible,
                solo_lectura,
            }),
    {
        DiscoInfo {
            nombre,
            sistema_archivos,
            espacio_total,
            espacio_libre,
            espacio_usado,
            ruta,
            removible,
            solo_lectura,
        }
    }

    /// A disk from the byte counts that the host reports, in whole GiB. The
    /// available bytes never exceed the total.
    pub fn desde_bytes(
        nombre: String,
        sistema_archivos: String,
        total_bytes: u64,
        libre_bytes: u64,
        ruta: String,
        removible: bool,
        solo_lectura: bool,
    ) -> (r: DiscoInfo)
        requires
            libre_bytes <= total_bytes,
        ensures
            r@ == (DiscoVista {
                nombre: nombre@,
                sistema_archivos: sistema_archivos@,
                espacio_total: total_bytes / B_TO_GB,
                espacio_libre: libre_bytes / B_TO_GB,
                espacio_usado: (total_bytes / B_TO_GB - libre_bytes / B_TO_GB) as u64,
                ruta: ruta@,
                removible,
                solo_lectura,
            }),
    {
        let t = total_bytes / B_TO_GB;
        let l = libre_bytes / B_TO_GB;
        assert(libre_bytes / 1073741824 <= total_bytes / 1073741824) by (nonlinear_arith)
            requires
                libre_bytes <= total_bytes,
        ;
        DiscoInfo::new(nombre, sistema_archivos, t, l, t - l, ruta, removible, solo_lectura)
    }

    pub fn get_nombre(&self) -> (r: &str)
        ensures
            r@ == self@.nombre,
    {
        self.nombre.as_str()
    }

    pub fn get_sistema_archivos(&self) -> (r: &str)
        ensures
            r@ == self@.sistema_archivos,
    {
        self.sistema_archivos.as_str()
    }

    pub fn get_espacio_total(&self) -> (r: u64)
        ensures
            r == self@.espacio_total,
    {
        self.espacio_total
    }

    pub fn get_espacio_libre(&self) -> (r: u64)
        ensures
            r == self@.espacio_libre,
    {
        self.espacio_libre
    }

    pub fn get_espacio_usado(&self) -> (r: u64)
        ensures
            r == self@.espacio_usado,
    {
        self.espacio_usado
    }

    pub fn get_ruta(&self) -> (r: &str)
        ensures
            r@ == self@.ruta,
    {
        self.ruta.as_str()
    }

    pub fn get_removible(&self) -> (r: bool)
        ensures
            r == self@.removible,
    {
        self.removible
    }

    pub fn get_solo_lectura(&self) -> (r: bool)
        ensures
            r == self@.solo_lectura,
    {
        self.solo_lectura
    }
}

/// The view of each disk of a list, in order.
pub open spec fn vistas_discos(s: Seq<DiscoInfo>) -> Seq<DiscoVista> {
    s.map_values(|d: DiscoInfo| d@)
}

/// Some disk of `s` is named `nombre`.
pub open spec fn nombre_en(s: Seq<DiscoVista>, nombre: Seq<char>) -> bool {
    exists|i: int| 0 <= i < s.len() && #[trigger] s[i].nombre == nombre
}

/// The disks of `s` whose name no earlier disk has, in order.
pub open spec fn unicos(s: Seq<DiscoVista>) -> Seq<DiscoVista>
    decreases s.len(),
{
    if s.len() == 0 {
        s
    } else if nombre_en(s.drop_last(), s.last().nombre) {
        unicos(s.drop_last())
    } else {
        unicos(s.drop_last()).push(s.last())
    }
}

/// The total space of the disks of `s`.
pub open spec fn suma_total(s: Seq<DiscoVista>) -> nat
    decreases s.len(),
{
    if s.len() == 0 {
        0
    } else {
        suma_total(s.drop_last()) + s.last().espacio_total as nat
    }
}

/// The free space of the disks of `s`.
pub open spec fn suma_libre(s: Seq<DiscoVista>) -> nat
    decreases s.len(),
{
    if s.len() == 0 {
        0
    } else {
        suma_libre(s.drop_last()) + s.last().espacio_libre as nat
    }
}

/// The totals of `s` fit in a `u64`: the total space does, and the free
/// space does not exceed it.
pub open spec fn totales_representables(s: Seq<DiscoVista>) -> bool {
    suma_libre(s) <= suma_total(s) <= u64::MAX
}

/// A name occurs among the kept disks exactly when it occurs in the list.
proof fn lema_nombre_en_unicos(s: Seq<DiscoVista>, nombre: Seq<char>)
    ensures
        nombre_en(unicos(s), nombre) == nombre_en(s, nombre),
    decreases s.len(),
{
    if s.len() > 0 {
        let p = s.drop_last();
        lema_nombre_en_unicos(p, nombre);
        lema_nombre_en_unicos(p, s.last().nombre);
        if nombre_en(s, nombre) {
            let i = choose|i: int| 0 <= i < s.len() && #[trigger] s[i].nombre == nombre;
            if i < p.len() {
                assert(p[i].nombre == nombre);
            }
        }
        if nombre_en(p, nombre) {
            let i = choose|i: int| 0 <= i < p.len() && #[trigger] p[i].nombre == nombre;
            assert(s[i].nombre == nombre);
        }
        if !nombre_en(p, s.last().nombre) {
            let u = unicos(p);
            if nombre_en(u.push(s.last()), nombre) {
                let i = choose|i: int|
                    0 <= i < u.push(s.last()).len() && #[trigger] u.push(s.last())[i].nombre
                        == nombre;
                if i < u.len() {
                    assert(u[i].nombre == nombre);
                } else {
                    assert(s[s.len() - 1].nombre == nombre);
                }
            }
            if nombre_en(u, nombre) {
                let i = choose|i: int| 0 <= i < u.len() && #[trigger] u[i].nombre == nombre;
                assert(u.push(s.last())[i].nombre == nombre);
            }
            if s.last().nombre == nombre {
                assert(u.push(s.last())[u.len() as int].nombre == nombre);
            }
        }
    }
}

/// No two kept disks share a name.
proof fn lema_unicos_distintos(s: Seq<DiscoVista>)
    ensures
        forall|i: int, j: int|
            0 <= i < j < unicos(s).len() ==> unicos(s)[i].nombre != unicos(s)[j].nombre,
    decreases s.len(),
{
    if s.len() > 0 {
        let p = s.drop_last();
        lema_unicos_distintos(p);
        lema_nombre_en_unicos(p, s.last().nombre);
        if !nombre_en(p, s.last().nombre) {
            let u = unicos(p);
            assert forall|i: int, j: int|
                0 <= i < j < u.push(s.last()).len() implies u.push(s.last())[i].nombre != u.push(
                s.last(),
            )[j].nombre by {
                if j == u.len() {
                    if u[i].nombre == s.last().nombre {
                        assert(nombre_en(u, s.last().nombre));
                    }
                }
            }
        }
    }
}

/// What a `DiscosInfo` holds, field by field.
pub struct DiscosVista {
    pub cantidad_discos: usize,
    pub espacio_total: u64,
    pub espacio_libre: u64,
    pub espacio_usado: u64,
    pub discos: Seq<DiscoVista>,
}

impl DiscosVista {
    /// The count and the totals agree with the disks, which have distinct names.
    pub open spec fn bien_formada(self) -> bool {
        &&& self.cantidad_discos == self.discos.len()
        &&& self.espacio_total == suma_total(self.discos)
        &&& self.espacio_libre == suma_libre(self.discos)
        &&& self.espacio_libre <= self.espacio_total
        &&& self.espacio_usado == self.espacio_total - self.espacio_libre
        &&& forall|i: int, j: int|
            0 <= i < j < self.discos.len() ==> self.discos[i].nombre != self.discos[j].nombre
    }
}

/// The share of disk space that is free in hundredths of a percent, rounded
/// down; zero when there is no space at all.
pub open spec fn porcentaje_libre(d: DiscosVista) -> nat {
    if d.espacio_total == 0 {
        0
    } else {
        ((d.espacio_total - d.espacio_usado) * 10000) as nat / d.espacio_total as nat
    }
}

/// The disks of the host, each name once, and their total space in GiB.
pub struct DiscosInfo {
    cantidad_discos: usize,
    espacio_total: u64,
    espacio_libre: u64,
    espacio_usado: u64,
    discos: Vec<DiscoInfo>,
}

impl View for DiscosInfo {
    type V = DiscosVista;

    closed spec fn view(&self) -> DiscosVista {
        DiscosVista {
            cantidad_discos: self.cantidad_discos,
            espacio_total: self.espacio_total,
            espacio_libre: self.espacio_libre,
            espacio_usado: self.espacio_usado,
            discos: vistas_discos(self.discos@),
        }
    }
}

/// Whether a disk of `discos` is named `nombre`.
fn contiene_nombre(discos: &Vec<DiscoInfo>, nombre: &String) -> (r: bool)
    ensures
        r == nombre_en(vistas_discos(discos@), nombre@),
{
    let ghost s = vistas_discos(discos@);
    let mut k: usize = 0;
    while k < discos.len()
        invariant
            s == vistas_discos(discos@),
            k <= discos@.len(),
            forall|i: int| 0 <= i < k ==> s[i].nombre != nombre@,
        decreases discos@.len() - k,
    {
        if discos[k].nombre == *nombre {
            assert(s[k as int].nombre == nombre@);
            return true;
        }
        k = k + 1;
    }
    false
}

impl Clone for DiscosInfo {
    fn clone(&self) -> (r: Self)
        ensures
            r@ == self@,
    {
        proof {
            use_type_invariant(self);
        }
        let ghost s = vistas_discos(self.discos@);
        let mut discos: Vec<DiscoInfo> = Vec::new();
        let mut k: usize = 0;
        while k < self.discos.len()
            invariant
                s == vistas_discos(self.discos@),
                k <= s.len(),
                discos@.len() == k,
                vistas_discos(discos@) == s.take(k as int),
            decreases s.len() - k,
        {
            let copia = self.discos[k].clone();
            let ghost antes = discos@;
            discos.push(copia);
            assert(vistas_discos(discos@) =~= s.take(k + 1)) by {
                assert forall|j: int| 0 <= j < k implies discos@[j]@ == s[j] by {
                    assert(discos@[j] == antes[j]);
                    assert(vistas_discos(antes)[j] == s.take(k as int)[j]);
                }
            }
            k = k + 1;
        }
        assert(s.take(s.len() as int) =~= s);
        DiscosInfo { discos, ..*self }
    }
}

impl DiscosInfo {
    #[verifier::type_invariant]
    spec fn invariante(self) -> bool {
        self@.bien_formada()
    }

    /// Gathers the disks, keeping the first of those that share a name, and
    /// adds up their space; the space in use is the total less the free
    /// space. `None` when a total does not fit in a `u64`: the total space is
    /// too large, or the free space exceeds it, so that the space in use
    /// would be negative.
    pub fn desde_discos(lecturas: Vec<DiscoInfo>) -> (r: Option<DiscosInfo>)
        ensures
            r is Some <==> totales_representables(unicos(vistas_discos(lecturas@))),
            r matches Some(info) ==> info@.discos == unicos(vistas_discos(lecturas@))
                && info@.bien_formada(),
    {
        let ghost s = vistas_discos(lecturas@);
        let mut discos: Vec<DiscoInfo> = Vec::new();
        let mut total: u128 = 0;
        let mut libre: u128 = 0;
        let mut k: usize = 0;
        while k < lecturas.len()
            invariant
                s == vistas_discos(lecturas@),
                k <= s.len(),
                vistas_discos(discos@) == unicos(s.take(k as int)),
                total == suma_total(unicos(s.take(k as int))),
                libre == suma_libre(unicos(s.take(k as int))),
                libre <= k * 0x1_0000_0000_0000_0000,
                total <= k * 0x1_0000_0000_0000_0000,
            decreases s.len() - k,
        {
            let ghost p = s.take(k as int);
            assert(s.take(k + 1).drop_last() =~= p);
            assert(s.take(k + 1).last() == s[k as int]);
            let lectura = &lecturas[k];
            proof {
                lema_nombre_en_unicos(p, s[k as int].nombre);
            }
            if !contiene_nombre(&discos, &lectura.nombre) {
                let copia = lectura.clone();
                discos.push(copia);
                proof {
                    let u = unicos(p);
                    assert(vistas_discos(discos@) =~= u.push(s[k as int]));
                    assert(u.push(s[k as int]).drop_last() =~= u);
                }
                total = total + lectura.espacio_total as u128;
                libre = libre + lectura.espacio_libre as u128;
            }
            k = k + 1;
        }
        assert(s.take(s.len() as int) =~= s);
        proof {
            lema_unicos_distintos(s);
        }
        if total > u64::MAX as u128 || libre > total {
            return None;
        }
        let cantidad_discos = discos.len();
        Some(
            DiscosInfo {
                cantidad_discos,
                espacio_total: total as u64,
                espacio_libre: libre as u64,
                espacio_usado: (total - libre) as u64,
                discos,
            },
        )
    }

    pub fn get_cantidad_discos(&self) -> (r: usize)
        ensures
            r == self@.cantidad_discos,
            r == self@.discos.len(),
    {
        proof {
            use_type_invariant(self);
        }
        self.cantidad_discos
    }

    pub fn get_espacio_total(&self) -> (r: u64)
        ensures
            r == self@.espacio_total,
            r == suma_total(self@.discos),
    {
        proof {
            use_type_invariant(self);
        }
        self.espacio_total
    }

    pub fn get_espacio_libre(&self) -> (r: u64)
        ensures
            r == self@.espacio_libre,
            r == suma_libre(self@.discos),
    {
        proof {
            use_type_invariant(self);
        }
        self.espacio_libre
    }

    pub fn get_espacio_usado(&self) -> (r: u64)
        ensures
            r == self@.espacio_usado,
            r == self@.espacio_total - self@.espacio_libre,
    {
        proof {
            use_type_invariant(self);
        }
        self.espacio_usado
    }

    /// The share of space that is free, as the charts draw it.
    pub fn porcentaje_libre(&self) -> (r: u64)
        ensures
            r == porcentaje_libre(self@),
            r <= 10000,
    {
        proof {
            use_type_invariant(self);
        }
        if self.espacio_total == 0 {
            0
        } else {
            let libre = (self.espacio_total - self.espacio_usado) as u128;
            let total = self.espacio_total as u128;
            assert((libre * 10000) as int / total as int <= 10000) by (nonlinear_arith)
                requires
                    libre <= total,
                    total > 0,
            ;
            (libre * 10000 / total) as u64
        }
    }

    pub fn get_discos(&self) -> (r: &Vec<DiscoInfo>)
        ensures
            vistas_discos(r@) == self@.discos,
    {
        &self.discos
    }

    /// The disk at `index`; the index must be in range.
    pub fn get_disco(&self, index: usize) -> (r: &DiscoInfo)
        requires
            index < self@.discos.len(),
        ensures
            r@ == self@.discos[index as int],
    {
        &self.discos[index]
    }
}

} // verus!
