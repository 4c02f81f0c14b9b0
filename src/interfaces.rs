//! Network interfaces of one snapshot: the counters of each interface and
//! their totals.

use vstd::prelude::*;

verus! {

/// What an `InterfaceInfo` holds, field by field.
pub struct InterfazVista {
    pub nombre: Seq<char>,
    pub bytes_recibidos: u64,
    pub bytes_enviados: u64,
    pub numero_paquetes_recibidos: u64,
    pub numero_paquetes_enviados: u64,
    pub total_errores: u64,
    pub total_errores_recibidos: u64,
    pub total_errores_enviados: u64,
    pub direccion_ip: Seq<String>,
    pub direccion_mac: Seq<char>,
    pub mtu: u64,
}

/// Counters and addresses of one network interface.
pub struct InterfaceInfo {
    nombre: String,
    bytes_recibidos: u64,
    bytes_enviados: u64,
    numero_paquetes_recibidos: u64,
    numero_paquetes_enviados: u64,
    total_errores: u64,
    total_errores_recibidos: u64,
    total_errores_enviados: u64,
    direccion_ip: Vec<String>,
    direccion_mac: String,
    mtu: u64,
}

impl View for InterfaceInfo {
    type V = InterfazVista;

    closed spec fn view(&self) -> InterfazVista {
        InterfazVista {
            nombre: self.nombre@,
            bytes_recibidos: self.bytes_recibidos,
            bytes_enviados: self.bytes_enviados,
            numero_paquetes_recibidos: self.numero_paquetes_recibidos,
            numero_paquetes_enviados: self.numero_paquetes_enviados,
            total_errores: self.total_errores,
            total_errores_recibidos: self.total_errores_recibidos,
            total_errores_enviados: self.total_errores_enviados,
            direccion_ip: self.direccion_ip@,
            direccion_mac: self.direccion_mac@,
            mtu: self.mtu,
        }
    }
}

impl Clone for InterfaceInfo {
    fn clone(&self) -> (r: Self)
        ensures
            r@ == self@,
    {
        let direccion_ip = self.direccion_ip.clone();
        assert(direccion_ip@ =~= self.direccion_ip@);
        InterfaceInfo {
            nombre: self.nombre.clone(),
            direccion_ip,
            direccion_mac: self.direccion_mac.clone(),
            ..*self
        }
    }
}

impl InterfaceInfo {
    pub fn get_nombre(&self) -> (r: &String)
        ensures
            r@ == self@.nombre,
    {
        &self.nombre
    }

    pub fn get_bytes_recibidos(&self) -> (r: u64)
        ensures
            r == self@.bytes_recibidos,
    {
        self.bytes_recibidos
    }

    pub fn get_bytes_enviados(&self) -> (r: u64)
        ensures
            r == self@.bytes_enviados,
    {
        self.bytes_enviados
    }

    pub fn get_numero_paquetes_recibidos(&self) -> (r: u64)
        ensures
            r == self@.numero_paquetes_recibidos,
    {
        self.numero_paquetes_recibidos
    }

    pub fn get_numero_paquetes_enviados(&self) -> (r: u64)
        ensures
            r == self@.numero_paquetes_enviados,
    {
        self.numero_paquetes_enviados
    }

    pub fn get_total_errores(&self) -> (r: u64)
        ensures
            r == self@.total_errores,
    {
        self.total_errores
    }

    pub fn get_total_errores_recibidos(&self) -> (r: u64)
        ensures
            r == self@.total_errores_recibidos,
    {
        self.total_errores_recibidos
    }

    pub fn get_total_errores_enviados(&self) -> (r: u64)
        ensures
            r == self@.total_errores_enviados,
    {
        self.total_errores_enviados
    }

    pub fn get_direccion_ip(&self) -> (r: &Vec<String>)
        ensures
            r@ == self@.direccion_ip,
    {
        &self.direccion_ip
    }

    pub fn get_direccion_mac(&self) -> (r: &String)
        ensures
            r@ == self@.direccion_mac,
    {
        &self.direccion_mac
    }

    pub fn get_mtu(&self) -> (r: u64)
        ensures
            r == self@.mtu,
    {
        self.mtu
    }

    /// An interface with no name, no addresses and every counter at zero.
    pub fn new() -> (r: InterfaceInfo)
        ensures
            r@ == (InterfazVista {
                nombre: Seq::empty(),
                bytes_recibidos: 0,
                bytes_enviados: 0,
                numero_paquetes_recibidos: 0,
                numero_paquetes_enviados: 0,
                total_errores: 0,
                total_errores_recibidos: 0,
                total_errores_enviados: 0,
                direccion_ip: Seq::empty(),
                direccion_mac: Seq::empty(),
                mtu: 0,
            }),
    {
        InterfaceInfo {
            nombre: String::new(),
            bytes_recibidos: 0,
            bytes_enviados: 0,
            numero_paquetes_recibidos: 0,
            numero_paquetes_enviados: 0,
            total_errores: 0,
            total_errores_recibidos: 0,
            total_errores_enviados: 0,
            direccion_ip: Vec::new(),
            direccion_mac: String::new(),
            mtu: 0,
        }
    }

    /// An interface with the given name, counters and addresses.
    pub fn desde_sistema(
        nombre: String,
        bytes_recibidos: u64,
        bytes_enviados: u64,
        numero_paquetes_recibidos: u64,
        numero_paquetes_enviados: u64,
        total_errores: u64,
        total_errores_recibidos: u64,
        total_errores_enviados: u64,
        direccion_ip: Vec<String>,
        direccion_mac: String,
        mtu: u64,
    ) -> (r: InterfaceInfo)
        ensures
            r@ == (InterfazVista {
                nombre: nombre@,
                bytes_recibidos,
                bytes_enviados,
                numero_paquetes_recibidos,
                numero_paquetes_enviados,
                total_errores,
                total_errores_recibidos,
                total_errores_enviados,
                direccion_ip: direccion_ip@,
                direccion_mac: direccion_mac@,
                mtu,
            }),
    {
        InterfaceInfo {
            nombre,
            bytes_recibidos,
            bytes_enviados,
            numero_paquetes_recibidos,
            numero_paquetes_enviados,
            total_errores,
            total_errores_recibidos,
            total_errores_enviados,
            direccion_ip,
            direccion_mac,
            mtu,
        }
    }
}

/// The MAC address that an interface without hardware address reports.
pub open spec fn mac_nula() -> Seq<char> {
    "00:00:00:00:00:00"@
}

/// One for an interface with a hardware address, zero otherwise.
pub open spec fn tiene_mac(i: InterfazVista) -> nat {
    if i.direccion_mac != mac_nula() {
        1
    } else {
        0
    }
}

/// The sum over `s` of what `campo` reads from each interface.
pub open spec fn suma_interfaces(s: Seq<InterfazVista>, campo: spec_fn(InterfazVista) -> nat) -> nat
    decreases s.len(),
{
    if s.len() == 0 {
        0
    } else {
        suma_interfaces(s.drop_last(), campo) + campo(s.last())
    }
}

pub open spec fn errores_de(i: InterfazVista) -> nat {
    i.total_errores as nat
}

pub open spec fn recibidos_de(i: InterfazVista) -> nat {
    i.bytes_recibidos as nat
}

pub open spec fn enviados_de(i: InterfazVista) -> nat {
    i.bytes_enviados as nat
}

pub open spec fn paquetes_recibidos_de(i: InterfazVista) -> nat {
    i.numero_paquetes_recibidos as nat
}

pub open spec fn paquetes_enviados_de(i: InterfazVista) -> nat {
    i.numero_paquetes_enviados as nat
}

pub open spec fn ips_de(i: InterfazVista) -> nat {
    i.direccion_ip.len()
}

pub open spec fn mtu_de(i: InterfazVista) -> nat {
    i.mtu as nat
}

/// What an `InterfacesInfo` holds, field by field.
pub struct InterfacesVista {
    pub cantidad_interfaces: u64,
    pub interfaces: Seq<InterfazVista>,
    pub total_errores: u64,
    pub total_bytes_recibidos: u64,
    pub total_bytes_enviados: u64,
    pub total_paquetes_recibidos: u64,
    pub total_paquetes_enviados: u64,
    pub total_direcciones_ip: u64,
    pub total_direcciones_mac: u64,
    pub total_mtu: u64,
}

/// Every total of a list of interfaces fits in a `u64`.
pub open spec fn totales_representables(s: Seq<InterfazVista>) -> bool {
    &&& suma_interfaces(s, |i| errores_de(i)) <= u64::MAX
    &&& suma_interfaces(s, |i| recibidos_de(i)) <= u64::MAX
    &&& suma_interfaces(s, |i| enviados_de(i)) <= u64::MAX
    &&& suma_interfaces(s, |i| paquetes_recibidos_de(i)) <= u64::MAX
    &&& suma_interfaces(s, |i| paquetes_enviados_de(i)) <= u64::MAX
    &&& suma_interfaces(s, |i| ips_de(i)) <= u64::MAX
    &&& suma_interfaces(s, |i| mtu_de(i)) <= u64::MAX
}

impl InterfacesVista {
    /// The count and every total agree with the list of interfaces.
    pub open spec fn bien_formada(self) -> bool {
        &&& self.cantidad_interfaces == self.interfaces.len()
        &&& self.total_errores == suma_interfaces(self.interfaces, |i| errores_de(i))
        &&& self.total_bytes_recibidos == suma_interfaces(self.interfaces, |i| recibidos_de(i))
        &&& self.total_bytes_enviados == suma_interfaces(self.interfaces, |i| enviados_de(i))
        &&& self.total_paquetes_recibidos == suma_interfaces(
            self.interfaces,
            |i| paquetes_recibidos_de(i),
        )
        &&& self.total_paquetes_enviados == suma_interfaces(
            self.interfaces,
            |i| paquetes_enviados_de(i),
        )
        &&& self.total_direcciones_ip == suma_interfaces(self.interfaces, |i| ips_de(i))
        &&& self.total_direcciones_mac == suma_interfaces(self.interfaces, |i| tiene_mac(i))
        &&& self.total_mtu == suma_interfaces(self.interfaces, |i| mtu_de(i))
    }
}

/// The interfaces of the host and the totals over all of them.
pub struct InterfacesInfo {
    cantidad_interfaces: u64,
    interfaces: Vec<InterfaceInfo>,
    total_errores: u64,
    total_bytes_recibidos: u64,
    total_bytes_enviados: u64,
    total_paquetes_recibidos: u64,
    total_paquetes_enviados: u64,
    total_direcciones_ip: u64,
    total_direcciones_mac: u64,
    total_mtu: u64,
}

impl View for InterfacesInfo {
    type V = InterfacesVista;

    closed spec fn view(&self) -> InterfacesVista {
        InterfacesVista {
            cantidad_interfaces: self.cantidad_interfaces,
            interfaces: vistas(self.interfaces@),
            total_errores: self.total_errores,
            total_bytes_recibidos: self.total_bytes_recibidos,
            total_bytes_enviados: self.total_bytes_enviados,
            total_paquetes_recibidos: self.total_paquetes_recibidos,
            total_paquetes_enviados: self.total_paquetes_enviados,
            total_direcciones_ip: self.total_direcciones_ip,
            total_direcciones_mac: self.total_direcciones_mac,
            total_mtu: self.total_mtu,
        }
    }
}

/// The view of each interface of a list, in order.
pub open spec fn vistas(s: Seq<InterfaceInfo>) -> Seq<InterfazVista> {
    s.map_values(|i: InterfaceInfo| i@)
}

/// A sum over the first `n + 1` interfaces adds the interface at `n` to the
/// sum over the first `n`.
proof fn lema_suma_paso(s: Seq<InterfazVista>, n: int, campo: spec_fn(InterfazVista) -> nat)
    requires
        0 <= n < s.len(),
    ensures
        suma_interfaces(s.take(n + 1), campo) == suma_interfaces(s.take(n), campo) + campo(s[n]),
{
    assert(s.take(n + 1).drop_last() =~= s.take(n));
}

impl Clone for InterfacesInfo {
    fn clone(&self) -> (r: Self)
        ensures
            r@ == self@,
    {
        proof {
            use_type_invariant(self);
        }
        let mut interfaces: Vec<InterfaceInfo> = Vec::new();
        let mut k: usize = 0;
        while k < self.interfaces.len()
            invariant
                k <= self.interfaces@.len(),
                interfaces@.len() == k,
                vistas(interfaces@) == vistas(self.interfaces@).take(k as int),
            decreases self.interfaces@.len() - k,
        {
            let copia = self.interfaces[k].clone();
            let ghost antes = interfaces@;
            interfaces.push(copia);
            assert(vistas(interfaces@) =~= vistas(self.interfaces@).take(k + 1)) by {
                assert forall|j: int| 0 <= j < k implies interfaces@[j]@ == self.interfaces@[j]@ by {
                    assert(interfaces@[j] == antes[j]);
                    assert(vistas(antes)[j] == vistas(self.interfaces@).take(k as int)[j]);
                }
            }
            k = k + 1;
        }
        assert(vistas(interfaces@) =~= vistas(self.interfaces@));
        InterfacesInfo { interfaces, ..*self }
    }
}

impl InterfacesInfo {
    #[verifier::type_invariant]
    spec fn invariante(self) -> bool {
        self@.bien_formada()
    }

    /// Gathers the interfaces and their totals. `None` when a total does not
    /// fit in a `u64`.
    pub fn desde_sistema(interfaces: Vec<InterfaceInfo>) -> (r: Option<InterfacesInfo>)
        ensures
            r is Some <==> totales_representables(vistas(interfaces@)),
            r matches Some(info) ==> info@.interfaces == vistas(interfaces@)
                && info@.bien_formada(),
    {
        let ghost s = vistas(interfaces@);
        let cero: String = "00:00:00:00:00:00".to_owned();
        let mut errores: u128 = 0;
        let mut recibidos: u128 = 0;
        let mut enviados: u128 = 0;
        let mut paquetes_recibidos: u128 = 0;
        let mut paquetes_enviados: u128 = 0;
        let mut ips: u128 = 0;
        let mut macs: u64 = 0;
        let mut mtu: u128 = 0;
        let mut k: usize = 0;
        while k < interfaces.len()
            invariant
                s == vistas(interfaces@),
                cero@ == mac_nula(),
                k <= s.len(),
                errores == suma_interfaces(s.take(k as int), |i| errores_de(i)),
                recibidos == suma_interfaces(s.take(k as int), |i| recibidos_de(i)),
                enviados == suma_interfaces(s.take(k as int), |i| enviados_de(i)),
                paquetes_recibidos == suma_interfaces(
                    s.take(k as int),
                    |i| paquetes_recibidos_de(i),
                ),
                paquetes_enviados == suma_interfaces(s.take(k as int), |i| paquetes_enviados_de(i)),
                ips == suma_interfaces(s.take(k as int), |i| ips_de(i)),
                macs == suma_interfaces(s.take(k as int), |i| tiene_mac(i)),
                mtu == suma_interfaces(s.take(k as int), |i| mtu_de(i)),
                errores <= k * 0x1_0000_0000_0000_0000,
                recibidos <= k * 0x1_0000_0000_0000_0000,
                enviados <= k * 0x1_0000_0000_0000_0000,
                paquetes_recibidos <= k * 0x1_0000_0000_0000_0000,
                paquetes_enviados <= k * 0x1_0000_0000_0000_0000,
                ips <= k * 0x1_0000_0000_0000_0000,
                macs <= k,
                mtu <= k * 0x1_0000_0000_0000_0000,
            decreases s.len() - k,
        {
            let i = &interfaces[k];
            proof {
                lema_suma_paso(s, k as int, |i| errores_de(i));
                lema_suma_paso(s, k as int, |i| recibidos_de(i));
                lema_suma_paso(s, k as int, |i| enviados_de(i));
                lema_suma_paso(s, k as int, |i| paquetes_recibidos_de(i));
                lema_suma_paso(s, k as int, |i| paquetes_enviados_de(i));
                lema_suma_paso(s, k as int, |i| ips_de(i));
                lema_suma_paso(s, k as int, |i| tiene_mac(i));
                lema_suma_paso(s, k as int, |i| mtu_de(i));
            }
            errores = errores + i.total_errores as u128;
            recibidos = recibidos + i.bytes_recibidos as u128;
            enviados = enviados + i.bytes_enviados as u128;
            paquetes_recibidos = paquetes_recibidos + i.numero_paquetes_recibidos as u128;
            paquetes_enviados = paquetes_enviados + i.numero_paquetes_enviados as u128;
            ips = ips + i.direccion_ip.len() as u128;
            if i.direccion_mac != cero {
                macs = macs + 1;
            }
            mtu = mtu + i.mtu as u128;
            k = k + 1;
        }
        proof {
            assert(s.take(s.len() as int) =~= s);
        }
        if errores > u64::MAX as u128 || recibidos > u64::MAX as u128 || enviados > u64::MAX as u128
            || paquetes_recibidos > u64::MAX as u128 || paquetes_enviados > u64::MAX as u128 || ips
            > u64::MAX as u128 || mtu > u64::MAX as u128 {
            return None;
        }
        let cantidad_interfaces = interfaces.len() as u64;
        Some(
            InterfacesInfo {
                cantidad_interfaces,
                interfaces,
                total_errores: errores as u64,
                total_bytes_recibidos: recibidos as u64,
                total_bytes_enviados: enviados as u64,
                total_paquetes_recibidos: paquetes_recibidos as u64,
                total_paquetes_enviados: paquetes_enviados as u64,
                total_direcciones_ip: ips as u64,
                total_direcciones_mac: macs,
                total_mtu: mtu as u64,
            },
        )
    }

    pub fn get_cantidad_interfaces(&self) -> (r: u64)
        ensures
            r == self@.cantidad_interfaces,
            r == self@.interfaces.len(),
    {
        proof {
            use_type_invariant(self);
        }
        self.cantidad_interfaces
    }

    pub fn get_interfaces(&self) -> (r: &Vec<InterfaceInfo>)
        ensures
            vistas(r@) == self@.interfaces,
    {
        &self.interfaces
    }

    pub fn get_total_errores(&self) -> (r: u64)
        ensures
            r == self@.total_errores,
            r == suma_interfaces(self@.interfaces, |i| errores_de(i)),
    {
        proof {
            use_type_invariant(self);
        }
        self.total_errores
    }

    pub fn get_bytes_recibidos(&self) -> (r: u64)
        ensures
            r == self@.total_bytes_recibidos,
            r == suma_interfaces(self@.interfaces, |i| recibidos_de(i)),
    {
        proof {
            use_type_invariant(self);
        }
        self.total_bytes_recibidos
    }

    pub fn get_bytes_enviados(&self) -> (r: u64)
        ensures
            r == self@.total_bytes_enviados,
            r == suma_interfaces(self@.interfaces, |i| enviados_de(i)),
    {
        proof {
            use_type_invariant(self);
        }
        self.total_bytes_enviados
    }

    pub fn get_numero_paquetes_recibidos(&self) -> (r: u64)
        ensures
            r == self@.total_paquetes_recibidos,
            r == suma_interfaces(self@.interfaces, |i| paquetes_recibidos_de(i)),
    {
        proof {
            use_type_invariant(self);
        }
        self.total_paquetes_recibidos
    }

    pub fn get_numero_paquetes_enviados(&self) -> (r: u64)
        ensures
            r == self@.total_paquetes_enviados,
            r == suma_interfaces(self@.interfaces, |i| paquetes_enviados_de(i)),
    {
        proof {
            use_type_invariant(self);
        }
        self.total_paquetes_enviados
    }

    /// The number of IP networks over all interfaces.
    pub fn get_direccion_ip(&self) -> (r: u64)
        ensures
            r == self@.total_direcciones_ip,
            r == suma_interfaces(self@.interfaces, |i| ips_de(i)),
    {
        proof {
            use_type_invariant(self);
        }
        self.total_direcciones_ip
    }

    /// The number of interfaces with a hardware address.
    pub fn get_direccion_mac(&self) -> (r: u64)
        ensures
            r == self@.total_direcciones_mac,
            r == suma_interfaces(self@.interfaces, |i| tiene_mac(i)),
    {
        proof {
            use_type_invariant(self);
        }
        self.total_direcciones_mac
    }

    pub fn get_mtu(&self) -> (r: u64)
        ensures
            r == self@.total_mtu,
            r == suma_interfaces(self@.interfaces, |i| mtu_de(i)),
    {
        proof {
            use_type_invariant(self);
        }
        self.total_mtu
    }

    /// The interface at `index`; the index must be in range.
    pub fn get_interfaz(&self, index: u64) -> (r: &InterfaceInfo)
        requires
            index < self@.interfaces.len(),
        ensures
            r@ == self@.interfaces[index as int],
    {
        proof {
            use_type_invariant(self);
        }
        assert(index < self.interfaces.len());
        let k = index as usize;
        assert(self@.interfaces[k as int] == self.interfaces@[k as int]@);
        &self.interfaces[k]
    }
}

} // verus!
