//! Processor figures of one snapshot. Usage is kept in hundredths of a
//! percentage point: 1234 stands for 12.34 %.

use vstd::prelude::*;

verus! {

/// What a `CPUInfo` holds, field by field.
pub struct CpuVista {
    pub brand: Seq<char>,
    pub cantidad_nucleos: usize,
    pub frecuencia: u64,
    pub uso_nucleos: Seq<u32>,
}

/// Brand, frequency in MHz and the usage of each core.
pub struct CPUInfo {
    brand: String,
    cantidad_nucleos: usize,
    frecuencia: u64,
    uso_nucleos: Vec<u32>,
}

impl View for CPUInfo {
    type V = CpuVista;

    closed spec fn view(&self) -> CpuVista {
        CpuVista {
            brand: self.brand@,
            cantidad_nucleos: self.cantidad_nucleos,
            frecuencia: self.frecuencia,
            uso_nucleos: self.uso_nucleos@,
        }
    }
}

/// The sum of the usages of `s`.
pub open spec fn suma_uso(s: Seq<u32>) -> nat
    decreases s.len(),
{
    if s.len() == 0 {
        0
    } else {
        suma_uso(s.drop_last()) + s.last() as nat
    }
}

/// The mean usage over the cores, rounded down; zero when there is no core.
pub open spec fn promedio_uso(s: Seq<u32>) -> nat {
    if s.len() == 0 {
        0
    } else {
        suma_uso(s) / s.len()
    }
}

impl Clone for CPUInfo {
    fn clone(&self) -> (r: Self)
        ensures
            r@ == self@,
    {
        proof {
            use_type_invariant(self);
        }
        let uso_nucleos = self.uso_nucleos.clone();
        assert(uso_nucleos@ =~= self.uso_nucleos@);
        CPUInfo { brand: self.brand.clone(), uso_nucleos, ..*self }
    }
}

impl CPUInfo {
    #[verifier::type_invariant]
    spec fn invariante(self) -> bool {
        self.cantidad_nucleos == self.uso_nucleos@.len()
    }

    /// The record of a processor whose cores report `uso_nucleos`.
    pub fn desde_sistema(brand: String, frecuencia: u64, uso_nucleos: Vec<u32>) -> (r: CPUInfo)
        ensures
            r@ == (CpuVista {
                brand: brand@,
                cantidad_nucleos: uso_nucleos@.len() as usize,
                frecuencia,
                uso_nucleos: uso_nucleos@,
            }),
    {
        CPUInfo { brand, cantidad_nucleos: uso_nucleos.len(), frecuencia, uso_nucleos }
    }

    pub fn get_brand(&self) -> (r: &str)
        ensures
            r@ == self@.brand,
    {
        self.brand.as_str()
    }

    pub fn get_cantidad_nucleos(&self) -> (r: usize)
        ensures
            r == self@.cantidad_nucleos,
            r == self@.uso_nucleos.len(),
    {
        proof {
            use_type_invariant(self);
        }
        self.cantidad_nucleos
    }

    pub fn get_frecuencia(&self) -> (r: u64)
        ensures
            r == self@.frecuencia,
    {
        self.frecuencia
    }

    pub fn get_uso_nucleos(&self) -> (r: &Vec<u32>)
        ensures
            r@ == self@.uso_nucleos,
    {
        &self.uso_nucleos
    }

    /// The sum of the usages of all cores.
    pub fn uso_total(&self) -> (r: u128)
        ensures
            r == suma_uso(self@.uso_nucleos),
            r <= self@.uso_nucleos.len() * (u32::MAX as nat),
    {
        let ghost s = self.uso_nucleos@;
        let mut suma: u128 = 0;
        let mut k: usize = 0;
        while k < self.uso_nucleos.len()
            invariant
                s == self.uso_nucleos@,
                k <= s.len(),
                suma == suma_uso(s.take(k as int)),
                suma <= k * (u32::MAX as nat),
            decreases s.len() - k,
        {
            assert(s.take(k + 1).drop_last() =~= s.take(k as int));
            suma = suma + self.uso_nucleos[k] as u128;
            k = k + 1;
        }
        assert(s.take(s.len() as int) =~= s);
        suma
    }

    /// Whether the mean usage over the cores is above `limite` hundredths of
    /// a percent. With no core there is no usage, and so no excess.
    pub fn supera_limite(&self, limite: u64) -> (r: bool)
        ensures
            r == (suma_uso(self@.uso_nucleos) > limite * self@.uso_nucleos.len()),
    {
        let suma = self.uso_total();
        let n = self.uso_nucleos.len() as u128;
        let l = limite as u128;
        assert(l * n <= 0xffff_ffff_ffff_ffff * 0xffff_ffff_ffff_ffff) by (nonlinear_arith)
            requires
                l <= 0xffff_ffff_ffff_ffff,
                n <= 0xffff_ffff_ffff_ffff,
        ;
        suma > l * n
    }

    /// The mean usage over the cores, the value the charts draw.
    pub fn promedio_uso(&self) -> (r: u64)
        ensures
            r == promedio_uso(self@.uso_nucleos),
    {
        proof {
            use_type_invariant(self);
        }
        let suma = self.uso_total();
        let n = self.cantidad_nucleos;
        if n == 0 {
            0
        } else {
            proof {
                let t = suma as nat;
                let m = n as nat;
                assert(t / m <= u32::MAX) by (nonlinear_arith)
                    requires
                        t <= m * (u32::MAX as nat),
                        m > 0,
                ;
            }
            (suma / n as u128) as u64
        }
    }
}

} // verus!
