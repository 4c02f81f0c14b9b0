//! Memory and swap figures of one snapshot, kept in whole MiB.

use vstd::prelude::*;

verus! {

/// Bytes in one MiB.
pub const B_TO_MB: u64 = 1024 * 1024;

/// Largest number of MiB that a byte count held in a `u64` can give.
pub const MAX_MB: u64 = 17592186044415;

/// What a `MemoriaInfo` holds, field by field.
pub struct MemoriaVista {
    pub total: u64,
    pub libre: u64,
    pub usada: u64,
    pub total_ram: u64,
    pub libre_ram: u64,
    pub usada_ram: u64,
    pub swap_total: u64,
    pub swap_libre: u64,
    pub swap_usada: u64,
}

/// Memory and swap of the host in MiB. `total`, `libre` and `usada` add the
/// RAM figure and the swap figure.
pub struct MemoriaInfo {
    total: u64,
    libre: u64,
    usada: u64,
    total_ram: u64,
    libre_ram: u64,
    usada_ram: u64,
    swap_total: u64,
    swap_libre: u64,
    swap_usada: u64,
}

/// The figures that `MemoriaInfo::desde_sistema` derives from the byte counts
/// of the host.
pub open spec fn memoria_de_bytes(
    total_memory: u64,
    free_memory: u64,
    used_memory: u64,
    total_swap: u64,
    free_swap: u64,
    used_swap: u64,
) -> MemoriaVista
    recommends
        used_memory <= total_memory,
        used_swap <= total_swap,
{
    MemoriaVista {
        total: (total_memory / B_TO_MB + total_swap / B_TO_MB) as u64,
        usada: (used_memory / B_TO_MB + used_swap / B_TO_MB) as u64,
        libre: ((total_memory - used_memory) as u64 / B_TO_MB + (total_swap - used_swap) as u64
            / B_TO_MB) as u64,
        total_ram: total_memory / B_TO_MB,
        libre_ram: free_memory / B_TO_MB,
        usada_ram: used_memory / B_TO_MB,
        swap_total: total_swap / B_TO_MB,
        swap_libre: free_swap / B_TO_MB,
        swap_usada: used_swap / B_TO_MB,
    }
}

/// The share of memory in use in hundredths of a percent, rounded down;
/// zero when there is no memory at all.
pub open spec fn porcentaje_usado(m: MemoriaVista) -> nat {
    if m.total == 0 {
        0
    } else {
        (m.usada * 10000) as nat / m.total as nat
    }
}

/// The share of memory in use is above `limite` hundredths of a percent.
pub open spec fn supera_limite_memoria(m: MemoriaVista, limite: u64) -> bool {
    m.total > 0 && m.usada * 10000 > limite * m.total
}

impl View for MemoriaInfo {
    type V = MemoriaVista;

    closed spec fn view(&self) -> MemoriaVista {
        MemoriaVista {
            total: self.total,
            libre: self.libre,
            usada: self.usada,
            total_ram: self.total_ram,
            libre_ram: self.libre_ram,
            usada_ram: self.usada_ram,
            swap_total: self.swap_total,
            swap_libre: self.swap_libre,
            swap_usada: self.swap_usada,
        }
    }
}

impl MemoriaVista {
    /// The invariant of every `MemoriaInfo`: the totals come from byte counts,
    /// so each fits in `MAX_MB`, and no more memory is used than there is.
    pub open spec fn bien_formada(self) -> bool {
        &&& self.total_ram <= MAX_MB
        &&& self.swap_total <= MAX_MB
        &&& self.total == self.total_ram + self.swap_total
        &&& self.usada <= self.total
    }
}

impl Clone for MemoriaInfo {
    fn clone(&self) -> (r: Self)
        ensures
            r == *self,
    {
        proof {
            use_type_invariant(self);
        }
        MemoriaInfo { ..*self }
    }
}

impl MemoriaInfo {
    #[verifier::type_invariant]
    spec fn invariante(self) -> bool {
        self@.bien_formada()
    }

    /// Builds the record from the byte counts of the host. Used memory never
    /// exceeds the total, nor used swap the swap total.
    pub fn desde_sistema(
        total_memory: u64,
        free_memory: u64,
        used_memory: u64,
        total_swap: u64,
        free_swap: u64,
        used_swap: u64,
    ) -> (r: MemoriaInfo)
        requires
            used_memory <= total_memory,
            used_swap <= total_swap,
        ensures
            r@ == memoria_de_bytes(
                total_memory,
                free_memory,
                used_memory,
                total_swap,
                free_swap,
                used_swap,
            ),
    {
        proof {
            lema_mib_ordenados(used_memory, total_memory);
            lema_mib_ordenados(used_swap, total_swap);
            lema_mib_ordenados(total_memory, u64::MAX);
            lema_mib_ordenados(total_swap, u64::MAX);
        }
        let total_ram = total_memory / B_TO_MB;
        let swap_total = total_swap / B_TO_MB;
        let usada_ram = used_memory / B_TO_MB;
        let swap_usada = used_swap / B_TO_MB;
        MemoriaInfo {
            total: total_ram + swap_total,
            usada: usada_ram + swap_usada,
            libre: (total_memory - used_memory) / B_TO_MB + (total_swap - used_swap) / B_TO_MB,
            total_ram,
            libre_ram: free_memory / B_TO_MB,
            usada_ram,
            swap_total,
            swap_libre: free_swap / B_TO_MB,
            swap_usada,
        }
    }

    pub fn get_memoria_total(&self) -> (r: u64)
        ensures
            r == self@.total,
    {
        self.total
    }

    pub fn get_memoria_libre(&self) -> (r: u64)
        ensures
            r == self@.libre,
    {
        self.libre
    }

    pub fn get_memoria_usada(&self) -> (r: u64)
        ensures
            r == self@.usada,
    {
        self.usada
    }

    pub fn get_total_ram(&self) -> (r: u64)
        ensures
            r == self@.total_ram,
    {
        self.total_ram
    }

    pub fn get_libre_ram(&self) -> (r: u64)
        ensures
            r == self@.libre_ram,
    {
        self.libre_ram
    }

    pub fn get_usada_ram(&self) -> (r: u64)
        ensures
            r == self@.usada_ram,
    {
        self.usada_ram
    }

    pub fn get_swap_total(&self) -> (r: u64)
        ensures
            r == self@.swap_total,
    {
        self.swap_total
    }

    pub fn get_swap_libre(&self) -> (r: u64)
        ensures
            r == self@.swap_libre,
    {
        self.swap_libre
    }

    pub fn get_swap_usada(&self) -> (r: u64)
        ensures
            r == self@.swap_usada,
    {
        self.swap_usada
    }

    /// The share of memory in use, as the charts draw it.
    pub fn porcentaje_usado(&self) -> (r: u64)
        ensures
            r == porcentaje_usado(self@),
            r <= 10000,
    {
        proof {
            use_type_invariant(self);
        }
        if self.total == 0 {
            0
        } else {
            let usada = self.usada;
            let total = self.total;
            assert((usada * 10000) as int / total as int <= 10000) by (nonlinear_arith)
                requires
                    usada <= total,
                    total > 0,
            ;
            usada * 10000 / total
        }
    }

    /// Whether the share of memory in use is above `limite` hundredths of a
    /// percent.
    pub fn supera_limite(&self, limite: u64) -> (r: bool)
        ensures
            r == supera_limite_memoria(self@, limite),
    {
        proof {
            use_type_invariant(self);
        }
        let total = self.total as u128;
        let l = limite as u128;
        assert(l * total <= 0xffff_ffff_ffff_ffff * 0xffff_ffff_ffff_ffff) by (nonlinear_arith)
            requires
                l <= 0xffff_ffff_ffff_ffff,
                total <= 0xffff_ffff_ffff_ffff,
        ;
        self.total > 0 && (self.usada as u128) * 10000 > l * total
    }

    /// RAM plus swap, which is the combined total.
    pub fn get_memoria_total_sistema(&self) -> (r: u64)
        ensures
            r == self@.total_ram + self@.swap_total,
            r == self@.total,
    {
        proof {
            use_type_invariant(self);
        }
        self.total
    }
}

/// Dividing by `B_TO_MB` keeps the order of two byte counts and lands within
/// `MAX_MB`.
proof fn lema_mib_ordenados(a: u64, b: u64)
    requires
        a <= b,
    ensures
        a / B_TO_MB <= b / B_TO_MB,
        b / B_TO_MB <= MAX_MB,
{
    assert(a / 1048576 <= b / 1048576) by (nonlinear_arith)
        requires
            a <= b,
    ;
    assert(b / 1048576 <= 17592186044415) by (nonlinear_arith)
        requires
            b <= 0xffff_ffff_ffff_ffffu64,
    ;
}

} // verus!
