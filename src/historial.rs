//! A rolling history: the most recent values of one derived figure, at most
//! a fixed number of them, oldest first.

use vstd::prelude::*;
use std::collections::VecDeque;

verus! {

/// The last `n` elements of `s`, or all of them when there are fewer.
pub open spec fn ultimos(s: Seq<u64>, n: nat) -> Seq<u64> {
    if s.len() <= n {
        s
    } else {
        s.subrange(s.len() - n, s.len() as int)
    }
}

/// The values after `v` is pushed onto `s` with room for `capacidad`.
pub open spec fn con_valor(s: Seq<u64>, capacidad: nat, v: u64) -> Seq<u64> {
    ultimos(s.push(v), capacidad)
}

/// The values after each of `vs` is pushed in turn.
pub open spec fn con_valores(s: Seq<u64>, capacidad: nat, vs: Seq<u64>) -> Seq<u64>
    decreases vs.len(),
{
    if vs.len() == 0 {
        s
    } else {
        con_valor(con_valores(s, capacidad, vs.drop_last()), capacidad, vs.last())
    }
}

/// What a history holds: its values, oldest first, and its capacity.
pub struct HistorialVista {
    pub valores: Seq<u64>,
    pub capacidad: nat,
}

/// A first-in first-out buffer that drops its oldest value when a push
/// would take it past its capacity.
pub struct HistorialAcotado {
    valores: VecDeque<u64>,
    capacidad: usize,
}

impl View for HistorialAcotado {
    type V = HistorialVista;

    closed spec fn view(&self) -> HistorialVista {
        HistorialVista { valores: self.valores@, capacidad: self.capacidad as nat }
    }
}

impl HistorialVista {
    /// No more values than the capacity.
    pub open spec fn bien_formado(self) -> bool {
        self.valores.len() <= self.capacidad
    }
}

impl HistorialAcotado {
    #[verifier::type_invariant]
    spec fn invariante(self) -> bool {
        self@.bien_formado()
    }


    /// An empty history with room for `capacidad` values.
    pub fn new(capacidad: usize) -> (r: HistorialAcotado)
        ensures
            r@.valores == Seq::<u64>::empty(),
            r@.capacidad == capacidad,
            r@.bien_formado(),
    {
        HistorialAcotado { valores: VecDeque::new(), capacidad }
    }

    /// Appends `v`, dropping the oldest value when the history was full.
    pub fn push(&mut self, v: u64)
        ensures
            final(self)@.valores == con_valor(old(self)@.valores, old(self)@.capacidad, v),
            final(self)@.capacidad == old(self)@.capacidad,
            final(self)@.bien_formado(),
    {
        proof {
            use_type_invariant(&*self);
        }
        let ghost antes = self.valores@;
        let mut valores: VecDeque<u64> = VecDeque::new();
        std::mem::swap(&mut self.valores, &mut valores);
        valores.push_back(v);
        if valores.len() > self.capacidad {
            valores.pop_front();
            assert(valores@ =~= antes.push(v).subrange(1, antes.len() + 1 as int));
        }
        std::mem::swap(&mut self.valores, &mut valores);
    }

    /// The values, oldest first.
    pub fn valores(&self) -> (r: &VecDeque<u64>)
        ensures
            r@ == self@.valores,
    {
        &self.valores
    }

    /// The number of values held.
    pub fn len(&self) -> (r: usize)
        ensures
            r == self@.valores.len(),
            r <= self@.capacidad,
    {
        proof {
            use_type_invariant(self);
        }
        self.valores.len()
    }

    pub fn capacidad(&self) -> (r: usize)
        ensures
            r == self@.capacidad,
    {
        self.capacidad
    }
}

/// A history never holds more than its capacity: pushing any values in turn
/// onto a history leaves exactly the most recent `capacidad` of all it has
/// seen, oldest first, or all of them when there are fewer.
pub proof fn ley_capacidad_fija(s: Seq<u64>, capacidad: nat, vs: Seq<u64>)
    requires
        s.len() <= capacidad,
    ensures
        con_valores(s, capacidad, vs) == ultimos(s + vs, capacidad),
        con_valores(s, capacidad, vs).len() == if (s + vs).len() <= capacidad {
            (s + vs).len()
        } else {
            capacidad
        },
    decreases vs.len(),
{
    if vs.len() == 0 {
        assert(s + vs =~= s);
    } else {
        let p = vs.drop_last();
        ley_capacidad_fija(s, capacidad, p);
        let x = s + p;
        assert(s + vs =~= x.push(vs.last()));
        assert(ultimos(x, capacidad).push(vs.last()).len() == ultimos(x, capacidad).len() + 1);
        if x.len() + 1 > capacidad {
            assert(ultimos(ultimos(x, capacidad).push(vs.last()), capacidad) =~= ultimos(
                x.push(vs.last()),
                capacidad,
            ));
        } else {
            assert(ultimos(ultimos(x, capacidad).push(vs.last()), capacidad) =~= x.push(
                vs.last(),
            ));
        }
    }
}

} // verus!
