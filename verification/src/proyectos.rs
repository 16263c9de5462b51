//! The project registry: a map from project names to the amount pledged to each.

use vstd::prelude::*;
use crate::tipos::Balance;

verus! {

/// One registered project: its name and the amount pledged to it so far.
struct Proyecto {
    nombre: Vec<u8>,
    saldo: Balance,
}

/// The registry of projects, keyed by name.
///
/// Its view is the map from each registered name to the amount pledged to it.
/// A name that is not a key of that map stands for a project that does not exist.
pub struct Proyectos {
    entradas: Vec<Proyecto>,
}

/// Whether two byte strings hold the same bytes.
fn mismos_bytes(a: &[u8], b: &[u8]) -> (r: bool)
    ensures
        r == (a@ == b@),
{
    if a.len() != b.len() {
        return false;
    }
    let mut i: usize = 0;
    while i < a.len()
        invariant
            a@.len() == b@.len(),
            i <= a@.len(),
            forall|j: int| 0 <= j < i ==> a@[j] == b@[j],
        decreases a@.len() - i,
    {
        if a[i] != b[i] {
            return false;
        }
        i += 1;
    }
    assert(a@ =~= b@);
    true
}

impl View for Proyectos {
    type V = Map<Seq<u8>, nat>;

    closed spec fn view(&self) -> Map<Seq<u8>, nat> {
        Map::new(
            |k: Seq<u8>| self.registrado(k),
            |k: Seq<u8>| self.entradas@[self.lugar(k)].saldo as nat,
        )
    }
}

impl Proyectos {
    /// Some entry carries the name `k`.
    spec fn registrado(&self, k: Seq<u8>) -> bool {
        exists|i: int| 0 <= i < self.entradas@.len() && #[trigger] self.entradas@[i].nombre@ == k
    }

    /// The position of an entry that carries the name `k`, where there is one.
    spec fn lugar(&self, k: Seq<u8>) -> int {
        choose|i: int| 0 <= i < self.entradas@.len() && #[trigger] self.entradas@[i].nombre@ == k
    }

    /// No two entries carry the same name.
    #[verifier::type_invariant]
    spec fn sin_repetidos(&self) -> bool {
        forall|i: int, j: int|
            0 <= i < j < self.entradas@.len() ==> #[trigger] self.entradas@[i].nombre@
                != #[trigger] self.entradas@[j].nombre@
    }

    /// An empty registry.
    pub fn new() -> (r: Self)
        ensures
            r@ == Map::<Seq<u8>, nat>::empty(),
    {
        let r = Proyectos { entradas: Vec::new() };
        assert(r@ =~= Map::<Seq<u8>, nat>::empty());
        r
    }

    /// The position of the entry named `nombre`, if the registry holds one.
    fn buscar(&self, nombre: &[u8]) -> (r: Option<usize>)
        ensures
            match r {
                Some(i) => i < self.entradas@.len() && self.entradas@[i as int].nombre@ == nombre@,
                None => !self.registrado(nombre@),
            },
    {
        let mut i: usize = 0;
        while i < self.entradas.len()
            invariant
                i <= self.entradas@.len(),
                forall|j: int| 0 <= j < i ==> self.entradas@[j].nombre@ != nombre@,
            decreases self.entradas@.len() - i,
        {
            if mismos_bytes(self.entradas[i].nombre.as_slice(), nombre) {
                return Some(i);
            }
            i += 1;
        }
        None
    }

    /// Whether a project named `nombre` is registered.
    pub fn contains_key(&self, nombre: &[u8]) -> (r: bool)
        ensures
            r == self@.contains_key(nombre@),
    {
        self.buscar(nombre).is_some()
    }

    /// The amount pledged to the project named `nombre`; zero where no such
    /// project is registered.
    pub fn get(&self, nombre: &[u8]) -> (r: Balance)
        ensures
            r == if self@.contains_key(nombre@) { self@[nombre@] } else { 0 },
    {
        proof {
            use_type_invariant(self);
        }
        match self.buscar(nombre) {
            Some(i) => {
                assert(self.registrado(nombre@));
                self.entradas[i].saldo
            },
            None => 0,
        }
    }

    /// Records `saldo` as the amount pledged to the project named `nombre`,
    /// registering the project where it was not, and replacing the amount
    /// where it was.
    pub fn insert(&mut self, nombre: Vec<u8>, saldo: Balance)
        ensures
            final(self)@ == old(self)@.insert(nombre@, saldo as nat),
    {
        proof {
            use_type_invariant(&*self);
        }
        let ghost antes = *self;
        let lugar = self.buscar(nombre.as_slice());
        // The entries are changed outside the registry and put back whole, so
        // that the registry never stands with a name twice.
        let mut entradas: Vec<Proyecto> = Vec::new();
        std::mem::swap(&mut self.entradas, &mut entradas);
        match lugar {
            Some(i) => {
                entradas.set(i, Proyecto { nombre, saldo });
            },
            None => {
                entradas.push(Proyecto { nombre, saldo });
            },
        }
        std::mem::swap(&mut self.entradas, &mut entradas);
        proof {
            use_type_invariant(&*self);
            let puesto = match lugar {
                Some(i) => i as int,
                None => antes.entradas@.len() as int,
            };
            assert(self.entradas@[puesto].nombre@ == nombre@);
            assert forall|k: Seq<u8>|
                self@.contains_key(k) == (antes@.contains_key(k) || k == nombre@) by {
                if antes.registrado(k) {
                    assert(self.entradas@[antes.lugar(k)].nombre@ == k);
                }
                if self.registrado(k) && k != nombre@ {
                    assert(antes.entradas@[self.lugar(k)].nombre@ == k);
                }
            }
            assert forall|k: Seq<u8>| antes@.contains_key(k) && k != nombre@ implies self@[k]
                == antes@[k] by {
                assert(self.entradas@[antes.lugar(k)].nombre@ == k);
            }
        }
        assert(self@ =~= antes@.insert(nombre@, saldo as nat));
    }
}

} // verus!
