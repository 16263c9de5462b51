//! The ledger itself: the registry together with its limits, and the calls that
//! register a project and pledge to one.
//!
//! A pledge moves currency that the ledger does not hold. It is therefore made
//! in two steps, with the host in between: `apoyar_proyecto` validates the
//! pledge and says what to withdraw, the host asks the currency to withdraw it,
//! and `confirmar_apoyo` credits the project only where the withdrawal was made.

use vstd::prelude::*;
use crate::modelo::{
    abonar,
    acotado,
    crear,
    revisar_abono,
    revisar_apoyo,
    revisar_creacion,
    saldo_de,
    Registro,
};
use crate::proyectos::Proyectos;
use crate::tipos::{Balance, Config, Error, Event, Origin, Retiro};

verus! {

/// The ledger: the limits on names and the registry of projects.
///
/// Its view is the registry as a map from names to pledged amounts.
pub struct Pallet {
    config: Config,
    proyectos: Proyectos,
}

impl View for Pallet {
    type V = Registro;

    closed spec fn view(&self) -> Registro {
        self.proyectos@
    }
}

impl Pallet {
    /// The limits that the ledger was made with.
    pub closed spec fn config(&self) -> Config {
        self.config
    }

    /// Every registered name lies within the limits.
    #[verifier::type_invariant]
    spec fn nombres_acotados(&self) -> bool {
        acotado(self.config, self.proyectos@)
    }

    /// A ledger with the limits of `config` and no project.
    pub fn new(config: Config) -> (r: Self)
        ensures
            r.config() == config,
            r@ == Registro::empty(),
    {
        Pallet { config, proyectos: Proyectos::new() }
    }

    /// The least number of bytes in a project's name.
    pub fn largo_minimo_nombre_proyecto(&self) -> (r: u32)
        ensures
            r == self.config().largo_minimo_nombre_proyecto,
    {
        self.config.largo_minimo_nombre_proyecto
    }

    /// The greatest number of bytes in a project's name.
    pub fn largo_maximo_nombre_proyecto(&self) -> (r: u32)
        ensures
            r == self.config().largo_maximo_nombre_proyecto,
    {
        self.config.largo_maximo_nombre_proyecto
    }

    /// Whether a project named `nombre` is registered. A registered name lies
    /// within the limits.
    pub fn existe(&self, nombre: &[u8]) -> (r: bool)
        ensures
            r == self@.contains_key(nombre@),
            acotado(self.config(), self@),
    {
        proof {
            use_type_invariant(self);
        }
        self.proyectos.contains_key(nombre)
    }

    /// The amount pledged to the project named `nombre`; zero where no such
    /// project is registered.
    pub fn saldo_de(&self, nombre: &[u8]) -> (r: Balance)
        ensures
            r == saldo_de(self@, nombre@),
            acotado(self.config(), self@),
    {
        proof {
            use_type_invariant(self);
        }
        self.proyectos.get(nombre)
    }

    /// Registers the project `nombre` with nothing pledged to it, and reports
    /// who registered it.
    ///
    /// The call must be signed, and the name must lie within the limits: one
    /// that is too long is turned down before one that is too short. A project
    /// of that name that is already registered starts again from zero. A call
    /// that is turned down leaves the registry as it was.
    pub fn crear_proyecto<A>(&mut self, origen: Origin<A>, nombre: Vec<u8>) -> (r: Result<
        Event<A>,
        Error,
    >)
        ensures
            final(self).config() == old(self).config(),
            acotado(final(self).config(), final(self)@),
            match revisar_creacion(old(self).config(), origen, nombre@) {
                Ok(firmante) => {
                    &&& r matches Ok(Event::ProyectoCreado { quien, nombre: creado })
                    &&& quien == firmante
                    &&& creado@ == nombre@
                    &&& final(self)@ == crear(old(self)@, nombre@)
                    &&& final(self)@.contains_key(nombre@)
                    &&& saldo_de(final(self)@, nombre@) == 0
                },
                Err(e) => r == Err::<Event<A>, Error>(e) && final(self)@ == old(self)@,
            },
    {
        proof {
            use_type_invariant(&*self);
        }
        let quien = match origen.ensure_signed() {
            Ok(quien) => quien,
            Err(e) => {
                return Err(e);
            },
        };
        let largo = nombre.len();
        if largo > self.config.largo_maximo_nombre_proyecto as usize {
            return Err(Error::NombreMuyLargo);
        }
        if largo < self.config.largo_minimo_nombre_proyecto as usize {
            return Err(Error::NombreMuyCorto);
        }
        // The registry is changed outside the ledger and put back whole, so
        // that the ledger never stands with a name outside its limits.
        let mut proyectos = Proyectos::new();
        std::mem::swap(&mut self.proyectos, &mut proyectos);
        proyectos.insert(nombre.clone(), 0);
        std::mem::swap(&mut self.proyectos, &mut proyectos);
        Ok(Event::ProyectoCreado { quien, nombre })
    }

    /// Validates a pledge of `cantidad` to the project `nombre` by a caller
    /// whose free balance is `saldo_libre`, and says what the currency must
    /// withdraw before the pledge is credited.
    ///
    /// The call must be signed, the project registered, the free balance at
    /// least `cantidad`, and the project's balance able to take `cantidad`
    /// more; the first of these that fails gives the error. A name outside
    /// the limits names no project. Nothing is credited here, and a call that
    /// is turned down asks for no withdrawal.
    pub fn apoyar_proyecto<A>(
        &self,
        origen: Origin<A>,
        nombre: Vec<u8>,
        cantidad: Balance,
        saldo_libre: Balance,
    ) -> (r: Result<Retiro<A>, Error>)
        ensures
            acotado(self.config(), self@),
            match revisar_apoyo(self@, origen, nombre@, cantidad as nat, saldo_libre as nat) {
                Ok(firmante) => {
                    &&& r matches Ok(retiro)
                    &&& retiro.quien == firmante
                    &&& retiro.nombre@ == nombre@
                    &&& retiro.cantidad == cantidad
                    &&& retiro.mantener_viva
                },
                Err(e) => r == Err::<Retiro<A>, Error>(e),
            },
    {
        proof {
            use_type_invariant(self);
        }
        let quien = match origen.ensure_signed() {
            Ok(quien) => quien,
            Err(e) => {
                return Err(e);
            },
        };
        // A name past the maximum names no project: it is turned down before
        // the registry is searched.
        if nombre.len() > self.config.largo_maximo_nombre_proyecto as usize {
            return Err(Error::ProyectoNoExiste);
        }
        if !self.proyectos.contains_key(nombre.as_slice()) {
            return Err(Error::ProyectoNoExiste);
        }
        if saldo_libre < cantidad {
            return Err(Error::FondosInsuficientes);
        }
        if self.proyectos.get(nombre.as_slice()).checked_add(cantidad).is_none() {
            return Err(Error::DesbordamientoAritmetico);
        }
        Ok(Retiro { quien, nombre, cantidad, mantener_viva: true })
    }

    /// Closes a pledge once the currency has answered: `retirado` says whether
    /// it made the withdrawal that `retiro` asked for.
    ///
    /// Where it did, the amount withdrawn is credited to the project and the
    /// pledge is reported. Where it did not, the call fails with
    /// `FondosInsuficientes`. A call that fails leaves the registry as it was.
    pub fn confirmar_apoyo<A>(&mut self, retiro: Retiro<A>, retirado: bool) -> (r: Result<
        Event<A>,
        Error,
    >)
        ensures
            final(self).config() == old(self).config(),
            acotado(final(self).config(), final(self)@),
            match revisar_abono(old(self)@, retiro.nombre@, retiro.cantidad as nat, retirado) {
                Ok(_) => {
                    &&& r matches Ok(Event::ProyectoApoyado { nombre, cantidad })
                    &&& nombre@ == retiro.nombre@
                    &&& cantidad == retiro.cantidad
                    &&& final(self)@ == abonar(old(self)@, retiro.nombre@, retiro.cantidad as nat)
                },
                Err(e) => r == Err::<Event<A>, Error>(e) && final(self)@ == old(self)@,
            },
    {
        proof {
            use_type_invariant(&*self);
        }
        if !retirado {
            return Err(Error::FondosInsuficientes);
        }
        let Retiro { quien: _, nombre, cantidad, mantener_viva: _ } = retiro;
        if !self.proyectos.contains_key(nombre.as_slice()) {
            return Err(Error::ProyectoNoExiste);
        }
        let nuevo_saldo = match self.proyectos.get(nombre.as_slice()).checked_add(cantidad) {
            Some(suma) => suma,
            None => {
                return Err(Error::DesbordamientoAritmetico);
            },
        };
        let mut proyectos = Proyectos::new();
        std::mem::swap(&mut self.proyectos, &mut proyectos);
        proyectos.insert(nombre.clone(), nuevo_saldo);
        std::mem::swap(&mut self.proyectos, &mut proyectos);
        Ok(Event::ProyectoApoyado { nombre, cantidad })
    }
}

} // verus!
