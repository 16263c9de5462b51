//! The ledger as mathematics: the registry is a map from names to pledged
//! amounts, and each call is a rule that says when it succeeds and what map it
//! leaves behind.

use vstd::prelude::*;
use crate::tipos::{Config, Error, Origin};

verus! {

/// The registry as a map from each registered name to the amount pledged to it.
pub type Registro = Map<Seq<u8>, nat>;

/// The largest amount that a balance can hold.
pub open spec fn saldo_maximo() -> nat {
    u128::MAX as nat
}

/// The amount pledged to `nombre`: what the registry holds for it, and zero
/// where it holds nothing.
pub open spec fn saldo_de(m: Registro, nombre: Seq<u8>) -> nat {
    if m.contains_key(nombre) {
        m[nombre]
    } else {
        0
    }
}

/// Every registered name lies within the limits of `config`.
pub open spec fn acotado(config: Config, m: Registro) -> bool {
    forall|k: Seq<u8>| #[trigger] m.contains_key(k) ==> config.admite(k.len())
}

/// Whether `nombre` may name a project. The maximum is tested first, so a name
/// that breaks both limits is too long.
pub open spec fn revisar_nombre(config: Config, nombre: Seq<u8>) -> Result<(), Error> {
    if nombre.len() > config.largo_maximo_nombre_proyecto {
        Err(Error::NombreMuyLargo)
    } else if nombre.len() < config.largo_minimo_nombre_proyecto {
        Err(Error::NombreMuyCorto)
    } else {
        Ok(())
    }
}

/// Whether a call to register `nombre` goes through, and for which account.
/// The signature is tested before the name.
pub open spec fn revisar_creacion<A>(config: Config, origen: Origin<A>, nombre: Seq<u8>) -> Result<
    A,
    Error,
> {
    match origen.firmante() {
        Err(e) => Err(e),
        Ok(quien) => match revisar_nombre(config, nombre) {
            Err(e) => Err(e),
            Ok(_) => Ok(quien),
        },
    }
}

/// The registry after `nombre` was registered: the name is there with nothing
/// pledged, whatever it held before.
pub open spec fn crear(m: Registro, nombre: Seq<u8>) -> Registro {
    m.insert(nombre, 0)
}

/// Whether a pledge of `cantidad` to `nombre` may go on to the withdrawal, and
/// from which account, given that the caller's free balance is `saldo_libre`.
/// The tests come in this order: the signature, the project, the funds, the
/// room left in the project's balance.
pub open spec fn revisar_apoyo<A>(
    m: Registro,
    origen: Origin<A>,
    nombre: Seq<u8>,
    cantidad: nat,
    saldo_libre: nat,
) -> Result<A, Error> {
    match origen.firmante() {
        Err(e) => Err(e),
        Ok(quien) => if !m.contains_key(nombre) {
            Err(Error::ProyectoNoExiste)
        } else if saldo_libre < cantidad {
            Err(Error::FondosInsuficientes)
        } else if m[nombre] + cantidad > saldo_maximo() {
            Err(Error::DesbordamientoAritmetico)
        } else {
            Ok(quien)
        },
    }
}

/// Whether a pledge of `cantidad` to `nombre` is credited, given whether the
/// currency made the withdrawal. A withdrawal that was not made comes first:
/// nothing else is then looked at.
pub open spec fn revisar_abono(m: Registro, nombre: Seq<u8>, cantidad: nat, retirado: bool) -> Result<
    (),
    Error,
> {
    if !retirado {
        Err(Error::FondosInsuficientes)
    } else if !m.contains_key(nombre) {
        Err(Error::ProyectoNoExiste)
    } else if m[nombre] + cantidad > saldo_maximo() {
        Err(Error::DesbordamientoAritmetico)
    } else {
        Ok(())
    }
}

/// The registry after `cantidad` was credited to `nombre`.
pub open spec fn abonar(m: Registro, nombre: Seq<u8>, cantidad: nat) -> Registro {
    m.insert(nombre, m[nombre] + cantidad)
}

} // verus!
