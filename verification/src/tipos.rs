//! The values that the ledger takes and gives: its configuration, the origin of
//! a call, its errors, its events and the withdrawal it asks of the currency.

use vstd::prelude::*;

verus! {

/// An amount of currency.
pub type Balance = u128;

/// The limits on the length of a project's name, fixed when the ledger is made.
///
/// Nothing asks that the minimum be at most the maximum; where it is not, no
/// name is admitted.
#[derive(Clone, Copy, Debug, PartialEq, Eq, Structural)]
pub struct Config {
    /// The least number of bytes in a project's name.
    pub largo_minimo_nombre_proyecto: u32,
    /// The greatest number of bytes in a project's name.
    pub largo_maximo_nombre_proyecto: u32,
}

impl Config {
    /// Whether a name of `largo` bytes lies within the limits.
    pub open spec fn admite(self, largo: nat) -> bool {
        self.largo_minimo_nombre_proyecto <= largo <= self.largo_maximo_nombre_proyecto
    }
}

/// Why a call was turned down.
#[derive(Clone, Copy, Debug, PartialEq, Eq, Structural)]
pub enum Error {
    /// The name has more bytes than the maximum.
    NombreMuyLargo,
    /// The name has fewer bytes than the minimum.
    NombreMuyCorto,
    /// The caller pledged more than its free balance, or the currency refused
    /// the withdrawal.
    FondosInsuficientes,
    /// No project of that name is registered.
    ProyectoNoExiste,
    /// The call was not signed by an account.
    NoFirmado,
    /// The pledge would take the project's balance past the largest amount.
    DesbordamientoAritmetico,
}

/// Where a call comes from, as the host that authenticated it reports.
#[derive(Debug, PartialEq, Eq)]
pub enum Origin<A> {
    /// The call was signed by this account.
    Signed(A),
    /// The call was signed by no account.
    Unsigned,
}

impl<A> Origin<A> {
    /// The account that signed the call, or `NoFirmado`.
    pub open spec fn firmante(self) -> Result<A, Error> {
        match self {
            Origin::Signed(quien) => Ok(quien),
            Origin::Unsigned => Err(Error::NoFirmado),
        }
    }

    /// The account that signed the call; fails with `NoFirmado` where none did.
    pub fn ensure_signed(self) -> (r: Result<A, Error>)
        ensures
            r == self.firmante(),
    {
        match self {
            Origin::Signed(quien) => Ok(quien),
            Origin::Unsigned => Err(Error::NoFirmado),
        }
    }
}

/// What a successful call reports to the host's event sink.
#[derive(Debug, PartialEq, Eq)]
pub enum Event<A> {
    /// `quien` registered the project `nombre`.
    ProyectoCreado { quien: A, nombre: Vec<u8> },
    /// `cantidad` was pledged to the project `nombre`.
    ProyectoApoyado { nombre: Vec<u8>, cantidad: Balance },
}

/// A withdrawal that the ledger asks the currency to make before it credits a
/// pledge: take `cantidad` from the free balance of `quien`, on behalf of the
/// project `nombre`.
#[derive(Debug, PartialEq, Eq)]
pub struct Retiro<A> {
    /// The account to withdraw from.
    pub quien: A,
    /// The project that the pledge is for.
    pub nombre: Vec<u8>,
    /// The amount to withdraw.
    pub cantidad: Balance,
    /// Whether the withdrawal must fail rather than leave the account below
    /// the balance that keeps it alive.
    pub mantener_viva: bool,
}

} // verus!
