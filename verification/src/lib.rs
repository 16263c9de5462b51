//! A crowdfunding ledger: signed accounts register named projects and other
//! accounts pledge currency to them.
//!
//! The ledger holds the registry of projects and the rules of the two calls.
//! It holds no currency: a pledge is validated here, withdrawn by the host's
//! currency, and credited here once the withdrawal was made.

pub mod leyes;
pub mod modelo;
pub mod pallet;
pub mod proyectos;
pub mod tipos;

pub use pallet::Pallet;
pub use proyectos::Proyectos;
pub use tipos::{Balance, Config, Error, Event, Origin, Retiro};
