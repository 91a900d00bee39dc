//! A bounded counter per identity, kept in a Soroban host's persistent store
//! and reached only in a call that the identity has authorized.

pub mod contract;
pub mod counter;
pub mod host;
pub mod key;
pub mod laws;

pub use contract::SafeCounter;
pub use counter::{AdditionContract, Error, MAX};
pub use key::DataKey;
