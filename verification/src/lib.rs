//! A pooled contribution campaign: a creator opens a pool with a fixed
//! number of member slots and a total target price; each joining member
//! pays an equal share into a custody vault; the creator alone may close
//! the pool or withdraw the collected funds.
//!
//! The host environment that authenticates callers, stores the records and
//! moves currency between accounts is out of scope: operations here take
//! caller identities and account balances as plain values and state in
//! their contracts exactly how the records change.

pub mod laws;
pub mod ops;
pub mod pool;
