//! A custodial vault that holds a pool of value under a deterministically
//! derived authority (no private key), gates withdrawals on a registered
//! administrator, and can atomically convert part of its holdings through an
//! external exchange venue under a caller-supplied minimum-output floor.
//!
//! The modules:
//! - [`errors`]: the named error kinds every operation reports.
//! - [`derivation`]: the deterministic vault-address derivation.
//! - [`state`]: the persisted registry, its one-time initialization, and the
//!   authorization gate.
//! - [`ledger`]: the deposit and withdraw custody operations.
//! - [`swap`]: the three-leg, all-or-nothing swap orchestration.

pub mod derivation;
pub mod errors;
pub mod ledger;
pub mod state;
pub mod swap;
