//! Accounting core of a liquid-staking protocol.
//!
//! The crate covers three engines: the bond-and-mint exchange-rate engine
//! with its peg-recovery fee, the cumulative-index reward distributor, and
//! the wrapper-token decompounding engine.  All state is passed in and out
//! explicitly, and every operation returns the instructions it wants the
//! host to execute, so the core stays pure and verifiable.

pub mod bonding;
pub mod decimal;
pub mod error;
pub mod instr;
pub mod msg;
pub mod reward;
pub mod tax;
pub mod wrapper;

pub use decimal::Dec;
