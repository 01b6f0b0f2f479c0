//! Accounting and pricing core of a constant-product liquidity pool for two
//! fungible token types.
//!
//! The pool tracks per-account free balances of both tokens, the reserves
//! locked in the pool, and proportional ownership shares.  Every operation is
//! a single atomic state transition: it either applies all of its updates or,
//! on any precondition failure, none of them.  The hosting shell is expected
//! to supply the caller's account identifier explicitly and to persist the
//! pool state between calls.

pub mod arith;
pub mod errors;
pub mod laws;
pub mod ledger;
pub mod model;
pub mod pool;

pub use errors::Error;
pub use pool::AutomatedMarketMaker;
