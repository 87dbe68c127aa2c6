//! Accounting and pricing core of a perpetual-futures venue.
//!
//! Traders post collateral, open and close leveraged positions against a
//! constant-product pool, pay or receive funding, and are liquidated when
//! their margin runs thin. All amounts are signed 128-bit fixed-point
//! numbers; no operation wraps or panics, and one that fails changes nothing.
//!
//! The venue does no input or output of its own. What the outside world
//! says, the time and the oracle's last observation, is handed to each
//! operation; what an operation settled is handed back.
//!
//! - [`fixed`]: checked arithmetic, division rounded toward zero.
//! - [`types`], [`account`], [`state`]: the records kept and the venue's
//!   state as a mathematical value.
//! - [`pool`], [`pricing`], [`margin`], [`funding`]: the formulas.
//! - [`rules`]: what each operation does, as functions on the state.
//! - [`perp`], [`positions`]: the operations themselves, on [`perp::FlashPerp`].
//! - [`laws`]: what holds whatever the inputs.

pub mod account;
pub mod error;
pub mod fixed;
pub mod funding;
pub mod laws;
pub mod ledger;
pub mod margin;
pub mod perp;
pub mod pool;
pub mod positions;
pub mod pricing;
pub mod rules;
pub mod settlement;
pub mod state;
pub mod types;
