//! A single-pot incentive game: callers stake funds to become the current
//! holder of the pot; if nobody outbids the holder within a fixed countdown
//! window, the holder may claim the accumulated balance.
//!
//! The library is the game's state machine alone. The host environment that
//! supplies caller identity, the current time, the attached stake and the
//! ledger primitives (balance, transfer, termination) hands those in as plain
//! values and carries the returned actions out.

pub mod account;
pub mod game;
