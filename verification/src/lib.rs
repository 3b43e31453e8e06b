//! An escrow-based financial option as a verified state machine.
//!
//! One party deposits collateral and names a counter-offer; the owner may
//! exercise the option before expiry by paying the counter-offer, transfer
//! ownership, or let anyone reclaim the collateral for the creator once the
//! option has expired.

pub mod contract;
pub mod error;
pub mod funds;
pub mod laws;
pub mod msg;
pub mod response;
pub mod state;
