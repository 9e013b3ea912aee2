//! Driver model for a descriptor-based Direct Memory Access Controller
//! (DMAC).
//!
//! The controller owns a peripheral-wide register file, publishes the
//! addresses of a descriptor table and a writeback table, and hands out one
//! [`channel::Channel`] handle per hardware channel. Each channel runs a
//! verified lifecycle state machine (uninitialized, ready, busy); the
//! controller carries the global enable, the priority-level-enable mask and
//! the per-level round-robin arbitration bits.

use vstd::prelude::*;

pub mod channel;
pub mod controller;
pub mod descriptor;
pub mod registers;

verus! {

/// Errors raised by the controller and by channel operations.
///
/// Configuration errors (`InvalidState`, `InvalidDescriptor`,
/// `SoftwareTriggerDenied`, `AlreadySplit`) are local and recoverable: the
/// call is rejected and no state changes. `ResetTimeout` is fatal: a software
/// reset is the recovery primitive, so when it fails the peripheral is
/// assumed non-functional.
#[derive(Clone, Copy, Debug, PartialEq, Eq, Structural)]
pub enum DmacError {
    /// The operation is not valid in the current lifecycle state (for
    /// example, triggering a channel that is not ready).
    InvalidState,
    /// The supplied transfer descriptor cannot describe a transfer: its
    /// block-transfer count is zero.
    InvalidDescriptor,
    /// A software trigger was requested on a channel whose trigger action
    /// does not permit software triggering.
    SoftwareTriggerDenied,
    /// The controller's channels were already handed out once.
    AlreadySplit,
    /// A software reset did not complete within the bounded poll budget.
    ResetTimeout,
}

} // verus!
