//! Error taxonomy of the execution layer.

use vstd::prelude::*;

use crate::model::{SocketError, Symbol};
use crate::order::{ClientOrderId, OrderKind};

verus! {

/// Failures surfaced by execution clients and their callers.
#[derive(Clone, Debug)]
pub enum ExecutionError {
    /// Programmer error at construction; fatal.
    BuilderIncomplete(&'static str),
    /// Simulated-exchange fault; surfaced as a failed order result.
    Simulated(String),
    /// Pre-trade balance check failed for the given symbol; per-order.
    InsufficientBalance(Symbol),
    /// A cancel referenced an order that is not open; per-order.
    OrderNotFound(ClientOrderId),
    /// The venue or configuration does not support the order kind; per-order.
    UnsupportedOrderKind(OrderKind),
    /// Authentication failed; venue-wide.
    Unauthorised(String),
    /// Transport or protocol failure; retryable at the caller's discretion.
    Socket(SocketError),
}

/// Failures of portfolio position handling.
#[derive(Copy, Clone, Debug)]
pub enum PositionError {
    /// Programmer error at construction; fatal.
    BuilderIncomplete(&'static str),
    /// The entry side could not be derived from fill quantity and decision.
    ParseEntrySide,
    /// An entry fill cannot exit a position.
    CannotEnterPositionWithExitFill,
    /// An exit fill cannot enter a position.
    CannotExitPositionWithEntryFill,
    /// A position exit was generated from a position that was never exited.
    PositionExit,
}

} // verus!
