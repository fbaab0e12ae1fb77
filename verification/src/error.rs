use vstd::prelude::*;

verus! {

/// Why a request to the payment contract was refused.
#[derive(Clone, Copy, Debug, PartialEq, Eq, Structural)]
pub enum CrossAssetPaymentError {
    /// `init` was called on a contract that already has an admin.
    AlreadyInitialized,
    /// An admin-only operation was requested before `init`.
    NotInitialized,
    /// An admin-only operation was requested by someone other than the admin.
    Unauthorized,
    /// No payment has the given id.
    PaymentNotFound,
    /// The requested status is unknown or cannot follow the current one.
    InvalidStatusTransition,
    /// The amount of a new payment is zero or negative.
    InvalidAmount,
    /// The receiver, the target asset or the anchor of a new payment is empty.
    EmptyRoutingFields,
    /// The sender already initiated a payment in the current ledger.
    LedgerReplayDetected,
    /// Escrow can only be released or refunded while the payment is pending.
    PaymentNotPending,
}

} // verus!
