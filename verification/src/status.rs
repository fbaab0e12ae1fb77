use vstd::prelude::*;

verus! {

/// Where a payment stands in its life cycle.
#[derive(Clone, Copy, Debug, PartialEq, Eq, Structural)]
pub enum PaymentStatus {
    /// Funds are held in escrow and the payment awaits routing.
    Pending,
    /// The payment is being routed by its anchor.
    Processing,
    /// The payment went through.
    Complete,
    /// The payment was abandoned.
    Failed,
}

/// The short symbol under which a status is stored and reported.
pub open spec fn status_symbol(status: PaymentStatus) -> Seq<char> {
    match status {
        PaymentStatus::Pending => "pending"@,
        PaymentStatus::Processing => "process"@,
        PaymentStatus::Complete => "complete"@,
        PaymentStatus::Failed => "failed"@,
    }
}

/// The status that a symbol names, if it names one.
pub open spec fn status_from_symbol(symbol: Seq<char>) -> Option<PaymentStatus> {
    if symbol == status_symbol(PaymentStatus::Pending) {
        Some(PaymentStatus::Pending)
    } else if symbol == status_symbol(PaymentStatus::Processing) {
        Some(PaymentStatus::Processing)
    } else if symbol == status_symbol(PaymentStatus::Complete) {
        Some(PaymentStatus::Complete)
    } else if symbol == status_symbol(PaymentStatus::Failed) {
        Some(PaymentStatus::Failed)
    } else {
        None
    }
}

/// A status from which no transition leads anywhere.
pub open spec fn is_terminal(status: PaymentStatus) -> bool {
    status == PaymentStatus::Complete || status == PaymentStatus::Failed
}

/// How far along its life cycle a status is.
pub open spec fn progress_rank(status: PaymentStatus) -> int {
    match status {
        PaymentStatus::Pending => 0,
        PaymentStatus::Processing => 1,
        PaymentStatus::Complete => 2,
        PaymentStatus::Failed => 2,
    }
}

/// The allowed moves of the status machine: a pending payment may start
/// processing, complete or fail; a processing payment may complete or fail;
/// a complete or failed payment stays as it is.
pub open spec fn can_transition(from: PaymentStatus, to: PaymentStatus) -> bool {
    match from {
        PaymentStatus::Pending => to != PaymentStatus::Pending,
        PaymentStatus::Processing => to == PaymentStatus::Complete || to == PaymentStatus::Failed,
        PaymentStatus::Complete => false,
        PaymentStatus::Failed => false,
    }
}

/// The symbols of the four statuses are pairwise distinct, and reading a
/// status back from its symbol gives the status itself.
pub proof fn law_status_symbols_round_trip()
    ensures
        forall|a: PaymentStatus, b: PaymentStatus|
            #![trigger status_symbol(a), status_symbol(b)]
            status_symbol(a) == status_symbol(b) ==> a == b,
        forall|s: PaymentStatus| #[trigger] status_from_symbol(status_symbol(s)) == Some(s),
{
    reveal_strlit("pending");
    reveal_strlit("process");
    reveal_strlit("complete");
    reveal_strlit("failed");
    assert("pending"@[1] != "process"@[1]);
    assert("pending"@.len() != "complete"@.len());
    assert("pending"@.len() != "failed"@.len());
    assert("process"@.len() != "complete"@.len());
    assert("process"@.len() != "failed"@.len());
    assert("complete"@.len() != "failed"@.len());
}

impl PaymentStatus {
    /// The short symbol of this status.
    pub fn symbol(&self) -> (symbol: &'static str)
        ensures
            symbol@ == status_symbol(*self),
    {
        match self {
            PaymentStatus::Pending => "pending",
            PaymentStatus::Processing => "process",
            PaymentStatus::Complete => "complete",
            PaymentStatus::Failed => "failed",
        }
    }

    /// Reads a status back from its symbol; `None` for any other text.
    pub fn from_symbol(symbol: &str) -> (status: Option<PaymentStatus>)
        ensures
            status == status_from_symbol(symbol@),
    {
        let text = symbol.to_owned();
        if text == "pending".to_owned() {
            Some(PaymentStatus::Pending)
        } else if text == "process".to_owned() {
            Some(PaymentStatus::Processing)
        } else if text == "complete".to_owned() {
            Some(PaymentStatus::Complete)
        } else if text == "failed".to_owned() {
            Some(PaymentStatus::Failed)
        } else {
            None
        }
    }

    /// Whether the status machine allows moving from this status to `next`.
    pub fn can_transition_to(&self, next: PaymentStatus) -> (allowed: bool)
        ensures
            allowed == can_transition(*self, next),
    {
        match self {
            PaymentStatus::Pending => next != PaymentStatus::Pending,
            PaymentStatus::Processing => next == PaymentStatus::Complete || next
                == PaymentStatus::Failed,
            PaymentStatus::Complete => false,
            PaymentStatus::Failed => false,
        }
    }
}

} // verus!
