//! Properties of the payment contract that hold across its operations.

use vstd::prelude::*;

use crate::error::CrossAssetPaymentError;
use crate::ledger::LedgerView;
use crate::rules::pending_payment;
use crate::status::{PaymentStatus, is_terminal, progress_rank, status_from_symbol};

verus! {

/// A payment that was accepted can be read back under the id it was given
/// (the payment count before it, plus one), pending and with the fields it
/// was made with; the count grows by one, the sender's last ledger becomes
/// the ledger of the payment, and nothing else that was stored changes.
pub proof fn law_accepted_payment_reads_back(
    s: LedgerView,
    from: Seq<char>,
    amount: i128,
    asset: Seq<char>,
    receiver_id: Seq<char>,
    target_asset: Seq<char>,
    anchor_id: Seq<char>,
    ledger: u32,
)
    requires
        s.initiate_error(from, amount, receiver_id, target_asset, anchor_id, ledger) is None,
    ensures
        ({
            let t = s.with_payment(from, amount, asset, receiver_id, target_asset, anchor_id, ledger);
            &&& t.payment(s.payment_count() + 1int) == Some(
                pending_payment(from, amount, asset, receiver_id, target_asset, anchor_id),
            )
            &&& t.payment(s.payment_count() + 1int) is Some
            &&& t.payment(s.payment_count() + 1int).unwrap().from == from
            &&& t.payment(s.payment_count() + 1int).unwrap().amount == amount
            &&& t.payment(s.payment_count() + 1int).unwrap().asset == asset
            &&& t.payment(s.payment_count() + 1int).unwrap().receiver_id == receiver_id
            &&& t.payment(s.payment_count() + 1int).unwrap().target_asset == target_asset
            &&& t.payment(s.payment_count() + 1int).unwrap().anchor_id == anchor_id
            &&& t.payment(s.payment_count() + 1int).unwrap().status == PaymentStatus::Pending
            &&& t.payment_count() == s.payment_count() + 1
            &&& t.last_payment_ledger(from) == ledger
            &&& forall|id: int| 1 <= id <= s.payment_count() ==> #[trigger] t.payment(id) == s.payment(id)
            &&& forall|other: Seq<char>|
                other != from ==> #[trigger] t.last_payment_ledger(other) == s.last_payment_ledger(other)
            &&& t.admin == s.admin
            &&& t.contract == s.contract
        }),
{
}

/// Changing the status of a payment (by a status update, a completion or a
/// failure) changes its status and nothing else: the payment keeps its sender,
/// amount, token, receiver, target asset and anchor, every other payment stays
/// as it was, and so do the admin, the contract and the senders' last ledgers.
pub proof fn law_status_change_keeps_payment(s: LedgerView, id: int, status: PaymentStatus)
    requires
        1 <= id <= s.payment_count(),
    ensures
        ({
            let t = s.with_status(id, status);
            let before = s.payment(id).unwrap();
            &&& t.payment(id) is Some
            &&& t.payment(id).unwrap().status == status
            &&& t.payment(id).unwrap().from == before.from
            &&& t.payment(id).unwrap().amount == before.amount
            &&& t.payment(id).unwrap().asset == before.asset
            &&& t.payment(id).unwrap().receiver_id == before.receiver_id
            &&& t.payment(id).unwrap().target_asset == before.target_asset
            &&& t.payment(id).unwrap().anchor_id == before.anchor_id
            &&& t.payment_count() == s.payment_count()
            &&& forall|other: int| other != id ==> #[trigger] t.payment(other) == s.payment(other)
            &&& t.admin == s.admin
            &&& t.contract == s.contract
            &&& t.last_ledgers == s.last_ledgers
        }),
{
    let t = s.with_status(id, status);
    assert forall|other: int| other != id implies #[trigger] t.payment(other) == s.payment(other) by {
        if 1 <= other <= s.payment_count() {
            assert(t.payments[other - 1] == s.payments[other - 1]);
        }
    }
}

/// `init` makes exactly the given account the admin, whatever its length:
/// afterwards that account passes the admin check of a release or refund, so
/// it may settle any pending payment, and the payments are untouched.
pub proof fn law_init_makes_admin(s: LedgerView, admin: Seq<char>, id: int)
    requires
        s.init_error() is None,
    ensures
        ({
            let t = s.with_admin(admin);
            &&& t.admin == Some(admin)
            &&& t.payments == s.payments
            &&& t.last_ledgers == s.last_ledgers
            &&& t.settlement_error(admin, id) != Some(CrossAssetPaymentError::NotInitialized)
            &&& t.settlement_error(admin, id) != Some(CrossAssetPaymentError::Unauthorized)
            &&& (s.payment(id) is Some && s.payment(id).unwrap().status == PaymentStatus::Pending
                ==> t.settlement_error(admin, id) is None)
        }),
{
}

/// Ids that no payment was given are not found: reading gives nothing, and a
/// status update is refused with `PaymentNotFound`, as is a release or
/// refund by the admin.
pub proof fn law_unknown_id_not_found(s: LedgerView, id: int, symbol: Seq<char>)
    requires
        !(1 <= id <= s.payment_count()),
    ensures
        s.payment(id) is None,
        s.status_update_error(id, symbol) == Some(CrossAssetPaymentError::PaymentNotFound),
        s.admin is Some ==> s.settlement_error(s.admin.unwrap(), id) == Some(
            CrossAssetPaymentError::PaymentNotFound,
        ),
{
}

/// Once a sender's payment was accepted at a ledger other than 0, a second
/// payment from the same sender at the same ledger is refused as a replay,
/// however valid it is otherwise; at any other ledger it is accepted.
pub proof fn law_same_ledger_replay_refused(
    s: LedgerView,
    from: Seq<char>,
    amount: i128,
    asset: Seq<char>,
    receiver_id: Seq<char>,
    target_asset: Seq<char>,
    anchor_id: Seq<char>,
    ledger: u32,
    next_amount: i128,
    next_receiver_id: Seq<char>,
    next_target_asset: Seq<char>,
    next_anchor_id: Seq<char>,
    next_ledger: u32,
)
    requires
        s.initiate_error(from, amount, receiver_id, target_asset, anchor_id, ledger) is None,
        next_amount > 0,
        next_receiver_id.len() > 0,
        next_target_asset.len() > 0,
        next_anchor_id.len() > 0,
    ensures
        ({
            let t = s.with_payment(from, amount, asset, receiver_id, target_asset, anchor_id, ledger);
            t.initiate_error(
                from,
                next_amount,
                next_receiver_id,
                next_target_asset,
                next_anchor_id,
                next_ledger,
            ) == if ledger != 0 && next_ledger == ledger {
                Some(CrossAssetPaymentError::LedgerReplayDetected)
            } else {
                None
            }
        }),
{
}

/// A payment from one sender does not change whether a payment from another
/// sender is accepted.
pub proof fn law_senders_do_not_interfere(
    s: LedgerView,
    from: Seq<char>,
    amount: i128,
    asset: Seq<char>,
    receiver_id: Seq<char>,
    target_asset: Seq<char>,
    anchor_id: Seq<char>,
    ledger: u32,
    other: Seq<char>,
    other_amount: i128,
    other_receiver_id: Seq<char>,
    other_target_asset: Seq<char>,
    other_anchor_id: Seq<char>,
    other_ledger: u32,
)
    requires
        s.initiate_error(from, amount, receiver_id, target_asset, anchor_id, ledger) is None,
        other != from,
    ensures
        s.with_payment(from, amount, asset, receiver_id, target_asset, anchor_id, ledger).initiate_error(
            other,
            other_amount,
            other_receiver_id,
            other_target_asset,
            other_anchor_id,
            other_ledger,
        ) == s.initiate_error(
            other,
            other_amount,
            other_receiver_id,
            other_target_asset,
            other_anchor_id,
            other_ledger,
        ),
{
}

/// A contract can be initialized once: after `init` succeeded, every further
/// `init` is refused with `AlreadyInitialized`, whatever payments and status
/// changes came in between.
pub proof fn law_init_only_once(
    s: LedgerView,
    admin: Seq<char>,
    from: Seq<char>,
    amount: i128,
    asset: Seq<char>,
    receiver_id: Seq<char>,
    target_asset: Seq<char>,
    anchor_id: Seq<char>,
    ledger: u32,
    id: int,
    status: PaymentStatus,
)
    requires
        s.init_error() is None,
    ensures
        s.with_admin(admin).init_error() == Some(CrossAssetPaymentError::AlreadyInitialized),
        s.with_admin(admin).with_payment(
            from,
            amount,
            asset,
            receiver_id,
            target_asset,
            anchor_id,
            ledger,
        ).init_error() == Some(CrossAssetPaymentError::AlreadyInitialized),
        s.with_admin(admin).with_status(id, status).init_error() == Some(
            CrossAssetPaymentError::AlreadyInitialized,
        ),
{
}

/// A complete or failed payment stays as it is: every status update of it is
/// refused as an invalid transition, and its escrow can be neither released
/// nor refunded.
pub proof fn law_terminal_status_is_final(
    s: LedgerView,
    id: int,
    symbol: Seq<char>,
    caller: Seq<char>,
)
    requires
        s.payment(id) is Some,
        is_terminal(s.payment(id).unwrap().status),
    ensures
        s.status_update_error(id, symbol) == Some(CrossAssetPaymentError::InvalidStatusTransition),
        s.settlement_error(caller, id) is Some,
{
}

/// The escrow of a payment is settled at most once: after it was released
/// (the payment completed) or refunded (the payment failed), every further
/// release or refund is refused, for the admin with `PaymentNotPending`.
pub proof fn law_escrow_settled_once(
    s: LedgerView,
    admin: Seq<char>,
    id: int,
    outcome: PaymentStatus,
    caller: Seq<char>,
)
    requires
        s.settlement_error(admin, id) is None,
        is_terminal(outcome),
    ensures
        s.with_status(id, outcome).settlement_error(admin, id) == Some(
            CrossAssetPaymentError::PaymentNotPending,
        ),
        s.with_status(id, outcome).settlement_error(caller, id) is Some,
{
}

/// A status update moves a payment strictly forward in its life cycle
/// (pending, then processing, then complete or failed), and changes neither
/// its other fields nor any other payment.
pub proof fn law_status_moves_forward(s: LedgerView, id: int, symbol: Seq<char>)
    requires
        s.status_update_error(id, symbol) is None,
    ensures
        ({
            let next = status_from_symbol(symbol).unwrap();
            let t = s.with_status(id, next);
            &&& progress_rank(t.payment(id).unwrap().status) > progress_rank(
                s.payment(id).unwrap().status,
            )
            &&& t.payment(id) == Some(s.payment(id).unwrap().with_status(next))
            &&& t.payment_count() == s.payment_count()
            &&& forall|other: int| other != id ==> #[trigger] t.payment(other) == s.payment(other)
        }),
{
    let t = s.with_status(id, status_from_symbol(symbol).unwrap());
    assert forall|other: int| other != id implies #[trigger] t.payment(other) == s.payment(other) by {
        if 1 <= other <= s.payment_count() {
            assert(t.payments[other - 1] == s.payments[other - 1]);
        }
    }
}

/// Every stored payment has a positive amount and non-empty routing fields:
/// accepting a payment and changing a status both keep this so.
pub proof fn law_payments_stay_well_formed(
    s: LedgerView,
    from: Seq<char>,
    amount: i128,
    asset: Seq<char>,
    receiver_id: Seq<char>,
    target_asset: Seq<char>,
    anchor_id: Seq<char>,
    ledger: u32,
    id: int,
    status: PaymentStatus,
)
    requires
        s.payments_well_formed(),
    ensures
        s.initiate_error(from, amount, receiver_id, target_asset, anchor_id, ledger) is None
            ==> s.with_payment(
            from,
            amount,
            asset,
            receiver_id,
            target_asset,
            anchor_id,
            ledger,
        ).payments_well_formed(),
        1 <= id <= s.payment_count() ==> s.with_status(id, status).payments_well_formed(),
{
    if s.initiate_error(from, amount, receiver_id, target_asset, anchor_id, ledger) is None {
        let t = s.with_payment(from, amount, asset, receiver_id, target_asset, anchor_id, ledger);
        assert forall|i: int| 0 <= i < t.payments.len() implies #[trigger] t.payments[i].amount > 0
            && t.payments[i].receiver_id.len() > 0 && t.payments[i].target_asset.len() > 0
            && t.payments[i].anchor_id.len() > 0 by {
            if i < s.payments.len() {
                assert(t.payments[i] == s.payments[i]);
            }
        }
    }
    if 1 <= id <= s.payment_count() {
        let t = s.with_status(id, status);
        assert forall|i: int| 0 <= i < t.payments.len() implies #[trigger] t.payments[i].amount > 0
            && t.payments[i].receiver_id.len() > 0 && t.payments[i].target_asset.len() > 0
            && t.payments[i].anchor_id.len() > 0 by {
            assert(s.payments[i].amount > 0);
        }
    }
}

} // verus!
