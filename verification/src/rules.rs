//! The contract's rules, one function per entry point: each takes the part
//! of the stored state that the entry point reads and gives back what it
//! writes, together with the token movement that the host is to carry out.

use vstd::prelude::*;

use crate::error::CrossAssetPaymentError;
use crate::record::{PaymentRecord, PaymentView, TokenTransfer, TransferView};
use crate::status::{PaymentStatus, status_from_symbol, can_transition};

verus! {

/// Whether a payment at `current_ledger` repeats one that the same sender made
/// at `last_ledger` (`0` when the sender never paid). Ledger `0` is the
/// sequence of a fresh ledger and is never taken for a replay.
pub open spec fn is_replay(last_ledger: u32, current_ledger: u32) -> bool {
    current_ledger != 0 && last_ledger == current_ledger
}

/// The reason why a new payment is refused, checked in this order: the amount
/// must be positive, the three routing fields non-empty, and the sender must
/// not have paid in the current ledger already.
pub open spec fn payment_request_error(
    amount: i128,
    receiver_id: Seq<char>,
    target_asset: Seq<char>,
    anchor_id: Seq<char>,
    last_ledger: u32,
    current_ledger: u32,
) -> Option<CrossAssetPaymentError> {
    if amount <= 0 {
        Some(CrossAssetPaymentError::InvalidAmount)
    } else if receiver_id.len() == 0 || target_asset.len() == 0 || anchor_id.len() == 0 {
        Some(CrossAssetPaymentError::EmptyRoutingFields)
    } else if is_replay(last_ledger, current_ledger) {
        Some(CrossAssetPaymentError::LedgerReplayDetected)
    } else {
        None
    }
}

/// The record of a payment that has just been made.
pub open spec fn pending_payment(
    from: Seq<char>,
    amount: i128,
    asset: Seq<char>,
    receiver_id: Seq<char>,
    target_asset: Seq<char>,
    anchor_id: Seq<char>,
) -> PaymentView {
    PaymentView {
        from,
        amount,
        asset,
        receiver_id,
        target_asset,
        anchor_id,
        status: PaymentStatus::Pending,
    }
}

/// The reason why a status update of `record` to the status named `symbol`
/// is refused: the payment must exist, and the symbol must name a status
/// that the status machine allows after the current one.
pub open spec fn status_update_error(record: Option<PaymentView>, symbol: Seq<char>) -> Option<
    CrossAssetPaymentError,
> {
    match record {
        None => Some(CrossAssetPaymentError::PaymentNotFound),
        Some(p) => match status_from_symbol(symbol) {
            Some(next) => if can_transition(p.status, next) {
                None
            } else {
                Some(CrossAssetPaymentError::InvalidStatusTransition)
            },
            None => Some(CrossAssetPaymentError::InvalidStatusTransition),
        },
    }
}

/// The reason why `caller` may not release or refund the escrow of `record`,
/// checked in this order: the contract must have an admin, the caller must be
/// that admin, the payment must exist and it must still be pending.
pub open spec fn settlement_error(
    admin: Option<Seq<char>>,
    caller: Seq<char>,
    record: Option<PaymentView>,
) -> Option<CrossAssetPaymentError> {
    match admin {
        None => Some(CrossAssetPaymentError::NotInitialized),
        Some(a) => if a != caller {
            Some(CrossAssetPaymentError::Unauthorized)
        } else {
            match record {
                None => Some(CrossAssetPaymentError::PaymentNotFound),
                Some(p) => if p.status != PaymentStatus::Pending {
                    Some(CrossAssetPaymentError::PaymentNotPending)
                } else {
                    None
                },
            }
        },
    }
}

/// The value of an optional address.
pub open spec fn address_view(address: Option<&String>) -> Option<Seq<char>> {
    match address {
        Some(a) => Some(a@),
        None => None,
    }
}

/// The value of an optional record.
pub open spec fn record_view(record: Option<&PaymentRecord>) -> Option<PaymentView> {
    match record {
        Some(r) => Some(r@),
        None => None,
    }
}

/// The outcome of an accepted payment: its id, the record to store under that
/// id, and the transfer of the funds into escrow.
pub struct Initiation {
    pub payment_id: u64,
    pub record: PaymentRecord,
    pub transfer: TokenTransfer,
}

/// Checks that a contract whose admin is `admin` may be initialized: it must
/// have no admin yet.
pub fn check_init(admin: Option<&String>) -> (checked: Result<(), CrossAssetPaymentError>)
    ensures
        checked == (if admin is Some {
            Err::<(), CrossAssetPaymentError>(CrossAssetPaymentError::AlreadyInitialized)
        } else {
            Ok(())
        }),
{
    match admin {
        Some(_) => Err(CrossAssetPaymentError::AlreadyInitialized),
        None => Ok(()),
    }
}

/// Checks a new payment of `amount` (see [`payment_request_error`]).
pub fn check_payment_request(
    amount: i128,
    receiver_id: &String,
    target_asset: &String,
    anchor_id: &String,
    last_ledger: u32,
    current_ledger: u32,
) -> (checked: Result<(), CrossAssetPaymentError>)
    ensures
        match checked {
            Ok(()) => payment_request_error(
                amount,
                receiver_id@,
                target_asset@,
                anchor_id@,
                last_ledger,
                current_ledger,
            ) is None,
            Err(e) => payment_request_error(
                amount,
                receiver_id@,
                target_asset@,
                anchor_id@,
                last_ledger,
                current_ledger,
            ) == Some(e),
        },
{
    if amount <= 0 {
        return Err(CrossAssetPaymentError::InvalidAmount);
    }
    if receiver_id.as_str().is_empty() || target_asset.as_str().is_empty()
        || anchor_id.as_str().is_empty() {
        return Err(CrossAssetPaymentError::EmptyRoutingFields);
    }
    if current_ledger != 0 && last_ledger == current_ledger {
        return Err(CrossAssetPaymentError::LedgerReplayDetected);
    }
    Ok(())
}

/// Accepts a new payment from `from` when [`payment_request_error`] finds
/// nothing against it. `payment_count` is the number of payments made so
/// far, `last_ledger` the ledger of the sender's previous payment (`0` when
/// none) and `contract` the address of the escrow. The new payment gets the
/// next id, is pending, and its amount moves from the sender into escrow.
pub fn initiate_payment(
    contract: &String,
    payment_count: u64,
    last_ledger: u32,
    current_ledger: u32,
    from: String,
    amount: i128,
    asset: String,
    receiver_id: String,
    target_asset: String,
    anchor_id: String,
) -> (outcome: Result<Initiation, CrossAssetPaymentError>)
    requires
        payment_count < u64::MAX,
    ensures
        match outcome {
            Ok(started) => {
                &&& payment_request_error(
                    amount,
                    receiver_id@,
                    target_asset@,
                    anchor_id@,
                    last_ledger,
                    current_ledger,
                ) is None
                &&& started.payment_id == payment_count + 1
                &&& started.record.from@ == from@
                &&& started.record.amount == amount
                &&& started.record.asset@ == asset@
                &&& started.record.receiver_id@ == receiver_id@
                &&& started.record.target_asset@ == target_asset@
                &&& started.record.anchor_id@ == anchor_id@
                &&& started.record.status == PaymentStatus::Pending
                &&& started.transfer.from@ == from@
                &&& started.transfer.to@ == contract@
                &&& started.transfer.amount == amount
                &&& started.record@ == pending_payment(
                    from@,
                    amount,
                    asset@,
                    receiver_id@,
                    target_asset@,
                    anchor_id@,
                )
                &&& started.transfer@ == (TransferView {
                    asset: asset@,
                    from: from@,
                    to: contract@,
                    amount,
                })
            },
            Err(e) => payment_request_error(
                amount,
                receiver_id@,
                target_asset@,
                anchor_id@,
                last_ledger,
                current_ledger,
            ) == Some(e),
        },
{
    check_payment_request(
        amount,
        &receiver_id,
        &target_asset,
        &anchor_id,
        last_ledger,
        current_ledger,
    )?;
    let transfer = TokenTransfer {
        asset: asset.clone(),
        from: from.clone(),
        to: contract.clone(),
        amount,
    };
    let record = PaymentRecord {
        from,
        amount,
        asset,
        receiver_id,
        target_asset,
        anchor_id,
        status: PaymentStatus::Pending,
    };
    Ok(Initiation { payment_id: payment_count + 1, record, transfer })
}

/// The status that `record` takes when asked to move to the status named
/// `symbol` (see [`status_update_error`]).
pub fn update_status(record: Option<&PaymentRecord>, symbol: &str) -> (next: Result<
    PaymentStatus,
    CrossAssetPaymentError,
>)
    ensures
        match next {
            Ok(s) => status_update_error(record_view(record), symbol@) is None
                && status_from_symbol(symbol@) == Some(s),
            Err(e) => status_update_error(record_view(record), symbol@) == Some(e),
        },
{
    let current = match record {
        Some(r) => r.status,
        None => {
            return Err(CrossAssetPaymentError::PaymentNotFound);
        },
    };
    match PaymentStatus::from_symbol(symbol) {
        Some(next) => if current.can_transition_to(next) {
            Ok(next)
        } else {
            Err(CrossAssetPaymentError::InvalidStatusTransition)
        },
        None => Err(CrossAssetPaymentError::InvalidStatusTransition),
    }
}

/// Checks that `caller` may settle the escrow of `record` (see
/// [`settlement_error`]).
pub fn check_settlement(
    admin: Option<&String>,
    caller: &String,
    record: Option<&PaymentRecord>,
) -> (checked: Result<(), CrossAssetPaymentError>)
    ensures
        match checked {
            Ok(()) => settlement_error(address_view(admin), caller@, record_view(record)) is None,
            Err(e) => settlement_error(address_view(admin), caller@, record_view(record)) == Some(
                e,
            ),
        },
{
    match admin {
        None => Err(CrossAssetPaymentError::NotInitialized),
        Some(a) => if *a != *caller {
            Err(CrossAssetPaymentError::Unauthorized)
        } else {
            match record {
                None => Err(CrossAssetPaymentError::PaymentNotFound),
                Some(r) => if r.status != PaymentStatus::Pending {
                    Err(CrossAssetPaymentError::PaymentNotPending)
                } else {
                    Ok(())
                },
            }
        },
    }
}

/// Completes a pending payment: when [`settlement_error`] finds nothing
/// against it, the escrowed amount goes from the contract to `recipient` and
/// the payment becomes complete.
pub fn complete_payment(
    contract: &String,
    admin: Option<&String>,
    caller: &String,
    record: Option<&PaymentRecord>,
    recipient: String,
) -> (release: Result<TokenTransfer, CrossAssetPaymentError>)
    ensures
        match release {
            Ok(t) => {
                &&& settlement_error(address_view(admin), caller@, record_view(record)) is None
                &&& t@ == (TransferView {
                    asset: record.unwrap().asset@,
                    from: contract@,
                    to: recipient@,
                    amount: record.unwrap().amount,
                })
            },
            Err(e) => settlement_error(address_view(admin), caller@, record_view(record)) == Some(
                e,
            ),
        },
{
    check_settlement(admin, caller, record)?;
    let r = record.unwrap();
    Ok(TokenTransfer { asset: r.asset.clone(), from: contract.clone(), to: recipient, amount: r.amount })
}

/// Fails a pending payment: when [`settlement_error`] finds nothing against
/// it, the escrowed amount goes back from the contract to the sender and the
/// payment becomes failed.
pub fn fail_payment(
    contract: &String,
    admin: Option<&String>,
    caller: &String,
    record: Option<&PaymentRecord>,
) -> (refund: Result<TokenTransfer, CrossAssetPaymentError>)
    ensures
        match refund {
            Ok(t) => {
                &&& settlement_error(address_view(admin), caller@, record_view(record)) is None
                &&& t@ == (TransferView {
                    asset: record.unwrap().asset@,
                    from: contract@,
                    to: record.unwrap().from@,
                    amount: record.unwrap().amount,
                })
            },
            Err(e) => settlement_error(address_view(admin), caller@, record_view(record)) == Some(
                e,
            ),
        },
{
    check_settlement(admin, caller, record)?;
    let r = record.unwrap();
    Ok(TokenTransfer { asset: r.asset.clone(), from: contract.clone(), to: r.from.clone(), amount: r.amount })
}

} // verus!
