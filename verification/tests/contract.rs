use std::collections::HashMap;

use cross_asset_payment::error::CrossAssetPaymentError;
use cross_asset_payment::ledger::PaymentLedger;
use cross_asset_payment::record::TokenTransfer;
use cross_asset_payment::status::PaymentStatus;

const CONTRACT: &str = "CCROSSASSETPAYMENT";
const ADMIN: &str = "GADMIN";
const TOKEN: &str = "CTOKEN";

/// Token balances per (asset, holder), standing in for the token contracts
/// that carry out the transfers the ledger asks for.
struct Tokens {
    balances: HashMap<(String, String), i128>,
}

impl Tokens {
    fn new() -> Tokens {
        Tokens { balances: HashMap::new() }
    }

    fn mint(&mut self, asset: &str, to: &str, amount: i128) {
        *self.balances.entry((asset.to_string(), to.to_string())).or_insert(0) += amount;
    }

    fn balance(&self, asset: &str, holder: &str) -> i128 {
        *self.balances.get(&(asset.to_string(), holder.to_string())).unwrap_or(&0)
    }

    fn apply(&mut self, t: &TokenTransfer) {
        let from = self.balance(&t.asset, &t.from);
        assert!(from >= t.amount, "balance is not sufficient to spend");
        self.balances.insert((t.asset.clone(), t.from.clone()), from - t.amount);
        self.mint(&t.asset, &t.to, t.amount);
    }
}

fn s(text: &str) -> String {
    text.to_string()
}

fn setup() -> (PaymentLedger, Tokens) {
    let mut ledger = PaymentLedger::new(s(CONTRACT));
    ledger.init(s(ADMIN)).unwrap();
    (ledger, Tokens::new())
}

#[allow(clippy::too_many_arguments)]
fn pay(
    ledger: &mut PaymentLedger,
    tokens: &mut Tokens,
    from: &str,
    amount: i128,
    asset: &str,
    receiver_id: &str,
    target_asset: &str,
    anchor_id: &str,
    sequence: u32,
) -> Result<u64, CrossAssetPaymentError> {
    let (id, transfer) = ledger.initiate_payment(
        s(from),
        amount,
        s(asset),
        s(receiver_id),
        s(target_asset),
        s(anchor_id),
        sequence,
    )?;
    tokens.apply(&transfer);
    Ok(id)
}

fn pending_payment(ledger: &mut PaymentLedger, tokens: &mut Tokens, funds: i128) -> u64 {
    tokens.mint(TOKEN, "GFROM", funds);
    pay(ledger, tokens, "GFROM", 500, TOKEN, "rec", "USD", "anc", 0).unwrap()
}

// ── initiate_payment ─────────────────────────────────────────────────────────

#[test]
fn test_initiate_payment_stores_record_and_transfers_funds() {
    let (mut ledger, mut tokens) = setup();
    tokens.mint(TOKEN, "GFROM", 1_000);

    let payment_id = pay(
        &mut ledger,
        &mut tokens,
        "GFROM",
        500,
        TOKEN,
        "worker-123",
        "EUR",
        "anchor-eu",
        0,
    )
    .unwrap();

    assert_eq!(payment_id, 1);
    assert_eq!(tokens.balance(TOKEN, CONTRACT), 500);
    assert_eq!(tokens.balance(TOKEN, "GFROM"), 500);

    let record = ledger.get_payment(payment_id).unwrap();
    assert_eq!(record.from, "GFROM");
    assert_eq!(record.amount, 500);
    assert_eq!(record.status.symbol(), "pending");
    assert_eq!(record.receiver_id, "worker-123");
    assert_eq!(record.target_asset, "EUR");
    assert_eq!(record.anchor_id, "anchor-eu");
}

#[test]
fn test_initiate_payment_counter_increments() {
    let (mut ledger, mut tokens) = setup();
    tokens.mint(TOKEN, "GFROM", 10_000);

    let id1 = pay(&mut ledger, &mut tokens, "GFROM", 100, TOKEN, "r1", "USD", "anc1", 0).unwrap();
    let id2 = pay(&mut ledger, &mut tokens, "GFROM", 200, TOKEN, "r1", "USD", "anc1", 0).unwrap();
    let id3 = pay(&mut ledger, &mut tokens, "GFROM", 300, TOKEN, "r1", "USD", "anc1", 0).unwrap();

    assert_eq!(id1, 1);
    assert_eq!(id2, 2);
    assert_eq!(id3, 3);
}

// ── update_status ────────────────────────────────────────────────────────────

#[test]
fn test_update_status_changes_status_in_persistent_storage() {
    let (mut ledger, mut tokens) = setup();
    tokens.mint(TOKEN, "GFROM", 1_000);
    let payment_id =
        pay(&mut ledger, &mut tokens, "GFROM", 500, TOKEN, "rec-1", "USD", "anc-1", 0).unwrap();

    assert_eq!(ledger.get_payment(payment_id).unwrap().status.symbol(), "pending");

    ledger.update_status(payment_id, "process").unwrap();

    assert_eq!(ledger.get_payment(payment_id).unwrap().status.symbol(), "process");
}

#[test]
fn test_update_status_panics_for_unknown_id() {
    let (mut ledger, _tokens) = setup();
    let result = ledger.update_status(999, "process");
    assert_eq!(result, Err(CrossAssetPaymentError::PaymentNotFound));
}

// ── get_payment ──────────────────────────────────────────────────────────────

#[test]
fn test_get_payment_returns_none_for_unknown_id() {
    let (ledger, _tokens) = setup();
    assert!(ledger.get_payment(42).is_none());
}

// ── init ─────────────────────────────────────────────────────────────────────

#[test]
fn test_init_twice() {
    let (mut ledger, _tokens) = setup();
    let result = ledger.init(s(ADMIN));
    assert_eq!(result, Err(CrossAssetPaymentError::AlreadyInitialized));
}

// ── ledger sequence checks ───────────────────────────────────────────────────

#[test]
fn test_initiate_payment_replay_same_ledger() {
    let (mut ledger, mut tokens) = setup();
    tokens.mint(TOKEN, "GFROM", 2000);

    pay(&mut ledger, &mut tokens, "GFROM", 500, TOKEN, "rec-1", "USD", "anc-1", 75).unwrap();

    let result = pay(&mut ledger, &mut tokens, "GFROM", 300, TOKEN, "rec-2", "EUR", "anc-2", 75);
    assert_eq!(result, Err(CrossAssetPaymentError::LedgerReplayDetected));
}

#[test]
fn test_initiate_payment_allowed_different_ledgers() {
    let (mut ledger, mut tokens) = setup();
    tokens.mint(TOKEN, "GFROM", 2000);

    pay(&mut ledger, &mut tokens, "GFROM", 500, TOKEN, "rec-1", "USD", "anc-1", 75).unwrap();
    assert_eq!(ledger.get_last_payment_ledger(&s("GFROM")), 75);

    pay(&mut ledger, &mut tokens, "GFROM", 300, TOKEN, "rec-2", "EUR", "anc-2", 76).unwrap();
    assert_eq!(ledger.get_last_payment_ledger(&s("GFROM")), 76);
    assert_eq!(ledger.get_payment_count(), 2);
}

#[test]
fn test_initiate_payment_different_senders_same_ledger() {
    let (mut ledger, mut tokens) = setup();
    tokens.mint(TOKEN, "GFROM1", 2000);
    tokens.mint(TOKEN, "GFROM2", 2000);

    pay(&mut ledger, &mut tokens, "GFROM1", 500, TOKEN, "rec-1", "USD", "anc-1", 75).unwrap();
    pay(&mut ledger, &mut tokens, "GFROM2", 300, TOKEN, "rec-2", "EUR", "anc-2", 75).unwrap();

    assert_eq!(ledger.get_payment_count(), 2);
}

// ── escrow ───────────────────────────────────────────────────────────────────

#[test]
fn test_init_twice_panics() {
    let mut ledger = PaymentLedger::new(s(CONTRACT));
    ledger.init(s(ADMIN)).unwrap();
    let result = ledger.init(s(ADMIN));
    assert_eq!(result, Err(CrossAssetPaymentError::AlreadyInitialized));
}

#[test]
fn test_payment_count_starts_at_zero() {
    let (ledger, _tokens) = setup();
    assert_eq!(ledger.get_payment_count(), 0);
}

#[test]
fn test_payment_count_increments() {
    let (mut ledger, mut tokens) = setup();
    tokens.mint(TOKEN, "GFROM", 5000);

    let id1 = pay(&mut ledger, &mut tokens, "GFROM", 100, TOKEN, "rec-1", "USD", "anc-1", 10).unwrap();
    let id2 = pay(&mut ledger, &mut tokens, "GFROM", 200, TOKEN, "rec-2", "EUR", "anc-2", 11).unwrap();

    assert_eq!(id1, 1);
    assert_eq!(id2, 2);
    assert_eq!(ledger.get_payment_count(), 2);
}

#[test]
fn test_escrow_holds_funds() {
    let (mut ledger, mut tokens) = setup();
    tokens.mint(TOKEN, "GFROM", 1000);

    pay(&mut ledger, &mut tokens, "GFROM", 600, TOKEN, "rec", "USD", "anc", 0).unwrap();

    assert_eq!(tokens.balance(TOKEN, CONTRACT), 600);
    assert_eq!(tokens.balance(TOKEN, "GFROM"), 400);
}

#[test]
fn test_update_status_transitions() {
    let (mut ledger, mut tokens) = setup();
    tokens.mint(TOKEN, "GFROM", 1000);
    let payment_id = pay(&mut ledger, &mut tokens, "GFROM", 500, TOKEN, "rec", "USD", "anc", 0).unwrap();

    ledger.update_status(payment_id, "process").unwrap();
    assert_eq!(ledger.get_payment(payment_id).unwrap().status.symbol(), "process");

    ledger.update_status(payment_id, "complete").unwrap();
    assert_eq!(ledger.get_payment(payment_id).unwrap().status.symbol(), "complete");
}

#[test]
fn test_get_nonexistent_payment_returns_none() {
    let (ledger, _tokens) = setup();
    assert!(ledger.get_payment(999).is_none());
}

#[test]
fn test_payment_record_correctness() {
    let (mut ledger, mut tokens) = setup();
    tokens.mint(TOKEN, "GFROM", 1000);

    let payment_id = pay(
        &mut ledger,
        &mut tokens,
        "GFROM",
        750,
        TOKEN,
        "worker-456",
        "GBP",
        "anchor-uk",
        0,
    )
    .unwrap();

    let record = ledger.get_payment(payment_id).unwrap();
    assert_eq!(record.from, "GFROM");
    assert_eq!(record.amount, 750);
    assert_eq!(record.asset, TOKEN);
    assert_eq!(record.receiver_id, "worker-456");
    assert_eq!(record.target_asset, "GBP");
    assert_eq!(record.anchor_id, "anchor-uk");
    assert_eq!(record.status.symbol(), "pending");
}

// ── status machine ───────────────────────────────────────────────────────────

#[test]
fn test_cannot_transition_from_complete() {
    let (mut ledger, mut tokens) = setup();
    let payment_id = pending_payment(&mut ledger, &mut tokens, 1000);

    ledger.update_status(payment_id, "complete").unwrap();

    let result = ledger.update_status(payment_id, "pending");
    assert_eq!(result, Err(CrossAssetPaymentError::InvalidStatusTransition));
}

#[test]
fn test_cannot_transition_from_failed() {
    let (mut ledger, mut tokens) = setup();
    let payment_id = pending_payment(&mut ledger, &mut tokens, 1000);

    ledger.update_status(payment_id, "failed").unwrap();

    let result = ledger.update_status(payment_id, "complete");
    assert_eq!(result, Err(CrossAssetPaymentError::InvalidStatusTransition));
}

#[test]
fn test_cannot_transition_from_processing_to_pending() {
    let (mut ledger, mut tokens) = setup();
    let payment_id = pending_payment(&mut ledger, &mut tokens, 1000);

    ledger.update_status(payment_id, "process").unwrap();

    let result = ledger.update_status(payment_id, "pending");
    assert_eq!(result, Err(CrossAssetPaymentError::InvalidStatusTransition));
}

#[test]
fn test_pending_to_processing_valid() {
    let (mut ledger, mut tokens) = setup();
    let payment_id = pending_payment(&mut ledger, &mut tokens, 1000);

    ledger.update_status(payment_id, "process").unwrap();
    assert_eq!(ledger.get_payment(payment_id).unwrap().status.symbol(), "process");
}

// ── invalid input ────────────────────────────────────────────────────────────

#[test]
fn test_initiate_payment_rejects_zero_amount() {
    let (mut ledger, mut tokens) = setup();
    tokens.mint(TOKEN, "GFROM", 1000);
    let result = pay(&mut ledger, &mut tokens, "GFROM", 0, TOKEN, "rec", "USD", "anc", 0);
    assert_eq!(result, Err(CrossAssetPaymentError::InvalidAmount));
}

#[test]
fn test_initiate_payment_rejects_negative_amount() {
    let (mut ledger, mut tokens) = setup();
    tokens.mint(TOKEN, "GFROM", 1000);
    let result = pay(&mut ledger, &mut tokens, "GFROM", -100, TOKEN, "rec", "USD", "anc", 0);
    assert_eq!(result, Err(CrossAssetPaymentError::InvalidAmount));
}

#[test]
fn test_initiate_payment_rejects_empty_routing() {
    let (mut ledger, mut tokens) = setup();
    tokens.mint(TOKEN, "GFROM", 1000);
    let result = pay(&mut ledger, &mut tokens, "GFROM", 100, TOKEN, "", "USD", "anc", 0);
    assert_eq!(result, Err(CrossAssetPaymentError::EmptyRoutingFields));
}

// ── complete / fail only while pending ───────────────────────────────────────

#[test]
fn test_complete_payment_rejects_non_pending() {
    let (mut ledger, mut tokens) = setup();
    let payment_id = pending_payment(&mut ledger, &mut tokens, 2000);

    let release = ledger.complete_payment(&s(ADMIN), payment_id, s("GRECIPIENT")).unwrap();
    tokens.apply(&release);

    let result = ledger.complete_payment(&s(ADMIN), payment_id, s("GRECIPIENT"));
    assert_eq!(result.err(), Some(CrossAssetPaymentError::PaymentNotPending));
}

#[test]
fn test_fail_payment_rejects_non_pending() {
    let (mut ledger, mut tokens) = setup();
    let payment_id = pending_payment(&mut ledger, &mut tokens, 2000);

    let refund = ledger.fail_payment(&s(ADMIN), payment_id).unwrap();
    tokens.apply(&refund);

    let result = ledger.fail_payment(&s(ADMIN), payment_id);
    assert_eq!(result.err(), Some(CrossAssetPaymentError::PaymentNotPending));
}

// ── events ───────────────────────────────────────────────────────────────────

#[test]
fn test_payment_initiated_event_emitted() {
    let (mut ledger, mut tokens) = setup();
    let payment_id = pending_payment(&mut ledger, &mut tokens, 1000);
    assert_eq!(payment_id, 1);
}

#[test]
fn test_escrow_released_event_emitted() {
    let (mut ledger, mut tokens) = setup();
    let payment_id = pending_payment(&mut ledger, &mut tokens, 1000);

    let release = ledger.complete_payment(&s(ADMIN), payment_id, s("GRECIPIENT")).unwrap();
    tokens.apply(&release);

    let record = ledger.get_payment(payment_id).unwrap();
    assert_eq!(record.status, PaymentStatus::Complete);
    assert_eq!(record.status.symbol(), "complete");
}
