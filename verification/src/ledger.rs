//! The payment contract as a whole: its admin, its payments, the last ledger
//! of each sender, and the entry points that change them.

use vstd::prelude::*;

use crate::error::CrossAssetPaymentError;
use crate::record::{PaymentRecord, PaymentView, TokenTransfer, TransferView};
use crate::rules;
use crate::rules::{payment_request_error, pending_payment, record_view};
use crate::sender_ledgers::SenderLedgers;
use crate::status::{PaymentStatus, status_from_symbol};

verus! {

/// The mathematical state of the payment contract.
pub struct LedgerView {
    /// The address of the contract, which holds the escrowed funds.
    pub contract: Seq<char>,
    /// The admin, once the contract is initialized.
    pub admin: Option<Seq<char>>,
    /// The payments in the order they were made; payment `id` is at `id - 1`.
    pub payments: Seq<PaymentView>,
    /// For each sender that paid, the ledger of its last payment.
    pub last_ledgers: Map<Seq<char>, u32>,
}

impl LedgerView {
    /// A contract that nobody has used yet.
    pub open spec fn fresh(contract: Seq<char>) -> LedgerView {
        LedgerView {
            contract,
            admin: None,
            payments: Seq::empty(),
            last_ledgers: Map::empty(),
        }
    }

    /// How many payments were made.
    pub open spec fn payment_count(self) -> nat {
        self.payments.len()
    }

    /// The payment with id `id`; ids run from 1 to the payment count.
    pub open spec fn payment(self, id: int) -> Option<PaymentView> {
        if 1 <= id <= self.payments.len() {
            Some(self.payments[id - 1])
        } else {
            None
        }
    }

    /// The ledger of the last payment of `sender`, or 0 if it never paid.
    pub open spec fn last_payment_ledger(self, sender: Seq<char>) -> u32 {
        if self.last_ledgers.contains_key(sender) {
            self.last_ledgers[sender]
        } else {
            0
        }
    }

    /// Why `init` is refused: the contract has an admin already.
    pub open spec fn init_error(self) -> Option<CrossAssetPaymentError> {
        if self.admin is Some {
            Some(CrossAssetPaymentError::AlreadyInitialized)
        } else {
            None
        }
    }

    /// The state after `init` has set `admin`.
    pub open spec fn with_admin(self, admin: Seq<char>) -> LedgerView {
        LedgerView { admin: Some(admin), ..self }
    }

    /// Why a new payment from `from` at `ledger` is refused.
    pub open spec fn initiate_error(
        self,
        from: Seq<char>,
        amount: i128,
        receiver_id: Seq<char>,
        target_asset: Seq<char>,
        anchor_id: Seq<char>,
        ledger: u32,
    ) -> Option<CrossAssetPaymentError> {
        payment_request_error(
            amount,
            receiver_id,
            target_asset,
            anchor_id,
            self.last_payment_ledger(from),
            ledger,
        )
    }

    /// The state after a new payment was accepted: it is appended as pending,
    /// and `ledger` becomes the last ledger of its sender.
    pub open spec fn with_payment(
        self,
        from: Seq<char>,
        amount: i128,
        asset: Seq<char>,
        receiver_id: Seq<char>,
        target_asset: Seq<char>,
        anchor_id: Seq<char>,
        ledger: u32,
    ) -> LedgerView {
        LedgerView {
            payments: self.payments.push(
                pending_payment(from, amount, asset, receiver_id, target_asset, anchor_id),
            ),
            last_ledgers: self.last_ledgers.insert(from, ledger),
            ..self
        }
    }

    /// Why moving payment `id` to the status named `symbol` is refused.
    pub open spec fn status_update_error(self, id: int, symbol: Seq<char>) -> Option<
        CrossAssetPaymentError,
    > {
        rules::status_update_error(self.payment(id), symbol)
    }

    /// The state after payment `id` took `status`.
    pub open spec fn with_status(self, id: int, status: PaymentStatus) -> LedgerView {
        LedgerView {
            payments: self.payments.update(id - 1, self.payments[id - 1].with_status(status)),
            ..self
        }
    }

    /// Why `caller` may not release or refund the escrow of payment `id`.
    pub open spec fn settlement_error(self, caller: Seq<char>, id: int) -> Option<
        CrossAssetPaymentError,
    > {
        rules::settlement_error(self.admin, caller, self.payment(id))
    }

    /// Every stored payment has a positive amount and non-empty routing.
    pub open spec fn payments_well_formed(self) -> bool {
        forall|i: int|
            0 <= i < self.payments.len() ==> {
                &&& #[trigger] self.payments[i].amount > 0
                &&& self.payments[i].receiver_id.len() > 0
                &&& self.payments[i].target_asset.len() > 0
                &&& self.payments[i].anchor_id.len() > 0
            }
    }
}

/// The state of the payment contract.
pub struct PaymentLedger {
    contract: String,
    admin: Option<String>,
    payments: Vec<PaymentRecord>,
    senders: SenderLedgers,
}

impl View for PaymentLedger {
    type V = LedgerView;

    closed spec fn view(&self) -> LedgerView {
        LedgerView {
            contract: self.contract@,
            admin: match self.admin {
                Some(a) => Some(a@),
                None => None,
            },
            payments: self.payments@.map_values(|r: PaymentRecord| r@),
            last_ledgers: self.senders@,
        }
    }
}

impl PaymentLedger {
    /// A contract at address `contract` that nobody has used yet.
    pub fn new(contract: String) -> (ledger: PaymentLedger)
        ensures
            ledger@ == LedgerView::fresh(contract@),
    {
        let ledger = PaymentLedger {
            contract,
            admin: None,
            payments: Vec::new(),
            senders: SenderLedgers::new(),
        };
        assert(ledger@.payments =~= Seq::<PaymentView>::empty());
        ledger
    }

    /// The address of the contract.
    pub fn contract(&self) -> (contract: &String)
        ensures
            contract@ == self@.contract,
    {
        &self.contract
    }

    /// The admin, once the contract is initialized.
    pub fn admin(&self) -> (admin: Option<&String>)
        ensures
            rules::address_view(admin) == self@.admin,
    {
        self.admin.as_ref()
    }

    /// Sets the admin of a contract that has none; refused with
    /// `AlreadyInitialized` otherwise.
    pub fn init(&mut self, admin: String) -> (outcome: Result<(), CrossAssetPaymentError>)
        ensures
            match outcome {
                Ok(()) => {
                    &&& old(self)@.init_error() is None
                    &&& final(self)@ == old(self)@.with_admin(admin@)
                    &&& final(self)@.admin == Some(admin@)
                    &&& final(self)@.payments == old(self)@.payments
                    &&& final(self)@.last_ledgers == old(self)@.last_ledgers
                },
                Err(e) => old(self)@.init_error() == Some(e) && final(self)@ == old(self)@,
            },
    {
        rules::check_init(self.admin.as_ref())?;
        self.admin = Some(admin);
        proof {
            assert(self@.payments =~= old(self)@.payments);
        }
        Ok(())
    }

    /// How many payments were made.
    pub fn get_payment_count(&self) -> (count: u64)
        ensures
            count == self@.payment_count(),
    {
        self.payments.len() as u64
    }

    /// The position in `payments` of payment `payment_id`, if it exists.
    fn position(&self, payment_id: u64) -> (index: Option<usize>)
        ensures
            match index {
                Some(i) => 1 <= payment_id <= self.payments@.len() && i == payment_id - 1,
                None => !(1 <= payment_id <= self.payments@.len()),
            },
    {
        let n = self.payments.len();
        if 1 <= payment_id && payment_id <= n as u64 {
            Some((payment_id - 1) as usize)
        } else {
            None
        }
    }

    /// The payment with id `payment_id`, if it exists.
    pub fn get_payment(&self, payment_id: u64) -> (record: Option<&PaymentRecord>)
        ensures
            record_view(record) == self@.payment(payment_id as int),
    {
        match self.position(payment_id) {
            Some(i) => Some(&self.payments[i]),
            None => None,
        }
    }

    /// The ledger of the last payment of `from`, or 0 if it never paid.
    pub fn get_last_payment_ledger(&self, from: &String) -> (ledger: u32)
        ensures
            ledger == self@.last_payment_ledger(from@),
    {
        match self.senders.get(from) {
            Some(l) => l,
            None => 0,
        }
    }

    /// Accepts a payment of `amount` units of `asset` from `from` at ledger
    /// `current_ledger` (see [`LedgerView::initiate_error`]): the payment gets
    /// the next id and is stored as pending, `current_ledger` becomes the last
    /// ledger of `from`, and the amount is to move from `from` into escrow.
    /// A refused payment leaves the contract as it was. The payment count must
    /// leave room for one more id.
    pub fn initiate_payment(
        &mut self,
        from: String,
        amount: i128,
        asset: String,
        receiver_id: String,
        target_asset: String,
        anchor_id: String,
        current_ledger: u32,
    ) -> (outcome: Result<(u64, TokenTransfer), CrossAssetPaymentError>)
        requires
            old(self)@.payment_count() < u64::MAX,
        ensures
            match outcome {
                Ok((id, transfer)) => {
                    &&& old(self)@.initiate_error(
                        from@,
                        amount,
                        receiver_id@,
                        target_asset@,
                        anchor_id@,
                        current_ledger,
                    ) is None
                    &&& id == old(self)@.payment_count() + 1
                    &&& final(self)@.payment_count() == old(self)@.payment_count() + 1
                    &&& final(self)@.payment(id as int) is Some
                    &&& final(self)@.payment(id as int).unwrap().from == from@
                    &&& final(self)@.payment(id as int).unwrap().amount == amount
                    &&& final(self)@.payment(id as int).unwrap().asset == asset@
                    &&& final(self)@.payment(id as int).unwrap().receiver_id == receiver_id@
                    &&& final(self)@.payment(id as int).unwrap().target_asset == target_asset@
                    &&& final(self)@.payment(id as int).unwrap().anchor_id == anchor_id@
                    &&& final(self)@.payment(id as int).unwrap().status == PaymentStatus::Pending
                    &&& final(self)@.last_payment_ledger(from@) == current_ledger
                    &&& transfer.from@ == from@
                    &&& final(self)@ == old(self)@.with_payment(
                        from@,
                        amount,
                        asset@,
                        receiver_id@,
                        target_asset@,
                        anchor_id@,
                        current_ledger,
                    )
                    &&& transfer@ == (TransferView {
                        asset: asset@,
                        from: from@,
                        to: old(self)@.contract,
                        amount,
                    })
                },
                Err(e) => {
                    &&& old(self)@.initiate_error(
                        from@,
                        amount,
                        receiver_id@,
                        target_asset@,
                        anchor_id@,
                        current_ledger,
                    ) == Some(e)
                    &&& final(self)@ == old(self)@
                },
            },
    {
        let last_ledger = self.get_last_payment_ledger(&from);
        let count = self.get_payment_count();
        let sender = from.clone();
        let started = rules::initiate_payment(
            &self.contract,
            count,
            last_ledger,
            current_ledger,
            from,
            amount,
            asset,
            receiver_id,
            target_asset,
            anchor_id,
        )?;
        let rules::Initiation { payment_id, record, transfer } = started;
        self.payments.push(record);
        self.senders.record(sender, current_ledger);
        proof {
            assert(self@.payments =~= old(self)@.payments.push(record@));
        }
        Ok((payment_id, transfer))
    }

    /// Moves payment `payment_id` to the status named `status` (see
    /// [`LedgerView::status_update_error`]); a refused update changes nothing.
    pub fn update_status(&mut self, payment_id: u64, status: &str) -> (outcome: Result<
        (),
        CrossAssetPaymentError,
    >)
        ensures
            match outcome {
                Ok(()) => {
                    &&& old(self)@.status_update_error(payment_id as int, status@) is None
                    &&& final(self)@.payment(payment_id as int) is Some
                    &&& final(self)@.payment(payment_id as int).unwrap().from == old(self)@.payment(payment_id as int).unwrap().from
                    &&& final(self)@.payment(payment_id as int).unwrap().amount == old(self)@.payment(payment_id as int).unwrap().amount
                    &&& final(self)@.payment(payment_id as int).unwrap().asset == old(self)@.payment(payment_id as int).unwrap().asset
                    &&& final(self)@.payment(payment_id as int).unwrap().receiver_id == old(self)@.payment(payment_id as int).unwrap().receiver_id
                    &&& final(self)@.payment(payment_id as int).unwrap().target_asset == old(self)@.payment(payment_id as int).unwrap().target_asset
                    &&& final(self)@.payment(payment_id as int).unwrap().anchor_id == old(self)@.payment(payment_id as int).unwrap().anchor_id
                    &&& final(self)@.payment(payment_id as int).unwrap().status == status_from_symbol(status@).unwrap()
                    &&& final(self)@.payment_count() == old(self)@.payment_count()
                    &&& final(self)@ == old(self)@.with_status(
                        payment_id as int,
                        status_from_symbol(status@).unwrap(),
                    )
                },
                Err(e) => {
                    &&& old(self)@.status_update_error(payment_id as int, status@) == Some(e)
                    &&& final(self)@ == old(self)@
                },
            },
    {
        let next = rules::update_status(self.get_payment(payment_id), status)?;
        let i = self.position(payment_id).unwrap();
        self.payments[i].status = next;
        proof {
            assert(self@.payments =~= old(self)@.with_status(payment_id as int, next).payments);
        }
        Ok(())
    }

    /// Completes pending payment `payment_id` on behalf of `admin` (see
    /// [`LedgerView::settlement_error`]): the payment becomes complete and its
    /// amount is to move from escrow to `recipient`. A refused request changes
    /// nothing.
    pub fn complete_payment(&mut self, admin: &String, payment_id: u64, recipient: String) -> (outcome:
        Result<TokenTransfer, CrossAssetPaymentError>)
        ensures
            match outcome {
                Ok(transfer) => {
                    let p = old(self)@.payment(payment_id as int).unwrap();
                    &&& old(self)@.settlement_error(admin@, payment_id as int) is None
                    &&& final(self)@.payment(payment_id as int) is Some
                    &&& final(self)@.payment(payment_id as int).unwrap().from == old(self)@.payment(payment_id as int).unwrap().from
                    &&& final(self)@.payment(payment_id as int).unwrap().amount == old(self)@.payment(payment_id as int).unwrap().amount
                    &&& final(self)@.payment(payment_id as int).unwrap().asset == old(self)@.payment(payment_id as int).unwrap().asset
                    &&& final(self)@.payment(payment_id as int).unwrap().receiver_id == old(self)@.payment(payment_id as int).unwrap().receiver_id
                    &&& final(self)@.payment(payment_id as int).unwrap().target_asset == old(self)@.payment(payment_id as int).unwrap().target_asset
                    &&& final(self)@.payment(payment_id as int).unwrap().anchor_id == old(self)@.payment(payment_id as int).unwrap().anchor_id
                    &&& final(self)@.payment(payment_id as int).unwrap().status == PaymentStatus::Complete
                    &&& final(self)@.payment_count() == old(self)@.payment_count()
                    &&& final(self)@ == old(self)@.with_status(
                        payment_id as int,
                        PaymentStatus::Complete,
                    )
                    &&& transfer@ == (TransferView {
                        asset: p.asset,
                        from: old(self)@.contract,
                        to: recipient@,
                        amount: p.amount,
                    })
                },
                Err(e) => {
                    &&& old(self)@.settlement_error(admin@, payment_id as int) == Some(e)
                    &&& final(self)@ == old(self)@
                },
            },
    {
        let transfer = rules::complete_payment(
            &self.contract,
            self.admin.as_ref(),
            admin,
            self.get_payment(payment_id),
            recipient,
        )?;
        let i = self.position(payment_id).unwrap();
        self.payments[i].status = PaymentStatus::Complete;
        proof {
            assert(self@.payments =~= old(self)@.with_status(
                payment_id as int,
                PaymentStatus::Complete,
            ).payments);
        }
        Ok(transfer)
    }

    /// Fails pending payment `payment_id` on behalf of `admin` (see
    /// [`LedgerView::settlement_error`]): the payment becomes failed and its
    /// amount is to go back from escrow to its sender. A refused request
    /// changes nothing.
    pub fn fail_payment(&mut self, admin: &String, payment_id: u64) -> (outcome: Result<
        TokenTransfer,
        CrossAssetPaymentError,
    >)
        ensures
            match outcome {
                Ok(transfer) => {
                    let p = old(self)@.payment(payment_id as int).unwrap();
                    &&& old(self)@.settlement_error(admin@, payment_id as int) is None
                    &&& final(self)@.payment(payment_id as int) is Some
                    &&& final(self)@.payment(payment_id as int).unwrap().from == old(self)@.payment(payment_id as int).unwrap().from
                    &&& final(self)@.payment(payment_id as int).unwrap().amount == old(self)@.payment(payment_id as int).unwrap().amount
                    &&& final(self)@.payment(payment_id as int).unwrap().asset == old(self)@.payment(payment_id as int).unwrap().asset
                    &&& final(self)@.payment(payment_id as int).unwrap().receiver_id == old(self)@.payment(payment_id as int).unwrap().receiver_id
                    &&& final(self)@.payment(payment_id as int).unwrap().target_asset == old(self)@.payment(payment_id as int).unwrap().target_asset
                    &&& final(self)@.payment(payment_id as int).unwrap().anchor_id == old(self)@.payment(payment_id as int).unwrap().anchor_id
                    &&& final(self)@.payment(payment_id as int).unwrap().status == PaymentStatus::Failed
                    &&& final(self)@.payment_count() == old(self)@.payment_count()
                    &&& final(self)@ == old(self)@.with_status(
                        payment_id as int,
                        PaymentStatus::Failed,
                    )
                    &&& transfer@ == (TransferView {
                        asset: p.asset,
                        from: old(self)@.contract,
                        to: p.from,
                        amount: p.amount,
                    })
                },
                Err(e) => {
                    &&& old(self)@.settlement_error(admin@, payment_id as int) == Some(e)
                    &&& final(self)@ == old(self)@
                },
            },
    {
        let transfer = rules::fail_payment(
            &self.contract,
            self.admin.as_ref(),
            admin,
            self.get_payment(payment_id),
        )?;
        let i = self.position(payment_id).unwrap();
        self.payments[i].status = PaymentStatus::Failed;
        proof {
            assert(self@.payments =~= old(self)@.with_status(
                payment_id as int,
                PaymentStatus::Failed,
            ).payments);
        }
        Ok(transfer)
    }
}

} // verus!
