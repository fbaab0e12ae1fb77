use vstd::prelude::*;

use crate::status::PaymentStatus;

verus! {

/// A payment as the contract stores it. Accounts and token contracts are
/// given by their address text.
pub struct PaymentRecord {
    /// The account that paid the funds into escrow.
    pub from: String,
    /// The escrowed amount, in units of `asset`.
    pub amount: i128,
    /// The token contract of the escrowed funds.
    pub asset: String,
    /// Who the payment is for, as the anchor knows them.
    pub receiver_id: String,
    /// The asset that the receiver is to be paid in.
    pub target_asset: String,
    /// The anchor that routes the payment.
    pub anchor_id: String,
    /// Where the payment stands.
    pub status: PaymentStatus,
}

/// The mathematical value of a [`PaymentRecord`].
pub struct PaymentView {
    pub from: Seq<char>,
    pub amount: i128,
    pub asset: Seq<char>,
    pub receiver_id: Seq<char>,
    pub target_asset: Seq<char>,
    pub anchor_id: Seq<char>,
    pub status: PaymentStatus,
}

impl View for PaymentRecord {
    type V = PaymentView;

    open spec fn view(&self) -> PaymentView {
        PaymentView {
            from: self.from@,
            amount: self.amount,
            asset: self.asset@,
            receiver_id: self.receiver_id@,
            target_asset: self.target_asset@,
            anchor_id: self.anchor_id@,
            status: self.status,
        }
    }
}

impl PaymentView {
    /// The same payment with another status.
    pub open spec fn with_status(self, status: PaymentStatus) -> PaymentView {
        PaymentView { status, ..self }
    }
}

/// A movement of tokens that the contract asks its host to carry out.
pub struct TokenTransfer {
    /// The token contract whose tokens move.
    pub asset: String,
    /// The account that gives the tokens.
    pub from: String,
    /// The account that receives them.
    pub to: String,
    /// How many units move.
    pub amount: i128,
}

/// The mathematical value of a [`TokenTransfer`].
pub struct TransferView {
    pub asset: Seq<char>,
    pub from: Seq<char>,
    pub to: Seq<char>,
    pub amount: i128,
}

impl View for TokenTransfer {
    type V = TransferView;

    open spec fn view(&self) -> TransferView {
        TransferView { asset: self.asset@, from: self.from@, to: self.to@, amount: self.amount }
    }
}

} // verus!
