//! Receipts and the vouchers that aggregate them.
use vstd::prelude::*;

use crate::primitives::{Address, Bytes32};

verus! {

/// One payment promise for one query.
#[derive(Debug, Clone)]
pub struct Receipt {
    pub data_service: Address,
    pub service_provider: Address,
    pub timestamp_ns: u64,
    pub nonce: u64,
    /// GRT wei.
    pub value: u128,
    pub metadata: Vec<u8>,
}

/// A receipt with the gateway's signature.
#[derive(Debug, Clone)]
pub struct SignedReceipt {
    pub receipt: Receipt,
    pub signature: String,
}

/// A receipt aggregate voucher: what a payer owes over a whole collection.
#[derive(Debug, Clone)]
pub struct Rav {
    pub collection_id: Bytes32,
    pub payer: Address,
    pub service_provider: Address,
    pub data_service: Address,
    pub timestamp_ns: u64,
    /// GRT wei, over all receipts so far.
    pub value_aggregate: u128,
    pub metadata: Vec<u8>,
}

/// A voucher with the gateway's signature.
#[derive(Debug, Clone)]
pub struct SignedRav {
    pub rav: Rav,
    pub signature: String,
}

/// A receipt that the service has accepted.
#[derive(Debug, Clone)]
pub struct ValidatedReceipt {
    /// The gateway's signing address.
    pub signer: Address,
    /// The consumer whose escrow is charged.
    pub payer: Address,
    pub receipt: Receipt,
    pub signature: String,
    /// The RPC method that the receipt paid for.
    pub method: Option<String>,
}

/// What a [`Receipt`] says.
#[verifier::ext_equal]
pub struct ReceiptView {
    pub data_service: Seq<u8>,
    pub service_provider: Seq<u8>,
    pub timestamp_ns: u64,
    pub nonce: u64,
    pub value: u128,
    pub metadata: Seq<u8>,
}

impl View for Receipt {
    type V = ReceiptView;

    open spec fn view(&self) -> ReceiptView {
        ReceiptView {
            data_service: self.data_service@,
            service_provider: self.service_provider@,
            timestamp_ns: self.timestamp_ns,
            nonce: self.nonce,
            value: self.value,
            metadata: self.metadata@,
        }
    }
}

/// What a [`SignedReceipt`] says.
#[verifier::ext_equal]
pub struct SignedReceiptView {
    pub receipt: ReceiptView,
    pub signature: Seq<char>,
}

impl View for SignedReceipt {
    type V = SignedReceiptView;

    open spec fn view(&self) -> SignedReceiptView {
        SignedReceiptView { receipt: self.receipt@, signature: self.signature@ }
    }
}

/// What a [`Rav`] says.
#[verifier::ext_equal]
pub struct RavView {
    pub collection_id: Seq<u8>,
    pub payer: Seq<u8>,
    pub service_provider: Seq<u8>,
    pub data_service: Seq<u8>,
    pub timestamp_ns: u64,
    pub value_aggregate: u128,
    pub metadata: Seq<u8>,
}

impl View for Rav {
    type V = RavView;

    open spec fn view(&self) -> RavView {
        RavView {
            collection_id: self.collection_id@,
            payer: self.payer@,
            service_provider: self.service_provider@,
            data_service: self.data_service@,
            timestamp_ns: self.timestamp_ns,
            value_aggregate: self.value_aggregate,
            metadata: self.metadata@,
        }
    }
}

} // verus!
