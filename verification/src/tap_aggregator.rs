//! The service's side of aggregation, which runs on a configurable interval.
//!
//! For each payer with stored receipts it rebuilds the receipts, posts them to the gateway
//! on top of a floor, stores the voucher that comes back and deletes the receipts that the
//! voucher covers. The floor is the larger of the stored voucher's value and the tokens
//! collected on-chain, so that vouchers keep growing even after the database is reset.
use vstd::prelude::*;

use crate::aggregate::AggregateRequest;
use crate::decimal;
use crate::primitives;
use crate::primitives::{Address, Bytes32};
use crate::receipts;
use crate::receipts::{BindView, RavRow, RawReceipt, Statement};
use crate::tap::{Receipt, ReceiptView, SignedRav, SignedReceipt, SignedReceiptView};
use crate::text;

verus! {

/// How long an HTTP request may take.
pub const REQUEST_TIMEOUT_SECS: u64 = 30;

/// What the service's configuration says of aggregation.
#[derive(Debug, Clone)]
pub struct AggregatorSettings {
    /// Base URL of the gateway that aggregates; none disables aggregation.
    pub aggregator_url: Option<String>,
    /// Read-only Arbitrum endpoint.
    pub escrow_check_rpc_url: Option<String>,
    /// Arbitrum endpoint of the collector, where one is configured.
    pub collector_rpc_url: Option<String>,
    /// GraphTallyCollector contract.
    pub eip712_verifying_contract: Address,
    pub aggregation_interval_secs: u64,
    pub service_provider_address: Address,
    pub data_service_address: Address,
}

/// How the aggregation loop runs.
#[derive(Debug, Clone)]
pub struct AggregatorPlan {
    /// Where batches are posted.
    pub endpoint: String,
    /// Where the on-chain floor is asked for. Without it, growing vouchers depend on the
    /// local database alone.
    pub rpc_url: Option<String>,
    pub tally_collector: Address,
    pub interval_secs: u64,
    pub service_provider: Address,
    pub data_service: Address,
}

/// Plans the aggregation loop, or none where no gateway is configured. The read-only
/// endpoint is preferred over the collector's.
pub fn plan(settings: &AggregatorSettings) -> (r: Option<AggregatorPlan>)
    ensures
        r is Some <==> settings.aggregator_url is Some,
        r is Some ==> {
            &&& r->0.endpoint@ == settings.aggregator_url->0@ + "/rav/aggregate"@
            &&& r->0.rpc_url == match settings.escrow_check_rpc_url {
                Some(url) => Some(url),
                None => settings.collector_rpc_url,
            }
            &&& r->0.tally_collector == settings.eip712_verifying_contract
            &&& r->0.interval_secs == settings.aggregation_interval_secs
            &&& r->0.service_provider == settings.service_provider_address
            &&& r->0.data_service == settings.data_service_address
        },
{
    let url = match &settings.aggregator_url {
        Some(url) => url,
        None => {
            return None;
        },
    };
    let rpc_url = match &settings.escrow_check_rpc_url {
        Some(url) => Some(url.clone()),
        None => match &settings.collector_rpc_url {
            Some(url) => Some(url.clone()),
            None => None,
        },
    };
    Some(
        AggregatorPlan {
            endpoint: text::join(url.as_str(), "/rav/aggregate"),
            rpc_url,
            tally_collector: settings.eip712_verifying_contract,
            interval_secs: settings.aggregation_interval_secs,
            service_provider: settings.service_provider_address,
            data_service: settings.data_service_address,
        },
    )
}

/// One aggregation cycle: the payers of the cycle, and how many of them have been taken up.
#[derive(Debug, Clone)]
pub struct Cycle {
    payers: Vec<String>,
    taken: usize,
}

impl Cycle {
    pub closed spec fn payers(self) -> Seq<String> {
        self.payers@
    }

    pub closed spec fn taken(self) -> nat {
        self.taken as nat
    }

    /// No more payers have been taken up than there are.
    pub closed spec fn well_formed(self) -> bool {
        self.taken <= self.payers@.len()
    }

    /// No more payers have been taken up than there are.
    pub proof fn lemma_taken(cycle: Cycle)
        requires
            cycle.well_formed(),
        ensures
            cycle.taken() <= cycle.payers().len(),
    {
    }

    /// A cycle over the payers that have receipts.
    pub fn start(payers: Vec<String>) -> (cycle: Cycle)
        ensures
            cycle.well_formed(),
            cycle.payers() == payers@,
            cycle.taken() == 0,
    {
        Cycle { payers, taken: 0 }
    }

    /// Whether there is nothing to aggregate.
    pub fn is_empty(&self) -> (empty: bool)
        ensures
            empty == (self.payers().len() == 0),
    {
        self.payers.len() == 0
    }

    /// The next payer to aggregate for, whatever became of the one before.
    pub fn next_payer(&mut self) -> (payer: Option<String>)
        requires
            old(self).well_formed(),
        ensures
            final(self).well_formed(),
            final(self).payers() == old(self).payers(),
            old(self).taken() < old(self).payers().len() ==> {
                &&& payer == Some(old(self).payers()[old(self).taken() as int])
                &&& final(self).taken() == old(self).taken() + 1
            },
            old(self).taken() == old(self).payers().len() ==> {
                &&& payer is None
                &&& final(self).taken() == old(self).taken()
            },
    {
        if self.taken < self.payers.len() {
            let payer = self.payers[self.taken].clone();
            self.taken = self.taken + 1;
            Some(payer)
        } else {
            None
        }
    }
}

/// Why aggregation failed for a payer.
#[derive(Debug, Clone)]
pub enum PayerError {
    /// The stored payer is no address.
    InvalidPayer { payer_hex: String },
    /// The gateway did not answer.
    Unreachable { endpoint: String, reason: String },
    /// The gateway answered with anything but success.
    Refused { status: String, text: String },
    /// The gateway's voucher could not be read, or the database failed.
    Failed { reason: String },
}

impl PayerError {
    /// What the error says in words.
    pub open spec fn text(self) -> Seq<char> {
        match self {
            PayerError::InvalidPayer { payer_hex } => "invalid payer address in db: "@ + payer_hex@,
            PayerError::Unreachable { endpoint, reason } => "POST "@ + endpoint@ + " failed: "@
                + reason@,
            PayerError::Refused { status, text } => "aggregator returned "@ + status@ + ": "@
                + text@,
            PayerError::Failed { reason } => reason@,
        }
    }

    /// The error in words.
    pub fn message(&self) -> (s: String)
        ensures
            s@ == self.text(),
    {
        match self {
            PayerError::InvalidPayer { payer_hex } => text::join(
                "invalid payer address in db: ",
                payer_hex.as_str(),
            ),
            PayerError::Unreachable { endpoint, reason } => {
                let mut s = "POST ".to_owned();
                s.append(endpoint.as_str());
                s.append(" failed: ");
                s.append(reason.as_str());
                s
            },
            PayerError::Refused { status, text } => {
                let mut s = "aggregator returned ".to_owned();
                s.append(status.as_str());
                s.append(": ");
                s.append(text.as_str());
                s
            },
            PayerError::Failed { reason } => reason.clone(),
        }
    }
}

/// The receipts of one payer, ready to be sent.
#[derive(Debug, Clone)]
pub struct PayerBatch {
    pub payer: Address,
    pub receipts: Vec<SignedReceipt>,
}

/// The signed receipt that a stored row stands for. A value that is no number counts as zero.
pub open spec fn rebuilt(
    row: RawReceipt,
    service_provider: Seq<u8>,
    data_service: Seq<u8>,
) -> SignedReceiptView {
    SignedReceiptView {
        receipt: ReceiptView {
            data_service,
            service_provider,
            timestamp_ns: row.timestamp_ns as u64,
            nonce: row.nonce as u64,
            value: decimal::parsed_or_zero(row.value@),
            metadata: row.metadata@,
        },
        signature: row.signature@,
    }
}

/// Whether the receipts are those that the rows stand for, in order.
pub open spec fn rebuilds(
    batch: Seq<SignedReceipt>,
    rows: Seq<RawReceipt>,
    service_provider: Seq<u8>,
    data_service: Seq<u8>,
) -> bool {
    &&& batch.len() == rows.len()
    &&& forall|i: int|
        0 <= i < rows.len() ==> (#[trigger] batch[i])@ == rebuilt(
            rows[i],
            service_provider,
            data_service,
        )
}

/// Rebuilds one receipt from its row.
fn rebuild_receipt(
    row: &RawReceipt,
    service_provider: &Address,
    data_service: &Address,
) -> (signed: SignedReceipt)
    ensures
        signed@ == rebuilt(*row, service_provider@, data_service@),
{
    let metadata = row.metadata.clone();
    assert(metadata@ =~= row.metadata@);
    SignedReceipt {
        receipt: Receipt {
            data_service: *data_service,
            service_provider: *service_provider,
            timestamp_ns: row.timestamp_ns as u64,
            nonce: row.nonce as u64,
            value: decimal::parse_or_zero(row.value.as_str()),
            metadata,
        },
        signature: row.signature.clone(),
    }
}

/// Rebuilds the signed receipts of stored rows.
pub fn rebuild_receipts(
    rows: &Vec<RawReceipt>,
    service_provider: &Address,
    data_service: &Address,
) -> (batch: Vec<SignedReceipt>)
    ensures
        rebuilds(batch@, rows@, service_provider@, data_service@),
{
    let mut batch: Vec<SignedReceipt> = Vec::new();
    let mut i: usize = 0;
    while i < rows.len()
        invariant
            i <= rows.len(),
            rebuilds(batch@, rows@.take(i as int), service_provider@, data_service@),
        decreases rows.len() - i,
    {
        batch.push(rebuild_receipt(&rows[i], service_provider, data_service));
        i = i + 1;
    }
    assert(rows@.take(i as int) =~= rows@);
    batch
}

/// The batch to send for a payer: none where there are no rows, and an error where there
/// are some but the stored payer is no address.
pub fn prepare(
    rows: &Vec<RawReceipt>,
    payer_hex: &str,
    service_provider: &Address,
    data_service: &Address,
) -> (r: Result<Option<PayerBatch>, PayerError>)
    ensures
        rows@.len() == 0 ==> r == Ok::<Option<PayerBatch>, PayerError>(None),
        rows@.len() > 0 ==> match primitives::parsed_address(payer_hex@) {
            None => r matches Err(PayerError::InvalidPayer { payer_hex: p }) && p@ == payer_hex@,
            Some(payer) => {
                &&& r matches Ok(Some(batch))
                &&& batch.payer@ == payer
                &&& rebuilds(batch.receipts@, rows@, service_provider@, data_service@)
            },
        },
{
    if rows.len() == 0 {
        return Ok(None);
    }
    let receipts = rebuild_receipts(rows, service_provider, data_service);
    match Address::parse(payer_hex) {
        Some(payer) => Ok(Some(PayerBatch { payer, receipts })),
        None => Err(PayerError::InvalidPayer { payer_hex: payer_hex.to_owned() }),
    }
}

/// The key under which a collection's voucher is stored.
pub fn collection_key(collection_id: &Bytes32) -> (key: String)
    ensures
        key@ == primitives::prefixed_hex(collection_id@),
{
    primitives::bytes32_debug(collection_id)
}

/// A floor, or zero where it is not known.
pub open spec fn or_zero(floor: Option<u128>) -> u128 {
    match floor {
        Some(v) => v,
        None => 0,
    }
}

/// The floor that vouchers build on: the larger of the two.
pub open spec fn floor_value(local: Option<u128>, on_chain: Option<u128>) -> u128 {
    if or_zero(local) >= or_zero(on_chain) {
        or_zero(local)
    } else {
        or_zero(on_chain)
    }
}

/// The floor for the next voucher. `local` is the stored voucher's value and `on_chain` the
/// tokens collected; either counts as zero where it could not be read.
pub fn previous_rav_value(local: Option<u128>, on_chain: Option<u128>) -> (v: u128)
    ensures
        v == floor_value(local, on_chain),
{
    let local_floor: u128 = match local {
        Some(v) => v,
        None => 0,
    };
    let on_chain_floor: u128 = match on_chain {
        Some(v) => v,
        None => 0,
    };
    if local_floor >= on_chain_floor {
        local_floor
    } else {
        on_chain_floor
    }
}

/// The request to post for a batch.
pub fn aggregate_request(
    batch: PayerBatch,
    service_provider: &Address,
    previous_rav_value: u128,
) -> (request: AggregateRequest)
    ensures
        request.service_provider == *service_provider,
        request.payer == Some(batch.payer),
        request.receipts == batch.receipts,
        request.previous_rav_value == previous_rav_value,
{
    AggregateRequest {
        service_provider: *service_provider,
        payer: Some(batch.payer),
        receipts: batch.receipts,
        previous_rav_value,
    }
}

/// Whether the gateway's answer is a success.
pub fn accepted(status: u16) -> (ok: bool)
    ensures
        ok == (200 <= status < 300),
{
    200 <= status && status < 300
}

/// A voucher in the form in which it is stored.
#[derive(Debug, Clone, PartialEq, Eq)]
pub struct RavUpdate {
    pub collection_id: String,
    pub payer_address: String,
    pub service_provider: String,
    pub data_service: String,
    pub timestamp_ns: i64,
    pub value_aggregate: String,
    pub signature: String,
    pub last_updated: i64,
}

/// Whether `u` is what a voucher is stored as.
pub open spec fn stores(u: RavUpdate, signed: SignedRav, now_secs: u64) -> bool {
    &&& u.collection_id@ == primitives::prefixed_hex(signed.rav.collection_id@)
    &&& u.payer_address@ == primitives::prefixed_hex(signed.rav.payer@)
    &&& u.service_provider@ == primitives::prefixed_hex(signed.rav.service_provider@)
    &&& u.data_service@ == primitives::prefixed_hex(signed.rav.data_service@)
    &&& u.timestamp_ns == signed.rav.timestamp_ns as i64
    &&& u.value_aggregate@ == decimal::decimal(signed.rav.value_aggregate as nat)
    &&& u.signature@ == signed.signature@
    &&& u.last_updated == now_secs as i64
}

/// What a voucher that came back is stored as.
pub fn rav_update(signed: &SignedRav, now_secs: u64) -> (u: RavUpdate)
    ensures
        stores(u, *signed, now_secs),
{
    RavUpdate {
        collection_id: collection_key(&signed.rav.collection_id),
        payer_address: signed.rav.payer.stored_text(),
        service_provider: signed.rav.service_provider.stored_text(),
        data_service: signed.rav.data_service.stored_text(),
        timestamp_ns: signed.rav.timestamp_ns as i64,
        value_aggregate: decimal::to_decimal(signed.rav.value_aggregate),
        signature: signed.signature.clone(),
        last_updated: now_secs as i64,
    }
}

impl RavUpdate {
    /// The values of the row, in the order of its columns.
    pub open spec fn values(self) -> Seq<BindView> {
        seq![
            BindView::Text(self.collection_id@),
            BindView::Text(self.payer_address@),
            BindView::Text(self.service_provider@),
            BindView::Text(self.data_service@),
            BindView::Int(self.timestamp_ns),
            BindView::Text(self.value_aggregate@),
            BindView::Text(self.signature@),
            BindView::Int(self.last_updated),
        ]
    }

    /// Whether `s` stores the voucher.
    pub open spec fn is_upsert(self, s: Statement) -> bool {
        s.sql@ == receipts::UPSERT_RAV@ && receipts::bind_views(s.binds@) == self.values()
    }

    /// Whether `s` deletes what the voucher covers.
    pub open spec fn is_prune(self, s: Statement) -> bool {
        &&& s.sql@ == receipts::DELETE_COVERED@
        &&& receipts::bind_views(s.binds@) == seq![
            BindView::Text(self.payer_address@),
            BindView::Int(self.timestamp_ns),
        ]
    }

    /// The row to store.
    pub fn row(&self) -> (row: RavRow<'_>)
        ensures
            receipts::upsert_values(row) == self.values(),
    {
        RavRow {
            collection_id: self.collection_id.as_str(),
            payer_address: self.payer_address.as_str(),
            service_provider: self.service_provider.as_str(),
            data_service: self.data_service.as_str(),
            timestamp_ns: self.timestamp_ns,
            value_aggregate: self.value_aggregate.as_str(),
            signature: self.signature.as_str(),
            last_updated: self.last_updated,
        }
    }

    /// Stores the voucher.
    pub fn upsert(&self) -> (s: Statement)
        ensures
            self.is_upsert(s),
    {
        receipts::upsert_rav(&self.row())
    }

    /// Deletes the receipts that the stored voucher covers: those of its payer up to its
    /// timestamp.
    pub fn prune(&self) -> (s: Statement)
        ensures
            self.is_prune(s),
    {
        receipts::delete_covered(self.payer_address.as_str(), self.timestamp_ns)
    }
}

} // verus!
