//! The tables of receipts and vouchers: the statements that read and change them, with the
//! values that are bound to their placeholders, and the rows that come back.
//!
//! `tap_receipts` holds one row for each accepted receipt, `tap_ravs` one row for each
//! collection. A 64-bit unsigned number is stored as the signed number of the same bits, an
//! amount as decimal text, an address or a collection as lower-case hexadecimal text.
use vstd::prelude::*;

use crate::decimal;
use crate::primitives;
use crate::tap::ValidatedReceipt;

verus! {

/// A value for a placeholder of a statement.
#[derive(Debug, Clone, PartialEq, Eq)]
pub enum Bind {
    Int(i64),
    Text(String),
    OptionalText(Option<String>),
    Bytes(Vec<u8>),
}

/// A statement and the values for its placeholders `$1`, `$2`, and so on.
#[derive(Debug, Clone, PartialEq, Eq)]
pub struct Statement {
    pub sql: &'static str,
    pub binds: Vec<Bind>,
}

/// A receipt as the dashboard feed and a consumer's history show it.
#[derive(Debug, Clone, PartialEq, Eq)]
pub struct ReceiptRow {
    pub id: i64,
    pub payer_address: String,
    pub chain_id: i64,
    pub timestamp_ns: i64,
    pub value: String,
    pub method: Option<String>,
}

/// A receipt as it is fetched for aggregation.
#[derive(Debug, Clone, PartialEq, Eq)]
pub struct RawReceipt {
    pub id: i64,
    pub payer_address: String,
    pub timestamp_ns: i64,
    pub nonce: i64,
    /// A decimal number of 128 bits.
    pub value: String,
    pub signature: String,
    pub metadata: Vec<u8>,
}

/// A voucher as it is stored.
#[derive(Debug, Clone, Copy, PartialEq, Eq)]
pub struct RavRow<'a> {
    pub collection_id: &'a str,
    pub payer_address: &'a str,
    pub service_provider: &'a str,
    pub data_service: &'a str,
    pub timestamp_ns: i64,
    pub value_aggregate: &'a str,
    pub signature: &'a str,
    pub last_updated: i64,
}

/// A voucher ready for on-chain submission.
#[derive(Debug, Clone, PartialEq, Eq)]
pub struct RedeemableRav {
    pub collection_id: String,
    pub payer_address: String,
    pub service_provider: String,
    pub data_service: String,
    pub timestamp_ns: i64,
    pub value_aggregate: String,
    pub signature: String,
}

/// What a [`Bind`] holds.
pub enum BindView {
    Int(i64),
    Text(Seq<char>),
    OptionalText(Option<Seq<char>>),
    Bytes(Seq<u8>),
}

impl View for Bind {
    type V = BindView;

    open spec fn view(&self) -> BindView {
        match *self {
            Bind::Int(n) => BindView::Int(n),
            Bind::Text(s) => BindView::Text(s@),
            Bind::OptionalText(None) => BindView::OptionalText(None),
            Bind::OptionalText(Some(s)) => BindView::OptionalText(Some(s@)),
            Bind::Bytes(b) => BindView::Bytes(b@),
        }
    }
}

/// What the values of a statement hold.
pub open spec fn bind_views(binds: Seq<Bind>) -> Seq<BindView> {
    binds.map_values(|b: Bind| b@)
}

pub const INSERT_RECEIPT: &'static str = "INSERT INTO tap_receipts (signer_address, payer_address, chain_id, timestamp_ns, nonce, value, signature, metadata, method) VALUES ($1, $2, $3, $4, $5, $6, $7, $8, $9) RETURNING id";

pub const RECENT_RECEIPTS: &'static str = "SELECT id, payer_address, chain_id, timestamp_ns, value, method FROM tap_receipts ORDER BY timestamp_ns DESC LIMIT $1";

pub const RECENT_RECEIPTS_BY_PAYER: &'static str = "SELECT id, payer_address, chain_id, timestamp_ns, value, method FROM tap_receipts WHERE payer_address = $1 ORDER BY timestamp_ns DESC LIMIT $2";

pub const RECEIPTS_BY_PAYER: &'static str = "SELECT id, payer_address, timestamp_ns, nonce, value, signature, metadata FROM tap_receipts WHERE payer_address = $1 ORDER BY timestamp_ns ASC";

pub const DISTINCT_PAYERS: &'static str = "SELECT DISTINCT payer_address FROM tap_receipts";

pub const UNREDEEMED_RAVS: &'static str = "SELECT collection_id, payer_address, service_provider, data_service, timestamp_ns, value_aggregate, signature FROM tap_ravs WHERE redeemed = false ORDER BY last_updated ASC";

pub const MARK_REDEEMED: &'static str = "UPDATE tap_ravs SET redeemed = true WHERE collection_id = $1";

pub const DELETE_COVERED: &'static str = "DELETE FROM tap_receipts WHERE payer_address = $1 AND timestamp_ns <= $2";

pub const RAV_FLOOR: &'static str = "SELECT value_aggregate FROM tap_ravs WHERE collection_id = $1";

pub const UPSERT_RAV: &'static str = "INSERT INTO tap_ravs (collection_id, payer_address, service_provider, data_service, timestamp_ns, value_aggregate, signature, last_updated) VALUES ($1, $2, $3, $4, $5, $6, $7, $8) ON CONFLICT (collection_id) DO UPDATE SET timestamp_ns = EXCLUDED.timestamp_ns, value_aggregate = EXCLUDED.value_aggregate, signature = EXCLUDED.signature, last_updated = EXCLUDED.last_updated, redeemed = false";

/// What is stored of a receipt: its signer, its payer, the chain, its timestamp, nonce,
/// value, signature and metadata, and the method that it paid for.
pub open spec fn insert_values(chain_id: u64, validated: ValidatedReceipt) -> Seq<BindView> {
    seq![
        BindView::Text(primitives::prefixed_hex(validated.signer@)),
        BindView::Text(primitives::prefixed_hex(validated.payer@)),
        BindView::Int(chain_id as i64),
        BindView::Int(validated.receipt.timestamp_ns as i64),
        BindView::Int(validated.receipt.nonce as i64),
        BindView::Text(decimal::decimal(validated.receipt.value as nat)),
        BindView::Text(validated.signature@),
        BindView::Bytes(validated.receipt.metadata@),
        BindView::OptionalText(
            match validated.method {
                Some(m) => Some(m@),
                None => None,
            },
        ),
    ]
}

/// Persists a validated receipt. The statement returns the `id` of the new row.
pub fn insert(chain_id: u64, validated: &ValidatedReceipt) -> (s: Statement)
    ensures
        s.sql@ == INSERT_RECEIPT@,
        bind_views(s.binds@) == insert_values(chain_id, *validated),
{
    let metadata = validated.receipt.metadata.clone();
    assert(metadata@ =~= validated.receipt.metadata@);
    let method = match &validated.method {
        Some(m) => Some(m.clone()),
        None => None,
    };
    let binds = vec![
        Bind::Text(validated.signer.stored_text()),
        Bind::Text(validated.payer.stored_text()),
        Bind::Int(chain_id as i64),
        Bind::Int(validated.receipt.timestamp_ns as i64),
        Bind::Int(validated.receipt.nonce as i64),
        Bind::Text(decimal::to_decimal(validated.receipt.value)),
        Bind::Text(validated.signature.clone()),
        Bind::Bytes(metadata),
        Bind::OptionalText(method),
    ];
    assert(bind_views(binds@) =~= insert_values(chain_id, *validated));
    Statement { sql: INSERT_RECEIPT, binds }
}

/// The most recent receipts across all consumers, newest first. Each row is a [`ReceiptRow`].
pub fn recent(limit: i64) -> (s: Statement)
    ensures
        s.sql@ == RECENT_RECEIPTS@,
        bind_views(s.binds@) == seq![BindView::Int(limit)],
{
    let binds = vec![Bind::Int(limit)];
    assert(bind_views(binds@) =~= seq![BindView::Int(limit)]);
    Statement { sql: RECENT_RECEIPTS, binds }
}

/// The most recent receipts of one consumer, newest first. Each row is a [`ReceiptRow`].
pub fn by_payer_recent(payer_hex: &str, limit: i64) -> (s: Statement)
    ensures
        s.sql@ == RECENT_RECEIPTS_BY_PAYER@,
        bind_views(s.binds@) == seq![BindView::Text(payer_hex@), BindView::Int(limit)],
{
    let binds = vec![Bind::Text(payer_hex.to_owned()), Bind::Int(limit)];
    assert(bind_views(binds@) =~= seq![BindView::Text(payer_hex@), BindView::Int(limit)]);
    Statement { sql: RECENT_RECEIPTS_BY_PAYER, binds }
}

/// All receipts of one consumer, oldest first. Each row is a [`RawReceipt`].
pub fn fetch_by_payer(payer_hex: &str) -> (s: Statement)
    ensures
        s.sql@ == RECEIPTS_BY_PAYER@,
        bind_views(s.binds@) == seq![BindView::Text(payer_hex@)],
{
    let binds = vec![Bind::Text(payer_hex.to_owned())];
    assert(bind_views(binds@) =~= seq![BindView::Text(payer_hex@)]);
    Statement { sql: RECEIPTS_BY_PAYER, binds }
}

/// The distinct consumers that have receipts. Each row is one `payer_address`.
pub fn distinct_payers() -> (s: Statement)
    ensures
        s.sql@ == DISTINCT_PAYERS@,
        s.binds@.len() == 0,
{
    Statement { sql: DISTINCT_PAYERS, binds: Vec::new() }
}

/// All vouchers that have not been submitted on-chain. Each row is a [`RedeemableRav`].
pub fn fetch_unredeemed_ravs() -> (s: Statement)
    ensures
        s.sql@ == UNREDEEMED_RAVS@,
        s.binds@.len() == 0,
{
    Statement { sql: UNREDEEMED_RAVS, binds: Vec::new() }
}

/// Marks a voucher as redeemed after successful on-chain collection.
pub fn mark_rav_redeemed(collection_id: &str) -> (s: Statement)
    ensures
        s.sql@ == MARK_REDEEMED@,
        bind_views(s.binds@) == seq![BindView::Text(collection_id@)],
{
    let binds = vec![Bind::Text(collection_id.to_owned())];
    assert(bind_views(binds@) =~= seq![BindView::Text(collection_id@)]);
    Statement { sql: MARK_REDEEMED, binds }
}

/// Deletes the receipts of `payer_hex` with `timestamp_ns <= up_to_ns`: those that a
/// stored voucher covers.
pub fn delete_covered(payer_hex: &str, up_to_ns: i64) -> (s: Statement)
    ensures
        s.sql@ == DELETE_COVERED@,
        bind_views(s.binds@) == seq![BindView::Text(payer_hex@), BindView::Int(up_to_ns)],
{
    let binds = vec![Bind::Text(payer_hex.to_owned()), Bind::Int(up_to_ns)];
    assert(bind_views(binds@) =~= seq![BindView::Text(payer_hex@), BindView::Int(up_to_ns)]);
    Statement { sql: DELETE_COVERED, binds }
}

/// The stored value of a collection's voucher. The row, where there is one, holds
/// `value_aggregate`; see [`rav_floor`].
pub fn fetch_rav_floor(collection_id_hex: &str) -> (s: Statement)
    ensures
        s.sql@ == RAV_FLOOR@,
        bind_views(s.binds@) == seq![BindView::Text(collection_id_hex@)],
{
    let binds = vec![Bind::Text(collection_id_hex.to_owned())];
    assert(bind_views(binds@) =~= seq![BindView::Text(collection_id_hex@)]);
    Statement { sql: RAV_FLOOR, binds }
}

/// The cumulative floor of a collection, given its stored value: zero where no voucher is
/// stored yet, or where its value is no number.
pub open spec fn floor_of(stored: Option<Seq<char>>) -> u128 {
    match stored {
        Some(s) => decimal::parsed_or_zero(s),
        None => 0,
    }
}

/// Reads the row of [`fetch_rav_floor`].
pub fn rav_floor(stored: Option<&str>) -> (floor: u128)
    ensures
        floor == floor_of(
            match stored {
                Some(s) => Some(s@),
                None => None,
            },
        ),
{
    match stored {
        Some(s) => decimal::parse_or_zero(s),
        None => 0,
    }
}

/// Inserts or updates the voucher of a collection. Value, timestamp, signature and time of
/// update are replaced with the latest ones, and the voucher is to be redeemed again.
pub fn upsert_rav(rav: &RavRow<'_>) -> (s: Statement)
    ensures
        s.sql@ == UPSERT_RAV@,
        bind_views(s.binds@) == upsert_values(*rav),
{
    let binds = vec![
        Bind::Text(rav.collection_id.to_owned()),
        Bind::Text(rav.payer_address.to_owned()),
        Bind::Text(rav.service_provider.to_owned()),
        Bind::Text(rav.data_service.to_owned()),
        Bind::Int(rav.timestamp_ns),
        Bind::Text(rav.value_aggregate.to_owned()),
        Bind::Text(rav.signature.to_owned()),
        Bind::Int(rav.last_updated),
    ];
    assert(bind_views(binds@) =~= upsert_values(*rav));
    Statement { sql: UPSERT_RAV, binds }
}

/// What is stored of a voucher, in the order of its columns.
pub open spec fn upsert_values(rav: RavRow<'_>) -> Seq<BindView> {
    seq![
        BindView::Text(rav.collection_id@),
        BindView::Text(rav.payer_address@),
        BindView::Text(rav.service_provider@),
        BindView::Text(rav.data_service@),
        BindView::Int(rav.timestamp_ns),
        BindView::Text(rav.value_aggregate@),
        BindView::Text(rav.signature@),
        BindView::Int(rav.last_updated),
    ]
}

} // verus!
