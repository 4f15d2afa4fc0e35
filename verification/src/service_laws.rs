//! What the service's operations give, in the values that go in and come out.
use vstd::prelude::*;

use crate::aggregate::AggregateRequest;
use crate::decimal;
use crate::decimal::DecimalError;
use crate::payer_run;
use crate::payer_run::{RunAction, RunEvent, RunState};
use crate::primitives;
use crate::primitives::{Address, Bytes32};
use crate::receipts;
use crate::receipts::{Bind, RavRow, RawReceipt, Statement};
use crate::tap::{SignedRav, SignedReceipt, ValidatedReceipt};
use crate::tap_aggregator;
use crate::tap_aggregator::{
    AggregatorPlan, AggregatorSettings, Cycle, PayerBatch, PayerError, RavUpdate,
};
use crate::text_laws;
use crate::text_laws::shows;
use crate::tokens_collected;
use crate::tokens_collected::{EthCall, TokensCollectedError};

verus! {

/// Whether a bound value is the given text.
pub open spec fn holds_text(bind: Bind, text: Seq<char>) -> bool {
    bind matches Bind::Text(s) && s@ == text
}

/// Whether a bound value is a text that shows the given bytes.
pub open spec fn holds_shown(bind: Bind, bytes: Seq<u8>) -> bool {
    bind matches Bind::Text(s) && shows(s@, bytes)
}

/// Whether a bound value is the given number.
pub open spec fn holds_int(bind: Bind, n: int) -> bool {
    bind matches Bind::Int(v) && v == n
}

/// The number that 64 bits stand for with a sign.
pub open spec fn signed(n: u64) -> int {
    if n < 0x8000_0000_0000_0000 {
        n as int
    } else {
        n - 0x1_0000_0000_0000_0000
    }
}

/// The number that 64 bits stand for without a sign.
pub open spec fn unsigned(n: i64) -> int {
    if n >= 0 {
        n as int
    } else {
        n + 0x1_0000_0000_0000_0000
    }
}

proof fn lemma_signed(n: u64)
    ensures
        n as i64 == signed(n),
{
    assert(n < 0x8000_0000_0000_0000u64 ==> n as i64 == n) by (bit_vector);
    assert(n >= 0x8000_0000_0000_0000u64 ==> n as i64 == n - 0x1_0000_0000_0000_0000) by (bit_vector);
}

proof fn lemma_unsigned(n: i64)
    ensures
        n as u64 == unsigned(n),
{
    assert(n >= 0i64 ==> n as u64 == n) by (bit_vector);
    assert(n < 0i64 ==> n as u64 == n + 0x1_0000_0000_0000_0000) by (bit_vector);
}

proof fn lemma_binds(binds: Seq<Bind>)
    ensures
        receipts::bind_views(binds).len() == binds.len(),
        forall|i: int|
            0 <= i < binds.len() ==> receipts::bind_views(binds)[i] == (#[trigger] binds[i])@,
{
}

/// A receipt is stored with its signer and payer in hexadecimal, the bits of chain, timestamp
/// and nonce, its value in decimal, and signature, metadata and method as they are.
pub proof fn law_receipt_is_stored_whole(
    chain_id: u64,
    validated: ValidatedReceipt,
    s: Statement,
)
    requires
        call_ensures(receipts::insert, (chain_id, &validated), s),
    ensures
        s.sql@
            == "INSERT INTO tap_receipts (signer_address, payer_address, chain_id, timestamp_ns, nonce, value, signature, metadata, method) VALUES ($1, $2, $3, $4, $5, $6, $7, $8, $9) RETURNING id"@,
        s.binds@.len() == 9,
        holds_shown(s.binds@[0], validated.signer.bytes@),
        holds_shown(s.binds@[1], validated.payer.bytes@),
        holds_int(s.binds@[2], signed(chain_id)),
        holds_int(s.binds@[3], signed(validated.receipt.timestamp_ns)),
        holds_int(s.binds@[4], signed(validated.receipt.nonce)),
        holds_text(s.binds@[5], decimal::decimal(validated.receipt.value as nat)),
        holds_text(s.binds@[6], validated.signature@),
        s.binds@[7] matches Bind::Bytes(b) && b@ == validated.receipt.metadata@,
        s.binds@[8] matches Bind::OptionalText(m) && match validated.method {
            Some(method) => m is Some && m->0@ == method@,
            None => m is None,
        },
{
    lemma_binds(s.binds@);
    lemma_signed(chain_id);
    lemma_signed(validated.receipt.timestamp_ns);
    lemma_signed(validated.receipt.nonce);
    text_laws::law_prefixed_hex_shows(validated.signer.bytes@);
    text_laws::law_prefixed_hex_shows(validated.payer.bytes@);
}

/// The newest receipts are asked for, as many as the limit says.
pub proof fn law_recent_receipts(limit: i64, s: Statement)
    requires
        call_ensures(receipts::recent, (limit,), s),
    ensures
        s.sql@
            == "SELECT id, payer_address, chain_id, timestamp_ns, value, method FROM tap_receipts ORDER BY timestamp_ns DESC LIMIT $1"@,
        s.binds@.len() == 1,
        holds_int(s.binds@[0], limit as int),
{
    lemma_binds(s.binds@);
}

/// The newest receipts of the payer are asked for, as many as the limit says.
pub proof fn law_recent_receipts_of_payer(payer_hex: &str, limit: i64, s: Statement)
    requires
        call_ensures(receipts::by_payer_recent, (payer_hex, limit), s),
    ensures
        s.sql@
            == "SELECT id, payer_address, chain_id, timestamp_ns, value, method FROM tap_receipts WHERE payer_address = $1 ORDER BY timestamp_ns DESC LIMIT $2"@,
        s.binds@.len() == 2,
        holds_text(s.binds@[0], payer_hex@),
        holds_int(s.binds@[1], limit as int),
{
    lemma_binds(s.binds@);
}

/// All receipts of the payer are asked for, oldest first.
pub proof fn law_receipts_of_payer(payer_hex: &str, s: Statement)
    requires
        call_ensures(receipts::fetch_by_payer, (payer_hex,), s),
    ensures
        s.sql@
            == "SELECT id, payer_address, timestamp_ns, nonce, value, signature, metadata FROM tap_receipts WHERE payer_address = $1 ORDER BY timestamp_ns ASC"@,
        s.binds@.len() == 1,
        holds_text(s.binds@[0], payer_hex@),
{
    lemma_binds(s.binds@);
}

/// The payers are asked for once each, and the vouchers that wait for redemption, without values.
pub proof fn law_questions_without_values(payers: Statement, ravs: Statement)
    requires
        call_ensures(receipts::distinct_payers, (), payers),
        call_ensures(receipts::fetch_unredeemed_ravs, (), ravs),
    ensures
        payers.sql@ == "SELECT DISTINCT payer_address FROM tap_receipts"@,
        payers.binds@.len() == 0,
        ravs.sql@
            == "SELECT collection_id, payer_address, service_provider, data_service, timestamp_ns, value_aggregate, signature FROM tap_ravs WHERE redeemed = false ORDER BY last_updated ASC"@,
        ravs.binds@.len() == 0,
{
}

/// The voucher of the given collection is marked, whatever its name, and no other.
pub proof fn law_voucher_is_marked(collection_id: &str, s: Statement)
    requires
        call_ensures(receipts::mark_rav_redeemed, (collection_id,), s),
    ensures
        s.sql@ == "UPDATE tap_ravs SET redeemed = true WHERE collection_id = $1"@,
        s.binds@.len() == 1,
        holds_text(s.binds@[0], collection_id@),
{
    lemma_binds(s.binds@);
}

/// Whether a statement deletes the receipts of a payer up to a time.
pub open spec fn deletes(s: Statement) -> bool {
    &&& s.sql@ == "DELETE FROM tap_receipts WHERE payer_address = $1 AND timestamp_ns <= $2"@
    &&& s.binds@.len() == 2
}

/// The receipts of the given payer up to the given time are deleted.
pub proof fn law_covered_receipts_are_deleted(payer_hex: &str, up_to_ns: i64, s: Statement)
    requires
        call_ensures(receipts::delete_covered, (payer_hex, up_to_ns), s),
    ensures
        deletes(s),
        holds_text(s.binds@[0], payer_hex@),
        holds_int(s.binds@[1], up_to_ns as int),
{
    lemma_binds(s.binds@);
}

/// Whether a statement asks for the value of a collection's voucher.
pub open spec fn asks_value(s: Statement) -> bool {
    &&& s.sql@ == "SELECT value_aggregate FROM tap_ravs WHERE collection_id = $1"@
    &&& s.binds@.len() == 1
}

/// The value of the given collection's voucher is asked for.
pub proof fn law_floor_is_asked_for(collection_id_hex: &str, s: Statement)
    requires
        call_ensures(receipts::fetch_rav_floor, (collection_id_hex,), s),
    ensures
        asks_value(s),
        holds_text(s.binds@[0], collection_id_hex@),
{
    lemma_binds(s.binds@);
}

/// The stored floor is the number that its text reads as; zero without a text or a number.
pub proof fn law_floor_is_read(
    stored: Option<&str>,
    s: &str,
    r: Result<u128, DecimalError>,
    floor: u128,
)
    requires
        call_ensures(receipts::rav_floor, (stored,), floor),
        call_ensures(decimal::parse_u128, (s,), r),
        stored matches Some(t) ==> t@ == s@,
    ensures
        stored is None ==> floor == 0,
        stored is Some && r is Ok ==> floor == r->Ok_0,
        stored is Some && r is Err ==> floor == 0,
{
}

/// Whether a statement stores a voucher, and has it redeemed again.
pub open spec fn stores_voucher(s: Statement) -> bool {
    &&& s.sql@
        == "INSERT INTO tap_ravs (collection_id, payer_address, service_provider, data_service, timestamp_ns, value_aggregate, signature, last_updated) VALUES ($1, $2, $3, $4, $5, $6, $7, $8) ON CONFLICT (collection_id) DO UPDATE SET timestamp_ns = EXCLUDED.timestamp_ns, value_aggregate = EXCLUDED.value_aggregate, signature = EXCLUDED.signature, last_updated = EXCLUDED.last_updated, redeemed = false"@
    &&& s.binds@.len() == 8
}

/// Each column of a voucher's row is bound as it is, in its place.
pub proof fn law_voucher_row_is_bound(rav: RavRow<'_>, s: Statement)
    requires
        call_ensures(receipts::upsert_rav, (&rav,), s),
    ensures
        stores_voucher(s),
        holds_text(s.binds@[0], rav.collection_id@),
        holds_text(s.binds@[1], rav.payer_address@),
        holds_text(s.binds@[2], rav.service_provider@),
        holds_text(s.binds@[3], rav.data_service@),
        holds_int(s.binds@[4], rav.timestamp_ns as int),
        holds_text(s.binds@[5], rav.value_aggregate@),
        holds_text(s.binds@[6], rav.signature@),
        holds_int(s.binds@[7], rav.last_updated as int),
{
    lemma_binds(s.binds@);
}

/// Whether bound values are those of a voucher: its collection and its three parties byte for
/// byte, its timestamp and the time bit for bit, its value in decimal and its whole signature.
pub open spec fn binds_voucher(binds: Seq<Bind>, voucher: SignedRav, now_secs: u64) -> bool {
    &&& holds_shown(binds[0], voucher.rav.collection_id.bytes@)
    &&& holds_shown(binds[1], voucher.rav.payer.bytes@)
    &&& holds_shown(binds[2], voucher.rav.service_provider.bytes@)
    &&& holds_shown(binds[3], voucher.rav.data_service.bytes@)
    &&& holds_int(binds[4], signed(voucher.rav.timestamp_ns))
    &&& holds_text(binds[5], decimal::decimal(voucher.rav.value_aggregate as nat))
    &&& holds_text(binds[6], voucher.signature@)
    &&& holds_int(binds[7], signed(now_secs))
}

proof fn lemma_voucher_is_shown(voucher: SignedRav, now_secs: u64)
    ensures
        shows(
            primitives::prefixed_hex(voucher.rav.collection_id.bytes@),
            voucher.rav.collection_id.bytes@,
        ),
        shows(primitives::prefixed_hex(voucher.rav.payer.bytes@), voucher.rav.payer.bytes@),
        shows(
            primitives::prefixed_hex(voucher.rav.service_provider.bytes@),
            voucher.rav.service_provider.bytes@,
        ),
        shows(
            primitives::prefixed_hex(voucher.rav.data_service.bytes@),
            voucher.rav.data_service.bytes@,
        ),
        voucher.rav.timestamp_ns as i64 == signed(voucher.rav.timestamp_ns),
        now_secs as i64 == signed(now_secs),
{
    text_laws::law_prefixed_hex_shows(voucher.rav.collection_id.bytes@);
    text_laws::law_prefixed_hex_shows(voucher.rav.payer.bytes@);
    text_laws::law_prefixed_hex_shows(voucher.rav.service_provider.bytes@);
    text_laws::law_prefixed_hex_shows(voucher.rav.data_service.bytes@);
    lemma_signed(voucher.rav.timestamp_ns);
    lemma_signed(now_secs);
}

/// A voucher that came back is stored with all that makes it redeemable, and then the receipts
/// of its payer up to its timestamp are deleted.
pub proof fn law_voucher_is_stored_whole(
    voucher: SignedRav,
    now_secs: u64,
    update: RavUpdate,
    row: RavRow<'_>,
    store: Statement,
    prune: Statement,
)
    requires
        call_ensures(tap_aggregator::rav_update, (&voucher, now_secs), update),
        call_ensures(RavUpdate::row, (&update,), row),
        call_ensures(RavUpdate::upsert, (&update,), store),
        call_ensures(RavUpdate::prune, (&update,), prune),
    ensures
        stores_voucher(store),
        binds_voucher(store.binds@, voucher, now_secs),
        deletes(prune),
        holds_shown(prune.binds@[0], voucher.rav.payer.bytes@),
        holds_int(prune.binds@[1], signed(voucher.rav.timestamp_ns)),
        row.signature@ == voucher.signature@,
        row.value_aggregate@ == decimal::decimal(voucher.rav.value_aggregate as nat),
        row.timestamp_ns == signed(voucher.rav.timestamp_ns),
        row.last_updated == signed(now_secs),
        shows(row.collection_id@, voucher.rav.collection_id.bytes@),
        shows(row.payer_address@, voucher.rav.payer.bytes@),
        shows(row.service_provider@, voucher.rav.service_provider.bytes@),
        shows(row.data_service@, voucher.rav.data_service.bytes@),
{
    lemma_voucher_is_shown(voucher, now_secs);
    lemma_binds(store.binds@);
    lemma_binds(prune.binds@);
    let (bound, values) = (receipts::upsert_values(row), update.values());
    assert(bound[0] == values[0] && bound[1] == values[1] && bound[2] == values[2] && bound[3]
        == values[3] && bound[4] == values[4] && bound[5] == values[5] && bound[6] == values[6]
        && bound[7] == values[7]);
}

/// Whether a receipt is what a row was stored from: signature and metadata as they are, the bits
/// of timestamp and nonce, the number that the value reads as, for the given two addresses.
pub open spec fn is_of_row(
    receipt: SignedReceipt,
    row: RawReceipt,
    service_provider: Address,
    data_service: Address,
) -> bool {
    &&& receipt.receipt.service_provider.bytes@ == service_provider.bytes@
    &&& receipt.receipt.data_service.bytes@ == data_service.bytes@
    &&& receipt.receipt.timestamp_ns == unsigned(row.timestamp_ns)
    &&& receipt.receipt.nonce == unsigned(row.nonce)
    &&& receipt.receipt.value == decimal::parsed_or_zero(row.value@)
    &&& receipt.receipt.metadata@ == row.metadata@
    &&& receipt.signature@ == row.signature@
}

/// Whether receipts are those of rows, in order.
pub open spec fn are_of_rows(
    batch: Seq<SignedReceipt>,
    rows: Seq<RawReceipt>,
    service_provider: Address,
    data_service: Address,
) -> bool {
    &&& batch.len() == rows.len()
    &&& forall|i: int|
        0 <= i < rows.len() ==> is_of_row(
            #[trigger] batch[i],
            rows[i],
            service_provider,
            data_service,
        )
}

proof fn lemma_rebuilt(
    batch: Seq<SignedReceipt>,
    rows: Seq<RawReceipt>,
    service_provider: Address,
    data_service: Address,
)
    requires
        tap_aggregator::rebuilds(batch, rows, service_provider.bytes@, data_service.bytes@),
    ensures
        are_of_rows(batch, rows, service_provider, data_service),
{
    assert forall|i: int| 0 <= i < rows.len() implies is_of_row(
        #[trigger] batch[i],
        rows[i],
        service_provider,
        data_service,
    ) by {
        lemma_unsigned(rows[i].timestamp_ns);
        lemma_unsigned(rows[i].nonce);
        assert(batch[i]@ == tap_aggregator::rebuilt(
            rows[i],
            service_provider.bytes@,
            data_service.bytes@,
        ));
    }
}

/// Rows are rebuilt into the receipts that they were stored from, in order.
pub proof fn law_rows_are_rebuilt(
    rows: Vec<RawReceipt>,
    service_provider: Address,
    data_service: Address,
    batch: Vec<SignedReceipt>,
)
    requires
        call_ensures(
            tap_aggregator::rebuild_receipts,
            (&rows, &service_provider, &data_service),
            batch,
        ),
    ensures
        are_of_rows(batch@, rows@, service_provider, data_service),
{
    lemma_rebuilt(batch@, rows@, service_provider, data_service);
}

/// There is nothing to send without rows. With rows there is a batch of all of them for the payer
/// that the stored text reads as, and an error with that text where it is no address.
pub proof fn law_batch_is_of_all_rows(
    rows: Vec<RawReceipt>,
    payer_hex: &str,
    service_provider: Address,
    data_service: Address,
    payer: Option<Address>,
    r: Result<Option<PayerBatch>, PayerError>,
)
    requires
        call_ensures(
            tap_aggregator::prepare,
            (&rows, payer_hex, &service_provider, &data_service),
            r,
        ),
        call_ensures(Address::parse, (payer_hex,), payer),
    ensures
        rows@.len() == 0 ==> r is Ok && r->Ok_0 is None,
        rows@.len() > 0 && payer is None ==> (r matches Err(
            PayerError::InvalidPayer { payer_hex: p },
        ) && p@ == payer_hex@),
        rows@.len() > 0 && payer is Some ==> (r matches Ok(Some(batch)) && batch.payer.bytes@
            == payer->0.bytes@ && are_of_rows(
            batch.receipts@,
            rows@,
            service_provider,
            data_service,
        )),
{
    if rows@.len() > 0 && payer is Some {
        lemma_rebuilt(r->Ok_0->0.receipts@, rows@, service_provider, data_service);
    }
}

/// A loop is planned exactly where a gateway is configured: it posts under the gateway's URL,
/// asks the read-only endpoint, or else the collector's, and takes over all else.
pub proof fn law_plan_follows_settings(settings: AggregatorSettings, r: Option<AggregatorPlan>)
    requires
        call_ensures(tap_aggregator::plan, (&settings,), r),
    ensures
        r is Some <==> settings.aggregator_url is Some,
        r matches Some(plan) ==> {
            &&& plan.endpoint@ == settings.aggregator_url->0@ + "/rav/aggregate"@
            &&& settings.escrow_check_rpc_url matches Some(url) ==> plan.rpc_url is Some
                && plan.rpc_url->0@ == url@
            &&& settings.escrow_check_rpc_url is None ==> (settings.collector_rpc_url matches Some(
                url,
            ) ==> plan.rpc_url is Some && plan.rpc_url->0@ == url@)
            &&& settings.escrow_check_rpc_url is None && settings.collector_rpc_url is None
                ==> plan.rpc_url is None
            &&& plan.tally_collector.bytes@ == settings.eip712_verifying_contract.bytes@
            &&& plan.interval_secs == settings.aggregation_interval_secs
            &&& plan.service_provider.bytes@ == settings.service_provider_address.bytes@
            &&& plan.data_service.bytes@ == settings.data_service_address.bytes@
        },
{
}

/// A cycle starts before the first of its payers, and is empty exactly where it has none.
pub proof fn law_cycle_starts_before_first(payers: Vec<String>, cycle: Cycle, empty: bool)
    requires
        call_ensures(Cycle::start, (payers,), cycle),
        call_ensures(Cycle::is_empty, (&cycle,), empty),
    ensures
        cycle.well_formed(),
        cycle.payers() == payers@,
        cycle.taken() == 0,
        empty <==> payers@.len() == 0,
{
}

/// The payers of a cycle come one by one, each once and in order, and then none.
pub proof fn law_cycle_takes_payers_in_order(cycle: &mut Cycle, payer: Option<String>)
    requires
        old(cycle).well_formed(),
        call_ensures(Cycle::next_payer, (cycle,), payer),
    ensures
        final(cycle).well_formed(),
        final(cycle).payers() == old(cycle).payers(),
        payer is Some <==> old(cycle).taken() < old(cycle).payers().len(),
        payer is Some ==> payer->0 == old(cycle).payers()[old(cycle).taken() as int]
            && final(cycle).taken() == old(cycle).taken() + 1,
        payer is None ==> final(cycle).taken() == old(cycle).taken(),
{
    assert(old(cycle).taken() <= old(cycle).payers().len()) by {
        Cycle::lemma_taken(*old(cycle));
    }
}

/// The floor is one of the two that are known and no smaller than either; zero without both.
pub proof fn law_floor_is_the_larger(local: Option<u128>, on_chain: Option<u128>, v: u128)
    requires
        call_ensures(tap_aggregator::previous_rav_value, (local, on_chain), v),
    ensures
        local matches Some(l) ==> v >= l,
        on_chain matches Some(c) ==> v >= c,
        v == 0 || local == Some(v) || on_chain == Some(v),
{
}

/// The request is for the batch's payer, the given provider, all receipts and the floor.
pub proof fn law_request_holds_the_batch(
    batch: PayerBatch,
    service_provider: Address,
    floor: u128,
    request: AggregateRequest,
)
    requires
        call_ensures(tap_aggregator::aggregate_request, (batch, &service_provider, floor), request),
    ensures
        request.service_provider.bytes@ == service_provider.bytes@,
        request.payer is Some && request.payer->0.bytes@ == batch.payer.bytes@,
        request.receipts@ == batch.receipts@,
        request.previous_rav_value == floor,
{
}

/// A status is a success exactly from 200 to 299.
pub proof fn law_success_statuses(status: u16, ok: bool)
    requires
        call_ensures(tap_aggregator::accepted, (status,), ok),
    ensures
        ok <==> 200 <= status <= 299,
{
}

/// What a failed run says: the stored payer, the endpoint before the reason, the status before
/// the text, or the reason alone.
pub proof fn law_failure_in_words(e: PayerError, s: String)
    requires
        call_ensures(PayerError::message, (&e,), s),
    ensures
        match e {
            PayerError::InvalidPayer { payer_hex } => s@ == "invalid payer address in db: "@
                + payer_hex@,
            PayerError::Unreachable { endpoint, reason } => s@ == "POST "@ + endpoint@
                + " failed: "@ + reason@,
            PayerError::Refused { status, text } => s@ == "aggregator returned "@ + status@ + ": "@
                + text@,
            PayerError::Failed { reason } => s@ == reason@,
        },
{
}

/// What a failed question to the chain says.
pub proof fn law_chain_error_in_words(e: TokensCollectedError, s: String)
    requires
        call_ensures(TokensCollectedError::message, (&e,), s),
    ensures
        match e {
            TokensCollectedError::Unreachable { reason } => s@ == reason@,
            TokensCollectedError::NotJson { reason } => s@ == "error decoding response body: "@
                + reason@,
            TokensCollectedError::NoResult { reply } => s@ == "eth_call returned no result: "@
                + reply@,
            TokensCollectedError::NotHex { reason } => s@ == reason@,
            TokensCollectedError::TooShort { bytes } => s@ == "eth_call result too short ("@
                + decimal::decimal(bytes as nat) + " bytes)"@,
        },
{
}

/// Zero bytes.
pub open spec fn zeros(n: nat) -> Seq<u8> {
    Seq::new(n, |i: int| 0u8)
}

/// The words of the getter's arguments: data service, collection, receiver, payer. An address
/// stands at the end of its word.
pub open spec fn argument_words(
    data_service: Seq<u8>,
    collection_id: Seq<u8>,
    receiver: Seq<u8>,
    payer: Seq<u8>,
) -> Seq<u8> {
    zeros(12) + data_service + collection_id + zeros(12) + receiver + zeros(12) + payer
}

/// The first four bytes of the digest of the getter's signature.
pub open spec fn selector() -> Seq<u8> {
    primitives::keccak256_digest(
        vstd::utf8::encode_utf8("tokensCollected(address,bytes32,address,address)"@),
    ).take(4)
}

/// Whether a call asks the contract, as of the latest block, for the tokens that the receiver
/// collected from the payer under the data service and the collection.
pub open spec fn asks_for(
    call: EthCall,
    contract: Address,
    data_service: Address,
    collection_id: Bytes32,
    receiver: Address,
    payer: Address,
) -> bool {
    &&& call.jsonrpc@ == "2.0"@
    &&& call.id == 1
    &&& call.method@ == "eth_call"@
    &&& call.block@ == "latest"@
    &&& shows(call.to@, contract.bytes@)
    &&& shows(
        call.data@,
        selector() + argument_words(
            data_service.bytes@,
            collection_id.bytes@,
            receiver.bytes@,
            payer.bytes@,
        ),
    )
}

proof fn lemma_asks(
    call: EthCall,
    contract: Address,
    data_service: Address,
    collection_id: Bytes32,
    receiver: Address,
    payer: Address,
)
    requires
        tokens_collected::asks(
            call,
            contract.bytes@,
            tokens_collected::call_data(
                data_service.bytes@,
                collection_id.bytes@,
                receiver.bytes@,
                payer.bytes@,
            ),
        ),
    ensures
        asks_for(call, contract, data_service, collection_id, receiver, payer),
{
    let data = selector() + argument_words(
        data_service.bytes@,
        collection_id.bytes@,
        receiver.bytes@,
        payer.bytes@,
    );
    assert(tokens_collected::call_data(
        data_service.bytes@,
        collection_id.bytes@,
        receiver.bytes@,
        payer.bytes@,
    ) =~= data);
    text_laws::law_prefixed_hex_shows(contract.bytes@);
    text_laws::law_prefixed_hex_shows(data);
}

/// The request asks for the tokens that the provider collected from the payer.
pub proof fn law_call_names_its_arguments(
    contract: Address,
    data_service: Address,
    collection_id: Bytes32,
    service_provider: Address,
    payer: Address,
    call: EthCall,
)
    requires
        call_ensures(
            tokens_collected::tokens_collected_call,
            (&contract, &data_service, &collection_id, &service_provider, &payer),
            call,
        ),
    ensures
        asks_for(call, contract, data_service, collection_id, service_provider, payer),
{
    lemma_asks(call, contract, data_service, collection_id, service_provider, payer);
}

/// The call data is the selector of the getter, or the first four bytes of another digest, and
/// then the four words.
pub proof fn law_call_data_is_selector_and_words(
    digest: Bytes32,
    data_service: Address,
    collection_id: Bytes32,
    receiver: Address,
    payer: Address,
    under: Vec<u8>,
    data: Vec<u8>,
)
    requires
        call_ensures(
            tokens_collected::encode_call,
            (&digest, &data_service, &collection_id, &receiver, &payer),
            under,
        ),
        call_ensures(
            tokens_collected::tokens_collected_call_data,
            (&data_service, &collection_id, &receiver, &payer),
            data,
        ),
    ensures
        under@ == digest.bytes@.take(4) + argument_words(
            data_service.bytes@,
            collection_id.bytes@,
            receiver.bytes@,
            payer.bytes@,
        ),
        data@ == selector() + argument_words(
            data_service.bytes@,
            collection_id.bytes@,
            receiver.bytes@,
            payer.bytes@,
        ),
{
    assert(tokens_collected::call_arguments(
        data_service.bytes@,
        collection_id.bytes@,
        receiver.bytes@,
        payer.bytes@,
    ) =~= argument_words(
        data_service.bytes@,
        collection_id.bytes@,
        receiver.bytes@,
        payer.bytes@,
    ));
}

/// Whether two errors say the same.
pub open spec fn same_error(a: TokensCollectedError, b: TokensCollectedError) -> bool {
    match a {
        TokensCollectedError::Unreachable { reason } => b matches TokensCollectedError::Unreachable {
            reason: r,
        } && r@ == reason@,
        TokensCollectedError::NotJson { reason } => b matches TokensCollectedError::NotJson {
            reason: r,
        } && r@ == reason@,
        TokensCollectedError::NoResult { reply } => b matches TokensCollectedError::NoResult {
            reply: r,
        } && r@ == reply@,
        TokensCollectedError::NotHex { reason } => b matches TokensCollectedError::NotHex {
            reason: r,
        } && r@ == reason@,
        TokensCollectedError::TooShort { bytes } => b matches TokensCollectedError::TooShort {
            bytes: n,
        } && n == bytes,
    }
}

/// Whether two readings come to the same.
pub open spec fn same_outcome(
    a: Result<u128, TokensCollectedError>,
    b: Result<u128, TokensCollectedError>,
) -> bool {
    match a {
        Ok(v) => b is Ok && b->Ok_0 == v,
        Err(e) => b is Err && same_error(e, b->Err_0),
    }
}

/// A reply is read as the text under `result`; without one the whole reply is kept, and of what
/// is no JSON the reason.
pub proof fn law_reply_is_read(
    body: &[u8],
    reply: Result<(Option<String>, String), String>,
    result: &str,
    r: Result<u128, TokensCollectedError>,
    m: Result<u128, TokensCollectedError>,
    q: Result<u128, TokensCollectedError>,
)
    requires
        call_ensures(tokens_collected::read_reply, (body,), r),
        call_ensures(tokens_collected::read_member, (reply,), m),
        call_ensures(tokens_collected::decode_result, (result,), q),
        reply matches Ok((Some(text), _)) ==> result@ == text@,
    ensures
        match reply {
            Err(why) => m matches Err(TokensCollectedError::NotJson { reason }) && reason@ == why@,
            Ok((None, all)) => m matches Err(TokensCollectedError::NoResult { reply: kept }) && kept@
                == all@,
            Ok((Some(_), _)) => same_outcome(m, q),
        },
        tokens_collected::json_reply(body@, "result"@) == (match reply {
            Err(why) => Err(why@),
            Ok((None, all)) => Ok((None, all@)),
            Ok((Some(text), all)) => Ok((Some(text@), all@)),
        }) ==> same_outcome(r, m),
{
}

/// A run starts with the receipts of its payer.
pub proof fn law_run_starts_with_rows(payer_hex: &str, r: (RunState, RunAction), rows: Statement)
    requires
        call_ensures(payer_run::start, (payer_hex,), r),
        call_ensures(receipts::fetch_by_payer, (payer_hex,), rows),
    ensures
        r.0 is Rows,
        r.1 matches RunAction::FetchRows(s) && s.sql@ == rows.sql@ && s.binds@.len() == 1
            && holds_text(s.binds@[0], payer_hex@),
{
    lemma_binds(r.1->FetchRows_0.binds@);
}

/// A run without rows is over. With rows it goes on with a batch of all of them, and asks for the
/// collection of its payer with the plan's provider and data service; where the stored payer is
/// no address it ends with that text.
pub proof fn law_run_takes_up_rows(
    plan: AggregatorPlan,
    payer_hex: &str,
    rows: Vec<RawReceipt>,
    payer: Option<Address>,
    r: (RunState, RunAction),
)
    requires
        call_ensures(payer_run::step, (&plan, payer_hex, RunState::Rows, RunEvent::Rows(rows)), r),
        call_ensures(Address::parse, (payer_hex,), payer),
    ensures
        rows@.len() == 0 ==> r.0 is Finished && (r.1 matches RunAction::Finish(Ok(_))),
        rows@.len() > 0 && payer is None ==> r.0 is Finished && (r.1 matches RunAction::Finish(
            Err(PayerError::InvalidPayer { payer_hex: p }),
        ) && p@ == payer_hex@),
        rows@.len() > 0 && payer is Some ==> {
            &&& r.0 matches RunState::Collection { batch }
            &&& batch.payer.bytes@ == payer->0.bytes@
            &&& are_of_rows(batch.receipts@, rows@, plan.service_provider, plan.data_service)
            &&& r.1 matches RunAction::DeriveCollection {
                payer: p,
                service_provider,
                data_service,
            }
            &&& p.bytes@ == payer->0.bytes@
            &&& service_provider.bytes@ == plan.service_provider.bytes@
            &&& data_service.bytes@ == plan.data_service.bytes@
        },
{
    if rows@.len() > 0 && payer is Some {
        lemma_rebuilt(
            r.0->Collection_batch.receipts@,
            rows@,
            plan.service_provider,
            plan.data_service,
        );
    }
}

/// The stored floor is asked for under the collection that was derived, and the batch is kept.
pub proof fn law_run_asks_for_stored_floor(
    plan: AggregatorPlan,
    payer_hex: &str,
    batch: PayerBatch,
    collection_id: Bytes32,
    r: (RunState, RunAction),
)
    requires
        call_ensures(
            payer_run::step,
            (
                &plan,
                payer_hex,
                RunState::Collection { batch },
                RunEvent::Collection(collection_id),
            ),
            r,
        ),
    ensures
        r.0 matches RunState::LocalFloor { batch: b, collection_id: c } && b == batch && c.bytes@
            == collection_id.bytes@,
        r.1 matches RunAction::FetchFloor(s) && asks_value(s) && holds_shown(
            s.binds@[0],
            collection_id.bytes@,
        ),
{
    let s = r.1->FetchFloor_0;
    lemma_binds(s.binds@);
    text_laws::law_prefixed_hex_shows(collection_id.bytes@);
}

/// Whether a run posts the batch, on top of the larger of the two floors, to the plan's endpoint.
pub open spec fn posts_batch(
    r: (RunState, RunAction),
    plan: AggregatorPlan,
    batch: PayerBatch,
    local: u128,
    on_chain: u128,
) -> bool {
    &&& r.0 is Answer
    &&& r.1 matches RunAction::Post { endpoint, request, local_floor, on_chain_floor, .. }
    &&& endpoint@ == plan.endpoint@
    &&& request.service_provider.bytes@ == plan.service_provider.bytes@
    &&& request.payer is Some
    &&& request.payer->0.bytes@ == batch.payer.bytes@
    &&& request.receipts@ == batch.receipts@
    &&& request.previous_rav_value >= local
    &&& request.previous_rav_value >= on_chain
    &&& request.previous_rav_value == local || request.previous_rav_value == on_chain
    &&& local_floor == local
    &&& on_chain_floor == on_chain
}

/// Once the stored floor is read, the plan's endpoint is asked for the tokens that the plan's
/// provider collected from the batch's payer, under the plan's data service and the run's
/// collection. Without an endpoint the batch is posted on top of the stored floor.
pub proof fn law_run_asks_chain(
    plan: AggregatorPlan,
    payer_hex: &str,
    batch: PayerBatch,
    collection_id: Bytes32,
    stored: Option<Option<String>>,
    text: Option<&str>,
    floor: u128,
    r: (RunState, RunAction),
)
    requires
        call_ensures(
            payer_run::step,
            (
                &plan,
                payer_hex,
                RunState::LocalFloor { batch, collection_id },
                RunEvent::LocalFloor(stored),
            ),
            r,
        ),
        match stored {
            Some(Some(s)) => text is Some && text->0@ == s@,
            _ => text is None,
        },
        call_ensures(receipts::rav_floor, (text,), floor),
    ensures
        plan.rpc_url matches Some(rpc_url) ==> {
            &&& r.0 matches RunState::ChainFloor { batch: b, local_floor }
            &&& b == batch
            &&& local_floor == floor
            &&& r.1 matches RunAction::AskChain { url, call }
            &&& url@ == rpc_url@
            &&& asks_for(
                call,
                plan.tally_collector,
                plan.data_service,
                collection_id,
                plan.service_provider,
                batch.payer,
            )
        },
        plan.rpc_url is None ==> posts_batch(r, plan, batch, floor, 0) && (r.1 matches RunAction::Post {
            chain_error,
            ..
        } && chain_error is None),
{
    if plan.rpc_url is Some {
        lemma_asks(
            r.1->call,
            plan.tally_collector,
            plan.data_service,
            collection_id,
            plan.service_provider,
            batch.payer,
        );
    }
}

/// Once the chain has answered, the batch is posted on top of the larger floor. Where there is
/// no reply, or none with an amount, the on-chain floor counts as zero and the error is told.
pub proof fn law_run_posts_on_larger_floor(
    plan: AggregatorPlan,
    payer_hex: &str,
    batch: PayerBatch,
    local: u128,
    reply: Result<Vec<u8>, String>,
    body: &[u8],
    tokens: Result<u128, TokensCollectedError>,
    r: (RunState, RunAction),
)
    requires
        call_ensures(
            payer_run::step,
            (
                &plan,
                payer_hex,
                RunState::ChainFloor { batch, local_floor: local },
                RunEvent::ChainReply(reply),
            ),
            r,
        ),
        reply matches Ok(bytes) ==> body@ == bytes@,
        call_ensures(tokens_collected::read_reply, (body,), tokens),
    ensures
        match reply {
            Err(why) => posts_batch(r, plan, batch, local, 0) && (r.1 matches RunAction::Post {
                chain_error,
                ..
            } && (chain_error matches Some(TokensCollectedError::Unreachable { reason }) && reason@
                == why@)),
            Ok(_) => match tokens {
                Ok(v) => posts_batch(r, plan, batch, local, v) && (r.1 matches RunAction::Post {
                    chain_error,
                    ..
                } && chain_error is None),
                Err(e) => posts_batch(r, plan, batch, local, 0) && (r.1 matches RunAction::Post {
                    chain_error,
                    ..
                } && chain_error is Some && same_error(e, chain_error->0)),
            },
        },
{
}

/// A voucher is read after a status from 200 to 299, and a refusal after any other one. The
/// refusal ends the run with the gateway's status and text.
pub proof fn law_run_reads_voucher_after_success(
    plan: AggregatorPlan,
    payer_hex: &str,
    status: u16,
    r: (RunState, RunAction),
    said: String,
    text: String,
    q: (RunState, RunAction),
)
    requires
        call_ensures(payer_run::step, (&plan, payer_hex, RunState::Answer, RunEvent::Status(status)), r),
        call_ensures(
            payer_run::step,
            (&plan, payer_hex, RunState::Refusal, RunEvent::Refusal { status: said, text }),
            q,
        ),
    ensures
        r.1 is ReadVoucher <==> 200 <= status <= 299,
        r.0 is Voucher <==> 200 <= status <= 299,
        r.1 is ReadRefusal <==> status < 200 || status > 299,
        r.0 is Refusal <==> status < 200 || status > 299,
        q.0 is Finished,
        q.1 matches RunAction::Finish(Err(PayerError::Refused { status: s, text: t })) && s@
            == said@ && t@ == text@,
{
}

/// The voucher that came back is stored with all that makes it redeemable; once it is, the
/// receipts of its payer up to its timestamp are deleted; and then the run is over.
pub proof fn law_run_stores_then_prunes(
    plan: AggregatorPlan,
    payer_hex: &str,
    voucher: SignedRav,
    now_secs: u64,
    r: (RunState, RunAction),
    q: (RunState, RunAction),
    p: (RunState, RunAction),
)
    requires
        call_ensures(
            payer_run::step,
            (&plan, payer_hex, RunState::Voucher, RunEvent::Voucher(voucher, now_secs)),
            r,
        ),
        call_ensures(payer_run::step, (&plan, payer_hex, r.0, RunEvent::Stored), q),
        call_ensures(payer_run::step, (&plan, payer_hex, q.0, RunEvent::Pruned), p),
    ensures
        r.1 matches RunAction::Store(s) && stores_voucher(s) && binds_voucher(
            s.binds@,
            voucher,
            now_secs,
        ),
        q.1 matches RunAction::Prune(s) && deletes(s) && holds_shown(
            s.binds@[0],
            voucher.rav.payer.bytes@,
        ) && holds_int(s.binds@[1], signed(voucher.rav.timestamp_ns)),
        p.0 is Finished,
        p.1 matches RunAction::Finish(Ok(_)),
{
    lemma_voucher_is_shown(voucher, now_secs);
    let (store, prune) = (r.1->Store_0, q.1->Prune_0);
    lemma_binds(store.binds@);
    lemma_binds(prune.binds@);
}

/// A failure of the database, of the gateway or of its voucher ends the run with the reason; one
/// to reach the gateway names the endpoint too.
pub proof fn law_run_fails_with_reason(
    plan: AggregatorPlan,
    payer_hex: &str,
    state: RunState,
    why: String,
    r: (RunState, RunAction),
)
    requires
        state is Rows || state is Answer || state is Voucher || state is Stored || state is Pruned,
        call_ensures(payer_run::step, (&plan, payer_hex, state, RunEvent::Failed(why)), r),
    ensures
        r.0 is Finished,
        state is Answer ==> (r.1 matches RunAction::Finish(
            Err(PayerError::Unreachable { endpoint, reason }),
        ) && endpoint@ == plan.endpoint@ && reason@ == why@),
        !(state is Answer) ==> (r.1 matches RunAction::Finish(Err(PayerError::Failed { reason }))
            && reason@ == why@),
{
}

} // verus!
