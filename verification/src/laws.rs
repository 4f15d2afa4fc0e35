//! What holds across the parts of the library: of vouchers over several rounds, of what is
//! stored and read back, and of whole runs.
use vstd::prelude::*;

use crate::aggregate;
use crate::aggregate::{AggregateRequest, RavTerms};
use crate::config;
use crate::config::U128Helper;
use crate::decimal;
use crate::payer_run;
use crate::payer_run::{RunAction, RunEvent, RunState};
use crate::primitives;
use crate::primitives::Address;
use crate::receipts;
use crate::receipts::{BindView, RavRow, RawReceipt};
use crate::seahorn;
use crate::seahorn::{ProxyAction, ProxyEvent, ProxyState, RawHeader};
use crate::tap::{SignedRav, SignedReceipt, SignedReceiptView, ValidatedReceipt};
use crate::tap_aggregator;
use crate::tap_aggregator::{AggregatorPlan, PayerBatch, RavUpdate};
use crate::text;
use crate::tokens_collected;

verus! {

/// The value that receipts come to on top of a floor.
pub open spec fn voucher_value(floor: u128, batch: Seq<SignedReceipt>) -> u128 {
    primitives::saturated(floor as nat + aggregate::total_value(batch))
}

/// A voucher is never worth less than the stored one nor than what has been collected
/// on-chain, and it is worth more than both where the receipts are worth anything and the
/// sum fits 128 bits.
pub proof fn law_voucher_never_falls(
    local: Option<u128>,
    on_chain: Option<u128>,
    batch: Seq<SignedReceipt>,
)
    ensures
        ({
            let floor = tap_aggregator::floor_value(local, on_chain);
            let value = voucher_value(floor, batch);
            &&& value >= tap_aggregator::or_zero(local)
            &&& value >= tap_aggregator::or_zero(on_chain)
            &&& aggregate::total_value(batch) > 0 && floor + aggregate::total_value(batch)
                <= u128::MAX ==> value > tap_aggregator::or_zero(local) && value
                > tap_aggregator::or_zero(on_chain)
        }),
{
}

/// Without a floor, a voucher is worth the sum of all its receipts, where the sum fits 128 bits.
pub proof fn law_value_is_sum_without_floor(batch: Seq<SignedReceipt>)
    ensures
        aggregate::total_value(batch) <= u128::MAX ==> voucher_value(0, batch)
            == aggregate::total_value(batch),
{
}

/// Aggregating in two rounds, the second on top of the first one's value, comes to what one
/// round over all receipts comes to: pruning between rounds loses nothing.
pub proof fn law_rounds_accumulate(floor: u128, first: Seq<SignedReceipt>, second: Seq<SignedReceipt>)
    ensures
        voucher_value(voucher_value(floor, first), second) == voucher_value(floor, first + second),
{
    lemma_total_of_concat(first, second);
}

proof fn lemma_total_of_concat(a: Seq<SignedReceipt>, b: Seq<SignedReceipt>)
    ensures
        aggregate::total_value(a + b) == aggregate::total_value(a) + aggregate::total_value(b),
    decreases b.len(),
{
    if b.len() == 0 {
        assert(a + b =~= a);
    } else {
        lemma_total_of_concat(a, b.drop_last());
        assert((a + b).drop_last() =~= a + b.drop_last());
        assert((a + b).last() == b.last());
    }
}

/// The order of the receipts in a batch matters neither to the value of the voucher nor to
/// its timestamp.
pub proof fn law_order_is_irrelevant(
    floor: u128,
    timestamp_ns: u64,
    a: Seq<SignedReceipt>,
    b: Seq<SignedReceipt>,
)
    requires
        a.to_multiset() == b.to_multiset(),
    ensures
        voucher_value(floor, a) == voucher_value(floor, b),
        aggregate::is_latest(timestamp_ns, a) == aggregate::is_latest(timestamp_ns, b),
{
    lemma_total_of_permutation(a, b);
    if aggregate::is_latest(timestamp_ns, a) {
        lemma_latest_of_permutation(timestamp_ns, a, b);
    }
    if aggregate::is_latest(timestamp_ns, b) {
        lemma_latest_of_permutation(timestamp_ns, b, a);
    }
}

proof fn lemma_total_of_permutation(a: Seq<SignedReceipt>, b: Seq<SignedReceipt>)
    requires
        a.to_multiset() == b.to_multiset(),
    ensures
        aggregate::total_value(a) == aggregate::total_value(b),
    decreases a.len(),
{
    broadcast use vstd::seq_lib::group_to_multiset_ensures;

    assert(a.len() == a.to_multiset().len() && b.len() == b.to_multiset().len());
    if a.len() > 0 {
        let x = a.last();
        assert(a.contains(a[a.len() - 1]));
        assert(b.to_multiset().count(x) > 0);
        assert(b.contains(x));
        let j = choose|j: int| 0 <= j < b.len() && b[j] == x;
        let before = b.take(j);
        let after = b.skip(j + 1);
        assert(b =~= before + seq![x] + after);
        assert(b.remove(j) =~= before + after);
        assert(a.drop_last() =~= a.remove(a.len() - 1));
        assert(a.drop_last().to_multiset() =~= b.remove(j).to_multiset());
        lemma_total_of_permutation(a.drop_last(), b.remove(j));
        lemma_total_of_concat(before, after);
        lemma_total_of_concat(before, seq![x]);
        lemma_total_of_concat(before + seq![x], after);
        assert(seq![x].drop_last() =~= Seq::<SignedReceipt>::empty());
        assert(aggregate::total_value(seq![x].drop_last()) == 0);
        assert(aggregate::total_value(seq![x]) == x.receipt.value);
    }
}

proof fn lemma_latest_of_permutation(t: u64, a: Seq<SignedReceipt>, b: Seq<SignedReceipt>)
    requires
        a.to_multiset() == b.to_multiset(),
        aggregate::is_latest(t, a),
    ensures
        aggregate::is_latest(t, b),
{
    broadcast use vstd::seq_lib::group_to_multiset_ensures;

    assert forall|i: int| 0 <= i < b.len() implies (#[trigger] b[i]).receipt.timestamp_ns <= t by {
        assert(b.contains(b[i]));
        assert(a.to_multiset().count(b[i]) > 0);
        assert(a.contains(b[i]));
    }
    let k = choose|k: int| 0 <= k < a.len() && (#[trigger] a[k]).receipt.timestamp_ns == t;
    assert(a.contains(a[k]));
    assert(b.to_multiset().count(a[k]) > 0);
    assert(b.contains(a[k]));
}

/// Whether a row holds what was bound when a receipt was stored.
pub open spec fn row_holds(row: RawReceipt, values: Seq<BindView>) -> bool {
    &&& values.len() == 9
    &&& values[1] == BindView::Text(row.payer_address@)
    &&& values[3] == BindView::Int(row.timestamp_ns)
    &&& values[4] == BindView::Int(row.nonce)
    &&& values[5] == BindView::Text(row.value@)
    &&& values[6] == BindView::Text(row.signature@)
    &&& values[7] == BindView::Bytes(row.metadata@)
}

/// A stored receipt is rebuilt exactly as it was signed, provided that it is for the
/// service's own provider and data service.
pub proof fn law_stored_receipt_is_rebuilt(
    chain_id: u64,
    validated: ValidatedReceipt,
    row: RawReceipt,
)
    requires
        row_holds(row, receipts::insert_values(chain_id, validated)),
    ensures
        tap_aggregator::rebuilt(
            row,
            validated.receipt.service_provider@,
            validated.receipt.data_service@,
        ) == (SignedReceiptView { receipt: validated.receipt@, signature: validated.signature@ }),
        primitives::parsed_address(row.payer_address@) == Some(validated.payer@),
{
    let t = validated.receipt.timestamp_ns;
    let n = validated.receipt.nonce;
    assert((t as i64) as u64 == t) by (bit_vector);
    assert((n as i64) as u64 == n) by (bit_vector);
    decimal::law_decimal_round_trip(validated.receipt.value);
    primitives::law_address_round_trip(validated.payer);
}

/// The floor that is read after a voucher has been stored is the voucher's value, and the
/// next floor is no smaller, whatever the chain says.
pub proof fn law_stored_value_is_next_floor(
    update: RavUpdate,
    signed: SignedRav,
    now_secs: u64,
    on_chain: Option<u128>,
)
    requires
        tap_aggregator::stores(update, signed, now_secs),
    ensures
        receipts::floor_of(Some(update.value_aggregate@)) == signed.rav.value_aggregate,
        tap_aggregator::floor_value(
            Some(receipts::floor_of(Some(update.value_aggregate@))),
            on_chain,
        ) >= signed.rav.value_aggregate,
{
    decimal::law_decimal_round_trip(signed.rav.value_aggregate);
}

/// Where the text that is read for a collection is the one that was bound when its voucher was
/// stored, the floor is the voucher's value, for every value. Where nothing is stored, it is
/// zero.
pub proof fn law_bound_value_is_floor(rav: RavRow<'_>, value: u128, stored: Seq<char>)
    requires
        rav.value_aggregate@ == decimal::decimal(value as nat),
        receipts::upsert_values(rav)[5] == BindView::Text(stored),
    ensures
        receipts::floor_of(Some(stored)) == value,
        receipts::floor_of(None) == 0,
{
    decimal::law_decimal_round_trip(value);
}

/// Two collections have different keys.
pub proof fn law_collection_keys_differ(a: Seq<u8>, b: Seq<u8>)
    requires
        primitives::prefixed_hex(a) == primitives::prefixed_hex(b),
    ensures
        a == b,
{
    primitives::law_hex_round_trip(a);
    primitives::law_hex_round_trip(b);
    assert(primitives::prefixed_hex(a).skip(2) =~= primitives::hex_lower(a));
    assert(primitives::prefixed_hex(b).skip(2) =~= primitives::hex_lower(b));
}

/// Whether pruning after a stored voucher deletes a row: it is the payer's, and no later
/// than the voucher.
pub open spec fn covers(update: RavUpdate, row: RawReceipt) -> bool {
    row.payer_address@ == update.payer_address@ && row.timestamp_ns <= update.timestamp_ns
}

/// The sum of the values that rows hold.
pub open spec fn rows_value(rows: Seq<RawReceipt>) -> nat
    decreases rows.len(),
{
    if rows.len() == 0 {
        0
    } else {
        rows_value(rows.drop_last()) + decimal::parsed_or_zero(rows.last().value@) as nat
    }
}

proof fn lemma_total_of_rows(
    batch: Seq<SignedReceipt>,
    rows: Seq<RawReceipt>,
    service_provider: Seq<u8>,
    data_service: Seq<u8>,
)
    requires
        tap_aggregator::rebuilds(batch, rows, service_provider, data_service),
    ensures
        aggregate::total_value(batch) == rows_value(rows),
    decreases rows.len(),
{
    if rows.len() > 0 {
        let n = rows.len() - 1;
        assert(batch[n]@.receipt.value == decimal::parsed_or_zero(rows[n].value@));
        assert forall|i: int| 0 <= i < n implies (#[trigger] batch.drop_last()[i])@
            == tap_aggregator::rebuilt(rows.drop_last()[i], service_provider, data_service) by {
            assert(batch[i]@ == tap_aggregator::rebuilt(rows[i], service_provider, data_service));
        }
        lemma_total_of_rows(batch.drop_last(), rows.drop_last(), service_provider, data_service);
    }
}

/// Whether the stored timestamps sort as the receipts' own do: all are below 2^63, or none.
/// A timestamp from 2^63 on is stored as a negative number.
pub open spec fn sorts_alike(rows: Seq<RawReceipt>) -> bool {
    forall|i: int, j: int|
        0 <= i < rows.len() && 0 <= j < rows.len() ==> ((#[trigger] rows[i]).timestamp_ns < 0
            <==> (#[trigger] rows[j]).timestamp_ns < 0)
}

/// A cycle counts each row once. Where the rows of a payer are sent, and the voucher that
/// comes back is the gateway's over that batch, then the stored value is the floor plus the
/// values of the rows (held at 128 bits), and pruning deletes every row that was counted, so
/// that no later cycle counts it again. The latter holds of rows whose stored timestamps sort
/// as the receipts' own do.
pub proof fn law_cycle_deletes_what_it_counts(
    payer: Address,
    rows: Seq<RawReceipt>,
    data_service: Seq<u8>,
    request: AggregateRequest,
    signer: Address,
    terms: RavTerms,
    collection_id: Seq<u8>,
    signed: SignedRav,
    now_secs: u64,
    update: RavUpdate,
)
    requires
        forall|i: int|
            0 <= i < rows.len() ==> (#[trigger] rows[i]).payer_address@
                == primitives::prefixed_hex(payer@),
        tap_aggregator::rebuilds(request.receipts@, rows, request.service_provider@, data_service),
        request.payer == Some(payer),
        aggregate::sums_up(terms, request, signer),
        signed.rav@ == terms.voucher(collection_id),
        tap_aggregator::stores(update, signed, now_secs),
    ensures
        receipts::floor_of(Some(update.value_aggregate@)) == primitives::saturated(
            request.previous_rav_value as nat + rows_value(rows),
        ),
        sorts_alike(rows) ==> forall|i: int|
            0 <= i < rows.len() ==> covers(update, #[trigger] rows[i]),
{
    let batch = request.receipts@;
    let service_provider = request.service_provider@;
    assert(signed.rav@.payer == payer@);
    assert(signed.rav@.timestamp_ns == terms.timestamp_ns);
    assert(signed.rav@.value_aggregate == terms.value_aggregate);
    law_stored_value_is_next_floor(update, signed, now_secs, None);
    lemma_total_of_rows(batch, rows, service_provider, data_service);
    let t = signed.rav.timestamp_ns;
    let k = choose|k: int| 0 <= k < batch.len() && (#[trigger] batch[k]).receipt.timestamp_ns == t;
    assert(batch[k]@.receipt.timestamp_ns == rows[k].timestamp_ns as u64);
    let latest = rows[k].timestamp_ns;
    assert((latest as u64) as i64 == latest) by (bit_vector);
    if sorts_alike(rows) {
        assert forall|i: int| 0 <= i < rows.len() implies covers(update, #[trigger] rows[i]) by {
            assert(batch[i]@.receipt.timestamp_ns == rows[i].timestamp_ns as u64);
            assert(batch[i].receipt.timestamp_ns <= t);
            let own = rows[i].timestamp_ns;
            assert((own < 0 <==> latest < 0) && own as u64 <= latest as u64 ==> own <= latest)
                by (bit_vector);
        }
    }
}

/// The gateway finds nothing wrong with a batch that the service sends, as long as the
/// gateway itself signed every receipt: the service fills in one data service and one
/// service provider.
pub proof fn law_own_batch_is_accepted(
    request: AggregateRequest,
    recovered: Seq<Result<Address, String>>,
    signer: Address,
    rows: Seq<RawReceipt>,
    data_service: Seq<u8>,
    n: nat,
)
    requires
        n <= rows.len(),
        recovered.len() == rows.len(),
        tap_aggregator::rebuilds(
            request.receipts@,
            rows,
            request.service_provider@,
            data_service,
        ),
        forall|i: int|
            0 <= i < recovered.len() ==> ((#[trigger] recovered[i]) is Ok && recovered[i]->Ok_0@
                == signer@),
    ensures
        aggregate::batch_fault(request, recovered, signer, n) is None,
    decreases n,
{
    if n > 0 {
        law_own_batch_is_accepted(request, recovered, signer, rows, data_service, (n - 1) as nat);
        assert(request.receipts@[n - 1]@.receipt.data_service == data_service);
        assert(request.receipts@[n - 1]@.receipt.service_provider == request.service_provider@);
        assert(request.receipts@[0]@.receipt.data_service == data_service);
        assert(recovered[n - 1] is Ok);
    }
}

/// Whether the gateway signed receipt `i` of a batch, and the receipt is for the data service
/// of the first one and for the service provider of the request.
pub open spec fn is_own(
    request: AggregateRequest,
    recovered: Seq<Result<Address, String>>,
    signer: Address,
    i: int,
) -> bool {
    &&& recovered[i] is Ok
    &&& recovered[i]->Ok_0@ == signer@
    &&& aggregate::belongs(request, i)
}

/// Where the gateway finds nothing wrong with a batch, it signed every receipt itself, and all
/// are for one data service and for the service provider of the request.
pub proof fn law_accepted_batch_is_own(
    request: AggregateRequest,
    recovered: Seq<Result<Address, String>>,
    signer: Address,
    n: nat,
)
    requires
        n <= request.receipts@.len(),
        aggregate::signers_suffice(request, recovered.len()),
        aggregate::batch_fault(request, recovered, signer, n) is None,
    ensures
        n <= recovered.len(),
        forall|i: int| 0 <= i < n ==> #[trigger] is_own(request, recovered, signer, i),
    decreases n,
{
    if n > 0 {
        law_accepted_batch_is_own(request, recovered, signer, (n - 1) as nat);
        assert(is_own(request, recovered, signer, n - 1));
    }
}

/// One receipt that someone else signed, or whose signature does not recover, is enough to
/// have the whole batch refused.
pub proof fn law_foreign_receipt_refuses_batch(
    request: AggregateRequest,
    recovered: Seq<Result<Address, String>>,
    signer: Address,
    i: int,
    n: nat,
)
    requires
        0 <= i < n <= request.receipts@.len(),
        i < recovered.len(),
        aggregate::signers_suffice(request, recovered.len()),
        recovered[i] is Err || recovered[i]->Ok_0@ != signer@,
    ensures
        aggregate::batch_fault(request, recovered, signer, n) is Some,
    decreases n,
{
    if i < n - 1 {
        law_foreign_receipt_refuses_batch(request, recovered, signer, i, (n - 1) as nat);
    }
}

/// The 32-byte word that the contract returns is read as its number, and a number beyond
/// 128 bits as the largest of them.
pub proof fn law_word_is_read(word: Seq<u8>)
    requires
        word.len() == 32,
    ensures
        tokens_collected::result_amount(primitives::prefixed_hex(word)) == Ok::<
            u128,
            tokens_collected::TokensCollectedErrorView,
        >(primitives::saturated(primitives::big_endian(word))),
{
    primitives::law_hex_round_trip(word);
    let digits = primitives::hex_lower(word);
    let s = primitives::prefixed_hex(word);
    assert(s.skip(2) =~= digits);
    assert(primitives::hex_value(digits[1]) is Some);
    assert(digits[1] != 'x');
    assert(text::trim_start_pair(digits, '0', 'x') == digits);
    assert(text::trim_start_pair(s, '0', 'x') == text::trim_start_pair(digits, '0', 'x'));
    assert(word.take(32) =~= word);
}

/// An amount may be written as an integer or as quoted text: both are read alike.
pub proof fn law_amount_forms_agree(v: i64, quoted: String)
    requires
        v >= 0,
        quoted@ == decimal::decimal(v as nat),
    ensures
        config::amount(U128Helper::Int(v)) == config::amount(U128Helper::Str(quoted)),
{
    decimal::law_decimal_round_trip(v as u128);
}

/// How many steps a run still has at most.
pub open spec fn steps_left(state: RunState) -> nat {
    match state {
        RunState::Rows => 8,
        RunState::Collection { .. } => 7,
        RunState::LocalFloor { .. } => 6,
        RunState::ChainFloor { .. } => 5,
        RunState::Answer => 4,
        RunState::Voucher => 3,
        RunState::Refusal => 2,
        RunState::Stored { .. } => 2,
        RunState::Pruned => 1,
        RunState::Finished => 0,
    }
}

/// A run ends: every step brings it closer, and it is over exactly when it says so.
pub proof fn law_run_ends(
    plan: AggregatorPlan,
    payer_hex: Seq<char>,
    state: RunState,
    event: RunEvent,
    next: RunState,
    action: RunAction,
)
    requires
        payer_run::expects(state, event),
        payer_run::follows(plan, payer_hex, state, event, next, action),
    ensures
        steps_left(next) < steps_left(state),
        action is Finish <==> next == RunState::Finished,
{
}

/// Receipts are deleted only after the voucher that covers them has been stored: a run
/// prunes right after a store that succeeded, for the payer and up to the timestamp of the
/// very voucher that was stored.
pub proof fn law_prune_follows_store(
    plan: AggregatorPlan,
    payer_hex: Seq<char>,
    state: RunState,
    event: RunEvent,
    stored: RunState,
    store: RunAction,
    outcome: RunEvent,
    next: RunState,
    action: RunAction,
)
    requires
        payer_run::expects(state, event),
        payer_run::follows(plan, payer_hex, state, event, stored, store),
        payer_run::expects(stored, outcome),
        payer_run::follows(plan, payer_hex, stored, outcome, next, action),
        action is Prune,
    ensures
        outcome == RunEvent::Stored,
        event matches RunEvent::Voucher(signed, now_secs) && exists|update: RavUpdate|
            {
                &&& #[trigger] tap_aggregator::stores(update, signed, now_secs)
                &&& store matches RunAction::Store(s) && update.is_upsert(s)
                &&& action matches RunAction::Prune(s) && update.is_prune(s)
            },
{
    let update = stored->Stored_update;
    assert(event is Voucher);
    assert(tap_aggregator::stores(update, event->Voucher_0, event->Voucher_1));
}

/// The batch that a run carries from its rows to the gateway.
pub open spec fn carried(state: RunState) -> Option<PayerBatch> {
    match state {
        RunState::Collection { batch } => Some(batch),
        RunState::LocalFloor { batch, .. } => Some(batch),
        RunState::ChainFloor { batch, .. } => Some(batch),
        _ => None,
    }
}

/// A run posts the batch that it rebuilt from the rows, unchanged, for the payer whose rows
/// they are.
pub proof fn law_batch_is_kept(
    plan: AggregatorPlan,
    payer_hex: Seq<char>,
    state: RunState,
    event: RunEvent,
    next: RunState,
    action: RunAction,
)
    requires
        payer_run::expects(state, event),
        payer_run::follows(plan, payer_hex, state, event, next, action),
    ensures
        carried(state) is Some && carried(next) is Some ==> carried(next) == carried(state),
        carried(state) is None && carried(next) is Some ==> {
            let batch = carried(next)->0;
            &&& event matches RunEvent::Rows(rows)
            &&& primitives::parsed_address(payer_hex) == Some(batch.payer@)
            &&& tap_aggregator::rebuilds(
                batch.receipts@,
                rows@,
                plan.service_provider@,
                plan.data_service@,
            )
        },
        action matches RunAction::Post { request, .. } ==> carried(state) is Some
            && request.receipts == carried(state)->0.receipts && request.payer == Some(
            carried(state)->0.payer,
        ) && request.service_provider == plan.service_provider,
{
}

/// A run posts on top of a floor that is no smaller than the stored voucher's value nor than
/// the tokens collected on-chain, where either is known.
pub proof fn law_posted_floor_is_no_smaller(
    plan: AggregatorPlan,
    payer_hex: Seq<char>,
    state: RunState,
    event: RunEvent,
    next: RunState,
    action: RunAction,
)
    requires
        payer_run::expects(state, event),
        payer_run::follows(plan, payer_hex, state, event, next, action),
    ensures
        action matches RunAction::Post { request, .. } ==> {
            &&& event matches RunEvent::LocalFloor(stored) ==> request.previous_rav_value
                == payer_run::reported_floor(stored)
            &&& state matches RunState::ChainFloor { local_floor, .. }
                ==> request.previous_rav_value >= local_floor
            &&& event matches RunEvent::ChainReply(reply) ==> (payer_run::reported_tokens(
                reply,
            ) matches Ok(v) ==> request.previous_rav_value >= v)
        },
{
}

/// Where the chain gives no amount, because it was not reached or because its reply holds
/// none, the run goes on with the stored floor as it is.
pub proof fn law_chain_failure_keeps_local_floor(
    plan: AggregatorPlan,
    payer_hex: Seq<char>,
    batch: PayerBatch,
    local_floor: u128,
    reply: Result<Vec<u8>, String>,
    next: RunState,
    action: RunAction,
)
    requires
        payer_run::follows(
            plan,
            payer_hex,
            RunState::ChainFloor { batch, local_floor },
            RunEvent::ChainReply(reply),
            next,
            action,
        ),
        payer_run::reported_tokens(reply) is Err,
    ensures
        action matches RunAction::Post { request, chain_error, .. } && request.previous_rav_value
            == local_floor && request.receipts == batch.receipts && chain_error is Some,
{
}

/// How many steps a proxied query still has at most.
pub open spec fn proxy_steps_left(state: ProxyState) -> nat {
    match state {
        ProxyState::Receipt(_) => 4,
        ProxyState::Body(_, _) => 3,
        ProxyState::Upstream => 2,
        ProxyState::UpstreamBody { .. } => 1,
        ProxyState::Finished => 0,
    }
}

/// A query is answered: every step brings it closer to its answer, and it is over exactly
/// when it is answered.
pub proof fn law_query_is_answered(
    state: ProxyState,
    event: ProxyEvent,
    next: ProxyState,
    action: ProxyAction,
)
    requires
        seahorn::expects(state, event),
        seahorn::follows(state, event, next, action),
    ensures
        proxy_steps_left(next) < proxy_steps_left(state),
        action is Answer <==> next == ProxyState::Finished,
{
}

/// Nothing is sent to the provider without a signed receipt: the receipt that goes out is
/// the one that signing gave, with the query as it was taken up.
pub proof fn law_query_carries_receipt(
    state: ProxyState,
    event: ProxyEvent,
    waiting: ProxyState,
    reading: ProxyAction,
    outcome: ProxyEvent,
    next: ProxyState,
    action: ProxyAction,
)
    requires
        seahorn::expects(state, event),
        seahorn::follows(state, event, waiting, reading),
        seahorn::expects(waiting, outcome),
        seahorn::follows(waiting, outcome, next, action),
        action is Send,
    ensures
        action->receipt == event->Receipt_0->0,
        event == ProxyEvent::Receipt(Some(action->receipt)),
        state == ProxyState::Receipt(action->forward),
{
}

/// Only safe headers are passed on.
pub proof fn law_only_safe_headers_pass(headers: Seq<RawHeader>)
    ensures
        forall|i: int|
            0 <= i < seahorn::forwarded(headers).len() ==> seahorn::is_forwarded(
                (#[trigger] seahorn::forwarded(headers)[i]).0,
            ),
    decreases headers.len(),
{
    if headers.len() > 0 {
        law_only_safe_headers_pass(headers.drop_last());
        let before = seahorn::forwarded(headers.drop_last());
        assert forall|i: int| 0 <= i < seahorn::forwarded(headers).len() implies seahorn::is_forwarded(
            (#[trigger] seahorn::forwarded(headers)[i]).0,
        ) by {
            if i < before.len() {
                assert(seahorn::forwarded(headers)[i] == before[i]);
            }
        }
    }
}

/// A query goes to what follows `/solana` in its path, under the endpoint without slashes at
/// its end.
pub proof fn law_prefix_is_stripped(endpoint: Seq<char>, rest: Seq<char>, query: Option<Seq<char>>)
    ensures
        seahorn::target_of(endpoint, "/solana"@ + rest, query) == text::trim_end(endpoint, '/')
            + rest + match query {
            Some(q) => seq!['?'] + q,
            None => Seq::empty(),
        },
        text::trim_end(endpoint, '/').len() > 0 ==> text::trim_end(endpoint, '/').last() != '/',
{
    let path = "/solana"@ + rest;
    let lead = "/solana"@;
    assert(path.take(lead.len() as int) =~= lead);
    assert(path.skip(lead.len() as int) =~= rest);
    let base = text::trim_end(endpoint, '/') + rest;
    match query {
        Some(q) => {
            assert(base.push('?') + q =~= base + (seq!['?'] + q));
        },
        None => {
            assert(base =~= base + Seq::<char>::empty());
        },
    }
    lemma_trimmed(endpoint, '/');
}

proof fn lemma_trimmed(s: Seq<char>, c: char)
    ensures
        text::trim_end(s, c).len() > 0 ==> text::trim_end(s, c).last() != c,
    decreases s.len(),
{
    if s.len() > 0 && s.last() == c {
        lemma_trimmed(s.drop_last(), c);
    }
}

} // verus!
