//! Aggregation for one payer, step by step.
//!
//! A run asks for outside work by actions (a database statement, a question to the chain, a
//! request to the gateway) and takes the outcomes as events. A failed floor check is no
//! reason to stop: that floor then counts as zero. Any other failure ends the run.
use vstd::prelude::*;

use crate::aggregate::AggregateRequest;
use crate::primitives;
use crate::primitives::{Address, Bytes32};
use crate::receipts;
use crate::receipts::{BindView, RawReceipt, Statement};
use crate::tap::SignedRav;
use crate::tap_aggregator;
use crate::tap_aggregator::{AggregatorPlan, PayerBatch, PayerError, RavUpdate};
use crate::tokens_collected;
use crate::tokens_collected::{EthCall, TokensCollectedError, TokensCollectedErrorView};

verus! {

/// How far a run has come: what is waited for.
#[derive(Debug, Clone)]
pub enum RunState {
    /// The stored receipts of the payer.
    Rows,
    /// The identifier of the collection.
    Collection { batch: PayerBatch },
    /// The stored voucher's value.
    LocalFloor { batch: PayerBatch, collection_id: Bytes32 },
    /// The tokens collected on-chain.
    ChainFloor { batch: PayerBatch, local_floor: u128 },
    /// The status of the gateway's answer.
    Answer,
    /// The text of a refusal.
    Refusal,
    /// The voucher.
    Voucher,
    /// That the voucher is stored.
    Stored { update: RavUpdate },
    /// That the covered receipts are deleted.
    Pruned,
    /// Nothing.
    Finished,
}

/// What outside work has come to.
#[derive(Debug)]
pub enum RunEvent {
    Rows(Vec<RawReceipt>),
    Collection(Bytes32),
    /// The stored value, where a voucher is stored; `None` where reading it failed.
    LocalFloor(Option<Option<String>>),
    /// The body of the JSON-RPC reply, or why there is none.
    ChainReply(Result<Vec<u8>, String>),
    Status(u16),
    /// The status of a refusal, in words, and its text.
    Refusal { status: String, text: String },
    /// The voucher, and the seconds since the epoch.
    Voucher(SignedRav, u64),
    Stored,
    Pruned,
    /// The work failed.
    Failed(String),
}

/// What to do next.
#[derive(Debug)]
pub enum RunAction {
    FetchRows(Statement),
    /// Derive the collection of payer, service provider and data service.
    DeriveCollection { payer: Address, service_provider: Address, data_service: Address },
    FetchFloor(Statement),
    AskChain { url: String, call: EthCall },
    /// Post the request, which builds on the larger of the two floors. The error, where there
    /// is one, says why the on-chain floor could not be read.
    Post {
        endpoint: String,
        request: AggregateRequest,
        local_floor: u128,
        on_chain_floor: u128,
        chain_error: Option<TokensCollectedError>,
    },
    ReadRefusal,
    ReadVoucher,
    Store(Statement),
    Prune(Statement),
    /// The run is over.
    Finish(Result<(), PayerError>),
}

/// Whether `event` is what `state` waits for.
pub open spec fn expects(state: RunState, event: RunEvent) -> bool {
    match state {
        RunState::Rows => event is Rows || event is Failed,
        RunState::Collection { .. } => event is Collection,
        RunState::LocalFloor { .. } => event is LocalFloor,
        RunState::ChainFloor { .. } => event is ChainReply,
        RunState::Answer => event is Status || event is Failed,
        RunState::Refusal => event is Refusal,
        RunState::Voucher => event is Voucher || event is Failed,
        RunState::Stored { .. } => event is Stored || event is Failed,
        RunState::Pruned => event is Pruned || event is Failed,
        RunState::Finished => false,
    }
}

/// Whether the run ends with `outcome`.
pub open spec fn ends(next: RunState, action: RunAction, outcome: Result<(), PayerError>) -> bool {
    next == RunState::Finished && action == RunAction::Finish(outcome)
}

/// Whether the run posts `batch` on top of the larger of the two floors.
pub open spec fn posts(
    next: RunState,
    action: RunAction,
    plan: AggregatorPlan,
    batch: PayerBatch,
    local: u128,
    on_chain: Option<u128>,
    error: Option<TokensCollectedErrorView>,
) -> bool {
    &&& next == RunState::Answer
    &&& action matches RunAction::Post {
        endpoint,
        request,
        local_floor,
        on_chain_floor,
        chain_error,
    }
    &&& endpoint@ == plan.endpoint@
    &&& request.service_provider == plan.service_provider
    &&& request.payer == Some(batch.payer)
    &&& request.receipts == batch.receipts
    &&& request.previous_rav_value == tap_aggregator::floor_value(Some(local), on_chain)
    &&& local_floor == local
    &&& on_chain_floor == tap_aggregator::or_zero(on_chain)
    &&& error_view(chain_error) == error
}

/// What an error, where there is one, holds.
pub open spec fn error_view(error: Option<TokensCollectedError>) -> Option<
    TokensCollectedErrorView,
> {
    match error {
        Some(e) => Some(e@),
        None => None,
    }
}

/// The stored floor that an event reports; zero where it could not be read.
pub open spec fn reported_floor(stored: Option<Option<String>>) -> u128 {
    match stored {
        None => 0,
        Some(None) => receipts::floor_of(None),
        Some(Some(s)) => receipts::floor_of(Some(s@)),
    }
}

/// What the body of a JSON-RPC reply, or the failure to get one, says of the tokens collected.
pub open spec fn reported_tokens(reply: Result<Vec<u8>, String>) -> Result<
    u128,
    TokensCollectedErrorView,
> {
    match reply {
        Err(reason) => Err(TokensCollectedErrorView::Unreachable { reason: reason@ }),
        Ok(body) => tokens_collected::reply_amount(
            tokens_collected::json_reply(body@, "result"@),
        ),
    }
}

/// How the run goes on once the chain has been asked: on top of the larger floor.
pub open spec fn after_chain(
    next: RunState,
    action: RunAction,
    plan: AggregatorPlan,
    batch: PayerBatch,
    local_floor: u128,
    tokens: Result<u128, TokensCollectedErrorView>,
) -> bool {
    match tokens {
        Ok(v) => posts(next, action, plan, batch, local_floor, Some(v), None),
        Err(e) => posts(next, action, plan, batch, local_floor, None, Some(e)),
    }
}

/// Whether `(next, action)` is how a run goes on from `state` after `event`.
pub open spec fn follows(
    plan: AggregatorPlan,
    payer_hex: Seq<char>,
    state: RunState,
    event: RunEvent,
    next: RunState,
    action: RunAction,
) -> bool {
    match (state, event) {
        (RunState::Answer, RunEvent::Failed(reason)) => {
            &&& next == RunState::Finished
            &&& action matches RunAction::Finish(Err(PayerError::Unreachable { endpoint, reason: r }))
            &&& endpoint@ == plan.endpoint@
            &&& r == reason
        },
        (_, RunEvent::Failed(reason)) => ends(next, action, Err(PayerError::Failed { reason })),
        (RunState::Rows, RunEvent::Rows(rows)) => if rows@.len() == 0 {
            ends(next, action, Ok(()))
        } else {
            match primitives::parsed_address(payer_hex) {
                None => {
                    &&& next == RunState::Finished
                    &&& action matches RunAction::Finish(
                        Err(PayerError::InvalidPayer { payer_hex: p }),
                    )
                    &&& p@ == payer_hex
                },
                Some(payer) => {
                    &&& next matches RunState::Collection { batch }
                    &&& batch.payer@ == payer
                    &&& tap_aggregator::rebuilds(
                        batch.receipts@,
                        rows@,
                        plan.service_provider@,
                        plan.data_service@,
                    )
                    &&& action == RunAction::DeriveCollection {
                        payer: batch.payer,
                        service_provider: plan.service_provider,
                        data_service: plan.data_service,
                    }
                },
            }
        },
        (RunState::Collection { batch }, RunEvent::Collection(collection_id)) => {
            &&& next == RunState::LocalFloor { batch, collection_id }
            &&& action matches RunAction::FetchFloor(s)
            &&& s.sql@ == receipts::RAV_FLOOR@
            &&& receipts::bind_views(s.binds@) == seq![
                BindView::Text(primitives::prefixed_hex(collection_id@)),
            ]
        },
        (RunState::LocalFloor { batch, collection_id }, RunEvent::LocalFloor(stored)) => {
            match plan.rpc_url {
                None => posts(next, action, plan, batch, reported_floor(stored), None, None),
                Some(rpc_url) => {
                    &&& next == RunState::ChainFloor {
                        batch,
                        local_floor: reported_floor(stored),
                    }
                    &&& action matches RunAction::AskChain { url, call }
                    &&& url == rpc_url
                    &&& tokens_collected::asks(
                        call,
                        plan.tally_collector@,
                        tokens_collected::call_data(
                            plan.data_service@,
                            collection_id@,
                            plan.service_provider@,
                            batch.payer@,
                        ),
                    )
                },
            }
        },
        (RunState::ChainFloor { batch, local_floor }, RunEvent::ChainReply(reply)) => after_chain(
            next,
            action,
            plan,
            batch,
            local_floor,
            reported_tokens(reply),
        ),
        (RunState::Answer, RunEvent::Status(status)) => if 200 <= status < 300 {
            next == RunState::Voucher && action == RunAction::ReadVoucher
        } else {
            next == RunState::Refusal && action == RunAction::ReadRefusal
        },
        (RunState::Refusal, RunEvent::Refusal { status, text }) => ends(
            next,
            action,
            Err(PayerError::Refused { status, text }),
        ),
        (RunState::Voucher, RunEvent::Voucher(signed, now_secs)) => {
            &&& next matches RunState::Stored { update }
            &&& tap_aggregator::stores(update, signed, now_secs)
            &&& action matches RunAction::Store(s)
            &&& update.is_upsert(s)
        },
        (RunState::Stored { update }, RunEvent::Stored) => {
            &&& next == RunState::Pruned
            &&& action matches RunAction::Prune(s)
            &&& update.is_prune(s)
        },
        (RunState::Pruned, RunEvent::Pruned) => ends(next, action, Ok(())),
        _ => false,
    }
}

/// Takes up a payer: its stored receipts are fetched first.
pub fn start(payer_hex: &str) -> (r: (RunState, RunAction))
    ensures
        r.0 == RunState::Rows,
        r.1 matches RunAction::FetchRows(s) && s.sql@ == receipts::RECEIPTS_BY_PAYER@
            && receipts::bind_views(s.binds@) == seq![BindView::Text(payer_hex@)],
{
    (RunState::Rows, RunAction::FetchRows(receipts::fetch_by_payer(payer_hex)))
}

/// Ends a run.
fn finish(outcome: Result<(), PayerError>) -> (r: (RunState, RunAction))
    ensures
        ends(r.0, r.1, outcome),
{
    (RunState::Finished, RunAction::Finish(outcome))
}

/// Posts a batch on top of the larger floor.
fn post(
    plan: &AggregatorPlan,
    batch: PayerBatch,
    local_floor: u128,
    on_chain: Option<u128>,
    chain_error: Option<TokensCollectedError>,
) -> (r: (RunState, RunAction))
    ensures
        posts(r.0, r.1, *plan, batch, local_floor, on_chain, error_view(chain_error)),
{
    let floor = tap_aggregator::previous_rav_value(Some(local_floor), on_chain);
    let request = tap_aggregator::aggregate_request(batch, &plan.service_provider, floor);
    let on_chain_floor: u128 = match on_chain {
        Some(v) => v,
        None => 0,
    };
    (
        RunState::Answer,
        RunAction::Post {
            endpoint: plan.endpoint.clone(),
            request,
            local_floor,
            on_chain_floor,
            chain_error,
        },
    )
}

/// Goes on once the payer's rows are there.
fn on_rows(plan: &AggregatorPlan, payer_hex: &str, rows: Vec<RawReceipt>) -> (r: (
    RunState,
    RunAction,
))
    ensures
        follows(*plan, payer_hex@, RunState::Rows, RunEvent::Rows(rows), r.0, r.1),
{
    match tap_aggregator::prepare(&rows, payer_hex, &plan.service_provider, &plan.data_service) {
        Ok(None) => finish(Ok(())),
        Err(e) => finish(Err(e)),
        Ok(Some(batch)) => {
            let action = RunAction::DeriveCollection {
                payer: batch.payer,
                service_provider: plan.service_provider,
                data_service: plan.data_service,
            };
            (RunState::Collection { batch }, action)
        },
    }
}

/// Goes on once the stored floor has been read or not.
fn on_local_floor(
    plan: &AggregatorPlan,
    payer_hex: &str,
    batch: PayerBatch,
    collection_id: Bytes32,
    stored: Option<Option<String>>,
) -> (r: (RunState, RunAction))
    ensures
        follows(
            *plan,
            payer_hex@,
            RunState::LocalFloor { batch, collection_id },
            RunEvent::LocalFloor(stored),
            r.0,
            r.1,
        ),
{
    let local_floor: u128 = match &stored {
        None => 0,
        Some(None) => receipts::rav_floor(None),
        Some(Some(s)) => receipts::rav_floor(Some(s.as_str())),
    };
    match &plan.rpc_url {
        None => post(plan, batch, local_floor, None, None),
        Some(url) => {
            let call = tokens_collected::tokens_collected_call(
                &plan.tally_collector,
                &plan.data_service,
                &collection_id,
                &plan.service_provider,
                &batch.payer,
            );
            (
                RunState::ChainFloor { batch, local_floor },
                RunAction::AskChain { url: url.clone(), call },
            )
        },
    }
}

/// Goes on once the chain has answered or not.
fn on_chain_reply(
    plan: &AggregatorPlan,
    batch: PayerBatch,
    local_floor: u128,
    reply: Result<Vec<u8>, String>,
) -> (r: (RunState, RunAction))
    ensures
        after_chain(r.0, r.1, *plan, batch, local_floor, reported_tokens(reply)),
{
    let tokens = match reply {
        Ok(body) => tokens_collected::read_reply(body.as_slice()),
        Err(reason) => Err(TokensCollectedError::Unreachable { reason }),
    };
    match tokens {
        Ok(v) => post(plan, batch, local_floor, Some(v), None),
        Err(e) => post(plan, batch, local_floor, None, Some(e)),
    }
}

/// Goes on with a run after outside work.
pub fn step(plan: &AggregatorPlan, payer_hex: &str, state: RunState, event: RunEvent) -> (r: (
    RunState,
    RunAction,
))
    requires
        expects(state, event),
    ensures
        follows(*plan, payer_hex@, state, event, r.0, r.1),
{
    match (state, event) {
        (RunState::Answer, RunEvent::Failed(reason)) => finish(
            Err(PayerError::Unreachable { endpoint: plan.endpoint.clone(), reason }),
        ),
        (_, RunEvent::Failed(reason)) => finish(Err(PayerError::Failed { reason })),
        (RunState::Rows, RunEvent::Rows(rows)) => on_rows(plan, payer_hex, rows),
        (RunState::Collection { batch }, RunEvent::Collection(collection_id)) => {
            let key = tap_aggregator::collection_key(&collection_id);
            let statement = receipts::fetch_rav_floor(key.as_str());
            (RunState::LocalFloor { batch, collection_id }, RunAction::FetchFloor(statement))
        },
        (RunState::LocalFloor { batch, collection_id }, RunEvent::LocalFloor(stored)) => {
            on_local_floor(plan, payer_hex, batch, collection_id, stored)
        },
        (RunState::ChainFloor { batch, local_floor }, RunEvent::ChainReply(reply)) => {
            on_chain_reply(plan, batch, local_floor, reply)
        },
        (RunState::Answer, RunEvent::Status(status)) => {
            if tap_aggregator::accepted(status) {
                (RunState::Voucher, RunAction::ReadVoucher)
            } else {
                (RunState::Refusal, RunAction::ReadRefusal)
            }
        },
        (RunState::Refusal, RunEvent::Refusal { status, text }) => finish(
            Err(PayerError::Refused { status, text }),
        ),
        (RunState::Voucher, RunEvent::Voucher(signed, now_secs)) => {
            let update = tap_aggregator::rav_update(&signed, now_secs);
            let statement = update.upsert();
            (RunState::Stored { update }, RunAction::Store(statement))
        },
        (RunState::Stored { update }, RunEvent::Stored) => {
            (RunState::Pruned, RunAction::Prune(update.prune()))
        },
        (RunState::Pruned, RunEvent::Pruned) => finish(Ok(())),
        _ => finish(Err(PayerError::Failed { reason: "event out of turn".to_owned() })),
    }
}

} // verus!
