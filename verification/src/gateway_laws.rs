//! What the gateway's operations give, in the values that go in and come out.
use vstd::prelude::*;

use crate::aggregate;
use crate::aggregate::{AggregateError, AggregateRequest, AggregateResponse, RavTerms};
use crate::config;
use crate::config::{AmountError, SeahornConfig, U128Helper};
use crate::decimal;
use crate::decimal::DecimalError;
use crate::primitives;
use crate::primitives::{Address, Bytes32};
use crate::seahorn;
use crate::seahorn::{
    Forward, Header, ProxyAction, ProxyEvent, ProxyRequest, ProxyState, RawHeader, Reply,
};
use crate::tap::{Rav, SignedRav};
use crate::text;

verus! {

/// Whether receipt `i` is for the data service of the first one, byte for byte.
pub open spec fn same_service(request: AggregateRequest, i: int) -> bool {
    request.receipts@[i].receipt.data_service.bytes@
        == request.receipts@[0].receipt.data_service.bytes@
}

/// Whether receipt `i` is for the service provider of the request, byte for byte.
pub open spec fn same_provider(request: AggregateRequest, i: int) -> bool {
    request.receipts@[i].receipt.service_provider.bytes@ == request.service_provider.bytes@
}

/// Whether receipt `i` is for the request, and the gateway signed it.
pub open spec fn is_sound(
    request: AggregateRequest,
    recovered: Seq<Result<Address, String>>,
    signer: Address,
    i: int,
) -> bool {
    &&& same_service(request, i)
    &&& same_provider(request, i)
    &&& recovered[i] matches Ok(who) && who.bytes@ == signer.bytes@
}

/// Whether there is a signer for each receipt, or for each one before a receipt that is for
/// another data service or service provider.
pub open spec fn has_signers(request: AggregateRequest, count: nat) -> bool {
    ||| count == request.receipts@.len()
    ||| count < request.receipts@.len() && !(same_service(request, count as int) && same_provider(
        request,
        count as int,
    ))
}

/// Signers are needed for the receipts before the first one that is for another data service
/// or service provider.
pub proof fn law_signers_before_first_stray(request: AggregateRequest, count: usize)
    requires
        call_ensures(aggregate::signers_needed, (&request,), count),
    ensures
        has_signers(request, count as nat),
        forall|i: int|
            0 <= i < count ==> #[trigger] same_service(request, i) && same_provider(request, i),
{
    assert forall|i: int| 0 <= i < count implies #[trigger] same_service(request, i)
        && same_provider(request, i) by {
        assert(aggregate::belongs(request, i));
    }
}

proof fn lemma_sound_batch(
    request: AggregateRequest,
    recovered: Seq<Result<Address, String>>,
    signer: Address,
    n: nat,
)
    requires
        n <= request.receipts@.len(),
    ensures
        aggregate::batch_fault(request, recovered, signer, n) is None <==> forall|i: int|
            0 <= i < n ==> #[trigger] is_sound(request, recovered, signer, i),
    decreases n,
{
    if n > 0 {
        lemma_sound_batch(request, recovered, signer, (n - 1) as nat);
        let last = n - 1;
        assert(is_sound(request, recovered, signer, last) <==> aggregate::receipt_fault(
            request.receipts@[last],
            recovered[last],
            request.receipts@[0].receipt.data_service,
            request.service_provider,
            signer,
        ) is None);
        if aggregate::batch_fault(request, recovered, signer, n) is None {
            assert forall|i: int| 0 <= i < n implies #[trigger] is_sound(
                request,
                recovered,
                signer,
                i,
            ) by {
                if i == last {
                }
            }
        }
    }
}

/// A batch is accepted exactly where it has receipts, every one of them is for the data
/// service of the first and the service provider of the request, and the gateway signed it.
pub proof fn law_batch_is_accepted_exactly(
    request: AggregateRequest,
    recovered: Vec<Result<Address, String>>,
    signer: Address,
    r: Result<RavTerms, AggregateError>,
)
    requires
        has_signers(request, recovered@.len()),
        call_ensures(aggregate::aggregate, (&request, &recovered, &signer), r),
    ensures
        r is Ok <==> request.receipts@.len() > 0 && recovered@.len() == request.receipts@.len() && (
        forall|i: int|
            0 <= i < request.receipts@.len() ==> #[trigger] is_sound(
                request,
                recovered@,
                signer,
                i,
            )),
        request.receipts@.len() == 0 ==> r matches Err(AggregateError::EmptyBatch),
{
    lemma_sound_batch(request, recovered@, signer, request.receipts@.len());
    if recovered@.len() < request.receipts@.len() {
        assert(!is_sound(request, recovered@, signer, recovered@.len() as int));
    }
}

proof fn lemma_fault_of_first(
    request: AggregateRequest,
    recovered: Seq<Result<Address, String>>,
    signer: Address,
    k: nat,
    n: nat,
)
    requires
        k < n <= request.receipts@.len(),
        forall|i: int| 0 <= i < k ==> #[trigger] is_sound(request, recovered, signer, i),
        !is_sound(request, recovered, signer, k as int),
    ensures
        aggregate::batch_fault(request, recovered, signer, n) == aggregate::receipt_fault(
            request.receipts@[k as int],
            recovered[k as int],
            request.receipts@[0].receipt.data_service,
            request.service_provider,
            signer,
        ),
        aggregate::batch_fault(request, recovered, signer, n) is Some,
    decreases n,
{
    if k + 1 < n {
        lemma_fault_of_first(request, recovered, signer, k, (n - 1) as nat);
    } else {
        lemma_sound_batch(request, recovered, signer, k);
    }
}

/// A batch is refused for its first faulty receipt. Its data service is looked at first, then
/// its service provider, then its signature, then who signed it; the error names the two
/// addresses that differ, the reason, or the foreign signer.
pub proof fn law_first_fault_is_named(
    request: AggregateRequest,
    recovered: Vec<Result<Address, String>>,
    signer: Address,
    r: Result<RavTerms, AggregateError>,
    k: int,
)
    requires
        has_signers(request, recovered@.len()),
        call_ensures(aggregate::aggregate, (&request, &recovered, &signer), r),
        0 <= k < request.receipts@.len(),
        forall|i: int| 0 <= i < k ==> #[trigger] is_sound(request, recovered@, signer, i),
        !is_sound(request, recovered@, signer, k),
    ensures
        ({
            let receipt = request.receipts@[k].receipt;
            if !same_service(request, k) {
                r matches Err(AggregateError::MixedDataService { expected, got }) && expected.bytes@
                    == request.receipts@[0].receipt.data_service.bytes@ && got.bytes@
                    == receipt.data_service.bytes@
            } else if !same_provider(request, k) {
                r matches Err(AggregateError::ServiceProviderMismatch { expected, got })
                    && expected.bytes@ == request.service_provider.bytes@ && got.bytes@
                    == receipt.service_provider.bytes@
            } else {
                match recovered@[k] {
                    Err(why) => r matches Err(AggregateError::InvalidSignature { reason })
                        && reason@ == why@,
                    Ok(who) => r matches Err(AggregateError::ForeignSigner { signer: foreign })
                        && foreign.bytes@ == who.bytes@,
                }
            }
        }),
{
    lemma_fault_of_first(request, recovered@, signer, k as nat, request.receipts@.len());
}

/// The voucher to sign names the payer of the request, or the gateway where it names none;
/// the service provider of the request; the data service of every receipt; the collection
/// that was given; and the timestamp of the latest receipt. It carries no metadata.
pub proof fn law_voucher_names_its_parties(
    request: AggregateRequest,
    recovered: Vec<Result<Address, String>>,
    signer: Address,
    terms: RavTerms,
    collection_id: Bytes32,
    rav: Rav,
)
    requires
        has_signers(request, recovered@.len()),
        call_ensures(aggregate::aggregate, (&request, &recovered, &signer), Ok(terms)),
        call_ensures(RavTerms::rav, (&terms, collection_id), rav),
    ensures
        rav.collection_id.bytes@ == collection_id.bytes@,
        request.payer matches Some(payer) ==> rav.payer.bytes@ == payer.bytes@,
        request.payer is None ==> rav.payer.bytes@ == signer.bytes@,
        rav.service_provider.bytes@ == request.service_provider.bytes@,
        forall|i: int|
            0 <= i < request.receipts@.len() ==> {
                let receipt = (#[trigger] request.receipts@[i]).receipt;
                &&& rav.data_service.bytes@ == receipt.data_service.bytes@
                &&& rav.service_provider.bytes@ == receipt.service_provider.bytes@
                &&& rav.timestamp_ns >= receipt.timestamp_ns
            },
        exists|i: int|
            0 <= i < request.receipts@.len() && rav.timestamp_ns == (
            #[trigger] request.receipts@[i]).receipt.timestamp_ns,
        rav.value_aggregate == terms.value_aggregate,
        rav.metadata@.len() == 0,
{
    law_batch_is_accepted_exactly(request, recovered, signer, Ok(terms));
    assert forall|i: int| 0 <= i < request.receipts@.len() implies {
        let receipt = (#[trigger] request.receipts@[i]).receipt;
        &&& rav.data_service.bytes@ == receipt.data_service.bytes@
        &&& rav.service_provider.bytes@ == receipt.service_provider.bytes@
        &&& rav.timestamp_ns >= receipt.timestamp_ns
    } by {
        assert(is_sound(request, recovered@, signer, i));
    }
    assert(rav@.collection_id == collection_id.bytes@);
}

/// One more receipt in a batch adds its value, up to the largest 128-bit number.
pub proof fn law_each_receipt_adds_its_value(
    request: AggregateRequest,
    longer: AggregateRequest,
    recovered: Vec<Result<Address, String>>,
    more: Vec<Result<Address, String>>,
    signer: Address,
    terms: RavTerms,
    total: RavTerms,
)
    requires
        has_signers(request, recovered@.len()),
        has_signers(longer, more@.len()),
        longer.receipts@.len() == request.receipts@.len() + 1,
        longer.receipts@.drop_last() == request.receipts@,
        longer.previous_rav_value == request.previous_rav_value,
        call_ensures(aggregate::aggregate, (&request, &recovered, &signer), Ok(terms)),
        call_ensures(aggregate::aggregate, (&longer, &more, &signer), Ok(total)),
    ensures
        ({
            let sum = terms.value_aggregate + longer.receipts@.last().receipt.value;
            total.value_aggregate == if sum <= u128::MAX {
                sum
            } else {
                u128::MAX as int
            }
        }),
{
}

/// A single receipt is worth its value on top of the floor, up to the largest 128-bit number.
pub proof fn law_single_receipt_is_its_value(
    request: AggregateRequest,
    recovered: Vec<Result<Address, String>>,
    signer: Address,
    terms: RavTerms,
)
    requires
        request.receipts@.len() == 1,
        has_signers(request, recovered@.len()),
        call_ensures(aggregate::aggregate, (&request, &recovered, &signer), Ok(terms)),
    ensures
        ({
            let sum = request.previous_rav_value + request.receipts@[0].receipt.value;
            terms.value_aggregate == if sum <= u128::MAX {
                sum
            } else {
                u128::MAX as int
            }
        }),
{
    assert(request.receipts@.drop_last() =~= Seq::empty());
    assert(aggregate::total_value(request.receipts@.drop_last()) == 0);
}

/// The answer holds the voucher that signing gave, or says why there is none.
pub proof fn law_signed_voucher_is_answered(
    signed: Result<SignedRav, String>,
    r: Result<AggregateResponse, AggregateError>,
)
    requires
        call_ensures(aggregate::respond, (signed,), r),
    ensures
        signed matches Ok(rav) ==> r is Ok && r->Ok_0.signed_rav == rav,
        signed matches Err(why) ==> r matches Err(AggregateError::SigningFailed { reason })
            && reason@ == why@,
{
}

/// What a refused caller is told: what was expected before what was found, the reason, or the
/// foreign signer, after words that name the fault.
pub proof fn law_refusal_in_words(e: AggregateError, s: String)
    requires
        call_ensures(AggregateError::message, (&e,), s),
    ensures
        match e {
            AggregateError::EmptyBatch => s@ == "receipts batch is empty"@,
            AggregateError::MixedDataService { expected, got } => s@
                == "mixed data_service in batch: expected "@ + primitives::checksum_text(
                expected.bytes@,
            ) + ", got "@ + primitives::checksum_text(got.bytes@),
            AggregateError::ServiceProviderMismatch { expected, got } => s@
                == "receipt service_provider mismatch: expected "@ + primitives::checksum_text(
                expected.bytes@,
            ) + ", got "@ + primitives::checksum_text(got.bytes@),
            AggregateError::InvalidSignature { reason } => s@ == "invalid receipt signature: "@
                + reason@,
            AggregateError::ForeignSigner { signer } => s@
                == "receipt not signed by this gateway: signer="@ + primitives::checksum_text(
                signer.bytes@,
            ),
            AggregateError::SigningFailed { reason } => s@ == "RAV signing failed: "@ + reason@,
        },
{
}

/// Two texts are joined whole, one after the other, and what was expected comes before what was
/// found.
pub proof fn law_texts_are_joined(
    lead: &str,
    expected: &str,
    got: &str,
    joined: String,
    s: String,
)
    requires
        call_ensures(text::join, (lead, expected), joined),
        call_ensures(aggregate::mismatch_text, (lead, expected, got), s),
    ensures
        joined@ == lead@ + expected@,
        s@ == joined@ + ", got "@ + got@,
{
}

/// An integer amount is itself unless it is negative, and a quoted one is what its text reads as.
pub proof fn law_amount_is_read(
    value: U128Helper,
    s: &str,
    q: Result<u128, DecimalError>,
    r: Result<u128, AmountError>,
)
    requires
        call_ensures(config::deserialize_u128, (&value,), r),
        call_ensures(decimal::parse_u128, (s,), q),
        value matches U128Helper::Str(quoted) ==> quoted@ == s@,
    ensures
        match value {
            U128Helper::Int(v) => if v < 0 {
                r == Err::<u128, _>(AmountError::Negative)
            } else {
                r is Ok && r->Ok_0 == v
            },
            U128Helper::Str(_) => match q {
                Ok(v) => r == Ok::<_, AmountError>(v),
                Err(e) => r == Err::<u128, _>(AmountError::Text(e)),
            },
        },
{
}

/// The configuration file is the one that is named, whatever its name.
pub proof fn law_named_file_is_read(named: Option<String>, path: String)
    requires
        call_ensures(config::config_path, (named,), path),
    ensures
        named matches Some(name) ==> path@ == name@,
        named is None ==> path@ == "gateway.toml"@,
{
}

/// Whether a byte is a visible ASCII character, a space or a tab.
pub open spec fn is_text_byte(b: u8) -> bool {
    32 <= b <= 126 || b == 9
}

/// Whether bytes are visible ASCII.
pub open spec fn is_text(bytes: Seq<u8>) -> bool {
    forall|i: int| 0 <= i < bytes.len() ==> is_text_byte(#[trigger] bytes[i])
}

/// Whether a text holds the same codes as bytes, one for one.
pub open spec fn spells(text: Seq<char>, bytes: Seq<u8>) -> bool {
    &&& text.len() == bytes.len()
    &&& forall|i: int| 0 <= i < bytes.len() ==> text[i] as int == (#[trigger] bytes[i]) as int
}

proof fn lemma_visible(bytes: Seq<u8>)
    ensures
        seahorn::is_visible(bytes) <==> is_text(bytes),
        is_text(bytes) ==> spells(seahorn::ascii_text(bytes), bytes),
{
    if seahorn::is_visible(bytes) {
        assert forall|i: int| 0 <= i < bytes.len() implies is_text_byte(#[trigger] bytes[i]) by {
        }
    }
    if is_text(bytes) {
        assert forall|i: int| 0 <= i < bytes.len() implies (32 <= #[trigger] bytes[i] < 127
            || bytes[i] == 9) by {
            assert(is_text_byte(bytes[i]));
        }
        assert forall|i: int| 0 <= i < bytes.len() implies seahorn::ascii_text(bytes)[i] as int == (
        #[trigger] bytes[i]) as int by {
            assert(is_text_byte(bytes[i]));
        }
    }
}

/// A method made of letters, digits and the signs that a method may hold is kept, and anything
/// else is sent as `GET`.
pub proof fn law_method_is_kept(name: &str, method: String)
    requires
        call_ensures(seahorn::forward_method, (name,), method),
    ensures
        ({
            let known = name@.len() > 0 && forall|i: int|
                0 <= i < name@.len() ==> {
                    let c = #[trigger] name@[i];
                    ||| 'a' <= c && c <= 'z'
                    ||| 'A' <= c && c <= 'Z'
                    ||| '0' <= c && c <= '9'
                    ||| "!#$%&'*+-.^_`|~"@.contains(c)
                };
            method@ == if known {
                name@
            } else {
                "GET"@
            }
        }),
{
    reveal_strlit("!#$%&'*+-.^_`|~");
    let signs = "!#$%&'*+-.^_`|~"@;
    assert forall|i: int| 0 <= i < name@.len() implies (seahorn::is_method_char(#[trigger] name@[i])
        <==> {
        let c = name@[i];
        ||| 'a' <= c && c <= 'z'
        ||| 'A' <= c && c <= 'Z'
        ||| '0' <= c && c <= '9'
        ||| signs.contains(c)
    }) by {
        let c = name@[i];
        assert(signs[0] == '!' && signs[1] == '#' && signs[2] == '$' && signs[3] == '%' && signs[4]
            == '&' && signs[5] == '\'' && signs[6] == '*' && signs[7] == '+' && signs[8] == '-'
            && signs[9] == '.' && signs[10] == '^' && signs[11] == '_' && signs[12] == '`'
            && signs[13] == '|' && signs[14] == '~');
        if signs.contains(c) {
            let k = choose|k: int| 0 <= k < signs.len() && signs[k] == c;
            assert(k == 0 || k == 1 || k == 2 || k == 3 || k == 4 || k == 5 || k == 6 || k == 7 || k
                == 8 || k == 9 || k == 10 || k == 11 || k == 12 || k == 13 || k == 14);
        }
    }
}

/// The query that follows a target, after a question mark.
pub open spec fn query_part(query: Option<&str>) -> Seq<char> {
    match query {
        Some(q) => seq!['?'] + q@,
        None => Seq::empty(),
    }
}

/// A query goes to the endpoint, then the path without a leading `/solana`, then the query
/// after a question mark.
pub proof fn law_target_is_endpoint_path_query(
    endpoint: &str,
    path: &str,
    query: Option<&str>,
    rest: Seq<char>,
    target: String,
)
    requires
        call_ensures(seahorn::forward_target, (endpoint, path, query), target),
        endpoint@.len() == 0 || endpoint@.last() != '/',
    ensures
        path@ == "/solana"@ + rest ==> target@ == endpoint@ + rest + query_part(query),
        (forall|tail: Seq<char>| path@ != "/solana"@ + tail) ==> target@ == endpoint@ + path@
            + query_part(query),
{
    let lead = "/solana"@;
    let n = lead.len() as int;
    let suffix = text::without_prefix(path@, lead);
    let base = endpoint@ + suffix;
    assert(text::trim_end(endpoint@, '/') == endpoint@);
    match query {
        Some(q) => {
            assert(base.push('?') + q@ =~= base + (seq!['?'] + q@));
        },
        None => {
            assert(base =~= base + Seq::<char>::empty());
        },
    }
    if path@ == lead + rest {
        assert(path@.take(n) =~= lead);
        assert(path@.skip(n) =~= rest);
    }
    if forall|tail: Seq<char>| path@ != lead + tail {
        if text::starts_with(path@, lead) {
            assert(path@ =~= lead + path@.skip(n));
        }
    }
}

/// A slash at the end of the endpoint changes nothing.
pub proof fn law_slash_at_the_end_is_dropped(
    endpoint: &str,
    slashed: &str,
    path: &str,
    query: Option<&str>,
    target: String,
    same: String,
)
    requires
        slashed@ == endpoint@.push('/'),
        call_ensures(seahorn::forward_target, (endpoint, path, query), target),
        call_ensures(seahorn::forward_target, (slashed, path, query), same),
    ensures
        same@ == target@,
{
    assert(slashed@.drop_last() =~= endpoint@);
}

/// Whether a header is passed on: by its name, and as long as its value is text.
pub open spec fn passes(header: RawHeader) -> bool {
    &&& header.name@ == "content-type"@ || header.name@ == "accept"@ || header.name@
        == "accept-encoding"@ || header.name@ == "prefer"@
    &&& is_text(header.value@)
}

/// No header comes of none; and one more header comes out last, under its name and with its
/// value, where it is passed on, and leaves what comes out as it is where not.
pub proof fn law_each_header_passes_or_not(
    headers: Vec<RawHeader>,
    longer: Vec<RawHeader>,
    out: Vec<Header>,
    more: Vec<Header>,
)
    requires
        longer@.len() == headers@.len() + 1,
        longer@.drop_last() == headers@,
        call_ensures(seahorn::forward_headers, (&headers,), out),
        call_ensures(seahorn::forward_headers, (&longer,), more),
    ensures
        headers@.len() == 0 ==> out@.len() == 0,
        more@.len() == out@.len() + if passes(longer@.last()) {
            1int
        } else {
            0
        },
        forall|i: int|
            0 <= i < out@.len() ==> (#[trigger] more@[i]).name@ == out@[i].name@ && more@[i].value@
                == out@[i].value@,
        passes(longer@.last()) ==> more@.last().name@ == longer@.last().name@ && spells(
            more@.last().value@,
            longer@.last().value@,
        ),
{
    let h = longer@.last();
    lemma_visible(h.value@);
    let (a, b) = (seahorn::header_views(out@), seahorn::header_views(more@));
    assert(a.len() == out@.len() && b.len() == more@.len());
    assert forall|i: int| 0 <= i < out@.len() implies (#[trigger] more@[i]).name@ == out@[i].name@
        && more@[i].value@ == out@[i].value@ by {
        assert(b[i] == a[i]);
        assert(a[i] == (out@[i].name@, out@[i].value@));
        assert(b[i] == (more@[i].name@, more@[i].value@));
    }
    if passes(h) {
        let n = more@.len() - 1;
        assert(b[n] == (more@[n].name@, more@[n].value@));
    }
}

/// Without a provider a query is not found; with one, a receipt is asked for that is over the
/// configured price, for the configured provider and data service, and what is forwarded is
/// the method, the target and the headers of the query.
pub proof fn law_query_is_taken_up(
    seahorn: Option<&SeahornConfig>,
    request: ProxyRequest,
    r: (ProxyState, ProxyAction),
    name: &str,
    endpoint: &str,
    path: &str,
    query: Option<&str>,
    method: String,
    target: String,
    headers: Vec<Header>,
)
    requires
        call_ensures(seahorn::start, (seahorn, &request), r),
        name@ == request.method@,
        path@ == request.path@,
        seahorn matches Some(config) ==> endpoint@ == config.endpoint@,
        request.query matches Some(q) ==> query is Some && query->0@ == q@,
        request.query is None ==> query is None,
        call_ensures(seahorn::forward_method, (name,), method),
        call_ensures(seahorn::forward_target, (endpoint, path, query), target),
        call_ensures(seahorn::forward_headers, (&request.headers,), headers),
    ensures
        seahorn is None ==> {
            &&& r.0 is Finished
            &&& r.1 matches ProxyAction::Answer(Reply::Text(status, s))
            &&& status == 404
            &&& s@ == "Seahorn not configured"@
        },
        seahorn matches Some(config) ==> {
            &&& r.1 matches ProxyAction::Sign { data_service, service_provider, value }
            &&& data_service.bytes@ == config.data_service_address.bytes@
            &&& service_provider.bytes@ == config.service_provider.bytes@
            &&& value == config.price_grt_wei
        },
        seahorn is Some ==> {
            &&& r.0 matches ProxyState::Receipt(f)
            &&& f.method@ == method@
            &&& f.target@ == target@
            &&& f.headers@.len() == headers@.len()
            &&& forall|i: int|
                0 <= i < headers@.len() ==> (#[trigger] f.headers@[i]).name@ == headers@[i].name@
                    && f.headers@[i].value@ == headers@[i].value@
        },
{
    if seahorn is Some {
        let f = r.0->Receipt_0;
        let (a, b) = (seahorn::header_views(f.headers@), seahorn::header_views(headers@));
        assert(a.len() == f.headers@.len() && b.len() == headers@.len());
        assert forall|i: int| 0 <= i < headers@.len() implies (#[trigger] f.headers@[i]).name@
            == headers@[i].name@ && f.headers@[i].value@ == headers@[i].value@ by {
            assert(a[i] == (f.headers@[i].name@, f.headers@[i].value@));
            assert(b[i] == (headers@[i].name@, headers@[i].value@));
        }
    }
}

/// The signed receipt goes out as it came, with the query as it was taken up and the body as it
/// was read; an empty body is not sent.
pub proof fn law_query_is_sent(
    forward: Forward,
    receipt: String,
    body: Vec<u8>,
    r: (ProxyState, ProxyAction),
    q: (ProxyState, ProxyAction),
)
    requires
        call_ensures(
            seahorn::step,
            (ProxyState::Receipt(forward), ProxyEvent::Receipt(Some(receipt))),
            r,
        ),
        call_ensures(seahorn::step, (r.0, ProxyEvent::Body(Some(body))), q),
    ensures
        r.1 is ReadBody,
        q.0 is Upstream,
        q.1 matches ProxyAction::Send { forward: f, receipt: sent, body: b } && f == forward && sent
            == receipt && (body@.len() == 0 ==> b is None) && (body@.len() > 0 ==> b == Some(body)),
{
}

/// The provider's answer goes back: its status from 100 to 999, its content type where that is
/// text, and its body. Any other status becomes 500, and any other content type JSON.
pub proof fn law_answer_goes_back(
    status: u16,
    content_type: Option<Vec<u8>>,
    body: Vec<u8>,
    r: (ProxyState, ProxyAction),
    q: (ProxyState, ProxyAction),
)
    requires
        call_ensures(
            seahorn::step,
            (ProxyState::Upstream, ProxyEvent::Upstream(Some((status, content_type)))),
            r,
        ),
        call_ensures(seahorn::step, (r.0, ProxyEvent::UpstreamBody(Some(body))), q),
    ensures
        r.1 is ReadUpstreamBody,
        q.0 is Finished,
        q.1 matches ProxyAction::Answer(Reply::Proxied { status: s, content_type: c, body: b }) && {
            &&& 100 <= status <= 999 ==> s == status
            &&& status < 100 || status > 999 ==> s == 500
            &&& b == body
            &&& match content_type {
                Some(v) => if is_text(v@) {
                    spells(c@, v@)
                } else {
                    c@ == "application/json"@
                },
                None => c@ == "application/json"@,
            }
        },
{
    if content_type is Some {
        lemma_visible(content_type->0@);
    }
}

/// Where outside work fails, the query ends with a bare status: 500 where the receipt cannot be
/// made, 400 where the body cannot be read, 502 where the provider fails.
pub proof fn law_failure_has_its_status(
    state: ProxyState,
    event: ProxyEvent,
    r: (ProxyState, ProxyAction),
)
    requires
        match state {
            ProxyState::Receipt(_) => event == ProxyEvent::Receipt(None),
            ProxyState::Body(_, _) => event == ProxyEvent::Body(None),
            ProxyState::Upstream => event == ProxyEvent::Upstream(None),
            ProxyState::UpstreamBody { .. } => event == ProxyEvent::UpstreamBody(None),
            ProxyState::Finished => false,
        },
        call_ensures(seahorn::step, (state, event), r),
    ensures
        r.0 is Finished,
        r.1 matches ProxyAction::Answer(Reply::Status(status)) && match state {
            ProxyState::Receipt(_) => status == 500,
            ProxyState::Body(_, _) => status == 400,
            _ => status == 502,
        },
{
}

} // verus!
