//! Aggregation of receipts into a voucher, as the gateway answers `POST /rav/aggregate`.
//!
//! The indexer sends its stored receipts. The gateway verifies that it signed each of them,
//! sums their values on top of a floor, takes the latest timestamp and signs the result.
use vstd::prelude::*;

use crate::primitives;
use crate::primitives::{Address, Bytes32};
use crate::tap::{Rav, RavView, SignedRav, SignedReceipt};
use crate::text;

verus! {

/// The largest request body that is read: receipt batches can be large.
pub const MAX_BODY_BYTES: usize = 64 * 1024 * 1024;

/// A request to aggregate receipts.
#[derive(Debug, Clone)]
pub struct AggregateRequest {
    /// The indexer's on-chain service provider address.
    pub service_provider: Address,
    /// The consumer whose escrow is debited on-chain. A caller that names none gets a
    /// voucher on the gateway's own address.
    pub payer: Option<Address>,
    /// All receipts to aggregate.
    pub receipts: Vec<SignedReceipt>,
    /// Floor value (GRT wei) to add to the receipt sum: what the last voucher came to.
    pub previous_rav_value: u128,
}

/// The answer to an [`AggregateRequest`].
#[derive(Debug, Clone)]
pub struct AggregateResponse {
    pub signed_rav: SignedRav,
}

/// Why a request is refused. Every one of these is the caller's fault.
#[derive(Debug, Clone)]
pub enum AggregateError {
    /// There is nothing to aggregate.
    EmptyBatch,
    /// A receipt is for another data service than the first one.
    MixedDataService { expected: Address, got: Address },
    /// A receipt is for another service provider than the request.
    ServiceProviderMismatch { expected: Address, got: Address },
    /// No signer can be recovered from a receipt's signature.
    InvalidSignature { reason: String },
    /// Someone else signed a receipt.
    ForeignSigner { signer: Address },
    /// The voucher could not be signed.
    SigningFailed { reason: String },
}

/// What a voucher says, but for the collection that it belongs to.
#[derive(Debug, Clone, Copy)]
pub struct RavTerms {
    pub payer: Address,
    pub service_provider: Address,
    pub data_service: Address,
    pub timestamp_ns: u64,
    pub value_aggregate: u128,
}

/// The sum of the receipts' values.
pub open spec fn total_value(receipts: Seq<SignedReceipt>) -> nat
    decreases receipts.len(),
{
    if receipts.len() == 0 {
        0
    } else {
        total_value(receipts.drop_last()) + receipts.last().receipt.value as nat
    }
}

/// Whether `t` is the latest timestamp of the receipts.
pub open spec fn is_latest(t: u64, receipts: Seq<SignedReceipt>) -> bool {
    &&& forall|i: int| 0 <= i < receipts.len() ==> (#[trigger] receipts[i]).receipt.timestamp_ns <= t
    &&& exists|i: int| 0 <= i < receipts.len() && (#[trigger] receipts[i]).receipt.timestamp_ns == t
}

/// Whether a receipt is for the batch that it came in: for the data service of the first
/// receipt and the service provider of the request.
pub open spec fn belongs(request: AggregateRequest, i: int) -> bool {
    let r = request.receipts@[i].receipt;
    &&& r.data_service@ == request.receipts@[0].receipt.data_service@
    &&& r.service_provider@ == request.service_provider@
}

/// Whether signers are at hand for all receipts that need one: every receipt up to the first
/// that does not belong.
pub open spec fn signers_suffice(request: AggregateRequest, count: nat) -> bool {
    &&& count <= request.receipts@.len()
    &&& count < request.receipts@.len() ==> !belongs(request, count as int)
}

/// What is wrong with a receipt, where anything is: its data service, then its service
/// provider, then its signature, then who signed it.
pub open spec fn receipt_fault(
    signed: SignedReceipt,
    recovered: Result<Address, String>,
    data_service: Address,
    service_provider: Address,
    signer: Address,
) -> Option<AggregateError> {
    if signed.receipt.data_service@ != data_service@ {
        Some(
            AggregateError::MixedDataService {
                expected: data_service,
                got: signed.receipt.data_service,
            },
        )
    } else if signed.receipt.service_provider@ != service_provider@ {
        Some(
            AggregateError::ServiceProviderMismatch {
                expected: service_provider,
                got: signed.receipt.service_provider,
            },
        )
    } else {
        match recovered {
            Err(reason) => Some(AggregateError::InvalidSignature { reason }),
            Ok(who) => if who@ != signer@ {
                Some(AggregateError::ForeignSigner { signer: who })
            } else {
                None
            },
        }
    }
}

/// What is wrong with the first `n` receipts of a batch: the fault of the first faulty one.
pub open spec fn batch_fault(
    request: AggregateRequest,
    recovered: Seq<Result<Address, String>>,
    signer: Address,
    n: nat,
) -> Option<AggregateError>
    decreases n,
{
    if n == 0 {
        None
    } else {
        match batch_fault(request, recovered, signer, (n - 1) as nat) {
            Some(e) => Some(e),
            None => receipt_fault(
                request.receipts@[n - 1],
                recovered[n - 1],
                request.receipts@[0].receipt.data_service,
                request.service_provider,
                signer,
            ),
        }
    }
}

/// Who pays: the consumer that the request names, else the gateway itself.
pub open spec fn payer_of(request: AggregateRequest, signer: Address) -> Address {
    match request.payer {
        Some(p) => p,
        None => signer,
    }
}

/// Whether `terms` are what the receipts of a request come to: the floor plus their sum,
/// held at the largest 128-bit number, as of the latest of them.
pub open spec fn sums_up(terms: RavTerms, request: AggregateRequest, signer: Address) -> bool {
    &&& terms.payer == payer_of(request, signer)
    &&& terms.service_provider == request.service_provider
    &&& terms.data_service == request.receipts@[0].receipt.data_service
    &&& terms.value_aggregate == primitives::saturated(
        request.previous_rav_value as nat + total_value(request.receipts@),
    )
    &&& is_latest(terms.timestamp_ns, request.receipts@)
}

impl AggregateError {
    /// What the error says in words.
    pub open spec fn text(self) -> Seq<char> {
        match self {
            AggregateError::EmptyBatch => "receipts batch is empty"@,
            AggregateError::MixedDataService { expected, got } => {
                "mixed data_service in batch: expected "@ + primitives::checksum_text(expected@)
                    + ", got "@ + primitives::checksum_text(got@)
            },
            AggregateError::ServiceProviderMismatch { expected, got } => {
                "receipt service_provider mismatch: expected "@ + primitives::checksum_text(
                    expected@,
                ) + ", got "@ + primitives::checksum_text(got@)
            },
            AggregateError::InvalidSignature { reason } => {
                "invalid receipt signature: "@ + reason@
            },
            AggregateError::ForeignSigner { signer } => {
                "receipt not signed by this gateway: signer="@ + primitives::checksum_text(signer@)
            },
            AggregateError::SigningFailed { reason } => "RAV signing failed: "@ + reason@,
        }
    }

    /// The error in words.
    pub fn message(&self) -> (s: String)
        ensures
            s@ == self.text(),
    {
        match self {
            AggregateError::EmptyBatch => "receipts batch is empty".to_owned(),
            AggregateError::MixedDataService { expected, got } => mismatch_text(
                "mixed data_service in batch: expected ",
                primitives::address_display(expected).as_str(),
                primitives::address_display(got).as_str(),
            ),
            AggregateError::ServiceProviderMismatch { expected, got } => mismatch_text(
                "receipt service_provider mismatch: expected ",
                primitives::address_display(expected).as_str(),
                primitives::address_display(got).as_str(),
            ),
            AggregateError::InvalidSignature { reason } => text::join(
                "invalid receipt signature: ",
                reason.as_str(),
            ),
            AggregateError::ForeignSigner { signer } => text::join(
                "receipt not signed by this gateway: signer=",
                primitives::address_display(signer).as_str(),
            ),
            AggregateError::SigningFailed { reason } => text::join(
                "RAV signing failed: ",
                reason.as_str(),
            ),
        }
    }
}

/// What was expected and what was found, in words.
pub fn mismatch_text(lead: &str, expected: &str, got: &str) -> (s: String)
    ensures
        s@ == lead@ + expected@ + ", got "@ + got@,
{
    let mut s = text::join(lead, expected);
    s.append(", got ");
    s.append(got);
    s
}

/// How many of the first receipts belong to the batch. The signers of these have to be
/// recovered; the receipt after them, where there is one, is refused unseen.
pub fn signers_needed(request: &AggregateRequest) -> (count: usize)
    ensures
        signers_suffice(*request, count as nat),
        forall|i: int| 0 <= i < count ==> belongs(*request, i),
{
    let len = request.receipts.len();
    let mut i: usize = 0;
    while i < len
        invariant
            i <= len,
            len == request.receipts@.len(),
            forall|j: int| 0 <= j < i ==> belongs(*request, j),
        decreases len - i,
    {
        let first = &request.receipts[0].receipt;
        let r = &request.receipts[i].receipt;
        if r.data_service != first.data_service || r.service_provider
            != request.service_provider {
            return i;
        }
        i = i + 1;
    }
    i
}

/// Tests whether a receipt belongs to the batch that it came in.
fn check_belonging(
    signed: &SignedReceipt,
    data_service: &Address,
    service_provider: &Address,
) -> (fault: Option<AggregateError>)
    ensures
        fault is None <==> signed.receipt.data_service@ == data_service@
            && signed.receipt.service_provider@ == service_provider@,
        fault is Some ==> forall|recovered: Result<Address, String>, signer: Address|
            fault == #[trigger] receipt_fault(
                *signed,
                recovered,
                *data_service,
                *service_provider,
                signer,
            ),
{
    if signed.receipt.data_service != *data_service {
        return Some(
            AggregateError::MixedDataService {
                expected: *data_service,
                got: signed.receipt.data_service,
            },
        );
    }
    if signed.receipt.service_provider != *service_provider {
        return Some(
            AggregateError::ServiceProviderMismatch {
                expected: *service_provider,
                got: signed.receipt.service_provider,
            },
        );
    }
    None
}

/// Tests whether the gateway signed a receipt.
fn check_signer(recovered: &Result<Address, String>, signer: &Address) -> (fault: Option<
    AggregateError,
>)
    ensures
        fault == match *recovered {
            Err(reason) => Some(AggregateError::InvalidSignature { reason }),
            Ok(who) => if who@ != signer@ {
                Some(AggregateError::ForeignSigner { signer: who })
            } else {
                None
            },
        },
{
    match recovered {
        Err(reason) => Some(AggregateError::InvalidSignature { reason: reason.clone() }),
        Ok(who) => if *who != *signer {
            Some(AggregateError::ForeignSigner { signer: *who })
        } else {
            None
        },
    }
}

/// Aggregates a batch of receipts. `recovered` holds, for each receipt up to the first that
/// does not belong to the batch, the address that signed it, or why none could be recovered.
///
/// The batch is refused where it is empty and otherwise with the fault of its first faulty
/// receipt. The value is the floor plus the sum of the receipts, held at the largest
/// 128-bit number; the timestamp is the latest one.
pub fn aggregate(
    request: &AggregateRequest,
    recovered: &Vec<Result<Address, String>>,
    signer: &Address,
) -> (r: Result<RavTerms, AggregateError>)
    requires
        signers_suffice(*request, recovered@.len()),
    ensures
        request.receipts@.len() == 0 ==> r == Err::<RavTerms, _>(AggregateError::EmptyBatch),
        request.receipts@.len() > 0 ==> match batch_fault(
            *request,
            recovered@,
            *signer,
            request.receipts@.len(),
        ) {
            Some(e) => r == Err::<RavTerms, _>(e),
            None => r is Ok && sums_up(r->Ok_0, *request, *signer),
        },
{
    let len = request.receipts.len();
    if len == 0 {
        return Err(AggregateError::EmptyBatch);
    }
    let payer = match request.payer {
        Some(p) => p,
        None => *signer,
    };
    let data_service = request.receipts[0].receipt.data_service;
    let mut value_aggregate: u128 = request.previous_rav_value;
    let mut timestamp_ns: u64 = 0;
    let mut i: usize = 0;
    proof {
        assert(request.receipts@.take(0) =~= Seq::empty());
    }
    while i < len
        invariant
            i <= len,
            i <= recovered@.len(),
            len == request.receipts@.len(),
            len > 0,
            signers_suffice(*request, recovered@.len()),
            data_service == request.receipts@[0].receipt.data_service,
            batch_fault(*request, recovered@, *signer, i as nat) is None,
            value_aggregate == primitives::saturated(
                request.previous_rav_value as nat + total_value(request.receipts@.take(i as int)),
            ),
            forall|j: int|
                0 <= j < i ==> (#[trigger] request.receipts@[j]).receipt.timestamp_ns
                    <= timestamp_ns,
            i > 0 ==> exists|j: int|
                0 <= j < i && (#[trigger] request.receipts@[j]).receipt.timestamp_ns
                    == timestamp_ns,
            i == 0 ==> timestamp_ns == 0,
        decreases len - i,
    {
        let signed = &request.receipts[i];
        let mut fault = check_belonging(signed, &data_service, &request.service_provider);
        if fault.is_none() {
            fault = check_signer(&recovered[i], signer);
        }
        proof {
            assert(fault == receipt_fault(
                request.receipts@[i as int],
                recovered@[i as int],
                data_service,
                request.service_provider,
                *signer,
            ));
        }
        if let Some(e) = fault {
            proof {
                lemma_fault_stays(*request, recovered@, *signer, (i + 1) as nat, len as nat);
            }
            return Err(e);
        }
        proof {
            let receipts = request.receipts@;
            assert(receipts.take(i + 1).drop_last() =~= receipts.take(i as int));
            assert(receipts.take(i + 1).last() == receipts[i as int]);
        }
        value_aggregate = value_aggregate.saturating_add(signed.receipt.value);
        if signed.receipt.timestamp_ns > timestamp_ns {
            timestamp_ns = signed.receipt.timestamp_ns;
        }
        i = i + 1;
    }
    assert(request.receipts@.take(len as int) =~= request.receipts@);
    Ok(
        RavTerms {
            payer,
            service_provider: request.service_provider,
            data_service,
            timestamp_ns,
            value_aggregate,
        },
    )
}

/// A fault in the first receipts of a batch is the fault of any longer part of it.
proof fn lemma_fault_stays(
    request: AggregateRequest,
    recovered: Seq<Result<Address, String>>,
    signer: Address,
    m: nat,
    n: nat,
)
    requires
        m <= n,
        batch_fault(request, recovered, signer, m) is Some,
    ensures
        batch_fault(request, recovered, signer, n) == batch_fault(request, recovered, signer, m),
    decreases n - m,
{
    if m < n {
        lemma_fault_stays(request, recovered, signer, m, (n - 1) as nat);
    }
}

impl RavTerms {
    /// The voucher on these terms for a collection. It carries no metadata.
    pub open spec fn voucher(self, collection_id: Seq<u8>) -> RavView {
        RavView {
            collection_id,
            payer: self.payer@,
            service_provider: self.service_provider@,
            data_service: self.data_service@,
            timestamp_ns: self.timestamp_ns,
            value_aggregate: self.value_aggregate,
            metadata: Seq::empty(),
        }
    }

    /// The voucher to sign, once its collection is known.
    pub fn rav(&self, collection_id: Bytes32) -> (rav: Rav)
        ensures
            rav@ == self.voucher(collection_id@),
    {
        Rav {
            collection_id,
            payer: self.payer,
            service_provider: self.service_provider,
            data_service: self.data_service,
            timestamp_ns: self.timestamp_ns,
            value_aggregate: self.value_aggregate,
            metadata: Vec::new(),
        }
    }
}

/// The answer, once signing the voucher has succeeded or failed.
pub fn respond(signed: Result<SignedRav, String>) -> (r: Result<AggregateResponse, AggregateError>)
    ensures
        match signed {
            Ok(signed_rav) => r == Ok::<_, AggregateError>(AggregateResponse { signed_rav }),
            Err(reason) => r == Err::<AggregateResponse, _>(
                AggregateError::SigningFailed { reason },
            ),
        },
{
    match signed {
        Ok(signed_rav) => Ok(AggregateResponse { signed_rav }),
        Err(reason) => Err(AggregateError::SigningFailed { reason }),
    }
}

} // verus!
