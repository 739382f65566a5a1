//! Composition of utility batches: a list of calls wrapped into one
//! dispatchable call whose selector is resolved by name from the metadata.

use vstd::prelude::*;
use crate::encoding::{compact_u32, encode_compact_u32, encode_u32, le_u32};
use crate::metadata::{call_index_spec, call_not_found, CallIndex, Metadata, MetadataError};

verus! {

/// A call of the runtime: its selector and its already encoded arguments.
#[derive(Clone, Debug)]
pub struct Call {
    pub pallet_index: u8,
    pub call_index: u8,
    pub encoded_args: Vec<u8>,
}

/// The arguments of a staking payout: the validator's stash account and the era.
#[derive(Clone, Copy, Debug)]
pub struct PayoutStakers {
    pub validator_stash: [u8; 32],
    pub era: u32,
}

/// An ordered list of calls; the order is the order of execution.
#[derive(Clone, Debug)]
pub struct Batch {
    pub calls: Vec<Call>,
}

/// An ordered list of payouts, each under its own fixed call selector.
#[derive(Clone, Debug)]
pub struct BatchPayout {
    pub calls: Vec<([u8; 2], PayoutStakers)>,
}

/// A utility batch call: the resolved outer selector and the inner calls.
#[derive(Clone, Debug)]
pub struct UtilityBatchCall {
    pub call_index: CallIndex,
    pub batch: Batch,
}

/// A utility batch of payouts: the resolved outer selector and the entries.
#[derive(Clone, Debug)]
pub struct UtilityBatchPayoutCall {
    pub call_index: CallIndex,
    pub batch: BatchPayout,
}

/// A call on the wire: its two selector bytes, then its arguments.
pub open spec fn call_bytes(c: Call) -> Seq<u8> {
    seq![c.pallet_index, c.call_index] + c.encoded_args@
}

/// The calls' encodings one after another, in order.
pub open spec fn calls_bytes(cs: Seq<Call>) -> Seq<u8>
    decreases cs.len(),
{
    if cs.len() == 0 {
        Seq::empty()
    } else {
        calls_bytes(cs.drop_last()) + call_bytes(cs.last())
    }
}

/// A payout entry on the wire: its selector, the stash account, the era.
pub open spec fn payout_bytes(e: ([u8; 2], PayoutStakers)) -> Seq<u8> {
    e.0@ + e.1.validator_stash@ + le_u32(e.1.era)
}

/// The payout entries' encodings one after another, in order.
pub open spec fn payouts_bytes(es: Seq<([u8; 2], PayoutStakers)>) -> Seq<u8>
    decreases es.len(),
{
    if es.len() == 0 {
        Seq::empty()
    } else {
        payouts_bytes(es.drop_last()) + payout_bytes(es.last())
    }
}

/// A batch call on the wire: the outer selector, the number of inner calls as
/// a compact integer, then the inner calls.
pub open spec fn batch_bytes(ci: CallIndex, cs: Seq<Call>) -> Seq<u8> {
    ci@ + compact_u32(cs.len() as u32) + calls_bytes(cs)
}

/// A payout batch on the wire, laid out as `batch_bytes` is.
pub open spec fn payout_batch_bytes(ci: CallIndex, es: Seq<([u8; 2], PayoutStakers)>) -> Seq<u8> {
    ci@ + compact_u32(es.len() as u32) + payouts_bytes(es)
}

fn append_bytes(out: &mut Vec<u8>, src: &[u8])
    ensures
        final(out)@ == old(out)@ + src@,
{
    let mut i: usize = 0;
    while i < src.len()
        invariant
            0 <= i <= src@.len(),
            out@ == old(out)@ + src@.subrange(0, i as int),
        decreases src@.len() - i,
    {
        out.push(src[i]);
        assert(src@.subrange(0, i + 1) =~= src@.subrange(0, i as int) + seq![src@[i as int]]);
        i = i + 1;
    }
    assert(src@.subrange(0, src@.len() as int) =~= src@);
}

impl UtilityBatchCall {
    /// The call's wire encoding.
    pub fn encode(&self) -> (r: Vec<u8>)
        requires
            self.batch.calls@.len() <= u32::MAX,
        ensures
            r@ == batch_bytes(self.call_index, self.batch.calls@),
    {
        let calls = &self.batch.calls;
        let mut out: Vec<u8> = Vec::new();
        out.push(self.call_index[0]);
        out.push(self.call_index[1]);
        let prefix = encode_compact_u32(calls.len() as u32);
        append_bytes(&mut out, prefix.as_slice());
        assert(out@ =~= self.call_index@ + compact_u32(calls@.len() as u32));
        let ghost head = out@;
        let mut i: usize = 0;
        while i < calls.len()
            invariant
                0 <= i <= calls@.len(),
                out@ == head + calls_bytes(calls@.subrange(0, i as int)),
            decreases calls@.len() - i,
        {
            let c = &calls[i];
            out.push(c.pallet_index);
            out.push(c.call_index);
            append_bytes(&mut out, c.encoded_args.as_slice());
            assert(calls@.subrange(0, i + 1).drop_last() =~= calls@.subrange(0, i as int));
            assert(out@ =~= head + calls_bytes(calls@.subrange(0, i + 1)));
            i = i + 1;
        }
        assert(calls@.subrange(0, calls@.len() as int) =~= calls@);
        out
    }
}

impl UtilityBatchPayoutCall {
    /// The call's wire encoding.
    pub fn encode(&self) -> (r: Vec<u8>)
        requires
            self.batch.calls@.len() <= u32::MAX,
        ensures
            r@ == payout_batch_bytes(self.call_index, self.batch.calls@),
    {
        let calls = &self.batch.calls;
        let mut out: Vec<u8> = Vec::new();
        out.push(self.call_index[0]);
        out.push(self.call_index[1]);
        let prefix = encode_compact_u32(calls.len() as u32);
        append_bytes(&mut out, prefix.as_slice());
        assert(out@ =~= self.call_index@ + compact_u32(calls@.len() as u32));
        let ghost head = out@;
        let mut i: usize = 0;
        while i < calls.len()
            invariant
                0 <= i <= calls@.len(),
                out@ == head + payouts_bytes(calls@.subrange(0, i as int)),
            decreases calls@.len() - i,
        {
            let e = &calls[i];
            out.push(e.0[0]);
            out.push(e.0[1]);
            append_bytes(&mut out, &e.1.validator_stash);
            let era = encode_u32(e.1.era);
            append_bytes(&mut out, era.as_slice());
            assert(calls@.subrange(0, i + 1).drop_last() =~= calls@.subrange(0, i as int));
            assert(out@ =~= head + payouts_bytes(calls@.subrange(0, i + 1)));
            i = i + 1;
        }
        assert(calls@.subrange(0, calls@.len() as int) =~= calls@);
        out
    }
}

/// `r` is what composing a batch of `calls` under utility call `call` yields
/// against the registry `m`: the by-name selector with the calls unchanged, or
/// the report that the registry lacks that call.
pub open spec fn composed_batch(
    m: Metadata,
    call: Seq<char>,
    calls: Seq<Call>,
    r: Result<UtilityBatchCall, MetadataError>,
) -> bool {
    match r {
        Ok(x) => call_index_spec(m.pallets(), "Utility"@, call) == Some(x.call_index)
            && x.batch.calls@ == calls,
        Err(e) => call_index_spec(m.pallets(), "Utility"@, call) is None && call_not_found(
            e,
            "Utility"@,
            call,
        ),
    }
}

/// A client's view of a runtime: the metadata that calls are composed against.
pub struct Api {
    metadata: Metadata,
}

impl Api {
    pub closed spec fn metadata_spec(&self) -> Metadata {
        self.metadata
    }

    pub fn new(metadata: Metadata) -> (r: Self)
        ensures
            r.metadata_spec() == metadata,
    {
        Api { metadata }
    }

    pub fn metadata(&self) -> (r: &Metadata)
        ensures
            *r == self.metadata_spec(),
    {
        &self.metadata
    }

    fn compose(&self, call: &str, calls: Vec<Call>) -> (r: Result<UtilityBatchCall, MetadataError>)
        ensures
            composed_batch(self.metadata_spec(), call@, calls@, r),
    {
        let call_index = self.metadata.call_index_by_name("Utility", call)?;
        Ok(UtilityBatchCall { call_index, batch: Batch { calls } })
    }

    /// Wraps `calls` into a utility batch, which stops at the first call that
    /// fails.
    pub fn batch(&self, calls: Vec<Call>) -> (r: Result<UtilityBatchCall, MetadataError>)
        ensures
            composed_batch(self.metadata_spec(), "batch"@, calls@, r),
    {
        self.compose("batch", calls)
    }

    /// Wraps `calls` into a utility force batch, which goes on past calls that
    /// fail.
    pub fn force_batch(&self, calls: Vec<Call>) -> (r: Result<UtilityBatchCall, MetadataError>)
        ensures
            composed_batch(self.metadata_spec(), "force_batch"@, calls@, r),
    {
        self.compose("force_batch", calls)
    }

    /// Wraps payout entries, each under its own fixed selector, into a utility
    /// batch; only the outer selector is looked up.
    pub fn batch_payout_stakers(&self, calls: Vec<([u8; 2], PayoutStakers)>) -> (r: Result<
        UtilityBatchPayoutCall,
        MetadataError,
    >)
        ensures
            match r {
                Ok(x) => call_index_spec(self.metadata_spec().pallets(), "Utility"@, "batch"@)
                    == Some(x.call_index) && x.batch.calls@ == calls@,
                Err(e) => call_index_spec(self.metadata_spec().pallets(), "Utility"@, "batch"@)
                    is None && call_not_found(e, "Utility"@, "batch"@),
            },
    {
        let call_index = self.metadata.call_index_by_name("Utility", "batch")?;
        Ok(UtilityBatchPayoutCall { call_index, batch: BatchPayout { calls } })
    }
}

/// A batch and a force batch of the same calls carry the same inner calls in
/// the same order; their selectors name the same pallet, and their encodings
/// differ in the call byte of the outer selector alone.
pub proof fn lemma_batch_modes_share_inner_calls(
    m: Metadata,
    calls: Seq<Call>,
    a: UtilityBatchCall,
    b: UtilityBatchCall,
)
    requires
        calls.len() <= u32::MAX,
        composed_batch(m, "batch"@, calls, Ok(a)),
        composed_batch(m, "force_batch"@, calls, Ok(b)),
    ensures
        a.batch.calls@ == calls,
        b.batch.calls@ == calls,
        a.call_index[0] == b.call_index[0],
        batch_bytes(a.call_index, a.batch.calls@).len() == batch_bytes(
            b.call_index,
            b.batch.calls@,
        ).len(),
        batch_bytes(a.call_index, a.batch.calls@).remove(1) == batch_bytes(
            b.call_index,
            b.batch.calls@,
        ).remove(1),
{
    let ba = batch_bytes(a.call_index, calls);
    let bb = batch_bytes(b.call_index, calls);
    assert(ba.remove(1) =~= bb.remove(1));
}

} // verus!
