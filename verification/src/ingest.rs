use vstd::prelude::*;

use crate::decoder::decode;
use crate::decoder::decode_spec;
use crate::decoder::BlobRecord;
use crate::decoder::BlobRecordView;
use crate::store::store_put_all;
use crate::CycleError;

verus! {

/// Which transaction strings stand at `result.block.data.txs` of a block
/// response body, where the body parses as a JSON document and that path
/// holds an array of strings; nothing for any other body.
pub uninterp spec fn block_txs_of(body: Seq<u8>) -> Option<Seq<Seq<char>>>;

/// Relies on serde_json::from_slice and serde_json::Value's `get`,
/// `as_array` and `as_str`: whether the body holds a transaction list at
/// `result.block.data.txs`, and which strings it holds, depend on the body
/// bytes alone.
#[verifier::external_body]
fn parse_block_txs(body: &Vec<u8>) -> (r: Option<Vec<String>>)
    ensures
        r is Some <==> block_txs_of(body@) is Some,
        r is Some ==> r->0.deep_view() == block_txs_of(body@)->0,
{
    let v: serde_json::Value = match serde_json::from_slice(body.as_slice()) {
        Ok(v) => v,
        Err(_) => return None,
    };
    let arr = v.get("result")?.get("block")?.get("data")?.get("txs")?.as_array()?;
    arr.iter().map(|t| t.as_str().map(|s| s.to_string())).collect()
}

/// The records a transaction list yields: each transaction is decoded in
/// the order the remote returned them; one that decodes to a record
/// contributes it, while non-blob and malformed transactions contribute
/// nothing and abort nothing.
pub open spec fn records_of_txs(txs: Seq<Seq<char>>) -> Seq<BlobRecordView>
    decreases txs.len(),
{
    if txs.len() == 0 {
        Seq::empty()
    } else {
        records_of_txs(txs.drop_last()) + (match decode_spec(txs.last()) {
            Ok(Some(r)) => seq![r],
            _ => Seq::empty(),
        })
    }
}

/// What one fetched body yields: the block's decoded records in order, or
/// `MalformedResponse` where the body does not hold the transaction list.
pub open spec fn process_body_spec(body: Seq<u8>) -> Result<Seq<BlobRecordView>, CycleError> {
    match block_txs_of(body) {
        None => Err(CycleError::MalformedResponse),
        Some(txs) => Ok(records_of_txs(txs)),
    }
}

/// Turns a fetched block body into the records to store, exactly as
/// `process_body_spec` says. An empty transaction list yields no records
/// and is not an error; a body without the list is a malformed response.
pub fn process_body(body: &Vec<u8>) -> (r: Result<Vec<BlobRecord>, CycleError>)
    ensures
        r is Ok <==> process_body_spec(body@) is Ok,
        (r matches Ok(recs) ==> Ok::<Seq<BlobRecordView>, CycleError>(recs.deep_view())
            == process_body_spec(body@)),
        r is Err ==> r == Err::<Vec<BlobRecord>, CycleError>(CycleError::MalformedResponse),
{
    let txs = match parse_block_txs(body) {
        Some(t) => t,
        None => return Err(CycleError::MalformedResponse),
    };
    let ghost txsv = block_txs_of(body@)->0;
    let mut out: Vec<BlobRecord> = Vec::new();
    let mut i: usize = 0;
    proof {
        assert(txsv.take(0) =~= Seq::<Seq<char>>::empty());
    }
    while i < txs.len()
        invariant
            0 <= i <= txs.len(),
            txs.deep_view() == txsv,
            txsv.len() == txs.len(),
            out.deep_view() == records_of_txs(txsv.take(i as int)),
        decreases txs.len() - i,
    {
        let ghost old_out = out.deep_view();
        let rec = decode(txs[i].as_str());
        proof {
            assert(txs@[i as int]@ == txsv[i as int]);
        }
        match rec {
            Ok(Some(record)) => {
                out.push(record);
                proof {
                    assert(out.deep_view() =~= old_out + seq![out@[out@.len() - 1]@]);
                }
            },
            _ => {},
        }
        proof {
            assert(txsv.take(i + 1).drop_last() =~= txsv.take(i as int));
            assert(txsv.take(i + 1).last() == txsv[i as int]);
            assert(out.deep_view() =~= records_of_txs(txsv.take(i + 1)));
        }
        i = i + 1;
    }
    proof {
        assert(txsv.take(txs.len() as int) =~= txsv);
    }
    Ok(out)
}

/// The writes a batch of records asks of the blob store: one file per
/// record, in the order the records came out of the block.
pub open spec fn writes_of(rs: Seq<BlobRecordView>) -> Seq<(Seq<char>, Seq<u8>)> {
    rs.map(|i: int, r: BlobRecordView| (r.content_id, r.payload))
}

/// Crash-resume safety: decoding a block body is deterministic, so if a run
/// stored the records of a height and was terminated before the cursor
/// advanced, the restarted run decodes the same body to the same records,
/// and replaying those writes leaves the file tree exactly as the first run
/// left it — no duplicate and no changed entry.
pub proof fn lemma_crash_resume(m: Map<Seq<char>, Seq<u8>>, body: Seq<u8>)
    ensures
        (process_body_spec(body) matches Ok(recs) ==> store_put_all(
            store_put_all(m, writes_of(recs)),
            writes_of(recs),
        ) == store_put_all(m, writes_of(recs))),
{
    match process_body_spec(body) {
        Ok(recs) => {
            crate::store::lemma_replay_idempotent(m, writes_of(recs));
        },
        Err(_) => {},
    }
}

/// The two states of the ingestion loop. The loop has no terminal state:
/// it runs until the process is terminated from outside.
#[derive(Clone, Copy, Debug, PartialEq, Eq, Structural)]
pub enum Phase {
    /// About to fetch the block at the current height.
    Fetching,
    /// A cycle at the current height failed; waiting out the backoff pause
    /// before retrying the same height.
    Backoff,
}

/// The ingestion loop's in-memory state: the next height to fetch, and
/// whether the loop is fetching or backing off. The surrounding program
/// performs the outside work of each cycle (the block request, the blob
/// writes, the cursor write, the pause) and reports back what happened.
pub struct Fetcher {
    pub height: u64,
    pub phase: Phase,
}

impl Fetcher {
    /// Starts the loop at the height the cursor store yielded.
    pub fn new(height: u64) -> (r: Fetcher)
        ensures
            r.height == height,
            r.phase == Phase::Fetching,
    {
        Fetcher { height, phase: Phase::Fetching }
    }

    /// A fully successful cycle: the block was fetched, every record it
    /// yielded was stored, and the cursor was advanced. The loop moves on
    /// to the next height; the height never moves backwards.
    pub fn on_cycle_success(&mut self)
        requires
            old(self).height < u64::MAX,
        ensures
            final(self).height == old(self).height + 1,
            final(self).phase == Phase::Fetching,
    {
        self.height = self.height + 1;
        self.phase = Phase::Fetching;
    }

    /// A failed cycle — transport failure, malformed response, or a storage
    /// write error: the height is kept, and the loop backs off before
    /// retrying the very same height. No height is ever skipped.
    pub fn on_cycle_failure(&mut self)
        ensures
            final(self).height == old(self).height,
            final(self).phase == Phase::Backoff,
    {
        self.phase = Phase::Backoff;
    }

    /// The backoff pause elapsed: retry the same height.
    pub fn on_backoff_elapsed(&mut self)
        ensures
            final(self).height == old(self).height,
            final(self).phase == Phase::Fetching,
    {
        self.phase = Phase::Fetching;
    }
}

/// One cycle's effect on the next height to fetch: a successful cycle
/// advances it by exactly one, a failed cycle keeps it.
pub open spec fn cycle_height(h: int, success: bool) -> int {
    if success {
        h + 1
    } else {
        h
    }
}

/// The next height to fetch after a run of cycles with the given outcomes.
pub open spec fn run_height(h0: int, outcomes: Seq<bool>) -> int
    decreases outcomes.len(),
{
    if outcomes.len() == 0 {
        h0
    } else {
        cycle_height(run_height(h0, outcomes.drop_last()), outcomes.last())
    }
}

/// Cursor monotonicity: the height never decreases over any run of cycles,
/// rises by at most one per cycle, and after N consecutive successful
/// cycles starting from height h0 it is exactly h0 + N.
pub proof fn lemma_cursor_monotonic(h0: int, outcomes: Seq<bool>)
    ensures
        h0 <= run_height(h0, outcomes) <= h0 + outcomes.len(),
        (forall|i: int| 0 <= i < outcomes.len() ==> outcomes[i]) ==> run_height(h0, outcomes)
            == h0 + outcomes.len(),
    decreases outcomes.len(),
{
    if outcomes.len() > 0 {
        let pre = outcomes.drop_last();
        lemma_cursor_monotonic(h0, pre);
        if forall|i: int| 0 <= i < outcomes.len() ==> outcomes[i] {
            assert(forall|i: int| 0 <= i < pre.len() ==> #[trigger] pre[i] == outcomes[i]);
            assert(outcomes[outcomes.len() - 1]);
            assert(run_height(h0, pre) == h0 + pre.len());
        }
    }
}

} // verus!
