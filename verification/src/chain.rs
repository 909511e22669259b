//! The chain validator: re-derives every block's digest and checks linkage
//! and timestamp ordering over an ordered sequence of blocks.

use crate::block::Block;
use vstd::prelude::*;

verus! {

/// The reserved previous-digest value of the genesis block.
pub open spec fn sentinel_chars() -> Seq<char> {
    seq!['0']
}

/// The linkage condition at position `i`: the genesis block carries the
/// sentinel, every later block carries the digest of its predecessor.
pub open spec fn linkage_ok_at(blocks: Seq<Block>, i: int) -> bool
    recommends
        0 <= i < blocks.len(),
{
    if i == 0 {
        blocks[0].previous_hash@ == sentinel_chars()
    } else {
        blocks[i].previous_hash@ == blocks[i - 1].hash@
    }
}

/// The timestamp condition at position `i`: every non-genesis block is
/// strictly later than its predecessor; the genesis timestamp is free.
pub open spec fn timestamp_ok_at(blocks: Seq<Block>, i: int) -> bool
    recommends
        0 <= i < blocks.len(),
{
    i == 0 || blocks[i].timestamp > blocks[i - 1].timestamp
}

/// All three checks at position `i`: linkage, timestamp order, and the
/// block's own digest integrity.
pub open spec fn block_ok_at(blocks: Seq<Block>, i: int) -> bool
    recommends
        0 <= i < blocks.len(),
{
    linkage_ok_at(blocks, i) && timestamp_ok_at(blocks, i) && blocks[i].well_formed()
}

/// A chain is valid when every position passes all three checks. The empty
/// chain is trivially valid.
pub open spec fn chain_valid(blocks: Seq<Block>) -> bool {
    forall|i: int| 0 <= i < blocks.len() ==> #[trigger] block_ok_at(blocks, i)
}

/// True exactly when `s` is the genesis sentinel `"0"`.
fn is_sentinel(s: &String) -> (r: bool)
    ensures
        r == (s@ == sentinel_chars()),
{
    let z = String::from_str("0");
    proof {
        reveal_strlit("0");
        assert(z@ =~= sentinel_chars());
    }
    *s == z
}

/// The outcome of the three checks for one block, identified by its index
/// field, ready to be reported to a reader.
pub struct BlockReport {
    pub id: u32,
    pub linkage_ok: bool,
    pub timestamp_ok: bool,
    pub integrity_ok: bool,
}

/// `r` reports position `i` of `blocks` faithfully.
pub open spec fn report_correct(blocks: Seq<Block>, i: int, r: BlockReport) -> bool
    recommends
        0 <= i < blocks.len(),
{
    &&& r.id == blocks[i].id
    &&& r.linkage_ok == linkage_ok_at(blocks, i)
    &&& r.timestamp_ok == timestamp_ok_at(blocks, i)
    &&& r.integrity_ok == blocks[i].well_formed()
}

/// Checks the whole chain, never stopping early, and returns whether every
/// block passed every check.
pub fn check_chain(blocks: &Vec<Block>) -> (valid: bool)
    ensures
        valid == chain_valid(blocks@),
{
    let mut valid = true;
    let n = blocks.len();
    let mut i: usize = 0;
    while i < n
        invariant
            n == blocks@.len(),
            i <= n,
            valid == (forall|j: int| 0 <= j < i ==> #[trigger] block_ok_at(blocks@, j)),
        decreases n - i,
    {
        let link_ok = if i == 0 {
            is_sentinel(&blocks[0].previous_hash)
        } else {
            blocks[i].previous_hash == blocks[i - 1].hash
        };
        let ts_ok = i == 0 || blocks[i].timestamp > blocks[i - 1].timestamp;
        let integrity_ok = blocks[i].is_valid();
        proof {
            assert(block_ok_at(blocks@, i as int) == (link_ok && ts_ok && integrity_ok));
        }
        valid = valid && link_ok && ts_ok && integrity_ok;
        i = i + 1;
    }
    valid
}

/// Runs the three checks on every block and returns one faithful report per
/// block, in chain order. No check aborts the pass: every block is examined
/// and every discrepancy is represented.
pub fn validate_chain(blocks: &Vec<Block>) -> (reports: Vec<BlockReport>)
    ensures
        reports@.len() == blocks@.len(),
        forall|i: int| 0 <= i < blocks@.len() ==> report_correct(blocks@, i, #[trigger] reports@[i]),
        chain_valid(blocks@) == (forall|i: int|
            0 <= i < blocks@.len()
                ==> (#[trigger] reports@[i]).linkage_ok && reports@[i].timestamp_ok
                && reports@[i].integrity_ok),
{
    let mut reports: Vec<BlockReport> = Vec::new();
    let n = blocks.len();
    let mut i: usize = 0;
    while i < n
        invariant
            n == blocks@.len(),
            i <= n,
            reports@.len() == i,
            forall|j: int| 0 <= j < i ==> report_correct(blocks@, j, #[trigger] reports@[j]),
        decreases n - i,
    {
        let linkage_ok = if i == 0 {
            is_sentinel(&blocks[0].previous_hash)
        } else {
            blocks[i].previous_hash == blocks[i - 1].hash
        };
        let timestamp_ok = i == 0 || blocks[i].timestamp > blocks[i - 1].timestamp;
        let integrity_ok = blocks[i].is_valid();
        reports.push(BlockReport { id: blocks[i].id, linkage_ok, timestamp_ok, integrity_ok });
        i = i + 1;
    }
    proof {
        if (forall|k: int|
            0 <= k < blocks@.len()
                ==> (#[trigger] reports@[k]).linkage_ok && reports@[k].timestamp_ok
                && reports@[k].integrity_ok) {
            assert forall|k: int| 0 <= k < blocks@.len() implies #[trigger] block_ok_at(
                blocks@,
                k,
            ) by {
                assert(report_correct(blocks@, k, reports@[k]));
                assert(reports@[k].linkage_ok && reports@[k].timestamp_ok
                    && reports@[k].integrity_ok);
            }
        } else {
            if chain_valid(blocks@) {
                assert forall|k: int|
                    0 <= k < blocks@.len() implies (#[trigger] reports@[k]).linkage_ok
                    && reports@[k].timestamp_ok && reports@[k].integrity_ok by {
                    assert(block_ok_at(blocks@, k));
                    assert(report_correct(blocks@, k, reports@[k]));
                }
            }
        }
    }
    reports
}

/// A chain built by the rules — every block well formed, the genesis block
/// carrying the sentinel, every later block carrying its predecessor's digest
/// and a strictly later timestamp — is valid in full.
pub proof fn lemma_well_built_chain_valid(blocks: Seq<Block>)
    requires
        forall|i: int| 0 <= i < blocks.len() ==> (#[trigger] blocks[i]).well_formed(),
        blocks.len() > 0 ==> blocks[0].previous_hash@ == sentinel_chars(),
        forall|i: int|
            1 <= i < blocks.len()
                ==> (#[trigger] blocks[i]).previous_hash@ == blocks[i - 1].hash@ && blocks[i].timestamp
                > blocks[i - 1].timestamp,
    ensures
        chain_valid(blocks),
{
    assert forall|i: int| 0 <= i < blocks.len() implies #[trigger] block_ok_at(blocks, i) by {
        assert(blocks[i].well_formed());
    }
}

/// Pointing any non-genesis block's previous digest at anything other than
/// its predecessor's digest makes that position fail the linkage check and
/// the whole chain invalid, whatever the other blocks look like.
pub proof fn lemma_linkage_break_invalidates(blocks: Seq<Block>, i: int)
    requires
        1 <= i < blocks.len(),
        blocks[i].previous_hash@ != blocks[i - 1].hash@,
    ensures
        !linkage_ok_at(blocks, i),
        !chain_valid(blocks),
{
    assert(!block_ok_at(blocks, i));
}

/// A non-genesis block whose timestamp is not strictly later than its
/// predecessor's makes that position fail the ordering check and the whole
/// chain invalid, even where digests and linkage are correct.
pub proof fn lemma_timestamp_violation_invalidates(blocks: Seq<Block>, i: int)
    requires
        1 <= i < blocks.len(),
        blocks[i].timestamp <= blocks[i - 1].timestamp,
    ensures
        !timestamp_ok_at(blocks, i),
        !chain_valid(blocks),
{
    assert(!block_ok_at(blocks, i));
}

/// A block that fails its own integrity check makes the whole chain invalid.
pub proof fn lemma_integrity_break_invalidates(blocks: Seq<Block>, i: int)
    requires
        0 <= i < blocks.len(),
        !blocks[i].well_formed(),
    ensures
        !chain_valid(blocks),
{
    assert(!block_ok_at(blocks, i));
}

} // verus!
