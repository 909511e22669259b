//! Blocks: immutable records whose digest binds their fields together.

use crate::clock::now;
use crate::digits::{dec_str, u32_to_string, u64_to_string};
use crate::hashing::{real_hash, sha256_hex};
use vstd::prelude::*;

verus! {

/// One record of the ledger. The digest in `hash` is computed once, at
/// construction, over the four other fields; any later change to a field
/// without recomputing `hash` is detectable through `is_valid`.
#[derive(Debug, Clone)]
pub struct Block {
    pub id: u32,
    pub timestamp: u64,
    pub data: String,
    pub previous_hash: String,
    pub hash: String,
}

/// The canonical pre-image of a block's digest: the decimal renderings of
/// `id` and `timestamp`, then `data`, then `previous_hash`, concatenated in
/// that fixed order.
pub open spec fn preimage_chars(
    id: u32,
    timestamp: u64,
    data: Seq<char>,
    previous_hash: Seq<char>,
) -> Seq<char> {
    dec_str(id as nat) + dec_str(timestamp as nat) + data + previous_hash
}

/// The digest a block with these fields must carry.
pub open spec fn block_digest(
    id: u32,
    timestamp: u64,
    data: Seq<char>,
    previous_hash: Seq<char>,
) -> Seq<char> {
    sha256_hex(preimage_chars(id, timestamp, data, previous_hash))
}

/// Builds the canonical pre-image string of a block's digest.
fn preimage(id: u32, timestamp: u64, data: &str, previous_hash: &str) -> (r: String)
    ensures
        r@ == preimage_chars(id, timestamp, data@, previous_hash@),
{
    let mut s = u32_to_string(id);
    let t = u64_to_string(timestamp);
    s.append(t.as_str());
    s.append(data);
    s.append(previous_hash);
    proof {
        assert(s@ =~= preimage_chars(id, timestamp, data@, previous_hash@));
    }
    s
}

impl Block {
    /// A block is well formed when its stored digest is the digest of its
    /// current fields. Constructors establish this; mutating any field
    /// afterwards without recomputing the digest breaks it.
    pub open spec fn well_formed(self) -> bool {
        self.hash@ == block_digest(self.id, self.timestamp, self.data@, self.previous_hash@)
    }

    /// Constructs a block stamped with the current wall-clock time.
    pub fn new(id: u32, data: String, previous_hash: String) -> (b: Block)
        ensures
            b.id == id,
            b.data == data,
            b.previous_hash == previous_hash,
            b.well_formed(),
    {
        let timestamp = now();
        Block::new_with_timestamp(id, data, previous_hash, timestamp)
    }

    /// Constructs a block with a caller-supplied timestamp. Always succeeds;
    /// the stored digest is exactly the digest of the four fields.
    pub fn new_with_timestamp(id: u32, data: String, previous_hash: String, timestamp: u64) -> (b:
        Block)
        ensures
            b.id == id,
            b.timestamp == timestamp,
            b.data == data,
            b.previous_hash == previous_hash,
            b.well_formed(),
            b.hash@ == block_digest(id, timestamp, data@, previous_hash@),
    {
        let hash_input = preimage(id, timestamp, data.as_str(), previous_hash.as_str());
        let hash = real_hash(hash_input.as_str());
        Block { id, timestamp, data, previous_hash, hash }
    }

    /// Recomputes the digest from the current fields and compares it with the
    /// stored one: the single-block tamper check.
    pub fn is_valid(&self) -> (r: bool)
        ensures
            r == self.well_formed(),
    {
        let hash_input = preimage(
            self.id,
            self.timestamp,
            self.data.as_str(),
            self.previous_hash.as_str(),
        );
        let calculated_hash = real_hash(hash_input.as_str());
        calculated_hash == self.hash
    }
}

/// A digest as shown to a reader: strings longer than 16 characters are cut
/// to their first 16 and marked with a continuation ellipsis; those of 16
/// characters or fewer are shown whole.
pub open spec fn abbrev_chars(s: Seq<char>) -> Seq<char> {
    if s.len() > 16 {
        s.subrange(0, 16) + "..."@
    } else {
        s
    }
}

/// Cuts a digest down for display, exactly as `abbrev_chars` describes.
pub fn abbreviate_digest(s: &str) -> (r: String)
    ensures
        r@ == abbrev_chars(s@),
{
    if s.unicode_len() > 16 {
        let mut t = String::from_str(s.substring_char(0, 16));
        t.append("...");
        t
    } else {
        String::from_str(s)
    }
}

/// The full display form of a block, line by line.
pub open spec fn render_chars(b: Block) -> Seq<char> {
    "--- Block "@ + dec_str(b.id as nat) + " ---\n"@ + "  Time: "@ + dec_str(b.timestamp as nat)
        + "\n"@ + "  Data: "@ + b.data@ + "\n"@ + "  Previous Hash: "@ + abbrev_chars(
        b.previous_hash@,
    ) + "\n"@ + "  Hash: "@ + abbrev_chars(b.hash@) + "\n"@ + "  Is Valid?: "@ + (if b.well_formed() {
        "true"@
    } else {
        "false"@
    }) + "\n"@
}

impl Block {
    /// Formats the block for human inspection, exactly as `render_chars`
    /// describes: one line per field, digests longer than 16 characters
    /// abbreviated, and the verdict of the integrity check last.
    pub fn render(&self) -> (r: String)
        ensures
            r@ == render_chars(*self),
    {
        let mut s = String::from_str("--- Block ");
        let id_s = u32_to_string(self.id);
        s.append(id_s.as_str());
        s.append(" ---\n");
        s.append("  Time: ");
        let ts_s = u64_to_string(self.timestamp);
        s.append(ts_s.as_str());
        s.append("\n");
        s.append("  Data: ");
        s.append(self.data.as_str());
        s.append("\n");
        s.append("  Previous Hash: ");
        let prev_s = abbreviate_digest(self.previous_hash.as_str());
        s.append(prev_s.as_str());
        s.append("\n");
        s.append("  Hash: ");
        let hash_s = abbreviate_digest(self.hash.as_str());
        s.append(hash_s.as_str());
        s.append("\n");
        s.append("  Is Valid?: ");
        if self.is_valid() {
            s.append("true");
        } else {
            s.append("false");
        }
        s.append("\n");
        proof {
            assert(s@ =~= render_chars(*self));
        }
        s
    }
}

/// Constructing a block twice from the same index, timestamp, payload and
/// previous digest yields the same digest.
pub proof fn lemma_construction_deterministic(a: Block, b: Block)
    requires
        a.well_formed(),
        b.well_formed(),
        a.id == b.id,
        a.timestamp == b.timestamp,
        a.data@ == b.data@,
        a.previous_hash@ == b.previous_hash@,
    ensures
        a.hash@ == b.hash@,
{
}

/// A freshly constructed block — one whose stored digest is the digest of its
/// fields, as both constructors guarantee — passes the integrity check that
/// `is_valid` performs.
pub proof fn lemma_new_block_passes_integrity(b: Block)
    requires
        b.hash@ == block_digest(b.id, b.timestamp, b.data@, b.previous_hash@),
    ensures
        b.well_formed(),
{
}

/// Changing any field of a well-formed block while keeping its stored digest
/// leaves a block that fails the integrity check, whenever the digest of the
/// new fields differs from the digest of the old ones (as it does for any
/// change that does not collide under SHA-256).
pub proof fn lemma_tampering_detected(orig: Block, tampered: Block)
    requires
        orig.well_formed(),
        tampered.hash@ == orig.hash@,
        block_digest(tampered.id, tampered.timestamp, tampered.data@, tampered.previous_hash@)
            != block_digest(orig.id, orig.timestamp, orig.data@, orig.previous_hash@),
    ensures
        !tampered.well_formed(),
{
}

} // verus!
