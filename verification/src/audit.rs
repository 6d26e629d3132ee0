use vstd::prelude::*;

use crate::digest::{hex_encode, sha256, sha256_digest};
use crate::encoding::{
    byte_len, hex_lower, lemma_u64_be_injective, lemma_utf8_injective, push_bytes, push_u64_be,
    u64_be, utf8,
};

verus! {

/// Largest accepted workflow identifier, in bytes.
pub const MAX_WORKFLOW_ID_BYTES: usize = 256;

/// Largest accepted event text, in bytes.
pub const MAX_EVENT_BYTES: usize = 4096;

/// Number of hexadecimal characters in an entry hash.
pub const HASH_HEX_CHARS: usize = 64;

/// A tamper-evident audit entry.
#[derive(Clone, Debug, PartialEq, Eq)]
pub struct AuditEntry {
    sequence: u64,
    workflow_id: String,
    event: String,
    previous_hash: String,
    hash: String,
}

/// What an audit entry holds.
pub struct EntryView {
    pub sequence: u64,
    pub workflow_id: Seq<char>,
    pub event: Seq<char>,
    pub previous_hash: Seq<char>,
    pub hash: Seq<char>,
}

impl View for AuditEntry {
    type V = EntryView;

    closed spec fn view(&self) -> EntryView {
        EntryView {
            sequence: self.sequence,
            workflow_id: self.workflow_id@,
            event: self.event@,
            previous_hash: self.previous_hash@,
            hash: self.hash@,
        }
    }
}

/// Append-only in-memory audit chain. Persist entries through an external append-only adapter.
#[derive(Clone, Debug)]
pub struct AuditChain {
    entries: Vec<AuditEntry>,
}

impl View for AuditChain {
    type V = Seq<EntryView>;

    closed spec fn view(&self) -> Seq<EntryView> {
        self.entries@.map_values(|e: AuditEntry| e@)
    }
}

/// Audit validation errors.
#[derive(Clone, Copy, Debug, PartialEq, Eq, Structural)]
pub enum AuditError {
    /// Workflow or event text exceeded a safe bound.
    Oversized,
}

impl AuditError {
    /// Human-readable description of the error.
    pub fn message(&self) -> (text: &'static str)
        ensures
            text@ == "audit fields exceed configured bounds"@,
    {
        "audit fields exceed configured bounds"
    }
}

/// The previous-hash of the first entry: sixty-four `'0'` characters.
pub open spec fn genesis_hash() -> Seq<char> {
    Seq::new(HASH_HEX_CHARS as nat, |i: int| '0')
}

/// The bytes that are hashed for an entry: the sequence number, then the workflow
/// identifier and the event each preceded by its byte length, all integers as eight
/// big-endian bytes, then the previous hash.
pub open spec fn hash_preimage(
    sequence: u64,
    workflow_id: Seq<char>,
    event: Seq<char>,
    previous_hash: Seq<char>,
) -> Seq<u8> {
    u64_be(sequence) + u64_be(byte_len(workflow_id) as u64) + utf8(workflow_id) + u64_be(
        byte_len(event) as u64,
    ) + utf8(event) + utf8(previous_hash)
}

/// The hash of an entry: the lowercase hex text of the SHA-256 digest of its preimage.
pub open spec fn entry_hash(
    sequence: u64,
    workflow_id: Seq<char>,
    event: Seq<char>,
    previous_hash: Seq<char>,
) -> Seq<char> {
    hex_lower(sha256(hash_preimage(sequence, workflow_id, event, previous_hash)))
}

/// The previous-hash that the next appended entry links to.
pub open spec fn next_previous_hash(entries: Seq<EntryView>) -> Seq<char> {
    if entries.len() == 0 {
        genesis_hash()
    } else {
        entries.last().hash
    }
}

/// Entry `i` carries its own index, links to its predecessor (or to the genesis
/// hash) and carries the hash of its own fields.
pub open spec fn link_valid(entries: Seq<EntryView>, i: int) -> bool {
    let e = entries[i];
    &&& e.sequence == i
    &&& e.previous_hash == (if i == 0 {
        genesis_hash()
    } else {
        entries[i - 1].hash
    })
    &&& e.hash == entry_hash(e.sequence, e.workflow_id, e.event, e.previous_hash)
}

/// Every entry of the chain is correctly numbered, linked and hashed.
pub open spec fn chain_valid(entries: Seq<EntryView>) -> bool {
    forall|i: int| 0 <= i < entries.len() ==> #[trigger] link_valid(entries, i)
}

/// Whether a workflow identifier and an event are within the accepted bounds.
pub open spec fn fields_in_bounds(workflow_id: Seq<char>, event: Seq<char>) -> bool {
    &&& workflow_id.len() != 0
    &&& byte_len(workflow_id) <= MAX_WORKFLOW_ID_BYTES
    &&& event.len() != 0
    &&& byte_len(event) <= MAX_EVENT_BYTES
}

/// The entry that appending `workflow_id` and `event` to `entries` adds.
pub open spec fn next_entry(
    entries: Seq<EntryView>,
    workflow_id: Seq<char>,
    event: Seq<char>,
) -> EntryView {
    let sequence = entries.len() as u64;
    let previous_hash = next_previous_hash(entries);
    EntryView {
        sequence,
        workflow_id,
        event,
        previous_hash,
        hash: entry_hash(sequence, workflow_id, event, previous_hash),
    }
}

/// Some two distinct byte sequences have the same SHA-256 digest.
pub open spec fn sha256_collision_exists() -> bool {
    exists|a: Seq<u8>, b: Seq<u8>| a != b && #[trigger] sha256(a) == #[trigger] sha256(b)
}

/// Every workflow identifier and event of the chain has a byte length that fits in
/// a `u64`, as every string held in memory does.
pub open spec fn lengths_fit(entries: Seq<EntryView>) -> bool {
    forall|i: int|
        0 <= i < entries.len() ==> byte_len(#[trigger] entries[i].workflow_id) <= u64::MAX
            && byte_len(entries[i].event) <= u64::MAX
}

/// Appending keeps a valid chain valid: the new entry carries the next sequence
/// number, links to the previous head and carries its own hash.
pub proof fn law_append_keeps_chain_valid(entries: Seq<EntryView>, workflow_id: Seq<char>, event: Seq<char>)
    requires
        chain_valid(entries),
        entries.len() <= u64::MAX,
    ensures
        chain_valid(entries.push(next_entry(entries, workflow_id, event))),
{
    let next = entries.push(next_entry(entries, workflow_id, event));
    assert forall|i: int| 0 <= i < next.len() implies #[trigger] link_valid(next, i) by {
        if i < entries.len() {
            assert(link_valid(entries, i));
            assert(next[i] == entries[i]);
            if i > 0 {
                assert(next[i - 1] == entries[i - 1]);
            }
        } else {
            assert(next[i] == next_entry(entries, workflow_id, event));
            if i > 0 {
                assert(next[i - 1] == entries[i - 1]);
            }
        }
    }
}

/// The preimage encoding is unambiguous: equal preimages come from equal fields.
pub proof fn lemma_preimage_injective(
    q1: u64,
    w1: Seq<char>,
    e1: Seq<char>,
    p1: Seq<char>,
    q2: u64,
    w2: Seq<char>,
    e2: Seq<char>,
    p2: Seq<char>,
)
    requires
        byte_len(w1) <= u64::MAX,
        byte_len(e1) <= u64::MAX,
        byte_len(w2) <= u64::MAX,
        byte_len(e2) <= u64::MAX,
        hash_preimage(q1, w1, e1, p1) == hash_preimage(q2, w2, e2, p2),
    ensures
        q1 == q2,
        w1 == w2,
        e1 == e2,
        p1 == p2,
{
    let lw1 = byte_len(w1) as u64;
    let lw2 = byte_len(w2) as u64;
    let le1 = byte_len(e1) as u64;
    let le2 = byte_len(e2) as u64;
    let r1 = u64_be(le1) + (utf8(e1) + utf8(p1));
    let r2 = u64_be(le2) + (utf8(e2) + utf8(p2));
    lemma_preimage_shape(q1, w1, e1, p1);
    lemma_preimage_shape(q2, w2, e2, p2);
    lemma_split_eq(u64_be(q1), u64_be(lw1) + (utf8(w1) + r1), u64_be(q2), u64_be(lw2) + (utf8(w2) + r2));
    lemma_u64_be_injective(q1, q2);
    lemma_split_eq(u64_be(lw1), utf8(w1) + r1, u64_be(lw2), utf8(w2) + r2);
    lemma_u64_be_injective(lw1, lw2);
    lemma_split_eq(utf8(w1), r1, utf8(w2), r2);
    lemma_utf8_injective(w1, w2);
    lemma_split_eq(u64_be(le1), utf8(e1) + utf8(p1), u64_be(le2), utf8(e2) + utf8(p2));
    lemma_u64_be_injective(le1, le2);
    lemma_split_eq(utf8(e1), utf8(p1), utf8(e2), utf8(p2));
    lemma_utf8_injective(e1, e2);
    lemma_utf8_injective(p1, p2);
}

proof fn lemma_preimage_shape(q: u64, w: Seq<char>, e: Seq<char>, p: Seq<char>)
    ensures
        hash_preimage(q, w, e, p) == u64_be(q) + (u64_be(byte_len(w) as u64) + (utf8(w) + (u64_be(
            byte_len(e) as u64,
        ) + (utf8(e) + utf8(p))))),
{
    let a = u64_be(q);
    let b = u64_be(byte_len(w) as u64);
    let c = utf8(w);
    let d = u64_be(byte_len(e) as u64);
    let f = utf8(e);
    let g = utf8(p);
    vstd::seq_lib::lemma_concat_associative((a + b), c, d + (f + g));
    vstd::seq_lib::lemma_concat_associative(a, b, c + (d + (f + g)));
    vstd::seq_lib::lemma_concat_associative((a + b) + c, d, f + g);
    vstd::seq_lib::lemma_concat_associative((a + b) + c + d, f, g);
}

proof fn lemma_split_eq(x1: Seq<u8>, r1: Seq<u8>, x2: Seq<u8>, r2: Seq<u8>)
    requires
        x1 + r1 == x2 + r2,
        x1.len() == x2.len(),
    ensures
        x1 == x2,
        r1 == r2,
{
    assert((x1 + r1).subrange(0, x1.len() as int) =~= x1);
    assert((x2 + r2).subrange(0, x2.len() as int) =~= x2);
    assert((x1 + r1).subrange(x1.len() as int, (x1 + r1).len() as int) =~= r1);
    assert((x2 + r2).subrange(x2.len() as int, (x2 + r2).len() as int) =~= r2);
}

/// Tamper evidence: two valid chains whose last entries carry the same hash are
/// identical, entry for entry, unless SHA-256 has a collision. Anchoring the head
/// hash of a chain therefore detects any change to any earlier entry.
pub proof fn law_head_hash_pins_chain(s: Seq<EntryView>, t: Seq<EntryView>)
    requires
        chain_valid(s),
        chain_valid(t),
        lengths_fit(s),
        lengths_fit(t),
        s.len() > 0,
        t.len() > 0,
        s.last().hash == t.last().hash,
    ensures
        s == t || sha256_collision_exists(),
    decreases s.len(),
{
    let n = s.len() as int;
    let m = t.len() as int;
    let x = s[n - 1];
    let y = t[m - 1];
    assert(link_valid(s, n - 1));
    assert(link_valid(t, m - 1));
    let px = hash_preimage(x.sequence, x.workflow_id, x.event, x.previous_hash);
    let py = hash_preimage(y.sequence, y.workflow_id, y.event, y.previous_hash);
    crate::encoding::lemma_hex_lower_injective(sha256(px), sha256(py));
    if px != py {
        assert(sha256_collision_exists());
        return;
    }
    assert(byte_len(s[n - 1].workflow_id) <= u64::MAX);
    assert(byte_len(t[m - 1].workflow_id) <= u64::MAX);
    lemma_preimage_injective(
        x.sequence,
        x.workflow_id,
        x.event,
        x.previous_hash,
        y.sequence,
        y.workflow_id,
        y.event,
        y.previous_hash,
    );
    assert(n == m);
    if n == 1 {
        assert(s =~= t);
    } else {
        let s0 = s.drop_last();
        let t0 = t.drop_last();
        assert(chain_valid(s0)) by {
            assert forall|i: int| 0 <= i < s0.len() implies #[trigger] link_valid(s0, i) by {
                assert(link_valid(s, i));
            }
        }
        assert(chain_valid(t0)) by {
            assert forall|i: int| 0 <= i < t0.len() implies #[trigger] link_valid(t0, i) by {
                assert(link_valid(t, i));
            }
        }
        assert(lengths_fit(s0)) by {
            assert forall|i: int| 0 <= i < s0.len() implies byte_len(#[trigger] s0[i].workflow_id)
                <= u64::MAX && byte_len(s0[i].event) <= u64::MAX by {
                assert(s0[i] == s[i]);
            }
        }
        assert(lengths_fit(t0)) by {
            assert forall|i: int| 0 <= i < t0.len() implies byte_len(#[trigger] t0[i].workflow_id)
                <= u64::MAX && byte_len(t0[i].event) <= u64::MAX by {
                assert(t0[i] == t[i]);
            }
        }
        law_head_hash_pins_chain(s0, t0);
        if s0 == t0 {
            assert(s =~= t) by {
                assert forall|i: int| 0 <= i < n implies s[i] == t[i] by {
                    if i < n - 1 {
                        assert(s0[i] == t0[i]);
                    }
                }
            }
        }
    }
}

/// Builds the sixty-four-character genesis hash.
fn genesis_hash_text() -> (text: String)
    ensures
        text@ == genesis_hash(),
{
    let mut text = String::new();
    let mut i: usize = 0;
    while i < HASH_HEX_CHARS
        invariant
            i <= HASH_HEX_CHARS,
            text@ == Seq::new(i as nat, |j: int| '0'),
        decreases HASH_HEX_CHARS - i,
    {
        proof {
            reveal_strlit("0");
        }
        text.append("0");
        i = i + 1;
        assert(text@ =~= Seq::new(i as nat, |j: int| '0'));
    }
    text
}

/// Computes the hash of an entry from its fields.
fn calculate_hash(sequence: u64, workflow_id: &str, event: &str, previous_hash: &str) -> (hash:
    String)
    ensures
        hash@ == entry_hash(sequence, workflow_id@, event@, previous_hash@),
{
    let workflow_bytes = workflow_id.as_bytes();
    let event_bytes = event.as_bytes();
    let previous_bytes = previous_hash.as_bytes();
    let mut preimage: Vec<u8> = Vec::new();
    push_u64_be(&mut preimage, sequence);
    push_u64_be(&mut preimage, workflow_bytes.len() as u64);
    push_bytes(&mut preimage, workflow_bytes);
    push_u64_be(&mut preimage, event_bytes.len() as u64);
    push_bytes(&mut preimage, event_bytes);
    push_bytes(&mut preimage, previous_bytes);
    assert(preimage@ =~= hash_preimage(sequence, workflow_id@, event@, previous_hash@));
    let digest = sha256_digest(preimage.as_slice());
    hex_encode(digest.as_slice())
}

impl AuditEntry {
    /// Position of the entry in its chain.
    pub fn sequence(&self) -> (r: u64)
        ensures
            r == self@.sequence,
    {
        self.sequence
    }

    /// Workflow the entry belongs to.
    pub fn workflow_id(&self) -> (r: &str)
        ensures
            r@ == self@.workflow_id,
    {
        self.workflow_id.as_str()
    }

    /// Recorded event text.
    pub fn event(&self) -> (r: &str)
        ensures
            r@ == self@.event,
    {
        self.event.as_str()
    }

    /// Hash of the preceding entry, or the genesis hash for the first entry.
    pub fn previous_hash(&self) -> (r: &str)
        ensures
            r@ == self@.previous_hash,
    {
        self.previous_hash.as_str()
    }

    /// Hash of this entry.
    pub fn hash(&self) -> (r: &str)
        ensures
            r@ == self@.hash,
    {
        self.hash.as_str()
    }
}

impl Default for AuditChain {
    fn default() -> (chain: Self)
        ensures
            chain@ == Seq::<EntryView>::empty(),
            chain_valid(chain@),
    {
        let chain = AuditChain { entries: Vec::new() };
        assert(chain@ =~= Seq::<EntryView>::empty());
        chain
    }
}

impl AuditChain {
    /// Appends a hashed event.
    pub fn append(&mut self, workflow_id: &str, event: &str) -> (r: Result<&AuditEntry, AuditError>)
        ensures
            r is Err <==> !fields_in_bounds(workflow_id@, event@),
            r is Err ==> r == Err::<&AuditEntry, AuditError>(AuditError::Oversized)
                && final(self)@ == old(self)@,
            r is Ok ==> final(self)@ == old(self)@.push(next_entry(old(self)@, workflow_id@, event@))
                && r->Ok_0@ == next_entry(old(self)@, workflow_id@, event@),
            chain_valid(old(self)@) ==> chain_valid(final(self)@),
    {
        let workflow_len = workflow_id.as_bytes().len();
        let event_len = event.as_bytes().len();
        if workflow_id.is_empty() || workflow_len > MAX_WORKFLOW_ID_BYTES || event.is_empty()
            || event_len > MAX_EVENT_BYTES {
            return Err(AuditError::Oversized);
        }
        let count = self.entries.len();
        let sequence = count as u64;
        let previous_hash = if count == 0 {
            genesis_hash_text()
        } else {
            self.entries[count - 1].hash.clone()
        };
        let hash = calculate_hash(sequence, workflow_id, event, previous_hash.as_str());
        let ghost old_view = self@;
        self.entries.push(
            AuditEntry {
                sequence,
                workflow_id: workflow_id.to_owned(),
                event: event.to_owned(),
                previous_hash,
                hash,
            },
        );
        assert(self@ =~= old_view.push(next_entry(old_view, workflow_id@, event@)));
        proof {
            if chain_valid(old_view) {
                law_append_keeps_chain_valid(old_view, workflow_id@, event@);
            }
        }
        Ok(&self.entries[count])
    }

    /// Verifies sequence and hash linkage.
    pub fn verify(&self) -> (valid: bool)
        ensures
            valid == chain_valid(self@),
    {
        let mut previous = genesis_hash_text();
        let n = self.entries.len();
        let mut index: usize = 0;
        while index < n
            invariant
                n == self.entries@.len(),
                index <= n,
                previous@ == next_previous_hash(self@.subrange(0, index as int)),
                forall|i: int| 0 <= i < index ==> #[trigger] link_valid(self@, i),
            decreases n - index,
        {
            let entry = &self.entries[index];
            if entry.sequence != index as u64 || entry.previous_hash != previous {
                assert(!link_valid(self@, index as int));
                return false;
            }
            let expected = calculate_hash(
                entry.sequence,
                entry.workflow_id.as_str(),
                entry.event.as_str(),
                entry.previous_hash.as_str(),
            );
            if entry.hash != expected {
                assert(!link_valid(self@, index as int));
                return false;
            }
            assert(link_valid(self@, index as int));
            previous = entry.hash.clone();
            index = index + 1;
        }
        true
    }

    /// Entries for persistence or inspection.
    pub fn entries(&self) -> (entries: &[AuditEntry])
        ensures
            entries@.map_values(|e: AuditEntry| e@) == self@,
    {
        self.entries.as_slice()
    }
}

} // verus!
