//! The audit trail: an append-only window of hash-linked records.
use crate::clock::{new_uuid_text, now_rfc3339};
use crate::hex::{encode, hex_char, hex_text, is_lower_hex_char, lemma_hex_text_shape};
use crate::text::{push_text, text_of};
use sha2::Digest;
use vstd::prelude::*;

verus! {

/// What the first record of a chain links to.
pub open spec fn genesis() -> Seq<char> {
    "genesis"@
}

/// How one character is written inside a JSON string literal: quote and backslash are
/// escaped with a backslash, five control characters by their short escapes, the other
/// characters below U+0020 as `\u00XX` (lowercase hex), and every other character as itself.
pub open spec fn json_escaped_char(c: char) -> Seq<char> {
    if c == '"' {
        seq!['\\', '"']
    } else if c == '\\' {
        seq!['\\', '\\']
    } else if c == '\u{8}' {
        seq!['\\', 'b']
    } else if c == '\t' {
        seq!['\\', 't']
    } else if c == '\n' {
        seq!['\\', 'n']
    } else if c == '\u{c}' {
        seq!['\\', 'f']
    } else if c == '\r' {
        seq!['\\', 'r']
    } else if (c as u32) < 0x20 {
        seq!['\\', 'u', '0', '0', hex_char((c as u32) as nat / 16), hex_char((c as u32) as nat % 16)]
    } else {
        seq![c]
    }
}

/// The characters of `s`, each escaped for a JSON string literal.
pub open spec fn json_escaped(s: Seq<char>) -> Seq<char>
    decreases s.len(),
{
    if s.len() == 0 {
        Seq::empty()
    } else {
        json_escaped(s.drop_last()) + json_escaped_char(s.last())
    }
}

/// The JSON string literal for a text: escaped and enclosed in double quotes.
pub open spec fn json_quoted(s: Seq<char>) -> Seq<char> {
    seq!['"'] + json_escaped(s) + seq!['"']
}

/// The SHA-256 digest of the UTF-8 encoding of a text.
pub uninterp spec fn sha256_of_text(s: Seq<char>) -> Seq<u8>;

/// Relies on serde_json::to_string on a `&str` (format_escaped_str with the default
/// formatter): the text between double quotes, escaped as `json_escaped_char` says.
/// Serialising a `str` into memory cannot fail.
#[verifier::external_body]
pub(crate) fn json_quote(s: &str) -> (r: String)
    ensures
        r@ == json_quoted(s@),
{
    serde_json::to_string(s).unwrap_or_default()
}

/// Relies on sha2::Sha256::digest over the bytes of `s`: a 32-byte digest that depends
/// on the text alone.
#[verifier::external_body]
fn sha256_digest(s: &str) -> (r: Vec<u8>)
    ensures
        r@ == sha256_of_text(s@),
        r@.len() == 32,
{
    sha2::Sha256::digest(s.as_bytes()).to_vec()
}

/// One record of the trail. `details` holds JSON text; `timestamp` is RFC 3339 text.
#[derive(Debug)]
pub struct AuditRecord {
    pub id: String,
    pub timestamp: String,
    pub agent: String,
    pub action: String,
    pub details: String,
    pub user_id: Option<String>,
    pub session_id: Option<String>,
    pub previous_hash: String,
    pub record_hash: String,
}

/// The canonical JSON text that a record's hash covers, fields in this order:
/// id, timestamp, agent, action, details, previous_hash.
pub open spec fn canonical_text(
    id: Seq<char>,
    timestamp: Seq<char>,
    agent: Seq<char>,
    action: Seq<char>,
    details: Seq<char>,
    previous_hash: Seq<char>,
) -> Seq<char> {
    "{\"id\":"@ + json_quoted(id) + ",\"timestamp\":"@ + json_quoted(timestamp) + ",\"agent\":"@
        + json_quoted(agent) + ",\"action\":"@ + json_quoted(action) + ",\"details\":"@ + details
        + ",\"previous_hash\":"@ + json_quoted(previous_hash) + "}"@
}

/// Lowercase hex of the SHA-256 digest of the canonical text.
pub open spec fn record_hash_text(
    id: Seq<char>,
    timestamp: Seq<char>,
    agent: Seq<char>,
    action: Seq<char>,
    details: Seq<char>,
    previous_hash: Seq<char>,
) -> Seq<char> {
    hex_text(sha256_of_text(canonical_text(id, timestamp, agent, action, details, previous_hash)))
}

impl AuditRecord {
    /// The hash that the record's contents call for; `record_hash` itself is not covered.
    pub open spec fn expected_hash(self) -> Seq<char> {
        record_hash_text(
            self.id@,
            self.timestamp@,
            self.agent@,
            self.action@,
            self.details@,
            self.previous_hash@,
        )
    }

    /// A record with the given identifier and time, hashed.
    pub fn with_stamp(
        id: String,
        timestamp: String,
        agent: String,
        action: String,
        details: String,
        previous_hash: String,
    ) -> (r: Self)
        ensures
            r.id == id,
            r.timestamp == timestamp,
            r.agent == agent,
            r.action == action,
            r.details == details,
            r.user_id is None,
            r.session_id is None,
            r.previous_hash == previous_hash,
            r.record_hash@ == r.expected_hash(),
    {
        let mut record = AuditRecord {
            id,
            timestamp,
            agent,
            action,
            details,
            user_id: None,
            session_id: None,
            previous_hash,
            record_hash: String::new(),
        };
        record.record_hash = record.compute_hash();
        record
    }

    /// A record with a fresh identifier and the current time, hashed.
    pub fn new(agent: String, action: String, details: String, previous_hash: String) -> (r: Self)
        ensures
            r.agent == agent,
            r.action == action,
            r.details == details,
            r.previous_hash == previous_hash,
            r.record_hash@ == r.expected_hash(),
    {
        let id = new_uuid_text();
        let timestamp = now_rfc3339();
        Self::with_stamp(id, timestamp, agent, action, details, previous_hash)
    }

    /// SHA-256, in lowercase hex, of the record's canonical JSON text.
    pub fn compute_hash(&self) -> (r: String)
        ensures
            r@ == self.expected_hash(),
            r@.len() == 64,
            forall|k: int| 0 <= k < 64 ==> is_lower_hex_char(#[trigger] r@[k]),
    {
        let mut content = text_of("{\"id\":");
        push_text(&mut content, json_quote(self.id.as_str()).as_str());
        push_text(&mut content, ",\"timestamp\":");
        push_text(&mut content, json_quote(self.timestamp.as_str()).as_str());
        push_text(&mut content, ",\"agent\":");
        push_text(&mut content, json_quote(self.agent.as_str()).as_str());
        push_text(&mut content, ",\"action\":");
        push_text(&mut content, json_quote(self.action.as_str()).as_str());
        push_text(&mut content, ",\"details\":");
        push_text(&mut content, self.details.as_str());
        push_text(&mut content, ",\"previous_hash\":");
        push_text(&mut content, json_quote(self.previous_hash.as_str()).as_str());
        push_text(&mut content, "}");
        let digest = sha256_digest(content.as_str());
        proof {
            lemma_hex_text_shape(digest@);
        }
        encode(&digest)
    }

    /// Whether the stored hash matches the record's contents.
    pub fn verify(&self) -> (r: bool)
        ensures
            r == (self.record_hash@ == self.expected_hash()),
    {
        let h = self.compute_hash();
        h == self.record_hash
    }

    /// A copy of the record.
    pub fn duplicate(&self) -> (r: Self)
        ensures
            r == *self,
    {
        let user_id = match &self.user_id {
            Some(u) => Some(u.clone()),
            None => None,
        };
        let session_id = match &self.session_id {
            Some(u) => Some(u.clone()),
            None => None,
        };
        AuditRecord {
            id: self.id.clone(),
            timestamp: self.timestamp.clone(),
            agent: self.agent.clone(),
            action: self.action.clone(),
            details: self.details.clone(),
            user_id,
            session_id,
            previous_hash: self.previous_hash.clone(),
            record_hash: self.record_hash.clone(),
        }
    }
}

/// Record `i` links to its predecessor (to `base` for the first) and carries its own hash.
pub open spec fn link_ok(records: Seq<AuditRecord>, base: Seq<char>, i: int) -> bool {
    &&& records[i].previous_hash@ == (if i == 0 {
        base
    } else {
        records[i - 1].record_hash@
    })
    &&& records[i].record_hash@ == records[i].expected_hash()
}

/// Every record of the sequence is intact.
pub open spec fn chain_intact(records: Seq<AuditRecord>, base: Seq<char>) -> bool {
    forall|i: int| 0 <= i < records.len() ==> #[trigger] link_ok(records, base, i)
}

/// The index of the first record that does not link to its predecessor (the first to
/// `base`) or whose hash does not match its contents; `None` when the chain is intact.
pub fn first_broken_link(records: &Vec<AuditRecord>, base: &str) -> (r: Option<usize>)
    ensures
        r is None <==> chain_intact(records@, base@),
        r matches Some(i) ==> i < records@.len() && !link_ok(records@, base@, i as int) && forall|
            j: int,
        | 0 <= j < i ==> #[trigger] link_ok(records@, base@, j),
{
    let mut expected = text_of(base);
    let mut i: usize = 0;
    while i < records.len()
        invariant
            i <= records@.len(),
            forall|j: int| 0 <= j < i ==> #[trigger] link_ok(records@, base@, j),
            expected@ == (if i == 0 {
                base@
            } else {
                records@[i - 1].record_hash@
            }),
        decreases records@.len() - i,
    {
        let rec = &records[i];
        if rec.previous_hash != expected || !rec.verify() {
            assert(!link_ok(records@, base@, i as int));
            return Some(i);
        }
        expected = rec.record_hash.clone();
        i = i + 1;
    }
    None
}

/// The window after appending `r` to `s` with room for `max` records: the oldest leaves
/// when it would overflow.
pub open spec fn window_after(s: Seq<AuditRecord>, r: AuditRecord, max: nat) -> Seq<AuditRecord> {
    if s.len() + 1 > max {
        s.push(r).remove(0)
    } else {
        s.push(r)
    }
}

/// The in-memory window of the audit chain. `base_hash` is what the first record in the
/// window links to: "genesis" until a record has been evicted.
pub struct AuditTrail {
    pub records: Vec<AuditRecord>,
    pub max_records: usize,
    pub last_hash: String,
    pub base_hash: String,
}

impl AuditTrail {
    /// The window is bounded, linked from `base_hash` on, and `last_hash` is the newest hash.
    pub open spec fn wf(&self) -> bool {
        &&& self.records@.len() <= self.max_records
        &&& chain_intact(self.records@, self.base_hash@)
        &&& self.records@.len() > 0 ==> self.last_hash@ == self.records@.last().record_hash@
        &&& self.records@.len() == 0 ==> self.last_hash@ == self.base_hash@
    }

    /// An empty trail holding at most `max_records` records.
    pub fn new(max_records: usize) -> (r: Self)
        ensures
            r.wf(),
            r.records@.len() == 0,
            r.max_records == max_records,
            r.last_hash@ == genesis(),
            r.base_hash@ == genesis(),
    {
        AuditTrail {
            records: Vec::new(),
            max_records,
            last_hash: text_of("genesis"),
            base_hash: text_of("genesis"),
        }
    }

    /// Appends a record with the given identifier and time, linked to the newest one.
    pub fn record_at(&mut self, agent: &str, action: &str, details: String, id: String, timestamp: String) -> (r:
        AuditRecord)
        requires
            old(self).wf(),
        ensures
            final(self).wf(),
            r.id == id,
            r.timestamp == timestamp,
            r.agent@ == agent@,
            r.action@ == action@,
            r.details == details,
            r.previous_hash@ == old(self).last_hash@,
            r.record_hash@ == r.expected_hash(),
            final(self).records@ == window_after(old(self).records@, r, old(self).max_records as nat),
            final(self).last_hash@ == r.record_hash@,
            final(self).max_records == old(self).max_records,
    {
        let rec = AuditRecord::with_stamp(
            id,
            timestamp,
            text_of(agent),
            text_of(action),
            details,
            self.last_hash.clone(),
        );
        let ghost old_records = self.records@;
        let ghost old_base = self.base_hash@;
        self.last_hash = rec.record_hash.clone();
        self.records.push(rec.duplicate());
        let ghost pushed = self.records@;
        assert(chain_intact(pushed, old_base)) by {
            assert forall|i: int| 0 <= i < pushed.len() implies #[trigger] link_ok(pushed, old_base, i) by {
                if i < old_records.len() {
                    assert(link_ok(old_records, old_base, i));
                }
            }
        }
        if self.records.len() > self.max_records {
            let gone = self.records.remove(0);
            self.base_hash = gone.record_hash;
            let ghost now = self.records@;
            assert forall|i: int| 0 <= i < now.len() implies #[trigger] link_ok(now, self.base_hash@, i) by {
                assert(link_ok(pushed, old_base, i + 1));
            }
        }
        rec
    }

    /// Appends a record with a fresh identifier and the current time.
    pub fn record(&mut self, agent: &str, action: &str, details: String) -> (r: AuditRecord)
        requires
            old(self).wf(),
        ensures
            final(self).wf(),
            r.agent@ == agent@,
            r.action@ == action@,
            r.details == details,
            r.previous_hash@ == old(self).last_hash@,
            r.record_hash@ == r.expected_hash(),
            final(self).records@ == window_after(old(self).records@, r, old(self).max_records as nat),
            final(self).last_hash@ == r.record_hash@,
            final(self).max_records == old(self).max_records,
    {
        let id = new_uuid_text();
        let timestamp = now_rfc3339();
        self.record_at(agent, action, details, id, timestamp)
    }

    /// Whether every record in the window links and hashes correctly.
    pub fn verify_chain(&self) -> (r: bool)
        ensures
            r == chain_intact(self.records@, self.base_hash@),
            self.wf() ==> r,
    {
        first_broken_link(&self.records, self.base_hash.as_str()).is_none()
    }

    /// The position in the window of the first damaged record, if any.
    pub fn first_broken_index(&self) -> (r: Option<usize>)
        ensures
            r is None <==> chain_intact(self.records@, self.base_hash@),
            r matches Some(i) ==> i < self.records@.len() && !link_ok(self.records@, self.base_hash@, i as int)
                && forall|j: int| 0 <= j < i ==> #[trigger] link_ok(self.records@, self.base_hash@, j),
    {
        first_broken_link(&self.records, self.base_hash.as_str())
    }

    /// Copies of the newest `count` records, newest first.
    pub fn get_recent(&self, count: usize) -> (r: Vec<AuditRecord>)
        ensures
            r@.len() == (if count < self.records@.len() {
                count as int
            } else {
                self.records@.len() as int
            }),
            forall|i: int| 0 <= i < r@.len() ==> #[trigger] r@[i] == self.records@[self.records@.len() - 1 - i],
    {
        let mut out: Vec<AuditRecord> = Vec::new();
        let n = self.records.len();
        let mut i: usize = 0;
        while i < count && i < n
            invariant
                n == self.records@.len(),
                i <= n,
                i <= count,
                out@.len() == i,
                forall|k: int| 0 <= k < i ==> #[trigger] out@[k] == self.records@[n - 1 - k],
            decreases n - i,
        {
            out.push(self.records[n - 1 - i].duplicate());
            i = i + 1;
        }
        out
    }

    /// Number of records in the window.
    pub fn len(&self) -> (r: usize)
        ensures
            r == self.records@.len(),
    {
        self.records.len()
    }

    /// Whether the window is empty.
    pub fn is_empty(&self) -> (r: bool)
        ensures
            r == (self.records@.len() == 0),
    {
        self.records.len() == 0
    }

    /// Hash of the newest record ("genesis" before the first).
    pub fn get_last_hash(&self) -> (r: &str)
        ensures
            r@ == self.last_hash@,
    {
        self.last_hash.as_str()
    }
}

/// Why a persisted trail could not be restored.
#[derive(Debug, Clone, Copy, PartialEq, Eq)]
pub enum AuditLoadError {
    /// An entry other than the last could not be read.
    MalformedRecord(usize),
    /// The record at this position does not link to its predecessor or fails its hash.
    BrokenChain(usize),
}

/// Entries read from storage, `None` where a line could not be parsed: all but the last
/// must be readable.
pub open spec fn readable_prefix(entries: Seq<Option<AuditRecord>>) -> bool {
    forall|j: int| 0 <= j < entries.len() - 1 ==> #[trigger] entries[j] is Some
}

/// The records of the readable entries; an unreadable last entry (a truncated write) is dropped.
pub open spec fn loaded_records(entries: Seq<Option<AuditRecord>>) -> Seq<AuditRecord> {
    let kept = if entries.len() > 0 && entries.last() is None {
        entries.drop_last()
    } else {
        entries
    };
    kept.map_values(|o: Option<AuditRecord>| o->Some_0)
}

impl AuditTrail {
    /// Rebuilds the window from persisted entries. A damaged entry before the last, or a
    /// chain that does not hold from "genesis" on, is an error; otherwise the newest
    /// `max_records` records form the window.
    pub fn from_loaded(entries: Vec<Option<AuditRecord>>, max_records: usize) -> (r: Result<
        AuditTrail,
        AuditLoadError,
    >)
        ensures
            r matches Err(AuditLoadError::MalformedRecord(i)) ==> i + 1 < entries@.len()
                && entries@[i as int] is None && forall|j: int| 0 <= j < i ==> #[trigger] entries@[j] is Some,
            r matches Err(AuditLoadError::BrokenChain(i)) ==> readable_prefix(entries@) && i
                < loaded_records(entries@).len() && !link_ok(loaded_records(entries@), genesis(), i as int)
                && forall|j: int| 0 <= j < i ==> #[trigger] link_ok(loaded_records(entries@), genesis(), j),
            r is Ok <==> readable_prefix(entries@) && chain_intact(loaded_records(entries@), genesis()),
            r matches Ok(t) ==> {
                let all = loaded_records(entries@);
                let n = if all.len() < max_records {
                    all.len() as int
                } else {
                    max_records as int
                };
                &&& t.wf()
                &&& t.max_records == max_records
                &&& t.records@ == all.subrange(all.len() - n, all.len() as int)
                &&& all.len() > 0 ==> t.last_hash@ == all.last().record_hash@
            },
    {
        let ghost es = entries@;
        let n = entries.len();
        let mut all: Vec<AuditRecord> = Vec::new();
        let mut i: usize = 0;
        while i < n
            invariant
                n == es.len(),
                es == entries@,
                i <= n,
                forall|j: int| 0 <= j < i && j < n - 1 ==> #[trigger] es[j] is Some,
                i < n ==> all@.len() == i,
                i < n ==> all@ =~= es.subrange(0, i as int).map_values(|o: Option<AuditRecord>| o->Some_0),
                i == n ==> all@ =~= loaded_records(es),
                i == n ==> readable_prefix(es),
            decreases n - i,
        {
            match &entries[i] {
                Some(rec) => {
                    all.push(rec.duplicate());
                    proof {
                        assert(es.subrange(0, i + 1) =~= es.subrange(0, i as int).push(es[i as int]));
                    }
                },
                None => {
                    if i + 1 < n {
                        return Err(AuditLoadError::MalformedRecord(i));
                    }
                    proof {
                        assert(es.drop_last() =~= es.subrange(0, i as int));
                    }
                },
            }
            i = i + 1;
            proof {
                if i == n {
                    if es[n - 1] is Some {
                        assert(es.subrange(0, n as int) =~= es);
                    }
                }
            }
        }
        if n == 0 {
            assert(all@ =~= loaded_records(es));
        }
        match first_broken_link(&all, "genesis") {
            Some(k) => {
                return Err(AuditLoadError::BrokenChain(k));
            },
            None => {},
        }
        let total = all.len();
        let start: usize = if total > max_records {
            total - max_records
        } else {
            0
        };
        let base = if start > 0 {
            all[start - 1].record_hash.clone()
        } else {
            text_of("genesis")
        };
        let last_hash = if total > 0 {
            all[total - 1].record_hash.clone()
        } else {
            text_of("genesis")
        };
        let mut records: Vec<AuditRecord> = Vec::new();
        let mut k: usize = start;
        while k < total
            invariant
                start <= k <= total,
                total == all@.len(),
                records@ =~= all@.subrange(start as int, k as int),
            decreases total - k,
        {
            records.push(all[k].duplicate());
            k = k + 1;
        }
        let t = AuditTrail { records, max_records, last_hash, base_hash: base };
        assert(chain_intact(t.records@, t.base_hash@)) by {
            assert forall|m: int| 0 <= m < t.records@.len() implies #[trigger] link_ok(t.records@, t.base_hash@, m) by {
                assert(link_ok(all@, genesis(), start + m));
                assert(t.records@[m] == all@[start + m]);
                if m > 0 {
                    assert(t.records@[m - 1] == all@[start + m - 1]);
                }
            }
        }
        Ok(t)
    }
}

/// In a well-formed trail every record after the first links to its predecessor's hash,
/// and every record's hash is the SHA-256 hex of its canonical contents.
pub proof fn lemma_trail_links(t: AuditTrail, i: int)
    requires
        t.wf(),
        0 <= i < t.records@.len(),
    ensures
        i > 0 ==> t.records@[i].previous_hash@ == t.records@[i - 1].record_hash@,
        i == 0 ==> t.records@[i].previous_hash@ == t.base_hash@,
        t.records@[i].record_hash@ == record_hash_text(
            t.records@[i].id@,
            t.records@[i].timestamp@,
            t.records@[i].agent@,
            t.records@[i].action@,
            t.records@[i].details@,
            t.records@[i].previous_hash@,
        ),
{
    assert(link_ok(t.records@, t.base_hash@, i));
}

} // verus!
