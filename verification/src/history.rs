//! The transcript history: validated entries kept newest-first by their
//! timestamp strings, with paginated listing, lookup and deletion by id.
//! Reading and writing the backing file is the surrounding application's
//! concern; the ordering, validation and paging rules live here.

use vstd::prelude::*;

use crate::text::trimmed_spec;
use crate::text::trim_str;

verus! {

/// Lexicographic order on character sequences by code point, which for the
/// timestamp strings kept here (RFC 3339 with a fixed layout) is
/// chronological order.
pub open spec fn lex_le(a: Seq<char>, b: Seq<char>) -> bool
    decreases a.len(),
{
    if a.len() == 0 {
        true
    } else if b.len() == 0 {
        false
    } else if (a[0] as u32) < (b[0] as u32) {
        true
    } else if (a[0] as u32) > (b[0] as u32) {
        false
    } else {
        lex_le(a.drop_first(), b.drop_first())
    }
}

pub proof fn lemma_lex_le_total(a: Seq<char>, b: Seq<char>)
    ensures
        lex_le(a, b) || lex_le(b, a),
    decreases a.len(),
{
    if a.len() > 0 && b.len() > 0 && (a[0] as u32) == (b[0] as u32) {
        lemma_lex_le_total(a.drop_first(), b.drop_first());
    }
}

pub proof fn lemma_lex_le_trans(a: Seq<char>, b: Seq<char>, c: Seq<char>)
    requires
        lex_le(a, b),
        lex_le(b, c),
    ensures
        lex_le(a, c),
    decreases a.len(),
{
    if a.len() > 0 && b.len() > 0 && c.len() > 0 && (a[0] as u32) == (b[0] as u32) && (b[0] as u32)
        == (c[0] as u32) {
        lemma_lex_le_trans(a.drop_first(), b.drop_first(), c.drop_first());
    }
}

/// Compares two strings in lexicographic code-point order.
pub fn str_le(a: &str, b: &str) -> (r: bool)
    ensures
        r == lex_le(a@, b@),
{
    let a_len = a.unicode_len();
    let b_len = b.unicode_len();
    let mut i: usize = 0;
    proof {
        assert(a@.skip(0) == a@);
        assert(b@.skip(0) == b@);
    }
    loop
        invariant_except_break
            a_len == a@.len(),
            b_len == b@.len(),
            0 <= i <= a_len,
            i <= b_len,
            lex_le(a@, b@) == lex_le(a@.skip(i as int), b@.skip(i as int)),
        ensures
            0 <= i <= a_len,
            i <= b_len,
            lex_le(a@, b@) == lex_le(a@.skip(i as int), b@.skip(i as int)),
            (i >= a_len || i >= b_len) || (a@[i as int] as u32) != (b@[i as int] as u32),
        decreases a_len - i,
    {
        if i >= a_len || i >= b_len {
            break;
        }
        let ca = a.get_char(i) as u32;
        let cb = b.get_char(i) as u32;
        proof {
            assert(a@.skip(i as int)[0] == a@[i as int]);
            assert(b@.skip(i as int)[0] == b@[i as int]);
            assert(a@.skip(i as int).drop_first() == a@.skip(i + 1));
            assert(b@.skip(i as int).drop_first() == b@.skip(i + 1));
        }
        if ca != cb {
            break;
        }
        i += 1;
    }
    proof {
        assert(a@.skip(i as int).len() == a@.len() - i);
        assert(b@.skip(i as int).len() == b@.len() - i);
    }
    if i >= a_len {
        true
    } else if i >= b_len {
        false
    } else {
        let ca = a.get_char(i) as u32;
        let cb = b.get_char(i) as u32;
        proof {
            assert(a@.skip(i as int)[0] == a@[i as int]);
            assert(b@.skip(i as int)[0] == b@[i as int]);
        }
        ca < cb
    }
}

/// One finished transcription, as kept in the history. The optional
/// duration is carried in milliseconds so it is a plain integer.
#[derive(Debug)]
pub struct HistoryEntry {
    pub id: String,
    pub text: String,
    pub timestamp: String,
    pub duration_millis: Option<u64>,
    pub language: Option<String>,
    pub provider: String,
}

impl HistoryEntry {
    /// A storable entry: id, text, timestamp and provider are all non-blank.
    pub open spec fn valid_spec(&self) -> bool {
        &&& trimmed_spec(self.id@).len() > 0
        &&& trimmed_spec(self.text@).len() > 0
        &&& trimmed_spec(self.timestamp@).len() > 0
        &&& trimmed_spec(self.provider@).len() > 0
    }

    /// Builds an entry from a freshly generated id and timestamp (which the
    /// surrounding application supplies): the language hint is dropped when
    /// blank and trimmed otherwise, and the provider name is trimmed.
    pub fn new(
        id: String,
        timestamp: String,
        text: String,
        duration_millis: Option<u64>,
        language: Option<String>,
        provider: String,
    ) -> (r: HistoryEntry)
        ensures
            r.id == id,
            r.timestamp == timestamp,
            r.text == text,
            r.duration_millis == duration_millis,
            match language {
                Option::Some(l) => {
                    &&& (r.language is Some <==> trimmed_spec(l@).len() > 0)
                    &&& (r.language matches Option::Some(t) ==> t@ == trimmed_spec(l@))
                },
                Option::None => r.language is None,
            },
            r.provider@ == trimmed_spec(provider@),
    {
        HistoryEntry {
            id,
            text,
            timestamp,
            duration_millis,
            language: crate::text::normalize_optional_string(language),
            provider: trim_str(provider.as_str()),
        }
    }
}

impl Clone for HistoryEntry {
    fn clone(&self) -> (r: HistoryEntry)
        ensures
            r == *self,
    {
        let r = HistoryEntry {
            id: self.id.clone(),
            text: self.text.clone(),
            timestamp: self.timestamp.clone(),
            duration_millis: self.duration_millis,
            language: match &self.language {
                Option::Some(l) => Option::Some(l.clone()),
                Option::None => Option::None,
            },
            provider: self.provider.clone(),
        };
        r
    }
}

impl vstd::std_specs::cmp::PartialEqSpecImpl for HistoryEntry {
    open spec fn obeys_eq_spec() -> bool {
        true
    }

    open spec fn eq_spec(&self, other: &HistoryEntry) -> bool {
        &&& self.id@ == other.id@
        &&& self.text@ == other.text@
        &&& self.timestamp@ == other.timestamp@
        &&& self.duration_millis == other.duration_millis
        &&& match (self.language, other.language) {
            (Option::Some(a), Option::Some(b)) => a@ == b@,
            (Option::None, Option::None) => true,
            _ => false,
        }
        &&& self.provider@ == other.provider@
    }
}

impl PartialEq for HistoryEntry {
    fn eq(&self, other: &HistoryEntry) -> (r: bool) {
        let language_eq = match (&self.language, &other.language) {
            (Option::Some(a), Option::Some(b)) => a.eq(b),
            (Option::None, Option::None) => true,
            _ => false,
        };
        let duration_eq = match (self.duration_millis, other.duration_millis) {
            (Option::Some(a), Option::Some(b)) => a == b,
            (Option::None, Option::None) => true,
            _ => false,
        };
        self.id.eq(&other.id) && self.text.eq(&other.text) && self.timestamp.eq(&other.timestamp)
            && duration_eq && language_eq && self.provider.eq(&other.provider)
    }
}

fn is_blank(s: &str) -> (r: bool)
    ensures
        r == (trimmed_spec(s@).len() == 0),
{
    let t = trim_str(s);
    t.as_str().unicode_len() == 0
}

/// Checks an entry for storability, reporting the first missing field.
pub fn validate_entry(entry: &HistoryEntry) -> (r: Result<(), String>)
    ensures
        r is Ok <==> entry.valid_spec(),
        trimmed_spec(entry.id@).len() == 0 ==> (r matches Result::Err(m) && m@
            == "History entry id cannot be empty"@),
        (trimmed_spec(entry.id@).len() > 0 && trimmed_spec(entry.text@).len() == 0) ==> (
        r matches Result::Err(m) && m@ == "History entry text cannot be empty"@),
        (trimmed_spec(entry.id@).len() > 0 && trimmed_spec(entry.text@).len() > 0 && trimmed_spec(
            entry.timestamp@,
        ).len() == 0) ==> (r matches Result::Err(m) && m@
            == "History entry timestamp cannot be empty"@),
        (trimmed_spec(entry.id@).len() > 0 && trimmed_spec(entry.text@).len() > 0 && trimmed_spec(
            entry.timestamp@,
        ).len() > 0 && trimmed_spec(entry.provider@).len() == 0) ==> (r matches Result::Err(m)
            && m@ == "History entry provider cannot be empty"@),
{
    if is_blank(entry.id.as_str()) {
        return Result::Err(String::from_str("History entry id cannot be empty"));
    }
    if is_blank(entry.text.as_str()) {
        return Result::Err(String::from_str("History entry text cannot be empty"));
    }
    if is_blank(entry.timestamp.as_str()) {
        return Result::Err(String::from_str("History entry timestamp cannot be empty"));
    }
    if is_blank(entry.provider.as_str()) {
        return Result::Err(String::from_str("History entry provider cannot be empty"));
    }
    Result::Ok(())
}

/// The largest page `list_entries` hands out at once.
pub const MAX_HISTORY_PAGE_SIZE: usize = 200;

/// Entries newest-first: every earlier entry's timestamp is at least every
/// later one's.
pub open spec fn sorted_newest_first(entries: Seq<HistoryEntry>) -> bool {
    forall|i: int, j: int|
        0 <= i < j < entries.len() ==> lex_le(entries[j].timestamp@, entries[i].timestamp@)
}

/// Where a new entry goes: after the leading run of entries whose timestamps
/// are at least its own.
pub open spec fn insert_pos(entries: Seq<HistoryEntry>, ts: Seq<char>) -> int
    decreases entries.len(),
{
    if entries.len() == 0 {
        0
    } else if lex_le(ts, entries[0].timestamp@) {
        1 + insert_pos(entries.drop_first(), ts)
    } else {
        0
    }
}

proof fn lemma_insert_pos_at(entries: Seq<HistoryEntry>, ts: Seq<char>, k: int)
    requires
        0 <= k <= entries.len(),
        forall|i: int| 0 <= i < k ==> lex_le(ts, entries[i].timestamp@),
        k == entries.len() || !lex_le(ts, entries[k].timestamp@),
    ensures
        insert_pos(entries, ts) == k,
    decreases k,
{
    if k == 0 {
    } else {
        lemma_insert_pos_at(entries.drop_first(), ts, k - 1);
    }
}

/// Keeping an entry means its id differs from the one being deleted.
pub open spec fn keeps_other_id(id: Seq<char>) -> spec_fn(HistoryEntry) -> bool {
    |e: HistoryEntry| e.id@ != id
}

proof fn lemma_filter_subset(s: Seq<HistoryEntry>, p: spec_fn(HistoryEntry) -> bool)
    ensures
        forall|i: int|
            0 <= i < s.filter(p).len() ==> exists|k: int|
                0 <= k < s.len() && s[k] == #[trigger] s.filter(p)[i],
    decreases s.len(),
{
    reveal(Seq::filter);
    if s.len() > 0 {
        let r = s.drop_last();
        lemma_filter_subset(r, p);
        let f = s.filter(p);
        let fr = r.filter(p);
        assert forall|i: int| 0 <= i < f.len() implies exists|k: int|
            0 <= k < s.len() && s[k] == #[trigger] f[i] by {
            if p(s.last()) && i == f.len() - 1 {
                assert(s[s.len() - 1] == f[i]);
            } else {
                assert(f[i] == fr[i]);
                let k = choose|k: int| 0 <= k < r.len() && r[k] == fr[i];
                assert(s[k] == f[i]);
            }
        }
    }
}

proof fn lemma_filter_keeps_wf(s: Seq<HistoryEntry>, p: spec_fn(HistoryEntry) -> bool)
    requires
        sorted_newest_first(s),
        forall|i: int| 0 <= i < s.len() ==> s[i].valid_spec(),
    ensures
        sorted_newest_first(s.filter(p)),
        forall|i: int| 0 <= i < s.filter(p).len() ==> s.filter(p)[i].valid_spec(),
    decreases s.len(),
{
    reveal(Seq::filter);
    lemma_filter_subset(s, p);
    if s.len() > 0 {
        let r = s.drop_last();
        assert forall|i: int, j: int| 0 <= i < j < r.len() implies lex_le(
            r[j].timestamp@,
            r[i].timestamp@,
        ) by {
            assert(r[i] == s[i] && r[j] == s[j]);
        }
        lemma_filter_keeps_wf(r, p);
        let f = s.filter(p);
        let fr = r.filter(p);
        if p(s.last()) {
            lemma_filter_subset(r, p);
            assert forall|i: int, j: int| 0 <= i < j < f.len() implies lex_le(
                f[j].timestamp@,
                f[i].timestamp@,
            ) by {
                if j < f.len() - 1 {
                    assert(f[i] == fr[i] && f[j] == fr[j]);
                } else {
                    assert(f[j] == s.last());
                    assert(f[i] == fr[i]);
                    let k = choose|k: int| 0 <= k < r.len() && r[k] == fr[i];
                    assert(s[k] == f[i]);
                    assert(lex_le(s[s.len() - 1].timestamp@, s[k].timestamp@));
                }
            }
        }
    }
}

/// The in-memory transcript history.
pub struct HistoryStore {
    entries: Vec<HistoryEntry>,
}

impl HistoryStore {
    pub closed spec fn entries_spec(&self) -> Seq<HistoryEntry> {
        self.entries@
    }

    pub open spec fn wf(&self) -> bool {
        &&& sorted_newest_first(self.entries_spec())
        &&& forall|i: int| 0 <= i < self.entries_spec().len() ==> self.entries_spec()[i].valid_spec()
    }

    pub fn new() -> (r: HistoryStore)
        ensures
            r.wf(),
            r.entries_spec() == Seq::<HistoryEntry>::empty(),
    {
        HistoryStore { entries: Vec::new() }
    }

    /// Stores a validated entry at its timestamp position, newest first;
    /// among equal timestamps the newcomer goes after the existing ones.
    /// Rejects an entry with a blank required field — naming the first
    /// missing field, as `validate_entry` does — and leaves the history
    /// unchanged.
    pub fn add_entry(&mut self, entry: HistoryEntry) -> (r: Result<(), String>)
        requires
            old(self).wf(),
        ensures
            final(self).wf(),
            r is Ok <==> entry.valid_spec(),
            entry.valid_spec() ==> final(self).entries_spec() == old(self).entries_spec().insert(
                insert_pos(old(self).entries_spec(), entry.timestamp@),
                entry,
            ),
            !entry.valid_spec() ==> final(self).entries_spec() == old(self).entries_spec(),
            trimmed_spec(entry.id@).len() == 0 ==> (r matches Result::Err(m) && m@
                == "History entry id cannot be empty"@),
            (trimmed_spec(entry.id@).len() > 0 && trimmed_spec(entry.text@).len() == 0) ==> (
            r matches Result::Err(m) && m@ == "History entry text cannot be empty"@),
            (trimmed_spec(entry.id@).len() > 0 && trimmed_spec(entry.text@).len() > 0
                && trimmed_spec(entry.timestamp@).len() == 0) ==> (r matches Result::Err(m) && m@
                == "History entry timestamp cannot be empty"@),
            (trimmed_spec(entry.id@).len() > 0 && trimmed_spec(entry.text@).len() > 0
                && trimmed_spec(entry.timestamp@).len() > 0 && trimmed_spec(
                entry.provider@,
            ).len() == 0) ==> (r matches Result::Err(m) && m@
                == "History entry provider cannot be empty"@),
    {
        if let Result::Err(m) = validate_entry(&entry) {
            return Result::Err(m);
        }
        let n = self.entries.len();
        let mut pos: usize = 0;
        while pos < n && str_le(entry.timestamp.as_str(), self.entries[pos].timestamp.as_str())
            invariant
                n == self.entries@.len(),
                0 <= pos <= n,
                forall|i: int| 0 <= i < pos ==> lex_le(entry.timestamp@, self.entries@[i].timestamp@),
            decreases n - pos,
        {
            pos += 1;
        }
        proof {
            lemma_insert_pos_at(self.entries@, entry.timestamp@, pos as int);
        }
        let ghost pre = self.entries@;
        let ghost p = pos as int;
        self.entries.insert(pos, entry);
        proof {
            let post = self.entries@;
            assert forall|i: int, j: int| 0 <= i < j < post.len() implies lex_le(
                post[j].timestamp@,
                post[i].timestamp@,
            ) by {
                lemma_lex_le_total(entry.timestamp@, pre[if p < pre.len() {
                    p
                } else {
                    0
                }].timestamp@);
                if i < p && j == p {
                    assert(lex_le(entry.timestamp@, pre[i].timestamp@));
                } else if i == p && j > p {
                    assert(post[j] == pre[j - 1]);
                    assert(!lex_le(entry.timestamp@, pre[p].timestamp@));
                    lemma_lex_le_total(entry.timestamp@, pre[p].timestamp@);
                    if j - 1 > p {
                        assert(lex_le(pre[j - 1].timestamp@, pre[p].timestamp@));
                        lemma_lex_le_trans(
                            pre[j - 1].timestamp@,
                            pre[p].timestamp@,
                            entry.timestamp@,
                        );
                    }
                } else if i < p && j > p {
                    assert(post[i] == pre[i]);
                    assert(post[j] == pre[j - 1]);
                } else if j < p {
                    assert(post[i] == pre[i]);
                    assert(post[j] == pre[j]);
                } else if i > p {
                    assert(post[i] == pre[i - 1]);
                    assert(post[j] == pre[j - 1]);
                }
            }
        }
        Result::Ok(())
    }

    /// A page of the history, newest first: `offset` entries are skipped and
    /// at most `limit` entries are returned, never more than the page cap.
    /// A zero limit yields an empty page.
    pub fn list_entries(&self, limit: usize, offset: usize) -> (r: Result<
        Vec<HistoryEntry>,
        String,
    >)
        ensures
            r matches Result::Ok(page) && {
                let entries = self.entries_spec();
                let start: int = if offset <= entries.len() {
                    offset as int
                } else {
                    entries.len() as int
                };
                let cap: int = if limit <= MAX_HISTORY_PAGE_SIZE {
                    limit as int
                } else {
                    MAX_HISTORY_PAGE_SIZE as int
                };
                let take: int = if cap <= entries.len() - start {
                    cap
                } else {
                    entries.len() - start
                };
                page@ == entries.subrange(start, start + take)
            },
    {
        let n = self.entries.len();
        let start = if offset <= n {
            offset
        } else {
            n
        };
        let cap = if limit <= MAX_HISTORY_PAGE_SIZE {
            limit
        } else {
            MAX_HISTORY_PAGE_SIZE
        };
        let take = if cap <= n - start {
            cap
        } else {
            n - start
        };
        let mut page: Vec<HistoryEntry> = Vec::new();
        let mut i: usize = 0;
        while i < take
            invariant
                n == self.entries@.len(),
                start + take <= n,
                0 <= i <= take,
                page@ == self.entries@.subrange(start as int, start as int + i as int),
            decreases take - i,
        {
            let item = self.entries[start + i].clone();
            page.push(item);
            proof {
                assert(page@ =~= self.entries@.subrange(start as int, start as int + i + 1));
            }
            i += 1;
        }
        Result::Ok(page)
    }

    /// The first entry with the given id, if any.
    pub fn get_entry(&self, id: &str) -> (r: Result<Option<HistoryEntry>, String>)
        ensures
            match r {
                Result::Ok(found) => match found {
                    Option::Some(e) => exists|i: int|
                        0 <= i < self.entries_spec().len() && self.entries_spec()[i] == e
                            && e.id@ == id@ && (forall|j: int|
                            0 <= j < i ==> self.entries_spec()[j].id@ != id@),
                    Option::None => forall|i: int|
                        0 <= i < self.entries_spec().len() ==> self.entries_spec()[i].id@ != id@,
                },
                Result::Err(_) => false,
            },
    {
        let n = self.entries.len();
        let mut i: usize = 0;
        while i < n
            invariant
                n == self.entries@.len(),
                0 <= i <= n,
                forall|j: int| 0 <= j < i ==> self.entries@[j].id@ != id@,
            decreases n - i,
        {
            let matches_id = {
                let wanted = String::from_str(id);
                self.entries[i].id.eq(&wanted)
            };
            if matches_id {
                return Result::Ok(Option::Some(self.entries[i].clone()));
            }
            i += 1;
        }
        Result::Ok(Option::None)
    }

    /// Removes every entry with the given id; reports whether any was
    /// removed.
    pub fn delete_entry(&mut self, id: &str) -> (r: Result<bool, String>)
        ensures
            final(self).entries_spec() == old(self).entries_spec().filter(keeps_other_id(id@)),
            r matches Result::Ok(deleted) && deleted == (final(self).entries_spec().len() != old(
                self,
            ).entries_spec().len()),
            old(self).wf() ==> final(self).wf(),
    {
        proof {
            if self.wf() {
                lemma_filter_keeps_wf(self.entries@, keeps_other_id(id@));
            }
        }
        let ghost pred = keeps_other_id(id@);
        let n = self.entries.len();
        let mut kept: Vec<HistoryEntry> = Vec::new();
        let mut i: usize = 0;
        proof {
            reveal(Seq::filter);
            assert(self.entries@.take(0).filter(pred) =~= Seq::<HistoryEntry>::empty());
        }
        while i < n
            invariant
                n == self.entries@.len(),
                0 <= i <= n,
                pred == keeps_other_id(id@),
                kept@ == self.entries@.take(i as int).filter(pred),
            decreases n - i,
        {
            let ghost before = self.entries@.take(i as int);
            proof {
                reveal(Seq::filter);
                let e = self.entries@[i as int];
                assert(self.entries@.take(i + 1).drop_last() == before);
                assert(self.entries@.take(i + 1).last() == e);
                assert(pred(e) == (e.id@ != id@));
                assert(self.entries@.take(i + 1).filter(pred) == if pred(e) {
                    before.filter(pred).push(e)
                } else {
                    before.filter(pred)
                });
            }
            let keep = {
                let wanted = String::from_str(id);
                !self.entries[i].id.eq(&wanted)
            };
            if keep {
                kept.push(self.entries[i].clone());
            }
            i += 1;
        }
        proof {
            assert(self.entries@.take(n as int) == self.entries@);
        }
        let deleted = kept.len() != self.entries.len();
        self.entries = kept;
        Result::Ok(deleted)
    }

    /// Empties the history.
    pub fn clear_history(&mut self) -> (r: Result<(), String>)
        ensures
            final(self).wf(),
            final(self).entries_spec() == Seq::<HistoryEntry>::empty(),
            r is Ok,
    {
        self.entries = Vec::new();
        Result::Ok(())
    }
}

} // verus!
