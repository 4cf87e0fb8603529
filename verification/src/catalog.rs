//! The model catalog as the client browses it: catalog entries, the search
//! filter with its ordering, the rows of the model browser, and the plain
//! text listing printed by `/model list`.

use vstd::prelude::*;
use crate::text::{
    ascii_lower_seq, ascii_lowercase, concat2, contains_seq, contains_str, copy_str, decimal, join,
    string_views, trim, trim_str, u64_to_string,
};

verus! {

/// Release status of a model.
#[derive(Debug, Clone, Copy, PartialEq, Eq, Structural)]
pub enum ModelStatus {
    Stable,
    Preview,
    Deprecated,
}

/// Where a catalog entry came from.
#[derive(Debug, Clone, Copy, PartialEq, Eq, Structural)]
pub enum ModelSource {
    /// The provider's documentation (built into the client).
    Docs,
    /// The provider's model-listing API.
    Api,
}

/// One model of the catalog.
#[derive(Debug, Clone, PartialEq, Eq)]
pub struct ModelCatalogEntry {
    pub id: String,
    pub provider: String,
    pub recommended_for_coding: bool,
    pub status: ModelStatus,
    pub source: ModelSource,
    pub available: bool,
}

/// The mathematical content of a [`ModelCatalogEntry`].
pub struct EntryView {
    pub id: Seq<char>,
    pub provider: Seq<char>,
    pub recommended_for_coding: bool,
    pub status: ModelStatus,
    pub source: ModelSource,
    pub available: bool,
}

impl View for ModelCatalogEntry {
    type V = EntryView;

    open spec fn view(&self) -> EntryView {
        EntryView {
            id: self.id@,
            provider: self.provider@,
            recommended_for_coding: self.recommended_for_coding,
            status: self.status,
            source: self.source,
            available: self.available,
        }
    }
}

impl ModelCatalogEntry {
    /// A copy of the entry.
    pub fn copy(&self) -> (r: ModelCatalogEntry)
        ensures
            r@ == self@,
    {
        ModelCatalogEntry {
            id: copy_str(self.id.as_str()),
            provider: copy_str(self.provider.as_str()),
            recommended_for_coding: self.recommended_for_coding,
            status: self.status,
            source: self.source,
            available: self.available,
        }
    }
}

/// The texts of a list of catalog entries.
pub open spec fn entry_views(v: Seq<ModelCatalogEntry>) -> Seq<EntryView> {
    Seq::new(v.len(), |i: int| v[i]@)
}

/// A copy of a list of catalog entries.
pub fn copy_entries(v: &Vec<ModelCatalogEntry>) -> (r: Vec<ModelCatalogEntry>)
    ensures
        entry_views(r@) == entry_views(v@),
{
    let mut r: Vec<ModelCatalogEntry> = Vec::new();
    let mut i: usize = 0;
    while i < v.len()
        invariant
            0 <= i <= v.len(),
            entry_views(r@) == entry_views(v@).take(i as int),
        decreases v.len() - i,
    {
        let ghost before = r@;
        r.push(v[i].copy());
        assert(entry_views(r@) =~= entry_views(before).push(v@[i as int]@));
        assert(entry_views(v@).take(i + 1) =~= entry_views(v@).take(i as int).push(v@[i as int]@));
        i = i + 1;
    }
    assert(entry_views(v@).take(v.len() as int) =~= entry_views(v@));
    r
}

// ─── Ordering of model ids ──────────────────────────────────────────────────

/// `a` sorts before or equal to `b` (lexicographic order of code points, as
/// `String`'s `Ord` compares).
pub open spec fn text_le(a: Seq<char>, b: Seq<char>) -> bool
    decreases a.len(),
{
    if a.len() == 0 {
        true
    } else if b.len() == 0 {
        false
    } else if a[0] != b[0] {
        (a[0] as u32) < (b[0] as u32)
    } else {
        text_le(a.drop_first(), b.drop_first())
    }
}

/// Whether `a` sorts before or equal to `b`.
pub fn text_le_exec(a: &Vec<char>, b: &Vec<char>) -> (r: bool)
    ensures
        r == text_le(a@, b@),
{
    let mut i: usize = 0;
    assert(a@.skip(0) =~= a@);
    assert(b@.skip(0) =~= b@);
    while i < a.len() && i < b.len()
        invariant
            0 <= i <= a.len(),
            i <= b.len(),
            text_le(a@, b@) == text_le(a@.skip(i as int), b@.skip(i as int)),
        decreases a.len() - i,
    {
        assert(a@.skip(i as int)[0] == a@[i as int]);
        assert(b@.skip(i as int)[0] == b@[i as int]);
        if a[i] != b[i] {
            return (a[i] as u32) < (b[i] as u32);
        }
        assert(a@.skip(i as int).drop_first() =~= a@.skip(i + 1));
        assert(b@.skip(i as int).drop_first() =~= b@.skip(i + 1));
        i = i + 1;
    }
    i == a.len()
}

/// `e` placed into `s` right after the last element (scanning from the end)
/// whose id sorts before or equal to `e`'s: one step of a stable insertion sort.
pub open spec fn insert_by_id(s: Seq<EntryView>, e: EntryView) -> Seq<EntryView>
    decreases s.len(),
{
    if s.len() == 0 {
        seq![e]
    } else if text_le(s.last().id, e.id) {
        s.push(e)
    } else {
        insert_by_id(s.drop_last(), e).push(s.last())
    }
}

/// `s` stably sorted by id.
pub open spec fn sort_by_id(s: Seq<EntryView>) -> Seq<EntryView>
    decreases s.len(),
{
    if s.len() == 0 {
        Seq::empty()
    } else {
        insert_by_id(sort_by_id(s.drop_last()), s.last())
    }
}

/// Position of the scan of [`insert_by_id`]: one past the last element,
/// scanning from index `p - 1` down, whose id sorts before or equal to `id`.
pub open spec fn insert_pos(s: Seq<EntryView>, id: Seq<char>, p: int) -> int
    decreases p,
{
    if p <= 0 {
        0
    } else if text_le(s[p - 1].id, id) {
        p
    } else {
        insert_pos(s, id, p - 1)
    }
}

proof fn lemma_insert_by_id_pos(s: Seq<EntryView>, e: EntryView)
    ensures
        0 <= insert_pos(s, e.id, s.len() as int) <= s.len(),
        insert_by_id(s, e) == s.take(insert_pos(s, e.id, s.len() as int)).push(e) + s.skip(
            insert_pos(s, e.id, s.len() as int),
        ),
    decreases s.len(),
{
    let p = insert_pos(s, e.id, s.len() as int);
    if s.len() == 0 {
        assert(s.take(0).push(e) + s.skip(0) =~= seq![e]);
    } else if text_le(s.last().id, e.id) {
        assert(s.take(s.len() as int).push(e) + s.skip(s.len() as int) =~= s.push(e));
    } else {
        let t = s.drop_last();
        lemma_insert_by_id_pos(t, e);
        lemma_insert_pos_prefix(s, e.id, s.len() - 1);
        let q = insert_pos(t, e.id, t.len() as int);
        assert(p == q);
        assert(t.take(q).push(e) + t.skip(q) + seq![s.last()] =~= s.take(p).push(e) + s.skip(p));
        assert(insert_by_id(s, e) == insert_by_id(t, e).push(s.last()));
        assert((t.take(q).push(e) + t.skip(q)).push(s.last()) =~= t.take(q).push(e) + t.skip(q)
            + seq![s.last()]);
    }
}

proof fn lemma_insert_pos_prefix(s: Seq<EntryView>, id: Seq<char>, p: int)
    requires
        0 <= p <= s.len(),
    ensures
        insert_pos(s, id, p) == insert_pos(s.take(p), id, p),
        0 <= insert_pos(s, id, p) <= p,
    decreases p,
{
    if p > 0 {
        lemma_insert_pos_prefix(s, id, p - 1);
        lemma_insert_pos_prefix(s.take(p), id, p - 1);
        assert(s.take(p).take(p - 1) =~= s.take(p - 1));
    }
}

/// `e` inserted into `v` as [`insert_by_id`] describes.
fn insert_entry(v: &mut Vec<ModelCatalogEntry>, e: ModelCatalogEntry)
    ensures
        entry_views(final(v)@) == insert_by_id(entry_views(old(v)@), e@),
{
    let ghost s = entry_views(v@);
    let eid = crate::text::chars_of(e.id.as_str());
    let mut p: usize = v.len();
    while p > 0
        invariant
            0 <= p <= v.len(),
            s == entry_views(v@),
            eid@ == e.id@,
            insert_pos(s, e.id@, s.len() as int) == insert_pos(s, e.id@, p as int),
        ensures
            0 <= p <= v.len(),
            insert_pos(s, e.id@, s.len() as int) == insert_pos(s, e.id@, p as int),
            p == 0 || text_le(s[p - 1].id, e.id@),
        decreases p,
    {
        let cur = crate::text::chars_of(v[p - 1].id.as_str());
        assert(s[p - 1] == v@[p - 1]@);
        if text_le_exec(&cur, &eid) {
            break;
        }
        p = p - 1;
    }
    proof {
        lemma_insert_by_id_pos(s, e@);
    }
    assert(insert_pos(s, e.id@, p as int) == p);
    v.insert(p, e);
    assert(entry_views(v@) =~= s.take(p as int).push(e@) + s.skip(p as int));
}

// ─── Search ─────────────────────────────────────────────────────────────────

/// Entry `e` matches the normalized query `q` (case-insensitive substring of
/// the id or the provider; everything matches a blank query).
pub open spec fn entry_matches(e: EntryView, q: Seq<char>) -> bool {
    q.len() == 0 || contains_seq(ascii_lower_seq(e.id), q) || contains_seq(
        ascii_lower_seq(e.provider),
        q,
    )
}

/// Entries of `s` kept by the search: matching `q`, and recommended for
/// coding unless `include_all`.
pub open spec fn filter_entries(s: Seq<EntryView>, q: Seq<char>, include_all: bool) -> Seq<
    EntryView,
>
    decreases s.len(),
{
    if s.len() == 0 {
        Seq::empty()
    } else if (include_all || s.last().recommended_for_coding) && entry_matches(s.last(), q) {
        filter_entries(s.drop_last(), q, include_all).push(s.last())
    } else {
        filter_entries(s.drop_last(), q, include_all)
    }
}

/// The catalog search: the kept entries, stably sorted by id.
pub open spec fn filtered(s: Seq<EntryView>, query: Seq<char>, include_all: bool) -> Seq<
    EntryView,
> {
    sort_by_id(filter_entries(s, ascii_lower_seq(trim(query)), include_all))
}

/// Whether `e` matches the normalized query `q`.
fn matches_query(e: &ModelCatalogEntry, q: &str) -> (r: bool)
    ensures
        r == entry_matches(e@, q@),
{
    if q.is_empty() {
        return true;
    }
    let id = ascii_lowercase(e.id.as_str());
    if contains_str(id.as_str(), q) {
        return true;
    }
    let p = ascii_lowercase(e.provider.as_str());
    contains_str(p.as_str(), q)
}

/// The catalog entries matching `query`, recommended ones only unless
/// `include_all`, sorted by id (equal ids keep their catalog order).
pub fn filtered_entries(entries: &Vec<ModelCatalogEntry>, query: &str, include_all: bool) -> (r:
    Vec<ModelCatalogEntry>)
    ensures
        entry_views(r@) == filtered(entry_views(entries@), query@, include_all),
{
    let t = trim_str(query);
    let q = ascii_lowercase(t.as_str());
    let ghost s = entry_views(entries@);
    let mut kept: Vec<ModelCatalogEntry> = Vec::new();
    let mut i: usize = 0;
    while i < entries.len()
        invariant
            0 <= i <= entries.len(),
            s == entry_views(entries@),
            q@ == ascii_lower_seq(trim(query@)),
            entry_views(kept@) == filter_entries(s.take(i as int), q@, include_all),
        decreases entries.len() - i,
    {
        let ghost before = entry_views(kept@);
        assert(s.take(i + 1).drop_last() =~= s.take(i as int));
        assert(s.take(i + 1).last() == entries@[i as int]@);
        if (include_all || entries[i].recommended_for_coding) && matches_query(&entries[i], q.as_str()) {
            kept.push(entries[i].copy());
            assert(entry_views(kept@) =~= before.push(entries@[i as int]@));
        }
        i = i + 1;
    }
    assert(s.take(entries.len() as int) =~= s);
    let ghost k = entry_views(kept@);
    let mut sorted: Vec<ModelCatalogEntry> = Vec::new();
    let mut j: usize = 0;
    assert(k.take(0) =~= Seq::<EntryView>::empty());
    while j < kept.len()
        invariant
            0 <= j <= kept.len(),
            k == entry_views(kept@),
            entry_views(sorted@) == sort_by_id(k.take(j as int)),
        decreases kept.len() - j,
    {
        assert(k.take(j + 1).drop_last() =~= k.take(j as int));
        assert(k.take(j + 1).last() == kept@[j as int]@);
        insert_entry(&mut sorted, kept[j].copy());
        j = j + 1;
    }
    assert(k.take(kept.len() as int) =~= k);
    sorted
}

/// Whether `id` is the id of an entry of `s`.
pub open spec fn has_id(s: Seq<EntryView>, id: Seq<char>) -> bool {
    exists|i: int| 0 <= i < s.len() && s[i].id == id
}

/// Entries of `s` whose id is not among the ids of `excl`.
pub open spec fn without_ids(s: Seq<EntryView>, excl: Seq<EntryView>) -> Seq<EntryView>
    decreases s.len(),
{
    if s.len() == 0 {
        Seq::empty()
    } else if has_id(excl, s.last().id) {
        without_ids(s.drop_last(), excl)
    } else {
        without_ids(s.drop_last(), excl).push(s.last())
    }
}

/// Entries of `s` that are available.
pub open spec fn only_available(s: Seq<EntryView>) -> Seq<EntryView>
    decreases s.len(),
{
    if s.len() == 0 {
        Seq::empty()
    } else if s.last().available {
        only_available(s.drop_last()).push(s.last())
    } else {
        only_available(s.drop_last())
    }
}

/// Rows of the model browser for a query: the recommended matches, then the
/// other matches not already listed, keeping only available models.
pub open spec fn browser_rows(s: Seq<EntryView>, query: Seq<char>) -> Seq<EntryView> {
    let rec = filtered(s, query, false);
    let all = filtered(s, query, true);
    only_available(rec + without_ids(all, rec))
}

/// Whether some entry of `v` has id `id`.
fn contains_id(v: &Vec<ModelCatalogEntry>, id: &str) -> (r: bool)
    ensures
        r == has_id(entry_views(v@), id@),
{
    let mut i: usize = 0;
    while i < v.len()
        invariant
            0 <= i <= v.len(),
            forall|j: int| 0 <= j < i ==> v@[j].id@ != id@,
        decreases v.len() - i,
    {
        if crate::text::str_eq(v[i].id.as_str(), id) {
            assert(entry_views(v@)[i as int].id == id@);
            return true;
        }
        i = i + 1;
    }
    assert forall|j: int| 0 <= j < entry_views(v@).len() implies entry_views(v@)[j].id != id@ by {
        assert(entry_views(v@)[j] == v@[j]@);
    }
    false
}

/// The rows of the model browser for `query` (see [`browser_rows`]).
pub fn visible_model_rows(entries: &Vec<ModelCatalogEntry>, query: &str) -> (r: Vec<
    ModelCatalogEntry,
>)
    ensures
        entry_views(r@) == browser_rows(entry_views(entries@), query@),
{
    let rec = filtered_entries(entries, query, false);
    let all = filtered_entries(entries, query, true);
    let ghost a = entry_views(all@);
    let ghost rv = entry_views(rec@);
    let mut rows = copy_entries(&rec);
    let mut i: usize = 0;
    assert(a.take(0) =~= Seq::<EntryView>::empty());
    assert(rv + Seq::<EntryView>::empty() =~= rv);
    while i < all.len()
        invariant
            0 <= i <= all.len(),
            a == entry_views(all@),
            rv == entry_views(rec@),
            entry_views(rows@) == rv + without_ids(a.take(i as int), rv),
        decreases all.len() - i,
    {
        let ghost before = entry_views(rows@);
        assert(a.take(i + 1).drop_last() =~= a.take(i as int));
        assert(a.take(i + 1).last() == all@[i as int]@);
        if !contains_id(&rec, all[i].id.as_str()) {
            rows.push(all[i].copy());
            assert(entry_views(rows@) =~= before.push(all@[i as int]@));
            assert(rv + without_ids(a.take(i + 1), rv) =~= (rv + without_ids(a.take(i as int), rv)).push(all@[i as int]@));
        }
        i = i + 1;
    }
    assert(a.take(all.len() as int) =~= a);
    let ghost joined = entry_views(rows@);
    let mut out: Vec<ModelCatalogEntry> = Vec::new();
    let mut j: usize = 0;
    assert(joined.take(0) =~= Seq::<EntryView>::empty());
    while j < rows.len()
        invariant
            0 <= j <= rows.len(),
            joined == entry_views(rows@),
            entry_views(out@) == only_available(joined.take(j as int)),
        decreases rows.len() - j,
    {
        let ghost before = entry_views(out@);
        assert(joined.take(j + 1).drop_last() =~= joined.take(j as int));
        assert(joined.take(j + 1).last() == rows@[j as int]@);
        if rows[j].available {
            out.push(rows[j].copy());
            assert(entry_views(out@) =~= before.push(rows@[j as int]@));
        }
        j = j + 1;
    }
    assert(joined.take(rows.len() as int) =~= joined);
    out
}

} // verus!
