//! The search index and its ranking rules.
//!
//! The index is derived from the registry on demand: chapter titles, section
//! titles, the component and type names each section covers, and the curated
//! keyword aliases. Matching is case-insensitive and ranked exact before prefix
//! before substring, with chapter order preserved for ties. This is
//! deliberately an index over the guide's own vocabulary rather than arbitrary
//! full-text search.
use vstd::prelude::*;
use vstd::relations::*;
use vstd::seq_lib::*;
use vstd::string::*;

use crate::registry::{
    breadcrumb, breadcrumb_text, is_position, registry_wf, section, section_at, ChapterMeta,
    SectionMeta,
};
use crate::text::{
    chars_eq, chars_of, contains_chars, contains_seq, lowercased, starts_with_chars, to_lowercase,
    trim_chars, trimmed,
};

verus! {

/// What kind of registry entry produced a hit.
#[derive(Debug, Clone, Copy, PartialEq, Eq, Structural)]
pub enum HitKind {
    /// A chapter title or chapter-level alias.
    Chapter,
    /// A section title.
    Section,
    /// A component, hook, or type name covered by a section.
    Type,
    /// A curated alias keyword for a chapter or section.
    Alias,
}

impl HitKind {
    /// Short uppercase label shown beside a result.
    pub fn label(self) -> (text: &'static str)
        ensures
            text@ == match self {
                HitKind::Chapter => "CHAPTER"@,
                HitKind::Section => "SECTION"@,
                HitKind::Type => "API"@,
                HitKind::Alias => "ALIAS"@,
            },
    {
        match self {
            HitKind::Chapter => "CHAPTER",
            HitKind::Section => "SECTION",
            HitKind::Type => "API",
            HitKind::Alias => "ALIAS",
        }
    }
}

/// The abstract content of a search hit.
pub struct HitModel {
    pub label: Seq<char>,
    pub location: Seq<char>,
    pub chapter: usize,
    pub section: usize,
    pub kind: HitKind,
}

/// One navigable search result.
#[derive(Debug, Clone)]
pub struct SearchHit {
    /// Matched text as it should be displayed.
    pub label: String,
    /// Where the result lives, such as `03 · Layout and Styling`.
    pub location: String,
    /// Chapter destination.
    pub chapter: usize,
    /// Section destination; `0` for a chapter-level hit.
    pub section: usize,
    /// Registry entry kind.
    pub kind: HitKind,
}

impl View for SearchHit {
    type V = HitModel;

    open spec fn view(&self) -> HitModel {
        HitModel {
            label: self.label@,
            location: self.location@,
            chapter: self.chapter,
            section: self.section,
            kind: self.kind,
        }
    }
}

impl PartialEq for SearchHit {
    fn eq(&self, other: &Self) -> (same: bool) {
        self.label == other.label && self.location == other.location && self.chapter
            == other.chapter && self.section == other.section && self.kind == other.kind
    }
}

impl vstd::std_specs::cmp::PartialEqSpecImpl for SearchHit {
    open spec fn obeys_eq_spec() -> bool {
        true
    }

    open spec fn eq_spec(&self, other: &Self) -> bool {
        self@ == other@
    }
}

impl SearchHit {
    /// Ranking score; lower is better. Every kind currently ranks alike.
    pub fn _score(&self) -> (score: u8)
        ensures
            score == 0,
    {
        match self.kind {
            HitKind::Type => 0,
            HitKind::Section => 0,
            HitKind::Chapter => 0,
            HitKind::Alias => 0,
        }
    }
}

/// The abstract content of an index entry.
pub struct EntryModel {
    pub text: Seq<char>,
    pub chapter: usize,
    pub section: usize,
    pub chapter_only: bool,
    pub kind: HitKind,
    pub location: Seq<char>,
}

/// One index entry before ranking.
pub struct Entry {
    /// Text the query is matched against.
    pub text: String,
    /// Chapter destination.
    pub chapter: usize,
    /// Section destination; `0` for a chapter-level entry.
    pub section: usize,
    /// Whether the entry names a chapter as a whole.
    pub chapter_only: bool,
    /// Registry entry kind.
    pub kind: HitKind,
    /// Where the entry lives.
    pub location: String,
}

impl View for Entry {
    type V = EntryModel;

    open spec fn view(&self) -> EntryModel {
        EntryModel {
            text: self.text@,
            chapter: self.chapter,
            section: self.section,
            chapter_only: self.chapter_only,
            kind: self.kind,
            location: self.location@,
        }
    }
}

/// The models of a sequence of entries.
pub open spec fn entry_models(entries: Seq<Entry>) -> Seq<EntryModel> {
    Seq::new(entries.len(), |i: int| entries[i]@)
}

// ---------------------------------------------------------------------------
// Ranking tiers
// ---------------------------------------------------------------------------

/// Ranking tier of `text` for `query`: exact `0`, prefix `1`, substring `2`.
pub open spec fn tier_of(text: Seq<char>, query: Seq<char>) -> Option<u8> {
    if text == query {
        Some(0)
    } else if query.is_prefix_of(text) {
        Some(1)
    } else if contains_seq(text, query) {
        Some(2)
    } else {
        None
    }
}

/// Ranking tier of two character sequences.
pub fn tier_chars(text: &[char], query: &[char]) -> (rank: Option<u8>)
    ensures
        rank == tier_of(text@, query@),
{
    if chars_eq(text, query) {
        Some(0)
    } else if starts_with_chars(text, query) {
        Some(1)
    } else if contains_chars(text, query) {
        Some(2)
    } else {
        None
    }
}

/// Ranking tier: exact, prefix, or substring.
pub fn tier(text: &str, query: &str) -> (rank: Option<u8>)
    ensures
        rank == tier_of(text@, query@),
{
    let t = chars_of(text);
    let q = chars_of(query);
    tier_chars(t.as_slice(), q.as_slice())
}

// ---------------------------------------------------------------------------
// The index
// ---------------------------------------------------------------------------

/// Concatenation of blocks, in order.
pub open spec fn concat_blocks<A>(blocks: Seq<Seq<A>>) -> Seq<A>
    decreases blocks.len(),
{
    if blocks.len() == 0 {
        Seq::empty()
    } else {
        concat_blocks(blocks.drop_last()) + blocks.last()
    }
}

proof fn lemma_concat_take<A>(blocks: Seq<Seq<A>>, i: int)
    requires
        0 <= i < blocks.len(),
    ensures
        concat_blocks(blocks.take(i + 1)) == concat_blocks(blocks.take(i)) + blocks[i],
{
    assert(blocks.take(i + 1).drop_last() =~= blocks.take(i));
}

/// Breadcrumb for a section destination, resolved through the registry.
pub open spec fn location_text(chapters: Seq<ChapterMeta>, meta: ChapterMeta, position: int) -> Seq<
    char,
> {
    match section_at(chapters, meta.index as int, position) {
        None => meta.title@,
        Some(s) => meta.number@ + " · "@ + s.number@ + " / "@ + s.title@,
    }
}

/// Breadcrumb for a section destination, resolved through the registry.
pub fn chapter_location(chapters: &[ChapterMeta], meta: &ChapterMeta, position: usize) -> (label:
    String)
    requires
        registry_wf(chapters@),
    ensures
        label@ == location_text(chapters@, *meta, position as int),
{
    match section(chapters, meta.index, position) {
        None => meta.title.to_owned(),
        Some(s) => {
            let mut label = meta.number.to_owned();
            label.append(" · ");
            label.append(s.number);
            label.append(" / ");
            label.append(s.title);
            label
        },
    }
}

/// The entry a chapter title contributes.
pub open spec fn title_entry(meta: ChapterMeta) -> EntryModel {
    EntryModel {
        text: meta.title@,
        chapter: meta.index,
        section: 0,
        chapter_only: true,
        kind: HitKind::Chapter,
        location: breadcrumb_text(meta),
    }
}

/// The entry a chapter keyword contributes.
pub open spec fn chapter_alias(meta: ChapterMeta, keyword: &'static str) -> EntryModel {
    EntryModel {
        text: keyword@,
        chapter: meta.index,
        section: 0,
        chapter_only: true,
        kind: HitKind::Alias,
        location: breadcrumb_text(meta),
    }
}

/// The entries a chapter contributes before its sections.
pub open spec fn chapter_head(meta: ChapterMeta) -> Seq<EntryModel> {
    seq![title_entry(meta)] + meta.keywords@.map_values(|k: &'static str| chapter_alias(meta, k))
}

/// An entry of a section at `position` of `meta`.
pub open spec fn section_entry(
    chapters: Seq<ChapterMeta>,
    meta: ChapterMeta,
    position: int,
    text: Seq<char>,
    kind: HitKind,
) -> EntryModel {
    EntryModel {
        text: text,
        chapter: meta.index,
        section: position as usize,
        chapter_only: false,
        kind: kind,
        location: location_text(chapters, meta, position),
    }
}

/// The entries the section at `position` of `meta` contributes: its title,
/// the types it covers, then its keywords.
pub open spec fn section_block(chapters: Seq<ChapterMeta>, meta: ChapterMeta, position: int) -> Seq<
    EntryModel,
> {
    let s = meta.sections@[position];
    seq![section_entry(chapters, meta, position, s.title@, HitKind::Section)] + s.types@.map_values(
        |name: &'static str| section_entry(chapters, meta, position, name@, HitKind::Type),
    ) + s.keywords@.map_values(
        |k: &'static str| section_entry(chapters, meta, position, k@, HitKind::Alias),
    )
}

/// Every section block of `meta`, in order.
pub open spec fn section_blocks(chapters: Seq<ChapterMeta>, meta: ChapterMeta) -> Seq<
    Seq<EntryModel>,
> {
    Seq::new(meta.sections@.len(), |p: int| section_block(chapters, meta, p))
}

/// The entries a chapter contributes.
pub open spec fn chapter_entries(chapters: Seq<ChapterMeta>, meta: ChapterMeta) -> Seq<EntryModel> {
    chapter_head(meta) + concat_blocks(section_blocks(chapters, meta))
}

/// Every chapter's entries, in order.
pub open spec fn chapter_blocks(chapters: Seq<ChapterMeta>) -> Seq<Seq<EntryModel>> {
    Seq::new(chapters.len(), |i: int| chapter_entries(chapters, chapters[i]))
}

/// The full index the registry yields.
pub open spec fn index_of(chapters: Seq<ChapterMeta>) -> Seq<EntryModel> {
    concat_blocks(chapter_blocks(chapters))
}

/// Pushes one entry, keeping its model sequence in step.
fn push_entry(out: &mut Vec<Entry>, entry: Entry)
    ensures
        entry_models(final(out)@) == entry_models(old(out)@).push(entry@),
{
    out.push(entry);
    proof {
        assert(entry_models(out@) =~= entry_models(old(out)@).push(entry@));
    }
}

/// The model of an entry with the given text and destination.
pub open spec fn model_of(
    text: Seq<char>,
    chapter: usize,
    position: usize,
    chapter_only: bool,
    kind: HitKind,
    location: Seq<char>,
) -> EntryModel {
    EntryModel {
        text: text,
        chapter: chapter,
        section: position,
        chapter_only: chapter_only,
        kind: kind,
        location: location,
    }
}

/// The models of one entry per word, all with the same destination.
pub open spec fn word_models(
    words: Seq<&'static str>,
    chapter: usize,
    position: usize,
    chapter_only: bool,
    kind: HitKind,
    location: Seq<char>,
) -> Seq<EntryModel> {
    Seq::new(
        words.len(),
        |i: int| model_of(words[i]@, chapter, position, chapter_only, kind, location),
    )
}

/// Pushes one entry per keyword, with the given destination.
fn push_keywords(
    out: &mut Vec<Entry>,
    words: &Vec<&'static str>,
    chapter: usize,
    position: usize,
    chapter_only: bool,
    kind: HitKind,
    location: &String,
)
    ensures
        entry_models(final(out)@) == entry_models(old(out)@) + word_models(
            words@,
            chapter,
            position,
            chapter_only,
            kind,
            location@,
        ),
{
    let mut k: usize = 0;
    while k < words.len()
        invariant
            k <= words@.len(),
            entry_models(out@) == entry_models(old(out)@) + word_models(
                words@.take(k as int),
                chapter,
                position,
                chapter_only,
                kind,
                location@,
            ),
        decreases words@.len() - k,
    {
        let entry = Entry {
            text: words[k].to_owned(),
            chapter: chapter,
            section: position,
            chapter_only: chapter_only,
            kind: kind,
            location: location.clone(),
        };
        push_entry(out, entry);
        proof {
            assert(word_models(words@.take(k + 1), chapter, position, chapter_only, kind, location@)
                =~= word_models(
                words@.take(k as int),
                chapter,
                position,
                chapter_only,
                kind,
                location@,
            ).push(entry@));
        }
        k = k + 1;
    }
    proof {
        assert(words@.take(words@.len() as int) =~= words@);
    }
}

/// Builds the full index from the registry.
pub fn entries(chapters: &[ChapterMeta]) -> (index: Vec<Entry>)
    requires
        registry_wf(chapters@),
    ensures
        entry_models(index@) == index_of(chapters@),
{
    let mut out: Vec<Entry> = Vec::new();
    let ghost blocks = chapter_blocks(chapters@);
    proof {
        assert(entry_models(out@) =~= concat_blocks(blocks.take(0)));
    }
    let mut c: usize = 0;
    while c < chapters.len()
        invariant
            registry_wf(chapters@),
            blocks == chapter_blocks(chapters@),
            c <= chapters@.len(),
            entry_models(out@) == concat_blocks(blocks.take(c as int)),
        decreases chapters@.len() - c,
    {
        let meta = &chapters[c];
        let ghost before = entry_models(out@);
        let location = breadcrumb(meta);
        push_entry(
            &mut out,
            Entry {
                text: meta.title.to_owned(),
                chapter: meta.index,
                section: 0,
                chapter_only: true,
                kind: HitKind::Chapter,
                location: location.clone(),
            },
        );
        push_keywords(&mut out, &meta.keywords, meta.index, 0, true, HitKind::Alias, &location);
        proof {
            assert(meta.keywords@.map_values(|k: &'static str| chapter_alias(*meta, k))
                =~= word_models(meta.keywords@, meta.index, 0, true, HitKind::Alias, location@));
            assert(entry_models(out@) =~= before + chapter_head(*meta));
        }
        let ghost sblocks = section_blocks(chapters@, *meta);
        let mut p: usize = 0;
        while p < meta.sections.len()
            invariant
                registry_wf(chapters@),
                c < chapters@.len(),
                *meta == chapters@[c as int],
                sblocks == section_blocks(chapters@, *meta),
                p <= meta.sections@.len(),
                entry_models(out@) == before + chapter_head(*meta) + concat_blocks(
                    sblocks.take(p as int),
                ),
            decreases meta.sections@.len() - p,
        {
            let s = &meta.sections[p];
            let ghost mid = entry_models(out@);
            let place = chapter_location(chapters, meta, p);
            push_entry(
                &mut out,
                Entry {
                    text: s.title.to_owned(),
                    chapter: meta.index,
                    section: p,
                    chapter_only: false,
                    kind: HitKind::Section,
                    location: place.clone(),
                },
            );
            push_keywords(&mut out, &s.types, meta.index, p, false, HitKind::Type, &place);
            push_keywords(&mut out, &s.keywords, meta.index, p, false, HitKind::Alias, &place);
            proof {
                let blk = section_block(chapters@, *meta, p as int);
                assert(s.types@.map_values(
                    |name: &'static str|
                        section_entry(chapters@, *meta, p as int, name@, HitKind::Type),
                ) =~= word_models(s.types@, meta.index, p, false, HitKind::Type, place@));
                assert(s.keywords@.map_values(
                    |k: &'static str|
                        section_entry(chapters@, *meta, p as int, k@, HitKind::Alias),
                ) =~= word_models(s.keywords@, meta.index, p, false, HitKind::Alias, place@));
                assert(entry_models(out@) =~= mid + blk);
                assert(sblocks[p as int] == blk);
                lemma_concat_take(sblocks, p as int);
            }
            p = p + 1;
        }
        proof {
            assert(sblocks.take(meta.sections@.len() as int) =~= sblocks);
            assert(blocks[c as int] == chapter_entries(chapters@, *meta));
            assert(entry_models(out@) =~= before + chapter_entries(chapters@, *meta));
            lemma_concat_take(blocks, c as int);
        }
        c = c + 1;
    }
    proof {
        assert(blocks.take(chapters@.len() as int) =~= blocks);
    }
    out
}

// ---------------------------------------------------------------------------
// Ranking
// ---------------------------------------------------------------------------

/// A matched entry awaiting ranking: tier, chapter, section, whether it names
/// a chapter as a whole, and its position in the index.
pub type Candidate = (u8, usize, usize, bool, usize);

/// Strict ranking order: tier, then chapter, then section, then section-level
/// before chapter-level, then index position.
pub open spec fn key_lt(a: Candidate, b: Candidate) -> bool {
    a.0 < b.0 || (a.0 == b.0 && (a.1 < b.1 || (a.1 == b.1 && (a.2 < b.2 || (a.2 == b.2 && ((!a.3
        && b.3) || (a.3 == b.3 && a.4 < b.4)))))))
}

/// Ranking order, reflexive.
pub open spec fn key_leq(a: Candidate, b: Candidate) -> bool {
    a == b || key_lt(a, b)
}

/// The ranking order as a relation.
pub open spec fn rank_order() -> spec_fn(Candidate, Candidate) -> bool {
    |a: Candidate, b: Candidate| key_leq(a, b)
}

/// The candidate that index position `p` yields for `query`, if it matches.
pub open spec fn candidate_at(index: Seq<EntryModel>, query: Seq<char>, p: int) -> Seq<Candidate> {
    match tier_of(lowercased(index[p].text), query) {
        Some(t) => seq![(t, index[p].chapter, index[p].section, index[p].chapter_only, p as usize)],
        None => Seq::empty(),
    }
}

/// Every matching candidate, in index order.
pub open spec fn candidates(index: Seq<EntryModel>, query: Seq<char>) -> Seq<Candidate> {
    concat_blocks(Seq::new(index.len(), |p: int| candidate_at(index, query, p)))
}

/// Every matching candidate, in ranking order.
pub open spec fn ranked(index: Seq<EntryModel>, query: Seq<char>) -> Seq<Candidate> {
    candidates(index, query).sort_by(rank_order())
}

/// Destination and lowercased text: two candidates with the same key are the
/// same result.
pub open spec fn dedup_key(index: Seq<EntryModel>, c: Candidate) -> (usize, usize, Seq<char>) {
    (index[c.4 as int].chapter, index[c.4 as int].section, lowercased(index[c.4 as int].text))
}

/// Whether an element before position `n` of `s` has the key of `c`.
pub open spec fn key_seen(index: Seq<EntryModel>, s: Seq<Candidate>, n: int, c: Candidate) -> bool {
    exists|j: int| 0 <= j < n && dedup_key(index, #[trigger] s[j]) == dedup_key(index, c)
}

/// The first candidate of every key, in order.
pub open spec fn first_occurrences(index: Seq<EntryModel>, s: Seq<Candidate>) -> Seq<Candidate>
    decreases s.len(),
{
    if s.len() == 0 {
        Seq::empty()
    } else {
        let kept = first_occurrences(index, s.drop_last());
        if key_seen(index, s, s.len() - 1, s.last()) {
            kept
        } else {
            kept.push(s.last())
        }
    }
}

/// The first `limit` items of `s`, or all of them if there are fewer.
pub open spec fn limited<A>(s: Seq<A>, limit: usize) -> Seq<A> {
    if s.len() <= limit {
        s
    } else {
        s.take(limit as int)
    }
}

/// The hit a candidate stands for.
pub open spec fn hit_of(index: Seq<EntryModel>, c: Candidate) -> HitModel {
    let e = index[c.4 as int];
    HitModel {
        label: e.text,
        location: e.location,
        chapter: e.chapter,
        section: e.section,
        kind: e.kind,
    }
}

/// The ranked, deduplicated, capped hits of `index` for a lowercased `query`.
pub open spec fn search_results(index: Seq<EntryModel>, query: Seq<char>, limit: usize) -> Seq<
    HitModel,
> {
    limited(first_occurrences(index, ranked(index, query)), limit).map_values(
        |c: Candidate| hit_of(index, c),
    )
}

/// The ranking order is a total order.
pub proof fn lemma_rank_order_total()
    ensures
        total_ordering(rank_order()),
{
    let r = rank_order();
    assert(reflexive(r));
    assert(antisymmetric(r));
    assert(transitive(r));
    assert(strongly_connected(r));
}

/// Whether `a` ranks strictly before `b`.
fn rank_before(a: &Candidate, b: &Candidate) -> (before: bool)
    ensures
        before == key_lt(*a, *b),
{
    if a.0 != b.0 {
        return a.0 < b.0;
    }
    if a.1 != b.1 {
        return a.1 < b.1;
    }
    if a.2 != b.2 {
        return a.2 < b.2;
    }
    if a.3 != b.3 {
        return !a.3 && b.3;
    }
    a.4 < b.4
}

/// Sorts candidates into ranking order.
fn sort_candidates(cands: &Vec<Candidate>, bound: usize) -> (sorted: Vec<Candidate>)
    requires
        forall|k: int| 0 <= k < cands@.len() ==> (#[trigger] cands@[k]).4 < bound,
    ensures
        sorted@ == cands@.sort_by(rank_order()),
        forall|k: int| 0 <= k < sorted@.len() ==> (#[trigger] sorted@[k]).4 < bound,
{
    broadcast use group_to_multiset_ensures;

    let mut sorted: Vec<Candidate> = Vec::new();
    let mut i: usize = 0;
    while i < cands.len()
        invariant
            i <= cands@.len(),
            forall|k: int| 0 <= k < cands@.len() ==> (#[trigger] cands@[k]).4 < bound,
            forall|k: int| 0 <= k < sorted@.len() ==> (#[trigger] sorted@[k]).4 < bound,
            forall|a: int, b: int|
                0 <= a < b < sorted@.len() ==> key_leq(#[trigger] sorted@[a], #[trigger] sorted@[b]),
            sorted@.to_multiset() == cands@.take(i as int).to_multiset(),
        decreases cands@.len() - i,
    {
        let c = cands[i];
        let mut j: usize = 0;
        while j < sorted.len() && !rank_before(&c, &sorted[j])
            invariant
                j <= sorted@.len(),
                forall|k: int| 0 <= k < j ==> !key_lt(c, #[trigger] sorted@[k]),
            decreases sorted@.len() - j,
        {
            j = j + 1;
        }
        let ghost old_sorted = sorted@;
        sorted.insert(j, c);
        proof {
            assert(sorted@ == old_sorted.insert(j as int, c));
            assert forall|a: int, b: int|
                0 <= a < b < sorted@.len() implies key_leq(
                #[trigger] sorted@[a],
                #[trigger] sorted@[b],
            ) by {
                if b < j {
                    assert(sorted@[a] == old_sorted[a] && sorted@[b] == old_sorted[b]);
                } else if b == j {
                    assert(sorted@[a] == old_sorted[a]);
                    assert(!key_lt(c, old_sorted[a]));
                } else if a == j {
                    assert(sorted@[b] == old_sorted[b - 1]);
                    assert(key_lt(c, old_sorted[j as int]));
                    if b - 1 > j {
                        assert(key_leq(old_sorted[j as int], old_sorted[b - 1]));
                    }
                } else if a < j {
                    assert(sorted@[a] == old_sorted[a] && sorted@[b] == old_sorted[b - 1]);
                } else {
                    assert(sorted@[a] == old_sorted[a - 1] && sorted@[b] == old_sorted[b - 1]);
                }
            }
            assert forall|k: int| 0 <= k < sorted@.len() implies (#[trigger] sorted@[k]).4 < bound by {
                if k < j {
                    assert(sorted@[k] == old_sorted[k]);
                } else if k > j {
                    assert(sorted@[k] == old_sorted[k - 1]);
                }
            }
            assert(cands@.take(i + 1) =~= cands@.take(i as int).push(c));
            to_multiset_insert(old_sorted, j as int, c);
            to_multiset_build(cands@.take(i as int), c);
        }
        i = i + 1;
    }
    proof {
        assert(cands@.take(cands@.len() as int) =~= cands@);
        let r = rank_order();
        lemma_rank_order_total();
        assert(sorted_by(sorted@, r)) by {
            assert forall|a: int, b: int| 0 <= a < b < sorted@.len() implies #[trigger] r(
                sorted@[a],
                sorted@[b],
            ) by {
                assert(key_leq(sorted@[a], sorted@[b]));
            }
        }
        cands@.lemma_sort_by_ensures(r);
        lemma_sorted_unique(sorted@, cands@.sort_by(r), r);
    }
    sorted
}

/// A key occurs among the first `n` items exactly when it occurs among their
/// first occurrences.
proof fn lemma_seen_in_kept(index: Seq<EntryModel>, s: Seq<Candidate>, c: Candidate)
    ensures
        key_seen(index, s, s.len() as int, c) == key_seen(
            index,
            first_occurrences(index, s),
            first_occurrences(index, s).len() as int,
            c,
        ),
    decreases s.len(),
{
    if s.len() > 0 {
        let init = s.drop_last();
        let x = s.last();
        lemma_seen_in_kept(index, init, c);
        lemma_seen_in_kept(index, init, x);
        let kept = first_occurrences(index, init);
        assert(key_seen(index, s, s.len() as int, c) == (key_seen(index, init, init.len() as int, c)
            || dedup_key(index, x) == dedup_key(index, c))) by {
            if key_seen(index, s, s.len() as int, c) {
                let j = choose|j: int|
                    0 <= j < s.len() && dedup_key(index, #[trigger] s[j]) == dedup_key(index, c);
                if j < s.len() - 1 {
                    assert(init[j] == s[j]);
                }
            }
            if key_seen(index, init, init.len() as int, c) {
                let j = choose|j: int|
                    0 <= j < init.len() && dedup_key(index, #[trigger] init[j]) == dedup_key(
                        index,
                        c,
                    );
                assert(s[j] == init[j]);
            }
        }
        assert(key_seen(index, s, s.len() - 1, x) == key_seen(index, init, init.len() as int, x))
            by {
            if key_seen(index, s, s.len() - 1, x) {
                let j = choose|j: int|
                    0 <= j < s.len() - 1 && dedup_key(index, #[trigger] s[j]) == dedup_key(index, x);
                assert(init[j] == s[j]);
            }
            if key_seen(index, init, init.len() as int, x) {
                let j = choose|j: int|
                    0 <= j < init.len() && dedup_key(index, #[trigger] init[j]) == dedup_key(
                        index,
                        x,
                    );
                assert(s[j] == init[j]);
            }
        }
        if !key_seen(index, s, s.len() - 1, x) {
            let fo = kept.push(x);
            assert(key_seen(index, fo, fo.len() as int, c) == (key_seen(
                index,
                kept,
                kept.len() as int,
                c,
            ) || dedup_key(index, x) == dedup_key(index, c))) by {
                if key_seen(index, fo, fo.len() as int, c) {
                    let j = choose|j: int|
                        0 <= j < fo.len() && dedup_key(index, #[trigger] fo[j]) == dedup_key(
                            index,
                            c,
                        );
                    if j < kept.len() {
                        assert(kept[j] == fo[j]);
                    }
                }
                if key_seen(index, kept, kept.len() as int, c) {
                    let j = choose|j: int|
                        0 <= j < kept.len() && dedup_key(index, #[trigger] kept[j]) == dedup_key(
                            index,
                            c,
                        );
                    assert(fo[j] == kept[j]);
                }
                if dedup_key(index, x) == dedup_key(index, c) {
                    assert(fo[fo.len() - 1] == x);
                }
            }
        }
    }
}

/// The first occurrences of a prefix are a prefix of the first occurrences.
proof fn lemma_first_occurrences_prefix(index: Seq<EntryModel>, s: Seq<Candidate>, i: int)
    requires
        0 <= i <= s.len(),
    ensures
        first_occurrences(index, s.take(i)).is_prefix_of(first_occurrences(index, s)),
    decreases s.len(),
{
    if i == s.len() {
        assert(s.take(i) =~= s);
    } else {
        let init = s.drop_last();
        assert(init.take(i) =~= s.take(i));
        lemma_first_occurrences_prefix(index, init, i);
    }
}

/// The first occurrences of `s.take(i + 1)` extend those of `s.take(i)` by
/// `s[i]` exactly when its key is new.
proof fn lemma_first_occurrences_step(index: Seq<EntryModel>, s: Seq<Candidate>, i: int)
    requires
        0 <= i < s.len(),
    ensures
        first_occurrences(index, s.take(i + 1)) == if key_seen(index, s.take(i), i, s[i]) {
            first_occurrences(index, s.take(i))
        } else {
            first_occurrences(index, s.take(i)).push(s[i])
        },
{
    let t = s.take(i + 1);
    assert(t.drop_last() =~= s.take(i));
    assert(t.last() == s[i]);
    assert(key_seen(index, t, i, s[i]) == key_seen(index, s.take(i), i, s[i])) by {
        if key_seen(index, t, i, s[i]) {
            let j = choose|j: int| 0 <= j < i && dedup_key(index, #[trigger] t[j]) == dedup_key(index, s[i]);
            assert(s.take(i)[j] == t[j]);
        }
        if key_seen(index, s.take(i), i, s[i]) {
            let j = choose|j: int|
                0 <= j < i && dedup_key(index, #[trigger] s.take(i)[j]) == dedup_key(index, s[i]);
            assert(s.take(i)[j] == t[j]);
        }
    }
}

/// The models of a sequence of hits.
pub open spec fn hit_models(hits: Seq<SearchHit>) -> Seq<HitModel> {
    Seq::new(hits.len(), |i: int| hits[i]@)
}

/// Whether a kept candidate already carries the key of `c`.
fn already_kept(
    index: &[Entry],
    lowers: &Vec<Vec<char>>,
    kept: &Vec<Candidate>,
    c: &Candidate,
) -> (seen: bool)
    requires
        lowers@.len() == index@.len(),
        forall|p: int|
            0 <= p < index@.len() ==> (#[trigger] lowers@[p])@ == lowercased(index@[p].text@),
        c.4 < index@.len(),
        forall|k: int| 0 <= k < kept@.len() ==> (#[trigger] kept@[k]).4 < index@.len(),
    ensures
        seen == key_seen(entry_models(index@), kept@, kept@.len() as int, *c),
{
    let ghost models = entry_models(index@);
    let mut k: usize = 0;
    while k < kept.len()
        invariant
            lowers@.len() == index@.len(),
            forall|p: int|
                0 <= p < index@.len() ==> (#[trigger] lowers@[p])@ == lowercased(index@[p].text@),
            c.4 < index@.len(),
            forall|j: int| 0 <= j < kept@.len() ==> (#[trigger] kept@[j]).4 < index@.len(),
            models == entry_models(index@),
            k <= kept@.len(),
            forall|j: int|
                0 <= j < k ==> dedup_key(models, #[trigger] kept@[j]) != dedup_key(models, *c),
        decreases kept@.len() - k,
    {
        let other = kept[k];
        let a = &index[other.4];
        let b = &index[c.4];
        if a.chapter == b.chapter && a.section == b.section && chars_eq(
            lowers[other.4].as_slice(),
            lowers[c.4].as_slice(),
        ) {
            proof {
                assert(dedup_key(models, kept@[k as int]) == dedup_key(models, *c));
            }
            return true;
        }
        proof {
            assert(dedup_key(models, kept@[k as int]) != dedup_key(models, *c));
        }
        k = k + 1;
    }
    false
}

/// Scores, sorts, deduplicates, and truncates one prepared index.
///
/// `query` is matched against the lowercased text of each entry. Exact matches
/// rank before prefix matches, which rank before substring matches; ties keep
/// chapter order, then section order, then section-level before chapter-level,
/// then index order. A result repeats no destination and lowercased text, and
/// at most `limit` results are kept (a limit of zero keeps none).
pub fn search_index(index: &[Entry], query: &str, limit: usize) -> (hits: Vec<SearchHit>)
    ensures
        hit_models(hits@) == search_results(entry_models(index@), query@, limit),
{
    if limit == 0 {
        let none: Vec<SearchHit> = Vec::new();
        proof {
            let all = first_occurrences(entry_models(index@), ranked(entry_models(index@), query@));
            assert(limited(all, limit) =~= Seq::<Candidate>::empty());
            assert(hit_models(none@) =~= search_results(entry_models(index@), query@, limit));
        }
        return none;
    }
    let ghost models = entry_models(index@);
    let q = chars_of(query);
    let n = index.len();
    let ghost cblocks = Seq::new(n as nat, |p: int| candidate_at(models, query@, p));
    let mut lowers: Vec<Vec<char>> = Vec::new();
    let mut cands: Vec<Candidate> = Vec::new();
    let mut p: usize = 0;
    proof {
        assert(cands@ =~= concat_blocks(cblocks.take(0)));
    }
    while p < n
        invariant
            n == index@.len(),
            models == entry_models(index@),
            cblocks == Seq::new(n as nat, |p: int| candidate_at(models, query@, p)),
            q@ == query@,
            p <= n,
            lowers@.len() == p,
            forall|j: int| 0 <= j < p ==> (#[trigger] lowers@[j])@ == lowercased(index@[j].text@),
            cands@ == concat_blocks(cblocks.take(p as int)),
            forall|k: int| 0 <= k < cands@.len() ==> (#[trigger] cands@[k]).4 < n,
        decreases n - p,
    {
        let entry = &index[p];
        let lower_text = to_lowercase(entry.text.as_str());
        let lower = chars_of(lower_text.as_str());
        let rank = tier_chars(lower.as_slice(), q.as_slice());
        let ghost before = cands@;
        match rank {
            Some(t) => {
                cands.push((t, entry.chapter, entry.section, entry.chapter_only, p));
            },
            None => {},
        }
        lowers.push(lower);
        proof {
            assert(models[p as int] == entry@);
            assert(cblocks[p as int] == candidate_at(models, query@, p as int));
            assert(cands@ =~= before + cblocks[p as int]);
            lemma_concat_take(cblocks, p as int);
        }
        p = p + 1;
    }
    proof {
        assert(cblocks.take(n as int) =~= cblocks);
        assert(cands@ == candidates(models, query@));
    }
    let sorted = sort_candidates(&cands, n);
    let ghost order = ranked(models, query@);
    assert(sorted@ == order);

    let mut hits: Vec<SearchHit> = Vec::new();
    let mut kept: Vec<Candidate> = Vec::new();
    let mut i: usize = 0;
    while i < sorted.len()
        invariant_except_break
            kept@.len() < limit,
        invariant
            limit > 0,
            n == index@.len(),
            models == entry_models(index@),
            sorted@ == order,
            lowers@.len() == n,
            forall|j: int| 0 <= j < n ==> (#[trigger] lowers@[j])@ == lowercased(index@[j].text@),
            forall|k: int| 0 <= k < sorted@.len() ==> (#[trigger] sorted@[k]).4 < n,
            forall|k: int| 0 <= k < kept@.len() ==> (#[trigger] kept@[k]).4 < n,
            i <= sorted@.len(),
            kept@ == first_occurrences(models, sorted@.take(i as int)),
            hit_models(hits@) == kept@.map_values(|c: Candidate| hit_of(models, c)),
        ensures
            kept@ == first_occurrences(models, sorted@.take(i as int)),
            i == sorted@.len() || kept@.len() == limit,
            i <= sorted@.len(),
            kept@.len() <= limit,
        decreases sorted@.len() - i,
    {
        let c = sorted[i];
        let seen = already_kept(index, &lowers, &kept, &c);
        proof {
            lemma_seen_in_kept(models, sorted@.take(i as int), c);
            assert(sorted@.take(i as int).len() == i);
            lemma_first_occurrences_step(models, sorted@, i as int);
        }
        if seen {
            i = i + 1;
            continue;
        }
        let entry = &index[c.4];
        let hit = SearchHit {
            label: entry.text.clone(),
            location: entry.location.clone(),
            chapter: entry.chapter,
            section: entry.section,
            kind: entry.kind,
        };
        let ghost old_hits = hits@;
        kept.push(c);
        hits.push(hit);
        proof {
            assert(models[c.4 as int] == entry@);
            assert(hit@ == hit_of(models, c));
            assert(hit_models(hits@) =~= hit_models(old_hits).push(hit@));
            assert(kept@.map_values(|c: Candidate| hit_of(models, c)) =~= kept@.drop_last().map_values(
                |c: Candidate| hit_of(models, c),
            ).push(hit_of(models, c)));
            assert(kept@.drop_last() =~= first_occurrences(models, sorted@.take(i as int)));
        }
        i = i + 1;
        if hits.len() == limit {
            break;
        }
    }
    proof {
        let all = first_occurrences(models, sorted@);
        lemma_first_occurrences_prefix(models, sorted@, i as int);
        if i == sorted@.len() {
            assert(sorted@.take(i as int) =~= sorted@);
        }
        if i == sorted@.len() {
            assert(sorted@.take(i as int) =~= sorted@);
            assert(limited(all, limit) == all);
        } else {
            assert(kept@.len() == limit);
            assert(kept@ =~= all.take(limit as int));
        }
        assert(limited(all, limit) =~= kept@);
    }
    hits
}

/// Result cap, as specified by the search design.
pub const MAX_RESULTS: usize = 8;

/// The hits a search of the registry yields for `query`: the query is trimmed
/// and lowercased, and an empty query yields nothing.
pub open spec fn search_hits(chapters: Seq<ChapterMeta>, query: Seq<char>) -> Seq<HitModel> {
    let q = lowercased(trimmed(query));
    if q.len() == 0 {
        Seq::empty()
    } else {
        search_results(index_of(chapters), q, MAX_RESULTS)
    }
}

/// Case-insensitive ranked search over the registry vocabulary.
///
/// Exact matches rank before prefix matches, which rank before substring
/// matches. Ties keep chapter order, then section order, then a stable display
/// order, so results never reshuffle between identical queries.
pub fn search(chapters: &[ChapterMeta], query: &str) -> (hits: Vec<SearchHit>)
    requires
        registry_wf(chapters@),
    ensures
        hit_models(hits@) == search_hits(chapters@, query@),
{
    let trimmed_query = trim_chars(query);
    let lowered = to_lowercase(trimmed_query);
    if lowered.unicode_len() == 0 {
        let none: Vec<SearchHit> = Vec::new();
        proof {
            assert(hit_models(none@) =~= Seq::<HitModel>::empty());
        }
        return none;
    }
    let index = entries(chapters);
    search_index(index.as_slice(), lowered.as_str(), MAX_RESULTS)
}

// ---------------------------------------------------------------------------
// Laws of the search
// ---------------------------------------------------------------------------

/// Matching is case-insensitive and ignores surrounding whitespace: two queries
/// that trim and lowercase alike yield the same hits.
pub proof fn lemma_search_case_insensitive(chapters: Seq<ChapterMeta>, q1: Seq<char>, q2: Seq<char>)
    requires
        lowercased(trimmed(q1)) == lowercased(trimmed(q2)),
    ensures
        search_hits(chapters, q1) == search_hits(chapters, q2),
{
}

/// Results are capped, and a query that is empty or only whitespace yields
/// nothing.
pub proof fn lemma_search_capped(chapters: Seq<ChapterMeta>, query: Seq<char>)
    ensures
        search_hits(chapters, query).len() <= MAX_RESULTS,
        lowercased(trimmed(query)).len() == 0 ==> search_hits(chapters, query).len() == 0,
{
}

/// Every element of the concatenation of blocks satisfies what every element of
/// every block does.
proof fn lemma_concat_all<A>(blocks: Seq<Seq<A>>, pred: spec_fn(A) -> bool)
    requires
        forall|i: int, j: int|
            0 <= i < blocks.len() && 0 <= j < blocks[i].len() ==> pred(#[trigger] blocks[i][j]),
    ensures
        forall|k: int|
            0 <= k < concat_blocks(blocks).len() ==> pred(#[trigger] concat_blocks(blocks)[k]),
    decreases blocks.len(),
{
    if blocks.len() > 0 {
        let init = blocks.drop_last();
        assert forall|i: int, j: int| 0 <= i < init.len() && 0 <= j < init[i].len() implies pred(
            #[trigger] init[i][j],
        ) by {
            assert(init[i] == blocks[i]);
        }
        lemma_concat_all(init, pred);
        let whole = concat_blocks(blocks);
        let left = concat_blocks(init);
        assert forall|k: int| 0 <= k < whole.len() implies pred(#[trigger] whole[k]) by {
            if k < left.len() {
                assert(whole[k] == left[k]);
            } else {
                assert(whole[k] == blocks.last()[k - left.len()]);
                assert(pred(blocks[blocks.len() - 1][k - left.len()]));
            }
        }
    }
}

/// Whether an entry points at a chapter and section of the registry.
pub open spec fn real_destination(chapters: Seq<ChapterMeta>, chapter: usize, section: usize) -> bool {
    chapter < chapters.len() && section < chapters[chapter as int].sections@.len()
}

/// Every entry of the search index of a well-formed registry points at a
/// chapter of that registry and at one of that chapter's sections: no alias,
/// type name, or title leads anywhere the shell cannot open.
pub proof fn lemma_index_destinations(chapters: Seq<ChapterMeta>)
    requires
        registry_wf(chapters),
    ensures
        forall|k: int|
            0 <= k < index_of(chapters).len() ==> real_destination(
                chapters,
                (#[trigger] index_of(chapters)[k]).chapter,
                index_of(chapters)[k].section,
            ),
{
    lemma_index_shape(chapters);
}

/// How an index entry is placed and labelled: it leads to a real chapter and
/// section; a chapter-level entry is the chapter's title or one of its
/// aliases, sits at section `0` and carries the chapter's breadcrumb; a
/// section-level entry is a section title, type, or alias and carries the
/// section's location; a title entry's text is that title; a type entry's
/// text is one of its section's types; an alias entry's text is one of the
/// keywords of its section, or of its chapter for a chapter-level alias.
pub open spec fn entry_placed(chapters: Seq<ChapterMeta>, e: EntryModel) -> bool {
    let meta = chapters[e.chapter as int];
    &&& real_destination(chapters, e.chapter, e.section)
    &&& e.chapter_only ==> e.section == 0 && (e.kind == HitKind::Chapter || e.kind
        == HitKind::Alias) && e.location == breadcrumb_text(meta)
    &&& !e.chapter_only ==> e.kind != HitKind::Chapter && e.location == location_text(
        chapters,
        meta,
        e.section as int,
    )
    &&& e.kind == HitKind::Chapter ==> e.chapter_only && e.text == meta.title@
    &&& e.kind == HitKind::Section ==> !e.chapter_only && e.text == meta.sections@[e.section as int].title@
    &&& e.kind == HitKind::Type ==> !e.chapter_only && exists|j: int|
        0 <= j < meta.sections@[e.section as int].types@.len() && (#[trigger] meta.sections@[e.section as int].types@[j])@
            == e.text
    &&& e.kind == HitKind::Alias && e.chapter_only ==> exists|j: int|
        0 <= j < meta.keywords@.len() && (#[trigger] meta.keywords@[j])@ == e.text
    &&& e.kind == HitKind::Alias && !e.chapter_only ==> exists|j: int|
        0 <= j < meta.sections@[e.section as int].keywords@.len() && (
        #[trigger] meta.sections@[e.section as int].keywords@[j])@ == e.text
}

/// The sum of a sequence of integers.
pub open spec fn sum_of(s: Seq<int>) -> int
    decreases s.len(),
{
    if s.len() == 0 {
        0
    } else {
        sum_of(s.drop_last()) + s.last()
    }
}

/// The entries a section contributes: its title, its types, its keywords.
pub open spec fn section_size(s: SectionMeta) -> int {
    1 + s.types@.len() as int + s.keywords@.len() as int
}

/// The entries a chapter contributes: its title, its keywords, and its
/// sections' entries.
pub open spec fn chapter_size(meta: ChapterMeta) -> int {
    1 + meta.keywords@.len() as int + sum_of(meta.sections@.map_values(|s: SectionMeta| section_size(s)))
}

/// The number of entries the registry's index holds.
pub open spec fn index_size(chapters: Seq<ChapterMeta>) -> int {
    sum_of(chapters.map_values(|c: ChapterMeta| chapter_size(c)))
}

/// The concatenation of blocks is as long as their lengths add up to.
proof fn lemma_concat_len<A>(blocks: Seq<Seq<A>>, sizes: Seq<int>)
    requires
        blocks.len() == sizes.len(),
        forall|i: int| 0 <= i < blocks.len() ==> (#[trigger] blocks[i]).len() == sizes[i],
    ensures
        concat_blocks(blocks).len() == sum_of(sizes),
    decreases blocks.len(),
{
    if blocks.len() > 0 {
        let bi = blocks.drop_last();
        let si = sizes.drop_last();
        assert forall|i: int| 0 <= i < bi.len() implies (#[trigger] bi[i]).len() == si[i] by {
            assert(bi[i] == blocks[i]);
        }
        lemma_concat_len(bi, si);
        assert(blocks.last().len() == sizes.last()) by {
            assert(blocks[blocks.len() - 1].len() == sizes[blocks.len() - 1]);
        }
    }
}

/// The shape of the search index: it holds, for each chapter, one entry for
/// its title and one per keyword, and for each of its sections one entry for
/// the title, one per covered type and one per keyword; and every entry is
/// placed and labelled as [`entry_placed`] says.
pub proof fn lemma_index_shape(chapters: Seq<ChapterMeta>)
    requires
        registry_wf(chapters),
    ensures
        index_of(chapters).len() == index_size(chapters),
        forall|k: int|
            0 <= k < index_of(chapters).len() ==> entry_placed(
                chapters,
                #[trigger] index_of(chapters)[k],
            ),
{
    let pred = |e: EntryModel| entry_placed(chapters, e);
    let blocks = chapter_blocks(chapters);
    assert forall|i: int, j: int|
        0 <= i < blocks.len() && 0 <= j < blocks[i].len() implies pred(#[trigger] blocks[i][j]) by {
        let meta = chapters[i];
        assert(meta.index == i);
        let head = chapter_head(meta);
        let sb = section_blocks(chapters, meta);
        assert(blocks[i] == head + concat_blocks(sb));
        assert forall|a: int, b: int| 0 <= a < sb.len() && 0 <= b < sb[a].len() implies pred(
            #[trigger] sb[a][b],
        ) by {
            let sec = meta.sections@[a];
            assert(sb[a] == section_block(chapters, meta, a));
            let e = sb[a][b];
            assert(e.chapter == meta.index && e.section == a as usize);
            assert(meta.sections.len() == meta.sections@.len());
            let nt = sec.types@.len() as int;
            if b == 0 {
                assert(e == section_entry(chapters, meta, a, sec.title@, HitKind::Section));
            } else if b < 1 + nt {
                assert(e == section_entry(chapters, meta, a, sec.types@[b - 1]@, HitKind::Type));
                assert(sec.types@[b - 1]@ == e.text);
            } else {
                assert(e == section_entry(
                    chapters,
                    meta,
                    a,
                    sec.keywords@[b - 1 - nt]@,
                    HitKind::Alias,
                ));
                assert(sec.keywords@[b - 1 - nt]@ == e.text);
            }
        }
        lemma_concat_all(sb, pred);
        if j < head.len() {
            if j == 0 {
                assert(head[j] == title_entry(meta));
            } else {
                assert(head[j] == chapter_alias(meta, meta.keywords@[j - 1]));
                assert(meta.keywords@[j - 1]@ == head[j].text);
            }
        } else {
            assert(blocks[i][j] == concat_blocks(sb)[j - head.len()]);
        }
    }
    lemma_concat_all(blocks, pred);
    let sizes = chapters.map_values(|c: ChapterMeta| chapter_size(c));
    assert forall|i: int| 0 <= i < blocks.len() implies (#[trigger] blocks[i]).len() == sizes[i] by {
        let meta = chapters[i];
        let sb = section_blocks(chapters, meta);
        let ss = meta.sections@.map_values(|s: SectionMeta| section_size(s));
        assert forall|a: int| 0 <= a < sb.len() implies (#[trigger] sb[a]).len() == ss[a] by {
            assert(sb[a] == section_block(chapters, meta, a));
        }
        lemma_concat_len(sb, ss);
        assert(blocks[i] == chapter_head(meta) + concat_blocks(sb));
    }
    lemma_concat_len(blocks, sizes);
}

/// The position, in the concatenation of `blocks`, of item `j` of block `i`.
proof fn lemma_concat_member<A>(blocks: Seq<Seq<A>>, i: int, j: int) -> (k: int)
    requires
        0 <= i < blocks.len(),
        0 <= j < blocks[i].len(),
    ensures
        0 <= k < concat_blocks(blocks).len(),
        concat_blocks(blocks)[k] == blocks[i][j],
    decreases blocks.len(),
{
    let init = blocks.drop_last();
    let left = concat_blocks(init);
    if i == blocks.len() - 1 {
        left.len() + j
    } else {
        assert(init[i] == blocks[i]);
        let k = lemma_concat_member(init, i, j);
        k
    }
}

/// The index entry at item `j` of the section block at position `p` of
/// chapter `c`, located in the whole index.
proof fn lemma_section_item_indexed(chapters: Seq<ChapterMeta>, c: int, p: int, j: int) -> (k: int)
    requires
        registry_wf(chapters),
        is_position(chapters, c, p),
        0 <= j < section_block(chapters, chapters[c], p).len(),
    ensures
        0 <= k < index_of(chapters).len(),
        index_of(chapters)[k] == section_block(chapters, chapters[c], p)[j],
{
    let meta = chapters[c];
    let blocks = chapter_blocks(chapters);
    let head = chapter_head(meta);
    let sb = section_blocks(chapters, meta);
    assert(sb[p] == section_block(chapters, meta, p));
    let k1 = lemma_concat_member(sb, p, j);
    assert(blocks[c] == head + concat_blocks(sb));
    assert(blocks[c][head.len() + k1] == sb[p][j]);
    lemma_concat_member(blocks, c, head.len() + k1)
}

/// Every word of the registry is findable where it belongs: for the section
/// at position `p` of chapter `c`, the index holds the chapter's title as a
/// chapter entry, each chapter keyword as a chapter-level alias, the
/// section's title as a section entry, each of its types as a type entry and
/// each of its keywords as an alias, all leading to that chapter and section
/// and carrying their breadcrumb or location.
pub proof fn lemma_every_word_is_indexed(chapters: Seq<ChapterMeta>, c: int, p: int)
    requires
        registry_wf(chapters),
        is_position(chapters, c, p),
    ensures
        exists|k: int|
            0 <= k < index_of(chapters).len() && #[trigger] index_of(chapters)[k] == (EntryModel {
                text: chapters[c].title@,
                chapter: c as usize,
                section: 0,
                chapter_only: true,
                kind: HitKind::Chapter,
                location: breadcrumb_text(chapters[c]),
            }),
        forall|j: int|
            0 <= j < chapters[c].keywords@.len() ==> exists|k: int|
                0 <= k < index_of(chapters).len() && #[trigger] index_of(chapters)[k] == (
                EntryModel {
                    text: (#[trigger] chapters[c].keywords@[j])@,
                    chapter: c as usize,
                    section: 0,
                    chapter_only: true,
                    kind: HitKind::Alias,
                    location: breadcrumb_text(chapters[c]),
                }),
        exists|k: int|
            0 <= k < index_of(chapters).len() && #[trigger] index_of(chapters)[k] == (EntryModel {
                text: chapters[c].sections@[p].title@,
                chapter: c as usize,
                section: p as usize,
                chapter_only: false,
                kind: HitKind::Section,
                location: location_text(chapters, chapters[c], p),
            }),
        forall|j: int|
            0 <= j < chapters[c].sections@[p].types@.len() ==> exists|k: int|
                0 <= k < index_of(chapters).len() && #[trigger] index_of(chapters)[k] == (
                EntryModel {
                    text: (#[trigger] chapters[c].sections@[p].types@[j])@,
                    chapter: c as usize,
                    section: p as usize,
                    chapter_only: false,
                    kind: HitKind::Type,
                    location: location_text(chapters, chapters[c], p),
                }),
        forall|j: int|
            0 <= j < chapters[c].sections@[p].keywords@.len() ==> exists|k: int|
                0 <= k < index_of(chapters).len() && #[trigger] index_of(chapters)[k] == (
                EntryModel {
                    text: (#[trigger] chapters[c].sections@[p].keywords@[j])@,
                    chapter: c as usize,
                    section: p as usize,
                    chapter_only: false,
                    kind: HitKind::Alias,
                    location: location_text(chapters, chapters[c], p),
                }),
{
    let meta = chapters[c];
    assert(meta.index == c);
    let sec = meta.sections@[p];
    assert(meta.sections.len() == meta.sections@.len());
    let blocks = chapter_blocks(chapters);
    let head = chapter_head(meta);
    assert(blocks[c] == head + concat_blocks(section_blocks(chapters, meta)));
    let k0 = lemma_concat_member(blocks, c, 0);
    assert(head[0] == title_entry(meta));
    assert(index_of(chapters)[k0] == title_entry(meta));
    assert forall|j: int| 0 <= j < meta.keywords@.len() implies exists|k: int|
        0 <= k < index_of(chapters).len() && #[trigger] index_of(chapters)[k] == (EntryModel {
            text: (#[trigger] meta.keywords@[j])@,
            chapter: c as usize,
            section: 0,
            chapter_only: true,
            kind: HitKind::Alias,
            location: breadcrumb_text(meta),
        }) by {
        let k = lemma_concat_member(blocks, c, j + 1);
        assert(head[j + 1] == chapter_alias(meta, meta.keywords@[j]));
        assert(index_of(chapters)[k] == head[j + 1]);
    }
    let block = section_block(chapters, meta, p);
    let nt = sec.types@.len() as int;
    let ks = lemma_section_item_indexed(chapters, c, p, 0);
    assert(block[0] == section_entry(chapters, meta, p, sec.title@, HitKind::Section));
    assert(index_of(chapters)[ks] == block[0]);
    assert forall|j: int| 0 <= j < sec.types@.len() implies exists|k: int|
        0 <= k < index_of(chapters).len() && #[trigger] index_of(chapters)[k] == (EntryModel {
            text: (#[trigger] sec.types@[j])@,
            chapter: c as usize,
            section: p as usize,
            chapter_only: false,
            kind: HitKind::Type,
            location: location_text(chapters, meta, p),
        }) by {
        let k = lemma_section_item_indexed(chapters, c, p, j + 1);
        assert(block[j + 1] == section_entry(chapters, meta, p, sec.types@[j]@, HitKind::Type));
        assert(index_of(chapters)[k] == block[j + 1]);
    }
    assert forall|j: int| 0 <= j < sec.keywords@.len() implies exists|k: int|
        0 <= k < index_of(chapters).len() && #[trigger] index_of(chapters)[k] == (EntryModel {
            text: (#[trigger] sec.keywords@[j])@,
            chapter: c as usize,
            section: p as usize,
            chapter_only: false,
            kind: HitKind::Alias,
            location: location_text(chapters, meta, p),
        }) by {
        let k = lemma_section_item_indexed(chapters, c, p, 1 + nt + j);
        assert(block[1 + nt + j] == section_entry(
            chapters,
            meta,
            p,
            sec.keywords@[j]@,
            HitKind::Alias,
        ));
        assert(index_of(chapters)[k] == block[1 + nt + j]);
    }
}

/// Whether `c` is the candidate that index position `c.4` yields for `query`.
pub open spec fn consistent(index: Seq<EntryModel>, query: Seq<char>, c: Candidate) -> bool {
    &&& c.4 < index.len()
    &&& tier_of(lowercased(index[c.4 as int].text), query) == Some(c.0)
    &&& c.1 == index[c.4 as int].chapter
    &&& c.2 == index[c.4 as int].section
}

/// Every candidate is the one its index position yields.
proof fn lemma_candidates_consistent(index: Seq<EntryModel>, query: Seq<char>)
    requires
        index.len() <= usize::MAX,
    ensures
        forall|k: int|
            0 <= k < candidates(index, query).len() ==> consistent(
                index,
                query,
                #[trigger] candidates(index, query)[k],
            ),
{
    let pred = |c: Candidate| consistent(index, query, c);
    let blocks = Seq::new(index.len(), |p: int| candidate_at(index, query, p));
    assert forall|i: int, j: int| 0 <= i < blocks.len() && 0 <= j < blocks[i].len() implies pred(
        #[trigger] blocks[i][j],
    ) by {
        assert(blocks[i] == candidate_at(index, query, i));
    }
    lemma_concat_all(blocks, pred);
}

/// Every ranked candidate is the one its index position yields.
proof fn lemma_ranked_consistent(index: Seq<EntryModel>, query: Seq<char>)
    requires
        index.len() <= usize::MAX,
    ensures
        forall|k: int|
            0 <= k < ranked(index, query).len() ==> consistent(
                index,
                query,
                #[trigger] ranked(index, query)[k],
            ),
        forall|a: int, b: int|
            0 <= a < b < ranked(index, query).len() ==> key_leq(
                #[trigger] ranked(index, query)[a],
                #[trigger] ranked(index, query)[b],
            ),
{
    lemma_candidates_consistent(index, query);
    let cands = candidates(index, query);
    let r = rank_order();
    lemma_rank_order_total();
    cands.lemma_sort_by_ensures(r);
    let sorted = ranked(index, query);
    assert forall|k: int| 0 <= k < sorted.len() implies consistent(index, query, #[trigger] sorted[k]) by {
        assert(sorted.contains(sorted[k]));
        assert(cands.contains(sorted[k]));
        let j = choose|j: int| 0 <= j < cands.len() && cands[j] == sorted[k];
        assert(consistent(index, query, cands[j]));
    }
    assert forall|a: int, b: int| 0 <= a < b < sorted.len() implies key_leq(
        #[trigger] sorted[a],
        #[trigger] sorted[b],
    ) by {
        assert(r(sorted[a], sorted[b]));
    }
}

/// The first occurrences of `s` are drawn from `s`, and no two of them share a
/// key.
proof fn lemma_first_occurrences_shape(index: Seq<EntryModel>, s: Seq<Candidate>)
    ensures
        forall|k: int|
            0 <= k < first_occurrences(index, s).len() ==> s.contains(
                #[trigger] first_occurrences(index, s)[k],
            ),
        forall|a: int, b: int|
            0 <= a < b < first_occurrences(index, s).len() ==> dedup_key(
                index,
                #[trigger] first_occurrences(index, s)[a],
            ) != dedup_key(index, #[trigger] first_occurrences(index, s)[b]),
    decreases s.len(),
{
    if s.len() > 0 {
        let init = s.drop_last();
        let x = s.last();
        lemma_first_occurrences_shape(index, init);
        let kept = first_occurrences(index, init);
        let fo = first_occurrences(index, s);
        assert forall|k: int| 0 <= k < fo.len() implies s.contains(#[trigger] fo[k]) by {
            if k < kept.len() {
                assert(fo[k] == kept[k]);
                let j = choose|j: int| 0 <= j < init.len() && init[j] == kept[k];
                assert(s[j] == init[j]);
            } else {
                assert(fo[k] == s[s.len() - 1]);
            }
        }
        if !key_seen(index, s, s.len() - 1, x) {
            lemma_seen_in_kept(index, init, x);
            assert(!key_seen(index, init, init.len() as int, x)) by {
                if key_seen(index, init, init.len() as int, x) {
                    let j = choose|j: int|
                        0 <= j < init.len() && dedup_key(index, #[trigger] init[j]) == dedup_key(
                            index,
                            x,
                        );
                    assert(s[j] == init[j]);
                }
            }
            assert forall|a: int, b: int| 0 <= a < b < fo.len() implies dedup_key(
                index,
                #[trigger] fo[a],
            ) != dedup_key(index, #[trigger] fo[b]) by {
                if b == fo.len() - 1 {
                    assert(fo[b] == x);
                    assert(fo[a] == kept[a]);
                    if dedup_key(index, kept[a]) == dedup_key(index, x) {
                        assert(key_seen(index, kept, kept.len() as int, x));
                    }
                } else {
                    assert(fo[a] == kept[a] && fo[b] == kept[b]);
                }
            }
        }
    }
}

/// Every hit points at a real chapter and section of the registry, and no two
/// hits share a destination and lowercased label.
pub proof fn lemma_hits_are_real_and_distinct(chapters: Seq<ChapterMeta>, query: Seq<char>)
    requires
        registry_wf(chapters),
        index_of(chapters).len() <= usize::MAX,
    ensures
        forall|k: int|
            0 <= k < search_hits(chapters, query).len() ==> real_destination(
                chapters,
                (#[trigger] search_hits(chapters, query)[k]).chapter,
                search_hits(chapters, query)[k].section,
            ),
        forall|a: int, b: int|
            0 <= a < b < search_hits(chapters, query).len() ==> {
                let x = #[trigger] search_hits(chapters, query)[a];
                let y = #[trigger] search_hits(chapters, query)[b];
                !(x.chapter == y.chapter && x.section == y.section && lowercased(x.label)
                    == lowercased(y.label))
            },
{
    let q = lowercased(trimmed(query));
    if q.len() > 0 {
        let index = index_of(chapters);
        lemma_index_destinations(chapters);
        lemma_ranked_consistent(index, q);
        let sorted = ranked(index, q);
        assert forall|k: int| 0 <= k < sorted.len() implies (#[trigger] sorted[k]).4 < index.len() by {
            assert(consistent(index, q, sorted[k]));
        }
        lemma_first_occurrences_shape(index, sorted);
        let fo = first_occurrences(index, sorted);
        let lim = limited(fo, MAX_RESULTS);
        let hits = search_hits(chapters, query);
        assert(hits == lim.map_values(|c: Candidate| hit_of(index, c)));
        assert forall|k: int| 0 <= k < lim.len() implies (#[trigger] lim[k]).4 < index.len() && (
        forall|m: int| 0 <= m < lim.len() && m != k ==> dedup_key(index, lim[k]) != dedup_key(
            index,
            #[trigger] lim[m],
        )) by {
            assert(lim[k] == fo[k]);
            let j = choose|j: int| 0 <= j < sorted.len() && sorted[j] == fo[k];
            assert(sorted[j].4 < index.len());
            assert forall|m: int| 0 <= m < lim.len() && m != k implies dedup_key(index, lim[k])
                != dedup_key(index, #[trigger] lim[m]) by {
                assert(lim[m] == fo[m]);
                if m < k {
                    assert(dedup_key(index, fo[m]) != dedup_key(index, fo[k]));
                } else {
                    assert(dedup_key(index, fo[k]) != dedup_key(index, fo[m]));
                }
            }
        }
        assert forall|k: int| 0 <= k < hits.len() implies real_destination(
            chapters,
            (#[trigger] hits[k]).chapter,
            hits[k].section,
        ) by {
            assert(hits[k] == hit_of(index, lim[k]));
            assert(lim[k].4 < index.len());
            assert(real_destination(chapters, index[lim[k].4 as int].chapter, index[lim[k].4 as int].section));
        }
        assert forall|a: int, b: int| 0 <= a < b < hits.len() implies {
            let x = #[trigger] hits[a];
            let y = #[trigger] hits[b];
            !(x.chapter == y.chapter && x.section == y.section && lowercased(x.label)
                == lowercased(y.label))
        } by {
            assert(hits[a] == hit_of(index, lim[a]));
            assert(hits[b] == hit_of(index, lim[b]));
            assert(dedup_key(index, lim[a]) != dedup_key(index, lim[b]));
        }
    }
}

/// The first occurrences of a sequence sorted in ranking order keep that order.
proof fn lemma_first_occurrences_sorted(index: Seq<EntryModel>, s: Seq<Candidate>)
    requires
        forall|a: int, b: int| 0 <= a < b < s.len() ==> key_leq(#[trigger] s[a], #[trigger] s[b]),
    ensures
        forall|a: int, b: int|
            0 <= a < b < first_occurrences(index, s).len() ==> key_leq(
                #[trigger] first_occurrences(index, s)[a],
                #[trigger] first_occurrences(index, s)[b],
            ),
    decreases s.len(),
{
    if s.len() > 0 {
        let init = s.drop_last();
        assert forall|a: int, b: int| 0 <= a < b < init.len() implies key_leq(
            #[trigger] init[a],
            #[trigger] init[b],
        ) by {
            assert(init[a] == s[a] && init[b] == s[b]);
        }
        lemma_first_occurrences_sorted(index, init);
        lemma_first_occurrences_shape(index, init);
        let kept = first_occurrences(index, init);
        let fo = first_occurrences(index, s);
        assert forall|a: int, b: int| 0 <= a < b < fo.len() implies key_leq(
            #[trigger] fo[a],
            #[trigger] fo[b],
        ) by {
            if b < kept.len() {
                assert(fo[a] == kept[a] && fo[b] == kept[b]);
            } else {
                assert(fo[b] == s[s.len() - 1]);
                assert(fo[a] == kept[a]);
                assert(init.contains(kept[a]));
                let j = choose|j: int| 0 <= j < init.len() && init[j] == kept[a];
                assert(s[j] == init[j]);
            }
        }
    }
}

/// The ranking tier of a hit's label for a lowercased query.
pub open spec fn hit_tier(query: Seq<char>, hit: HitModel) -> Option<u8> {
    tier_of(lowercased(hit.label), query)
}

/// Every hit matches the trimmed, lowercased query, and hits come in ranking
/// order: exact matches before prefix matches before substring matches, and
/// within a tier by chapter, then by section. (The index must fit in memory.)
pub proof fn lemma_hits_are_ranked(chapters: Seq<ChapterMeta>, query: Seq<char>)
    requires
        index_of(chapters).len() <= usize::MAX,
    ensures
        ({
            let q = lowercased(trimmed(query));
            let hits = search_hits(chapters, query);
            &&& forall|k: int| 0 <= k < hits.len() ==> #[trigger] hit_tier(q, hits[k]) is Some
            &&& forall|a: int, b: int|
                0 <= a < b < hits.len() ==> {
                    let x = #[trigger] hits[a];
                    let y = #[trigger] hits[b];
                    let tx = hit_tier(q, x)->0;
                    let ty = hit_tier(q, y)->0;
                    &&& tx <= ty
                    &&& tx == ty ==> x.chapter <= y.chapter
                    &&& tx == ty && x.chapter == y.chapter ==> x.section <= y.section
                }
        }),
{
    let q = lowercased(trimmed(query));
    if q.len() > 0 {
        let index = index_of(chapters);
        lemma_ranked_consistent(index, q);
        let sorted = ranked(index, q);
        lemma_first_occurrences_sorted(index, sorted);
        lemma_first_occurrences_shape(index, sorted);
        let fo = first_occurrences(index, sorted);
        let lim = limited(fo, MAX_RESULTS);
        let hits = search_hits(chapters, query);
        assert forall|k: int| 0 <= k < lim.len() implies consistent(index, q, #[trigger] lim[k]) by {
            assert(lim[k] == fo[k]);
            assert(sorted.contains(fo[k]));
            let j = choose|j: int| 0 <= j < sorted.len() && sorted[j] == fo[k];
            assert(consistent(index, q, sorted[j]));
        }
        assert forall|k: int| 0 <= k < hits.len() implies #[trigger] hit_tier(q, hits[k]) is Some by {
            assert(hits[k] == hit_of(index, lim[k]));
            assert(consistent(index, q, lim[k]));
        }
        assert forall|a: int, b: int| 0 <= a < b < hits.len() implies {
            let x = #[trigger] hits[a];
            let y = #[trigger] hits[b];
            let tx = hit_tier(q, x)->0;
            let ty = hit_tier(q, y)->0;
            &&& tx <= ty
            &&& tx == ty ==> x.chapter <= y.chapter
            &&& tx == ty && x.chapter == y.chapter ==> x.section <= y.section
        } by {
            assert(hits[a] == hit_of(index, lim[a]));
            assert(hits[b] == hit_of(index, lim[b]));
            assert(consistent(index, q, lim[a]) && consistent(index, q, lim[b]));
            assert(lim[a] == fo[a] && lim[b] == fo[b]);
            assert(key_leq(fo[a], fo[b]));
        }
    }
}

} // verus!
