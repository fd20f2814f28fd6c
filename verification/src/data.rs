//! Data model: repository summaries, named sections, the featured highlight,
//! and the pure query-filtering operation over them.

use vstd::prelude::*;

verus! {

/// One repository entry of the portfolio document. `name` and `repo_url` are
/// always present; the other fields may be absent and render with a fallback.
pub struct RepoSummary {
    pub name: String,
    pub description: String,
    pub image_url: Option<String>,
    pub repo_url: String,
    pub badges: Option<String>,
    pub updated_at: Option<String>,
}

/// `needle` occurs as a contiguous run of characters inside `hay`.
pub open spec fn is_substring_of(needle: Seq<char>, hay: Seq<char>) -> bool {
    exists|i: int|
        0 <= i && i + needle.len() <= hay.len() && #[trigger] hay.subrange(i, i + needle.len())
            == needle
}

/// The lowercase form of a character sequence, exactly as `str::to_lowercase`
/// computes it; the result depends on the characters alone.
pub uninterp spec fn lower_of(s: Seq<char>) -> Seq<char>;

/// Relies on `str::to_lowercase` for the Unicode lowercase mapping.
#[verifier::external_body]
fn to_lower(s: &str) -> (r: String)
    ensures
        r@ == lower_of(s@),
{
    s.to_lowercase()
}

/// Relies on `str::contains`: true exactly when `needle` occurs as a
/// contiguous substring of `hay`.
#[verifier::external_body]
fn contains_substring(hay: &str, needle: &str) -> (r: bool)
    ensures
        r == is_substring_of(needle@, hay@),
{
    hay.contains(needle)
}

/// What `matches_query` decides: an empty query matches everything; otherwise
/// the lowercased query must occur in the lowercased name, description, or
/// badges (when present). No other field participates.
pub open spec fn summary_matches(repo: RepoSummary, query: Seq<char>) -> bool {
    ||| query.len() == 0
    ||| is_substring_of(lower_of(query), lower_of(repo.name@))
    ||| is_substring_of(lower_of(query), lower_of(repo.description@))
    ||| (repo.badges matches Some(b) && is_substring_of(lower_of(query), lower_of(b@)))
}

impl RepoSummary {
    /// Case-insensitive substring test against name, description, and badges;
    /// an empty query always matches.
    pub fn matches_query(&self, query: &str) -> (r: bool)
        ensures
            r == summary_matches(*self, query@),
    {
        if query.is_empty() {
            return true;
        }
        let query_lower = to_lower(query);
        let name_lower = to_lower(self.name.as_str());
        if contains_substring(name_lower.as_str(), query_lower.as_str()) {
            return true;
        }
        let description_lower = to_lower(self.description.as_str());
        if contains_substring(description_lower.as_str(), query_lower.as_str()) {
            return true;
        }
        match &self.badges {
            Some(badges) => {
                let badges_lower = to_lower(badges.as_str());
                contains_substring(badges_lower.as_str(), query_lower.as_str())
            },
            None => false,
        }
    }
}

impl Clone for RepoSummary {
    /// Clones are equal to the original, field for field.
    fn clone(&self) -> (r: Self)
        ensures
            r == *self,
    {
        RepoSummary {
            name: self.name.clone(),
            description: self.description.clone(),
            image_url: self.image_url.clone(),
            repo_url: self.repo_url.clone(),
            badges: self.badges.clone(),
            updated_at: self.updated_at.clone(),
        }
    }
}

/// Optional metadata attached to a section; `row_key` names a preferred
/// display grouping and defaults to absent.
pub struct SectionMeta {
    pub row_key: Option<String>,
}

impl Clone for SectionMeta {
    /// Clones are equal to the original.
    fn clone(&self) -> (r: Self)
        ensures
            r == *self,
    {
        SectionMeta { row_key: self.row_key.clone() }
    }
}

impl Default for SectionMeta {
    /// The default metadata carries no row key.
    fn default() -> (r: Self)
        ensures
            r.row_key is None,
    {
        SectionMeta { row_key: None }
    }
}

/// A named, ordered group of repository summaries plus its metadata. Item
/// order follows the source document and is display-significant.
pub struct RepoSection {
    pub name: String,
    pub meta: SectionMeta,
    pub items: Vec<RepoSummary>,
}

/// The mathematical content of a section: its name and metadata together
/// with the sequence of items it holds.
#[verifier::ext_equal]
pub ghost struct SectionView {
    pub name: String,
    pub meta: SectionMeta,
    pub items: Seq<RepoSummary>,
}

impl View for RepoSection {
    type V = SectionView;

    open spec fn view(&self) -> SectionView {
        SectionView { name: self.name, meta: self.meta, items: self.items@ }
    }
}

/// The predicate that `filter_by_query` applies to each item.
pub open spec fn match_pred(query: Seq<char>) -> spec_fn(RepoSummary) -> bool {
    |item: RepoSummary| summary_matches(item, query)
}

/// The items of `items` that satisfy `summary_matches` for `query`, in their
/// original relative order.
pub open spec fn matching_items(items: Seq<RepoSummary>, query: Seq<char>) -> Seq<RepoSummary> {
    items.filter(match_pred(query))
}

/// A filter whose predicate holds of every element keeps the sequence intact.
proof fn lemma_filter_all_true(items: Seq<RepoSummary>, pred: spec_fn(RepoSummary) -> bool)
    requires
        forall|i: int| 0 <= i < items.len() ==> pred(#[trigger] items[i]),
    ensures
        items.filter(pred) == items,
    decreases items.len(),
{
    reveal(Seq::filter);
    if items.len() == 0 {
        assert(items.filter(pred) =~= items);
    } else {
        lemma_filter_all_true(items.drop_last(), pred);
        assert(items.drop_last().filter(pred).push(items.last()) =~= items);
    }
}

/// Law: filtering with an empty query keeps every item, in order and
/// unchanged.
pub proof fn lemma_empty_query_keeps_all(items: Seq<RepoSummary>, query: Seq<char>)
    requires
        query.len() == 0,
    ensures
        matching_items(items, query) == items,
{
    lemma_filter_all_true(items, match_pred(query));
}

/// Law: every item of the filtered sequence satisfies the query, and every
/// item of the original that was left out fails it.
pub proof fn lemma_matching_items_membership(items: Seq<RepoSummary>, query: Seq<char>)
    ensures
        forall|i: int|
            0 <= i < matching_items(items, query).len() ==> summary_matches(
                #[trigger] matching_items(items, query)[i],
                query,
            ),
        forall|i: int|
            0 <= i < items.len() && !matching_items(items, query).contains(#[trigger] items[i])
                ==> !summary_matches(items[i], query),
{
    broadcast use vstd::seq_lib::group_filter_ensures;

}

/// `sub` can be read off `s` from left to right without reordering: matching
/// the last elements greedily, `sub` is an ordered subsequence of `s`.
pub open spec fn is_ordered_subsequence_of(sub: Seq<RepoSummary>, s: Seq<RepoSummary>) -> bool
    decreases s.len(),
{
    if sub.len() == 0 {
        true
    } else if s.len() == 0 {
        false
    } else if sub.last() == s.last() {
        is_ordered_subsequence_of(sub.drop_last(), s.drop_last())
    } else {
        is_ordered_subsequence_of(sub, s.drop_last())
    }
}

/// An ordered subsequence stays one when its last element is dropped.
proof fn lemma_subsequence_drop_last(sub: Seq<RepoSummary>, s: Seq<RepoSummary>)
    requires
        is_ordered_subsequence_of(sub, s),
        sub.len() > 0,
    ensures
        is_ordered_subsequence_of(sub.drop_last(), s),
    decreases s.len(), 0int,
{
    if sub.last() == s.last() {
        lemma_subsequence_push(sub.drop_last(), s.drop_last(), s.last());
        assert(s.drop_last().push(s.last()) =~= s);
    } else {
        lemma_subsequence_drop_last(sub, s.drop_last());
        lemma_subsequence_push(sub.drop_last(), s.drop_last(), s.last());
        assert(s.drop_last().push(s.last()) =~= s);
    }
}

/// An ordered subsequence stays one when the source grows at the end.
proof fn lemma_subsequence_push(sub: Seq<RepoSummary>, s: Seq<RepoSummary>, tail: RepoSummary)
    requires
        is_ordered_subsequence_of(sub, s),
    ensures
        is_ordered_subsequence_of(sub, s.push(tail)),
    decreases s.len(), 1int,
{
    assert(s.push(tail).drop_last() =~= s);
    if sub.len() == 0 {
    } else if sub.last() == tail {
        lemma_subsequence_drop_last(sub, s);
    }
}

/// Law: the filtered items are an ordered subsequence of the original items:
/// filtering never reorders, duplicates, or invents an item.
pub proof fn lemma_matching_items_are_an_ordered_subsequence(
    items: Seq<RepoSummary>,
    query: Seq<char>,
)
    ensures
        is_ordered_subsequence_of(matching_items(items, query), items),
    decreases items.len(),
{
    reveal(Seq::filter);
    let filtered = matching_items(items, query);
    if items.len() == 0 {
    } else {
        lemma_matching_items_are_an_ordered_subsequence(items.drop_last(), query);
        let pred = match_pred(query);
        if pred(items.last()) {
            assert(filtered.drop_last() =~= items.drop_last().filter(pred));
        } else {
            if filtered.len() > 0 && filtered.last() == items.last() {
                lemma_subsequence_drop_last(filtered, items.drop_last());
            }
        }
    }
}

/// Law: filtering twice with the same query gives what filtering once gives.
pub proof fn lemma_matching_items_idempotent(items: Seq<RepoSummary>, query: Seq<char>)
    ensures
        matching_items(matching_items(items, query), query) == matching_items(items, query),
{
    broadcast use vstd::seq_lib::group_filter_ensures;

    lemma_filter_all_true(matching_items(items, query), match_pred(query));
}

impl Clone for RepoSection {
    /// Clones carry the same name, metadata, and items as the original.
    fn clone(&self) -> (r: Self)
        ensures
            r@ == self@,
    {
        let mut items: Vec<RepoSummary> = Vec::new();
        let mut i: usize = 0;
        while i < self.items.len()
            invariant
                i <= self.items@.len(),
                items@ == self.items@.take(i as int),
            decreases self.items@.len() - i,
        {
            items.push(self.items[i].clone());
            proof {
                assert(items@ =~= self.items@.take(i + 1 as int));
            }
            i += 1;
        }
        proof {
            assert(items@ =~= self.items@);
        }
        let r = RepoSection { name: self.name.clone(), meta: self.meta.clone(), items };
        proof {
            assert(r@ =~= self@);
        }
        r
    }
}

impl RepoSection {
    /// Returns a new section with the same name and metadata whose items are
    /// exactly those of this section that match the query, order preserved;
    /// an empty query keeps every item.
    pub fn filter_by_query(&self, query: &str) -> (r: RepoSection)
        ensures
            r@.name == self@.name,
            r@.meta == self@.meta,
            r@.items == matching_items(self@.items, query@),
    {
        let ghost pred = match_pred(query@);
        let mut items: Vec<RepoSummary> = Vec::new();
        let mut i: usize = 0;
        while i < self.items.len()
            invariant
                i <= self.items@.len(),
                items@ == self.items@.take(i as int).filter(pred),
                pred == match_pred(query@),
            decreases self.items@.len() - i,
        {
            let item = &self.items[i];
            if item.matches_query(query) {
                items.push(item.clone());
            }
            proof {
                assert(self.items@.take(i + 1 as int) =~= self.items@.take(i as int) + seq![
                    self.items@[i as int],
                ]);
                Seq::filter_distributes_over_add(
                    self.items@.take(i as int),
                    seq![self.items@[i as int]],
                    pred,
                );
                reveal_with_fuel(Seq::filter, 2);
                assert(seq![self.items@[i as int]].drop_last() =~= Seq::<RepoSummary>::empty());
                assert(items@ == self.items@.take(i + 1 as int).filter(pred));
            }
            i += 1;
        }
        proof {
            assert(self.items@.take(self.items@.len() as int) =~= self.items@);
        }
        RepoSection { name: self.name.clone(), meta: self.meta.clone(), items }
    }
}

/// The single highlighted entry shown in the hero area; it is decoded once
/// from the bundled document at startup and never refetched.
pub struct FeaturedRepo {
    pub name: String,
    pub description: String,
    pub repository: String,
    pub tags: Vec<String>,
    pub updated_at: String,
}

impl Clone for FeaturedRepo {
    /// Clones carry the same fields as the original, tags included.
    fn clone(&self) -> (r: Self)
        ensures
            r.name == self.name,
            r.description == self.description,
            r.repository == self.repository,
            r.tags@ == self.tags@,
            r.updated_at == self.updated_at,
    {
        let mut tags: Vec<String> = Vec::new();
        let mut i: usize = 0;
        while i < self.tags.len()
            invariant
                i <= self.tags@.len(),
                tags@ == self.tags@.take(i as int),
            decreases self.tags@.len() - i,
        {
            tags.push(self.tags[i].clone());
            proof {
                assert(tags@ =~= self.tags@.take(i + 1 as int));
            }
            i += 1;
        }
        proof {
            assert(tags@ =~= self.tags@);
        }
        FeaturedRepo {
            name: self.name.clone(),
            description: self.description.clone(),
            repository: self.repository.clone(),
            tags,
            updated_at: self.updated_at.clone(),
        }
    }
}

} // verus!
