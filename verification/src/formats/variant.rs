//! The variant resolver: which structural variant of a format a container
//! holds, judged by the tags that are present.

use crate::common::{DecodeError, Failure, R};
use crate::formats::chunk::contains_text;
use vstd::prelude::*;

verus! {

/// Every tag of the marker set is present.
pub open spec fn matches(markers: Seq<Seq<char>>, tags: Set<Seq<char>>) -> bool {
    forall|i: int| 0 <= i < markers.len() ==> tags.contains(#[trigger] markers[i])
}

/// Candidate `k` is the first, in the order of the candidates, whose marker
/// set is present in full.
pub open spec fn first_match(candidates: Seq<Seq<Seq<char>>>, tags: Set<Seq<char>>, k: int) -> bool {
    &&& 0 <= k < candidates.len()
    &&& matches(candidates[k], tags)
    &&& forall|j: int| 0 <= j < k ==> !matches(#[trigger] candidates[j], tags)
}

/// Some candidate's marker set is present in full.
pub open spec fn some_match(candidates: Seq<Seq<Seq<char>>>, tags: Set<Seq<char>>) -> bool {
    exists|k: int| 0 <= k < candidates.len() && matches(#[trigger] candidates[k], tags)
}

/// The variant that the tags stand for: the first candidate, in the order
/// that the format gives them, whose marker set is present in full. Where
/// there is none, the variant is unrecognized; nothing is guessed from a
/// marker set that is present in part.
pub open spec fn resolved(candidates: Seq<Seq<Seq<char>>>, tags: Set<Seq<char>>) -> Result<
    int,
    Failure,
> {
    if some_match(candidates, tags) {
        Ok(choose|k: int| first_match(candidates, tags, k))
    } else {
        Err(Failure::UnrecognizedVariant)
    }
}

/// The first full match is the variant, whatever matches after it.
pub proof fn lemma_first_full_match_wins(
    candidates: Seq<Seq<Seq<char>>>,
    tags: Set<Seq<char>>,
    k: int,
)
    requires
        first_match(candidates, tags, k),
    ensures
        resolved(candidates, tags) == Ok::<int, Failure>(k),
{
    let chosen = choose|i: int| first_match(candidates, tags, i);
    assert(chosen == k);
}

/// Tags that hold all of one candidate's markers, and not all of any other
/// candidate's, resolve to that candidate.
pub proof fn lemma_only_match_wins(candidates: Seq<Seq<Seq<char>>>, tags: Set<Seq<char>>, a: int)
    requires
        0 <= a < candidates.len(),
        matches(candidates[a], tags),
        forall|b: int|
            0 <= b < candidates.len() && b != a ==> !matches(#[trigger] candidates[b], tags),
    ensures
        resolved(candidates, tags) == Ok::<int, Failure>(a),
{
    assert(first_match(candidates, tags, a));
    lemma_first_full_match_wins(candidates, tags, a);
}

/// Tags that hold all the markers of no candidate are unrecognized.
pub proof fn lemma_no_match_is_unrecognized(candidates: Seq<Seq<Seq<char>>>, tags: Set<Seq<char>>)
    requires
        forall|k: int| 0 <= k < candidates.len() ==> !matches(#[trigger] candidates[k], tags),
    ensures
        resolved(candidates, tags) == Err::<int, Failure>(Failure::UnrecognizedVariant),
{
}

/// Whether every marker is among the tags.
pub fn matches_file_type(marker_chunks: &Vec<&str>, lookup: &Vec<String>) -> (r: bool)
    ensures
        r == matches(marker_chunks.deep_view(), lookup.deep_view().to_set()),
{
    let mut i: usize = 0;
    while i < marker_chunks.len()
        invariant
            i <= marker_chunks.len(),
            forall|j: int|
                0 <= j < i ==> lookup.deep_view().to_set().contains(
                    #[trigger] marker_chunks.deep_view()[j],
                ),
        decreases marker_chunks.len() - i,
    {
        if !contains_text(lookup, marker_chunks[i]) {
            assert(!lookup.deep_view().to_set().contains(marker_chunks.deep_view()[i as int]));
            return false;
        }
        i = i + 1;
    }
    true
}

/// Resolves the variant: the index of the first candidate whose markers are
/// all among the tags.
pub fn resolve(candidates: &Vec<Vec<&str>>, tags: &Vec<String>) -> (r: R<usize>)
    ensures
        match r {
            Ok(k) => resolved(candidates.deep_view(), tags.deep_view().to_set()) == Ok::<
                int,
                Failure,
            >(k as int),
            Err(e) => resolved(candidates.deep_view(), tags.deep_view().to_set()) == Err::<
                int,
                Failure,
            >(e@),
        },
{
    let mut k: usize = 0;
    while k < candidates.len()
        invariant
            k <= candidates.len(),
            forall|j: int|
                0 <= j < k ==> !matches(
                    #[trigger] candidates.deep_view()[j],
                    tags.deep_view().to_set(),
                ),
        decreases candidates.len() - k,
    {
        if matches_file_type(&candidates[k], tags) {
            proof {
                lemma_first_full_match_wins(
                    candidates.deep_view(),
                    tags.deep_view().to_set(),
                    k as int,
                );
            }
            return Ok(k);
        }
        k = k + 1;
    }
    Err(DecodeError::UnrecognizedVariant)
}

} // verus!
