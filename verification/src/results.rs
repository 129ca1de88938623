//! Shaping of the raw buffers that a search kernel fills.
//!
//! A kernel answers into two parallel buffers of fixed length, one of
//! identifiers and one of distances. Slots that it could not fill carry the
//! identifier `NO_RESULT`. The caller is handed the buffers cut just behind the
//! last slot that was filled.

use vstd::prelude::*;

verus! {

/// The identifier that marks a slot which the kernel left unfilled.
pub const NO_RESULT: i64 = -1;

/// `bound` cuts `ids` just behind its last filled slot: nothing but unfilled
/// slots lies at or behind `bound`, and the slot in front of it, if there is
/// one, is filled.
pub open spec fn is_truncation_bound(ids: Seq<i64>, bound: int) -> bool {
    &&& 0 <= bound <= ids.len()
    &&& forall|i: int| bound <= i < ids.len() ==> ids[i] == NO_RESULT
    &&& bound > 0 ==> ids[bound - 1] != NO_RESULT
}

/// The length that a raw identifier buffer is cut to: one more than the
/// position of its last filled slot, and zero where no slot is filled.
pub open spec fn truncation_bound(ids: Seq<i64>) -> nat
    decreases ids.len(),
{
    if ids.len() == 0 {
        0
    } else if ids.last() != NO_RESULT {
        ids.len()
    } else {
        truncation_bound(ids.drop_last())
    }
}

/// The identifiers that remain of a raw buffer.
pub open spec fn truncated_ids(ids: Seq<i64>) -> Seq<i64> {
    ids.subrange(0, truncation_bound(ids) as int)
}

/// What remains of the buffer that runs parallel to `ids`. A buffer that is
/// shorter than the bound is left as it is.
pub open spec fn truncated_values<T>(ids: Seq<i64>, values: Seq<T>) -> Seq<T> {
    if truncation_bound(ids) <= values.len() {
        values.subrange(0, truncation_bound(ids) as int)
    } else {
        values
    }
}

/// `truncation_bound` cuts just behind the last filled slot.
pub proof fn lemma_truncation_bound_cuts(ids: Seq<i64>)
    ensures
        is_truncation_bound(ids, truncation_bound(ids) as int),
    decreases ids.len(),
{
    if ids.len() > 0 && ids.last() == NO_RESULT {
        let front = ids.drop_last();
        lemma_truncation_bound_cuts(front);
        let bound = truncation_bound(front) as int;
        assert forall|i: int| bound <= i < ids.len() implies ids[i] == NO_RESULT by {
            if i < front.len() {
                assert(front[i] == ids[i]);
            }
        }
        if bound > 0 {
            assert(front[bound - 1] == ids[bound - 1]);
        }
    }
}

/// A buffer has one place only at which it can be cut.
pub proof fn lemma_truncation_bound_unique(ids: Seq<i64>, a: int, b: int)
    requires
        is_truncation_bound(ids, a),
        is_truncation_bound(ids, b),
    ensures
        a == b,
{
    if a < b {
        assert(ids[b - 1] == NO_RESULT);
    } else if b < a {
        assert(ids[a - 1] == NO_RESULT);
    }
}

/// Every filled slot lies in front of the cut and is handed out unchanged.
pub proof fn lemma_filled_slots_survive(ids: Seq<i64>, i: int)
    requires
        0 <= i < ids.len(),
        ids[i] != NO_RESULT,
    ensures
        i < truncation_bound(ids),
        truncated_ids(ids)[i] == ids[i],
{
    lemma_truncation_bound_cuts(ids);
}

/// What is handed out never ends in an unfilled slot, and it is empty exactly
/// when the kernel filled no slot at all.
pub proof fn lemma_truncated_ends_filled(ids: Seq<i64>)
    ensures
        truncated_ids(ids).len() > 0 ==> truncated_ids(ids).last() != NO_RESULT,
        truncated_ids(ids).len() == 0 <==> forall|i: int| 0 <= i < ids.len() ==> ids[i] == NO_RESULT,
{
    lemma_truncation_bound_cuts(ids);
    let bound = truncation_bound(ids) as int;
    if bound > 0 {
        assert(ids[bound - 1] != NO_RESULT);
    }
}

/// For a single query the kernel answers with its hits followed by padding.
/// Cutting removes the padding and nothing else: whenever the last of `hits`
/// is a filled slot, `hits` followed by any number of unfilled slots is cut
/// back to `hits`, and the parallel buffer to the values that belong to them.
pub proof fn lemma_padding_is_removed<T>(hits: Seq<i64>, padding: Seq<i64>, values: Seq<T>)
    requires
        hits.len() > 0 ==> hits.last() != NO_RESULT,
        forall|i: int| 0 <= i < padding.len() ==> padding[i] == NO_RESULT,
        values.len() == hits.len() + padding.len(),
    ensures
        truncation_bound(hits + padding) == hits.len(),
        truncated_ids(hits + padding) == hits,
        truncated_values(hits + padding, values) == values.subrange(0, hits.len() as int),
{
    let raw = hits + padding;
    lemma_truncation_bound_cuts(raw);
    assert(is_truncation_bound(raw, hits.len() as int)) by {
        if hits.len() > 0 {
            assert(raw[hits.len() - 1] == hits.last());
        }
    }
    lemma_truncation_bound_unique(raw, truncation_bound(raw) as int, hits.len() as int);
    assert(raw.subrange(0, hits.len() as int) =~= hits);
}

/// Cutting twice is cutting once.
pub proof fn lemma_truncation_is_idempotent(ids: Seq<i64>)
    ensures
        truncated_ids(truncated_ids(ids)) == truncated_ids(ids),
{
    lemma_truncated_ends_filled(ids);
    let cut = truncated_ids(ids);
    lemma_padding_is_removed::<i64>(cut, Seq::empty(), cut);
    assert(cut + Seq::<i64>::empty() =~= cut);
}

/// Scans `ids` from its last slot backward, past the unfilled slots, and
/// returns the length to which the buffer is cut.
pub fn find_truncation_bound(ids: &Vec<i64>) -> (bound: usize)
    ensures
        bound == truncation_bound(ids@),
        is_truncation_bound(ids@, bound as int),
{
    let mut bound: usize = ids.len();
    assert(ids@.subrange(0, bound as int) =~= ids@);
    while bound > 0 && ids[bound - 1] == NO_RESULT
        invariant
            bound <= ids.len(),
            truncation_bound(ids@) == truncation_bound(ids@.subrange(0, bound as int)),
        decreases bound,
    {
        proof {
            let seen = ids@.subrange(0, bound as int);
            assert(seen.last() == ids@[bound - 1]);
            assert(seen.drop_last() =~= ids@.subrange(0, bound - 1));
        }
        bound -= 1;
    }
    proof {
        let seen = ids@.subrange(0, bound as int);
        if bound > 0 {
            assert(seen.last() == ids@[bound - 1]);
        }
        assert(truncation_bound(seen) == bound);
        lemma_truncation_bound_cuts(ids@);
    }
    bound
}

/// Cuts a raw answer of the kernel just behind its last filled slot. Both
/// buffers are cut to the same length; nothing in front of the cut is touched.
pub fn truncate_results<T>(ids: Vec<i64>, distances: Vec<T>) -> (shaped: (Vec<i64>, Vec<T>))
    ensures
        shaped.0@ == truncated_ids(ids@),
        shaped.1@ == truncated_values(ids@, distances@),
{
    let bound = find_truncation_bound(&ids);
    let mut ids = ids;
    let mut distances = distances;
    ids.truncate(bound);
    distances.truncate(bound);
    (ids, distances)
}

} // verus!
