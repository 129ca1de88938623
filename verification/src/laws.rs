//! What holds of an index across its operations.
//!
//! Each statement is made over `IndexView`, the state in which the contracts
//! of `Index` are written, so that it holds of every index whichever sequence
//! of operations produced it.

use vstd::prelude::*;
use crate::config::Config;
use crate::engine::{Built, EngineCall, Loaded, Opened};
use crate::error::IndexError;
use crate::index::{new_outcome, new_plan, open_outcome, open_plan, read_outcome, written_as, IndexView};

verus! {

/// A freshly created index is well formed, holds no row, reports 0 as the
/// last identifier, and has the configured dimension. The same holds of an
/// index that was opened where no file was found.
pub proof fn lemma_fresh_index_is_empty(conf: Config, built: Built)
    requires
        new_outcome(conf, built) is Ok,
    ensures
        new_outcome(conf, built)->Ok_0.wf(),
        new_outcome(conf, built)->Ok_0.count() == 0,
        new_outcome(conf, built)->Ok_0.max_id() == 0,
        new_outcome(conf, built)->Ok_0.dimension == conf.dimension,
        open_outcome(conf, Opened::Fresh(built)) == new_outcome(conf, built),
{
}

/// An index is created exactly from a valid configuration that the engine
/// accepted, and every other attempt fails as a configuration error. A
/// configuration that is refused by the plan is refused whatever the engine
/// is claimed to have answered.
pub proof fn lemma_creation_needs_valid_config(conf: Config, built: Built)
    ensures
        new_outcome(conf, built) is Ok <==> conf.valid() && built is Ready,
        new_outcome(conf, built) is Err ==> new_outcome(conf, built)->Err_0
            == IndexError::Configuration,
        new_plan(conf) is Ok <==> conf.valid(),
        new_plan(conf) is Err ==> new_outcome(conf, built) is Err,
{
}

/// A new index is trained exactly if the engine reports it so: a family that
/// needs fitting starts out untrained, one that needs none starts out trained.
pub proof fn lemma_created_flag_is_the_engines(conf: Config, trained: bool)
    requires
        conf.valid(),
    ensures
        new_outcome(conf, Built::Ready { trained }) is Ok,
        new_outcome(conf, Built::Ready { trained })->Ok_0.trained == trained,
{
}

/// Training with a sample that is a whole, positive number of vectors, which
/// the engine fitted, succeeds and leaves the index trained; it changes
/// neither the dimension nor the rows. Training succeeds in no other case.
pub proof fn lemma_training_sets_the_flag(state: IndexView, len: int, fitted: bool)
    requires
        state.wf(),
        len >= 0,
    ensures
        state.train(len, fitted) is Ok <==> len % state.dimension == 0 && len / state.dimension > 0
            && fitted,
        state.train(len, fitted) is Ok ==> {
            let after = state.train(len, fitted)->Ok_0;
            &&& after.trained
            &&& after.dimension == state.dimension
            &&& after.ids == state.ids
            &&& after.wf()
        },
        state.train(len, fitted) is Err ==> state.train(len, fitted)->Err_0 == IndexError::Training,
{
}

/// Training an index that is trained already is permitted and leaves it as it
/// was.
pub proof fn lemma_retraining_changes_nothing(state: IndexView, len: int)
    requires
        state.trained,
        state.trainable(len),
    ensures
        state.train(len, true) == Ok::<IndexView, IndexError>(state),
{
}

/// A successful insertion appends the identifiers in the order given: the
/// number of rows grows by exactly their number, the last of them is what
/// `max_id` reports afterwards, and the rows that were there stay where they
/// were.
pub proof fn lemma_insertion_appends(state: IndexView, ids: Seq<i64>, len: int, accepted: bool)
    requires
        state.wf(),
        state.add(ids, len, accepted) is Ok,
    ensures
        state.add(ids, len, accepted)->Ok_0.ids == state.ids + ids,
        state.add(ids, len, accepted)->Ok_0.count() == state.count() + ids.len(),
        ids.len() > 0 ==> state.add(ids, len, accepted)->Ok_0.max_id() == ids.last(),
        ids.len() == 0 ==> state.add(ids, len, accepted)->Ok_0.max_id() == state.max_id(),
        state.ids.is_prefix_of(state.add(ids, len, accepted)->Ok_0.ids),
        state.add(ids, len, accepted)->Ok_0.dimension == state.dimension,
        state.add(ids, len, accepted)->Ok_0.trained == state.trained,
{
    let after = state.add(ids, len, accepted)->Ok_0;
    assert(after.ids == state.ids + ids);
    if ids.len() == 0 {
        assert(after.ids =~= state.ids);
    } else {
        assert(after.ids.last() == ids.last());
    }
}

/// An insertion succeeds exactly when the vectors are a whole number of
/// vectors, one for each identifier, the index is trained, and the engine
/// accepted them. A mismatch is reported before the training gate is.
pub proof fn lemma_insertion_gate(state: IndexView, ids: Seq<i64>, len: int, accepted: bool)
    requires
        state.wf(),
        len >= 0,
    ensures
        state.add(ids, len, accepted) is Ok <==> len % state.dimension == 0 && ids.len() == len
            / state.dimension && state.trained && accepted,
        !(len % state.dimension == 0 && ids.len() == len / state.dimension) ==> state.add(
            ids,
            len,
            accepted,
        ) == Err::<IndexView, IndexError>(IndexError::DimensionMismatch),
        len % state.dimension == 0 && ids.len() == len / state.dimension && !(state.trained
            && accepted) ==> state.add(ids, len, accepted) == Err::<IndexView, IndexError>(
            IndexError::NotTrained,
        ),
{
}

/// What the plan of an operation refuses, the operation refuses with the same
/// error, whatever the engine is claimed to have answered: no failure of the
/// arguments waits for the engine. And an operation only succeeds where its
/// plan named a call.
pub proof fn lemma_plans_decide_first(state: IndexView, ids: Seq<i64>, len: int, answer: bool)
    ensures
        state.train_plan(len) is Err ==> state.train(len, answer) == Err::<IndexView, IndexError>(
            state.train_plan(len)->Err_0,
        ),
        state.add_plan(ids.len() as int, len) is Err ==> state.add(ids, len, answer) == Err::<
            IndexView,
            IndexError,
        >(state.add_plan(ids.len() as int, len)->Err_0),
        state.train(len, answer) is Ok ==> state.train_plan(len) is Ok,
        state.add(ids, len, answer) is Ok ==> state.add_plan(ids.len() as int, len) is Ok,
{
}

/// Once trained, always trained: neither training nor insertion takes the
/// flag back, changes the dimension, or removes or reorders a row.
pub proof fn lemma_trained_never_reverts(
    state: IndexView,
    ids: Seq<i64>,
    len: int,
    answer: bool,
)
    requires
        state.wf(),
    ensures
        state.train(len, answer) is Ok ==> {
            let after = state.train(len, answer)->Ok_0;
            &&& state.trained ==> after.trained
            &&& after.dimension == state.dimension
            &&& state.ids.is_prefix_of(after.ids)
        },
        state.add(ids, len, answer) is Ok ==> {
            let after = state.add(ids, len, answer)->Ok_0;
            &&& state.trained ==> after.trained
            &&& after.dimension == state.dimension
            &&& state.ids.is_prefix_of(after.ids)
        },
{
    if state.train(len, answer) is Ok {
        assert(state.ids.is_prefix_of(state.ids));
    }
    if state.add(ids, len, answer) is Ok {
        assert(state.ids.is_prefix_of(state.ids + ids));
    }
}

/// An index that holds no row asks nothing of the engine when it is searched,
/// and hands out two empty sequences whatever `k` and the queries are and
/// whatever the buffers hold.
pub proof fn lemma_empty_index_finds_nothing<T>(
    state: IndexView,
    k: i32,
    num_queries: i32,
    len: int,
    raw_ids: Seq<i64>,
    raw_distances: Seq<T>,
)
    requires
        state.count() == 0,
    ensures
        state.search_plan(k, num_queries, len) == Ok::<Option<EngineCall>, IndexError>(None),
        state.search_ids(raw_ids) == Seq::<i64>::empty(),
        state.search_distances(raw_ids, raw_distances) == Seq::<T>::empty(),
{
}

/// An index that holds rows asks the engine for exactly one search, into
/// buffers of `k` slots for each query, provided that the queries are one
/// vector each and the index is trained. Queries of another length are
/// refused first, a search of an untrained index next.
pub proof fn lemma_search_asks_once(state: IndexView, k: i32, num_queries: i32, len: int)
    requires
        state.count() > 0,
        0 <= k * num_queries <= usize::MAX,
    ensures
        len == num_queries * state.dimension && state.trained ==> state.search_plan(
            k,
            num_queries,
            len,
        ) == Ok::<Option<EngineCall>, IndexError>(
            Some(EngineCall::Search { num_queries, k, slots: (k * num_queries) as usize }),
        ),
        len != num_queries * state.dimension ==> state.search_plan(k, num_queries, len) == Err::<
            Option<EngineCall>,
            IndexError,
        >(IndexError::DimensionMismatch),
        len == num_queries * state.dimension && !state.trained ==> state.search_plan(
            k,
            num_queries,
            len,
        ) == Err::<Option<EngineCall>, IndexError>(IndexError::NotTrained),
{
}

/// Rows imply training: a new index holds no row, and neither training nor
/// insertion can leave rows in an untrained index. An index of which this
/// holds is never refused a search for want of training.
pub proof fn lemma_rows_imply_training(
    conf: Config,
    built: Built,
    state: IndexView,
    ids: Seq<i64>,
    len: int,
    answer: bool,
    k: i32,
    num_queries: i32,
)
    ensures
        new_outcome(conf, built) is Ok ==> new_outcome(conf, built)->Ok_0.gated(),
        state.gated() && state.train(len, answer) is Ok ==> state.train(len, answer)->Ok_0.gated(),
        state.add(ids, len, answer) is Ok ==> state.add(ids, len, answer)->Ok_0.gated(),
        state.gated() ==> state.search_plan(k, num_queries, len) != Err::<
            Option<EngineCall>,
            IndexError,
        >(IndexError::NotTrained),
{
}

/// Writing an index and reading it back gives the index that was written:
/// where the engine reads what a well-formed index was written as, the index
/// that is opened has the same dimension, training flag and rows, and so the
/// same count and last identifier, and it shapes every answer of the kernel
/// as the first index does. Opening under any configuration finds the same,
/// since a stored index is read and not created.
pub proof fn lemma_write_then_read<T>(
    state: IndexView,
    loaded: Loaded,
    conf: Config,
    raw_ids: Seq<i64>,
    raw_distances: Seq<T>,
)
    requires
        state.wf(),
        written_as(state, loaded),
    ensures
        read_outcome(loaded) == Ok::<IndexView, IndexError>(state),
        open_plan(conf, true) is Ok,
        open_outcome(conf, Opened::Stored(loaded)) == Ok::<IndexView, IndexError>(state),
        read_outcome(loaded)->Ok_0.dimension == state.dimension,
        read_outcome(loaded)->Ok_0.trained == state.trained,
        read_outcome(loaded)->Ok_0.count() == state.count(),
        read_outcome(loaded)->Ok_0.max_id() == state.max_id(),
        read_outcome(loaded)->Ok_0.search_ids(raw_ids) == state.search_ids(raw_ids),
        read_outcome(loaded)->Ok_0.search_distances(raw_ids, raw_distances)
            == state.search_distances(raw_ids, raw_distances),
{
}

/// Whatever is read successfully is a well-formed, identifier-mapped index;
/// everything else is refused as corrupt.
pub proof fn lemma_reading_checks_the_family(loaded: Loaded)
    ensures
        read_outcome(loaded) is Ok ==> loaded is IdMapped && read_outcome(loaded)->Ok_0.wf(),
        !(loaded is IdMapped) ==> read_outcome(loaded) == Err::<IndexView, IndexError>(
            IndexError::CorruptIndex,
        ),
        read_outcome(loaded) is Err ==> read_outcome(loaded)->Err_0 == IndexError::CorruptIndex,
{
}

} // verus!
