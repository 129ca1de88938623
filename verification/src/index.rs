//! The index: what is known of it on this side of the engine, and the rules by
//! which that changes.

use vstd::prelude::*;
use crate::config::Config;
use crate::engine::{Built, EngineCall, Loaded, Opened};
use crate::error::IndexError;
use crate::results::{truncate_results, truncated_ids, truncated_values};

verus! {

/// The state of an index as the contracts speak of it.
pub struct IndexView {
    /// Number of components of every vector.
    pub dimension: int,
    /// Whether the index has been fitted, or never needed to be.
    pub trained: bool,
    /// The identifier of every row, in the order of insertion.
    pub ids: Seq<i64>,
}

impl IndexView {
    /// The dimension is positive, and the number of rows can be reported.
    pub open spec fn wf(self) -> bool {
        &&& 0 < self.dimension <= i32::MAX
        &&& self.ids.len() <= i64::MAX
    }

    /// Number of rows.
    pub open spec fn count(self) -> int {
        self.ids.len() as int
    }

    /// The identifier that was inserted last, and 0 while there is none.
    pub open spec fn max_id(self) -> i64 {
        if self.ids.len() == 0 {
            0
        } else {
            self.ids.last()
        }
    }

    /// The index that stands right after construction.
    pub open spec fn created(dimension: int, trained: bool) -> IndexView {
        IndexView { dimension, trained, ids: Seq::empty() }
    }

    /// A flat array of `len` components is a whole number of vectors.
    pub open spec fn aligned(self, len: int) -> bool {
        len % self.dimension == 0
    }

    /// Number of vectors in a flat array of `len` components.
    pub open spec fn vectors(self, len: int) -> int {
        len / self.dimension
    }

    /// A training sample of `len` components is acceptable: a whole number of
    /// vectors, and at least one.
    pub open spec fn trainable(self, len: int) -> bool {
        self.aligned(len) && self.vectors(len) > 0
    }

    /// What `Index::plan_train` answers for a sample of `len` components.
    pub open spec fn train_plan(self, len: int) -> Result<EngineCall, IndexError> {
        if self.trainable(len) {
            Ok(EngineCall::Train { samples: self.vectors(len) as usize })
        } else {
            Err(IndexError::Training)
        }
    }

    /// The index after `Index::train` on a sample of `len` components that
    /// the engine fitted, or failed to fit.
    pub open spec fn train(self, len: int, fitted: bool) -> Result<IndexView, IndexError> {
        if self.trainable(len) && fitted {
            Ok(IndexView { trained: true, ..self })
        } else {
            Err(IndexError::Training)
        }
    }

    /// `rows` identifiers come with a flat array of `len` components that
    /// holds exactly `rows` vectors.
    pub open spec fn matched(self, rows: int, len: int) -> bool {
        self.aligned(len) && rows == self.vectors(len)
    }

    /// The failure that stops an insertion before the engine is called.
    pub open spec fn add_refusal(self, rows: int, len: int) -> Option<IndexError> {
        if !self.matched(rows, len) {
            Some(IndexError::DimensionMismatch)
        } else if !self.trained {
            Some(IndexError::NotTrained)
        } else {
            None
        }
    }

    /// What `Index::plan_add` answers for `rows` identifiers and `len`
    /// components.
    pub open spec fn add_plan(self, rows: int, len: int) -> Result<EngineCall, IndexError> {
        match self.add_refusal(rows, len) {
            Some(e) => Err(e),
            None => Ok(EngineCall::Add { rows: rows as usize }),
        }
    }

    /// The index after `Index::add_with_ids` of `ids` with `len` components
    /// that the engine accepted, or rejected.
    pub open spec fn add(self, ids: Seq<i64>, len: int, accepted: bool) -> Result<
        IndexView,
        IndexError,
    > {
        match self.add_refusal(ids.len() as int, len) {
            Some(e) => Err(e),
            None => if accepted {
                Ok(IndexView { ids: self.ids + ids, ..self })
            } else {
                Err(IndexError::NotTrained)
            },
        }
    }

    /// Every row was inserted into a trained index. This holds of an index
    /// from its creation on; only a stored index can be found without it.
    pub open spec fn gated(self) -> bool {
        self.count() > 0 ==> self.trained
    }

    /// What `Index::plan_search` answers for `num_queries` queries of `len`
    /// components in all: no call on the engine while the index is empty;
    /// otherwise the queries have to be one vector each, and the index
    /// trained.
    pub open spec fn search_plan(self, k: i32, num_queries: i32, len: int) -> Result<
        Option<EngineCall>,
        IndexError,
    > {
        if self.count() == 0 {
            Ok(None)
        } else if len != num_queries * self.dimension {
            Err(IndexError::DimensionMismatch)
        } else if !self.trained {
            Err(IndexError::NotTrained)
        } else {
            Ok(Some(EngineCall::Search { num_queries, k, slots: (k * num_queries) as usize }))
        }
    }

    /// The identifiers that `Index::search` hands out.
    pub open spec fn search_ids(self, raw_ids: Seq<i64>) -> Seq<i64> {
        if self.count() == 0 {
            Seq::empty()
        } else {
            truncated_ids(raw_ids)
        }
    }

    /// The distances that `Index::search` hands out.
    pub open spec fn search_distances<T>(self, raw_ids: Seq<i64>, raw_distances: Seq<T>) -> Seq<T> {
        if self.count() == 0 {
            Seq::empty()
        } else {
            truncated_values(raw_ids, raw_distances)
        }
    }
}

/// What `Index::plan_new` answers.
pub open spec fn new_plan(conf: Config) -> Result<EngineCall, IndexError> {
    if conf.valid() {
        Ok(EngineCall::Construct { dimension: conf.dimension, metric: conf.metric_type })
    } else {
        Err(IndexError::Configuration)
    }
}

/// What `Index::plan_open` answers.
pub open spec fn open_plan(conf: Config, is_file: bool) -> Result<EngineCall, IndexError> {
    if is_file {
        Ok(EngineCall::Read)
    } else {
        new_plan(conf)
    }
}

/// The index that `Index::new` makes of a configuration and the engine's
/// answer.
pub open spec fn new_outcome(conf: Config, built: Built) -> Result<IndexView, IndexError> {
    match built {
        Built::Ready { trained } if conf.valid() => Ok(
            IndexView::created(conf.dimension as int, trained),
        ),
        _ => Err(IndexError::Configuration),
    }
}

/// The index that `Index::read_index` makes of what the engine read.
pub open spec fn read_outcome(loaded: Loaded) -> Result<IndexView, IndexError> {
    match loaded {
        Loaded::IdMapped { dimension, trained, ids } if dimension > 0 && ids@.len() <= i64::MAX => Ok(
            IndexView { dimension: dimension as int, trained, ids: ids@ },
        ),
        _ => Err(IndexError::CorruptIndex),
    }
}

/// The index that `Index::open_or_create` makes of what was found.
pub open spec fn open_outcome(conf: Config, opened: Opened) -> Result<IndexView, IndexError> {
    match opened {
        Opened::Stored(loaded) => read_outcome(loaded),
        Opened::Fresh(built) => new_outcome(conf, built),
    }
}

/// What a faithful engine reads back after it has written an index in the
/// state `state`.
pub open spec fn written_as(state: IndexView, loaded: Loaded) -> bool {
    match loaded {
        Loaded::IdMapped { dimension, trained, ids } => {
            &&& dimension == state.dimension
            &&& trained == state.trained
            &&& ids@ == state.ids
        },
        _ => false,
    }
}

/// An index, as far as it is known on this side of the engine.
#[derive(Debug)]
pub struct Index {
    config: Config,
    dimension: i32,
    trained: bool,
    ids: Vec<i64>,
}

impl View for Index {
    type V = IndexView;

    closed spec fn view(&self) -> IndexView {
        IndexView { dimension: self.dimension as int, trained: self.trained, ids: self.ids@ }
    }
}

impl Index {
    /// What holds of every index that this module hands out, and what each of
    /// its operations relies on: its state is well formed.
    pub open spec fn wf(&self) -> bool {
        self@.wf()
    }

    /// The configuration that the index was opened with.
    pub closed spec fn spec_config(&self) -> Config {
        self.config
    }

    /// The configuration that the index was opened with.
    pub fn config(&self) -> (conf: &Config)
        ensures
            *conf == self.spec_config(),
    {
        &self.config
    }

    /// `made` is the index in the state `expected` under the configuration
    /// `conf`, or the failure `expected`.
    pub open spec fn made_as(
        made: Result<Index, IndexError>,
        expected: Result<IndexView, IndexError>,
        conf: Config,
    ) -> bool {
        match expected {
            Ok(state) => {
                &&& made is Ok
                &&& made->Ok_0@ == state
                &&& made->Ok_0.spec_config() == conf
                &&& made->Ok_0.wf()
            },
            Err(e) => made == Err::<Index, IndexError>(e),
        }
    }

    /// Decides what opening an index under `conf` asks of the engine:
    /// to read the stored index where `is_file` says that a regular file lies
    /// at the configured path, and to construct a new one otherwise.
    pub fn plan_open(conf: &Config, is_file: bool) -> (plan: Result<EngineCall, IndexError>)
        ensures
            plan == open_plan(*conf, is_file),
    {
        if is_file {
            Ok(EngineCall::Read)
        } else {
            Index::plan_new(conf)
        }
    }

    /// Opens the index that was found at the configured path, or the one that
    /// was constructed because none was found.
    pub fn open_or_create(conf: Config, opened: Opened) -> (made: Result<Index, IndexError>)
        ensures
            Index::made_as(made, open_outcome(conf, opened), conf),
    {
        match opened {
            Opened::Stored(loaded) => Index::read_index(conf, loaded),
            Opened::Fresh(built) => Index::new(conf, built),
        }
    }

    /// Validates `conf` and names the construction that the engine is asked
    /// for. An invalid configuration never reaches the engine.
    pub fn plan_new(conf: &Config) -> (plan: Result<EngineCall, IndexError>)
        ensures
            plan == new_plan(*conf),
    {
        match conf.validate() {
            Ok(()) => Ok(EngineCall::Construct { dimension: conf.dimension, metric: conf.metric_type }),
            Err(e) => Err(e),
        }
    }

    /// The empty index that the engine constructed under `conf`. It starts
    /// out trained exactly if the engine says so.
    pub fn new(conf: Config, built: Built) -> (made: Result<Index, IndexError>)
        ensures
            Index::made_as(made, new_outcome(conf, built), conf),
    {
        match built {
            Built::Ready { trained } => match conf.validate() {
                Ok(()) => {
                    let dimension = conf.dimension;
                    Ok(Index { config: conf, dimension, trained, ids: Vec::new() })
                },
                Err(e) => Err(e),
            },
            Built::Rejected => Err(IndexError::Configuration),
        }
    }

    /// Number of vectors in a flat array of `len` components, if it holds a
    /// whole number of them.
    fn whole_vectors(&self, len: usize) -> (n: Option<usize>)
        requires
            self.wf(),
        ensures
            n == if self@.aligned(len as int) {
                Some(self@.vectors(len as int) as usize)
            } else {
                None
            },
            self@.vectors(len as int) <= len,
    {
        let d = self.dimension as usize;
        assert(self@.vectors(len as int) <= len) by (nonlinear_arith)
            requires
                self@.vectors(len as int) == len as int / d as int,
                d > 0,
        ;
        if len % d == 0 {
            Some(len / d)
        } else {
            None
        }
    }

    /// Checks a training sample and names the fitting that the engine is
    /// asked for.
    pub fn plan_train<T>(&self, trainvecs: &Vec<T>) -> (plan: Result<EngineCall, IndexError>)
        requires
            self.wf(),
        ensures
            plan == self@.train_plan(trainvecs.len() as int),
    {
        match self.whole_vectors(trainvecs.len()) {
            Some(samples) if samples > 0 => Ok(EngineCall::Train { samples }),
            _ => Err(IndexError::Training),
        }
    }

    /// Records a training. The index is trained afterwards if the sample was
    /// acceptable and the engine fitted it; otherwise nothing changes.
    pub fn train<T>(&mut self, trainvecs: &Vec<T>, fitted: bool) -> (done: Result<(), IndexError>)
        requires
            old(self).wf(),
        ensures
            final(self).wf(),
            final(self).spec_config() == old(self).spec_config(),
            match old(self)@.train(trainvecs.len() as int, fitted) {
                Ok(state) => done is Ok && final(self)@ == state,
                Err(e) => done == Err::<(), IndexError>(e) && *final(self) == *old(self),
            },
    {
        let plan = self.plan_train(trainvecs);
        if plan.is_ok() && fitted {
            self.trained = true;
            Ok(())
        } else {
            Err(IndexError::Training)
        }
    }

    /// Whether the index has been fitted, or never needed to be.
    pub fn is_trained(&self) -> (trained: bool)
        ensures
            trained == self@.trained,
    {
        self.trained
    }

    /// Number of components of every vector.
    pub fn dimension(&self) -> (dimension: i32)
        ensures
            dimension == self@.dimension,
    {
        self.dimension
    }

    /// Number of rows.
    pub fn count(&self) -> (count: i64)
        requires
            self.wf(),
        ensures
            count == self@.count(),
    {
        self.ids.len() as i64
    }

    /// The identifier that was inserted last, which need not be the largest;
    /// 0 while the index is empty.
    pub fn max_id(&self) -> (id: i64)
        ensures
            id == self@.max_id(),
    {
        let n = self.ids.len();
        if n == 0 {
            0
        } else {
            self.ids[n - 1]
        }
    }

    /// Checks an insertion and names the call that the engine is asked for.
    /// A mismatch between identifiers and vectors is found before the training
    /// gate is consulted, and either stops the insertion before the engine is
    /// reached.
    pub fn plan_add<T>(&self, ids: &Vec<i64>, datavecs: &Vec<T>) -> (plan: Result<
        EngineCall,
        IndexError,
    >)
        requires
            self.wf(),
        ensures
            plan == self@.add_plan(ids.len() as int, datavecs.len() as int),
    {
        match self.whole_vectors(datavecs.len()) {
            Some(rows) if rows == ids.len() => {
                if self.trained {
                    Ok(EngineCall::Add { rows })
                } else {
                    Err(IndexError::NotTrained)
                }
            },
            _ => Err(IndexError::DimensionMismatch),
        }
    }

    /// Records an insertion. If the insertion was in order and the engine
    /// accepted it, `ids` are appended to the identifier map in the order
    /// given; otherwise nothing changes.
    pub fn add_with_ids<T>(&mut self, ids: &Vec<i64>, datavecs: &Vec<T>, accepted: bool) -> (done:
        Result<(), IndexError>)
        requires
            old(self).wf(),
            old(self)@.count() + ids.len() <= i64::MAX,
        ensures
            final(self).wf(),
            final(self).spec_config() == old(self).spec_config(),
            match old(self)@.add(ids@, datavecs.len() as int, accepted) {
                Ok(state) => done is Ok && final(self)@ == state,
                Err(e) => done == Err::<(), IndexError>(e) && *final(self) == *old(self),
            },
    {
        match self.plan_add(ids, datavecs) {
            Ok(_) => {
                if !accepted {
                    return Err(IndexError::NotTrained);
                }
                let mut i: usize = 0;
                while i < ids.len()
                    invariant
                        i <= ids.len(),
                        self.spec_config() == old(self).spec_config(),
                        self.dimension == old(self).dimension,
                        self.trained == old(self).trained,
                        self.ids@ == old(self).ids@ + ids@.subrange(0, i as int),
                    decreases ids.len() - i,
                {
                    self.ids.push(ids[i]);
                    proof {
                        assert(ids@.subrange(0, i + 1) =~= ids@.subrange(0, i as int).push(ids@[i as int]));
                        assert(self.ids@ =~= old(self).ids@ + ids@.subrange(0, i + 1));
                    }
                    i += 1;
                }
                assert(ids@.subrange(0, i as int) =~= ids@);
                Ok(())
            },
            Err(e) => Err(e),
        }
    }

    /// Records the insertion of one vector under `id`.
    pub fn add_with_id<T>(&mut self, id: i64, datavecs: &Vec<T>, accepted: bool) -> (done: Result<
        (),
        IndexError,
    >)
        requires
            old(self).wf(),
            old(self)@.count() + 1 <= i64::MAX,
        ensures
            final(self).wf(),
            final(self).spec_config() == old(self).spec_config(),
            match old(self)@.add(seq![id], datavecs.len() as int, accepted) {
                Ok(state) => done is Ok && final(self)@ == state,
                Err(e) => done == Err::<(), IndexError>(e) && *final(self) == *old(self),
            },
    {
        let mut ids: Vec<i64> = Vec::new();
        ids.push(id);
        assert(ids@ =~= seq![id]);
        self.add_with_ids(&ids, datavecs, accepted)
    }

    /// Names the search that the engine is asked for, with the length of the
    /// two buffers that it answers into. An empty index asks nothing of the
    /// engine, whatever the queries are. Otherwise queries that are not
    /// `num_queries` vectors of the index's dimension are refused, and so is
    /// a search of an index that still has to be trained.
    pub fn plan_search<T>(&self, k: i32, num_queries: i32, queries: &Vec<T>) -> (plan: Result<
        Option<EngineCall>,
        IndexError,
    >)
        requires
            self.wf(),
            k > 0,
            k * num_queries <= usize::MAX,
        ensures
            plan == self@.search_plan(k, num_queries, queries.len() as int),
    {
        if self.ids.len() == 0 {
            return Ok(None);
        }
        if num_queries < 0 {
            assert(num_queries * self@.dimension < 0) by (nonlinear_arith)
                requires
                    num_queries < 0,
                    self@.dimension > 0,
            ;
            return Err(IndexError::DimensionMismatch);
        }
        assert(0 <= num_queries * self@.dimension <= 0x3fff_ffff_0000_0001) by (nonlinear_arith)
            requires
                0 <= num_queries <= 0x7fff_ffff,
                0 < self@.dimension <= 0x7fff_ffff,
        ;
        let expected: u64 = (num_queries as u64) * (self.dimension as u64);
        if queries.len() as u64 != expected {
            Err(IndexError::DimensionMismatch)
        } else if !self.trained {
            Err(IndexError::NotTrained)
        } else {
            assert(0 <= k * num_queries) by (nonlinear_arith)
                requires
                    k > 0,
                    num_queries >= 0,
            ;
            let slots = (k as usize) * (num_queries as usize);
            Ok(Some(EngineCall::Search { num_queries, k, slots }))
        }
    }

    /// Shapes what the kernel answered into what the caller is handed: both
    /// buffers cut just behind the last filled slot. An empty index hands out
    /// two empty sequences whatever the buffers hold.
    pub fn search<T>(&self, raw_ids: Vec<i64>, raw_distances: Vec<T>) -> (found: (Vec<i64>, Vec<T>))
        ensures
            found.0@ == self@.search_ids(raw_ids@),
            found.1@ == self@.search_distances(raw_ids@, raw_distances@),
    {
        if self.ids.len() == 0 {
            (Vec::new(), Vec::new())
        } else {
            truncate_results(raw_ids, raw_distances)
        }
    }

    /// Reports how persisting the index went: `written` says whether the
    /// engine could write the file at the configured path.
    pub fn write_index(&self, written: bool) -> (done: Result<(), IndexError>)
        ensures
            done == if written {
                Ok::<(), IndexError>(())
            } else {
                Err::<(), IndexError>(IndexError::Io)
            },
    {
        if written {
            Ok(())
        } else {
            Err(IndexError::Io)
        }
    }

    /// The index that the engine read from a file. Anything but an
    /// identifier-mapped index of positive dimension, with no more rows than
    /// `count` can report, is refused as corrupt.
    pub fn read_index(conf: Config, loaded: Loaded) -> (made: Result<Index, IndexError>)
        ensures
            Index::made_as(made, read_outcome(loaded), conf),
    {
        match loaded {
            Loaded::IdMapped { dimension, trained, ids } => {
                if dimension > 0 && ids.len() as u64 <= i64::MAX as u64 {
                    Ok(Index { config: conf, dimension, trained, ids })
                } else {
                    Err(IndexError::CorruptIndex)
                }
            },
            _ => Err(IndexError::CorruptIndex),
        }
    }
}

} // verus!
