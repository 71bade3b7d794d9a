//! Error taxonomy, the hybrid-search attribute store, index options, and the
//! `Dataset` capability trait.

use vstd::prelude::*;

use crate::bitmask::Bitmask;
use crate::bitmask::count_admitted;
use crate::engine::batch_shape_ok;
use crate::engine::batch_view;
use crate::engine::build_post;
use crate::engine::normalize_post;
use crate::predicate::PredicateQuery;
use crate::predicate::resolved_mask;
use crate::vectors::Fvec;
use crate::vectors::VectorBatch;

verus! {

/// An entry of a search result: the position, in the original unfiltered
/// collection, of a vector similar to the query, and its distance from the
/// query. The distance is the IEEE 754 bit pattern of a non-negative 32-bit
/// float; on such values the unsigned order of the bit patterns coincides
/// with the numeric order of the floats, so results are ordered by comparing
/// the patterns as integers.
pub type SimilaritySearchResult = (usize, u32);

/// Up to `k` search result entries for one query vector, ascending by
/// distance.
pub type TopKSearchResult = Vec<SimilaritySearchResult>;

/// One `TopKSearchResult` per query vector of a batch.
pub type TopKSearchResultBatch = Vec<TopKSearchResult>;

/// Local contract violations: a mask that does not line up with the
/// collection it is meant to filter, or a query batch whose dimensionality
/// disagrees with the dataset's.
#[derive(Clone, Copy, Debug, PartialEq, Eq)]
pub enum ValidationError {
    /// A bitmask's length differs from the length of the attribute sequence
    /// (or dataset) it is applied to.
    MaskLengthMismatch,
    /// A caller-supplied mask entry was neither 0 nor 1.
    MaskValueOutOfRange,
    /// A query batch's dimensionality differs from the dataset's.
    QueryDimensionMismatch,
}

/// The errors that can be returned from searching a dataset.
#[derive(Debug, PartialEq, Eq)]
pub enum SearchableError {
    /// A dataset must be indexed before it can be searched.
    DatasetIsNotIndexed,
    /// The predicate could not be serialized into the engine's encoding.
    PredicateSerializationError,
    /// A fault surfaced across the foreign engine boundary, carrying the
    /// engine's diagnostic message; foreign faults are always wrapped into
    /// this variant and never propagated raw.
    CppError(String),
    /// A locally detectable contract violation; the engine is never invoked
    /// with input that fails local validation.
    ValidationFailed(ValidationError),
}

/// The errors that can be returned from constructing or indexing a dataset.
#[derive(Debug, PartialEq, Eq)]
pub enum ConstructionError {
    /// The declared dimensionality was zero.
    InvalidDimensionality,
    /// The flat buffer length is not a multiple of the declared
    /// dimensionality.
    DimensionMismatch,
    /// A vector component was not a finite 32-bit float (infinity or NaN).
    NonFiniteValue,
    /// The attribute sequence length differs from the number of vectors.
    MetadataLengthMismatch,
    /// `build_index` was called on a dataset with no vectors.
    EmptyBatch,
    /// `build_index` was called with a non-positive degree bound, expansion
    /// factor, or compression parameter.
    InvalidOptions,
    /// `build_index` was called on a dataset that is already indexed; the
    /// state machine is one-way and no in-place rebuild is offered.
    AlreadyIndexed,
    /// A fault surfaced across the foreign engine boundary while the index
    /// was being built, carrying the engine's diagnostic message.
    EngineFault(String),
}

/// The attribute sequence that remains when `mask` is applied to `attrs`:
/// the elements at positions where the mask holds `false` are removed, and
/// the kept elements preserve their relative order.
pub open spec fn masked_attrs(attrs: Seq<i32>, mask: Seq<bool>) -> Seq<i32>
    decreases attrs.len(),
{
    if attrs.len() == 0 {
        Seq::empty()
    } else {
        masked_attrs(attrs.drop_last(), mask.drop_last()) + if mask.len() == attrs.len()
            && mask.last() {
            seq![attrs.last()]
        } else {
            Seq::empty()
        }
    }
}

/// A mask that admits every position leaves the attribute sequence
/// untouched: filtering by it is the identity.
pub proof fn lemma_mask_identity(attrs: Seq<i32>, mask: Seq<bool>)
    requires
        mask.len() == attrs.len(),
        forall|i: int| 0 <= i < mask.len() ==> mask[i],
    ensures
        masked_attrs(attrs, mask) == attrs,
    decreases attrs.len(),
{
    if attrs.len() > 0 {
        lemma_mask_identity(attrs.drop_last(), mask.drop_last());
        assert(mask.last());
        assert(masked_attrs(attrs, mask) =~= attrs);
    } else {
        assert(masked_attrs(attrs, mask) =~= attrs);
    }
}

/// A mask that admits no position filters everything out: the derived
/// attribute sequence is empty.
pub proof fn lemma_mask_emptiness(attrs: Seq<i32>, mask: Seq<bool>)
    requires
        mask.len() == attrs.len(),
        forall|i: int| 0 <= i < mask.len() ==> !mask[i],
    ensures
        masked_attrs(attrs, mask) == Seq::<i32>::empty(),
    decreases attrs.len(),
{
    if attrs.len() > 0 {
        lemma_mask_emptiness(attrs.drop_last(), mask.drop_last());
        assert(masked_attrs(attrs, mask) =~= Seq::<i32>::empty());
    } else {
        assert(masked_attrs(attrs, mask) =~= Seq::<i32>::empty());
    }
}

/// Filtering keeps exactly as many attributes as the mask admits.
pub proof fn lemma_masked_len(attrs: Seq<i32>, mask: Seq<bool>)
    requires
        mask.len() == attrs.len(),
    ensures
        masked_attrs(attrs, mask).len() == count_admitted(mask),
    decreases attrs.len(),
{
    if attrs.len() > 0 {
        lemma_masked_len(attrs.drop_last(), mask.drop_last());
    }
}

/// The attributes for hybrid search: at most one scalar attribute per
/// vector, always a signed 32-bit integer. A store derived by filtering also
/// remembers the mask that produced it.
#[derive(Clone, Debug)]
pub struct HybridSearchMetadata {
    attrs: Vec<i32>,
    mask: Option<Bitmask>,
}

impl View for HybridSearchMetadata {
    type V = Seq<i32>;

    closed spec fn view(&self) -> Seq<i32> {
        self.attrs@
    }
}

impl HybridSearchMetadata {
    /// The mask this store was derived with, if any.
    pub closed spec fn mask_view(&self) -> Option<Seq<bool>> {
        match self.mask {
            Some(m) => Some(m@),
            None => None,
        }
    }

    /// Wraps an attribute sequence; no mask yet.
    pub fn new(attrs: Vec<i32>) -> (r: Self)
        ensures
            r@ == attrs@,
            r.mask_view() is None,
    {
        Self { attrs, mask: None }
    }

    /// Derives a new, mask-filtered store: the attribute sequence of the
    /// result is this store's sequence with the elements at positions the
    /// mask excludes removed, in their original relative order, and the
    /// result retains the mask that produced it. The receiver is never
    /// mutated, so one query's filter cannot disturb another's. A mask whose
    /// length differs from the current attribute count is rejected.
    pub fn new_from_bitmask(&self, mask: Bitmask) -> (r: Result<Self, ValidationError>)
        ensures
            r is Ok <==> mask@.len() == self@.len(),
            r matches Ok(s) ==> s@ == masked_attrs(self@, mask@) && s.mask_view() == Some(mask@)
                && s@.len() == count_admitted(mask@),
            r matches Err(e) ==> e == ValidationError::MaskLengthMismatch,
    {
        proof {
            if mask@.len() == self@.len() {
                lemma_masked_len(self@, mask@);
            }
        }
        if mask.len() != self.attrs.len() {
            return Err(ValidationError::MaskLengthMismatch);
        }
        let mut filtered_attrs: Vec<i32> = Vec::new();
        let mut i: usize = 0;
        while i < self.attrs.len()
            invariant
                0 <= i <= self@.len(),
                mask@.len() == self@.len(),
                filtered_attrs@ == masked_attrs(
                    self@.subrange(0, i as int),
                    mask@.subrange(0, i as int),
                ),
            decreases self@.len() - i,
        {
            proof {
                assert(self@.subrange(0, i + 1 as int).drop_last() =~= self@.subrange(0, i as int));
                assert(mask@.subrange(0, i + 1 as int).drop_last() =~= mask@.subrange(0, i as int));
            }
            if mask.get(i) {
                filtered_attrs.push(self.attrs[i]);
            }
            proof {
                assert(filtered_attrs@ =~= masked_attrs(
                    self@.subrange(0, i + 1 as int),
                    mask@.subrange(0, i + 1 as int),
                ));
            }
            i += 1;
        }
        proof {
            assert(self@.subrange(0, self@.len() as int) =~= self@);
            assert(mask@.subrange(0, mask@.len() as int) =~= mask@);
        }
        Ok(HybridSearchMetadata { attrs: filtered_attrs, mask: Some(mask) })
    }

    /// The current attribute count (post-filter if this store was derived by
    /// filtering).
    pub fn len(&self) -> (r: usize)
        ensures
            r == self@.len(),
    {
        self.attrs.len()
    }

    /// Read access to the attribute sequence.
    pub fn attrs(&self) -> (r: &Vec<i32>)
        ensures
            r@ == self@,
    {
        &self.attrs
    }

    /// The attribute at position `i`.
    pub fn get(&self, i: usize) -> (r: i32)
        requires
            i < self@.len(),
        ensures
            r == self@[i as int],
    {
        self.attrs[i]
    }
}

/// Configuration for the underlying graph index, passed opaquely to the
/// engine; this layer validates only that the values are positive.
#[derive(Clone, Copy, Debug, PartialEq, Eq, Structural)]
pub struct OakIndexOptions {
    /// Degree bound: maximum graph edges considered per node during
    /// traversal.
    pub m: i32,
    /// Neighbor expansion factor: extra candidate edges explored to offset
    /// predicate-induced sparsity.
    pub gamma: i32,
    /// Compression parameter bounding auxiliary edge storage.
    pub m_beta: i32,
}

impl OakIndexOptions {
    /// All parameters must be positive.
    pub open spec fn valid(&self) -> bool {
        self.m > 0 && self.gamma > 0 && self.m_beta > 0
    }

    /// Checks that all parameters are positive.
    pub fn is_valid(&self) -> (r: bool)
        ensures
            r == self.valid(),
    {
        self.m > 0 && self.gamma > 0 && self.m_beta > 0
    }
}

impl Default for OakIndexOptions {
    /// The stated default parameters, supplied when a caller leaves the
    /// configuration unspecified.
    fn default() -> (r: Self)
        ensures
            r.m == 32,
            r.gamma == 1,
            r.m_beta == 64,
            r.valid(),
    {
        Self { gamma: 1, m: 32, m_beta: 64 }
    }
}

/// Capability surface of a dataset of vectors: pure accessors, the one-way
/// index-building transition, and the two semantically equivalent filtered
/// search entry points (declarative predicate and precomputed bitmask).
pub trait Dataset: Sized {
    /// Structural well-formedness of the dataset.
    spec fn inv(&self) -> bool;

    /// Whether the index has been built (state `Indexed` of the one-way
    /// state machine).
    spec fn is_indexed(&self) -> bool;

    /// The number of vectors in the dataset.
    spec fn spec_len(&self) -> nat;

    /// The dimensionality of the dataset's vectors.
    spec fn spec_dim(&self) -> nat;

    /// The attribute sequence over the vectors, aligned positionally with
    /// the original, unfiltered collection.
    spec fn spec_attrs(&self) -> Seq<i32>;

    /// The vectors themselves, as sequences of float bit patterns.
    spec fn spec_vectors(&self) -> Seq<Seq<u32>>;

    /// The number of vectors that have been added to the dataset; available
    /// regardless of index state.
    fn len(&self) -> (r: usize)
        requires
            self.inv(),
        ensures
            r == self.spec_len(),
    ;

    /// The dimensionality of the vectors in the dataset; available
    /// regardless of index state.
    fn get_dimensionality(&self) -> (r: usize)
        requires
            self.inv(),
        ensures
            r == self.spec_dim(),
    ;

    /// The full vector collection. The signature reserves a failure with a
    /// diagnostic message for a collection that cannot be materialized in
    /// memory; a dataset of this layer already holds its collection in
    /// memory, so the call is owed success, and the contract demands it.
    fn get_data(&self) -> (r: Result<Vec<Fvec>, String>)
        requires
            self.inv(),
        ensures
            r is Ok,
            r matches Ok(v) ==> v@.len() == self.spec_len() && (forall|i: int|
                0 <= i < v@.len() ==> (#[trigger] v@[i]).data@ == self.spec_vectors()[i]),
    ;

    /// Read-only access to the attribute store over the vectors.
    fn get_metadata(&self) -> (r: &HybridSearchMetadata)
        requires
            self.inv(),
        ensures
            r@ == self.spec_attrs(),
    ;

    /// Builds the index associated with this dataset: the only transition of
    /// the state machine, from `Unindexed` to `Indexed`, a single blocking
    /// call to the engine. Rejected without engine involvement: a dataset
    /// that is already indexed, non-positive options, and an empty dataset.
    /// Once those checks have passed, the engine's outcome decides the
    /// result (`build_post`): a handle means success, and a fault is
    /// wrapped, carrying the engine's diagnostic, with the dataset staying
    /// unindexed.
    fn build_index(&mut self, options: &OakIndexOptions) -> (r: Result<(), ConstructionError>)
        requires
            old(self).inv(),
        ensures
            final(self).inv(),
            final(self).spec_len() == old(self).spec_len(),
            final(self).spec_dim() == old(self).spec_dim(),
            final(self).spec_attrs() == old(self).spec_attrs(),
            final(self).spec_vectors() == old(self).spec_vectors(),
            r is Ok ==> final(self).is_indexed(),
            r is Err ==> final(self).is_indexed() == old(self).is_indexed(),
            (r == Err::<(), ConstructionError>(ConstructionError::AlreadyIndexed)) <==> old(
                self,
            ).is_indexed(),
            !old(self).is_indexed() ==> ((r == Err::<(), ConstructionError>(
                ConstructionError::InvalidOptions,
            )) <==> !options.valid()),
            !old(self).is_indexed() && options.valid() ==> ((r == Err::<(), ConstructionError>(
                ConstructionError::EmptyBatch,
            )) <==> old(self).spec_len() == 0),
            r matches Err(e) ==> (e is AlreadyIndexed || e is InvalidOptions || e is EmptyBatch
                || e is EngineFault),
            r matches Err(e) && e is EngineFault ==> (!old(self).is_indexed() && options.valid()
                && old(self).spec_len() > 0),
            !old(self).is_indexed() && options.valid() && old(self).spec_len() > 0 ==> (exists|
                o: Result<u64, String>,
            | build_post(o, r)),
    ;

    /// Searches for the `topk` nearest neighbors of each query vector,
    /// restricted to the vectors admitted by the predicate (an absent
    /// predicate means an unfiltered search). An unindexed dataset is
    /// rejected before any other work; a query batch of the wrong
    /// dimensionality and an unserializable predicate are rejected before
    /// the engine boundary is crossed. Every entry of a returned result
    /// names a position of the original, unfiltered collection that the
    /// resolved mask admits, and each result list is ascending by distance,
    /// of length at most `topk` and at most the number of admitted vectors.
    fn search(
        &self,
        query_vectors: &VectorBatch,
        predicate_query: &Option<PredicateQuery>,
        topk: usize,
    ) -> (r: Result<TopKSearchResultBatch, SearchableError>)
        requires
            self.inv(),
            query_vectors.wf(),
        ensures
            (r == Err::<TopKSearchResultBatch, SearchableError>(
                SearchableError::DatasetIsNotIndexed,
            )) <==> !self.is_indexed(),
            self.is_indexed() ==> ((r == Err::<TopKSearchResultBatch, SearchableError>(
                SearchableError::ValidationFailed(ValidationError::QueryDimensionMismatch),
            )) <==> query_vectors.spec_dim() != self.spec_dim()),
            self.is_indexed() && query_vectors.spec_dim() == self.spec_dim() ==> ((r == Err::<
                TopKSearchResultBatch,
                SearchableError,
            >(SearchableError::PredicateSerializationError)) <==> ((*predicate_query) matches Some(
                p,
            ) && !p.serializable())),
            r matches Ok(b) ==> batch_shape_ok(
                batch_view(b),
                resolved_mask(*predicate_query, self.spec_attrs()),
                query_vectors.spec_count() as int,
                topk as int,
            ),
            r matches Err(e) && e is CppError ==> (self.is_indexed() && query_vectors.spec_dim()
                == self.spec_dim() && ((*predicate_query) matches Some(p) ==> p.serializable())),
            self.is_indexed() && query_vectors.spec_dim() == self.spec_dim() && ((
            *predicate_query) matches Some(p) ==> p.serializable()) ==> (exists|
                o: Result<TopKSearchResultBatch, String>,
            |
                normalize_post(
                    o,
                    resolved_mask(*predicate_query, self.spec_attrs()),
                    query_vectors.spec_count() as int,
                    topk as int,
                    r,
                )),
    ;

    /// Identical contract to `search`, but takes a precomputed bitmask
    /// directly, skipping predicate serialization and evaluation. A mask
    /// whose length differs from the dataset cardinality is rejected before
    /// the engine boundary is crossed.
    fn search_with_bitmask(
        &self,
        query_vectors: &VectorBatch,
        bitmask: Bitmask,
        topk: usize,
    ) -> (r: Result<TopKSearchResultBatch, SearchableError>)
        requires
            self.inv(),
            query_vectors.wf(),
        ensures
            (r == Err::<TopKSearchResultBatch, SearchableError>(
                SearchableError::DatasetIsNotIndexed,
            )) <==> !self.is_indexed(),
            self.is_indexed() ==> ((r == Err::<TopKSearchResultBatch, SearchableError>(
                SearchableError::ValidationFailed(ValidationError::QueryDimensionMismatch),
            )) <==> query_vectors.spec_dim() != self.spec_dim()),
            self.is_indexed() && query_vectors.spec_dim() == self.spec_dim() ==> ((r == Err::<
                TopKSearchResultBatch,
                SearchableError,
            >(SearchableError::ValidationFailed(ValidationError::MaskLengthMismatch))) <==> bitmask@.len()
                != self.spec_len()),
            r matches Ok(b) ==> batch_shape_ok(
                batch_view(b),
                bitmask@,
                query_vectors.spec_count() as int,
                topk as int,
            ),
            r matches Err(e) && e is CppError ==> (self.is_indexed() && query_vectors.spec_dim()
                == self.spec_dim() && bitmask@.len() == self.spec_len()),
            self.is_indexed() && query_vectors.spec_dim() == self.spec_dim() && bitmask@.len()
                == self.spec_len() ==> (exists|o: Result<TopKSearchResultBatch, String>|
                normalize_post(
                    o,
                    bitmask@,
                    query_vectors.spec_count() as int,
                    topk as int,
                    r,
                )),
    ;
}

} // verus!
