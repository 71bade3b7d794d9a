//! The engine-backed dataset: owns the vector batch, the attribute store
//! and, once built, the opaque index handle, and dispatches the two search
//! entry points through the engine boundary.

use vstd::prelude::*;

use crate::bitmask::Bitmask;
use crate::dataset::ConstructionError;
use crate::dataset::Dataset;
use crate::dataset::HybridSearchMetadata;
use crate::dataset::OakIndexOptions;
use crate::dataset::SearchableError;
use crate::dataset::TopKSearchResultBatch;
use crate::dataset::ValidationError;
use crate::engine::AnnEngine;
use crate::engine::build_post;
use crate::engine::normalize_engine_output;
use crate::engine::normalize_post;
use crate::predicate::PredicateQuery;
use crate::predicate::evaluate_predicate;
use crate::predicate::resolved_mask;
use crate::vectors::Fvec;
use crate::vectors::VectorBatch;

verus! {

/// A dataset backed by an external ANN engine. It exclusively owns its
/// vector batch, attribute store and engine, and—once `build_index` has
/// succeeded—the opaque handle to the engine's index, whose lifetime is
/// scoped to this value's.
pub struct OakDataset<E: AnnEngine> {
    batch: VectorBatch,
    metadata: HybridSearchMetadata,
    engine: E,
    index_handle: Option<u64>,
}

impl<E: AnnEngine> OakDataset<E> {
    /// Assembles a dataset from a vector batch, an attribute store (one
    /// attribute per vector) and an engine. The store must align
    /// positionally with the batch: one attribute per vector.
    pub fn new(batch: VectorBatch, metadata: HybridSearchMetadata, engine: E) -> (r: Result<
        Self,
        ConstructionError,
    >)
        requires
            batch.wf(),
        ensures
            r is Ok <==> metadata@.len() == batch.spec_count(),
            r matches Ok(d) ==> d.inv() && !d.is_indexed() && d.spec_attrs() == metadata@
                && d.spec_vectors() == batch.vectors() && d.spec_dim() == batch.spec_dim()
                && d.spec_len() == batch.spec_count(),
            r matches Err(e) ==> e == ConstructionError::MetadataLengthMismatch,
    {
        if metadata.len() != batch.count() {
            return Err(ConstructionError::MetadataLengthMismatch);
        }
        Ok(OakDataset { batch, metadata, engine, index_handle: None })
    }
}

impl<E: AnnEngine> Dataset for OakDataset<E> {
    closed spec fn inv(&self) -> bool {
        &&& self.batch.wf()
        &&& self.metadata@.len() == self.batch.spec_count()
    }

    closed spec fn is_indexed(&self) -> bool {
        self.index_handle is Some
    }

    closed spec fn spec_len(&self) -> nat {
        self.batch.spec_count()
    }

    closed spec fn spec_dim(&self) -> nat {
        self.batch.spec_dim()
    }

    closed spec fn spec_attrs(&self) -> Seq<i32> {
        self.metadata@
    }

    closed spec fn spec_vectors(&self) -> Seq<Seq<u32>> {
        self.batch.vectors()
    }

    fn len(&self) -> (r: usize) {
        self.batch.count()
    }

    fn get_dimensionality(&self) -> (r: usize) {
        self.batch.dimensionality()
    }

    fn get_data(&self) -> (r: Result<Vec<Fvec>, String>) {
        Ok(self.batch.to_fvecs())
    }

    fn get_metadata(&self) -> (r: &HybridSearchMetadata) {
        &self.metadata
    }

    fn build_index(&mut self, options: &OakIndexOptions) -> (r: Result<(), ConstructionError>) {
        if self.index_handle.is_some() {
            return Err(ConstructionError::AlreadyIndexed);
        }
        if !options.is_valid() {
            return Err(ConstructionError::InvalidOptions);
        }
        if self.batch.count() == 0 {
            return Err(ConstructionError::EmptyBatch);
        }
        let outcome = self.engine.build(&self.batch, options, &self.metadata);
        let ghost o = outcome;
        let r: Result<(), ConstructionError> = match outcome {
            Ok(handle) => {
                self.index_handle = Some(handle);
                Ok(())
            },
            Err(message) => Err(ConstructionError::EngineFault(message)),
        };
        proof {
            assert(build_post(o, r));
        }
        r
    }

    fn search(
        &self,
        query_vectors: &VectorBatch,
        predicate_query: &Option<PredicateQuery>,
        topk: usize,
    ) -> (r: Result<TopKSearchResultBatch, SearchableError>) {
        let handle = match self.index_handle {
            Some(h) => h,
            None => {
                return Err(SearchableError::DatasetIsNotIndexed);
            },
        };
        if query_vectors.dimensionality() != self.batch.dimensionality() {
            return Err(
                SearchableError::ValidationFailed(ValidationError::QueryDimensionMismatch),
            );
        }
        let mask = match predicate_query {
            None => Bitmask::all_ones(self.batch.count()),
            Some(p) => match evaluate_predicate(p, &self.metadata) {
                Ok(m) => m,
                Err(e) => {
                    return Err(e);
                },
            },
        };
        proof {
            assert(mask@ =~= resolved_mask(*predicate_query, self.spec_attrs()));
        }
        let mask_bytes = mask.to_engine_bytes();
        let outcome = self.engine.search(handle, query_vectors, &mask_bytes, topk);
        let ghost o = outcome;
        let r = normalize_engine_output(outcome, &mask, query_vectors.count(), topk);
        proof {
            assert(normalize_post(
                o,
                resolved_mask(*predicate_query, self.spec_attrs()),
                query_vectors.spec_count() as int,
                topk as int,
                r,
            ));
        }
        r
    }

    fn search_with_bitmask(
        &self,
        query_vectors: &VectorBatch,
        bitmask: Bitmask,
        topk: usize,
    ) -> (r: Result<TopKSearchResultBatch, SearchableError>) {
        let handle = match self.index_handle {
            Some(h) => h,
            None => {
                return Err(SearchableError::DatasetIsNotIndexed);
            },
        };
        if query_vectors.dimensionality() != self.batch.dimensionality() {
            return Err(
                SearchableError::ValidationFailed(ValidationError::QueryDimensionMismatch),
            );
        }
        if bitmask.len() != self.batch.count() {
            return Err(SearchableError::ValidationFailed(ValidationError::MaskLengthMismatch));
        }
        let mask_bytes = bitmask.to_engine_bytes();
        let outcome = self.engine.search(handle, query_vectors, &mask_bytes, topk);
        let ghost o = outcome;
        let r = normalize_engine_output(outcome, &bitmask, query_vectors.count(), topk);
        proof {
            assert(normalize_post(
                o,
                bitmask@,
                query_vectors.spec_count() as int,
                topk as int,
                r,
            ));
        }
        r
    }
}

} // verus!
