//! The boundary to the external ANN engine, and the normalization of raw
//! engine output into this layer's result shape.
//!
//! The engine is a foreign collaborator: nothing is assumed about what its
//! calls return. Every fault it surfaces is wrapped into this layer's error
//! taxonomy at this single crossing point, and raw output that does not have
//! the promised shape (one ordered list per query, every entry admitted by
//! the mask) is treated as an engine fault rather than silently repaired.

use vstd::prelude::*;

use crate::bitmask::Bitmask;
use crate::bitmask::count_admitted;
use crate::dataset::ConstructionError;
use crate::dataset::HybridSearchMetadata;
use crate::dataset::OakIndexOptions;
use crate::dataset::SearchableError;
use crate::dataset::TopKSearchResult;
use crate::dataset::TopKSearchResultBatch;
use crate::predicate::PredicateQuery;
use crate::predicate::eval_mask;
use crate::predicate::resolved_mask;
use crate::vectors::VectorBatch;

verus! {

broadcast use vstd::string::group_string_axioms;

/// What the engine hands back from a search call: one list of
/// (position, distance-bit-pattern) pairs per query vector, or a diagnostic
/// message. Nothing is assumed about the value until it has been validated.
pub type RawEngineOutcome = Result<TopKSearchResultBatch, String>;

/// The boundary to the graph-based ANN engine. The build and traversal
/// algorithms behind it are out of this layer's scope, so the methods carry
/// no contracts: callers in this crate validate everything they pass in,
/// assume nothing about what comes back, and wrap every fault. The mask is
/// marshalled to one small integer per position before crossing, as the
/// foreign side expects.
pub trait AnnEngine {
    /// Consumes the vectors, options and attributes and builds a graph
    /// index, returning an opaque handle to it, or a diagnostic message on
    /// any fault.
    fn build(
        &mut self,
        vectors: &VectorBatch,
        options: &OakIndexOptions,
        attributes: &HybridSearchMetadata,
    ) -> Result<u64, String>;

    /// Searches the index named by `handle` for the `k` nearest neighbors
    /// of each query vector among the positions whose mask byte is 1.
    fn search(
        &self,
        handle: u64,
        queries: &VectorBatch,
        mask: &Vec<u8>,
        k: usize,
    ) -> Result<TopKSearchResultBatch, String>;
}

/// A raw result batch as a sequence of sequences of entries.
pub open spec fn batch_view(b: TopKSearchResultBatch) -> Seq<Seq<(usize, u32)>> {
    b@.map_values(|l: TopKSearchResult| l@)
}

/// The shape promised of one result list: at most `k` entries, no more
/// entries than the mask admits, every entry a mask-admitted position of the
/// original collection, and distances ascending.
pub open spec fn list_shape_ok(l: Seq<(usize, u32)>, mask: Seq<bool>, k: int) -> bool {
    &&& l.len() <= k
    &&& l.len() <= count_admitted(mask)
    &&& forall|j: int|
        0 <= j < l.len() ==> (#[trigger] l[j]).0 < mask.len() && mask[l[j].0 as int]
    &&& forall|j: int| 1 <= j < l.len() ==> l[j - 1].1 <= (#[trigger] l[j]).1
}

/// The shape promised of a whole result batch: one well-shaped list per
/// query vector.
pub open spec fn batch_shape_ok(b: Seq<Seq<(usize, u32)>>, mask: Seq<bool>, nq: int, k: int) -> bool {
    &&& b.len() == nq
    &&& forall|i: int| 0 <= i < b.len() ==> list_shape_ok(#[trigger] b[i], mask, k)
}

/// The diagnostic carried when the engine returns a batch that does not
/// have the promised shape.
pub open spec fn malformed_outcome_msg() -> Seq<char> {
    "engine returned a malformed result batch"@
}

/// Exactly how a raw engine outcome is normalized into this layer's result:
/// a fault becomes `CppError` carrying the engine's diagnostic unchanged; a
/// well-shaped batch is passed through unchanged; a malformed batch becomes
/// `CppError` with a fixed diagnostic. The result is determined by the
/// outcome and the search parameters, which is what makes the two search
/// entry points equivalent.
pub open spec fn normalize_post(
    outcome: RawEngineOutcome,
    mask: Seq<bool>,
    nq: int,
    k: int,
    r: Result<TopKSearchResultBatch, SearchableError>,
) -> bool {
    &&& (outcome matches Err(m) ==> r == Err::<TopKSearchResultBatch, SearchableError>(
        SearchableError::CppError(m),
    ))
    &&& (outcome matches Ok(raw) ==> (if batch_shape_ok(batch_view(raw), mask, nq, k) {
        r == Ok::<TopKSearchResultBatch, SearchableError>(raw)
    } else {
        r matches Err(e) && e matches SearchableError::CppError(m) && m@
            == malformed_outcome_msg()
    }))
}

/// Exactly how the engine's build outcome decides the index-building
/// result once local validation has passed: a handle means the build
/// succeeded, and a fault is wrapped into `EngineFault` carrying the
/// engine's diagnostic unchanged — never surfaced raw, never invented.
pub open spec fn build_post(outcome: Result<u64, String>, r: Result<(), ConstructionError>) -> bool {
    match outcome {
        Ok(_) => r is Ok,
        Err(m) => r == Err::<(), ConstructionError>(ConstructionError::EngineFault(m)),
    }
}

/// Decides `batch_shape_ok` for a raw batch.
fn check_batch(raw: &TopKSearchResultBatch, mask: &Bitmask, nq: usize, k: usize) -> (r: bool)
    ensures
        r == batch_shape_ok(batch_view(*raw), mask@, nq as int, k as int),
{
    if raw.len() != nq {
        return false;
    }
    let admitted = mask.count_set();
    let mut i: usize = 0;
    while i < raw.len()
        invariant
            0 <= i <= raw@.len(),
            raw@.len() == nq,
            admitted == count_admitted(mask@),
            forall|t: int|
                0 <= t < i ==> list_shape_ok(#[trigger] batch_view(*raw)[t], mask@, k as int),
        decreases raw@.len() - i,
    {
        let list = &raw[i];
        if list.len() > k || list.len() > admitted {
            proof {
                assert(!list_shape_ok(batch_view(*raw)[i as int], mask@, k as int));
            }
            return false;
        }
        let mut j: usize = 0;
        while j < list.len()
            invariant
                0 <= j <= list@.len(),
                0 <= i < raw@.len(),
                raw@.len() == nq,
                admitted == count_admitted(mask@),
                list@ == batch_view(*raw)[i as int],
                list@.len() <= k,
                list@.len() <= admitted,
                forall|t: int|
                    0 <= t < j ==> (#[trigger] list@[t]).0 < mask@.len()
                        && mask@[list@[t].0 as int],
                forall|t: int| 1 <= t < j ==> list@[t - 1].1 <= (#[trigger] list@[t]).1,
            decreases list@.len() - j,
        {
            let (id, dist) = list[j];
            if id >= mask.len() {
                proof {
                    assert(!list_shape_ok(batch_view(*raw)[i as int], mask@, k as int));
                    assert(!batch_shape_ok(batch_view(*raw), mask@, nq as int, k as int));
                }
                return false;
            }
            if !mask.get(id) {
                proof {
                    assert(!list_shape_ok(batch_view(*raw)[i as int], mask@, k as int));
                    assert(!batch_shape_ok(batch_view(*raw), mask@, nq as int, k as int));
                }
                return false;
            }
            if j > 0 {
                if list[j - 1].1 > dist {
                    proof {
                        assert(!list_shape_ok(batch_view(*raw)[i as int], mask@, k as int));
                        assert(!batch_shape_ok(batch_view(*raw), mask@, nq as int, k as int));
                    }
                    return false;
                }
            }
            j += 1;
        }
        proof {
            assert(list_shape_ok(batch_view(*raw)[i as int], mask@, k as int));
        }
        i += 1;
    }
    true
}

/// Normalizes a raw engine outcome: wraps a fault's diagnostic into
/// `CppError`, passes a well-shaped batch through unchanged, and rejects a
/// malformed batch as an engine fault. No foreign fault and no malformed
/// value ever continues past this point.
pub fn normalize_engine_output(
    outcome: RawEngineOutcome,
    mask: &Bitmask,
    nq: usize,
    k: usize,
) -> (r: Result<TopKSearchResultBatch, SearchableError>)
    ensures
        normalize_post(outcome, mask@, nq as int, k as int, r),
{
    match outcome {
        Err(m) => Err(SearchableError::CppError(m)),
        Ok(raw) => {
            if check_batch(&raw, mask, nq, k) {
                Ok(raw)
            } else {
                let msg = "engine returned a malformed result batch".to_string();
                Err(SearchableError::CppError(msg))
            }
        },
    }
}

/// Whether two search results are the same observable outcome: both the
/// same batch (entry for entry), or both the same error carrying the same
/// message.
pub open spec fn results_equivalent(
    r1: Result<TopKSearchResultBatch, SearchableError>,
    r2: Result<TopKSearchResultBatch, SearchableError>,
) -> bool {
    match (r1, r2) {
        (Ok(b1), Ok(b2)) => batch_view(b1) == batch_view(b2),
        (Err(e1), Err(e2)) => errors_equivalent(e1, e2),
        _ => false,
    }
}

/// Whether two search errors are the same observable failure.
pub open spec fn errors_equivalent(e1: SearchableError, e2: SearchableError) -> bool {
    match (e1, e2) {
        (SearchableError::DatasetIsNotIndexed, SearchableError::DatasetIsNotIndexed) => true,
        (
            SearchableError::PredicateSerializationError,
            SearchableError::PredicateSerializationError,
        ) => true,
        (SearchableError::CppError(m1), SearchableError::CppError(m2)) => m1@ == m2@,
        (SearchableError::ValidationFailed(v1), SearchableError::ValidationFailed(v2)) => v1 == v2,
        _ => false,
    }
}

/// Equivalence of the two search entry points: a search that carries a
/// serializable predicate resolves it to exactly the mask that
/// `evaluate_predicate` returns, so both entry points hand the engine the
/// same request; and since normalization is determined by the engine's
/// outcome and the search parameters, the two entry points return the same
/// observable result whenever the engine answers the shared request with
/// the same outcome. What remains outside this layer is only that the
/// engine itself answers one request consistently.
pub proof fn lemma_entry_point_equivalence(
    p: PredicateQuery,
    attrs: Seq<i32>,
    outcome: RawEngineOutcome,
    nq: int,
    k: int,
    r1: Result<TopKSearchResultBatch, SearchableError>,
    r2: Result<TopKSearchResultBatch, SearchableError>,
)
    requires
        p.serializable(),
        normalize_post(outcome, eval_mask(p, attrs), nq, k, r1),
        normalize_post(outcome, eval_mask(p, attrs), nq, k, r2),
    ensures
        resolved_mask(Some(p), attrs) == eval_mask(p, attrs),
        results_equivalent(r1, r2),
{
    match outcome {
        Err(m) => {
            assert(results_equivalent(r1, r2));
        },
        Ok(raw) => {
            if batch_shape_ok(batch_view(raw), eval_mask(p, attrs), nq, k) {
                assert(results_equivalent(r1, r2));
            } else {
                assert(results_equivalent(r1, r2));
            }
        },
    }
}

/// Engine-fault wrapping: whatever diagnostic the engine surfaces from a
/// search, the caller observes exactly `CppError` carrying that diagnostic,
/// never the raw foreign fault.
pub proof fn lemma_engine_fault_wrapping(
    outcome: RawEngineOutcome,
    mask: Seq<bool>,
    nq: int,
    k: int,
    r: Result<TopKSearchResultBatch, SearchableError>,
)
    requires
        normalize_post(outcome, mask, nq, k, r),
        outcome is Err,
    ensures
        r == Err::<TopKSearchResultBatch, SearchableError>(
            SearchableError::CppError(outcome->Err_0),
        ),
{
}

} // verus!
