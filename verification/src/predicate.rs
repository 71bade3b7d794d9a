//! Declarative scalar-attribute filters: the serializable counterpart to a
//! precomputed bitmask.

use vstd::prelude::*;

use crate::bitmask::Bitmask;
use crate::dataset::HybridSearchMetadata;
use crate::dataset::SearchableError;

verus! {

/// A scalar-comparison filter over the one attribute per vector. A vector is
/// admitted when its attribute satisfies the comparison. `Between` bounds
/// are inclusive; a `Between` whose lower bound exceeds its upper bound is
/// malformed and cannot be serialized.
#[derive(Clone, Copy, Debug, PartialEq, Eq, Structural)]
pub enum PredicateQuery {
    /// Admit vectors whose attribute equals the value.
    Eq(i32),
    /// Admit vectors whose attribute is strictly below the value.
    Lt(i32),
    /// Admit vectors whose attribute is strictly above the value.
    Gt(i32),
    /// Admit vectors whose attribute lies in the inclusive range.
    Between(i32, i32),
}

/// The little-endian byte encoding of a 32-bit value, as the engine's
/// predicate evaluator expects scalar operands.
pub open spec fn le_bytes(v: i32) -> Seq<u8> {
    seq![
        ((v as u32) & 0xff) as u8,
        (((v as u32) >> 8) & 0xff) as u8,
        (((v as u32) >> 16) & 0xff) as u8,
        (((v as u32) >> 24) & 0xff) as u8,
    ]
}

impl PredicateQuery {
    /// Whether the expression has an encoding in the engine's format.
    pub open spec fn serializable(&self) -> bool {
        match *self {
            PredicateQuery::Between(lo, hi) => lo <= hi,
            _ => true,
        }
    }

    /// Whether an attribute value satisfies the comparison.
    pub open spec fn matches_attr(&self, a: i32) -> bool {
        match *self {
            PredicateQuery::Eq(v) => a == v,
            PredicateQuery::Lt(v) => a < v,
            PredicateQuery::Gt(v) => a > v,
            PredicateQuery::Between(lo, hi) => lo <= a && a <= hi,
        }
    }

    /// The engine's expected encoding: a one-byte operator tag followed by
    /// the little-endian operands.
    pub open spec fn encoding(&self) -> Seq<u8> {
        match *self {
            PredicateQuery::Eq(v) => seq![0u8] + le_bytes(v),
            PredicateQuery::Lt(v) => seq![1u8] + le_bytes(v),
            PredicateQuery::Gt(v) => seq![2u8] + le_bytes(v),
            PredicateQuery::Between(lo, hi) => seq![3u8] + le_bytes(lo) + le_bytes(hi),
        }
    }

    /// Produces the byte encoding consumable by the engine's predicate
    /// evaluator. A malformed expression is a serialization error, never a
    /// partially encoded query.
    pub fn serialize(&self) -> (r: Result<Vec<u8>, SearchableError>)
        ensures
            r is Ok <==> self.serializable(),
            r matches Ok(b) ==> b@ == self.encoding(),
            r matches Err(e) ==> e == SearchableError::PredicateSerializationError,
    {
        let mut bytes: Vec<u8> = Vec::new();
        match *self {
            PredicateQuery::Eq(v) => {
                bytes.push(0u8);
                push_le_bytes(&mut bytes, v);
            },
            PredicateQuery::Lt(v) => {
                bytes.push(1u8);
                push_le_bytes(&mut bytes, v);
            },
            PredicateQuery::Gt(v) => {
                bytes.push(2u8);
                push_le_bytes(&mut bytes, v);
            },
            PredicateQuery::Between(lo, hi) => {
                if lo > hi {
                    return Err(SearchableError::PredicateSerializationError);
                }
                bytes.push(3u8);
                push_le_bytes(&mut bytes, lo);
                push_le_bytes(&mut bytes, hi);
            },
        }
        proof {
            assert(bytes@ =~= self.encoding());
        }
        Ok(bytes)
    }
}

/// Appends the little-endian encoding of `v`.
fn push_le_bytes(bytes: &mut Vec<u8>, v: i32)
    ensures
        final(bytes)@ == old(bytes)@ + le_bytes(v),
{
    let u = v as u32;
    bytes.push((u & 0xff) as u8);
    bytes.push(((u >> 8) & 0xff) as u8);
    bytes.push(((u >> 16) & 0xff) as u8);
    bytes.push(((u >> 24) & 0xff) as u8);
    proof {
        assert(bytes@ =~= old(bytes)@ + le_bytes(v));
    }
}

/// The mask a predicate denotes over an attribute sequence: position `i` is
/// admitted exactly when attribute `i` satisfies the comparison.
pub open spec fn eval_mask(p: PredicateQuery, attrs: Seq<i32>) -> Seq<bool> {
    Seq::new(attrs.len(), |i: int| p.matches_attr(attrs[i]))
}

/// The mask a search resolves: an absent predicate means an unfiltered
/// search, a mask of all ones.
pub open spec fn resolved_mask(p: Option<PredicateQuery>, attrs: Seq<i32>) -> Seq<bool> {
    match p {
        None => Seq::new(attrs.len(), |i: int| true),
        Some(q) => eval_mask(q, attrs),
    }
}

/// Serializes the predicate and evaluates it against the attribute store,
/// producing the inclusion mask (aligned to the store's current attribute
/// sequence) that the serialized form denotes. A predicate that cannot be
/// serialized is rejected before any evaluation work is done.
pub fn evaluate_predicate(p: &PredicateQuery, metadata: &HybridSearchMetadata) -> (r: Result<
    Bitmask,
    SearchableError,
>)
    ensures
        r is Ok <==> p.serializable(),
        r matches Ok(m) ==> m@ == eval_mask(*p, metadata@),
        r matches Err(e) ==> e == SearchableError::PredicateSerializationError,
{
    match p.serialize() {
        Ok(_) => {},
        Err(_) => {
            return Err(SearchableError::PredicateSerializationError);
        },
    }
    let mut bits: Vec<bool> = Vec::new();
    let mut i: usize = 0;
    while i < metadata.len()
        invariant
            0 <= i <= metadata@.len(),
            bits@ =~= eval_mask(*p, metadata@).subrange(0, i as int),
        decreases metadata@.len() - i,
    {
        let a = metadata.get(i);
        let keep = match *p {
            PredicateQuery::Eq(v) => a == v,
            PredicateQuery::Lt(v) => a < v,
            PredicateQuery::Gt(v) => a > v,
            PredicateQuery::Between(lo, hi) => lo <= a && a <= hi,
        };
        bits.push(keep);
        proof {
            assert(bits@ =~= eval_mask(*p, metadata@).subrange(0, i + 1 as int));
        }
        i += 1;
    }
    proof {
        assert(bits@ =~= eval_mask(*p, metadata@));
    }
    Ok(Bitmask::new(bits))
}

} // verus!
