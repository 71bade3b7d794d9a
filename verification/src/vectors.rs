//! Normalizing a collection of equal-length 32-bit float vectors into one
//! contiguous, dimensionality-tagged buffer.
//!
//! Verified code never computes with floating point, so every vector
//! component is carried as the IEEE 754 bit pattern of a 32-bit float, held
//! in a `u32`. Callers convert with the float type's own bit-pattern
//! conversions at the edge; finiteness of a component is decided here on the
//! bit pattern alone (a component is non-finite exactly when its exponent
//! bits are all ones).

use vstd::prelude::*;

use vstd::arithmetic::div_mod::lemma_fundamental_div_mod;
use vstd::arithmetic::mul::lemma_mul_inequality;

use crate::dataset::ConstructionError;

verus! {

/// Whether a `u32` is the bit pattern of a finite 32-bit float (neither an
/// infinity nor a NaN).
pub open spec fn finite_bits(w: u32) -> bool {
    (w >> 23) & 0xff != 0xff
}

/// Whether every component of a flat buffer is a finite float.
pub open spec fn all_finite(s: Seq<u32>) -> bool {
    forall|i: int| 0 <= i < s.len() ==> finite_bits(s[i])
}

/// One vector, read out of a batch: the components are IEEE 754 bit
/// patterns of 32-bit floats.
#[derive(Clone, Debug, PartialEq, Eq)]
pub struct Fvec {
    /// The vector's components, one bit pattern per dimension.
    pub data: Vec<u32>,
}

/// A contiguous buffer of `count` vectors of `dim` components each, with
/// `dim > 0`, buffer length exactly `count * dim`, and every component
/// finite. No mutation after construction: appending means rebuilding.
#[derive(Clone, Debug)]
pub struct VectorBatch {
    data: Vec<u32>,
    dim: usize,
    count: usize,
}

impl VectorBatch {
    /// The flat buffer.
    pub closed spec fn flat(&self) -> Seq<u32> {
        self.data@
    }

    /// The declared dimensionality.
    pub closed spec fn spec_dim(&self) -> nat {
        self.dim as nat
    }

    /// The number of vectors.
    pub closed spec fn spec_count(&self) -> nat {
        self.count as nat
    }

    /// Well-formedness: positive dimensionality, a buffer of exactly
    /// `count * dim` components, all finite. Constructors establish it and
    /// nothing mutates a batch afterwards.
    pub open spec fn wf(&self) -> bool {
        &&& self.spec_dim() > 0
        &&& self.flat().len() == self.spec_count() * self.spec_dim()
        &&& all_finite(self.flat())
    }

    /// The batch as a sequence of vectors: vector `i` is the `dim`-component
    /// slice starting at `i * dim` of the flat buffer.
    pub open spec fn vectors(&self) -> Seq<Seq<u32>> {
        Seq::new(
            self.spec_count(),
            |i: int| self.flat().subrange(i * self.spec_dim(), (i + 1) * self.spec_dim()),
        )
    }

    /// Builds a batch from a flat buffer plus a declared dimensionality.
    /// Rejected: a zero dimensionality, a buffer whose length is not a
    /// multiple of the dimensionality, and any non-finite component.
    pub fn new(data: Vec<u32>, dim: usize) -> (r: Result<VectorBatch, ConstructionError>)
        ensures
            (r == Err::<VectorBatch, ConstructionError>(ConstructionError::InvalidDimensionality))
                <==> dim == 0,
            dim > 0 ==> ((r == Err::<VectorBatch, ConstructionError>(
                ConstructionError::DimensionMismatch,
            )) <==> (data@.len() as int) % (dim as int) != 0),
            dim > 0 && (data@.len() as int) % (dim as int) == 0 ==> ((r == Err::<
                VectorBatch,
                ConstructionError,
            >(ConstructionError::NonFiniteValue)) <==> !all_finite(data@)),
            r is Ok <==> (dim > 0 && (data@.len() as int) % (dim as int) == 0 && all_finite(data@)),
            r matches Ok(b) ==> b.wf() && b.flat() == data@ && b.spec_dim() == dim as nat
                && b.spec_count() == (data@.len() as int) / (dim as int),
    {
        if dim == 0 {
            return Err(ConstructionError::InvalidDimensionality);
        }
        if data.len() % dim != 0 {
            return Err(ConstructionError::DimensionMismatch);
        }
        let mut i: usize = 0;
        while i < data.len()
            invariant
                0 <= i <= data@.len(),
                dim > 0,
                (data@.len() as int) % (dim as int) == 0,
                forall|j: int| 0 <= j < i ==> finite_bits(data@[j]),
            decreases data@.len() - i,
        {
            let w = data[i];
            if (w >> 23u32) & 0xff == 0xff {
                proof {
                    assert(!finite_bits(data@[i as int]));
                }
                return Err(ConstructionError::NonFiniteValue);
            }
            i += 1;
        }
        let count = data.len() / dim;
        proof {
            lemma_fundamental_div_mod(data@.len() as int, dim as int);
            assert(data@.len() as int == (dim as int) * (count as int));
            assert((count as int) * (dim as int) == (dim as int) * (count as int))
                by (nonlinear_arith);
            assert((count as nat) * (dim as nat) == (count as int) * (dim as int))
                by (nonlinear_arith);
        }
        Ok(VectorBatch { data, dim, count })
    }

    /// The number of vectors in the batch.
    pub fn count(&self) -> (r: usize)
        ensures
            r == self.spec_count(),
    {
        self.count
    }

    /// The dimensionality of the vectors in the batch.
    pub fn dimensionality(&self) -> (r: usize)
        ensures
            r == self.spec_dim(),
    {
        self.dim
    }

    /// Read access to one vector by its position in the batch.
    pub fn vector_at(&self, i: usize) -> (r: Fvec)
        requires
            self.wf(),
            i < self.spec_count(),
        ensures
            r.data@ == self.vectors()[i as int],
    {
        let n = self.data.len();
        proof {
            lemma_mul_inequality(i + 1 as int, self.spec_count() as int, self.spec_dim() as int);
            assert((i + 1) * self.spec_dim() == i * self.spec_dim() + self.spec_dim())
                by (nonlinear_arith);
            assert(i * self.spec_dim() >= 0) by (nonlinear_arith)
                requires
                    i >= 0,
                    self.spec_dim() >= 0,
            ;
        }
        let start: usize = i * self.dim;
        let mut components: Vec<u32> = Vec::new();
        let mut j: usize = 0;
        while j < self.dim
            invariant
                0 <= j <= self.spec_dim(),
                start == i * self.spec_dim(),
                n == self.flat().len(),
                start + self.spec_dim() <= n,
                components@ =~= self.flat().subrange(start as int, start + j as int),
            decreases self.spec_dim() - j,
        {
            components.push(self.data[start + j]);
            proof {
                assert(components@ =~= self.flat().subrange(start as int, start + j + 1 as int));
            }
            j += 1;
        }
        proof {
            assert(components@ =~= self.vectors()[i as int]);
        }
        Fvec { data: components }
    }

    /// The full collection, one `Fvec` per vector.
    pub fn to_fvecs(&self) -> (r: Vec<Fvec>)
        requires
            self.wf(),
        ensures
            r@.len() == self.spec_count(),
            forall|i: int| 0 <= i < r@.len() ==> #[trigger] r@[i].data@ == self.vectors()[i],
    {
        let mut out: Vec<Fvec> = Vec::new();
        let mut i: usize = 0;
        while i < self.count
            invariant
                0 <= i <= self.spec_count(),
                self.wf(),
                out@.len() == i,
                forall|j: int| 0 <= j < i ==> #[trigger] out@[j].data@ == self.vectors()[j],
            decreases self.spec_count() - i,
        {
            let v = self.vector_at(i);
            out.push(v);
            i += 1;
        }
        out
    }
}

} // verus!
