//! Per-vector boolean inclusion masks, aligned to the full (original,
//! unfiltered) vector collection.

use vstd::prelude::*;

use crate::dataset::ValidationError;

verus! {

/// How many positions a mask admits.
pub open spec fn count_admitted(mask: Seq<bool>) -> int
    decreases mask.len(),
{
    if mask.len() == 0 {
        0
    } else {
        count_admitted(mask.drop_last()) + if mask.last() {
            1int
        } else {
            0int
        }
    }
}

/// A boolean-per-vector inclusion mask. Position `i` refers to index `i` of
/// the original, unfiltered vector collection. The mask is marshalled to a
/// sequence of small integers only at the engine-call boundary.
#[derive(Clone, Debug)]
pub struct Bitmask {
    bits: Vec<bool>,
}

impl View for Bitmask {
    type V = Seq<bool>;

    closed spec fn view(&self) -> Seq<bool> {
        self.bits@
    }
}

impl Bitmask {
    /// Wraps a caller-supplied sequence of booleans.
    pub fn new(bits: Vec<bool>) -> (r: Bitmask)
        ensures
            r@ == bits@,
    {
        Bitmask { bits }
    }

    /// Builds a mask from a sequence of small integers, as produced at the
    /// engine boundary; every entry must be 0 or 1, anything else is a
    /// validation error rather than a silent coercion.
    pub fn from_bytes(values: &Vec<u8>) -> (r: Result<Bitmask, ValidationError>)
        ensures
            r is Ok <==> (forall|i: int|
                0 <= i < values@.len() ==> values@[i] == 0 || values@[i] == 1),
            r matches Ok(m) ==> m@ == values@.map_values(|v: u8| v == 1),
            r matches Err(e) ==> e == ValidationError::MaskValueOutOfRange,
    {
        let mut bits: Vec<bool> = Vec::new();
        let mut i: usize = 0;
        while i < values.len()
            invariant
                0 <= i <= values@.len(),
                bits@ == values@.subrange(0, i as int).map_values(|v: u8| v == 1),
                forall|j: int| 0 <= j < i ==> values@[j] == 0 || values@[j] == 1,
            decreases values@.len() - i,
        {
            let v = values[i];
            if v > 1 {
                return Err(ValidationError::MaskValueOutOfRange);
            }
            bits.push(v == 1);
            proof {
                assert(values@.subrange(0, i + 1 as int).drop_last() =~= values@.subrange(
                    0,
                    i as int,
                ));
                assert(bits@ =~= values@.subrange(0, i + 1 as int).map_values(|v: u8| v == 1));
            }
            i += 1;
        }
        proof {
            assert(values@.subrange(0, values@.len() as int) =~= values@);
        }
        Ok(Bitmask { bits })
    }

    /// The mask that admits every position of a collection of `n` vectors.
    pub fn all_ones(n: usize) -> (r: Bitmask)
        ensures
            r@ == Seq::new(n as nat, |i: int| true),
    {
        let mut bits: Vec<bool> = Vec::new();
        let mut i: usize = 0;
        while i < n
            invariant
                0 <= i <= n,
                bits@ =~= Seq::new(i as nat, |j: int| true),
            decreases n - i,
        {
            bits.push(true);
            i += 1;
        }
        proof {
            assert(bits@ =~= Seq::new(n as nat, |i: int| true));
        }
        Bitmask { bits }
    }

    /// The mask that admits no position.
    pub fn all_zeros(n: usize) -> (r: Bitmask)
        ensures
            r@ == Seq::new(n as nat, |i: int| false),
    {
        let mut bits: Vec<bool> = Vec::new();
        let mut i: usize = 0;
        while i < n
            invariant
                0 <= i <= n,
                bits@ =~= Seq::new(i as nat, |j: int| false),
            decreases n - i,
        {
            bits.push(false);
            i += 1;
        }
        proof {
            assert(bits@ =~= Seq::new(n as nat, |i: int| false));
        }
        Bitmask { bits }
    }

    /// Number of positions the mask covers (the cardinality of the
    /// collection it filters).
    pub fn len(&self) -> (r: usize)
        ensures
            r == self@.len(),
    {
        self.bits.len()
    }

    /// Whether position `i` of the original collection is admitted.
    pub fn get(&self, i: usize) -> (r: bool)
        requires
            i < self@.len(),
        ensures
            r == self@[i as int],
    {
        self.bits[i]
    }

    /// How many positions the mask admits.
    pub fn count_set(&self) -> (r: usize)
        ensures
            r == count_admitted(self@),
    {
        let mut count: usize = 0;
        let mut i: usize = 0;
        while i < self.bits.len()
            invariant
                0 <= i <= self@.len(),
                count == count_admitted(self@.subrange(0, i as int)),
                count <= i,
            decreases self@.len() - i,
        {
            proof {
                assert(self@.subrange(0, i + 1 as int).drop_last() =~= self@.subrange(0, i as int));
            }
            if self.bits[i] {
                count += 1;
            }
            i += 1;
        }
        proof {
            assert(self@.subrange(0, self@.len() as int) =~= self@);
        }
        count
    }

    /// Marshals the mask into the small-integer form the foreign engine
    /// consumes: one byte per position, 1 for admitted, 0 for excluded.
    pub fn to_engine_bytes(&self) -> (r: Vec<u8>)
        ensures
            r@ == self@.map_values(|b: bool| if b { 1u8 } else { 0u8 }),
    {
        let mut bytes: Vec<u8> = Vec::new();
        let mut i: usize = 0;
        while i < self.bits.len()
            invariant
                0 <= i <= self@.len(),
                bytes@ == self@.subrange(0, i as int).map_values(|b: bool| if b { 1u8 } else { 0u8 }),
            decreases self@.len() - i,
        {
            bytes.push(if self.bits[i] { 1u8 } else { 0u8 });
            proof {
                assert(self@.subrange(0, i + 1 as int).drop_last() =~= self@.subrange(0, i as int));
                assert(bytes@ =~= self@.subrange(0, i + 1 as int).map_values(
                    |b: bool| if b { 1u8 } else { 0u8 },
                ));
            }
            i += 1;
        }
        proof {
            assert(self@.subrange(0, self@.len() as int) =~= self@);
        }
        bytes
    }
}

} // verus!
