//! Bucket boundaries of histograms.
//!
//! A histogram counts each observation in the first bucket whose upper
//! boundary is not below it, and in a last bucket without boundary where there
//! is none. Boundaries are whole numbers of a unit chosen for each histogram
//! (nanoseconds for durations, tenths of a percent for a loss rate) so that
//! they can be compared exactly.

use vstd::prelude::*;

verus! {

/// Every boundary is below all that follow it.
pub open spec fn strictly_increasing(bounds: Seq<u64>) -> bool {
    forall|i: int, j: int| 0 <= i < j < bounds.len() ==> bounds[i] < bounds[j]
}

/// The bucket that counts `value`: the index of the first boundary that is not
/// below `value`, or the number of boundaries where all are below it.
pub open spec fn bucket_of(bounds: Seq<u64>, value: u64) -> nat
    decreases bounds.len(),
{
    if bounds.len() == 0 || value <= bounds[0] {
        0
    } else {
        1 + bucket_of(bounds.drop_first(), value)
    }
}

/// `bucket_of` is the one index that has only smaller boundaries before it and
/// a boundary that is not smaller at it, if any is left.
pub proof fn lemma_bucket_of(bounds: Seq<u64>, value: u64)
    ensures
        bucket_of(bounds, value) <= bounds.len(),
        forall|k: int| 0 <= k < bucket_of(bounds, value) ==> bounds[k] < value,
        bucket_of(bounds, value) < bounds.len() ==> value <= bounds[bucket_of(
            bounds,
            value,
        ) as int],
    decreases bounds.len(),
{
    if bounds.len() == 0 || value <= bounds[0] {
    } else {
        let rest = bounds.drop_first();
        lemma_bucket_of(rest, value);
        assert forall|k: int| 0 <= k < bucket_of(bounds, value) implies bounds[k] < value by {
            if k > 0 {
                assert(bounds[k] == rest[k - 1]);
            }
        }
        if bucket_of(bounds, value) < bounds.len() {
            assert(bounds[bucket_of(bounds, value) as int] == rest[bucket_of(rest, value) as int]);
        }
    }
}

/// An index that has only smaller boundaries before it, and a boundary that is
/// not smaller at it if any is left, is `bucket_of`.
pub proof fn lemma_bucket_of_is(bounds: Seq<u64>, value: u64, index: nat)
    requires
        index <= bounds.len(),
        forall|k: int| 0 <= k < index ==> bounds[k] < value,
        index < bounds.len() ==> value <= bounds[index as int],
    ensures
        bucket_of(bounds, value) == index,
{
    lemma_bucket_of(bounds, value);
    let found = bucket_of(bounds, value);
    if found < index {
        assert(bounds[found as int] < value);
    } else if index < found {
        assert(bounds[index as int] < value);
    }
}

/// Why a list of boundaries was refused.
#[derive(Clone, Copy, Debug, PartialEq, Eq, Structural)]
pub enum BucketsError {
    /// The unit was given as zero parts.
    ZeroUnit,
    /// A boundary is not above the one before it.
    NotIncreasing,
}

/// The upper boundaries of a histogram's buckets, in increasing order.
#[derive(Debug)]
pub struct Buckets {
    bounds: Vec<u64>,
    per_unit: u64,
}

impl Clone for Buckets {
    fn clone(&self) -> (r: Self)
        ensures
            r.bounds_spec() == self.bounds_spec(),
            r.per_unit_spec() == self.per_unit_spec(),
    {
        proof {
            use_type_invariant(self);
        }
        Buckets { bounds: self.bounds.clone(), per_unit: self.per_unit }
    }
}

impl Buckets {
    #[verifier::type_invariant]
    spec fn well_formed(self) -> bool {
        &&& strictly_increasing(self.bounds@)
        &&& self.per_unit > 0
    }

    /// The boundaries, in order.
    pub closed spec fn bounds_spec(self) -> Seq<u64> {
        self.bounds@
    }

    /// How many parts make one of the metric's unit: a boundary `b` stands for
    /// `b / per_unit` of the unit that the metric's name gives.
    pub closed spec fn per_unit_spec(self) -> u64 {
        self.per_unit
    }

    /// Takes a list of boundaries if it can serve: if each boundary is above
    /// the one before it, and the unit has at least one part.
    pub fn new(bounds: Vec<u64>, per_unit: u64) -> (r: Result<Buckets, BucketsError>)
        ensures
            per_unit == 0 ==> r == Err::<Buckets, BucketsError>(BucketsError::ZeroUnit),
            per_unit > 0 && !strictly_increasing(bounds@) ==> r == Err::<Buckets, BucketsError>(
                BucketsError::NotIncreasing,
            ),
            per_unit > 0 && strictly_increasing(bounds@) ==> r is Ok && r->Ok_0.bounds_spec()
                == bounds@ && r->Ok_0.per_unit_spec() == per_unit,
    {
        if per_unit == 0 {
            return Err(BucketsError::ZeroUnit);
        }
        let mut i: usize = 1;
        while i < bounds.len()
            invariant
                per_unit > 0,
                1 <= i,
                i <= bounds.len() || bounds.len() == 0,
                strictly_increasing(bounds@.take(i as int)) || bounds.len() == 0,
            decreases bounds.len() - i,
        {
            if bounds[i - 1] >= bounds[i] {
                assert(!(bounds@[i - 1] < bounds@[i as int]));
                return Err(BucketsError::NotIncreasing);
            }
            proof {
                let before = bounds@.take(i as int);
                let after = bounds@.take(i + 1);
                assert forall|a: int, b: int| 0 <= a < b < after.len() implies after[a]
                    < after[b] by {
                    if b < i {
                        assert(before[a] < before[b]);
                    } else if a < i - 1 {
                        assert(before[a] < before[i - 1]);
                    }
                }
            }
            i += 1;
        }
        proof {
            if bounds.len() > 0 {
                assert(bounds@.take(i as int) =~= bounds@);
            }
        }
        Ok(Buckets { bounds, per_unit })
    }

    /// The boundaries, in order.
    pub fn bounds(&self) -> (r: &Vec<u64>)
        ensures
            r@ == self.bounds_spec(),
            strictly_increasing(r@),
    {
        proof {
            use_type_invariant(self);
        }
        &self.bounds
    }

    /// How many parts make one of the metric's unit.
    pub fn per_unit(&self) -> (r: u64)
        ensures
            r == self.per_unit_spec(),
            r > 0,
    {
        proof {
            use_type_invariant(self);
        }
        self.per_unit
    }

    /// The number of boundaries. There is one bucket more.
    pub fn len(&self) -> (r: usize)
        ensures
            r == self.bounds_spec().len(),
    {
        self.bounds.len()
    }

    /// The bucket that counts `value`.
    pub fn bucket_index(&self, value: u64) -> (r: usize)
        ensures
            r == bucket_of(self.bounds_spec(), value),
            r <= self.bounds_spec().len(),
    {
        let mut i: usize = 0;
        while i < self.bounds.len() && self.bounds[i] < value
            invariant
                i <= self.bounds.len(),
                forall|k: int| 0 <= k < i ==> self.bounds@[k] < value,
            decreases self.bounds.len() - i,
        {
            i += 1;
        }
        proof {
            lemma_bucket_of_is(self.bounds@, value, i as nat);
        }
        i
    }
}

} // verus!
