use vstd::prelude::*;

use crate::error::AoaError;

verus! {

/// The sum of a sequence of counts.
pub open spec fn sum_counts(counts: Seq<u64>) -> int
    decreases counts.len(),
{
    if counts.len() == 0 {
        0
    } else {
        sum_counts(counts.drop_last()) + counts.last()
    }
}

/// Measurement outcomes, each bitstring paired with how often it was observed.
pub struct AoaSampleSet {
    bitstrings: Vec<Vec<bool>>,
    counts: Vec<u64>,
}

impl AoaSampleSet {
    #[verifier::type_invariant]
    closed spec fn aligned(self) -> bool {
        self.bitstrings@.len() == self.counts@.len()
    }

    /// The observed bitstrings, in order.
    pub closed spec fn bitstrings_view(&self) -> Seq<Vec<bool>> {
        self.bitstrings@
    }

    /// The count of each bitstring, in order.
    pub closed spec fn counts_view(&self) -> Seq<u64> {
        self.counts@
    }

    /// Pairs bitstrings with counts; fails with a shape error when their
    /// lengths differ.
    pub fn new(bitstrings: Vec<Vec<bool>>, counts: Vec<u64>) -> (r: Result<AoaSampleSet, AoaError>)
        ensures
            r is Ok <==> bitstrings@.len() == counts@.len(),
            r is Err ==> r == Err::<AoaSampleSet, AoaError>(AoaError::Shape),
            r matches Ok(s) ==> s.bitstrings_view() == bitstrings@ && s.counts_view() == counts@,
    {
        if bitstrings.len() != counts.len() {
            return Err(AoaError::Shape);
        }
        Ok(AoaSampleSet { bitstrings, counts })
    }

    /// The number of distinct outcomes.
    pub fn len(&self) -> (r: usize)
        ensures
            r == self.bitstrings_view().len(),
            r == self.counts_view().len(),
    {
        proof { use_type_invariant(self); }
        self.counts.len()
    }

    /// The observed bitstrings, aligned with `counts`.
    pub fn bitstrings(&self) -> (r: &[Vec<bool>])
        ensures
            r@ == self.bitstrings_view(),
            r@.len() == self.counts_view().len(),
    {
        proof { use_type_invariant(self); }
        self.bitstrings.as_slice()
    }

    /// The counts, aligned with `bitstrings`.
    pub fn counts(&self) -> (r: &[u64])
        ensures
            r@ == self.counts_view(),
            r@.len() == self.bitstrings_view().len(),
    {
        proof { use_type_invariant(self); }
        self.counts.as_slice()
    }

    /// The total number of observations.
    pub fn total_count(&self) -> (r: u128)
        ensures
            r == sum_counts(self.counts_view()),
    {
        let mut total: u128 = 0;
        let mut i: usize = 0;
        while i < self.counts.len()
            invariant
                i <= self.counts@.len(),
                total == sum_counts(self.counts@.take(i as int)),
                total <= i * (u64::MAX as int),
            decreases self.counts@.len() - i,
        {
            proof {
                let s = self.counts@.take(i as int + 1);
                assert(s.drop_last() =~= self.counts@.take(i as int));
                assert(total + self.counts@[i as int] <= (i + 1) * (u64::MAX as int)) by (nonlinear_arith)
                    requires
                        total <= i * (u64::MAX as int),
                        self.counts@[i as int] <= u64::MAX,
                ;
                assert((i + 1) * (u64::MAX as int) < u128::MAX) by (nonlinear_arith)
                    requires
                        i < usize::MAX,
                ;
            }
            total = total + self.counts[i] as u128;
            i = i + 1;
        }
        proof {
            assert(self.counts@.take(i as int) =~= self.counts@);
        }
        total
    }
}

} // verus!
