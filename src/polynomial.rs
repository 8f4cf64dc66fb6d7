use vstd::prelude::*;

use crate::error::AoaError;

verus! {

/// A sparse multilinear polynomial over binary variables: each key is the set
/// of variable indices of one monomial, and the coefficient of that monomial
/// stands at the same position in `values`.
pub struct Polynomial<C> {
    keys: Vec<Vec<usize>>,
    values: Vec<C>,
}

impl<C> Polynomial<C> {
    #[verifier::type_invariant]
    closed spec fn aligned(self) -> bool {
        self.keys@.len() == self.values@.len()
    }

    /// The monomial keys, in order.
    pub closed spec fn keys_view(&self) -> Seq<Vec<usize>> {
        self.keys@
    }

    /// The coefficients, in order.
    pub closed spec fn values_view(&self) -> Seq<C> {
        self.values@
    }

    /// Builds a polynomial from aligned keys and values; fails with a shape
    /// error when their lengths differ.
    pub fn new(keys: Vec<Vec<usize>>, values: Vec<C>) -> (r: Result<Polynomial<C>, AoaError>)
        ensures
            r is Ok <==> keys@.len() == values@.len(),
            r is Err ==> r == Err::<Polynomial<C>, AoaError>(AoaError::Shape),
            r matches Ok(p) ==> p.keys_view() == keys@ && p.values_view() == values@,
    {
        if keys.len() != values.len() {
            return Err(AoaError::Shape);
        }
        Ok(Polynomial { keys, values })
    }

    /// Builds a polynomial from (key, coefficient) pairs, in their order.
    pub fn from_pairs(pairs: Vec<(Vec<usize>, C)>) -> (r: Polynomial<C>)
        ensures
            r.keys_view().len() == pairs@.len(),
            r.values_view().len() == pairs@.len(),
            forall|i: int| 0 <= i < pairs@.len() ==> #[trigger] r.keys_view()[i] == pairs@[i].0
                && r.values_view()[i] == pairs@[i].1,
    {
        let mut keys: Vec<Vec<usize>> = Vec::new();
        let mut values: Vec<C> = Vec::new();
        for pair in it: pairs.into_iter()
            invariant
                it.seq() == pairs@,
                keys@.len() == it.index(),
                values@.len() == it.index(),
                forall|i: int| 0 <= i < it.index() ==> #[trigger] keys@[i] == pairs@[i].0
                    && values@[i] == pairs@[i].1,
        {
            let (k, v) = pair;
            keys.push(k);
            values.push(v);
        }
        Polynomial { keys, values }
    }

    /// The number of monomials.
    pub fn len(&self) -> (r: usize)
        ensures
            r == self.keys_view().len(),
            r == self.values_view().len(),
    {
        proof { use_type_invariant(self); }
        self.keys.len()
    }

    /// The monomial keys, aligned with `values`.
    pub fn keys(&self) -> (r: &[Vec<usize>])
        ensures
            r@ == self.keys_view(),
            r@.len() == self.values_view().len(),
    {
        proof { use_type_invariant(self); }
        self.keys.as_slice()
    }

    /// The coefficients, aligned with `keys`.
    pub fn values(&self) -> (r: &[C])
        ensures
            r@ == self.values_view(),
            r@.len() == self.keys_view().len(),
    {
        proof { use_type_invariant(self); }
        self.values.as_slice()
    }
}

} // verus!
