//! A pair of values, compared component by component.
use vstd::prelude::*;
use vstd::std_specs::cmp::PartialEqSpec;
use vstd::std_specs::cmp::PartialEqSpecImpl;

verus! {

/// Two values.
pub struct Pair<T, R> {
    pub left: T,
    pub right: R,
}

impl<T, R> Pair<T, R> {
    pub fn new(left: T, right: R) -> (p: Pair<T, R>)
        ensures
            p.left == left,
            p.right == right,
    {
        return Pair { left, right };
    }
}

impl<T, R> PartialEq<Self> for Pair<T, R> where R: Eq, T: Eq {
    fn eq(&self, other: &Self) -> (r: bool) {
        self.right == other.right && self.left == other.left
    }
}

impl<T, R> PartialEqSpecImpl<Self> for Pair<T, R> where R: Eq, T: Eq {
    open spec fn obeys_eq_spec() -> bool {
        <T as PartialEqSpec>::obeys_eq_spec() && <R as PartialEqSpec>::obeys_eq_spec()
    }

    open spec fn eq_spec(&self, other: &Self) -> bool {
        self.right.eq_spec(&other.right) && self.left.eq_spec(&other.left)
    }
}

} // verus!
