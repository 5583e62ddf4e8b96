//! Computing the part of a view that changed between two renderings.
use vstd::prelude::*;
use vstd::std_specs::cmp::PartialEqSpec;

verus! {

/// The outcome of diffing `old` against `new` with `diff`: nothing when there is no new value
/// or it equals the old one, a copy of the new value when there is no old one, otherwise what
/// `diff` makes of the pair.
pub fn run_diff<T: Clone + PartialEq, F: Fn(&T, &T) -> T>(old: Option<&T>, new: Option<&T>, diff: F) -> (result:
    Option<T>)
    requires
        forall|a: &T, b: &T| #[trigger] diff.requires((a, b)),
    ensures
        new is None ==> result is None,
        old is None && new is Some ==> (result matches Some(r) && cloned::<T>(*new->0, r)),
        old is Some && new is Some && T::obeys_eq_spec() ==> if old->0.eq_spec(new->0) {
            result is None
        } else {
            (result matches Some(r) && diff.ensures((old->0, new->0), r))
        },
{
    match (old, new) {
        (_, None) => None,
        (None, Some(new)) => Some(new.clone()),
        (Some(old), Some(new)) => {
            if old == new {
                None
            } else {
                Some(diff(old, new))
            }
        },
    }
}

/// Nothing when the value did not change, otherwise (a copy of) the new value.
pub fn diff_simple<T: Clone + PartialEq>(old: &Option<T>, new: &Option<T>) -> (result: Option<T>)
    ensures
        Option::<T>::obeys_eq_spec() && old.eq_spec(new) ==> result is None,
        Option::<T>::obeys_eq_spec() && !old.eq_spec(new) ==> match new {
            Some(n) => (result matches Some(r) && cloned::<T>(*n, r)),
            None => result is None,
        },
{
    if old == new {
        None
    } else {
        match new {
            Some(n) => Some(n.clone()),
            None => None,
        }
    }
}

} // verus!
