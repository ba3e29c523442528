use std::rc::Rc;
use vstd::prelude::*;

verus! {

/// Relies on std's `Rc::clone`: returns a second handle to the same
/// shared allocation, so the result is the same value as the argument.
#[verifier::external_body]
pub(crate) fn rc_dup<T>(rc: &Rc<T>) -> (res: Rc<T>)
    ensures
        res == *rc,
{
    Rc::clone(rc)
}

/// Relies on std's `PartialEq` for `str`: two string slices are equal
/// exactly when their character sequences are equal.
#[verifier::external_body]
pub(crate) fn str_eq(a: &str, b: &str) -> (res: bool)
    ensures
        res == (a@ == b@),
{
    a == b
}

} // verus!
