//! Small helpers on strings.
use vstd::prelude::*;
use vstd::string::StringExecFns;

verus! {

/// Whether two strings hold the same characters.
pub(crate) fn same_text(a: &str, b: &str) -> (r: bool)
    ensures
        r == (a@ == b@),
{
    let x: String = a.to_owned();
    let y: String = b.to_owned();
    x == y
}

/// An owned copy of a string.
pub(crate) fn owned(a: &str) -> (r: String)
    ensures
        r@ == a@,
{
    a.to_owned()
}

/// The concatenation of two strings.
pub(crate) fn joined(a: String, b: &str) -> (r: String)
    ensures
        r@ == a@ + b@,
{
    a.concat(b)
}

} // verus!
