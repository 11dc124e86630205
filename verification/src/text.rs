use vstd::prelude::*;
use crate::syntax::{CompModel, ExpCompute};

verus! {

/// What `{:?}` renders for a computation (the derived `Debug`); it depends on
/// the computation's tree and names only.
pub uninterp spec fn debug_rendering(c: CompModel) -> Seq<char>;

/// Calls std's `format!` with `{:?}` on `c`, which renders the derived `Debug`
/// of the computation.
#[verifier::external_body]
pub fn debug_text(c: &ExpCompute<()>) -> (r: String)
    ensures
        r@ == debug_rendering(c@),
{
    format!("{:?}", c)
}

/// Whether two string slices hold the same characters.
pub fn str_eq(a: &str, b: &str) -> (r: bool)
    ensures
        r == (a@ == b@),
{
    let sa = String::from_str(a);
    let sb = String::from_str(b);
    sa == sb
}

/// An error result carrying a copy of `s`.
pub fn error_text<T>(s: &str) -> (r: Result<T, String>)
    ensures
        r matches Err(m) && m@ == s@,
{
    Err(String::from_str(s))
}

} // verus!
