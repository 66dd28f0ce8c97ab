use vstd::prelude::*;

verus! {

/// Whether `s` reads `lit`.
pub fn text_is(s: &str, lit: &str) -> (r: bool)
    ensures
        r == (s@ == lit@),
{
    let a = s.to_owned();
    let b = lit.to_owned();
    a == b
}

/// `a` followed by `b`.
pub fn joined(a: &str, b: &str) -> (r: String)
    ensures
        r@ == a@ + b@,
{
    let mut out = a.to_owned();
    out.append(b);
    out
}

} // verus!
