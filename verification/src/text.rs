use vstd::prelude::*;

verus! {

/// Relies on std's String::push: appends exactly one character to the string.
#[verifier::external_body]
pub(crate) fn push_char(s: &mut String, c: char)
    ensures
        final(s)@ == old(s)@.push(c),
{
    s.push(c);
}

/// Compares two strings for equality by scanning every character position,
/// so that a mismatch early in the string costs the same as one late in it.
pub fn codes_match(a: &str, b: &str) -> (r: bool)
    ensures
        r == (a@ == b@),
{
    let an = a.unicode_len();
    let bn = b.unicode_len();
    if an != bn {
        return false;
    }
    let mut diff = false;
    let mut i: usize = 0;
    while i < an
        invariant
            an == a@.len(),
            bn == b@.len(),
            an == bn,
            i <= an,
            diff == exists|k: int| 0 <= k < i && a@[k] != b@[k],
        decreases an - i,
    {
        let ca = a.get_char(i);
        let cb = b.get_char(i);
        if ca != cb {
            diff = true;
        }
        i += 1;
    }
    if diff {
        assert(a@ != b@);
    } else {
        assert(forall|k: int| 0 <= k < a@.len() ==> a@[k] == b@[k]);
        assert(a@ =~= b@);
    }
    !diff
}

} // verus!
