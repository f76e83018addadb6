use vstd::prelude::*;
use vstd::string::StrSliceExecFns;

verus! {

/// One character of user input matches one character of a lowercase ASCII
/// pattern when it is that character itself or its ASCII uppercase form.
pub open spec fn char_matches_lowercase(c: char, p: char) -> bool {
    c == p || (65 <= c as int && c as int <= 90 && c as int + 32 == p as int)
}

/// The input `s` equals the lowercase ASCII pattern `p` up to ASCII case.
pub open spec fn matches_lowercase(s: Seq<char>, p: Seq<char>) -> bool {
    s.len() == p.len() && (forall|i: int|
        0 <= i < s.len() ==> char_matches_lowercase(s[i], p[i]))
}

/// Compares user input against a lowercase ASCII pattern, ignoring the ASCII
/// case of the input.
pub fn eq_lowercase(s: &str, p: &str) -> (r: bool)
    ensures
        r == matches_lowercase(s@, p@),
{
    let n = s.unicode_len();
    if n != p.unicode_len() {
        return false;
    }
    for i in 0..n
        invariant
            n == s@.len(),
            n == p@.len(),
            forall|j: int| 0 <= j < i ==> char_matches_lowercase(s@[j], p@[j]),
    {
        let c = s.get_char(i);
        let pc = p.get_char(i);
        let cu = c as u32;
        let pu = pc as u32;
        if !(c == pc || (65 <= cu && cu <= 90 && cu + 32 == pu)) {
            return false;
        }
    }
    true
}

} // verus!
