//! Functions that pass strings around by move and by reference.

use vstd::prelude::*;
use vstd::string::StringExecFns;

verus! {

/// Hands a fresh string to the caller.
pub fn gives_ownership() -> (strng: String)
    ensures
        strng@ == "got new ownership"@,
{
    let strng: String = "got new ownership".to_owned();
    return strng;
}

/// Takes the string and gives the very same one back.
pub fn take_ownership_and_gives_back(s: String) -> (r: String)
    ensures
        r == s,
{
    return s;
}

/// Returns the string along with its length in bytes.
pub fn cal_len(s1: String) -> (r: (String, i32))
    requires
        vstd::utf8::encode_utf8(s1@).len() <= i32::MAX,
    ensures
        r.0 == s1,
        r.1 == vstd::utf8::encode_utf8(s1@).len() as i32,
{
    let x = s1.as_str().len();
    return (s1, x as i32);
}

/// Marks the borrowed string as changed.
pub fn change(s1: &mut String)
    ensures
        final(s1)@ == old(s1)@ + ", changed"@,
{
    s1.append(", changed");
}

} // verus!
