//! Choosing between two borrowed strings.

use vstd::prelude::*;
use vstd::string::StringSliceAdditionalSpecFns;

verus! {

/// Always the first of the two strings.
pub fn longest2<'a>(string1: &'a str, string2: &str) -> (r: &'a str)
    ensures
        r@ == string1@,
{
    string1
}

/// Whichever string has more bytes; ties go to the second.
pub fn longest<'a>(string1: &'a str, string2: &'a str) -> (r: &'a str)
    requires
        string1.spec_bytes().len() <= usize::MAX,
        string2.spec_bytes().len() <= usize::MAX,
    ensures
        r@ == if string1.spec_bytes().len() > string2.spec_bytes().len() {
            string1@
        } else {
            string2@
        },
{
    if string1.len() > string2.len() {
        return string1;
    } else {
        return string2;
    }
}

} // verus!
