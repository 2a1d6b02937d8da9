//! Validity of bus object paths.
//!
//! Session and request handles are path-like identifiers: "/" alone, or a
//! '/'-rooted sequence of non-empty elements of letters, digits and
//! underscores, with no empty element and no trailing separator. A handle
//! reported by the broker is accepted only if it has this form.

use vstd::prelude::*;
use vstd::string::StrSliceExecFns;

verus! {

/// Whether a character may stand inside a path element.
pub open spec fn is_element_char(c: char) -> bool {
    ||| (97 <= c as u32 && c as u32 <= 122)  // 'a' to 'z'
    ||| (65 <= c as u32 && c as u32 <= 90)  // 'A' to 'Z'
    ||| (48 <= c as u32 && c as u32 <= 57)  // '0' to '9'
    ||| c == '_'
}

/// Whether a string is a valid object path.
pub open spec fn valid_object_path(s: Seq<char>) -> bool {
    &&& s.len() >= 1
    &&& s[0] == '/'
    &&& (s.len() > 1 ==> s[s.len() - 1] != '/')
    &&& (forall|i: int| 1 <= i < s.len() ==> is_element_char(#[trigger] s[i]) || s[i] == '/')
    &&& (forall|i: int| 1 <= i < s.len() ==> !(#[trigger] s[i] == '/' && s[i - 1] == '/'))
}

/// Decide whether a string is a valid object path.
pub fn is_valid_object_path(s: &str) -> (r: bool)
    ensures
        r == valid_object_path(s@),
{
    let n = s.unicode_len();
    if n == 0 {
        return false;
    }
    if s.get_char(0) != '/' {
        return false;
    }
    if n > 1 && s.get_char(n - 1) == '/' {
        return false;
    }
    for i in 1..n
        invariant
            n == s@.len(),
            n >= 1,
            forall|j: int| 1 <= j < i ==> is_element_char(#[trigger] s@[j]) || s@[j] == '/',
            forall|j: int| 1 <= j < i ==> !(#[trigger] s@[j] == '/' && s@[j - 1] == '/'),
    {
        let c = s.get_char(i);
        let u = c as u32;
        let element_ok = (97 <= u && u <= 122) || (65 <= u && u <= 90) || (48 <= u && u <= 57)
            || c == '_';
        if !element_ok && c != '/' {
            proof {
                assert(!(is_element_char(s@[i as int]) || s@[i as int] == '/'));
            }
            return false;
        }
        if c == '/' && s.get_char(i - 1) == '/' {
            proof {
                assert(s@[i as int] == '/' && s@[i as int - 1] == '/');
            }
            return false;
        }
    }
    true
}

} // verus!
