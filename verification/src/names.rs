//! Safety of client-supplied store names.
//!
//! A name is used as a single path segment under the store's root, so a
//! safe name must not be empty, must not contain a path separator or a NUL
//! character, and must not be one of the relative segments `.` and `..`.

use vstd::prelude::*;

verus! {

/// A name is safe to use as a store key: non-empty, free of path
/// separators and NUL, and not a relative directory segment.
pub open spec fn safe_name(s: Seq<char>) -> bool {
    &&& s.len() > 0
    &&& (forall|i: int| 0 <= i < s.len() ==> s[i] != '/' && s[i] != '\\' && s[i] != '\u{0}')
    &&& s != seq!['.']
    &&& s != seq!['.', '.']
}

/// Decides `safe_name` for a runtime string.
pub fn name_is_safe(name: &str) -> (b: bool)
    ensures
        b == safe_name(name@),
{
    let len = name.unicode_len();
    if len == 0 {
        return false;
    }
    let mut i: usize = 0;
    let mut clean = true;
    while i < len
        invariant
            len == name@.len(),
            0 <= i <= len,
            clean == (forall|j: int|
                0 <= j < i ==> name@[j] != '/' && name@[j] != '\\' && name@[j] != '\u{0}'),
        decreases len - i,
    {
        let c = name.get_char(i);
        if c == '/' || c == '\\' || c == '\u{0}' {
            clean = false;
        }
        i = i + 1;
    }
    if !clean {
        return false;
    }
    if len == 1 && name.get_char(0) == '.' {
        proof {
            assert(name@ =~= seq!['.']);
        }
        return false;
    }
    if len == 2 && name.get_char(0) == '.' && name.get_char(1) == '.' {
        proof {
            assert(name@ =~= seq!['.', '.']);
        }
        return false;
    }
    proof {
        assert(name@ != seq!['.']) by {
            if name@ =~= seq!['.'] {
                assert(name@.len() == 1 && name@[0] == '.');
            }
        }
        assert(name@ != seq!['.', '.']) by {
            if name@ =~= seq!['.', '.'] {
                assert(name@.len() == 2 && name@[0] == '.' && name@[1] == '.');
            }
        }
    }
    true
}

} // verus!
