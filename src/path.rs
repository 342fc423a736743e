//! Splitting a path at its last separator, without relying on a path library.
//!
//! Path utilities are not dependable inside the editor's extension sandbox on
//! every platform, so a path is scanned by hand for either separator, `/` or
//! `\`, whatever the platform it came from.

use vstd::prelude::*;

verus! {

/// The characters that separate path components on any supported platform.
pub open spec fn is_separator(c: char) -> bool {
    c == '/' || c == '\\'
}

/// Whether `s` holds a separator anywhere.
pub open spec fn has_separator(s: Seq<char>) -> bool {
    exists|i: int| 0 <= i < s.len() && is_separator(#[trigger] s[i])
}

/// Index of the rightmost separator of `s`, or `-1` where there is none.
pub open spec fn last_separator(s: Seq<char>) -> int
    decreases s.len(),
{
    if s.len() == 0 {
        -1
    } else if is_separator(s.last()) {
        s.len() - 1
    } else {
        last_separator(s.drop_last())
    }
}

/// `last_separator` is the rightmost separator, and `-1` exactly where there is none.
pub proof fn lemma_last_separator(s: Seq<char>)
    ensures
        -1 <= last_separator(s) < s.len(),
        last_separator(s) >= 0 <==> has_separator(s),
        last_separator(s) >= 0 ==> is_separator(s[last_separator(s)]),
        forall|j: int| last_separator(s) < j < s.len() ==> !is_separator(#[trigger] s[j]),
    decreases s.len(),
{
    if s.len() > 0 && !is_separator(s.last()) {
        let t = s.drop_last();
        lemma_last_separator(t);
        assert forall|j: int| last_separator(s) < j < s.len() implies !is_separator(
            #[trigger] s[j],
        ) by {
            if j < s.len() - 1 {
                assert(s[j] == t[j]);
            }
        }
        if has_separator(s) {
            let i = choose|i: int| 0 <= i < s.len() && is_separator(#[trigger] s[i]);
            assert(t[i] == s[i]);
        }
        if has_separator(t) {
            let i = choose|i: int| 0 <= i < t.len() && is_separator(#[trigger] t[i]);
            assert(s[i] == t[i]);
        }
    } else if s.len() > 0 {
        assert(is_separator(s[s.len() - 1]));
    }
}

/// The position of the rightmost separator (`/` or `\`) of `path`, if any.
pub fn rfind_separator(path: &str) -> (r: Option<usize>)
    ensures
        match r {
            Some(i) => i == last_separator(path@),
            None => last_separator(path@) == -1,
        },
{
    proof {
        lemma_last_separator(path@);
    }
    let n = path.unicode_len();
    let mut i: usize = n;
    while i > 0
        invariant
            i <= n == path@.len(),
            forall|j: int| i <= j < n ==> !is_separator(#[trigger] path@[j]),
            -1 <= last_separator(path@) < i,
        decreases i,
    {
        proof {
            lemma_last_separator(path@);
        }
        let c = path.get_char(i - 1);
        if c == '/' || c == '\\' {
            return Some(i - 1);
        }
        i = i - 1;
    }
    None
}

} // verus!
