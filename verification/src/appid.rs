//! Validation of application identifiers.
//!
//! A hub is initialized with a reverse-DNS-style application identifier
//! (for example `com.example.hello-world`). The identifier may be empty;
//! a non-empty one must be at most 255 bytes, have at least three
//! dot-separated segments, and consist of ASCII alphanumerics, hyphens and
//! underscores, with hyphen and underscore disallowed adjacent to a dot.

use vstd::prelude::*;

verus! {

/// ASCII code of `.`.
pub const DOT: u8 = 46;

/// ASCII code of `-`.
pub const HYPHEN: u8 = 45;

/// ASCII code of `_`.
pub const UNDERSCORE: u8 = 95;

/// Whether a byte is an ASCII alphanumeric: `0`-`9`, `A`-`Z` or `a`-`z`.
pub open spec fn is_alnum_byte(b: u8) -> bool {
    (48 <= b && b <= 57) || (65 <= b && b <= 90) || (97 <= b && b <= 122)
}

/// Whether a byte is a hyphen or an underscore.
pub open spec fn is_mark_byte(b: u8) -> bool {
    b == HYPHEN || b == UNDERSCORE
}

/// Whether a byte may appear in an application identifier at all.
pub open spec fn is_identifier_byte(b: u8) -> bool {
    is_alnum_byte(b) || is_mark_byte(b) || b == DOT
}

/// Whether two adjacent bytes put a hyphen or underscore next to a dot,
/// in either order.
pub open spec fn is_mark_dot_pair(a: u8, b: u8) -> bool {
    (is_mark_byte(a) && b == DOT) || (a == DOT && is_mark_byte(b))
}

/// The number of dots in a byte string. A string with `d` dots has `d + 1`
/// dot-separated segments.
pub open spec fn dot_count(s: Seq<u8>) -> nat
    decreases s.len(),
{
    if s.len() == 0 {
        0
    } else {
        dot_count(s.drop_last()) + if s.last() == DOT {
            1nat
        } else {
            0nat
        }
    }
}

/// Whether a byte string is a well-formed application identifier: empty, or
/// at most 255 bytes of alphanumerics, hyphens, underscores and dots, with
/// no hyphen or underscore adjacent to a dot, and at least three
/// dot-separated segments (that is, at least two dots).
pub open spec fn valid_app_id(s: Seq<u8>) -> bool {
    s.len() == 0 || {
        &&& s.len() <= 255
        &&& forall|i: int| 0 <= i < s.len() ==> is_identifier_byte(#[trigger] s[i])
        &&& forall|i: int| 0 < i < s.len() ==> !is_mark_dot_pair(s[i - 1], #[trigger] s[i])
        &&& dot_count(s) >= 2
    }
}

/// Extending a byte string by one byte adds one to its dot count exactly
/// when that byte is a dot.
proof fn lemma_dot_count_step(s: Seq<u8>, i: int)
    requires
        0 <= i < s.len(),
    ensures
        dot_count(s.take(i + 1)) == dot_count(s.take(i)) + if s[i] == DOT {
            1nat
        } else {
            0nat
        },
{
    assert(s.take(i + 1).drop_last() =~= s.take(i));
    assert(s.take(i + 1).last() == s[i]);
}

/// Decide whether a byte string is a well-formed application identifier.
pub fn check_app_id(s: &[u8]) -> (r: bool)
    ensures
        r == valid_app_id(s@),
{
    let n = s.len();
    if n == 0 {
        return true;
    }
    if n > 255 {
        return false;
    }
    let mut dots: usize = 0;
    let mut i: usize = 0;
    while i < n
        invariant
            0 < n <= 255,
            n == s@.len(),
            i <= n,
            dots <= i,
            dots == dot_count(s@.take(i as int)),
            forall|j: int| 0 <= j < i ==> is_identifier_byte(#[trigger] s@[j]),
            forall|j: int| 0 < j < i ==> !is_mark_dot_pair(s@[j - 1], #[trigger] s@[j]),
        decreases n - i,
    {
        let b = s[i];
        let alnum = (48 <= b && b <= 57) || (65 <= b && b <= 90) || (97 <= b && b <= 122);
        if !(alnum || b == HYPHEN || b == UNDERSCORE || b == DOT) {
            assert(!is_identifier_byte(s@[i as int]));
            return false;
        }
        if i > 0 {
            let a = s[i - 1];
            if (a == HYPHEN || a == UNDERSCORE) && b == DOT {
                return false;
            }
            if a == DOT && (b == HYPHEN || b == UNDERSCORE) {
                return false;
            }
        }
        proof {
            lemma_dot_count_step(s@, i as int);
        }
        if b == DOT {
            dots = dots + 1;
        }
        i = i + 1;
    }
    proof {
        assert(s@.take(n as int) =~= s@);
    }
    dots >= 2
}

} // verus!
