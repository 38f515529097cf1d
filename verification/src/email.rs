//! The email shape accepted by the email field: a non-empty local part
//! over letters, digits and `._%+-`, an `@`, a non-empty domain over
//! letters, digits and `.-`, then a final dot and at least two letters.

use vstd::prelude::*;
use vstd::string::StrSliceExecFns;

verus! {

pub open spec fn is_ascii_alpha(c: char) -> bool {
    (('a' as u32) <= (c as u32) && (c as u32) <= ('z' as u32)) || (('A' as u32) <= (c as u32)
        && (c as u32) <= ('Z' as u32))
}

/// Characters allowed before the `@`.
pub open spec fn is_local_char(c: char) -> bool {
    ||| is_ascii_alpha(c)
    ||| crate::text::is_ascii_digit(c)
    ||| c == '.'
    ||| c == '_'
    ||| c == '%'
    ||| c == '+'
    ||| c == '-'
}

/// Characters allowed between the `@` and the final dot.
pub open spec fn is_domain_char(c: char) -> bool {
    ||| is_ascii_alpha(c)
    ||| crate::text::is_ascii_digit(c)
    ||| c == '.'
    ||| c == '-'
}

/// A decomposition of `s` as `local @ domain . tld`: `i` is the position
/// of the `@`, `j` the position of the final dot.
pub open spec fn email_witness(s: Seq<char>, i: int, j: int) -> bool {
    &&& 1 <= i
    &&& i + 2 <= j
    &&& j + 3 <= s.len()
    &&& s[i] == '@'
    &&& s[j] == '.'
    &&& forall|k: int| 0 <= k < i ==> is_local_char(#[trigger] s[k])
    &&& forall|k: int| i < k < j ==> is_domain_char(#[trigger] s[k])
    &&& forall|k: int| j < k < s.len() ==> is_ascii_alpha(#[trigger] s[k])
}

pub open spec fn email_match(s: Seq<char>) -> bool {
    exists|i: int, j: int| email_witness(s, i, j)
}

/// In any decomposition the `@` is the first `@` of the string and the
/// final dot is the last dot: every other region excludes both.
proof fn lemma_witness_unique(s: Seq<char>, i: int, j: int, a: int, d: int)
    requires
        email_witness(s, i, j),
        0 <= a < s.len(),
        s[a] == '@',
        forall|k: int| 0 <= k < a ==> s[k] != '@',
        0 <= d < s.len(),
        s[d] == '.',
        forall|k: int| d < k < s.len() ==> s[k] != '.',
    ensures
        i == a,
        j == d,
{
    assert(!is_local_char('@'));
    assert(!is_domain_char('@'));
    assert(!is_ascii_alpha('@'));
    assert(!is_ascii_alpha('.'));
    if i < a {
        assert(s[i] != '@');
    }
    if i > a {
        assert(is_local_char(s[a]));
    }
    if j < d {
        assert(is_ascii_alpha(s[d]));
    }
    if j > d {
        assert(s[j] != '.');
    }
}

/// Decides whether `s` has the email shape.
pub fn is_email(s: &str) -> (r: bool)
    ensures
        r == email_match(s@),
{
    let n: usize = s.unicode_len();
    // Find the first '@', checking the characters before it.
    let mut a: usize = 0;
    loop
        invariant_except_break
            a <= n,
            n == s@.len(),
            forall|k: int| 0 <= k < a ==> #[trigger] s@[k] != '@',
            forall|k: int| 0 <= k < a ==> is_local_char(#[trigger] s@[k]),
        ensures
            a < n,
            n == s@.len(),
            s@[a as int] == '@',
            forall|k: int| 0 <= k < a ==> #[trigger] s@[k] != '@',
            forall|k: int| 0 <= k < a ==> is_local_char(#[trigger] s@[k]),
        decreases n - a,
    {
        if a == n {
            // No '@' anywhere: no decomposition exists.
            proof {
                if email_match(s@) {
                    let (i, j) = choose|i: int, j: int| email_witness(s@, i, j);
                    assert(s@[i] == '@');
                }
            }
            return false;
        }
        let c = s.get_char(a);
        if c == '@' {
            break;
        }
        if !is_local_char_exec(c) {
            // A non-local character before any '@': the '@' of any
            // decomposition would lie beyond it.
            proof {
                if email_match(s@) {
                    let (i, j) = choose|i: int, j: int| email_witness(s@, i, j);
                    assert(s@[i] == '@');
                    assert(i > a) by {
                        if i <= a {
                            assert(s@[i] != '@');
                        }
                    }
                    assert(is_local_char(s@[a as int]));
                }
            }
            return false;
        }
        a = a + 1;
    }
    if a == 0 {
        // Empty local part.
        proof {
            if email_match(s@) {
                let (i, j) = choose|i: int, j: int| email_witness(s@, i, j);
                assert(is_local_char(s@[0]));
                assert(!is_local_char('@'));
            }
        }
        return false;
    }
    // Find the last '.', which must close the domain part.
    let mut d: usize = 0;
    let mut have_dot = false;
    let mut k: usize = 0;
    while k < n
        invariant
            k <= n,
            n == s@.len(),
            have_dot ==> d < k && s@[d as int] == '.',
            forall|m: int| 0 <= m < k && #[trigger] s@[m] == '.' ==> have_dot && m <= d,
        decreases n - k,
    {
        if s.get_char(k) == '.' {
            d = k;
            have_dot = true;
        }
        k = k + 1;
    }
    if !have_dot {
        proof {
            if email_match(s@) {
                let (i, j) = choose|i: int, j: int| email_witness(s@, i, j);
                assert(s@[j] == '.');
            }
        }
        return false;
    }
    proof {
        assert(forall|m: int| d < m < n ==> #[trigger] s@[m] != '.');
    }
    if d <= a || d - a < 2 || n - d < 3 {
        // Domain part empty, or fewer than two letters after the dot.
        proof {
            if email_match(s@) {
                let (i, j) = choose|i: int, j: int| email_witness(s@, i, j);
                lemma_witness_unique(s@, i, j, a as int, d as int);
            }
        }
        return false;
    }
    // Check the domain characters strictly between the '@' and the dot.
    let mut m: usize = a + 1;
    while m < d
        invariant
            a + 1 <= m <= d,
            a < n,
            d < n,
            n == s@.len(),
            s@[a as int] == '@',
            forall|k2: int| 0 <= k2 < a ==> #[trigger] s@[k2] != '@',
            s@[d as int] == '.',
            forall|k2: int| d < k2 < n ==> #[trigger] s@[k2] != '.',
            forall|k2: int| a < k2 < m ==> is_domain_char(#[trigger] s@[k2]),
        decreases d - m,
    {
        if !is_domain_char_exec(s.get_char(m)) {
            proof {
                if email_match(s@) {
                    let (i, j) = choose|i: int, j: int| email_witness(s@, i, j);
                    lemma_witness_unique(s@, i, j, a as int, d as int);
                    assert(is_domain_char(s@[m as int]));
                }
            }
            return false;
        }
        m = m + 1;
    }
    // Check the letters after the final dot.
    let mut q: usize = d + 1;
    while q < n
        invariant
            d + 1 <= q <= n,
            a < n,
            d < n,
            n == s@.len(),
            s@[a as int] == '@',
            forall|k2: int| 0 <= k2 < a ==> #[trigger] s@[k2] != '@',
            s@[d as int] == '.',
            forall|k2: int| d < k2 < n ==> #[trigger] s@[k2] != '.',
            forall|k2: int| d < k2 < q ==> is_ascii_alpha(#[trigger] s@[k2]),
        decreases n - q,
    {
        if !is_ascii_alpha_exec(s.get_char(q)) {
            proof {
                if email_match(s@) {
                    let (i, j) = choose|i: int, j: int| email_witness(s@, i, j);
                    lemma_witness_unique(s@, i, j, a as int, d as int);
                    assert(is_ascii_alpha(s@[q as int]));
                }
            }
            return false;
        }
        q = q + 1;
    }
    proof {
        assert(email_witness(s@, a as int, d as int));
    }
    true
}

fn is_ascii_alpha_exec(c: char) -> (r: bool)
    ensures
        r == is_ascii_alpha(c),
{
    (('a' as u32) <= (c as u32) && (c as u32) <= ('z' as u32)) || (('A' as u32) <= (c as u32)
        && (c as u32) <= ('Z' as u32))
}

fn is_local_char_exec(c: char) -> (r: bool)
    ensures
        r == is_local_char(c),
{
    is_ascii_alpha_exec(c) || (('0' as u32) <= (c as u32) && (c as u32) <= ('9' as u32)) || c == '.'
        || c == '_' || c == '%' || c == '+' || c == '-'
}

fn is_domain_char_exec(c: char) -> (r: bool)
    ensures
        r == is_domain_char(c),
{
    is_ascii_alpha_exec(c) || (('0' as u32) <= (c as u32) && (c as u32) <= ('9' as u32)) || c == '.'
        || c == '-'
}

} // verus!
