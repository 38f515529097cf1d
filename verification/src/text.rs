//! Decimal text handling for the numeric form field: parsing free-form
//! text into an optional `u32`, and rendering a `u32` back to its decimal
//! string for the view model.

use vstd::prelude::*;
use vstd::string::StrSliceExecFns;
use vstd::string::StringExecFns;

verus! {

/// The ten ASCII digit characters.
pub open spec fn is_ascii_digit(c: char) -> bool {
    ('0' as u32) <= (c as u32) && (c as u32) <= ('9' as u32)
}

/// Numeric value of a digit character.
pub open spec fn digit_value(c: char) -> nat
    recommends
        is_ascii_digit(c),
{
    ((c as u32) - ('0' as u32)) as nat
}

pub open spec fn all_digits(s: Seq<char>) -> bool {
    forall|k: int| 0 <= k < s.len() ==> is_ascii_digit(#[trigger] s[k])
}

/// Value of a digit string read most-significant first.
pub open spec fn digits_value(s: Seq<char>) -> nat
    decreases s.len(),
{
    if s.len() == 0 {
        0
    } else {
        digits_value(s.drop_last()) * 10 + digit_value(s.last())
    }
}

proof fn lemma_digits_value_step(s: Seq<char>, k: int)
    requires
        0 <= k < s.len(),
    ensures
        digits_value(s.take(k + 1)) == digits_value(s.take(k)) * 10 + digit_value(s[k]),
{
    assert(s.take(k + 1).drop_last() =~= s.take(k));
    assert(s.take(k + 1).last() == s[k]);
}

proof fn lemma_digits_value_prefix_le(s: Seq<char>, k: int)
    requires
        0 <= k <= s.len(),
    ensures
        digits_value(s.take(k)) <= digits_value(s),
    decreases s.len() - k,
{
    if k == s.len() {
        assert(s.take(k) =~= s);
    } else {
        lemma_digits_value_step(s, k);
        lemma_digits_value_prefix_le(s, k + 1);
    }
}

/// The value `text.parse::<u32>().ok()` takes: an optional leading `'+'`,
/// then one or more decimal digits whose value fits in a `u32`; any other
/// text is treated as "unset".
pub open spec fn spec_parse_u32(s: Seq<char>) -> Option<u32> {
    let t = if s.len() > 0 && s[0] == '+' {
        s.drop_first()
    } else {
        s
    };
    if t.len() > 0 && all_digits(t) && digits_value(t) <= u32::MAX {
        Some(digits_value(t) as u32)
    } else {
        None
    }
}

/// Parses decimal text to a `u32`, yielding `None` on any malformed or
/// out-of-range input.
pub fn parse_u32(s: &str) -> (r: Option<u32>)
    ensures
        r == spec_parse_u32(s@),
{
    let n: usize = s.unicode_len();
    let start: usize = if n > 0 && s.get_char(0) == '+' {
        1
    } else {
        0
    };
    let ghost t: Seq<char> = if start == 1 {
        s@.drop_first()
    } else {
        s@
    };
    if n == start {
        return None;
    }
    let mut acc: u64 = 0;
    let mut k: usize = start;
    while k < n
        invariant
            start <= k <= n,
            n == s@.len(),
            start == 0 || start == 1,
            start == 1 <==> n > 0 && s@[0] == '+',
            t == (if start == 1 {
                s@.drop_first()
            } else {
                s@
            }),
            t.len() == n - start,
            forall|m: int| 0 <= m < k - start ==> is_ascii_digit(#[trigger] t[m]),
            acc == digits_value(t.take(k - start)),
            acc <= u32::MAX,
        decreases n - k,
    {
        let c = s.get_char(k);
        if !(('0' as u32) <= (c as u32) && (c as u32) <= ('9' as u32)) {
            proof {
                assert(t[k - start] == s@[k as int]);
                assert(!is_ascii_digit(t[k - start]));
            }
            return None;
        }
        let d: u64 = ((c as u32) - ('0' as u32)) as u64;
        acc = acc * 10 + d;
        proof {
            lemma_digits_value_step(t, k - start);
            assert(t[k - start] == s@[k as int]);
        }
        if acc > (u32::MAX as u64) {
            proof {
                lemma_digits_value_prefix_le(t, k + 1 - start);
            }
            return None;
        }
        k = k + 1;
    }
    proof {
        assert(t.take(t.len() as int) =~= t);
    }
    Some(acc as u32)
}

pub open spec fn spec_digit_char(n: nat) -> char
    recommends
        n < 10,
{
    if n == 0 {
        '0'
    } else if n == 1 {
        '1'
    } else if n == 2 {
        '2'
    } else if n == 3 {
        '3'
    } else if n == 4 {
        '4'
    } else if n == 5 {
        '5'
    } else if n == 6 {
        '6'
    } else if n == 7 {
        '7'
    } else if n == 8 {
        '8'
    } else {
        '9'
    }
}

/// The canonical decimal rendering of a number: no sign, no leading zeros
/// (except for the number zero itself).
pub open spec fn spec_u32_digits(n: nat) -> Seq<char>
    decreases n,
{
    if n < 10 {
        seq![spec_digit_char(n)]
    } else {
        spec_u32_digits(n / 10).push(spec_digit_char(n % 10))
    }
}

/// The text shown for the optional numeric field: empty when unset.
pub open spec fn spec_age_text(v: Option<u32>) -> Seq<char> {
    match v {
        Option::None => Seq::empty(),
        Option::Some(a) => spec_u32_digits(a as nat),
    }
}

fn digit_str(d: u32) -> (r: &'static str)
    requires
        d < 10,
    ensures
        r@ =~= seq![spec_digit_char(d as nat)],
{
    proof {
        reveal_strlit("0");
        reveal_strlit("1");
        reveal_strlit("2");
        reveal_strlit("3");
        reveal_strlit("4");
        reveal_strlit("5");
        reveal_strlit("6");
        reveal_strlit("7");
        reveal_strlit("8");
        reveal_strlit("9");
    }
    if d == 0 {
        "0"
    } else if d == 1 {
        "1"
    } else if d == 2 {
        "2"
    } else if d == 3 {
        "3"
    } else if d == 4 {
        "4"
    } else if d == 5 {
        "5"
    } else if d == 6 {
        "6"
    } else if d == 7 {
        "7"
    } else if d == 8 {
        "8"
    } else {
        "9"
    }
}

/// Renders a number as decimal text.
pub fn u32_to_string(n: u32) -> (r: String)
    ensures
        r@ == spec_u32_digits(n as nat),
    decreases n,
{
    if n < 10 {
        digit_str(n).to_owned()
    } else {
        let mut prefix = u32_to_string(n / 10);
        let ghost before = prefix@;
        prefix.append(digit_str(n % 10));
        proof {
            assert(before.push(spec_digit_char((n % 10) as nat)) =~= before + seq![
                spec_digit_char((n % 10) as nat),
            ]);
        }
        prefix
    }
}

} // verus!
