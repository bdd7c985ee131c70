//! Digit strings: what counts as a digit, and how the numeric inputs test,
//! trim and search their text.

use vstd::prelude::*;

verus! {

/// Whether `c` is one of the ASCII digits `'0'` to `'9'`.
pub open spec fn is_digit(c: char) -> bool {
    '0' <= c <= '9'
}

/// The number a digit stands for.
pub open spec fn digit_value(c: char) -> int
    recommends
        is_digit(c),
{
    c as int - '0' as int
}

/// Whether `s` holds ASCII digits only. The empty string does.
pub open spec fn all_digits(s: Seq<char>) -> bool {
    forall|i: int| 0 <= i < s.len() ==> is_digit(#[trigger] s[i])
}

/// `s` without the run of `c` it starts with.
pub open spec fn strip_leading(s: Seq<char>, c: char) -> Seq<char>
    decreases s.len(),
{
    if s.len() > 0 && s[0] == c {
        strip_leading(s.drop_first(), c)
    } else {
        s
    }
}

/// Stripping a leading run is cutting the string at the first character
/// that differs from `c`.
pub proof fn lemma_strip_leading_is_suffix(s: Seq<char>, c: char, k: int)
    requires
        0 <= k <= s.len(),
        forall|j: int| 0 <= j < k ==> s[j] == c,
        k < s.len() ==> s[k] != c,
    ensures
        strip_leading(s, c) == s.subrange(k, s.len() as int),
    decreases k,
{
    if k == 0 {
        assert(s.subrange(0, s.len() as int) =~= s);
    } else {
        let rest = s.drop_first();
        assert forall|j: int| 0 <= j < k - 1 implies rest[j] == c by {
            assert(rest[j] == s[j + 1]);
        }
        lemma_strip_leading_is_suffix(rest, c, k - 1);
        assert(rest.subrange(k - 1, rest.len() as int) =~= s.subrange(k, s.len() as int));
    }
}

/// Stripping leading characters keeps a digit string a digit string.
pub proof fn lemma_strip_leading_keeps_digits(s: Seq<char>, c: char)
    requires
        all_digits(s),
    ensures
        all_digits(strip_leading(s, c)),
    decreases s.len(),
{
    if s.len() > 0 && s[0] == c {
        let rest = s.drop_first();
        assert forall|i: int| 0 <= i < rest.len() implies is_digit(#[trigger] rest[i]) by {
            assert(rest[i] == s[i + 1]);
        }
        lemma_strip_leading_keeps_digits(rest, c);
    }
}

/// Tells whether `c` is an ASCII digit.
pub fn is_ascii_digit(c: char) -> (yes: bool)
    ensures
        yes == is_digit(c),
{
    c >= '0' && c <= '9'
}

/// The value of `c` as a decimal digit, if it is one.
pub fn to_digit(c: char) -> (digit: Option<u32>)
    ensures
        is_digit(c) ==> digit == Some(digit_value(c) as u32),
        !is_digit(c) ==> digit is None,
{
    if is_ascii_digit(c) {
        Some(c as u32 - '0' as u32)
    } else {
        None
    }
}

/// Tells whether `s` holds ASCII digits only.
pub fn is_digit_string(s: &str) -> (yes: bool)
    ensures
        yes == all_digits(s@),
{
    let n = s.unicode_len();
    let mut i: usize = 0;
    while i < n
        invariant
            n == s@.len(),
            i <= n,
            forall|j: int| 0 <= j < i ==> is_digit(#[trigger] s@[j]),
        decreases n - i,
    {
        if !is_ascii_digit(s.get_char(i)) {
            return false;
        }
        i += 1;
    }
    true
}

/// `s` without its leading zeros.
pub fn trim_leading_zeros(s: &str) -> (trimmed: String)
    ensures
        trimmed@ == strip_leading(s@, '0'),
{
    let n = s.unicode_len();
    let mut k: usize = 0;
    while k < n && s.get_char(k) == '0'
        invariant
            n == s@.len(),
            k <= n,
            forall|j: int| 0 <= j < k ==> s@[j] == '0',
        decreases n - k,
    {
        k += 1;
    }
    proof {
        lemma_strip_leading_is_suffix(s@, '0', k as int);
    }
    s.substring_char(k, n).to_owned()
}

/// The position of the first `c` in `s`, if there is one.
pub fn find_char(s: &str, c: char) -> (found: Option<usize>)
    ensures
        match found {
            Some(i) => s@.index_of_first(c) == Some(i as int) && i < s@.len(),
            None => s@.index_of_first(c) is None,
        },
{
    let n = s.unicode_len();
    let mut i: usize = 0;
    while i < n
        invariant
            n == s@.len(),
            i <= n,
            forall|j: int| 0 <= j < i ==> s@[j] != c,
        decreases n - i,
    {
        if s.get_char(i) == c {
            proof {
                s@.index_of_first_ensures(c);
                assert(s@.contains(c));
            }
            return Some(i);
        }
        i += 1;
    }
    proof {
        s@.index_of_first_ensures(c);
        if s@.contains(c) {
            let j = choose|j: int| 0 <= j < s@.len() && s@[j] == c;
            assert(s@[j] != c);
        }
    }
    None
}

} // verus!
