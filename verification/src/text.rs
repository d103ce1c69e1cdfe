//! Text utilities shared by the matcher and the progress display: decimal
//! rendering of counters with thousands grouping, whitespace tokenisation,
//! and suffix comparison.

use vstd::prelude::*;

verus! {

/// The character for a single decimal digit.
pub open spec fn digit_char(d: nat) -> char {
    if d == 0 {
        '0'
    } else if d == 1 {
        '1'
    } else if d == 2 {
        '2'
    } else if d == 3 {
        '3'
    } else if d == 4 {
        '4'
    } else if d == 5 {
        '5'
    } else if d == 6 {
        '6'
    } else if d == 7 {
        '7'
    } else if d == 8 {
        '8'
    } else {
        '9'
    }
}

/// The decimal digits of `n`, most significant first, without leading zeros
/// (except for `n == 0`, which is rendered as "0").
pub open spec fn spec_decimal(n: nat) -> Seq<char>
    decreases n,
{
    if n < 10 {
        seq![digit_char(n)]
    } else {
        spec_decimal(n / 10) + seq![digit_char(n % 10)]
    }
}

/// The decimal digits of `n` grouped in threes by commas, as the progress
/// display prints large counters ("1,234,567").
pub open spec fn spec_grouped_decimal(n: nat) -> Seq<char>
    decreases n,
{
    if n < 1000 {
        spec_decimal(n)
    } else {
        spec_grouped_decimal(n / 1000) + seq![','] + spec_three_digits(n % 1000)
    }
}

/// Exactly three decimal digits, zero padded; used for every group after the
/// first in a comma-grouped number.
pub open spec fn spec_three_digits(n: nat) -> Seq<char> {
    seq![digit_char(n / 100 % 10), digit_char(n / 10 % 10), digit_char(n % 10)]
}

/// Relies on alloc's `String::push`: appends one character at the end.
pub assume_specification[ String::push ](s: &mut String, c: char)
    ensures
        final(s)@ == old(s)@.push(c),
;

fn digit_to_char(d: u64) -> (c: char)
    requires
        d < 10,
    ensures
        c == digit_char(d as nat),
{
    match d {
        0 => '0',
        1 => '1',
        2 => '2',
        3 => '3',
        4 => '4',
        5 => '5',
        6 => '6',
        7 => '7',
        8 => '8',
        _ => '9',
    }
}

/// Renders `n` in decimal.
pub fn u64_to_decimal(n: u64) -> (s: String)
    ensures
        s@ == spec_decimal(n as nat),
    decreases n,
{
    if n < 10 {
        let mut s = String::new();
        s.push(digit_to_char(n));
        proof {
            assert(s@ =~= spec_decimal(n as nat));
        }
        s
    } else {
        let mut s = u64_to_decimal(n / 10);
        s.push(digit_to_char(n % 10));
        proof {
            assert(s@ =~= spec_decimal(n as nat));
        }
        s
    }
}

/// Renders `n` in decimal with commas between groups of three digits.
pub fn u64_to_grouped_decimal(n: u64) -> (s: String)
    ensures
        s@ == spec_grouped_decimal(n as nat),
    decreases n,
{
    if n < 1000 {
        u64_to_decimal(n)
    } else {
        let mut s = u64_to_grouped_decimal(n / 1000);
        let rest = n % 1000;
        s.push(',');
        s.push(digit_to_char(rest / 100 % 10));
        s.push(digit_to_char(rest / 10 % 10));
        s.push(digit_to_char(rest % 10));
        proof {
            assert(s@ =~= spec_grouped_decimal(n as nat));
        }
        s
    }
}

/// Whether a character counts as whitespace, as std's `char::is_whitespace`
/// decides it.
pub uninterp spec fn char_is_space(c: char) -> bool;

/// Relies on std's `char::is_whitespace`: the Unicode white-space property,
/// a function of the character alone.
pub assume_specification[ char::is_whitespace ](c: char) -> (r: bool)
    ensures
        r == char_is_space(c),
;

/// Whether a character counts as alphanumeric, as std's
/// `char::is_alphanumeric` decides it.
pub uninterp spec fn char_is_alnum(c: char) -> bool;

/// Relies on std's `char::is_alphanumeric`: the Unicode alphabetic and
/// numeric properties, a function of the character alone.
pub assume_specification[ char::is_alphanumeric ](c: char) -> (r: bool)
    ensures
        r == char_is_alnum(c),
;

/// First index at or after `i` that holds a non-whitespace character, or the
/// end of the sequence.
pub open spec fn skip_spaces(s: Seq<char>, i: int) -> int
    recommends
        0 <= i <= s.len(),
    decreases s.len() - i,
{
    if i < 0 || i >= s.len() {
        s.len() as int
    } else if char_is_space(s[i]) {
        skip_spaces(s, i + 1)
    } else {
        i
    }
}

/// First index at or after `i` that holds a whitespace character, or the end
/// of the sequence.
pub open spec fn skip_token(s: Seq<char>, i: int) -> int
    recommends
        0 <= i <= s.len(),
    decreases s.len() - i,
{
    if i < 0 || i >= s.len() {
        s.len() as int
    } else if char_is_space(s[i]) {
        i
    } else {
        skip_token(s, i + 1)
    }
}

/// Scans from `from` past any whitespace.
pub fn scan_past_spaces(s: &str, from: usize, len: usize) -> (r: usize)
    requires
        len == s@.len(),
        from <= len,
    ensures
        r == skip_spaces(s@, from as int),
        from <= r <= len,
{
    let mut i = from;
    while i < len
        invariant
            len == s@.len(),
            from <= i <= len,
            skip_spaces(s@, from as int) == skip_spaces(s@, i as int),
        decreases len - i,
    {
        if !s.get_char(i).is_whitespace() {
            return i;
        }
        i = i + 1;
    }
    i
}

/// Scans from `from` past the non-whitespace characters of a token.
pub fn scan_past_token(s: &str, from: usize, len: usize) -> (r: usize)
    requires
        len == s@.len(),
        from <= len,
    ensures
        r == skip_token(s@, from as int),
        from <= r <= len,
{
    let mut i = from;
    while i < len
        invariant
            len == s@.len(),
            from <= i <= len,
            skip_token(s@, from as int) == skip_token(s@, i as int),
        decreases len - i,
    {
        if s.get_char(i).is_whitespace() {
            return i;
        }
        i = i + 1;
    }
    i
}

/// The second whitespace-separated token of `s`, or the empty sequence when
/// there is none.
pub open spec fn second_token(s: Seq<char>) -> Seq<char> {
    let a = skip_spaces(s, 0);
    let b = skip_token(s, a);
    let c = skip_spaces(s, b);
    let d = skip_token(s, c);
    s.subrange(c, d)
}

/// The first two whitespace-separated tokens of `s`, joined by one space;
/// just the first when there is no second, empty when there is none at all.
pub open spec fn first_two_tokens(s: Seq<char>) -> Seq<char> {
    let a = skip_spaces(s, 0);
    let b = skip_token(s, a);
    let c = skip_spaces(s, b);
    let d = skip_token(s, c);
    if a == s.len() {
        Seq::<char>::empty()
    } else if c == s.len() {
        s.subrange(a, b)
    } else {
        s.subrange(a, b) + seq![' '] + s.subrange(c, d)
    }
}

/// Extracts the second whitespace-separated token of `s` as a slice.
pub fn second_token_of(s: &str) -> (r: &str)
    ensures
        r@ == second_token(s@),
{
    let len = s.unicode_len();
    let a = scan_past_spaces(s, 0, len);
    let b = scan_past_token(s, a, len);
    let c = scan_past_spaces(s, b, len);
    let d = scan_past_token(s, c, len);
    s.substring_char(c, d)
}

/// Joins the first two whitespace-separated tokens of `s` with one space.
pub fn first_two_tokens_of(s: &str) -> (r: String)
    ensures
        r@ == first_two_tokens(s@),
{
    let len = s.unicode_len();
    let a = scan_past_spaces(s, 0, len);
    let b = scan_past_token(s, a, len);
    let c = scan_past_spaces(s, b, len);
    let d = scan_past_token(s, c, len);
    if a == len {
        String::new()
    } else if c == len {
        String::from_str(s.substring_char(a, b))
    } else {
        let mut r = String::from_str(s.substring_char(a, b));
        r.push(' ');
        r.append(s.substring_char(c, d));
        proof {
            assert(r@ =~= first_two_tokens(s@));
        }
        r
    }
}

/// Whether `s` ends with `suffix`.
pub open spec fn seq_ends_with(s: Seq<char>, suffix: Seq<char>) -> bool {
    suffix.len() <= s.len() && s.subrange(s.len() - suffix.len(), s.len() as int) == suffix
}

/// Tests whether `s` ends with `suffix`, character for character.
pub fn str_ends_with(s: &str, suffix: &str) -> (r: bool)
    ensures
        r == seq_ends_with(s@, suffix@),
{
    let n = s.unicode_len();
    let m = suffix.unicode_len();
    if m > n {
        return false;
    }
    let off = n - m;
    let mut i: usize = 0;
    while i < m
        invariant
            n == s@.len(),
            m == suffix@.len(),
            m <= n,
            off == n - m,
            i <= m,
            forall|k: int| 0 <= k < i ==> s@[off + k] == suffix@[k],
        decreases m - i,
    {
        if s.get_char(off + i) != suffix.get_char(i) {
            proof {
                assert(s@.subrange(s@.len() - suffix@.len(), s@.len() as int)[i as int]
                    != suffix@[i as int]);
            }
            return false;
        }
        i = i + 1;
    }
    proof {
        assert(s@.subrange(s@.len() - suffix@.len(), s@.len() as int) =~= suffix@);
    }
    true
}

} // verus!
