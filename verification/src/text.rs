//! Text operations of `str`, with what std documents of them.

use vstd::prelude::*;

verus! {

/// A character is an ASCII character.
pub open spec fn is_ascii_char(c: char) -> bool {
    (c as u32) < 128
}

/// ASCII upper-casing of one character.
pub open spec fn ascii_upper(c: char) -> char {
    if 'a' <= c && c <= 'z' {
        ((c as u32) - 32) as char
    } else {
        c
    }
}

/// ASCII lower-casing of one character.
pub open spec fn ascii_lower(c: char) -> char {
    if 'A' <= c && c <= 'Z' {
        ((c as u32) + 32) as char
    } else {
        c
    }
}

/// What `str::to_uppercase` returns for the text (Unicode upper-casing).
pub uninterp spec fn uppercase_of(s: Seq<char>) -> Seq<char>;

/// What `str::to_lowercase` returns for the text (Unicode lower-casing).
pub uninterp spec fn lowercase_of(s: Seq<char>) -> Seq<char>;

/// A character has the Unicode `White_Space` property (the set that
/// `char::is_whitespace` and `str::trim` use).
pub open spec fn is_white_space(c: char) -> bool {
    let n = c as u32;
    ||| 0x9 <= n <= 0xD
    ||| n == 0x20
    ||| n == 0x85
    ||| n == 0xA0
    ||| n == 0x1680
    ||| 0x2000 <= n <= 0x200A
    ||| n == 0x2028
    ||| n == 0x2029
    ||| n == 0x202F
    ||| n == 0x205F
    ||| n == 0x3000
}

/// The text without its leading white space.
pub open spec fn trim_start_of(s: Seq<char>) -> Seq<char>
    decreases s.len(),
{
    if s.len() > 0 && is_white_space(s[0]) {
        trim_start_of(s.drop_first())
    } else {
        s
    }
}

/// The text without its trailing white space.
pub open spec fn trim_end_of(s: Seq<char>) -> Seq<char>
    decreases s.len(),
{
    if s.len() > 0 && is_white_space(s.last()) {
        trim_end_of(s.drop_last())
    } else {
        s
    }
}

/// The text with leading and trailing white space removed, as `str::trim`
/// returns it.
pub open spec fn trimmed_of(s: Seq<char>) -> Seq<char> {
    trim_end_of(trim_start_of(s))
}

/// The text is made of ASCII characters only.
pub open spec fn all_ascii(s: Seq<char>) -> bool {
    forall|i: int| 0 <= i < s.len() ==> is_ascii_char(#[trigger] s[i])
}

/// `pat` occurs in `s` starting at position `i`.
pub open spec fn occurs_at(s: Seq<char>, pat: Seq<char>, i: int) -> bool {
    0 <= i && i + pat.len() <= s.len() && s.subrange(i, i + pat.len()) == pat
}

/// `c` does not occur in `s` before position `n`.
pub open spec fn char_absent_before(s: Seq<char>, c: char, n: int) -> bool {
    forall|k: int| 0 <= k < n ==> s[k] != c
}

/// The text before the first `c` (all of it where `c` does not occur).
pub open spec fn prefix_before(s: Seq<char>, c: char) -> Seq<char>
    decreases s.len(),
{
    if s.len() == 0 {
        s
    } else if s[0] == c {
        Seq::empty()
    } else {
        seq![s[0]] + prefix_before(s.drop_first(), c)
    }
}

/// The prefix before the first `c` is the text up to the position of the
/// first `c` (or the end).
pub proof fn lemma_prefix_before(s: Seq<char>, c: char, i: int)
    requires
        0 <= i <= s.len(),
        char_absent_before(s, c, i),
        i < s.len() ==> s[i] == c,
    ensures
        prefix_before(s, c) == s.subrange(0, i),
    decreases s.len(),
{
    if s.len() == 0 {
        assert(s.subrange(0, i) =~= s);
    } else if i == 0 {
        assert(s.subrange(0, 0) =~= Seq::<char>::empty());
    } else {
        lemma_prefix_before(s.drop_first(), c, i - 1);
        assert(s.subrange(0, i) =~= seq![s[0]] + s.drop_first().subrange(0, i - 1));
    }
}

/// A character is an ASCII decimal digit.
pub open spec fn is_digit(c: char) -> bool {
    '0' <= c && c <= '9'
}

/// The value of a string of decimal digits.
pub open spec fn digits_value(s: Seq<char>) -> int
    decreases s.len(),
{
    if s.len() == 0 {
        0
    } else {
        digits_value(s.drop_last()) * 10 + ((s.last() as int) - ('0' as int))
    }
}

/// One or more decimal digits and nothing else.
pub open spec fn is_digit_run(s: Seq<char>) -> bool {
    s.len() > 0 && forall|i: int| 0 <= i < s.len() ==> is_digit(#[trigger] s[i])
}

/// The value of an unsigned integer literal: an optional `+` followed by
/// decimal digits; `None` for any other text.
pub open spec fn unsigned_literal(s: Seq<char>) -> Option<int> {
    let body = if s.len() > 0 && s[0] == '+' {
        s.drop_first()
    } else {
        s
    };
    if is_digit_run(body) {
        Some(digits_value(body))
    } else {
        None
    }
}

/// The value of a signed integer literal: an optional `+` or `-` followed
/// by decimal digits; `None` for any other text.
pub open spec fn signed_literal(s: Seq<char>) -> Option<int> {
    if s.len() > 0 && s[0] == '-' {
        if is_digit_run(s.drop_first()) {
            Some(-digits_value(s.drop_first()))
        } else {
            None
        }
    } else {
        unsigned_literal(s)
    }
}

/// What `str::parse::<u64>` returns: the literal's value where it fits.
pub open spec fn parsed_u64(s: Seq<char>) -> Option<u64> {
    match unsigned_literal(s) {
        Some(v) => if v <= u64::MAX {
            Some(v as u64)
        } else {
            None
        },
        None => None,
    }
}

/// What `str::parse::<i64>` returns: the literal's value where it fits.
pub open spec fn parsed_i64(s: Seq<char>) -> Option<i64> {
    match signed_literal(s) {
        Some(v) => if i64::MIN <= v <= i64::MAX {
            Some(v as i64)
        } else {
            None
        },
        None => None,
    }
}

/// Unicode upper-casing.
///
/// Trusted: calls `str::to_uppercase`. Claims that the result is the named
/// upper-casing of the text, and that on ASCII text it upper-cases exactly
/// the letters `a`..`z`.
#[verifier::external_body]
pub(crate) fn to_uppercase(s: &str) -> (r: String)
    ensures
        r@ == uppercase_of(s@),
        all_ascii(s@) ==> r@ == s@.map_values(|c: char| ascii_upper(c)),
{
    s.to_uppercase()
}

/// Unicode lower-casing.
///
/// Trusted: calls `str::to_lowercase`. Claims that the result is the named
/// lower-casing of the text, and that on ASCII text it lower-cases exactly
/// the letters `A`..`Z`.
#[verifier::external_body]
pub(crate) fn to_lowercase(s: &str) -> (r: String)
    ensures
        r@ == lowercase_of(s@),
        all_ascii(s@) ==> r@ == s@.map_values(|c: char| ascii_lower(c)),
{
    s.to_lowercase()
}

/// Removes leading and trailing white space.
///
/// Trusted: calls `str::trim`, documented to remove leading and trailing
/// characters with the Unicode `White_Space` property.
#[verifier::external_body]
pub(crate) fn trim(s: &str) -> (r: &str)
    ensures
        r@ == trimmed_of(s@),
{
    s.trim()
}

/// The characters of a text.
pub fn chars_of(s: &str) -> (r: Vec<char>)
    ensures
        r@ == s@,
{
    broadcast use vstd::string::axiom_spec_iter;

    let mut out: Vec<char> = Vec::new();
    for c in it: s.chars()
        invariant
            out@ == it.seq().take(it.index() as int),
    {
        out.push(c);
    }
    out
}

/// The two character vectors are equal.
fn chars_eq(x: &Vec<char>, y: &Vec<char>) -> (r: bool)
    ensures
        r == (x@ == y@),
{
    if x.len() != y.len() {
        return false;
    }
    let mut i: usize = 0;
    while i < x.len()
        invariant
            i <= x@.len(),
            x@.len() == y@.len(),
            forall|k: int| 0 <= k < i ==> x@[k] == y@[k],
        decreases x@.len() - i,
    {
        if x[i] != y[i] {
            return false;
        }
        i += 1;
    }
    proof {
        assert(x@ =~= y@);
    }
    true
}

/// String slices compare equal exactly when they hold the same characters.
pub fn str_eq(a: &str, b: &str) -> (r: bool)
    ensures
        r == (a@ == b@),
{
    chars_eq(&chars_of(a), &chars_of(b))
}

/// `p` occurs in `x` at position `i`.
fn matches_at(x: &Vec<char>, p: &Vec<char>, i: usize) -> (r: bool)
    requires
        i + p@.len() <= x@.len(),
    ensures
        r == occurs_at(x@, p@, i as int),
{
    let n = x.len();
    let mut k: usize = 0;
    while k < p.len()
        invariant
            n == x@.len(),
            i + p@.len() <= x@.len(),
            k <= p@.len(),
            forall|j: int| 0 <= j < k ==> x@[i + j] == p@[j],
        decreases p@.len() - k,
    {
        if x[i + k] != p[k] {
            proof {
                assert(x@.subrange(i as int, i + p@.len())[k as int] != p@[k as int]);
            }
            return false;
        }
        k += 1;
    }
    proof {
        assert(x@.subrange(i as int, i + p@.len()) =~= p@);
    }
    true
}

/// `pat` occurs somewhere in `s` (as `str::contains` tells).
pub fn contains(s: &str, pat: &str) -> (r: bool)
    ensures
        r == exists|i: int| occurs_at(s@, pat@, i),
{
    let x = chars_of(s);
    let p = chars_of(pat);
    if p.len() > x.len() {
        return false;
    }
    if p.len() == 0 {
        proof {
            assert(s@.subrange(0, 0) =~= pat@);
            assert(occurs_at(s@, pat@, 0));
        }
        return true;
    }
    let last = x.len() - p.len();
    let mut i: usize = 0;
    while i <= last
        invariant
            x@ == s@,
            p@ == pat@,
            last == x@.len() - p@.len(),
            x@.len() <= usize::MAX,
            p@.len() > 0,
            i <= last + 1,
            forall|j: int| 0 <= j < i ==> !occurs_at(s@, pat@, j),
        decreases last + 1 - i,
    {
        if matches_at(&x, &p, i) {
            return true;
        }
        i += 1;
    }
    false
}

/// `s` begins with `pat` (as `str::starts_with` tells).
pub fn starts_with(s: &str, pat: &str) -> (r: bool)
    ensures
        r == occurs_at(s@, pat@, 0),
{
    let x = chars_of(s);
    let p = chars_of(pat);
    if p.len() > x.len() {
        return false;
    }
    matches_at(&x, &p, 0)
}

/// The text up to the first `c` (all of it where `c` does not occur), as the
/// first item of `str::split(c)`.
pub fn before_first<'a>(s: &'a str, c: char) -> (r: &'a str)
    ensures
        r@ == prefix_before(s@, c),
{
    let x = chars_of(s);
    let mut i: usize = 0;
    while i < x.len() && x[i] != c
        invariant
            x@ == s@,
            i <= x@.len(),
            char_absent_before(s@, c, i as int),
        decreases x@.len() - i,
    {
        i += 1;
    }
    proof {
        lemma_prefix_before(s@, c, i as int);
    }
    s.substring_char(0, i)
}

/// The value of digits is not negative.
proof fn lemma_digits_value_nonneg(s: Seq<char>)
    requires
        forall|i: int| 0 <= i < s.len() ==> is_digit(#[trigger] s[i]),
    ensures
        digits_value(s) >= 0,
    decreases s.len(),
{
    if s.len() > 0 {
        let p = s.drop_last();
        assert forall|i: int| 0 <= i < p.len() implies is_digit(#[trigger] p[i]) by {
            assert(p[i] == s[i]);
        }
        lemma_digits_value_nonneg(p);
        assert(is_digit(s[s.len() - 1]));
    }
}

/// The value of the digits of `x` from `start` on, where they are one or
/// more digits and the value is at most `limit`.
fn parse_digits(x: &Vec<char>, start: usize, limit: u128) -> (r: Option<u128>)
    requires
        start <= x@.len(),
        limit <= u64::MAX + 1,
    ensures
        r == (if is_digit_run(x@.subrange(start as int, x@.len() as int)) && digits_value(
            x@.subrange(start as int, x@.len() as int),
        ) <= limit {
            Some(digits_value(x@.subrange(start as int, x@.len() as int)) as u128)
        } else {
            None::<u128>
        }),
        r matches Some(v) ==> v <= limit && v == digits_value(x@.subrange(start as int, x@.len() as int)),
{
    let n = x.len();
    let mut acc: u128 = 0;
    let mut over = false;
    let mut i: usize = start;
    while i < n
        invariant
            n == x@.len(),
            start <= i <= n,
            limit <= u64::MAX + 1,
            forall|k: int| start <= k < i ==> is_digit(#[trigger] x@[k]),
            over ==> digits_value(x@.subrange(start as int, i as int)) > limit,
            !over ==> acc == digits_value(x@.subrange(start as int, i as int)) && acc <= limit,
        decreases n - i,
    {
        let c = x[i];
        if !('0' <= c && c <= '9') {
            proof {
                assert(x@.subrange(start as int, n as int)[i - start] == c);
            }
            return None;
        }
        let d = (c as u32 - '0' as u32) as u128;
        let ghost pre = x@.subrange(start as int, i as int);
        let ghost next = x@.subrange(start as int, i + 1);
        proof {
            assert(next.drop_last() =~= pre);
            assert(next.last() == c);
            assert(d == (c as int) - ('0' as int));
            assert forall|k: int| 0 <= k < pre.len() implies is_digit(#[trigger] pre[k]) by {
                assert(pre[k] == x@[start + k]);
            }
            lemma_digits_value_nonneg(pre);
        }
        if !over {
            let v = acc * 10 + d;
            if v > limit {
                over = true;
            } else {
                acc = v;
            }
        }
        i += 1;
    }
    let ghost all = x@.subrange(start as int, n as int);
    proof {
        assert(all =~= x@.subrange(start as int, x@.len() as int));
        assert forall|k: int| 0 <= k < all.len() implies is_digit(#[trigger] all[k]) by {
            assert(all[k] == x@[start + k]);
        }
    }
    if over || i == start {
        None
    } else {
        Some(acc)
    }
}

/// Parses an unsigned 64-bit integer: an optional `+` followed by ASCII
/// digits whose value fits (what `str::parse::<u64>` accepts).
pub fn parse_u64(s: &str) -> (r: Option<u64>)
    ensures
        r == parsed_u64(s@),
{
    let x = chars_of(s);
    let start: usize = if x.len() > 0 && x[0] == '+' {
        1
    } else {
        0
    };
    proof {
        if start == 1 {
            assert(x@.subrange(1, x@.len() as int) =~= s@.drop_first());
        } else {
            assert(x@.subrange(0, x@.len() as int) =~= s@);
        }
    }
    match parse_digits(&x, start, 18446744073709551615u128) {
        Some(v) => Some(v as u64),
        None => None,
    }
}

/// Parses a signed 64-bit integer: an optional `+` or `-` followed by
/// ASCII digits whose value fits (what `str::parse::<i64>` accepts).
pub fn parse_i64(s: &str) -> (r: Option<i64>)
    ensures
        r == parsed_i64(s@),
{
    let x = chars_of(s);
    if x.len() > 0 && x[0] == '-' {
        proof {
            assert(x@.subrange(1, x@.len() as int) =~= s@.drop_first());
        }
        match parse_digits(&x, 1, 9223372036854775808u128) {
            Some(v) => {
                if v == 9223372036854775808u128 {
                    Some(i64::MIN)
                } else {
                    Some(-(v as i64))
                }
            },
            None => None,
        }
    } else {
        let start: usize = if x.len() > 0 && x[0] == '+' {
            1
        } else {
            0
        };
        proof {
            if start == 1 {
                assert(x@.subrange(1, x@.len() as int) =~= s@.drop_first());
            } else {
                assert(x@.subrange(0, x@.len() as int) =~= s@);
            }
        }
        match parse_digits(&x, start, 9223372036854775807u128) {
            Some(v) => Some(v as i64),
            None => None,
        }
    }
}

} // verus!
