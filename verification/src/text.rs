//! Line handling for the prompts: trimming what the user typed, optional
//! answers, decimal numbers with a fallback, and yes/no confirmation.

use vstd::prelude::*;

verus! {

/// Whether `c` carries the Unicode `White_Space` property (the characters
/// std's `char::is_whitespace` and `str::trim` treat as white space):
/// U+0009..=U+000D, U+0020, U+0085, U+00A0, U+1680, U+2000..=U+200A, U+2028,
/// U+2029, U+202F, U+205F and U+3000.
pub open spec fn unicode_white_space(c: char) -> bool {
    ||| '\u{9}' <= c <= '\u{d}'
    ||| c == ' '
    ||| c == '\u{85}'
    ||| c == '\u{a0}'
    ||| c == '\u{1680}'
    ||| '\u{2000}' <= c <= '\u{200a}'
    ||| c == '\u{2028}'
    ||| c == '\u{2029}'
    ||| c == '\u{202f}'
    ||| c == '\u{205f}'
    ||| c == '\u{3000}'
}

/// Whether `c` is white space.
pub fn is_whitespace(c: char) -> (b: bool)
    ensures
        b == unicode_white_space(c),
{
    ('\u{9}' <= c && c <= '\u{d}') || c == ' ' || c == '\u{85}' || c == '\u{a0}' || c
        == '\u{1680}' || ('\u{2000}' <= c && c <= '\u{200a}') || c == '\u{2028}' || c
        == '\u{2029}' || c == '\u{202f}' || c == '\u{205f}' || c == '\u{3000}'
}

/// The characters of an optional owned string.
pub open spec fn opt_text(o: Option<String>) -> Option<Seq<char>> {
    match o {
        Some(s) => Some(s@),
        None => None,
    }
}

/// The characters of an optional string slice.
pub open spec fn opt_str(o: Option<&str>) -> Option<Seq<char>> {
    match o {
        Some(s) => Some(s@),
        None => None,
    }
}

/// Borrows the text of an optional owned string.
pub fn as_str_opt(s: &Option<String>) -> (r: Option<&str>)
    ensures
        opt_str(r) == opt_text(*s),
{
    match s {
        Some(t) => Some(t.as_str()),
        None => None,
    }
}

/// `s` with all leading and trailing white space removed.
pub open spec fn trimmed(s: Seq<char>) -> Seq<char>
    decreases s.len(),
{
    if s.len() == 0 {
        s
    } else if unicode_white_space(s[0]) {
        trimmed(s.drop_first())
    } else if unicode_white_space(s.last()) {
        trimmed(s.drop_last())
    } else {
        s
    }
}

/// What trimming keeps starts and ends with a character that is not white
/// space, and trimming it again changes nothing.
pub proof fn trimming_leaves_no_outer_white_space(s: Seq<char>)
    ensures
        trimmed(s).len() > 0 ==> !unicode_white_space(trimmed(s)[0]) && !unicode_white_space(
            trimmed(s).last(),
        ),
        trimmed(trimmed(s)) == trimmed(s),
    decreases s.len(),
{
    if s.len() == 0 {
    } else if unicode_white_space(s[0]) {
        trimming_leaves_no_outer_white_space(s.drop_first());
    } else if unicode_white_space(s.last()) {
        trimming_leaves_no_outer_white_space(s.drop_last());
    }
}

/// The answer to an optional prompt: nothing when reading failed or the
/// trimmed line is empty, the trimmed line otherwise.
pub open spec fn optional_answer(raw: Option<Seq<char>>) -> Option<Seq<char>> {
    match raw {
        Some(line) => if trimmed(line).len() == 0 {
            None
        } else {
            Some(trimmed(line))
        },
        None => None,
    }
}

/// `s[i..j]` is what trimming leaves when everything outside it is white
/// space and its two ends are not.
proof fn lemma_trimmed_is_window(s: Seq<char>, i: int, j: int)
    requires
        0 <= i <= j <= s.len(),
        forall|k: int| 0 <= k < i ==> unicode_white_space(#[trigger] s[k]),
        forall|k: int| j <= k < s.len() ==> unicode_white_space(#[trigger] s[k]),
        i < j ==> !unicode_white_space(s[i]) && !unicode_white_space(s[j - 1]),
    ensures
        trimmed(s) == s.subrange(i, j),
    decreases s.len(),
{
    if s.len() == 0 {
        assert(s.subrange(i, j) =~= s);
    } else if i > 0 {
        let t = s.drop_first();
        assert forall|k: int| 0 <= k < i - 1 implies unicode_white_space(#[trigger] t[k]) by {
            assert(t[k] == s[k + 1]);
        }
        assert forall|k: int| j - 1 <= k < t.len() implies unicode_white_space(#[trigger] t[k]) by {
            assert(t[k] == s[k + 1]);
        }
        lemma_trimmed_is_window(t, i - 1, j - 1);
        assert(t.subrange(i - 1, j - 1) =~= s.subrange(i, j));
    } else if j == 0 {
        assert(unicode_white_space(s[0]));
        let t = s.drop_first();
        assert forall|k: int| 0 <= k < t.len() implies unicode_white_space(#[trigger] t[k]) by {
            assert(t[k] == s[k + 1]);
        }
        lemma_trimmed_is_window(t, 0, 0);
        assert(t.subrange(0, 0) =~= s.subrange(0, 0));
    } else if j < s.len() {
        assert(unicode_white_space(s[s.len() - 1]));
        let t = s.drop_last();
        lemma_trimmed_is_window(t, 0, j);
        assert(t.subrange(0, j) =~= s.subrange(0, j));
    } else {
        assert(s.subrange(0, j) =~= s);
    }
}

/// The line with leading and trailing white space removed (what the prompts
/// keep of each line they read).
pub fn trim_line(raw: &str) -> (res: String)
    ensures
        res@ == trimmed(raw@),
{
    let n = raw.unicode_len();
    let mut i: usize = 0;
    while i < n && is_whitespace(raw.get_char(i))
        invariant
            n == raw@.len(),
            i <= n,
            forall|k: int| 0 <= k < i ==> unicode_white_space(#[trigger] raw@[k]),
        decreases n - i,
    {
        i = i + 1;
    }
    let mut j: usize = n;
    while j > i && is_whitespace(raw.get_char(j - 1))
        invariant
            n == raw@.len(),
            i <= j <= n,
            forall|k: int| j <= k < n ==> unicode_white_space(#[trigger] raw@[k]),
        decreases j - i,
    {
        j = j - 1;
    }
    proof {
        if i < j {
            assert(!unicode_white_space(raw@[i as int]));
            assert(!unicode_white_space(raw@[j - 1]));
        }
        lemma_trimmed_is_window(raw@, i as int, j as int);
    }
    String::from_str(raw.substring_char(i, j))
}

/// Turns the outcome of reading an optional prompt into its answer: `None`
/// when the read failed (`raw` is `None`) or the line is blank, otherwise
/// the trimmed line.
pub fn read_line_opt(raw: Option<&str>) -> (res: Option<String>)
    ensures
        opt_text(res) == optional_answer(opt_str(raw)),
{
    match raw {
        None => None,
        Some(line) => {
            let t = trim_line(line);
            if t.unicode_len() == 0 {
                None
            } else {
                Some(t)
            }
        },
    }
}

/// Whether two strings hold the same characters.
pub fn same_text(a: &str, b: &str) -> (res: bool)
    ensures
        res == (a@ == b@),
{
    let n = a.unicode_len();
    if n != b.unicode_len() {
        return false;
    }
    let mut i: usize = 0;
    while i < n
        invariant
            n == a@.len(),
            n == b@.len(),
            i <= n,
            forall|k: int| 0 <= k < i ==> a@[k] == b@[k],
        decreases n - i,
    {
        if a.get_char(i) != b.get_char(i) {
            return false;
        }
        i = i + 1;
    }
    assert(a@ =~= b@);
    true
}

/// An answer to "确认下单? (y/n)" that accepts the order: `y`, in either case.
pub open spec fn is_yes(s: Seq<char>) -> bool {
    s == seq!['y'] || s == seq!['Y']
}

/// Whether the answer accepts (an ASCII-case-insensitive match of `y`).
pub fn confirms(answer: &str) -> (res: bool)
    ensures
        res == is_yes(answer@),
        res <==> answer@.len() == 1 && (answer@[0] == 'y' || answer@[0] == 'Y'),
{
    if answer.unicode_len() != 1 {
        return false;
    }
    let c = answer.get_char(0);
    assert(answer@ =~= seq![c]);
    c == 'y' || c == 'Y'
}

pub open spec fn is_digit(c: char) -> bool {
    '0' <= c <= '9'
}

pub open spec fn all_digits(s: Seq<char>) -> bool {
    forall|k: int| 0 <= k < s.len() ==> is_digit(#[trigger] s[k])
}

pub open spec fn digit_value(c: char) -> int {
    c as int - '0' as int
}

/// The number that a string of decimal digits denotes.
pub open spec fn digits_value(s: Seq<char>) -> int
    decreases s.len(),
{
    if s.len() == 0 {
        0
    } else {
        10 * digits_value(s.drop_last()) + digit_value(s.last())
    }
}

/// The integer that `s` writes: an optional `+` or `-`, then one or more
/// decimal digits and nothing else.
pub open spec fn numeral_value(s: Seq<char>) -> Option<int> {
    if s.len() > 0 && (s[0] == '+' || s[0] == '-') {
        let body = s.drop_first();
        if body.len() > 0 && all_digits(body) {
            Some(
                if s[0] == '-' {
                    -digits_value(body)
                } else {
                    digits_value(body)
                },
            )
        } else {
            None
        }
    } else if s.len() > 0 && all_digits(s) {
        Some(digits_value(s))
    } else {
        None
    }
}

/// The integer `s` writes, if it lies within `lo..=hi`.
pub open spec fn numeral_within(s: Seq<char>, lo: int, hi: int) -> Option<int> {
    match numeral_value(s) {
        Some(v) => if lo <= v <= hi {
            Some(v)
        } else {
            None
        },
        None => None,
    }
}

proof fn lemma_digits_value_nonneg(s: Seq<char>)
    requires
        all_digits(s),
    ensures
        digits_value(s) >= 0,
    decreases s.len(),
{
    if s.len() > 0 {
        lemma_digits_value_nonneg(s.drop_last());
    }
}

/// Appending digits never makes the value smaller.
proof fn lemma_digits_value_prefix(s: Seq<char>, k: int)
    requires
        all_digits(s),
        0 <= k <= s.len(),
    ensures
        digits_value(s.take(k)) <= digits_value(s),
    decreases s.len(),
{
    if k == s.len() {
        assert(s.take(k) =~= s);
    } else {
        let t = s.drop_last();
        lemma_digits_value_nonneg(t);
        lemma_digits_value_prefix(t, k);
        assert(t.take(k) =~= s.take(k));
    }
}

/// Parses a decimal `i64` as std's `str::parse` does: an optional sign, then
/// one or more ASCII digits; `None` for anything else or a value out of range.
pub fn parse_i64(s: &str) -> (res: Option<i64>)
    ensures
        match res {
            Some(v) => numeral_within(s@, i64::MIN as int, i64::MAX as int) == Some(v as int),
            None => numeral_within(s@, i64::MIN as int, i64::MAX as int) is None,
        },
{
    let n = s.unicode_len();
    if n == 0 {
        return None;
    }
    let first = s.get_char(0);
    let negative = first == '-';
    let start: usize = if first == '+' || first == '-' {
        1
    } else {
        0
    };
    if start == n {
        return None;
    }
    let ghost body = s@.subrange(start as int, n as int);
    proof {
        assert(first == s@[0]);
        if start == 1 {
            assert(body =~= s@.drop_first());
        } else {
            assert(body =~= s@);
        }
    }
    let mut acc: u64 = 0;
    let mut i: usize = start;
    while i < n
        invariant
            n == s@.len(),
            start <= i <= n,
            start < n,
            body == s@.subrange(start as int, n as int),
            start == 1 ==> body == s@.drop_first(),
            start == 0 ==> body == s@,
            (start == 1) == (s@[0] == '+' || s@[0] == '-'),
            start == 0 || start == 1,
            all_digits(body.take(i - start)),
            acc as int == digits_value(body.take(i - start)),
        decreases n - i,
    {
        let c = s.get_char(i);
        let ghost k = i - start;
        assert(body[k] == c);
        if !('0' <= c && c <= '9') {
            assert(!all_digits(body));
            return None;
        }
        let d = (c as u32 - '0' as u32) as u64;
        assert(body.take(k + 1).drop_last() =~= body.take(k));
        assert(all_digits(body.take(k + 1)));
        match acc.checked_mul(10) {
            None => {
                proof {
                    lemma_digits_value_prefix(body.take(k), k);
                    lemma_too_large(body, k + 1);
                }
                return None;
            },
            Some(m) => match m.checked_add(d) {
                None => {
                    proof {
                        lemma_too_large(body, k + 1);
                    }
                    return None;
                },
                Some(v) => {
                    acc = v;
                },
            },
        }
        i = i + 1;
    }
    assert(body.take(n - start) =~= body);
    if negative {
        if acc <= 9223372036854775808u64 {
            if acc == 9223372036854775808u64 {
                Some(i64::MIN)
            } else {
                Some(-(acc as i64))
            }
        } else {
            None
        }
    } else if acc <= 9223372036854775807u64 {
        Some(acc as i64)
    } else {
        None
    }
}

/// Once a prefix of the digits is beyond `u64`, so is the whole numeral,
/// which then lies outside the range of `i64` or is no numeral at all.
proof fn lemma_too_large(body: Seq<char>, k: int)
    requires
        0 < k <= body.len(),
        all_digits(body.take(k)),
        digits_value(body.take(k)) > u64::MAX,
    ensures
        !all_digits(body) || digits_value(body) > u64::MAX,
{
    if all_digits(body) {
        lemma_digits_value_prefix(body, k);
    }
}

/// Parses a decimal `i32` as std's `str::parse` does.
pub fn parse_i32(s: &str) -> (res: Option<i32>)
    ensures
        match res {
            Some(v) => numeral_within(s@, i32::MIN as int, i32::MAX as int) == Some(v as int),
            None => numeral_within(s@, i32::MIN as int, i32::MAX as int) is None,
        },
{
    match parse_i64(s) {
        Some(v) => if i32::MIN as i64 <= v && v <= i32::MAX as i64 {
            Some(v as i32)
        } else {
            None
        },
        None => None,
    }
}

/// The `i32` that `s` writes, or `default` when it writes none.
pub open spec fn i32_or(s: Seq<char>, default: i32) -> int {
    match numeral_within(s, i32::MIN as int, i32::MAX as int) {
        Some(v) => v,
        None => default as int,
    }
}

/// The `i64` that `s` writes, or `default` when it writes none.
pub open spec fn i64_or(s: Seq<char>, default: i64) -> int {
    match numeral_within(s, i64::MIN as int, i64::MAX as int) {
        Some(v) => v,
        None => default as int,
    }
}

/// `s.parse::<i32>().unwrap_or(default)`.
pub fn parse_i32_or(s: &str, default: i32) -> (res: i32)
    ensures
        res as int == i32_or(s@, default),
{
    match parse_i32(s) {
        Some(v) => v,
        None => default,
    }
}

/// `s.parse::<i64>().unwrap_or(default)`.
pub fn parse_i64_or(s: &str, default: i64) -> (res: i64)
    ensures
        res as int == i64_or(s@, default),
{
    match parse_i64(s) {
        Some(v) => v,
        None => default,
    }
}

} // verus!
