//! Character-level text helpers shared by the parsers and formatters.
//!
//! Strings are modelled by their characters (`s@`, a `Seq<char>`).  The
//! whitespace set is Unicode's `White_Space` property, which is what
//! `char::is_whitespace`, `str::trim` and `str::split_whitespace` use.

use vstd::prelude::*;

verus! {

broadcast use vstd::string::axiom_spec_iter;

/// Unicode `White_Space`: the characters that `char::is_whitespace` accepts.
pub open spec fn is_ws(c: char) -> bool {
    ||| '\t' <= c <= '\r'
    ||| c == ' '
    ||| c == '\u{85}'
    ||| c == '\u{A0}'
    ||| c == '\u{1680}'
    ||| '\u{2000}' <= c <= '\u{200A}'
    ||| c == '\u{2028}'
    ||| c == '\u{2029}'
    ||| c == '\u{202F}'
    ||| c == '\u{205F}'
    ||| c == '\u{3000}'
}

/// Executable test of `is_ws`.
pub fn is_ws_char(c: char) -> (r: bool)
    ensures
        r == is_ws(c),
{
    ('\t' <= c && c <= '\r') || c == ' ' || c == '\u{85}' || c == '\u{A0}' || c == '\u{1680}'
        || ('\u{2000}' <= c && c <= '\u{200A}') || c == '\u{2028}' || c == '\u{2029}'
        || c == '\u{202F}' || c == '\u{205F}' || c == '\u{3000}'
}

/// True when every character of `s` is whitespace (so `s.trim()` is empty).
pub open spec fn all_ws(s: Seq<char>) -> bool {
    forall|i: int| 0 <= i < s.len() ==> is_ws(#[trigger] s[i])
}

/// Index of the first non-whitespace character at or after `i` (or `s.len()`).
pub open spec fn skip_ws(s: Seq<char>, i: int) -> int
    decreases s.len() - i,
{
    if i < 0 || i >= s.len() {
        s.len() as int
    } else if is_ws(s[i]) {
        skip_ws(s, i + 1)
    } else {
        i
    }
}

/// Index of the first whitespace character at or after `i` (or `s.len()`).
pub open spec fn run_end(s: Seq<char>, i: int) -> int
    decreases s.len() - i,
{
    if i < 0 || i >= s.len() {
        s.len() as int
    } else if !is_ws(s[i]) {
        run_end(s, i + 1)
    } else {
        i
    }
}

pub proof fn lemma_skip_ws_bounds(s: Seq<char>, i: int)
    requires
        0 <= i <= s.len(),
    ensures
        i <= skip_ws(s, i) <= s.len(),
        skip_ws(s, i) < s.len() ==> !is_ws(s[skip_ws(s, i)]),
        forall|k: int| i <= k < skip_ws(s, i) ==> is_ws(#[trigger] s[k]),
    decreases s.len() - i,
{
    if i < s.len() && is_ws(s[i]) {
        lemma_skip_ws_bounds(s, i + 1);
    }
}

pub proof fn lemma_run_end_bounds(s: Seq<char>, i: int)
    requires
        0 <= i <= s.len(),
    ensures
        i <= run_end(s, i) <= s.len(),
        run_end(s, i) < s.len() ==> is_ws(s[run_end(s, i)]),
        forall|k: int| i <= k < run_end(s, i) ==> !is_ws(#[trigger] s[k]),
    decreases s.len() - i,
{
    if i < s.len() && !is_ws(s[i]) {
        lemma_run_end_bounds(s, i + 1);
    }
}

/// The whitespace-separated words of `s` from index `i` on, as
/// `str::split_whitespace` yields them.
pub open spec fn words_from(s: Seq<char>, i: int) -> Seq<Seq<char>>
    decreases s.len() - i,
{
    if i < 0 || i >= s.len() {
        Seq::empty()
    } else {
        let j = skip_ws(s, i);
        if j >= s.len() {
            Seq::empty()
        } else {
            let k = run_end(s, j);
            if j < i || k <= j || k > s.len() {
                Seq::empty()
            } else {
                seq![s.subrange(j, k)] + words_from(s, k)
            }
        }
    }
}

/// `str::split_whitespace`.
pub open spec fn words(s: Seq<char>) -> Seq<Seq<char>> {
    words_from(s, 0)
}

/// Index of the first non-whitespace character at or after `i`.
pub fn skip_ws_exec(s: &Vec<char>, i: usize) -> (r: usize)
    requires
        i <= s@.len(),
    ensures
        r == skip_ws(s@, i as int),
{
    let mut j = i;
    while j < s.len() && is_ws_char(s[j])
        invariant
            i <= j <= s@.len(),
            skip_ws(s@, i as int) == skip_ws(s@, j as int),
        decreases s@.len() - j,
    {
        j = j + 1;
    }
    j
}

/// Index of the first whitespace character at or after `i`.
pub fn run_end_exec(s: &Vec<char>, i: usize) -> (r: usize)
    requires
        i <= s@.len(),
    ensures
        r == run_end(s@, i as int),
{
    let mut j = i;
    while j < s.len() && !is_ws_char(s[j])
        invariant
            i <= j <= s@.len(),
            run_end(s@, i as int) == run_end(s@, j as int),
        decreases s@.len() - j,
    {
        j = j + 1;
    }
    j
}

/// The first `n` words of `s` (fewer when `s` has fewer words), as the first
/// items that `split_whitespace` yields.
pub fn first_words(s: &Vec<char>, n: usize) -> (r: Vec<Vec<char>>)
    ensures
        r@.len() == if words(s@).len() < n { words(s@).len() } else { n as nat },
        forall|k: int| 0 <= k < r@.len() ==> #[trigger] r@[k]@ == words(s@)[k],
{
    let mut out: Vec<Vec<char>> = Vec::new();
    let mut i: usize = 0;
    let ghost mut taken: Seq<Seq<char>> = Seq::empty();
    let mut done = false;
    while out.len() < n && !done
        invariant
            done ==> words_from(s@, i as int).len() == 0,
            i <= s@.len(),
            out@.len() <= n,
            taken.len() == out@.len(),
            forall|k: int| 0 <= k < out@.len() ==> #[trigger] out@[k]@ == taken[k],
            words(s@) == taken + words_from(s@, i as int),
        decreases (if done { 0int } else { 1int }), s@.len() - i,
    {
        let j = skip_ws_exec(s, i);
        proof {
            lemma_skip_ws_bounds(s@, i as int);
        }
        if j >= s.len() {
            assert(words_from(s@, i as int) == Seq::<Seq<char>>::empty());
            done = true;
        } else {
        let k = run_end_exec(s, j);
        proof {
            lemma_run_end_bounds(s@, j as int);
        }
        let mut w: Vec<char> = Vec::new();
        let mut m = j;
        while m < k
            invariant
                j <= m <= k <= s@.len(),
                w@ == s@.subrange(j as int, m as int),
            decreases k - m,
        {
            w.push(s[m]);
            m = m + 1;
        }
        proof {
            let ws = s@.subrange(j as int, k as int);
            assert(words_from(s@, i as int) == seq![ws] + words_from(s@, k as int));
            assert(taken.push(ws) + words_from(s@, k as int) =~= taken + (seq![ws] + words_from(
                s@,
                k as int,
            )));
            taken = taken.push(ws);
        }
        out.push(w);
        i = k;
        }
    }
    proof {
        if out@.len() < n {
            assert(words_from(s@, i as int).len() == 0);
        }
        assert(words(s@).len() == taken.len() + words_from(s@, i as int).len());
        assert forall|k: int| 0 <= k < out@.len() implies #[trigger] out@[k]@ == words(s@)[k] by {
            assert(words(s@)[k] == (taken + words_from(s@, i as int))[k]);
        }
    }
    out
}

/// Index one past the last non-whitespace character in `s[..j]` (0 if none).
pub open spec fn trim_end_idx(s: Seq<char>, j: int) -> int
    decreases j,
{
    if j <= 0 || j > s.len() {
        0
    } else if is_ws(s[j - 1]) {
        trim_end_idx(s, j - 1)
    } else {
        j
    }
}

/// `str::trim`: `s` without leading and trailing whitespace.
pub open spec fn trim(s: Seq<char>) -> Seq<char> {
    let a = skip_ws(s, 0);
    let b = trim_end_idx(s, s.len() as int);
    if a >= b {
        Seq::empty()
    } else {
        s.subrange(a, b)
    }
}

pub proof fn lemma_trim_end_bounds(s: Seq<char>, j: int)
    requires
        0 <= j <= s.len(),
    ensures
        0 <= trim_end_idx(s, j) <= j,
        trim_end_idx(s, j) > 0 ==> !is_ws(s[trim_end_idx(s, j) - 1]),
        forall|k: int| trim_end_idx(s, j) <= k < j ==> is_ws(#[trigger] s[k]),
    decreases j,
{
    if j > 0 && is_ws(s[j - 1]) {
        lemma_trim_end_bounds(s, j - 1);
    }
}

/// Index one past the last non-whitespace character of `s[..j]`.
pub fn trim_end_exec(s: &Vec<char>, j: usize) -> (r: usize)
    requires
        j <= s@.len(),
    ensures
        r == trim_end_idx(s@, j as int),
{
    let mut e = j;
    while e > 0 && is_ws_char(s[e - 1])
        invariant
            e <= j <= s@.len(),
            trim_end_idx(s@, j as int) == trim_end_idx(s@, e as int),
        decreases e,
    {
        e = e - 1;
    }
    e
}

proof fn lemma_skip_ws_in_trim(s: Seq<char>, a: int, b: int, i: int)
    requires
        0 <= a <= i <= b <= s.len(),
        forall|k: int| b <= k < s.len() ==> is_ws(#[trigger] s[k]),
    ensures
        skip_ws(s, i) < b ==> skip_ws(s.subrange(a, b), i - a) == skip_ws(s, i) - a,
        skip_ws(s, i) >= b ==> skip_ws(s.subrange(a, b), i - a) == b - a && skip_ws(s, i)
            == s.len(),
    decreases b - i,
{
    let t = s.subrange(a, b);
    if i == b {
        lemma_skip_ws_bounds(s, b);
    } else {
        assert(t[i - a] == s[i]);
        if is_ws(s[i]) {
            lemma_skip_ws_in_trim(s, a, b, i + 1);
        }
    }
}

proof fn lemma_run_end_in_trim(s: Seq<char>, a: int, b: int, j: int)
    requires
        0 <= a <= j <= b <= s.len(),
        forall|k: int| b <= k < s.len() ==> is_ws(#[trigger] s[k]),
    ensures
        run_end(s.subrange(a, b), j - a) + a == run_end(s, j),
        run_end(s, j) <= b,
    decreases b - j,
{
    let t = s.subrange(a, b);
    if j < b {
        assert(t[j - a] == s[j]);
        if !is_ws(s[j]) {
            lemma_run_end_in_trim(s, a, b, j + 1);
        }
    }
}

proof fn lemma_words_in_trim(s: Seq<char>, a: int, b: int, i: int)
    requires
        0 <= a <= i <= b <= s.len(),
        forall|k: int| b <= k < s.len() ==> is_ws(#[trigger] s[k]),
    ensures
        words_from(s.subrange(a, b), i - a) == words_from(s, i),
    decreases b - i,
{
    let t = s.subrange(a, b);
    if i < s.len() {
        lemma_skip_ws_in_trim(s, a, b, i);
        lemma_skip_ws_bounds(s, i);
        let j = skip_ws(s, i);
        if j < s.len() {
            lemma_run_end_in_trim(s, a, b, j);
            lemma_run_end_bounds(s, j);
            let k = run_end(s, j);
            assert(t.subrange(j - a, k - a) =~= s.subrange(j, k));
            lemma_words_in_trim(s, a, b, k);
        }
    }
}

proof fn lemma_words_from_skip(s: Seq<char>, i: int)
    requires
        0 <= i <= s.len(),
    ensures
        words_from(s, i) == words_from(s, skip_ws(s, i)),
{
    lemma_skip_ws_bounds(s, i);
    let j = skip_ws(s, i);
    if j < s.len() {
        assert(skip_ws(s, j) == j);
    }
}

/// Trimming does not change the words: `s.trim().split_whitespace()` yields
/// what `s.split_whitespace()` yields.
pub proof fn lemma_words_of_trim(s: Seq<char>)
    ensures
        words(trim(s)) == words(s),
{
    let a = skip_ws(s, 0);
    let b = trim_end_idx(s, s.len() as int);
    lemma_skip_ws_bounds(s, 0);
    lemma_trim_end_bounds(s, s.len() as int);
    lemma_words_from_skip(s, 0);
    if a >= b {
        if a < s.len() {
            assert(!is_ws(s[a]));
        }
        assert(words(trim(s)) == Seq::<Seq<char>>::empty());
    } else {
        lemma_words_in_trim(s, a, b, a);
    }
}

/// A line is blank (`line.trim().is_empty()`) exactly when all its
/// characters are whitespace.
pub proof fn lemma_trim_empty_iff_all_ws(s: Seq<char>)
    ensures
        (trim(s).len() == 0) == all_ws(s),
{
    lemma_skip_ws_bounds(s, 0);
    lemma_trim_end_bounds(s, s.len() as int);
    let a = skip_ws(s, 0);
    let b = trim_end_idx(s, s.len() as int);
    if !all_ws(s) {
        let k = choose|k: int| 0 <= k < s.len() && !is_ws(#[trigger] s[k]);
        assert(a <= k < b);
    }
}

/// An ASCII decimal digit.
pub open spec fn is_digit(c: char) -> bool {
    '0' <= c <= '9'
}

/// The value of the digit character `c`.
pub open spec fn digit_value(c: char) -> nat {
    (c as u32 - '0' as u32) as nat
}

/// The value of a run of decimal digits (most significant first).
pub open spec fn digits_value(s: Seq<char>) -> nat
    decreases s.len(),
{
    if s.len() == 0 {
        0
    } else {
        digits_value(s.drop_last()) * 10 + digit_value(s.last())
    }
}

/// Every character of `s` is an ASCII digit.
pub open spec fn all_digits(s: Seq<char>) -> bool {
    forall|i: int| 0 <= i < s.len() ==> is_digit(#[trigger] s[i])
}

/// `s` without one leading `+`, if it has one.
pub open spec fn strip_plus(s: Seq<char>) -> Seq<char> {
    if s.len() > 0 && s[0] == '+' {
        s.drop_first()
    } else {
        s
    }
}

/// What `str::parse` gives for an unsigned integer type whose largest value
/// is `max`: an optional `+`, then one or more ASCII digits, and a value that
/// fits.
pub open spec fn parse_unsigned(s: Seq<char>, max: nat) -> Option<nat> {
    let d = strip_plus(s);
    if d.len() > 0 && all_digits(d) && digits_value(d) <= max {
        Some(digits_value(d))
    } else {
        None
    }
}

/// Parses `s[start..end]` as an unsigned decimal no larger than `max`, with
/// the grammar of `str::parse` for unsigned integers.
pub fn parse_unsigned_range(s: &Vec<char>, start: usize, end: usize, max: u64) -> (r: Option<u64>)
    requires
        start <= end <= s@.len(),
    ensures
        r matches Some(v) ==> parse_unsigned(s@.subrange(start as int, end as int), max as nat)
            == Some(v as nat),
        r is None ==> parse_unsigned(s@.subrange(start as int, end as int), max as nat) is None,
{
    let ghost whole = s@.subrange(start as int, end as int);
    let mut first = start;
    if start < end && s[start] == '+' {
        first = start + 1;
    }
    let ghost d = s@.subrange(first as int, end as int);
    assert(d == strip_plus(whole));
    if first >= end {
        return None;
    }
    let mut v: u64 = 0;
    let mut over = false;
    let mut i = first;
    while i < end
        invariant
            start <= first <= i <= end <= s@.len(),
            d == s@.subrange(first as int, end as int),
            whole == s@.subrange(start as int, end as int),
            d == strip_plus(whole),
            forall|k: int| first <= k < i ==> is_digit(#[trigger] s@[k]),
            over <==> digits_value(s@.subrange(first as int, i as int)) > max,
            !over ==> v == digits_value(s@.subrange(first as int, i as int)),
        decreases end - i,
    {
        let c = s[i];
        if !('0' <= c && c <= '9') {
            assert(d[i - first] == c);
            assert(!is_digit(d[i - first]));
            assert(!all_digits(d));
            return None;
        }
        let dv = (c as u32 - '0' as u32) as u64;
        proof {
            let p = s@.subrange(first as int, i + 1);
            assert(p.drop_last() =~= s@.subrange(first as int, i as int));
            assert(digits_value(p) == digits_value(p.drop_last()) * 10 + digit_value(c));
        }
        if !over {
            let w: u128 = (v as u128) * 10 + (dv as u128);
            if w > max as u128 {
                over = true;
            } else {
                v = w as u64;
            }
        }
        i = i + 1;
    }
    assert(s@.subrange(first as int, end as int) == d);
    assert forall|k: int| 0 <= k < d.len() implies is_digit(#[trigger] d[k]) by {
        assert(d[k] == s@[first + k]);
    }
    assert(all_digits(d));
    if over {
        None
    } else {
        Some(v)
    }
}

/// The ASCII decimal digit character for `d < 10`.
pub open spec fn digit_char(d: nat) -> char {
    ((d + 48) as u8) as char
}

/// The decimal representation of `n`, without leading zeros.
pub open spec fn decimal(n: nat) -> Seq<char>
    decreases n,
{
    if n < 10 {
        seq![digit_char(n)]
    } else {
        decimal(n / 10).push(digit_char(n % 10))
    }
}

/// The decimal representation of `n` is a non-empty run of digits whose
/// value is `n`.
pub proof fn lemma_decimal_digits(n: nat)
    ensures
        decimal(n).len() > 0,
        all_digits(decimal(n)),
        digits_value(decimal(n)) == n,
    decreases n,
{
    let c = digit_char(n % 10);
    assert(is_digit(c) && digit_value(c) == n % 10) by {
        assert(((n % 10 + 48) as u8) as u32 == n % 10 + 48);
    }
    if n >= 10 {
        lemma_decimal_digits(n / 10);
        let d = decimal(n / 10);
        assert(decimal(n) == d.push(c));
        assert(d.push(c).drop_last() =~= d);
        assert(d.push(c).last() == c);
        assert(digits_value(d.push(c)) == digits_value(d) * 10 + digit_value(c));
        assert(n / 10 * 10 + n % 10 == n);
        assert forall|i: int| 0 <= i < decimal(n).len() implies is_digit(#[trigger] decimal(n)[i]) by {
            if i < d.len() {
                assert(decimal(n)[i] == d[i]);
            }
        }
    } else {
        assert(decimal(n) =~= seq![c]);
        assert(seq![c].drop_last() =~= Seq::<char>::empty());
        assert(seq![c].last() == c);
        assert(digits_value(seq![c]) == digits_value(Seq::<char>::empty()) * 10 + digit_value(c));
        assert(n % 10 == n);
    }
}

/// The decimal digits of `n`.
pub fn decimal_chars(n: u128) -> (r: Vec<char>)
    ensures
        r@ == decimal(n as nat),
{
    let mut q = n;
    let mut tail: Vec<char> = Vec::new();
    while q >= 10
        invariant
            decimal(n as nat) == decimal(q as nat) + tail@,
        decreases q,
    {
        let c = ((q % 10) as u8 + 48u8) as char;
        proof {
            assert(decimal(q as nat) == decimal((q / 10) as nat).push(digit_char((q % 10) as nat)));
            assert(decimal((q / 10) as nat).push(c) + tail@ =~= decimal((q / 10) as nat) + (seq![c]
                + tail@));
        }
        tail.insert(0, c);
        q = q / 10;
    }
    let c = (q as u8 + 48u8) as char;
    tail.insert(0, c);
    assert(decimal(n as nat) =~= tail@);
    tail
}

/// Appends the characters of `cs` to `s`.
pub fn push_chars(s: &mut String, cs: &Vec<char>)
    ensures
        final(s)@ == old(s)@ + cs@,
{
    let mut i: usize = 0;
    while i < cs.len()
        invariant
            i <= cs@.len(),
            s@ == old(s)@ + cs@.subrange(0, i as int),
        decreases cs@.len() - i,
    {
        push_char(s, cs[i]);
        assert(old(s)@ + cs@.subrange(0, i + 1) =~= (old(s)@ + cs@.subrange(0, i as int)).push(
            cs@[i as int],
        ));
        i = i + 1;
    }
    assert(cs@.subrange(0, cs@.len() as int) =~= cs@);
}

/// Appends one character to `s` (`String::push`).
#[verifier::external_body]
pub(crate) fn push_char(s: &mut String, c: char)
    ensures
        final(s)@ == old(s)@.push(c),
{
    s.push(c)
}

/// The characters of a string slice, in order.
pub fn chars_of(s: &str) -> (r: Vec<char>)
    ensures
        r@ == s@,
{
    let mut v: Vec<char> = Vec::new();
    for c in it: s.chars()
        invariant
            v@ == it.seq().take(it.index()),
    {
        v.push(c);
    }
    v
}

/// Appends a string slice to `s` (`String::push_str`).
#[verifier::external_body]
pub(crate) fn push_str(s: &mut String, t: &str)
    ensures
        final(s)@ == old(s)@ + t@,
{
    s.push_str(t)
}

/// Appends the decimal representation of `n` to `s`.
pub fn push_decimal(s: &mut String, n: u128)
    ensures
        final(s)@ == old(s)@ + decimal(n as nat),
{
    let cs = decimal_chars(n);
    push_chars(s, &cs);
}

/// The hexadecimal digit character for `d < 16` (lower case).
pub open spec fn hex_digit(d: nat) -> char {
    if d < 10 {
        digit_char(d)
    } else {
        ((d + 87) as u8) as char
    }
}

/// How one character is written inside a JSON string: `"` and `\` behind a
/// backslash, newline, carriage return and tab by their short escapes, other
/// control characters as `\u00XX`, everything else as it is.
pub open spec fn json_escape_char(c: char) -> Seq<char> {
    if c == '"' {
        seq!['\\', '"']
    } else if c == '\\' {
        seq!['\\', '\\']
    } else if c == '\n' {
        seq!['\\', 'n']
    } else if c == '\r' {
        seq!['\\', 'r']
    } else if c == '\t' {
        seq!['\\', 't']
    } else if (c as u32) < 0x20 {
        seq!['\\', 'u', '0', '0', hex_digit((c as u32 / 16) as nat), hex_digit((c as u32 % 16) as nat)]
    } else {
        seq![c]
    }
}

/// The text `s` as the inside of a JSON string.
pub open spec fn json_escaped(s: Seq<char>) -> Seq<char>
    decreases s.len(),
{
    if s.len() == 0 {
        Seq::empty()
    } else {
        json_escaped(s.drop_last()) + json_escape_char(s.last())
    }
}

fn push_hex_digit(out: &mut String, d: u32)
    requires
        d < 16,
    ensures
        final(out)@ == old(out)@.push(hex_digit(d as nat)),
{
    if d < 10 {
        push_char(out, ((d as u8) + 48u8) as char);
    } else {
        push_char(out, ((d as u8) + 87u8) as char);
    }
}

/// Appends one character written as inside a JSON string.
fn push_json_escaped_char(out: &mut String, c: char)
    ensures
        final(out)@ == old(out)@ + json_escape_char(c),
{
    if c == '"' {
        push_char(out, '\\');
        push_char(out, '"');
    } else if c == '\\' {
        push_char(out, '\\');
        push_char(out, '\\');
    } else if c == '\n' {
        push_char(out, '\\');
        push_char(out, 'n');
    } else if c == '\r' {
        push_char(out, '\\');
        push_char(out, 'r');
    } else if c == '\t' {
        push_char(out, '\\');
        push_char(out, 't');
    } else if (c as u32) < 0x20 {
        let v = c as u32;
        push_char(out, '\\');
        push_char(out, 'u');
        push_char(out, '0');
        push_char(out, '0');
        push_hex_digit(out, v / 16);
        push_hex_digit(out, v % 16);
    } else {
        push_char(out, c);
    }
    assert(final(out)@ =~= old(out)@ + json_escape_char(c));
}

/// Appends `t` written as the inside of a JSON string.
pub fn push_json_escaped(out: &mut String, t: &str)
    ensures
        final(out)@ == old(out)@ + json_escaped(t@),
{
    let cs = chars_of(t);
    let mut i: usize = 0;
    while i < cs.len()
        invariant
            i <= cs@.len(),
            cs@ == t@,
            out@ == old(out)@ + json_escaped(cs@.take(i as int)),
        decreases cs@.len() - i,
    {
        proof {
            assert(cs@.take(i + 1).drop_last() =~= cs@.take(i as int));
            assert(cs@.take(i + 1).last() == cs@[i as int]);
        }
        push_json_escaped_char(out, cs[i]);
        assert(out@ =~= old(out)@ + json_escaped(cs@.take(i + 1)));
        i = i + 1;
    }
    assert(cs@.take(cs@.len() as int) =~= cs@);
}

/// A `String` holding exactly the characters `cs`.
pub fn string_of_chars(cs: &Vec<char>) -> (r: String)
    ensures
        r@ == cs@,
{
    let mut s = String::new();
    push_chars(&mut s, cs);
    assert(s@ =~= cs@);
    s
}

/// The ASCII lowercase of `c`; other characters are unchanged.
pub open spec fn ascii_lower(c: char) -> char {
    if 'A' <= c <= 'Z' {
        ((c as u32) + 32) as char
    } else {
        c
    }
}

/// `s[start..]` begins with the ASCII pattern `p`, ignoring ASCII case.
///
/// For a pattern of lowercase ASCII letters, digits and punctuation that holds
/// neither `i` nor `k`, this is exactly whether `s.to_lowercase()` begins with
/// `p`: the only characters outside ASCII whose lowercase form begins with an
/// ASCII character are U+0130 (to `i` and a combining dot) and U+212A (to `k`).
pub open spec fn ascii_prefix_ci(s: Seq<char>, p: Seq<char>) -> bool {
    &&& p.len() <= s.len()
    &&& forall|i: int| 0 <= i < p.len() ==> ascii_lower(#[trigger] s[i]) == p[i]
}

/// Executable `ascii_prefix_ci` on `s[start..]`.
pub fn ascii_prefix_ci_exec(s: &Vec<char>, start: usize, p: &Vec<char>) -> (r: bool)
    requires
        start <= s@.len(),
    ensures
        r == ascii_prefix_ci(s@.subrange(start as int, s@.len() as int), p@),
{
    let ghost t = s@.subrange(start as int, s@.len() as int);
    let n = s.len();
    if p.len() > n - start {
        return false;
    }
    let mut i: usize = 0;
    while i < p.len()
        invariant
            i <= p@.len(),
            start <= s@.len(),
            n == s@.len(),
            p@.len() + start <= s@.len(),
            p@.len() <= t.len(),
            t == s@.subrange(start as int, s@.len() as int),
            forall|k: int| 0 <= k < i ==> ascii_lower(#[trigger] t[k]) == p@[k],
        decreases p@.len() - i,
    {
        let c = s[start + i];
        let lc = if 'A' <= c && c <= 'Z' {
            ((c as u32) + 32) as u8 as char
        } else {
            c
        };
        assert(t[i as int] == c);
        if lc != p[i] {
            return false;
        }
        i = i + 1;
    }
    true
}

} // verus!
