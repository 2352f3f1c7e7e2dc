//! HTTP/1.x observation: the request and status lines, the header block and
//! its limits, and the request counter.
//!
//! Reading from the connection happens outside the library, one line at a
//! time; each line read is handed to the functions here, which decide what it
//! means and what comes next.

use vstd::prelude::*;
use vstd::string::StringSliceAdditionalSpecFns;
use crate::config::Config;
use crate::metrics::Metrics;
use crate::text::{
    all_ws, ascii_lower, ascii_prefix_ci, ascii_prefix_ci_exec, chars_of, decimal, first_words, is_digit,
    is_ws, is_ws_char, lemma_decimal_digits, skip_ws, strip_plus, trim_end_idx,
    lemma_skip_ws_bounds, lemma_trim_end_bounds, lemma_words_of_trim, parse_unsigned, parse_unsigned_range, push_decimal,
    skip_ws_exec, string_of_chars, trim, trim_end_exec, words,
};

verus! {

/// A parsed HTTP/1.x request head.
#[derive(Debug)]
pub struct HttpRequest {
    pub method: String,
    pub path: String,
    pub version: String,
    pub headers_size: usize,
    pub body: Option<Vec<u8>>,
}

/// `colon_from` finds the first `:` at or after `i`.
proof fn lemma_colon_at(s: Seq<char>, i: int, j: int)
    requires
        0 <= i <= j <= s.len(),
        j < s.len() ==> s[j] == ':',
        forall|k: int| i <= k < j ==> s[k] != ':',
    ensures
        colon_from(s, i) == j,
    decreases j - i,
{
    if i < j {
        lemma_colon_at(s, i + 1, j);
    }
}

/// A `Content-Length` header announces the number it carries: for every
/// value `v` that fits a `usize`, the line `content-length: v` (its digits in
/// decimal) sets the announced body length to `v`, whatever was announced
/// before.
pub proof fn lemma_content_length_announces(v: nat, current: nat)
    requires
        v <= usize::MAX,
    ensures
        content_length_after(content_length_prefix() + seq![' '] + decimal(v), current) == v,
{
    let digits = decimal(v);
    lemma_decimal_digits(v);
    let p = content_length_prefix();
    let line = p + seq![' '] + digits;
    assert forall|i: int| 0 <= i < p.len() implies ascii_lower(#[trigger] line[i]) == p[i] by {
        assert(line[i] == p[i]);
    }
    assert(ascii_prefix_ci(line, p));
    assert forall|k: int| 15 <= k < line.len() implies line[k] != ':' by {
        if k > 15 {
            assert(line[k] == digits[k - 16]);
            assert(is_digit(digits[k - 16]));
        }
    }
    lemma_colon_at(line, 0, 14);
    lemma_colon_at(line, 15, line.len() as int);
    let f = line.subrange(15, line.len() as int);
    assert(second_field(line) == Some(f));
    assert(f =~= seq![' '] + digits);
    assert(is_digit(digits[0]));
    assert(!is_ws(f[1]));
    assert(skip_ws(f, 1) == 1);
    assert(skip_ws(f, 0) == 1);
    assert(is_digit(digits[digits.len() - 1]));
    assert(!is_ws(f[f.len() - 1]));
    assert(trim_end_idx(f, f.len() as int) == f.len());
    assert(trim(f) =~= digits);
    assert(strip_plus(digits) == digits);
}

/// A parsed HTTP/1.x response head.
#[derive(Debug)]
pub struct HttpResponse {
    pub status: u16,
    pub version: String,
    pub headers_size: usize,
    pub body: Option<Vec<u8>>,
}

/// Why a message head was refused.
#[derive(Debug, PartialEq, Eq, Structural)]
pub enum Http1Error {
    /// The request line has fewer than three words.
    InvalidRequestLine,
    /// The status line has fewer than two words.
    InvalidResponseLine,
    /// The header block grew past the configured maximum.
    HeadersTooLarge,
}

/// The number of UTF-8 bytes of a line, as `str::len` gives it.
pub open spec fn line_bytes(line: &str) -> usize {
    line.spec_bytes().len() as usize
}

/// Index of the first `:` at or after `i` (or `s.len()`).
pub open spec fn colon_from(s: Seq<char>, i: int) -> int
    decreases s.len() - i,
{
    if i < 0 || i >= s.len() {
        s.len() as int
    } else if s[i] == ':' {
        i
    } else {
        colon_from(s, i + 1)
    }
}

/// The second `:`-separated field of `s` (`s.split(':').nth(1)`), if `s`
/// holds a `:`.
pub open spec fn second_field(s: Seq<char>) -> Option<Seq<char>> {
    let i = colon_from(s, 0);
    if i >= s.len() {
        None
    } else {
        Some(s.subrange(i + 1, colon_from(s, i + 1)))
    }
}

/// The header name that announces a body length, lowercase.
pub open spec fn content_length_prefix() -> Seq<char> {
    seq!['c', 'o', 'n', 't', 'e', 'n', 't', '-', 'l', 'e', 'n', 'g', 't', 'h', ':']
}

/// The body length that a header line announces: a line that starts with
/// `content-length:` in any ASCII case sets it to the number in its second
/// `:`-separated field (trimmed), or to 0 when that is no valid `usize`;
/// other lines leave `current` unchanged.
pub open spec fn content_length_after(line: Seq<char>, current: nat) -> nat {
    if ascii_prefix_ci(line, content_length_prefix()) {
        match second_field(line) {
            Some(f) => match parse_unsigned(trim(f), usize::MAX as nat) {
                Some(v) => v,
                None => 0,
            },
            None => current,
        }
    } else {
        current
    }
}

/// What a line in the header block turned out to be.
#[derive(Debug, PartialEq, Eq, Structural)]
pub enum HeaderLine {
    /// A blank line: the header block ends.
    End,
    /// A header; more follow.
    Header,
    /// A line that took the block past the limit.
    TooLarge,
}

/// The header block read so far: its size in bytes (the start line
/// included) and the body length it announced.
#[derive(Debug, Clone, Copy)]
pub struct HeadScan {
    pub headers_size: usize,
    pub content_length: usize,
}

/// The words of a request line (`line.trim().split_whitespace()`): method,
/// path and version.
pub open spec fn request_line_spec(line: Seq<char>) -> Result<(Seq<char>, Seq<char>, Seq<char>), Http1Error> {
    let w = words(trim(line));
    if w.len() < 3 {
        Err(Http1Error::InvalidRequestLine)
    } else {
        Ok((w[0], w[1], w[2]))
    }
}

/// The version and status code of a status line (its words as
/// `line.trim().split_whitespace()` gives them); a status word that is no
/// valid `u16` gives 0.
pub open spec fn status_line_spec(line: Seq<char>) -> Result<(Seq<char>, u16), Http1Error> {
    let w = words(trim(line));
    if w.len() < 2 {
        Err(Http1Error::InvalidResponseLine)
    } else {
        Ok((w[0], match parse_unsigned(w[1], u16::MAX as nat) {
            Some(v) => v as u16,
            None => 0,
        }))
    }
}

/// Splits a request line into method, path and version (its first three
/// whitespace-separated words); fewer than three words is an error.
pub fn parse_request_line(line: &str) -> (r: Result<(String, String, String), Http1Error>)
    ensures
        match (r, request_line_spec(line@)) {
            (Ok((m, p, v)), Ok((ms, ps, vs))) => m@ == ms && p@ == ps && v@ == vs,
            (Err(e), Err(es)) => e == es,
            _ => false,
        },
{
    let cs = chars_of(line);
    proof {
        lemma_words_of_trim(line@);
    }
    let w = first_words(&cs, 3);
    if w.len() < 3 {
        return Err(Http1Error::InvalidRequestLine);
    }
    Ok((string_of_chars(&w[0]), string_of_chars(&w[1]), string_of_chars(&w[2])))
}

/// Splits a status line into version and status code (its first two words;
/// a status word that is no valid `u16` gives 0); fewer than two words is an
/// error.
pub fn parse_status_line(line: &str) -> (r: Result<(String, u16), Http1Error>)
    ensures
        match (r, status_line_spec(line@)) {
            (Ok((v, s)), Ok((vs, ss))) => v@ == vs && s == ss,
            (Err(e), Err(es)) => e == es,
            _ => false,
        },
{
    let cs = chars_of(line);
    proof {
        lemma_words_of_trim(line@);
    }
    let w = first_words(&cs, 2);
    if w.len() < 2 {
        return Err(Http1Error::InvalidResponseLine);
    }
    let code = &w[1];
    assert(code@.subrange(0, code@.len() as int) =~= code@);
    let status = match parse_unsigned_range(code, 0, code.len(), 65535) {
        Some(v) => v as u16,
        None => 0,
    };
    Ok((string_of_chars(&w[0]), status))
}

/// Whether every character of `cs` is whitespace.
fn all_ws_exec(cs: &Vec<char>) -> (r: bool)
    ensures
        r == all_ws(cs@),
{
    let mut i: usize = 0;
    while i < cs.len()
        invariant
            i <= cs@.len(),
            forall|k: int| 0 <= k < i ==> crate::text::is_ws(#[trigger] cs@[k]),
        decreases cs@.len() - i,
    {
        if !is_ws_char(cs[i]) {
            return false;
        }
        i = i + 1;
    }
    true
}

/// Index of the first `:` at or after `i`.
fn colon_from_exec(cs: &Vec<char>, i: usize) -> (r: usize)
    requires
        i <= cs@.len(),
    ensures
        r == colon_from(cs@, i as int),
        i <= r <= cs@.len(),
{
    let mut j = i;
    while j < cs.len() && cs[j] != ':'
        invariant
            i <= j <= cs@.len(),
            colon_from(cs@, i as int) == colon_from(cs@, j as int),
        decreases cs@.len() - j,
    {
        j = j + 1;
    }
    j
}

/// The body length that the header line `cs` announces, given the one
/// announced so far.
fn content_length_exec(cs: &Vec<char>, current: usize) -> (r: usize)
    ensures
        r == content_length_after(cs@, current as nat),
{
    let prefix = vec!['c', 'o', 'n', 't', 'e', 'n', 't', '-', 'l', 'e', 'n', 'g', 't', 'h', ':'];
    assert(prefix@ == content_length_prefix());
    assert(cs@.subrange(0, cs@.len() as int) =~= cs@);
    if !ascii_prefix_ci_exec(cs, 0, &prefix) {
        return current;
    }
    let i = colon_from_exec(cs, 0);
    if i >= cs.len() {
        return current;
    }
    let j = colon_from_exec(cs, i + 1);
    let mut seg: Vec<char> = Vec::new();
    let mut k = i + 1;
    while k < j
        invariant
            i + 1 <= k <= j <= cs@.len(),
            seg@ == cs@.subrange(i + 1, k as int),
        decreases j - k,
    {
        seg.push(cs[k]);
        k = k + 1;
    }
    assert(second_field(cs@) == Some(seg@));
    let a = skip_ws_exec(&seg, 0);
    let b = trim_end_exec(&seg, seg.len());
    proof {
        lemma_skip_ws_bounds(seg@, 0);
        lemma_trim_end_bounds(seg@, seg@.len() as int);
    }
    if a >= b {
        assert(trim(seg@) == Seq::<char>::empty());
        assert(parse_unsigned(Seq::<char>::empty(), usize::MAX as nat) is None);
        return 0;
    }
    match parse_unsigned_range(&seg, a, b, usize::MAX as u64) {
        Some(v) => v as usize,
        None => 0,
    }
}

/// HTTP/1.x observe-only parser.
pub struct Http1Observer {
    config: std::sync::Arc<Config>,
}

impl Http1Observer {
    /// The configuration the observer enforces.
    pub closed spec fn config(&self) -> Config {
        *self.config
    }

    /// An observer enforcing this configuration; the metrics it counts in
    /// are handed to each call.
    pub fn new(config: std::sync::Arc<Config>) -> (r: Self)
        ensures
            r.config() == *config,
    {
        Http1Observer { config }
    }

    /// The header block after its start line `line` was read: the line's bytes
    /// counted, no body length announced yet.
    pub fn start_head(&self, line: &str) -> (r: HeadScan)
        ensures
            r.headers_size == line_bytes(line),
            r.content_length == 0,
    {
        HeadScan { headers_size: line.len(), content_length: 0 }
    }

    /// Takes in one more line of the header block: its bytes are counted and
    /// the block, start line included, is refused once it has grown past the
    /// maximum header size; otherwise a blank line ends the block, and any
    /// other line may announce the body length.  So a block that ends, or
    /// goes on, is never larger than the maximum.
    pub fn scan_header_line(&self, scan: &mut HeadScan, line: &str) -> (r: HeaderLine)
        requires
            old(scan).headers_size + line_bytes(line) <= usize::MAX,
        ensures
            final(scan).headers_size == old(scan).headers_size + line_bytes(line),
            r == (if final(scan).headers_size > self.config().http.max_header_size {
                HeaderLine::TooLarge
            } else if all_ws(line@) {
                HeaderLine::End
            } else {
                HeaderLine::Header
            }),
            (r is End || r is Header) ==> final(scan).headers_size <= self.config().http.max_header_size,
            final(scan).content_length == (if all_ws(line@) {
                old(scan).content_length as nat
            } else {
                content_length_after(line@, old(scan).content_length as nat)
            }),
    {
        scan.headers_size = scan.headers_size + line.len();
        let cs = chars_of(line);
        if all_ws_exec(&cs) {
            if scan.headers_size > self.config.http.max_header_size {
                return HeaderLine::TooLarge;
            }
            return HeaderLine::End;
        }
        scan.content_length = content_length_exec(&cs, scan.content_length);
        if scan.headers_size > self.config.http.max_header_size {
            HeaderLine::TooLarge
        } else {
            HeaderLine::Header
        }
    }

    /// The body length to read after the header block: the announced length
    /// when it is above 0 and at most the maximum body size.
    pub fn body_length(&self, scan: &HeadScan) -> (r: Option<usize>)
        ensures
            r == (if 0 < scan.content_length <= self.config().http.max_body_size {
                Some(scan.content_length)
            } else {
                None
            }),
    {
        if scan.content_length > 0 && scan.content_length <= self.config.http.max_body_size {
            Some(scan.content_length)
        } else {
            None
        }
    }

    /// Counts a request/response pair under the request's method and the
    /// response's status code.
    pub fn count_request(&self, metrics: &mut Metrics, request: &HttpRequest, response: &HttpResponse)
        ensures
            final(metrics)@ == old(metrics)@.with_http_request(
                request.method@,
                decimal(response.status as nat),
            ),
    {
        let status = status_label(response.status);
        metrics.count_http_request(request.method.as_str(), status.as_str());
    }
}

/// The label text of a status code: its decimal digits.
pub fn status_label(status: u16) -> (r: String)
    ensures
        r@ == decimal(status as nat),
{
    let mut s = String::new();
    push_decimal(&mut s, status as u128);
    s
}

} // verus!
