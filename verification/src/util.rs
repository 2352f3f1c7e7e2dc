//! Clock readings, byte-size formatting and address helpers.

use vstd::prelude::*;
use crate::text::{chars_of, decimal, digit_char, push_char, push_chars, push_decimal, push_str};

verus! {

/// 2^53: integers below it are exactly representable as `f64`.
pub open spec fn f64_exact_limit() -> nat {
    9007199254740992
}

/// Halves `q` (and doubles `p`) until `q` has at most 53 significant bits;
/// started at `(b, 1)` it gives the truncated significand of `b` and its scale.
pub open spec fn f64_parts(q: nat, p: nat) -> (nat, nat)
    decreases q,
{
    if q < f64_exact_limit() {
        (q, p)
    } else {
        f64_parts(q / 2, p * 2)
    }
}

/// The value of `b as f64`: `b` rounded to 53 significant bits, ties to even.
pub open spec fn f64_value(b: nat) -> nat {
    let (q, p) = f64_parts(b, 1);
    let r = b - q * p;
    let up = 2 * r > p || (2 * r == p && q % 2 == 1);
    (if up { q + 1 } else { q }) * p
}

/// 1024^i for the unit index `i`.
pub open spec fn unit_scale(i: nat) -> nat {
    if i == 0 {
        1
    } else if i == 1 {
        1024
    } else if i == 2 {
        1048576
    } else if i == 3 {
        1073741824
    } else {
        1099511627776
    }
}

/// The unit that `format_bytes` settles on for the value `v`: the largest
/// `i <= 4` with `1024^i <= v` (0 when `v < 1024`).
pub open spec fn unit_index(v: nat) -> nat {
    if v >= unit_scale(4) {
        4
    } else if v >= unit_scale(3) {
        3
    } else if v >= unit_scale(2) {
        2
    } else if v >= unit_scale(1) {
        1
    } else {
        0
    }
}

/// The name of unit `i`: B, KB, MB, GB, TB.
pub open spec fn unit_name(i: nat) -> Seq<char> {
    if i == 0 {
        seq!['B']
    } else if i == 1 {
        seq!['K', 'B']
    } else if i == 2 {
        seq!['M', 'B']
    } else if i == 3 {
        seq!['G', 'B']
    } else {
        seq!['T', 'B']
    }
}

/// `n / d` rounded to the nearest integer, ties to even.
pub open spec fn div_round_half_even(n: nat, d: nat) -> nat {
    let q = n / d;
    let r = n % d;
    if 2 * r > d || (2 * r == d && q % 2 == 1) {
        q + 1
    } else {
        q
    }
}

/// What `format_bytes(bytes)` returns: `bytes` as an `f64`, divided by 1024 while
/// it is at least 1024 and a larger unit remains, written with two decimals
/// (the exact value rounded half to even, as `{:.2}` does), a space and the unit.
pub open spec fn format_bytes_spec(bytes: nat) -> Seq<char> {
    let v = f64_value(bytes);
    let i = unit_index(v);
    let h = div_round_half_even(v * 100, unit_scale(i));
    decimal(h / 100) + seq!['.', digit_char((h % 100) / 10), digit_char(h % 10)] + seq![' ']
        + unit_name(i)
}

/// Below 1024 bytes the count is written as it is, in bytes:
/// `format_bytes(n)` is `"{n}.00 B"`.
pub proof fn lemma_format_small(bytes: nat)
    requires
        bytes < 1024,
    ensures
        format_bytes_spec(bytes) == decimal(bytes) + seq!['.', '0', '0', ' ', 'B'],
{
    assert(f64_parts(bytes, 1) == (bytes, 1nat));
    assert(f64_value(bytes) == bytes);
    let h = div_round_half_even(bytes * 100, 1);
    assert(h == bytes * 100);
    assert(h / 100 == bytes && h % 100 == 0) by (nonlinear_arith)
        requires
            h == bytes * 100,
    ;
    assert(format_bytes_spec(bytes) =~= decimal(bytes) + seq!['.', '0', '0', ' ', 'B']);
}

proof fn lemma_f64_parts_bounds(b: nat, q: nat, p: nat)
    requires
        q * p <= b,
        p >= 1,
        p == 1 || q >= f64_exact_limit() / 2,
        b < 0x1_0000_0000_0000_0000,
    ensures
        ({
            let (q2, p2) = f64_parts(q, p);
            &&& q2 * p2 <= b
            &&& q2 < f64_exact_limit()
            &&& p2 >= 1
            &&& p2 <= 4096
        }),
    decreases q,
{
    if q < f64_exact_limit() {
        if p != 1 {
            assert(p <= 4096) by (nonlinear_arith)
                requires
                    q * p <= b,
                    q >= 4503599627370496,
                    b < 0x1_0000_0000_0000_0000,
                    p >= 1,
            ;
        }
    } else {
        assert((q / 2) * (p * 2) <= q * p) by (nonlinear_arith)
            requires
                p >= 1,
        ;
        lemma_f64_parts_bounds(b, q / 2, p * 2);
    }
}

/// The exact value of `bytes as f64`.
fn f64_value_of(bytes: u64) -> (v: u128)
    ensures
        v == f64_value(bytes as nat),
        v <= 9007199254740992 * 4096,
{
    let b = bytes as u128;
    let mut q: u128 = b;
    let mut p: u128 = 1;
    proof {
        lemma_f64_parts_bounds(bytes as nat, q as nat, p as nat);
    }
    while q >= 9007199254740992
        invariant
            f64_parts(b as nat, 1) == f64_parts(q as nat, p as nat),
            q * p <= b,
            p >= 1,
            p == 1 || q >= 4503599627370496,
            b == bytes,
            b < 0x1_0000_0000_0000_0000,
            ({
                let (q2, p2) = f64_parts(q as nat, p as nat);
                &&& q2 * p2 <= b
                &&& q2 < f64_exact_limit()
                &&& p2 <= 4096
            }),
        decreases q,
    {
        assert((q / 2) * (p * 2) <= q * p) by (nonlinear_arith)
            requires
                p >= 1,
        ;
        assert(p <= q * p) by (nonlinear_arith)
            requires
                q >= 1,
                p >= 1,
        ;
        q = q / 2;
        p = p * 2;
    }
    assert(q < 9007199254740992 && p <= 4096);
    assert(q * p <= b);
    let r = b - q * p;
    let up = 2 * r > p || (2 * r == p && q % 2 == 1);
    let m = if up {
        q + 1
    } else {
        q
    };
    assert(m * p <= 9007199254740992 * 4096) by (nonlinear_arith)
        requires
            m <= 9007199254740992,
            p <= 4096,
    ;
    let v: u128 = m * p;
    v
}

/// Formats a byte count as a human-readable string, e.g. `1.00 KB`.
pub fn format_bytes(bytes: u64) -> (r: String)
    ensures
        r@ == format_bytes_spec(bytes as nat),
{
    let v = f64_value_of(bytes);
    let i: u128 = if v >= 1099511627776 {
        4
    } else if v >= 1073741824 {
        3
    } else if v >= 1048576 {
        2
    } else if v >= 1024 {
        1
    } else {
        0
    };
    let d: u128 = if i == 4 {
        1099511627776
    } else if i == 3 {
        1073741824
    } else if i == 2 {
        1048576
    } else if i == 1 {
        1024
    } else {
        1
    };
    assert(i == unit_index(v as nat) && d == unit_scale(i as nat));
    let n = v * 100;
    let hq = n / d;
    let hr = n % d;
    let h = if 2 * hr > d || (2 * hr == d && hq % 2 == 1) {
        hq + 1
    } else {
        hq
    };
    assert(h == div_round_half_even(n as nat, d as nat));
    let mut out = String::new();
    push_decimal(&mut out, h / 100);
    push_char(&mut out, '.');
    push_char(&mut out, (((h % 100) / 10) as u8 + 48u8) as char);
    push_char(&mut out, ((h % 10) as u8 + 48u8) as char);
    push_char(&mut out, ' ');
    if i == 1 {
        push_char(&mut out, 'K');
    } else if i == 2 {
        push_char(&mut out, 'M');
    } else if i == 3 {
        push_char(&mut out, 'G');
    } else if i == 4 {
        push_char(&mut out, 'T');
    }
    push_char(&mut out, 'B');
    assert(out@ =~= format_bytes_spec(bytes as nat));
    out
}

#[verifier::external_type_specification]
#[verifier::external_body]
pub struct ExSystemTime(std::time::SystemTime);

/// `SystemTime::now()`: the current time of the system clock.  Nothing is
/// stated of it.
#[verifier::external_body]
fn system_now() -> std::time::SystemTime {
    std::time::SystemTime::now()
}

/// `SystemTime::duration_since(UNIX_EPOCH)`: the time since 1970, or `None`
/// (the error, dropped) when `t` lies before it.  Nothing is stated of it.
#[verifier::external_body]
fn since_epoch(t: std::time::SystemTime) -> Option<std::time::Duration> {
    t.duration_since(std::time::UNIX_EPOCH).ok()
}

/// What `Duration::as_secs` returns for `d`: its whole seconds.
pub uninterp spec fn duration_whole_secs(d: std::time::Duration) -> u64;

/// What `Duration::subsec_nanos` returns for `d`: its nanoseconds beyond the
/// whole seconds.
pub uninterp spec fn duration_subsec(d: std::time::Duration) -> u32;

/// `Duration::as_secs`: the whole seconds of `d`.
#[verifier::external_body]
pub(crate) fn duration_secs(d: &std::time::Duration) -> (r: u64)
    ensures
        r == duration_whole_secs(*d),
{
    d.as_secs()
}

/// `Duration::subsec_nanos`: the nanoseconds of `d` beyond its whole seconds,
/// which its documentation says are below one billion.
#[verifier::external_body]
pub(crate) fn duration_subsec_nanos(d: &std::time::Duration) -> (r: u32)
    ensures
        r == duration_subsec(*d),
        r < 1_000_000_000,
{
    d.subsec_nanos()
}

/// Reads the system clock as `SystemTime::now().duration_since(UNIX_EPOCH)`:
/// whole seconds and the nanoseconds past them, or `None` when the clock reads
/// before 1970.  The reading depends on the time of the call, so nothing ties
/// it to anything else.
pub(crate) fn clock_since_epoch() -> (r: Option<(u64, u32)>)
    ensures
        r matches Some((_s, n)) ==> n < 1_000_000_000,
{
    match since_epoch(system_now()) {
        Some(d) => Some((duration_secs(&d), duration_subsec_nanos(&d))),
        None => None,
    }
}

/// Whole seconds of a clock reading (0 for a reading before the epoch).
pub open spec fn reading_secs(reading: Option<(u64, u32)>) -> u64 {
    match reading {
        Some((s, _n)) => s,
        None => 0,
    }
}

/// Whole milliseconds of a clock reading, as `Duration::as_millis() as u64`
/// (which keeps the low 64 bits); 0 for a reading before the epoch.
pub open spec fn reading_millis(reading: Option<(u64, u32)>) -> u64 {
    match reading {
        Some((s, n)) => ((s as nat * 1000 + (n / 1_000_000) as nat) as u128) as u64,
        None => 0,
    }
}

/// Seconds since the epoch for a clock reading.
pub fn timestamp_secs_of(reading: Option<(u64, u32)>) -> (r: u64)
    ensures
        r == reading_secs(reading),
{
    match reading {
        Some((s, _n)) => s,
        None => 0,
    }
}

/// Milliseconds since the epoch for a clock reading.
pub fn timestamp_millis_of(reading: Option<(u64, u32)>) -> (r: u64)
    requires
        reading matches Some((_s, n)) ==> n < 1_000_000_000,
    ensures
        r == reading_millis(reading),
{
    match reading {
        Some((s, n)) => {
            let m: u128 = (s as u128) * 1000 + ((n / 1_000_000) as u128);
            m as u64
        },
        None => 0,
    }
}

/// Milliseconds and seconds of one reading agree: the milliseconds lie in the
/// second that the seconds name (while the millisecond count fits in 64 bits).
pub proof fn lemma_millis_within_second(reading: Option<(u64, u32)>)
    requires
        reading matches Some((s, n)) ==> n < 1_000_000_000 && s * 1000 + 999 < 0x1_0000_0000_0000_0000,
    ensures
        reading_secs(reading) * 1000 <= reading_millis(reading) < reading_secs(reading) * 1000
            + 1000,
{
}

/// Current time in whole seconds since the Unix epoch (0 if the clock reads
/// before the epoch).
pub fn current_timestamp_secs() -> u64 {
    let reading = clock_since_epoch();
    timestamp_secs_of(reading)
}

/// Current time in whole milliseconds since the Unix epoch (0 if the clock
/// reads before the epoch).
pub fn current_timestamp_millis() -> u64 {
    let reading = clock_since_epoch();
    timestamp_millis_of(reading)
}

/// The number of `:` in `s`.
pub open spec fn colon_count(s: Seq<char>) -> nat
    decreases s.len(),
{
    if s.len() == 0 {
        0
    } else {
        colon_count(s.drop_last()) + if s.last() == ':' {
            1nat
        } else {
            0nat
        }
    }
}

/// `s` is a bracketed IPv6 literal: it opens with `[`.
pub open spec fn bracketed(s: Seq<char>) -> bool {
    s.len() > 0 && s[0] == '['
}

/// `s` holds `]:` somewhere: a bracketed address followed by a port.
pub open spec fn has_bracket_port(s: Seq<char>) -> bool {
    exists|i: int| 0 <= i && i + 1 < s.len() && s[i] == ']' && #[trigger] s[i + 1] == ':'
}

/// `addr` names a port: after the closing `]` of a bracketed address, or as
/// the one `:` of any other address (two or more `:` make a bare IPv6
/// address, which names no port).
pub open spec fn names_port(addr: Seq<char>) -> bool {
    if bracketed(addr) {
        has_bracket_port(addr)
    } else {
        colon_count(addr) == 1
    }
}

/// The address text that `parse_addr_with_default` parses: `addr` itself when
/// it names a port; a bare IPv6 address put in brackets with the default
/// port; any other address with `:default_port` added.
pub open spec fn address_with_port_spec(addr: Seq<char>, default_port: u16) -> Seq<char> {
    if names_port(addr) {
        addr
    } else if !bracketed(addr) && colon_count(addr) >= 2 {
        seq!['['] + addr + "]:"@ + decimal(default_port as nat)
    } else {
        addr + seq![':'] + decimal(default_port as nat)
    }
}

/// Builds the text of a socket address from `addr`, adding `default_port`
/// when `addr` names no port (see `address_with_port_spec`).
pub fn address_with_default_port(addr: &str, default_port: u16) -> (r: String)
    ensures
        r@ == address_with_port_spec(addr@, default_port),
{
    let cs = chars_of(addr);
    let mut colons: usize = 0;
    let mut i: usize = 0;
    while i < cs.len()
        invariant
            i <= cs@.len(),
            colons == colon_count(cs@.take(i as int)),
            colons <= i,
        decreases cs@.len() - i,
    {
        assert(cs@.take(i + 1).drop_last() =~= cs@.take(i as int));
        if cs[i] == ':' {
            colons = colons + 1;
        }
        i = i + 1;
    }
    assert(cs@.take(cs@.len() as int) =~= cs@);
    let is_bracketed = cs.len() > 0 && cs[0] == '[';
    let mut port_after_bracket = false;
    let mut k: usize = 0;
    while cs.len() > 0 && k < cs.len() - 1 && !port_after_bracket
        invariant
            k <= cs@.len(),
            port_after_bracket ==> has_bracket_port(cs@),
            !port_after_bracket ==> forall|m: int|
                0 <= m < k && m + 1 < cs@.len() ==> !(cs@[m] == ']' && #[trigger] cs@[m + 1] == ':'),
        decreases (if port_after_bracket { 0int } else { 1int }), cs@.len() - k,
    {
        if cs[k] == ']' && cs[k + 1] == ':' {
            port_after_bracket = true;
        } else {
            k = k + 1;
        }
    }
    proof {
        if !port_after_bracket && has_bracket_port(cs@) {
            let m = choose|m: int| 0 <= m && m + 1 < cs@.len() && cs@[m] == ']' && #[trigger] cs@[m + 1] == ':';
            assert(!(cs@[m] == ']' && cs@[m + 1] == ':'));
        }
    }
    let names = if is_bracketed {
        port_after_bracket
    } else {
        colons == 1
    };
    let mut out = String::new();
    if names {
        push_chars(&mut out, &cs);
    } else if !is_bracketed && colons >= 2 {
        push_char(&mut out, '[');
        push_chars(&mut out, &cs);
        push_str(&mut out, "]:");
        push_decimal(&mut out, default_port as u128);
    } else {
        push_chars(&mut out, &cs);
        push_char(&mut out, ':');
        push_decimal(&mut out, default_port as u128);
    }
    assert(out@ =~= address_with_port_spec(addr@, default_port));
    out
}

} // verus!
