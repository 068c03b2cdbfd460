//! Key-validity filtering after a refresh.
//!
//! A key may only be handed out when the caller's current public IP lies in
//! one of the key's allowed CIDR ranges (an empty range list means
//! unrestricted) and the key's expiry timestamp has not passed. Keys that
//! fail either check, or whose metadata cannot be parsed, are discarded.
//!
//! Expiry timestamps are read in the portal's UTC form
//! `YYYY-MM-DDTHH:MM:SS` (anything after the seconds field, such as
//! fractional seconds or a `Z` suffix, is ignored) and compared through a
//! mixed-radix encoding of the civil fields that orders exactly as civil
//! time does.

use vstd::prelude::*;
use vstd::string::*;

use crate::chars::{digit_of, digit_val, is_digit};
use crate::dev::Key;

verus! {

/// Accumulator of the address scanner: a partial parse of `a.b.c.d` or
/// `a.b.c.d/n`.
#[derive(Clone, Copy)]
pub struct ScanState {
    pub ok: bool,
    /// Completed octet groups.
    pub groups: u32,
    /// Digits seen in the current group.
    pub cur_len: u32,
    /// Value of the current group.
    pub cur_val: u32,
    /// Completed groups folded big-endian.
    pub acc: u32,
    pub saw_slash: bool,
    /// Digits seen in the prefix length.
    pub plen_len: u32,
    /// Value of the prefix length.
    pub plen_val: u32,
}

pub open spec fn scan_init() -> ScanState {
    ScanState {
        ok: true,
        groups: 0,
        cur_len: 0,
        cur_val: 0,
        acc: 0,
        saw_slash: false,
        plen_len: 0,
        plen_val: 0,
    }
}

pub open spec fn scan_fail() -> ScanState {
    ScanState {
        ok: false,
        groups: 0,
        cur_len: 0,
        cur_val: 0,
        acc: 0,
        saw_slash: false,
        plen_len: 0,
        plen_val: 0,
    }
}

/// One character of a dotted-quad scan. Groups hold at most three digits and
/// the value 255; at most four groups; an optional `/` then at most two
/// digits up to 32.
pub open spec fn scan_step(st: ScanState, c: char) -> ScanState {
    if !st.ok {
        st
    } else if is_digit(c) {
        if st.saw_slash {
            let v = st.plen_val * 10 + digit_val(c);
            if st.plen_len >= 2 || v > 32 {
                scan_fail()
            } else {
                ScanState { plen_len: (st.plen_len + 1) as u32, plen_val: v as u32, ..st }
            }
        } else {
            let v = st.cur_val * 10 + digit_val(c);
            if st.cur_len >= 3 || v > 255 {
                scan_fail()
            } else {
                ScanState { cur_len: (st.cur_len + 1) as u32, cur_val: v as u32, ..st }
            }
        }
    } else if c == '.' && !st.saw_slash {
        if st.cur_len == 0 || st.groups >= 3 {
            scan_fail()
        } else {
            ScanState {
                groups: (st.groups + 1) as u32,
                acc: (st.acc * 256 + st.cur_val) as u32,
                cur_len: 0,
                cur_val: 0,
                ..st
            }
        }
    } else if c == '/' && !st.saw_slash {
        if st.groups != 3 || st.cur_len == 0 {
            scan_fail()
        } else {
            ScanState { saw_slash: true, ..st }
        }
    } else {
        scan_fail()
    }
}

pub open spec fn scan_chars(s: Seq<char>) -> ScanState
    decreases s.len(),
{
    if s.len() == 0 {
        scan_init()
    } else {
        scan_step(scan_chars(s.drop_last()), s.last())
    }
}

/// Field bounds that every reachable scan state satisfies.
pub open spec fn scan_ok_bounds(st: ScanState) -> bool {
    st.ok ==> {
        &&& st.groups <= 3
        &&& st.cur_len <= 3
        &&& st.cur_val <= 255
        &&& (st.groups == 0 ==> st.acc == 0)
        &&& (st.groups == 1 ==> st.acc <= 255)
        &&& (st.groups == 2 ==> st.acc <= 65535)
        &&& (st.groups == 3 ==> st.acc <= 16777215)
        &&& st.plen_len <= 2
        &&& st.plen_val <= 32
        &&& (st.saw_slash ==> st.groups == 3 && st.cur_len >= 1)
    }
}

/// The IPv4 address denoted by a dotted quad `a.b.c.d`, if the whole string
/// has that form.
pub open spec fn spec_parse_ipv4(s: Seq<char>) -> Option<u32> {
    let st = scan_chars(s);
    if st.ok && !st.saw_slash && st.groups == 3 && st.cur_len >= 1 {
        Some((st.acc * 256 + st.cur_val) as u32)
    } else {
        None
    }
}

/// The network and prefix length denoted by `a.b.c.d/n`, or by a bare
/// address `a.b.c.d` read as a /32.
pub open spec fn spec_parse_cidr(s: Seq<char>) -> Option<(u32, u32)> {
    let st = scan_chars(s);
    if st.ok && st.groups == 3 && st.cur_len >= 1 && (!st.saw_slash || st.plen_len >= 1) {
        Some(
            (
                (st.acc * 256 + st.cur_val) as u32,
                if st.saw_slash {
                    st.plen_val
                } else {
                    32
                },
            ),
        )
    } else {
        None
    }
}

fn scan_push(st: ScanState, c: char) -> (r: ScanState)
    requires
        scan_ok_bounds(st),
    ensures
        r == scan_step(st, c),
        scan_ok_bounds(r),
{
    let fail = ScanState {
        ok: false,
        groups: 0,
        cur_len: 0,
        cur_val: 0,
        acc: 0,
        saw_slash: false,
        plen_len: 0,
        plen_val: 0,
    };
    if !st.ok {
        st
    } else if c >= '0' && c <= '9' {
        let d = digit_of(c);
        if st.saw_slash {
            let v = st.plen_val * 10 + d;
            if st.plen_len >= 2 || v > 32 {
                fail
            } else {
                ScanState { plen_len: st.plen_len + 1, plen_val: v, ..st }
            }
        } else {
            let v = st.cur_val * 10 + d;
            if st.cur_len >= 3 || v > 255 {
                fail
            } else {
                ScanState { cur_len: st.cur_len + 1, cur_val: v, ..st }
            }
        }
    } else if c == '.' && !st.saw_slash {
        if st.cur_len == 0 || st.groups >= 3 {
            fail
        } else {
            ScanState {
                groups: st.groups + 1,
                acc: st.acc * 256 + st.cur_val,
                cur_len: 0,
                cur_val: 0,
                ..st
            }
        }
    } else if c == '/' && !st.saw_slash {
        if st.groups != 3 || st.cur_len == 0 {
            fail
        } else {
            ScanState { saw_slash: true, ..st }
        }
    } else {
        fail
    }
}

/// Run the address scanner over a whole string.
#[verifier::loop_isolation(false)]
fn scan_str(s: &str) -> (r: ScanState)
    ensures
        r == scan_chars(s@),
        scan_ok_bounds(r),
{
    let n = s.unicode_len();
    let mut st = ScanState {
        ok: true,
        groups: 0,
        cur_len: 0,
        cur_val: 0,
        acc: 0,
        saw_slash: false,
        plen_len: 0,
        plen_val: 0,
    };
    let mut i: usize = 0;
    while i < n
        invariant
            0 <= i <= n,
            st == scan_chars(s@.take(i as int)),
            scan_ok_bounds(st),
        decreases n - i,
    {
        let c = s.get_char(i);
        st = scan_push(st, c);
        proof {
            assert(s@.take(i + 1).drop_last() =~= s@.take(i as int));
            assert(s@.take(i + 1).last() == s@[i as int]);
        }
        i = i + 1;
    }
    proof {
        assert(s@.take(n as int) =~= s@);
    }
    st
}

/// Parse a dotted-quad IPv4 address.
pub fn parse_ipv4(s: &str) -> (r: Option<u32>)
    ensures
        r == spec_parse_ipv4(s@),
{
    let st = scan_str(s);
    if st.ok && !st.saw_slash && st.groups == 3 && st.cur_len >= 1 {
        Some(st.acc * 256 + st.cur_val)
    } else {
        None
    }
}

/// Parse a CIDR range `a.b.c.d/n`; a bare address is read as a /32.
pub fn parse_cidr(s: &str) -> (r: Option<(u32, u32)>)
    ensures
        r == spec_parse_cidr(s@),
{
    let st = scan_str(s);
    if st.ok && st.groups == 3 && st.cur_len >= 1 && (!st.saw_slash || st.plen_len >= 1) {
        Some((st.acc * 256 + st.cur_val, if st.saw_slash { st.plen_val } else { 32 }))
    } else {
        None
    }
}

/// Whether `ip` lies in the network `net`/`plen` (CIDR containment).
pub open spec fn spec_cidr_contains(net: u32, plen: u32, ip: u32) -> bool {
    if plen == 0 {
        true
    } else if plen >= 32 {
        net == ip
    } else {
        net >> (32 - plen) == ip >> (32 - plen)
    }
}

pub fn cidr_contains(net: u32, plen: u32, ip: u32) -> (r: bool)
    ensures
        r == spec_cidr_contains(net, plen, ip),
{
    if plen == 0 {
        true
    } else if plen >= 32 {
        net == ip
    } else {
        net >> (32 - plen) == ip >> (32 - plen)
    }
}

/// Whether one origin entry is a CIDR range containing `ip`. Entries that do
/// not parse as IPv4 CIDR ranges never match.
pub open spec fn cidr_entry_allows(entry: Seq<char>, ip: u32) -> bool {
    match spec_parse_cidr(entry) {
        Some(r) => spec_cidr_contains(r.0, r.1, ip),
        None => false,
    }
}

/// Whether a key's origin set allows `ip`: the set is empty (unrestricted)
/// or some entry contains `ip`.
pub open spec fn spec_origin_allows(ranges: Seq<String>, ip: u32) -> bool {
    ranges.len() == 0 || exists|i: int|
        0 <= i < ranges.len() && cidr_entry_allows((#[trigger] ranges[i])@, ip)
}

#[verifier::loop_isolation(false)]
pub fn origin_allows(ranges: &Vec<String>, ip: u32) -> (r: bool)
    ensures
        r == spec_origin_allows(ranges@, ip),
{
    let n = ranges.len();
    if n == 0 {
        return true;
    }
    let mut i: usize = 0;
    while i < n
        invariant
            0 <= i <= n,
            forall|j: int| 0 <= j < i ==> !cidr_entry_allows((#[trigger] ranges@[j])@, ip),
        decreases n - i,
    {
        match parse_cidr(ranges[i].as_str()) {
            Some(r) => {
                if cidr_contains(r.0, r.1, ip) {
                    return true;
                }
            },
            None => {},
        }
        i = i + 1;
    }
    false
}

/// Mixed-radix encoding of civil UTC fields; each radix exceeds its field's
/// maximum, so the encoding orders exactly as the fields do
/// lexicographically, i.e. chronologically.
pub open spec fn spec_timestamp(y: int, mo: int, d: int, h: int, mi: int, s: int) -> int {
    ((((y * 13 + mo) * 32 + d) * 24 + h) * 60 + mi) * 61 + s
}

/// Shape check for `YYYY-MM-DDTHH:MM:SS`: digits and separators at their
/// fixed positions.
pub open spec fn ts_shape_ok(s: Seq<char>) -> bool {
    &&& s.len() >= 19
    &&& is_digit(s[0])
    &&& is_digit(s[1])
    &&& is_digit(s[2])
    &&& is_digit(s[3])
    &&& s[4] == '-'
    &&& is_digit(s[5])
    &&& is_digit(s[6])
    &&& s[7] == '-'
    &&& is_digit(s[8])
    &&& is_digit(s[9])
    &&& s[10] == 'T'
    &&& is_digit(s[11])
    &&& is_digit(s[12])
    &&& s[13] == ':'
    &&& is_digit(s[14])
    &&& is_digit(s[15])
    &&& s[16] == ':'
    &&& is_digit(s[17])
    &&& is_digit(s[18])
}

pub open spec fn ts_year(s: Seq<char>) -> int {
    digit_val(s[0]) * 1000 + digit_val(s[1]) * 100 + digit_val(s[2]) * 10 + digit_val(s[3])
}

pub open spec fn ts_month(s: Seq<char>) -> int {
    digit_val(s[5]) * 10 + digit_val(s[6])
}

pub open spec fn ts_day(s: Seq<char>) -> int {
    digit_val(s[8]) * 10 + digit_val(s[9])
}

pub open spec fn ts_hour(s: Seq<char>) -> int {
    digit_val(s[11]) * 10 + digit_val(s[12])
}

pub open spec fn ts_minute(s: Seq<char>) -> int {
    digit_val(s[14]) * 10 + digit_val(s[15])
}

pub open spec fn ts_second(s: Seq<char>) -> int {
    digit_val(s[17]) * 10 + digit_val(s[18])
}

/// Civil field ranges; seconds up to 60 to admit leap seconds.
pub open spec fn ts_fields_ok(s: Seq<char>) -> bool {
    &&& 1 <= ts_month(s) <= 12
    &&& 1 <= ts_day(s) <= 31
    &&& ts_hour(s) <= 23
    &&& ts_minute(s) <= 59
    &&& ts_second(s) <= 60
}

/// The timestamp denoted by the `YYYY-MM-DDTHH:MM:SS` prefix of `s`, as the
/// mixed-radix encoding of its fields; `None` when the shape or a field
/// range is off.
pub open spec fn spec_parse_ts(s: Seq<char>) -> Option<u64> {
    if ts_shape_ok(s) && ts_fields_ok(s) {
        Some(
            spec_timestamp(
                ts_year(s),
                ts_month(s),
                ts_day(s),
                ts_hour(s),
                ts_minute(s),
                ts_second(s),
            ) as u64,
        )
    } else {
        None
    }
}

fn read_digit(s: &str, i: usize) -> (r: Option<u32>)
    requires
        i < s@.len(),
    ensures
        match r {
            Some(d) => is_digit(s@[i as int]) && d == digit_val(s@[i as int]),
            None => !is_digit(s@[i as int]),
        },
{
    let c = s.get_char(i);
    if c >= '0' && c <= '9' {
        Some(digit_of(c))
    } else {
        None
    }
}

/// Parse the expiry form `YYYY-MM-DDTHH:MM:SS`, ignoring any suffix.
pub fn parse_timestamp(s: &str) -> (r: Option<u64>)
    ensures
        r == spec_parse_ts(s@),
{
    let n = s.unicode_len();
    if n < 19 {
        return None;
    }
    if !(s.get_char(4) == '-' && s.get_char(7) == '-' && s.get_char(10) == 'T' && s.get_char(13)
        == ':' && s.get_char(16) == ':') {
        return None;
    }
    let d0 = read_digit(s, 0);
    let d1 = read_digit(s, 1);
    let d2 = read_digit(s, 2);
    let d3 = read_digit(s, 3);
    let d5 = read_digit(s, 5);
    let d6 = read_digit(s, 6);
    let d8 = read_digit(s, 8);
    let d9 = read_digit(s, 9);
    let d11 = read_digit(s, 11);
    let d12 = read_digit(s, 12);
    let d14 = read_digit(s, 14);
    let d15 = read_digit(s, 15);
    let d17 = read_digit(s, 17);
    let d18 = read_digit(s, 18);
    match (d0, d1, d2, d3, d5, d6, d8, d9, d11, d12, d14, d15, d17, d18) {
        (
            Some(y0),
            Some(y1),
            Some(y2),
            Some(y3),
            Some(mo0),
            Some(mo1),
            Some(da0),
            Some(da1),
            Some(h0),
            Some(h1),
            Some(mi0),
            Some(mi1),
            Some(s0),
            Some(s1),
        ) => {
            let y: u64 = (y0 * 1000 + y1 * 100 + y2 * 10 + y3) as u64;
            let mo: u64 = (mo0 * 10 + mo1) as u64;
            let da: u64 = (da0 * 10 + da1) as u64;
            let h: u64 = (h0 * 10 + h1) as u64;
            let mi: u64 = (mi0 * 10 + mi1) as u64;
            let se: u64 = (s0 * 10 + s1) as u64;
            if 1 <= mo && mo <= 12 && 1 <= da && da <= 31 && h <= 23 && mi <= 59 && se <= 60 {
                Some(((((y * 13 + mo) * 32 + da) * 24 + h) * 60 + mi) * 61 + se)
            } else {
                None
            }
        },
        _ => None,
    }
}

/// Compose a timestamp from civil UTC fields, for comparison against parsed
/// key expiries.
pub fn timestamp_value(y: u32, mo: u32, d: u32, h: u32, mi: u32, s: u32) -> (r: u64)
    requires
        y <= 9999,
        1 <= mo <= 12,
        1 <= d <= 31,
        h <= 23,
        mi <= 59,
        s <= 60,
    ensures
        r == spec_timestamp(y as int, mo as int, d as int, h as int, mi as int, s as int),
{
    ((((y as u64 * 13 + mo as u64) * 32 + d as u64) * 24 + h as u64) * 60 + mi as u64) * 61
        + s as u64
}

/// Gregorian leap year.
pub open spec fn is_leap_year(y: int) -> bool {
    y % 4 == 0 && (y % 100 != 0 || y % 400 == 0)
}

pub open spec fn spec_days_in_year(y: int) -> int {
    if is_leap_year(y) {
        366
    } else {
        365
    }
}

pub open spec fn spec_days_in_month(m: int, leap: bool) -> int {
    if m == 2 {
        if leap {
            29
        } else {
            28
        }
    } else if m == 4 || m == 6 || m == 9 || m == 11 {
        30
    } else {
        31
    }
}

/// Step whole years forward from `y`, consuming `days`, stopping at year
/// 9999: the year reached and the remaining day offset into it.
pub open spec fn spec_split_year(days: int, y: int) -> (int, int)
    decreases days,
{
    if y < 9999 && days >= spec_days_in_year(y) {
        spec_split_year(days - spec_days_in_year(y), y + 1)
    } else {
        (y, days)
    }
}

/// Step whole months forward from `m`, consuming `rem`: the month reached
/// and the day offset into it.
pub open spec fn spec_split_month(rem: int, m: int, leap: bool) -> (int, int)
    decreases 12 - m,
{
    if m < 12 && rem >= spec_days_in_month(m, leap) {
        spec_split_month(rem - spec_days_in_month(m, leap), m + 1, leap)
    } else {
        (m, rem)
    }
}

/// The timestamp encoding of an epoch instant (seconds since
/// 1970-01-01T00:00:00 UTC); instants beyond year 9999 clamp to its last
/// second.
pub open spec fn spec_timestamp_from_epoch(secs: int) -> int {
    let days = secs / 86400;
    let sod = secs % 86400;
    let yd = spec_split_year(days, 1970);
    if yd.1 >= spec_days_in_year(yd.0) {
        spec_timestamp(9999, 12, 31, 23, 59, 59)
    } else {
        let md = spec_split_month(yd.1, 1, is_leap_year(yd.0));
        spec_timestamp(yd.0, md.0, md.1 + 1, sod / 3600, (sod % 3600) / 60, sod % 60)
    }
}

fn leap_year(y: u64) -> (b: bool)
    ensures
        b == is_leap_year(y as int),
{
    y % 4 == 0 && (y % 100 != 0 || y % 400 == 0)
}

fn days_in_year(y: u64) -> (r: u64)
    ensures
        r == spec_days_in_year(y as int),
{
    if leap_year(y) {
        366
    } else {
        365
    }
}

fn days_in_month(m: u64, leap: bool) -> (r: u64)
    ensures
        r == spec_days_in_month(m as int, leap),
{
    if m == 2 {
        if leap {
            29
        } else {
            28
        }
    } else if m == 4 || m == 6 || m == 9 || m == 11 {
        30
    } else {
        31
    }
}

/// Convert an epoch instant to the timestamp encoding, for comparing the
/// present moment against parsed key expiries; instants beyond year 9999
/// clamp to its last second.
#[verifier::loop_isolation(false)]
pub fn timestamp_from_epoch(secs: u64) -> (r: u64)
    ensures
        r == spec_timestamp_from_epoch(secs as int),
{
    let days: u64 = secs / 86400;
    let sod: u64 = secs % 86400;
    let mut y: u64 = 1970;
    let mut d: u64 = days;
    let mut diy: u64 = days_in_year(y);
    while y < 9999 && d >= diy
        invariant
            1970 <= y <= 9999,
            diy == spec_days_in_year(y as int),
            spec_split_year(days as int, 1970) == spec_split_year(d as int, y as int),
        decreases d,
    {
        d = d - diy;
        y = y + 1;
        diy = days_in_year(y);
    }
    if d >= diy {
        return timestamp_value(9999, 12, 31, 23, 59, 59);
    }
    let leap = leap_year(y);
    let ghost doy = d as int;
    let mut m: u64 = 1;
    let mut dim: u64 = days_in_month(m, leap);
    while m < 12 && d >= dim
        invariant
            1 <= m <= 12,
            d < 366,
            dim == spec_days_in_month(m as int, leap),
            spec_split_month(doy, 1, leap) == spec_split_month(d as int, m as int, leap),
        decreases 12 - m,
    {
        d = d - dim;
        m = m + 1;
        dim = days_in_month(m, leap);
    }
    let h: u64 = sod / 3600;
    let mi: u64 = (sod % 3600) / 60;
    let s: u64 = sod % 60;
    ((((y * 13 + m) * 32 + (d + 1)) * 24 + h) * 60 + mi) * 61 + s
}

/// The timestamp encoding orders exactly as civil time: with every field in
/// range, a chronologically earlier tuple encodes to a strictly smaller
/// value, so comparing encodings compares instants.
pub proof fn lemma_timestamp_monotone(
    y1: int,
    mo1: int,
    d1: int,
    h1: int,
    mi1: int,
    s1: int,
    y2: int,
    mo2: int,
    d2: int,
    h2: int,
    mi2: int,
    s2: int,
)
    requires
        0 <= y1,
        1 <= mo1 <= 12,
        1 <= d1 <= 31,
        0 <= h1 <= 23,
        0 <= mi1 <= 59,
        0 <= s1 <= 60,
        0 <= y2,
        1 <= mo2 <= 12,
        1 <= d2 <= 31,
        0 <= h2 <= 23,
        0 <= mi2 <= 59,
        0 <= s2 <= 60,
        y1 < y2 || (y1 == y2 && (mo1 < mo2 || (mo1 == mo2 && (d1 < d2 || (d1 == d2 && (h1 < h2 || (
        h1 == h2 && (mi1 < mi2 || (mi1 == mi2 && s1 < s2))))))))),
    ensures
        spec_timestamp(y1, mo1, d1, h1, mi1, s1) < spec_timestamp(y2, mo2, d2, h2, mi2, s2),
{
}

/// A key may be handed out only when its secret is non-empty, its origin set
/// allows the caller's current IP, and its expiry parses and has not passed.
pub open spec fn spec_key_valid(k: Key, ip: u32, now: u64) -> bool {
    &&& k.key@.len() > 0
    &&& spec_origin_allows(k.cidr_ranges@, ip)
    &&& match spec_parse_ts(k.valid_until@) {
        Some(t) => t >= now,
        None => false,
    }
}

pub fn key_is_valid(k: &Key, ip: u32, now: u64) -> (r: bool)
    ensures
        r == spec_key_valid(*k, ip, now),
{
    if k.key.as_str().is_empty() {
        return false;
    }
    if !origin_allows(&k.cidr_ranges, ip) {
        return false;
    }
    match parse_timestamp(k.valid_until.as_str()) {
        Some(t) => t >= now,
        None => false,
    }
}

/// The subsequence of keys valid for `ip` at time `now`, in order.
pub open spec fn valid_filter(keys: Seq<Key>, ip: u32, now: u64) -> Seq<Key>
    decreases keys.len(),
{
    if keys.len() == 0 {
        Seq::empty()
    } else {
        valid_filter(keys.drop_last(), ip, now) + (if spec_key_valid(keys.last(), ip, now) {
            seq![keys.last()]
        } else {
            Seq::empty()
        })
    }
}

/// Every key that survives the filter is valid: an invalid key is never
/// handed on.
pub proof fn lemma_valid_filter_sound(keys: Seq<Key>, ip: u32, now: u64)
    ensures
        forall|i: int|
            0 <= i < valid_filter(keys, ip, now).len() ==> spec_key_valid(
                #[trigger] valid_filter(keys, ip, now)[i],
                ip,
                now,
            ),
    decreases keys.len(),
{
    if keys.len() > 0 {
        lemma_valid_filter_sound(keys.drop_last(), ip, now);
        let sub = valid_filter(keys.drop_last(), ip, now);
        let whole = valid_filter(keys, ip, now);
        assert forall|i: int| 0 <= i < whole.len() implies spec_key_valid(
            #[trigger] whole[i],
            ip,
            now,
        ) by {
            if i < sub.len() {
                assert(whole[i] == sub[i]);
            } else {
                assert(whole[i] == keys.last());
            }
        }
    }
}

/// Every valid key survives the filter.
pub proof fn lemma_valid_filter_complete(keys: Seq<Key>, ip: u32, now: u64, i: int)
    requires
        0 <= i < keys.len(),
        spec_key_valid(keys[i], ip, now),
    ensures
        valid_filter(keys, ip, now).contains(keys[i]),
    decreases keys.len(),
{
    if i == keys.len() - 1 {
        assert(valid_filter(keys, ip, now).last() == keys[i]);
    } else {
        lemma_valid_filter_complete(keys.drop_last(), ip, now, i);
        let sub = valid_filter(keys.drop_last(), ip, now);
        let j = choose|j: int| 0 <= j < sub.len() && sub[j] == keys[i];
        assert(valid_filter(keys, ip, now)[j] == keys[i]);
    }
}

/// Every key the filter returns was among the keys given to it.
pub proof fn lemma_valid_filter_subset(keys: Seq<Key>, ip: u32, now: u64, j: int)
    requires
        0 <= j < valid_filter(keys, ip, now).len(),
    ensures
        exists|k: int| 0 <= k < keys.len() && #[trigger] keys[k] == valid_filter(keys, ip, now)[j],
    decreases keys.len(),
{
    if keys.len() > 0 {
        let sub = valid_filter(keys.drop_last(), ip, now);
        if j < sub.len() {
            lemma_valid_filter_subset(keys.drop_last(), ip, now, j);
            let k = choose|k: int|
                0 <= k < keys.drop_last().len() && #[trigger] keys.drop_last()[k] == sub[j];
            assert(keys[k] == valid_filter(keys, ip, now)[j]);
        } else {
            assert(keys[keys.len() - 1] == valid_filter(keys, ip, now)[j]);
        }
    }
}

/// Keep exactly the keys valid for `ip` at `now`, in their original order.
#[verifier::loop_isolation(false)]
pub fn filter_valid_keys(keys: Vec<Key>, current_ip: u32, now: u64) -> (r: Vec<Key>)
    ensures
        r@ == valid_filter(keys@, current_ip, now),
{
    let ghost orig = keys@;
    let mut rest = keys;
    let mut out: Vec<Key> = Vec::new();
    while rest.len() > 0
        invariant
            rest@.len() <= orig.len(),
            rest@ == orig.subrange(orig.len() - rest@.len(), orig.len() as int),
            out@ == valid_filter(orig.take(orig.len() - rest@.len()), current_ip, now),
        decreases rest@.len(),
    {
        let ghost done = orig.len() - rest@.len();
        let k = rest.remove(0);
        proof {
            assert(k == orig[done]);
            assert(rest@ =~= orig.subrange(orig.len() - rest@.len(), orig.len() as int));
            assert(orig.take(done + 1).drop_last() =~= orig.take(done));
            assert(orig.take(done + 1).last() == orig[done]);
        }
        if key_is_valid(&k, current_ip, now) {
            out.push(k);
        }
        proof {
            assert(out@ =~= valid_filter(orig.take(done + 1), current_ip, now));
        }
    }
    proof {
        assert(orig.take(orig.len() as int) =~= orig);
    }
    out
}

} // verus!
