//! Reading the one-value text files that the kernel exposes under sysfs
//! (`scaling_cur_freq`, `thermal_zone*/temp`): surrounding whitespace is
//! ignored, the value is a decimal integer, and anything else reads as zero.
use vstd::prelude::*;
use vstd::string::StrSliceExecFns;

verus! {

/// Whether `c` has Unicode's White_Space property, as `char::is_whitespace` decides.
pub uninterp spec fn whitespace(c: char) -> bool;

/// Relies on `char::is_whitespace`, which `str::trim` uses to cut both ends.
#[verifier::external_body]
fn is_space(c: char) -> (r: bool)
    ensures
        r == whitespace(c),
{
    c.is_whitespace()
}

/// `s` without its leading whitespace.
pub open spec fn trim_start(s: Seq<char>) -> Seq<char>
    decreases s.len(),
{
    if s.len() > 0 && whitespace(s[0]) {
        trim_start(s.drop_first())
    } else {
        s
    }
}

/// `s` without its trailing whitespace.
pub open spec fn trim_end(s: Seq<char>) -> Seq<char>
    decreases s.len(),
{
    if s.len() > 0 && whitespace(s.last()) {
        trim_end(s.drop_last())
    } else {
        s
    }
}

/// `s` without whitespace at either end, as `str::trim` gives it.
pub open spec fn trimmed(s: Seq<char>) -> Seq<char> {
    trim_end(trim_start(s))
}

pub open spec fn is_digit(c: char) -> bool {
    '0' <= c <= '9'
}

pub open spec fn all_digits(s: Seq<char>) -> bool {
    forall|i: int| 0 <= i < s.len() ==> is_digit(#[trigger] s[i])
}

/// The number that the decimal digits `s` write, most significant first.
pub open spec fn decimal_value(s: Seq<char>) -> nat
    decreases s.len(),
{
    if s.len() == 0 {
        0
    } else {
        decimal_value(s.drop_last()) * 10 + (s.last() as nat - '0' as nat) as nat
    }
}

/// A non-empty run of decimal digits whose value is at most `limit`.
pub open spec fn digits_within(s: Seq<char>, limit: int) -> bool {
    s.len() > 0 && all_digits(s) && decimal_value(s) <= limit
}

proof fn lemma_decimal_value_grows(s: Seq<char>, j: int, k: int)
    requires
        0 <= j <= k <= s.len(),
        all_digits(s),
    ensures
        decimal_value(s.subrange(0, j)) <= decimal_value(s.subrange(0, k)),
    decreases k - j,
{
    if j < k {
        lemma_decimal_value_grows(s, j, k - 1);
        assert(s.subrange(0, k).drop_last() =~= s.subrange(0, k - 1));
        assert(is_digit(s[k - 1]));
    }
}

/// Reads the digits `s[lo..hi]` as a number no greater than `limit`.
fn digits_value(s: &str, lo: usize, hi: usize, limit: u64) -> (r: Option<u64>)
    requires
        lo <= hi <= s@.len(),
    ensures
        r == (if digits_within(s@.subrange(lo as int, hi as int), limit as int) {
            Some(decimal_value(s@.subrange(lo as int, hi as int)) as u64)
        } else {
            None::<u64>
        }),
{
    let ghost d = s@.subrange(lo as int, hi as int);
    if lo == hi {
        return None;
    }
    let mut acc: u64 = 0;
    let mut i: usize = lo;
    while i < hi
        invariant
            lo <= i <= hi <= s@.len(),
            d == s@.subrange(lo as int, hi as int),
            all_digits(d.subrange(0, i - lo)),
            acc as int == decimal_value(d.subrange(0, i - lo)),
            acc <= limit,
        decreases hi - i,
    {
        let c = s.get_char(i);
        assert(d.subrange(0, i - lo + 1).drop_last() =~= d.subrange(0, i - lo));
        if !('0' <= c && c <= '9') {
            assert(!is_digit(d[i - lo]));
            return None;
        }
        let digit: u64 = (c as u32 - '0' as u32) as u64;
        let next = match acc.checked_mul(10) {
            Some(m) => m.checked_add(digit),
            None => None,
        };
        match next {
            Some(v) if v <= limit => {
                acc = v;
            },
            _ => {
                proof {
                    assert(decimal_value(d.subrange(0, i - lo + 1)) > limit);
                    if all_digits(d) {
                        lemma_decimal_value_grows(d, i - lo + 1, d.len() as int);
                        assert(d.subrange(0, d.len() as int) =~= d);
                    }
                }
                return None;
            },
        }
        i = i + 1;
    }
    assert(d.subrange(0, i - lo) =~= d);
    Some(acc)
}

proof fn lemma_trim_start_at(t: Seq<char>, k: int)
    requires
        0 <= k <= t.len(),
        forall|j: int| 0 <= j < k ==> whitespace(#[trigger] t[j]),
        k == t.len() || !whitespace(t[k]),
    ensures
        trim_start(t) == t.subrange(k, t.len() as int),
    decreases k,
{
    if k == 0 {
        assert(t.subrange(0, t.len() as int) =~= t);
    } else {
        let u = t.drop_first();
        assert forall|j: int| 0 <= j < k - 1 implies whitespace(#[trigger] u[j]) by {
            assert(u[j] == t[j + 1]);
        }
        lemma_trim_start_at(u, k - 1);
        assert(u.subrange(k - 1, u.len() as int) =~= t.subrange(k, t.len() as int));
    }
}

proof fn lemma_trim_end_at(t: Seq<char>, k: int)
    requires
        0 <= k <= t.len(),
        forall|j: int| k <= j < t.len() ==> whitespace(#[trigger] t[j]),
        k == 0 || !whitespace(t[k - 1]),
    ensures
        trim_end(t) == t.subrange(0, k),
    decreases t.len() - k,
{
    if k == t.len() {
        assert(t.subrange(0, k) =~= t);
    } else {
        let u = t.drop_last();
        assert forall|j: int| k <= j < u.len() implies whitespace(#[trigger] u[j]) by {
            assert(u[j] == t[j]);
        }
        lemma_trim_end_at(u, k);
        assert(u.subrange(0, k) =~= t.subrange(0, k));
    }
}

/// Where `s` starts and ends once the whitespace at both ends is cut.
fn trim_bounds(s: &str) -> (r: (usize, usize))
    ensures
        r.0 <= r.1 <= s@.len(),
        s@.subrange(r.0 as int, r.1 as int) == trimmed(s@),
{
    let n = s.unicode_len();
    let mut lo: usize = 0;
    while lo < n && is_space(s.get_char(lo))
        invariant
            lo <= n == s@.len(),
            forall|j: int| 0 <= j < lo ==> whitespace(#[trigger] s@[j]),
        decreases n - lo,
    {
        lo = lo + 1;
    }
    proof {
        lemma_trim_start_at(s@, lo as int);
    }
    let ghost t = s@.subrange(lo as int, n as int);
    let mut hi: usize = n;
    while hi > lo && is_space(s.get_char(hi - 1))
        invariant
            lo <= hi <= n == s@.len(),
            t == s@.subrange(lo as int, n as int),
            forall|j: int| hi <= j < n ==> whitespace(#[trigger] s@[j]),
        decreases hi,
    {
        hi = hi - 1;
    }
    proof {
        assert forall|j: int| hi - lo <= j < t.len() implies whitespace(#[trigger] t[j]) by {
            assert(t[j] == s@[j + lo]);
        }
        if hi > lo {
            assert(t[hi - lo - 1] == s@[hi - 1]);
        }
        lemma_trim_end_at(t, hi - lo);
        assert(t.subrange(0, hi - lo) =~= s@.subrange(lo as int, hi as int));
    }
    (lo, hi)
}

/// The digits of an unsigned decimal `t`: one leading `+` is allowed.
pub open spec fn unsigned_digits(t: Seq<char>) -> Seq<char> {
    if t.len() > 0 && t[0] == '+' {
        t.drop_first()
    } else {
        t
    }
}

/// The digits of a signed decimal `t`: one leading `+` or `-` is allowed.
pub open spec fn signed_digits(t: Seq<char>) -> Seq<char> {
    if t.len() > 0 && (t[0] == '+' || t[0] == '-') {
        t.drop_first()
    } else {
        t
    }
}

pub open spec fn is_negative(t: Seq<char>) -> bool {
    t.len() > 0 && t[0] == '-'
}

/// The unsigned integer that the text `t` writes, or 0 where it writes none
/// that fits in 64 bits.
pub open spec fn unsigned_or_zero(t: Seq<char>) -> u64 {
    let d = unsigned_digits(t);
    if digits_within(d, u64::MAX as int) {
        decimal_value(d) as u64
    } else {
        0
    }
}

/// The signed integer that the text `t` writes, or 0 where it writes none
/// that fits in 64 bits.
pub open spec fn signed_or_zero(t: Seq<char>) -> i64 {
    let d = signed_digits(t);
    if is_negative(t) {
        if digits_within(d, 0x8000_0000_0000_0000) {
            (-decimal_value(d)) as i64
        } else {
            0
        }
    } else if digits_within(d, i64::MAX as int) {
        decimal_value(d) as i64
    } else {
        0
    }
}

/// Reads an unsigned decimal, with an optional `+`, that makes up the whole
/// of `t`; 0 where `t` is anything else or the value does not fit.
pub fn unsigned_value(t: &str) -> (r: u64)
    ensures
        r == unsigned_or_zero(t@),
{
    let n = t.unicode_len();
    let mut start: usize = 0;
    if n > 0 && t.get_char(0) == '+' {
        start = 1;
    }
    assert(t@.subrange(start as int, n as int) =~= unsigned_digits(t@));
    match digits_value(t, start, n, u64::MAX) {
        Some(v) => v,
        None => 0,
    }
}

/// Reads a signed decimal, with an optional `+` or `-`, that makes up the
/// whole of `t`; 0 where `t` is anything else or the value does not fit.
pub fn signed_value(t: &str) -> (r: i64)
    ensures
        r == signed_or_zero(t@),
{
    let n = t.unicode_len();
    let mut start: usize = 0;
    let mut negative = false;
    if n > 0 {
        let c = t.get_char(0);
        if c == '+' || c == '-' {
            start = 1;
            negative = c == '-';
        }
    }
    assert(t@.subrange(start as int, n as int) =~= signed_digits(t@));
    if negative {
        match digits_value(t, start, n, 0x8000_0000_0000_0000u64) {
            Some(v) => {
                if v == 0x8000_0000_0000_0000u64 {
                    i64::MIN
                } else {
                    -(v as i64)
                }
            },
            None => 0,
        }
    } else {
        match digits_value(t, start, n, i64::MAX as u64) {
            Some(v) => v as i64,
            None => 0,
        }
    }
}

/// The Hz of a clock rate given in kHz; 0 where it does not fit.
pub open spec fn hz_of_khz(khz: u64) -> u64 {
    if khz * 1000 <= u64::MAX {
        (khz * 1000) as u64
    } else {
        0
    }
}

/// The clock rate in Hz that a `scaling_cur_freq` file holding `s` reports:
/// the file gives kHz; 0 where it is unreadable or the rate does not fit.
pub open spec fn frequency_hz_of(s: Seq<char>) -> u64 {
    hz_of_khz(unsigned_or_zero(trimmed(s)))
}

/// The temperature in thousandths of a degree Celsius that a thermal zone's
/// `temp` file holding `s` reports; 0 where it is unreadable.
pub open spec fn millidegrees_of(s: Seq<char>) -> i64 {
    signed_or_zero(trimmed(s))
}

/// Converts a clock rate in kHz to Hz; 0 where it does not fit.
pub fn khz_to_hz(khz: u64) -> (r: u64)
    ensures
        r == hz_of_khz(khz),
{
    match khz.checked_mul(1000) {
        Some(hz) => hz,
        None => 0,
    }
}

/// `s` without whitespace at either end.
fn trim(s: &str) -> (r: &str)
    ensures
        r@ == trimmed(s@),
{
    let (lo, hi) = trim_bounds(s);
    s.substring_char(lo, hi)
}

/// The clock rate in Hz read from the text of a `scaling_cur_freq` file.
pub fn parse_frequency_hz(text: &str) -> (r: u64)
    ensures
        r == frequency_hz_of(text@),
{
    khz_to_hz(unsigned_value(trim(text)))
}

/// The temperature in thousandths of a degree Celsius read from the text of
/// a thermal zone's `temp` file.
pub fn parse_millidegrees(text: &str) -> (r: i64)
    ensures
        r == millidegrees_of(text@),
{
    signed_value(trim(text))
}

} // verus!
