//! Parsing of human-written durations such as `120s`, `2m` or `500ms`.

use vstd::prelude::*;

verus! {

/// Why a duration could not be parsed.
#[derive(Debug, Clone, Copy, PartialEq, Eq, Structural)]
pub enum TimeoutError {
    /// The text holds no digit at all.
    MissingMagnitude,
    /// The text before the unit is not an unsigned 64-bit number.
    InvalidMagnitude,
    /// The unit is not one of `ms`, `s`, `m`, `h` or `d`.
    InvalidUnit,
    /// The duration does not fit in 64 bits of milliseconds.
    Overflow,
}

pub open spec fn is_ascii_digit(c: char) -> bool {
    '0' <= c && c <= '9'
}

pub open spec fn digit_value(c: char) -> nat {
    ((c as u32) - ('0' as u32)) as nat
}

/// Index of the last ASCII digit of `s`, if there is one.
pub open spec fn last_digit(s: Seq<char>) -> Option<int>
    decreases s.len(),
{
    if s.len() == 0 {
        None
    } else if is_ascii_digit(s.last()) {
        Some(s.len() - 1)
    } else {
        last_digit(s.drop_last())
    }
}

pub open spec fn all_digits(d: Seq<char>) -> bool {
    forall|i: int| 0 <= i < d.len() ==> is_ascii_digit(#[trigger] d[i])
}

/// The number that a run of decimal digits denotes.
pub open spec fn digits_value(d: Seq<char>) -> nat
    decreases d.len(),
{
    if d.len() == 0 {
        0
    } else {
        digits_value(d.drop_last()) * 10 + digit_value(d.last())
    }
}

/// What parsing `m` as a `u64` yields: an optional `+`, then one or more
/// ASCII digits whose value fits in 64 bits.
pub open spec fn parse_u64(m: Seq<char>) -> Option<u64> {
    let d = if m.len() > 0 && m[0] == '+' { m.drop_first() } else { m };
    if d.len() > 0 && all_digits(d) && digits_value(d) <= u64::MAX {
        Some(digits_value(d) as u64)
    } else {
        None
    }
}

/// Milliseconds per unit; a bare number is accepted only when it is zero.
pub open spec fn unit_millis(unit: Seq<char>, magnitude: u64) -> Option<u64> {
    if unit.len() == 0 && magnitude == 0 {
        Some(0)
    } else if unit == seq!['m', 's'] {
        Some(1)
    } else if unit == seq!['s'] {
        Some(1000)
    } else if unit == seq!['m'] {
        Some(60_000)
    } else if unit == seq!['h'] {
        Some(3_600_000)
    } else if unit == seq!['d'] {
        Some(86_400_000)
    } else {
        None
    }
}

/// The duration, in milliseconds, that `s` denotes: the text up to its last
/// digit is the magnitude and the rest is the unit.
pub open spec fn timeout_millis(s: Seq<char>) -> Result<u64, TimeoutError> {
    match last_digit(s) {
        None => Err(TimeoutError::MissingMagnitude),
        Some(i) => match parse_u64(s.take(i + 1)) {
            None => Err(TimeoutError::InvalidMagnitude),
            Some(m) => match unit_millis(s.skip(i + 1), m) {
                None => Err(TimeoutError::InvalidUnit),
                Some(k) => if m * k <= u64::MAX {
                    Ok((m * k) as u64)
                } else {
                    Err(TimeoutError::Overflow)
                },
            },
        },
    }
}

/// The duration that `Duration::from_millis` builds from `ms`.
pub uninterp spec fn duration_of_millis(ms: u64) -> core::time::Duration;

/// Relies on `core::time::Duration::from_millis`, which depends on its
/// argument alone.
#[verifier::external_body]
fn duration_from_millis(ms: u64) -> (r: core::time::Duration)
    ensures
        r == duration_of_millis(ms),
{
    core::time::Duration::from_millis(ms)
}

proof fn lemma_last_digit(s: Seq<char>, k: int)
    requires
        0 <= k <= s.len(),
        forall|j: int| k <= j < s.len() ==> !is_ascii_digit(#[trigger] s[j]),
    ensures
        k == 0 ==> last_digit(s) is None,
        k > 0 && is_ascii_digit(s[k - 1]) ==> last_digit(s) == Some(k - 1),
    decreases s.len(),
{
    if s.len() > k {
        assert(!is_ascii_digit(s[s.len() - 1]));
        let t = s.drop_last();
        assert forall|j: int| k <= j < t.len() implies !is_ascii_digit(#[trigger] t[j]) by {
            assert(t[j] == s[j]);
        }
        lemma_last_digit(t, k);
        if k > 0 {
            assert(t[k - 1] == s[k - 1]);
        }
    }
}

proof fn lemma_digits_prefix(d: Seq<char>, j: int)
    requires
        0 <= j <= d.len(),
    ensures
        digits_value(d.take(j)) <= digits_value(d),
    decreases d.len() - j,
{
    if j < d.len() {
        lemma_digits_prefix(d, j + 1);
        assert(d.take(j + 1).drop_last() =~= d.take(j));
    } else {
        assert(d.take(j) =~= d);
    }
}

/// Milliseconds per unit for the text of `s` from index `i` on.
fn unit_multiplier(s: &str, i: usize, magnitude: u64) -> (r: Option<u64>)
    requires
        i <= s@.len(),
    ensures
        r == unit_millis(s@.skip(i as int), magnitude),
{
    let ghost unit = s@.skip(i as int);
    let n = s.unicode_len();
    let rest: usize = n - i;
    assert(seq!['s'].len() == 1 && seq!['m'].len() == 1 && seq!['m', 's'].len() == 2);
    assert(seq!['h'].len() == 1 && seq!['d'].len() == 1);
    assert(seq!['s'][0] == 's' && seq!['m'][0] == 'm');
    assert(seq!['h'][0] == 'h' && seq!['d'][0] == 'd');
    assert(seq!['m', 's'][0] == 'm' && seq!['m', 's'][1] == 's');
    if rest == 0 {
        assert(unit.len() == 0);
        if magnitude == 0 { Some(0) } else { None }
    } else if rest == 1 {
        let u = s.get_char(i);
        assert(unit =~= seq![u]);
        assert(unit != seq!['m', 's']);
        if u == 's' {
            Some(1000)
        } else if u == 'm' {
            Some(60_000)
        } else if u == 'h' {
            Some(3_600_000)
        } else if u == 'd' {
            Some(86_400_000)
        } else {
            None
        }
    } else if rest == 2 {
        let u0 = s.get_char(i);
        let u1 = s.get_char(i + 1);
        assert(unit =~= seq![u0, u1]);
        if u0 == 'm' && u1 == 's' {
            Some(1)
        } else {
            None
        }
    } else {
        assert(unit.len() > 2);
        assert(unit != seq!['m', 's']);
        None
    }
}

/// Parses a duration into milliseconds: a magnitude followed by one of the
/// units `ms`, `s`, `m`, `h` or `d`, or a bare `0`.
pub fn parse_timeout_millis(s: &str) -> (r: Result<u64, TimeoutError>)
    ensures
        r == timeout_millis(s@),
{
    let n = s.unicode_len();
    let mut i: usize = n;
    while i > 0
        invariant
            i <= n,
            n == s@.len(),
            forall|j: int| i <= j < n ==> !is_ascii_digit(#[trigger] s@[j]),
        ensures
            i > 0 ==> is_ascii_digit(s@[i - 1]),
        decreases i,
    {
        let c = s.get_char(i - 1);
        if '0' <= c && c <= '9' {
            break;
        }
        i = i - 1;
    }
    proof {
        lemma_last_digit(s@, i as int);
    }
    if i == 0 {
        return Err(TimeoutError::MissingMagnitude);
    }
    let ghost m = s@.take(i as int);
    let start: usize = if s.get_char(0) == '+' { 1 } else { 0 };
    let ghost d = m.skip(start as int);
    assert(m[0] == s@[0]);
    assert(start == 1 <==> m[0] == '+');
    assert(m.len() > 0);
    assert(d =~= (if m.len() > 0 && m[0] == '+' { m.drop_first() } else { m }));
    let mut value: u64 = 0;
    let mut k: usize = start;
    while k < i
        invariant
            start <= k <= i,
            i <= n,
            n == s@.len(),
            m == s@.take(i as int),
            d == m.skip(start as int),
            d == (if m.len() > 0 && m[0] == '+' { m.drop_first() } else { m }),
            start <= 1,
            start == 1 ==> s@[0] == '+',
            i > 0,
            is_ascii_digit(s@[i - 1]),
            last_digit(s@) == Some(i - 1),
            all_digits(d.take(k - start)),
            value == digits_value(d.take(k - start)),
        decreases i - k,
    {
        let c = s.get_char(k);
        let ghost pre = d.take(k - start);
        let ghost next = d.take(k + 1 - start);
        assert(next.drop_last() =~= pre);
        assert(next.last() == c);
        if !('0' <= c && c <= '9') {
            assert(d[k - start] == c);
            assert(!is_ascii_digit(d[k - start]));
            assert(!all_digits(d));
            assert(parse_u64(m) is None);
            return Err(TimeoutError::InvalidMagnitude);
        }
        let dv: u64 = (c as u32 - '0' as u32) as u64;
        if value > (u64::MAX - dv) / 10 {
            proof {
                assert(value * 10 + dv > u64::MAX) by (nonlinear_arith)
                    requires value > (u64::MAX - dv) / 10, dv <= 9;
                lemma_digits_prefix(d, k + 1 - start);
                assert(digits_value(next) == value * 10 + dv);
                if all_digits(d) {
                    assert(digits_value(d) > u64::MAX);
                }
                assert(parse_u64(m) is None);
            }
            return Err(TimeoutError::InvalidMagnitude);
        }
        assert(value * 10 + dv <= u64::MAX) by (nonlinear_arith)
            requires value <= (u64::MAX - dv) / 10, dv <= 9;
        value = value * 10 + dv;
        assert forall|j: int| 0 <= j < next.len() implies is_ascii_digit(#[trigger] next[j]) by {
            if j < pre.len() {
                assert(next[j] == pre[j]);
            }
        }
        k = k + 1;
    }
    assert(d.take(k - start) =~= d);
    if start == 1 && i == 1 {
        assert(false);
    }
    let mul = unit_multiplier(s, i, value);
    match mul {
        None => Err(TimeoutError::InvalidUnit),
        Some(k) => match value.checked_mul(k) {
            None => Err(TimeoutError::Overflow),
            Some(ms) => Ok(ms),
        },
    }
}

/// Parses a duration such as `120s`, `2m`, `500ms` or `0`.
pub fn parse_timeout(s: &str) -> (r: Result<core::time::Duration, TimeoutError>)
    ensures
        r == (match timeout_millis(s@) {
            Ok(ms) => Ok(duration_of_millis(ms)),
            Err(e) => Err(e),
        }),
{
    match parse_timeout_millis(s) {
        Ok(ms) => Ok(duration_from_millis(ms)),
        Err(e) => Err(e),
    }
}

} // verus!
