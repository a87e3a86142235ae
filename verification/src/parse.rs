use vstd::prelude::*;
use crate::chars::chars_of;

verus! {

// Parsing of the sampling-frequency query parameter.
//
// The control surface accepts `?frequency=<int>`; a missing or unparsable
// value falls back to the default of 100 Hz instead of being an error. The
// grammar below is exactly the one `i32` accepts from a string: an optional
// `+` or `-` sign, then one or more ASCII decimal digits, with the signed
// value in the range of `i32`.

/// The default sampling frequency, in Hz.
pub const DEFAULT_FREQUENCY: i32 = 100;

pub open spec fn is_dec_digit(c: char) -> bool {
    48 <= c as int && c as int <= 57
}

pub open spec fn digit_val(c: char) -> int {
    c as int - 48
}

pub open spec fn all_dec_digits(s: Seq<char>) -> bool {
    forall|i: int| 0 <= i < s.len() ==> is_dec_digit(s[i])
}

/// The value of a sequence of decimal digits, most significant first.
pub open spec fn dec_value(s: Seq<char>) -> int
    decreases s.len(),
{
    if s.len() == 0 {
        0
    } else {
        dec_value(s.drop_last()) * 10 + digit_val(s.last())
    }
}

/// The signed decimal literals that `i32` accepts: an optional sign, then
/// one or more digits, value within the range of `i32`.
pub open spec fn spec_parse_i32(s: Seq<char>) -> Option<int> {
    let signed = s.len() > 0 && (s[0] == '+' || s[0] == '-');
    let body = if signed {
        s.subrange(1, s.len() as int)
    } else {
        s
    };
    if body.len() > 0 && all_dec_digits(body) {
        let v = if signed && s[0] == '-' {
            -dec_value(body)
        } else {
            dec_value(body)
        };
        if -0x8000_0000 <= v && v <= 0x7fff_ffff {
            Some(v)
        } else {
            None
        }
    } else {
        None
    }
}

/// The frequency a request yields: the parsed value of the parameter, or the
/// default when the parameter is missing or unparsable.
pub open spec fn spec_frequency(q: Option<Seq<char>>) -> int {
    match q {
        None => DEFAULT_FREQUENCY as int,
        Some(s) => match spec_parse_i32(s) {
            Some(v) => v,
            None => DEFAULT_FREQUENCY as int,
        },
    }
}

proof fn lemma_dec_value_nonneg(s: Seq<char>)
    requires
        all_dec_digits(s),
    ensures
        dec_value(s) >= 0,
    decreases s.len(),
{
    if s.len() > 0 {
        assert(all_dec_digits(s.drop_last()));
        lemma_dec_value_nonneg(s.drop_last());
    }
}

/// Appending digits never decreases the value of a digit string.
proof fn lemma_dec_value_prefix_le(s: Seq<char>, k: int)
    requires
        all_dec_digits(s),
        0 <= k <= s.len(),
    ensures
        dec_value(s.subrange(0, k)) <= dec_value(s),
    decreases s.len() - k,
{
    if k == s.len() {
        assert(s.subrange(0, k) == s);
    } else {
        let t = s.subrange(0, k + 1);
        assert(t.drop_last() == s.subrange(0, k));
        assert(all_dec_digits(t));
        lemma_dec_value_nonneg(t.drop_last());
        assert(dec_value(t) == dec_value(s.subrange(0, k)) * 10 + digit_val(t.last()));
        assert(dec_value(s.subrange(0, k)) <= dec_value(t));
        lemma_dec_value_prefix_le(s, k + 1);
    }
}

/// Parses `s` as a signed decimal `i32`, exactly as `i32` itself reads a
/// string: `None` on an empty body, a non-digit, or a value out of range.
pub fn parse_i32(s: &str) -> (r: Option<i32>)
    ensures
        spec_parse_i32(s@) is Some ==> (r matches Some(v) && v as int == spec_parse_i32(s@)->0),
        spec_parse_i32(s@) is None ==> r is None,
{
    let cs = chars_of(s);
    let n: usize = cs.len();
    if n == 0 {
        return None;
    }
    let mut start: usize = 0;
    let mut negative: bool = false;
    let c0 = cs[0];
    if c0 == '-' {
        negative = true;
        start = 1;
    } else if c0 == '+' {
        start = 1;
    }
    if start == n {
        return None;
    }
    let ghost body = s@.subrange(start as int, n as int);
    let mut acc: i64 = 0;
    let mut j: usize = start;
    while j < n
        invariant
            cs@ == s@,
            n == s@.len(),
            start <= j <= n,
            start <= 1,
            (start == 1) == (s@[0] == '+' || s@[0] == '-'),
            negative == (start == 1 && s@[0] == '-'),
            body == s@.subrange(start as int, n as int),
            all_dec_digits(s@.subrange(start as int, j as int)),
            acc == dec_value(s@.subrange(start as int, j as int)),
            0 <= acc <= 0x8000_0000,
        decreases n - j,
    {
        let c: char = cs[j];
        let ghost seen = s@.subrange(start as int, j as int);
        if c < '0' || c > '9' {
            // A non-digit in the body: the whole string is unparsable.
            proof {
                assert(body[j - start] == s@[j as int]);
                assert(!all_dec_digits(body));
            }
            return None;
        }
        let cv: u32 = c as u32;
        proof {
            assert(cs@[j as int] == s@[j as int]);
            assert(c as int == cv as int);
            assert(is_dec_digit(c));
            assert(digit_val(c) == cv - 48);
            let ext = seen.push(c);
            assert(s@.subrange(start as int, j + 1) =~= ext);
            assert(ext.drop_last() == seen);
            assert(ext.last() == c);
            assert(dec_value(ext) == dec_value(seen) * 10 + digit_val(c));
            assert(forall|i: int| 0 <= i < ext.len() ==> is_dec_digit(#[trigger] ext[i]));
        }
        acc = acc * 10 + (cv - 48) as i64;
        j = j + 1;
        if acc > 0x8000_0000 {
            // Already past the magnitude of any i32; more digits cannot
            // bring the value back into range.
            proof {
                if start == 0 {
                    assert(s@.subrange(0, n as int) =~= s@);
                }
                if all_dec_digits(body) {
                    lemma_dec_value_prefix_le(body, j - start);
                    assert(body.subrange(0, j - start) =~= s@.subrange(start as int, j as int));
                    assert(dec_value(body) > 0x8000_0000);
                }
            }
            return None;
        }
    }
    proof {
        assert(s@.subrange(start as int, n as int) == body);
        if start == 0 {
            assert(s@.subrange(0, n as int) =~= s@);
        }
        assert(acc == dec_value(body));
        assert(body.len() > 0);
        assert(all_dec_digits(body));
    }
    if negative {
        let v: i64 = -acc;
        Some(v as i32)
    } else {
        if acc == 0x8000_0000 {
            return None;
        }
        Some(acc as i32)
    }
}

/// The frequency a request's raw parameter yields.
pub open spec fn spec_frequency_of(q: Option<&str>) -> int {
    match q {
        Some(s) => spec_frequency(Some(s@)),
        None => spec_frequency(None),
    }
}

/// The frequency to use for a request: the parsed parameter, or 100 Hz when
/// it is missing or unparsable.
pub fn parse_frequency(q: Option<&str>) -> (r: i32)
    ensures
        r as int == spec_frequency_of(q),
{
    match q {
        None => DEFAULT_FREQUENCY,
        Some(s) => match parse_i32(s) {
            Some(v) => v,
            None => DEFAULT_FREQUENCY,
        },
    }
}

} // verus!
