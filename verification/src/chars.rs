use vstd::prelude::*;

verus! {

// Character-level text utilities.
//
// All route text, help text and dump file names are built here as `Vec<char>`
// values whose contents are pinned down exactly, and only turned into a
// `String` at the very end through `string_of`.

/// Appends every character of `s` to `buf`, in order.
pub fn append_str(buf: &mut Vec<char>, s: &str)
    ensures
        final (buf)@ == old(buf)@ + s@,
{
    let ghost start = buf@;
    for c in it: s.chars()
        invariant
            it.seq() == s@,
            buf@ == start + it.seq().subrange(0, it.index()),
    {
        buf.push(c);
        proof {
            assert(it.seq().subrange(0, it.index() + 1) == it.seq().subrange(0, it.index()).push(
                it.seq()[it.index()],
            ));
        }
    }
    proof {
        assert(buf@ == start + s@);
    }
}

/// The characters of `s`, as a vector.
pub fn chars_of(s: &str) -> (r: Vec<char>)
    ensures
        r@ == s@,
{
    let mut buf: Vec<char> = Vec::new();
    append_str(&mut buf, s);
    buf
}

/// Character-for-character equality of two string slices.
pub fn str_eq(a: &str, b: &str) -> (r: bool)
    ensures
        r == (a@ == b@),
{
    let va = chars_of(a);
    let vb = chars_of(b);
    if va.len() != vb.len() {
        return false;
    }
    let n: usize = va.len();
    let mut i: usize = 0;
    while i < n
        invariant
            n == va.len() == vb.len(),
            va@ == a@,
            vb@ == b@,
            0 <= i <= n,
            forall|j: int| 0 <= j < i ==> a@[j] == b@[j],
        decreases n - i,
    {
        if va[i] != vb[i] {
            return false;
        }
        i = i + 1;
    }
    proof {
        assert(a@ =~= b@);
    }
    true
}

/// Relies on `String`'s `FromIterator<char>` implementation: collecting the
/// characters of `v` yields the string made of exactly those characters.
#[verifier::external_body]
pub fn string_of(v: Vec<char>) -> (r: String)
    ensures
        r@ == v@,
{
    v.into_iter().collect()
}

/// The decimal digit character for `d`.
pub open spec fn spec_digit(d: int) -> char {
    ((48 + d) as u8) as char
}

/// The decimal rendering of `n` (no sign, no leading zeros except for 0
/// itself), most significant digit first.
pub open spec fn spec_dec(n: int) -> Seq<char>
    decreases n,
{
    if n < 10 {
        seq![spec_digit(n)]
    } else {
        spec_dec(n / 10).push(spec_digit(n % 10))
    }
}

/// Appends the decimal rendering of `n` to `buf`.
pub fn append_dec_u16(buf: &mut Vec<char>, n: u16)
    ensures
        final (buf)@ == old(buf)@ + spec_dec(n as int),
    decreases n,
{
    if n >= 10 {
        append_dec_u16(buf, n / 10);
    }
    let d: u8 = 48 + (n % 10) as u8;
    buf.push(d as char);
}

} // verus!
