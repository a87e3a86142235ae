use vstd::prelude::*;
use crate::chars::{append_str, string_of};
use crate::parse::is_dec_digit;

verus! {

// The dump file naming policy.
//
// A dump is written to `{name}.{timestamp}.{ext}`: the logical name chosen
// by the caller, a human-readable local-time stamp with second resolution,
// and an extension fixed by the profiling kind. Two dumps of the same name
// within the same second overwrite each other; that is the accepted
// collision policy, not a uniqueness guarantee.

/// The profiling kinds, each with its own independent session slot.
#[derive(Clone, Copy, Debug, PartialEq, Eq, Structural)]
pub enum ProfKind {
    /// Statistical CPU stack sampling; dumps are SVG flamegraphs.
    Cpu,
    /// Heap allocation profiling; dumps are the allocator's native format.
    Memory,
}

impl ProfKind {
    /// The file extension of a dump of this kind.
    pub open spec fn spec_extension(&self) -> Seq<char> {
        match self {
            ProfKind::Cpu => "svg"@,
            ProfKind::Memory => "out"@,
        }
    }

    /// The file extension of a dump of this kind.
    pub fn extension(&self) -> (r: &'static str)
        ensures
            r@ == self.spec_extension(),
    {
        match self {
            ProfKind::Cpu => "svg",
            ProfKind::Memory => "out",
        }
    }
}

/// A character that may appear in a dump file name: nothing that could make
/// the name escape the intended output directory, and no NUL, so the name
/// can be handed to a native interface.
pub open spec fn valid_name_char(c: char) -> bool {
    c != '/' && c != '\\' && c != '\u{0}'
}

/// A logical dump name (or timestamp) that is safe to embed in a file name.
pub open spec fn valid_dump_name(s: Seq<char>) -> bool {
    forall|i: int| 0 <= i < s.len() ==> valid_name_char(s[i])
}

/// The file name a dump is written to: `{name}.{timestamp}.{ext}`.
pub open spec fn spec_dump_file_name(name: Seq<char>, ts: Seq<char>, kind: ProfKind) -> Seq<char> {
    name + "."@ + ts + "."@ + kind.spec_extension()
}

/// Builds the file name a dump is written to.
pub fn dump_file_name(name: &str, ts: &str, kind: ProfKind) -> (r: String)
    ensures
        r@ == spec_dump_file_name(name@, ts@, kind),
        valid_dump_name(name@) && valid_dump_name(ts@) ==> valid_dump_name(r@),
{
    let mut buf: Vec<char> = Vec::new();
    append_str(&mut buf, name);
    append_str(&mut buf, ".");
    append_str(&mut buf, ts);
    append_str(&mut buf, ".");
    append_str(&mut buf, kind.extension());
    proof {
        reveal_strlit(".");
        reveal_strlit("svg");
        reveal_strlit("out");
    }
    string_of(buf)
}

/// The shape of the clock's rendering `{year}-{MM}-{DD}_{HH}:{MM}:{SS}`:
/// the five separators at their fixed distances from the end, decimal
/// digits everywhere else but for an optional leading sign on the year,
/// and second resolution. A four-digit year gives exactly 19 characters;
/// a year outside `0000`–`9999` gives a longer, signed rendering.
pub open spec fn valid_timestamp(s: Seq<char>) -> bool {
    &&& s.len() >= 19
    &&& s[s.len() - 15] == '-'
    &&& s[s.len() - 12] == '-'
    &&& s[s.len() - 9] == '_'
    &&& s[s.len() - 6] == ':'
    &&& s[s.len() - 3] == ':'
    &&& forall|i: int|
        0 <= i < s.len() && i != s.len() - 15 && i != s.len() - 12 && i != s.len() - 9 && i
            != s.len() - 6 && i != s.len() - 3 ==> is_dec_digit(s[i]) || (i == 0 && (s[i] == '+'
            || s[i] == '-'))
}

/// A timestamp of the documented shape is safe to embed in a dump file
/// name: digits, separators and a sign are neither path separators nor NUL.
pub proof fn lemma_timestamp_name_safe(s: Seq<char>)
    requires
        valid_timestamp(s),
    ensures
        valid_dump_name(s),
{
    assert forall|i: int| 0 <= i < s.len() implies valid_name_char(s[i]) by {
        if i != s.len() - 15 && i != s.len() - 12 && i != s.len() - 9 && i != s.len() - 6 && i
            != s.len() - 3 {
            assert(is_dec_digit(s[i]) || (i == 0 && (s[i] == '+' || s[i] == '-')));
        }
    }
}

/// Relies on chrono's `Local::now` and its `%Y-%m-%d_%H:%M:%S` formatting:
/// every outcome is the local time at second resolution in the documented
/// shape — the five fixed separators `-`, `-`, `_`, `:`, `:`, decimal
/// digits everywhere else, at most a leading sign on an out-of-range year,
/// 19 characters for a four-digit year.
#[verifier::external_body]
pub(crate) fn now_timestamp() -> (r: String)
    ensures
        valid_timestamp(r@),
{
    chrono::Local::now().format("%Y-%m-%d_%H:%M:%S").to_string()
}

} // verus!
