use vstd::prelude::*;
use crate::chars::{append_dec_u16, append_str, spec_dec, string_of};
use crate::errors::ProfError;

verus! {

// The text of the control surface.
//
// The router itself is thin glue around the controllers; what is pinned
// down here is every byte of the text it serves: the help listing — which
// names only the routes of the profiling kinds enabled in this process —
// and the success and error response bodies.

/// One help line: `curl localhost:{port}{suffix}`.
pub open spec fn spec_route(port: int, suffix: Seq<char>) -> Seq<char> {
    "curl localhost:"@ + spec_dec(port) + suffix
}

/// The help lines for the CPU profiling routes.
pub open spec fn spec_cpu_routes(port: int) -> Seq<char> {
    spec_route(port, "/cpu/active\r\n"@) + spec_route(port, "/cpu/dump\r\n"@) + spec_route(
        port,
        "/cpu/deactive\r\n"@,
    )
}

/// The help lines for the memory profiling routes.
pub open spec fn spec_mem_routes(port: int) -> Seq<char> {
    spec_route(port, "/mem/active\r\n"@) + spec_route(port, "/mem/dump\r\n"@) + spec_route(
        port,
        "/mem/deactive\r\n"@,
    )
}

/// The whole help text: the help route itself, then the routes of exactly
/// the profiling kinds enabled in this process.
pub open spec fn spec_help_text(port: int, cpu_enabled: bool, mem_enabled: bool) -> Seq<char> {
    spec_route(port, "/help\r\n"@) + (if cpu_enabled {
        spec_cpu_routes(port)
    } else {
        Seq::<char>::empty()
    }) + (if mem_enabled {
        spec_mem_routes(port)
    } else {
        Seq::<char>::empty()
    })
}

/// Appends one help line for `port` and `suffix`.
fn append_route(buf: &mut Vec<char>, port: u16, suffix: &str)
    ensures
        final (buf)@ == old(buf)@ + spec_route(port as int, suffix@),
{
    append_str(buf, "curl localhost:");
    append_dec_u16(buf, port);
    append_str(buf, suffix);
}

/// Builds the help text for `port`, listing only the routes of the
/// profiling kinds enabled in this process.
pub fn help(port: u16, cpu_enabled: bool, mem_enabled: bool) -> (r: String)
    ensures
        r@ == spec_help_text(port as int, cpu_enabled, mem_enabled),
{
    let mut buf: Vec<char> = Vec::new();
    append_route(&mut buf, port, "/help\r\n");
    if cpu_enabled {
        append_route(&mut buf, port, "/cpu/active\r\n");
        append_route(&mut buf, port, "/cpu/dump\r\n");
        append_route(&mut buf, port, "/cpu/deactive\r\n");
    }
    if mem_enabled {
        append_route(&mut buf, port, "/mem/active\r\n");
        append_route(&mut buf, port, "/mem/dump\r\n");
        append_route(&mut buf, port, "/mem/deactive\r\n");
    }
    proof {
        assert(buf@ =~= spec_help_text(port as int, cpu_enabled, mem_enabled));
    }
    string_of(buf)
}

/// The greeting served at the root route.
pub open spec fn spec_greeting() -> Seq<char> {
    "Hello, prof!\r\n"@
}

/// The greeting served at the root route.
pub fn greeting() -> (r: String)
    ensures
        r@ == spec_greeting(),
{
    "Hello, prof!\r\n".to_owned()
}

/// The body served when an operation succeeded.
pub open spec fn spec_success_body() -> Seq<char> {
    "success\r\n"@
}

/// The body served when an operation failed: `occur err: {message}`.
pub open spec fn spec_error_body(e: ProfError) -> Seq<char> {
    "occur err: "@ + e.spec_message() + "\r\n"@
}

/// The response body for a successful operation.
pub fn response_success() -> (r: String)
    ensures
        r@ == spec_success_body(),
{
    "success\r\n".to_owned()
}

/// The response body for a failed operation.
pub fn response_error(e: &ProfError) -> (r: String)
    ensures
        r@ == spec_error_body(*e),
{
    let mut buf: Vec<char> = Vec::new();
    append_str(&mut buf, "occur err: ");
    let m = e.message();
    append_str(&mut buf, m.as_str());
    append_str(&mut buf, "\r\n");
    proof {
        assert(buf@ =~= spec_error_body(*e));
    }
    string_of(buf)
}

} // verus!
