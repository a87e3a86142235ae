use prof_rs::naming::{dump_file_name, ProfKind};
use prof_rs::parse::parse_frequency;
use prof_rs::surface::{help, response_error, response_success};
use prof_rs::ProfError;

/// With a fixed clock value, the dump file names are exactly
/// `{name}.{timestamp}.{ext}` with the kind's extension.
#[test]
fn dump_file_names_exact() {
    let ts = "2024-01-02_03:04:05";
    assert_eq!(
        dump_file_name("cpu_prof", ts, ProfKind::Cpu),
        "cpu_prof.2024-01-02_03:04:05.svg"
    );
    assert_eq!(
        dump_file_name("mem_prof", ts, ProfKind::Memory),
        "mem_prof.2024-01-02_03:04:05.out"
    );
}

/// Two dumps with the same name and timestamp name the same file: the
/// documented overwrite-within-a-second collision policy.
#[test]
fn dump_file_name_deterministic() {
    let a = dump_file_name("cpu_prof", "2024-01-02_03:04:05", ProfKind::Cpu);
    let b = dump_file_name("cpu_prof", "2024-01-02_03:04:05", ProfKind::Cpu);
    assert_eq!(a, b);
}

/// A missing or unparsable frequency parameter falls back to 100 Hz; a
/// parsable one is used as given.
#[test]
fn frequency_defaults_and_parses() {
    assert_eq!(parse_frequency(None), 100);
    assert_eq!(parse_frequency(Some("abc")), 100);
    assert_eq!(parse_frequency(Some("")), 100);
    assert_eq!(parse_frequency(Some("12x")), 100);
    assert_eq!(parse_frequency(Some(" 12")), 100);
    assert_eq!(parse_frequency(Some("+")), 100);
    assert_eq!(parse_frequency(Some("250")), 250);
    assert_eq!(parse_frequency(Some("+42")), 42);
    assert_eq!(parse_frequency(Some("-1")), -1);
    assert_eq!(parse_frequency(Some("0")), 0);
    assert_eq!(parse_frequency(Some("007")), 7);
    assert_eq!(parse_frequency(Some("2147483647")), 2147483647);
    assert_eq!(parse_frequency(Some("-2147483648")), -2147483648);
    // Out of the range of i32: unparsable, so the default applies.
    assert_eq!(parse_frequency(Some("2147483648")), 100);
    assert_eq!(parse_frequency(Some("-2147483649")), 100);
    assert_eq!(parse_frequency(Some("99999999999999999999")), 100);
}

/// The help text lists the help route and exactly the routes of the
/// enabled profiling kinds.
#[test]
fn help_lists_enabled_kinds_only() {
    let none = help(8080, false, false);
    assert_eq!(none, "curl localhost:8080/help\r\n");

    let cpu_only = help(3000, true, false);
    assert_eq!(
        cpu_only,
        "curl localhost:3000/help\r\n\
         curl localhost:3000/cpu/active\r\n\
         curl localhost:3000/cpu/dump\r\n\
         curl localhost:3000/cpu/deactive\r\n"
    );
    assert!(!cpu_only.contains("/mem/"));

    let mem_only = help(3000, false, true);
    assert!(!mem_only.contains("/cpu/"));
    assert!(mem_only.contains("curl localhost:3000/mem/active\r\n"));

    let both = help(65535, true, true);
    assert_eq!(
        both,
        "curl localhost:65535/help\r\n\
         curl localhost:65535/cpu/active\r\n\
         curl localhost:65535/cpu/dump\r\n\
         curl localhost:65535/cpu/deactive\r\n\
         curl localhost:65535/mem/active\r\n\
         curl localhost:65535/mem/dump\r\n\
         curl localhost:65535/mem/deactive\r\n"
    );
}

/// The response bodies served by the control surface.
#[test]
fn response_bodies() {
    assert_eq!(response_success(), "success\r\n");
    assert_eq!(
        response_error(&ProfError::NotActive),
        "occur err: profiling is not active\r\n"
    );
    assert_eq!(
        response_error(&ProfError::AlreadyActive),
        "occur err: profiling is already active\r\n"
    );
    assert_eq!(
        response_error(&ProfError::Collaborator("report build failed".to_string())),
        "occur err: report build failed\r\n"
    );
    assert_eq!(
        response_error(&ProfError::Io("no space left".to_string())),
        "occur err: no space left\r\n"
    );
}

/// The error messages themselves.
#[test]
fn error_messages() {
    assert_eq!(ProfError::AlreadyActive.message(), "profiling is already active");
    assert_eq!(ProfError::NotActive.message(), "profiling is not active");
    assert_eq!(ProfError::Collaborator("x".to_string()).message(), "x");
    assert_eq!(ProfError::Io("y".to_string()).message(), "y");
}
