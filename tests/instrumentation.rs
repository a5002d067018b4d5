use b7::dynamorio::{DynamorioSolver, RUN_TIMEOUT_NS};
use b7::errors::{Runner, SolverError};
use b7::process::Process;
use b7::report::{count_from_capture, inst_count_from_stdout, parse_inst_count};
use b7::solver::{traced_command, Input, InstCountData, Vars};

fn assert_parse_error(r: Result<i64, SolverError>) {
    let e = r.unwrap_err();
    assert_eq!(e.runner(), Runner::IoError);
    assert_eq!(e.description(), "Could not parse dynamorio Instruction count");
}

#[test]
fn instrumentation_parse() {
    let out = b"Client inscount is running\nInstrumentation results: 4217 instructions executed\n";
    assert_eq!(inst_count_from_stdout(out).unwrap(), 4217);
}

#[test]
fn instrumentation_parse_failure() {
    assert_parse_error(inst_count_from_stdout(b"hello\n"));
    assert_parse_error(inst_count_from_stdout(b""));
    assert_parse_error(parse_inst_count("Instrumentation results:  instructions executed"));
}

#[test]
fn report_round_trip_on_edges() {
    for n in [0i64, 1, 9, 10, 4217, 1_000_000_007, i64::MAX] {
        let line = format!("Instrumentation results: {} instructions executed", n);
        assert_eq!(parse_inst_count(&line).unwrap(), n);
    }
}

#[test]
fn leftmost_report_wins() {
    let text = "Instrumentation results: 12 instructions executed\nInstrumentation results: 34 instructions executed\n";
    assert_eq!(parse_inst_count(text).unwrap(), 12);
    let broken_first = "Instrumentation results: x instructions executed\nInstrumentation results: 56 instructions executed";
    assert_eq!(parse_inst_count(broken_first).unwrap(), 56);
}

#[test]
fn count_too_large_is_an_error() {
    assert_parse_error(parse_inst_count("Instrumentation results: 9223372036854775808 instructions executed"));
}

#[test]
fn non_ascii_digits_are_an_error() {
    assert_parse_error(parse_inst_count("Instrumentation results: \u{663} instructions executed"));
}

#[test]
fn capture_to_count() {
    assert_eq!(count_from_capture(Some("007".to_string())).unwrap(), 7);
    assert_eq!(count_from_capture(Some("9223372036854775807".to_string())).unwrap(), i64::MAX);
    assert_parse_error(count_from_capture(None));
    assert_parse_error(count_from_capture(Some(String::new())));
    assert_parse_error(count_from_capture(Some("12a".to_string())));
}

fn data(vars: Vars) -> InstCountData {
    InstCountData {
        path: "/work/wyvern".to_string(),
        inp: Input { argv: vec![b"AAAA".to_vec(), vec![0xff, 0x00]], stdin: b"hello\n".to_vec() },
        vars,
    }
}

#[test]
fn runner_command_line() {
    let mut vars = Vars::new();
    vars.insert("dynpath", "/old");
    vars.insert("other", "x");
    vars.insert("dynpath", "/opt/dr");
    let p = DynamorioSolver.command(&data(vars)).unwrap();
    assert_eq!(p.path(), "/opt/dr/bin64/drrun");
    let expected: Vec<Vec<u8>> = vec![
        b"-c".to_vec(),
        b"/opt/dr/api/bin/libinscount.so".to_vec(),
        b"--".to_vec(),
        b"/work/wyvern".to_vec(),
        b"AAAA".to_vec(),
        vec![0xff, 0x00],
    ];
    assert_eq!(p.argv(), &expected);
    assert_eq!(p.stdin(), b"hello\n");
    assert!(!p.ptrace());
    assert_eq!(RUN_TIMEOUT_NS, 5_000_000_000);
}

#[test]
fn runner_needs_dynpath() {
    let mut vars = Vars::new();
    vars.insert("dynpathx", "/opt/dr");
    let e = DynamorioSolver.command(&data(vars)).unwrap_err();
    assert_eq!(e.runner(), Runner::MissingArgs);
}

#[test]
fn vars_latest_binding_wins() {
    let mut vars = Vars::new();
    assert_eq!(vars.get("a"), None);
    vars.insert("a", "1");
    vars.insert("b", "2");
    vars.insert("a", "3");
    assert_eq!(vars.get("a").unwrap(), "3");
    assert_eq!(vars.get("b").unwrap(), "2");
    assert_eq!(vars.get("c"), None);
}

#[test]
fn process_builder() {
    let mut p = Process::new("/bin/cat");
    assert_eq!(p.path(), "/bin/cat");
    assert!(p.argv().is_empty());
    assert!(p.stdin().is_empty());
    assert!(!p.ptrace());
    p.arg(b"-u");
    p.args(&[b"x".to_vec(), b"y z".to_vec()]);
    p.input(b"hello\n".to_vec());
    p.with_ptrace(true);
    assert_eq!(p.argv(), &vec![b"-u".to_vec(), b"x".to_vec(), b"y z".to_vec()]);
    assert_eq!(p.stdin(), b"hello\n");
    assert!(p.ptrace());
    p.input(Vec::new());
    assert!(p.stdin().is_empty());
}

#[test]
fn error_carries_kind_and_message() {
    let e = SolverError::new(Runner::Timeout, "child timeout");
    assert_eq!(e.runner(), Runner::Timeout);
    assert_eq!(e.description(), "child timeout");
    assert_eq!(e.message, "child timeout");
}

#[test]
fn traced_run_of_target() {
    let p = traced_command(&data(Vars::new()));
    assert_eq!(p.path(), "/work/wyvern");
    assert_eq!(p.argv(), &vec![b"AAAA".to_vec(), vec![0xff, 0x00]]);
    assert_eq!(p.stdin(), b"hello\n");
    assert!(p.ptrace());
}
