use playlist_bridge::decimal::port_text;
use playlist_bridge::invocation::{
    check_connection_invocation, export_playlist_invocation, get_playlists_invocation, Invocation,
};
use playlist_bridge::response::{
    completed_response, is_exit_success, launch_failure_response, respond, ExportResponse,
    Operation, ProcessOutcome,
};

fn export(id: &str, format: &str, host: &str, port: u16) -> Invocation {
    export_playlist_invocation(id.to_string(), format.to_string(), host.to_string(), port)
}

fn exited(code: Option<i32>, stdout: &[u8], stderr: &[u8]) -> ProcessOutcome {
    ProcessOutcome::Exited { code, stdout: stdout.to_vec(), stderr: stderr.to_vec() }
}

fn assert_response(r: &ExportResponse, success: bool, message: &str) {
    assert_eq!(r.success, success);
    assert_eq!(r.message, message);
    assert!(r.file_path.is_none());
}

#[test]
fn pptx_export_arguments() {
    let inv = export("abc-123", "pptx", "localhost", 1025);
    assert_eq!(inv.program, "npm");
    assert_eq!(
        inv.args,
        vec!["run", "dev", "--", "pptx", "abc-123", "--host", "localhost", "--port", "1025"]
    );
    assert!(!inv.args.iter().any(|a| a == "--json"));
}

#[test]
fn json_export_arguments() {
    let inv = export("abc-123", "json", "10.0.0.2", 80);
    assert_eq!(inv.program, "npm");
    assert_eq!(
        inv.args,
        vec!["run", "dev", "--", "export", "abc-123", "--json", "--host", "10.0.0.2", "--port", "80"]
    );
}

#[test]
fn other_formats_take_the_plain_export() {
    let json = export("p1", "json", "h", 7).args;
    let mut without_flag = json.clone();
    without_flag.remove(5);
    for format in ["", "default", "PPTX", "Json", "csv"] {
        let inv = export("p1", format, "h", 7);
        assert_eq!(inv.args, without_flag);
        assert_eq!(
            inv.args,
            vec!["run", "dev", "--", "export", "p1", "--host", "h", "--port", "7"]
        );
    }
}

#[test]
fn list_arguments_are_fixed() {
    let inv = get_playlists_invocation("localhost".to_string(), 1025);
    assert_eq!(inv.program, "npm");
    assert_eq!(
        inv.args,
        vec!["run", "dev", "--", "playlists", "--json", "--host", "localhost", "--port", "1025"]
    );
    let other = get_playlists_invocation("example.org".to_string(), 9);
    assert_eq!(
        other.args,
        vec!["run", "dev", "--", "playlists", "--json", "--host", "example.org", "--port", "9"]
    );
}

#[test]
fn status_arguments_are_fixed() {
    let inv = check_connection_invocation("localhost".to_string(), 65535);
    assert_eq!(inv.program, "npm");
    assert_eq!(
        inv.args,
        vec!["run", "dev", "--", "status", "--host", "localhost", "--port", "65535"]
    );
}

#[test]
fn port_text_is_decimal() {
    assert_eq!(port_text(0), "0");
    assert_eq!(port_text(9), "9");
    assert_eq!(port_text(10), "10");
    assert_eq!(port_text(8080), "8080");
    assert_eq!(port_text(65535), "65535");
}

#[test]
fn exit_zero_gives_stdout() {
    let r = respond(Operation::Export, exited(Some(0), b"OK\n", b""));
    assert_response(&r, true, "OK\n");
}

#[test]
fn exit_one_gives_stderr() {
    let r = respond(Operation::Export, exited(Some(1), b"", b"not found\n"));
    assert_response(&r, false, "not found\n");
}

#[test]
fn any_nonzero_exit_is_failure() {
    let r = respond(Operation::Playlists, exited(Some(-3), b"partial", b"boom"));
    assert_response(&r, false, "boom");
    let r = respond(Operation::Status, exited(None, b"partial", b"killed"));
    assert_response(&r, false, "killed");
    assert!(is_exit_success(Some(0)));
    assert!(!is_exit_success(Some(2)));
    assert!(!is_exit_success(None));
}

#[test]
fn empty_stdout_on_success_is_kept() {
    let r = respond(Operation::Status, exited(Some(0), b"", b"warning"));
    assert_response(&r, true, "");
}

#[test]
fn invalid_utf8_is_replaced() {
    let r = respond(Operation::Export, exited(Some(0), b"ok \xff\xfe!", b""));
    assert_response(&r, true, "ok \u{FFFD}\u{FFFD}!");
    let r = respond(Operation::Export, exited(Some(2), b"", "caf\u{e9}".as_bytes()));
    assert_response(&r, false, "caf\u{e9}");
}

#[test]
fn launch_failure_names_the_operation() {
    let cause = "No such file or directory (os error 2)";
    let r = respond(Operation::Export, ProcessOutcome::LaunchFailed { cause: cause.to_string() });
    assert_response(&r, false, "Failed to run export: No such file or directory (os error 2)");
    let r = launch_failure_response(Operation::Playlists, cause.to_string());
    assert_response(&r, false, "Failed to get playlists: No such file or directory (os error 2)");
    let r = launch_failure_response(Operation::Status, String::new());
    assert_response(&r, false, "Connection failed: ");
    assert!(!r.message.is_empty());
}

#[test]
fn completed_response_picks_the_stream() {
    let r = completed_response(Some(0), "out".to_string(), "err".to_string());
    assert_response(&r, true, "out");
    let r = completed_response(Some(1), "out".to_string(), "err".to_string());
    assert_response(&r, false, "err");
}
