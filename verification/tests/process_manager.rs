use perf_tester::process_manager::{
    both_still_running, is_shortcut, resolve_path, shortcut_target_script, PollOutcome, ProcessError,
};

#[test]
fn test_resolve_path_normal() {
    let path = "C:/Program Files/NormalApp/app.exe";
    assert_eq!(resolve_path(path, None), path);
}

#[test]
fn resolve_path_keeps_a_plain_path_whatever_a_lookup_printed() {
    let path = "C:/Apps/tool.exe";
    assert_eq!(resolve_path(path, Some(b"C:/Other/target.exe".as_slice())), path);
}

#[test]
fn resolve_path_follows_a_shortcut_to_its_trimmed_target() {
    let path = "C:/Users/me/Desktop/App.LNK";
    let out = b"  C:/Program Files/App/app.exe\r\n";
    assert_eq!(resolve_path(path, Some(out.as_slice())), "C:/Program Files/App/app.exe");
}

#[test]
fn resolve_path_keeps_a_shortcut_whose_lookup_printed_nothing() {
    let path = "C:/Users/me/Desktop/App.lnk";
    assert_eq!(resolve_path(path, Some(b" \r\n".as_slice())), path);
    assert_eq!(resolve_path(path, None), path);
}

#[test]
fn resolve_path_replaces_invalid_utf8_in_a_target() {
    let path = "x.lnk";
    assert_eq!(resolve_path(path, Some(b"a\xffb".as_slice())), "a\u{FFFD}b");
}

#[test]
fn shortcut_detection_ignores_letter_case() {
    assert!(is_shortcut("C:/a/App.LNK"));
    assert!(is_shortcut("app.Lnk"));
    assert!(!is_shortcut("app.lnk.exe"));
    assert!(!is_shortcut("lnk"));
}

#[test]
fn shortcut_script_quotes_the_path() {
    assert_eq!(
        shortcut_target_script("C:/a/App.lnk"),
        "(New-Object -COM WScript.Shell).CreateShortcut('C:/a/App.lnk').TargetPath"
    );
}

#[test]
fn start_error_names_the_configured_path() {
    let source = std::io::Error::new(std::io::ErrorKind::NotFound, "no such file");
    let e = ProcessError::start_error("C:/a/App.lnk", source);
    match &e {
        ProcessError::StartError { path, .. } => assert_eq!(path, "C:/a/App.lnk"),
    }
    assert_eq!(e.message(), "Failed to start application 'C:/a/App.lnk': no such file");
}

#[test]
fn run_goes_on_only_while_both_run() {
    assert!(both_still_running(PollOutcome::StillRunning, PollOutcome::StillRunning));
    assert!(!both_still_running(PollOutcome::StillRunning, PollOutcome::Exited));
    assert!(!both_still_running(PollOutcome::PollFailed, PollOutcome::StillRunning));
    assert!(!both_still_running(PollOutcome::Exited, PollOutcome::Exited));
}

#[test]
fn start_error_keeps_the_source() {
    let source = std::io::Error::new(std::io::ErrorKind::PermissionDenied, "denied");
    let e = ProcessError::start_error("a.exe", source);
    match &e {
        ProcessError::StartError { source, .. } => {
            assert_eq!(source.kind(), std::io::ErrorKind::PermissionDenied);
            assert_eq!(source.to_string(), "denied");
        }
    }
}
