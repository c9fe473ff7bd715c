use ssh_clipboard::install::{
    apple_script_string, summarize_command_output, CheckOutcome, CheckStatus,
    default_install_dir_for, is_windows_file_in_use, render_unit_file, systemd_quote_arg,
    taskkill_report_indicates_no_process,
};

#[test]
fn default_install_dir_windows_prefers_localappdata() {
    let dir = default_install_dir_for(
        true,
        Some("C:/Users/test"),
        Some("C:/Users/test/AppData/Local"),
    )
    .unwrap();
    assert_eq!(dir, "C:/Users/test/AppData/Local/ssh_clipboard/bin");
}

#[test]
fn default_install_dir_unix_uses_home_local_bin() {
    let dir = default_install_dir_for(false, Some("/home/test"), None).unwrap();
    assert_eq!(dir, "/home/test/.local/bin");
}

#[test]
fn default_install_dir_falls_back_and_fails_without_home() {
    let dir = default_install_dir_for(true, Some("C:/Users/test/"), None).unwrap();
    assert_eq!(dir, "C:/Users/test/AppData/Local/ssh_clipboard/bin");
    assert!(default_install_dir_for(false, None, Some("x")).is_err());
    assert!(default_install_dir_for(true, None, None).is_err());
}

#[test]
fn detects_windows_file_in_use_errors() {
    assert!(is_windows_file_in_use(std::io::Error::from_raw_os_error(5).raw_os_error()));
    assert!(is_windows_file_in_use(std::io::Error::from_raw_os_error(32).raw_os_error()));
    assert!(!is_windows_file_in_use(std::io::Error::from_raw_os_error(2).raw_os_error()));
}

#[test]
fn taskkill_not_found_report_is_detected() {
    assert!(taskkill_report_indicates_no_process(
        "ERROR: The process \"ssh_clipboard_agent.exe\" not found."
    ));
    assert!(taskkill_report_indicates_no_process("No running instance of the task."));
    assert!(!taskkill_report_indicates_no_process("Access is denied."));
}

#[test]
fn unit_render_contains_execstart() {
    let contents = render_unit_file("/usr/local/bin/ssh_clipboard", None, 10, 7000);
    assert!(contents.contains("ExecStart=/usr/local/bin/ssh_clipboard daemon"));
    assert!(contents.contains("--max-size 10"));
    assert!(contents.contains("--io-timeout-ms 7000"));
}

#[test]
fn unit_render_quotes_socket_path() {
    let contents = render_unit_file(
        "/usr/local/bin/ssh_clipboard",
        Some("/run/user/1000/ssh clipboard.sock"),
        10,
        7000,
    );
    assert!(contents.contains("--socket-path \"/run/user/1000/ssh clipboard.sock\""));
}

#[test]
fn unit_render_exact_text() {
    let contents = render_unit_file("/b", None, 0, 18_446_744_073_709_551_615);
    assert_eq!(
        contents,
        "[Unit]\nDescription=SSH Clipboard Daemon\nAfter=network.target\n\n[Service]\nExecStart=/b daemon --io-timeout-ms 18446744073709551615 --max-size 0\nRestart=on-failure\nRestartSec=1\n\n[Install]\nWantedBy=default.target\n"
    );
}

#[test]
fn systemd_quoting_escapes_quotes_and_backslashes() {
    assert_eq!(systemd_quote_arg("/plain/path"), "/plain/path");
    assert_eq!(systemd_quote_arg("a\"b"), "\"a\\\"b\"");
    assert_eq!(systemd_quote_arg("a\\b c"), "\"a\\\\b c\"");
    assert_eq!(systemd_quote_arg("tab\there"), "\"tab\there\"");
}

#[test]
fn command_output_summary_prefers_stderr() {
    assert_eq!(summarize_command_output(" out ", " err\n"), "err");
    assert_eq!(summarize_command_output(" out ", "  "), "out");
    assert_eq!(summarize_command_output("", "\t"), "no output");
}

#[test]
fn apple_script_strings_are_escaped() {
    assert_eq!(apple_script_string("plain"), "\"plain\"");
    assert_eq!(apple_script_string("a\"b\\c\nd"), "\"a\\\"b\\\\c\\nd\"");
}

#[test]
fn check_outcomes_and_labels() {
    assert_eq!(CheckStatus::Passed.label(), "ok");
    assert_eq!(CheckStatus::Warn.label(), "warn");
    assert_eq!(CheckStatus::Fail.label(), "fail");
    let ok = CheckOutcome::ok("bin".to_string(), "copied".to_string());
    assert_eq!(ok.status, CheckStatus::Passed);
    assert!(ok.hint.is_none());
    let warn = CheckOutcome::warn("path".to_string(), "missing".to_string(), "restart".to_string());
    assert_eq!(warn.hint.as_deref(), Some("restart"));
    let fail = CheckOutcome::fail("x".to_string(), "bad".to_string(), None);
    assert_eq!(fail.status, CheckStatus::Fail);
}
