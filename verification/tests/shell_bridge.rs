use remote_mirror::errors::CoreError;
use remote_mirror::wsl::{
    check_wsl_symlink_exists, check_wsl_symlink_exists_result, create_wsl_symlink,
    create_wsl_symlink_result, detect_wsl, get_effective_distro, get_wsl_distro_state,
    get_wsl_distros, list_wsl_dir, list_wsl_dir_result, migrate_opencode_skill_dir,
    migrate_opencode_skill_dir_result, read_wsl_file, read_wsl_file_converted, read_wsl_file_raw,
    read_wsl_file_raw_result, remove_wsl_path, remove_wsl_path_result, write_wsl_file,
    write_wsl_file_result, wsl_exec_args, MigrateOutcome, ShellOutcome, WslRequest, WslTextStep,
};

fn ok_outcome(stdout: &[u8]) -> ShellOutcome {
    ShellOutcome { success: true, stdout: stdout.to_vec(), stderr: Vec::new() }
}

fn failed_outcome(stderr: &[u8]) -> ShellOutcome {
    ShellOutcome { success: false, stdout: Vec::new(), stderr: stderr.to_vec() }
}

fn utf16(s: &str) -> Vec<u8> {
    s.encode_utf16().flat_map(|w| w.to_le_bytes()).collect()
}

#[test]
fn bridge_arguments() {
    let req = WslRequest { distro: "Ubuntu".to_string(), command: "ls".to_string() };
    assert_eq!(
        wsl_exec_args(&req),
        vec![
            "-d".to_string(),
            "Ubuntu".to_string(),
            "--exec".to_string(),
            "bash".to_string(),
            "-c".to_string(),
            "ls".to_string(),
        ]
    );
}

#[test]
fn distro_listing_decodes_both_encodings() {
    let plain = ok_outcome(b"Ubuntu\nDebian\n\n");
    assert_eq!(
        get_wsl_distros(&plain).unwrap(),
        vec!["Ubuntu".to_string(), "Debian".to_string()]
    );
    let wide = ok_outcome(&utf16("Ubuntu\r\nDebian\r\n"));
    assert_eq!(
        get_wsl_distros(&wide).unwrap(),
        vec!["Ubuntu".to_string(), "Debian".to_string()]
    );
    match get_wsl_distros(&failed_outcome(b"")) {
        Err(CoreError::RemoteExec(m)) => assert_eq!(m, "WSL list command failed"),
        _ => panic!("expected a failure"),
    }
}

#[test]
fn effective_distro_resolution() {
    let ds = vec!["Ubuntu-22.04".to_string(), "Debian".to_string()];
    assert_eq!(get_effective_distro("Debian", &ds).unwrap(), "Debian");
    assert_eq!(get_effective_distro("Ubuntu", &ds).unwrap(), "Ubuntu-22.04");
    let short = vec!["Ubuntu".to_string()];
    assert_eq!(get_effective_distro("Ubuntu-22.04", &short).unwrap(), "Ubuntu");
    assert_eq!(get_effective_distro("Alpine", &ds).unwrap(), "Ubuntu-22.04");
    let none: Vec<String> = Vec::new();
    match get_effective_distro("Ubuntu", &none) {
        Err(CoreError::Connection(m)) => assert_eq!(m, "No WSL distros available"),
        _ => panic!("expected an error with no distros"),
    }
}

#[test]
fn distro_state_parsing() {
    let listing = ok_outcome(
        b"  NAME                   STATE           VERSION\n* Ubuntu                 Running         2\n  Debian                 Stopped         2\n",
    );
    assert_eq!(get_wsl_distro_state("Ubuntu", &listing), "Running");
    assert_eq!(get_wsl_distro_state("Debian", &listing), "Stopped");
    assert_eq!(get_wsl_distro_state("Alpine", &listing), "Unknown");
    assert_eq!(get_wsl_distro_state("Ubuntu", &failed_outcome(b"")), "Unknown");
}

#[test]
fn bridge_detection() {
    let r = detect_wsl(Ok(true), Ok(vec!["Ubuntu".to_string()]));
    assert!(r.available);
    assert_eq!(r.distros, vec!["Ubuntu".to_string()]);
    assert!(r.error.is_none());

    let r2 = detect_wsl(Ok(false), Ok(Vec::new()));
    assert!(!r2.available);
    assert_eq!(r2.error, Some("WSL command failed".to_string()));

    let r3 = detect_wsl(Err("no such file".to_string()), Ok(Vec::new()));
    assert!(!r3.available);
    assert_eq!(r3.error, Some("Failed to run WSL command: no such file".to_string()));

    let r4 = detect_wsl(Ok(true), Err(CoreError::RemoteExec("WSL list command failed".to_string())));
    assert!(r4.available);
    assert!(r4.distros.is_empty());
    assert_eq!(r4.error, Some("WSL list command failed".to_string()));
}

#[test]
fn raw_file_read_through_bridge() {
    let req = read_wsl_file_raw("Ubuntu", "~/cfg.json");
    assert_eq!(req.distro, "Ubuntu");
    assert_eq!(
        req.command,
        "if [ -f \"$HOME/cfg.json\" ]; then cat \"$HOME/cfg.json\"; else echo ''; fi"
    );
    assert_eq!(
        read_wsl_file_raw_result("Ubuntu", &ok_outcome(b"content")).unwrap(),
        "content"
    );
    match read_wsl_file_raw_result("Gone", &failed_outcome(b"WSL_E_DISTRO_NOT_FOUND")) {
        Err(CoreError::Connection(m)) => assert_eq!(m, "WSL distro 'Gone' not found"),
        _ => panic!("expected the distro error"),
    }
    match read_wsl_file_raw_result("Ubuntu", &failed_outcome(b" broken \n")) {
        Err(CoreError::RemoteExec(m)) => assert_eq!(m, "WSL command failed: broken"),
        _ => panic!("expected the command error"),
    }
}

#[test]
fn text_read_with_transcode_through_bridge() {
    match read_wsl_file("Ubuntu", "~/cfg", Ok("fine".to_string())) {
        WslTextStep::Done(Ok(c)) => assert_eq!(c, "fine"),
        _ => panic!("expected the content back"),
    }
    match read_wsl_file("Ubuntu", "~/cfg", Ok("bad \u{FFFD}".to_string())) {
        WslTextStep::Convert(q) => {
            assert_eq!(q.distro, "Ubuntu");
            assert_eq!(q.command, "iconv -f GBK -t UTF-8 \"$HOME/cfg\" 2>/dev/null");
        },
        _ => panic!("expected the transcode request"),
    }
    assert_eq!(
        read_wsl_file_converted("~/cfg", &ok_outcome(b"now fine")).unwrap(),
        "now fine"
    );
    match read_wsl_file_converted("~/cfg", &failed_outcome(b"")) {
        Err(CoreError::Encoding(m)) => {
            assert!(m.contains("automatic conversion failed"));
            assert!(m.contains("iconv -f GBK -t UTF-8 \"~/cfg\""));
        },
        _ => panic!("expected an encoding error"),
    }
}

#[test]
fn file_write_through_bridge() {
    let req = write_wsl_file("Ubuntu", "~/f", "data");
    assert_eq!(req.command, "mkdir -p \"$(dirname \"$HOME/f\")\" && cat > \"$HOME/f\"");
    assert_eq!(req.stdin, b"data".to_vec());
    assert!(write_wsl_file_result(&ok_outcome(b"")).is_ok());
    match write_wsl_file_result(&failed_outcome(b"")) {
        Err(CoreError::RemoteExec(m)) => assert_eq!(m, "WSL write command failed"),
        _ => panic!("expected a failure"),
    }
}

#[test]
fn symlink_through_bridge() {
    let req = create_wsl_symlink("Ubuntu", "~/central/foo", "~/.acme/skills/foo");
    assert_eq!(
        req.command,
        "mkdir -p \"$(dirname \"$HOME/.acme/skills/foo\")\" && rm -rf \"$HOME/.acme/skills/foo\" && ln -s \"$HOME/central/foo\" \"$HOME/.acme/skills/foo\""
    );
    assert!(create_wsl_symlink_result(&ok_outcome(b"")).is_ok());
    match create_wsl_symlink_result(&failed_outcome(b" denied \n")) {
        Err(CoreError::RemoteExec(m)) => assert_eq!(m, "WSL symlink failed: denied"),
        _ => panic!("expected a failure"),
    }
    let check = check_wsl_symlink_exists("Ubuntu", "~/.acme/skills/foo", "~/central/foo");
    assert_eq!(
        check.command,
        "[ -L \"$HOME/.acme/skills/foo\" ] && [ \"$(readlink \"$HOME/.acme/skills/foo\")\" = \"$HOME/central/foo\" ] && echo yes || echo no"
    );
    assert!(check_wsl_symlink_exists_result(Some(&ok_outcome(b"yes\n"))));
    assert!(!check_wsl_symlink_exists_result(Some(&ok_outcome(b"no\n"))));
    assert!(!check_wsl_symlink_exists_result(None));
}

#[test]
fn remove_through_bridge_guards_dangerous_paths() {
    match remove_wsl_path("Ubuntu", "~/.ai-toolbox/skills/old") {
        Ok(q) => assert_eq!(q.command, "rm -rf \"$HOME/.ai-toolbox/skills/old\""),
        Err(_) => panic!("expected the remove request"),
    }
    for p in ["", "/", "~", "$HOME"] {
        match remove_wsl_path("Ubuntu", p) {
            Err(e) => assert!(matches!(e, CoreError::Safety(_)), "path {:?}", p),
            Ok(_) => panic!("expected a safety violation for {:?}", p),
        }
    }
    assert!(remove_wsl_path_result(&ok_outcome(b"")).is_ok());
    match remove_wsl_path_result(&failed_outcome(b"busy\n")) {
        Err(CoreError::RemoteExec(m)) => assert_eq!(m, "WSL remove failed: busy"),
        _ => panic!("expected a failure"),
    }
}

#[test]
fn listing_through_bridge() {
    let req = list_wsl_dir("Ubuntu", "~/.ai-toolbox/skills");
    assert_eq!(
        req.command,
        "if [ -d \"$HOME/.ai-toolbox/skills\" ]; then ls -1 \"$HOME/.ai-toolbox/skills\"; fi"
    );
    assert_eq!(
        list_wsl_dir_result(&ok_outcome(b"foo\nbar\n")),
        vec!["foo".to_string(), "bar".to_string()]
    );
}

#[test]
fn legacy_skill_dir_migration() {
    let req = migrate_opencode_skill_dir("Ubuntu");
    assert!(req.command.contains("$HOME/.config/opencode/skill"));
    assert!(req.command.contains("$HOME/.config/opencode/skills"));
    assert!(matches!(
        migrate_opencode_skill_dir_result(&ok_outcome(b"renamed\n")),
        MigrateOutcome::Renamed
    ));
    assert!(matches!(
        migrate_opencode_skill_dir_result(&ok_outcome(b"removed\n")),
        MigrateOutcome::Removed
    ));
    assert!(matches!(
        migrate_opencode_skill_dir_result(&ok_outcome(b"skip\n")),
        MigrateOutcome::Skipped
    ));
}
