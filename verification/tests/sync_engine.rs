use remote_mirror::errors::CoreError;
use remote_mirror::paths::EnvVars;
use remote_mirror::sync::{
    check_remote_symlink_exists, check_symlink_result, create_remote_symlink,
    filter_mapping_indices, list_remote_dir, list_remote_dir_result, read_remote_file,
    read_remote_file_converted, read_remote_file_raw, remove_remote_path, sync_directory,
    sync_file_mapping, sync_mappings, sync_pattern_files, sync_single_file, write_remote_file,
    DirSyncStart, FileMapping, GlobMatch, MappingStart, PatternStart, Progress, RemoteOp,
    SingleFileStart, TextReadStep,
};

fn env() -> EnvVars {
    EnvVars {
        home_dir: Some("/home/u".to_string()),
        userprofile: None,
        appdata: None,
        localappdata: None,
        home: Some("/home/u".to_string()),
    }
}

fn mapping(name: &str, module: &str, dir: bool, pat: bool, enabled: bool) -> FileMapping {
    FileMapping {
        id: name.to_string(),
        module: module.to_string(),
        name: name.to_string(),
        local_path: "~/src".to_string(),
        remote_path: "~/dst".to_string(),
        is_directory: dir,
        is_pattern: pat,
        enabled,
    }
}

#[test]
fn absent_local_source_is_success_with_empty_list() {
    assert!(matches!(sync_single_file("~/a", "~/b", &env(), false), SingleFileStart::Skip));
    assert!(matches!(sync_directory("~/a", "~/b", &env(), false, 1), DirSyncStart::Skip));
    let no_matches: Vec<GlobMatch> = Vec::new();
    assert!(matches!(sync_pattern_files("~/dir", &no_matches), PatternStart::Skip));
}

#[test]
fn dangerous_remote_paths_always_rejected() {
    for p in ["", "/", "~", "$HOME", "  /  ", " \t~ "] {
        match sync_directory("~/a", p, &env(), true, 1) {
            DirSyncStart::Reject(e) => {
                assert!(matches!(e, CoreError::Safety(_)), "path {:?}", p);
            },
            _ => panic!("expected a safety violation for {:?}", p),
        }
        // even with an absent local source, the rejection comes first
        assert!(matches!(sync_directory("~/a", p, &env(), false, 1), DirSyncStart::Reject(_)));
        match remove_remote_path(p) {
            Err(e) => assert!(matches!(e, CoreError::Safety(_))),
            Ok(_) => panic!("expected a safety violation for {:?}", p),
        }
    }
}

#[test]
fn single_file_walk() {
    let start = sync_single_file("~/cfg.json", "~/remote/cfg.json", &env(), true);
    let (mut m, op) = match start {
        SingleFileStart::Run(m, op) => (m, op),
        _ => panic!("expected a running sync"),
    };
    match op {
        RemoteOp::Exec(c) => {
            assert_eq!(c, "mkdir -p \"$(dirname \"$HOME/remote/cfg.json\")\"");
        },
        _ => panic!("expected a shell request"),
    }
    match m.on_outcome(Ok(String::new())) {
        Progress::Next(RemoteOp::UploadFile { local, remote }) => {
            assert_eq!(local, "/home/u/cfg.json");
            assert_eq!(remote, "~/remote/cfg.json");
        },
        _ => panic!("expected the upload request"),
    }
    match m.on_outcome(Ok(String::new())) {
        Progress::Finished(Ok(tokens)) => {
            assert_eq!(tokens, vec!["~/cfg.json -> ~/remote/cfg.json".to_string()]);
        },
        _ => panic!("expected a finished sync"),
    }
}

#[test]
fn single_file_mkdir_failure_propagates() {
    let start = sync_single_file("~/cfg", "~/r", &env(), true);
    let (mut m, _op) = match start {
        SingleFileStart::Run(m, op) => (m, op),
        _ => panic!("expected a running sync"),
    };
    let e = CoreError::RemoteExec("mkdir broke".to_string());
    match m.on_outcome(Err(e.clone())) {
        Progress::Finished(Err(got)) => assert_eq!(got, e),
        _ => panic!("expected the error back"),
    }
}

#[test]
fn directory_sync_is_upload_then_single_swap() {
    let start = sync_directory("~/skills/foo", "~/.ai-toolbox/skills/foo", &env(), true, 42);
    let (mut m, op) = match start {
        DirSyncStart::Run(m, op) => (m, op),
        _ => panic!("expected a running sync"),
    };
    match op {
        RemoteOp::Exec(c) => {
            assert_eq!(c, "mkdir -p \"$(dirname \"$HOME/.ai-toolbox/skills/foo\")\"");
        },
        _ => panic!("expected the mkdir request"),
    }
    match m.on_outcome(Ok(String::new())) {
        Progress::Next(RemoteOp::UploadDir { local, remote }) => {
            assert_eq!(local, "/home/u/skills/foo");
            // the upload never touches the target: it goes to the fresh temporary path
            assert_eq!(remote, "~/.ai-toolbox/skills/foo.tmp_42");
        },
        _ => panic!("expected the upload request"),
    }
    match m.on_outcome(Ok(String::new())) {
        Progress::Next(RemoteOp::Exec(c)) => {
            assert_eq!(
                c,
                "rm -rf \"$HOME/.ai-toolbox/skills/foo\" && mv \"$HOME/.ai-toolbox/skills/foo.tmp_42\" \"$HOME/.ai-toolbox/skills/foo\""
            );
        },
        _ => panic!("expected the swap request"),
    }
    match m.on_outcome(Ok(String::new())) {
        Progress::Finished(Ok(tokens)) => {
            assert_eq!(tokens, vec!["~/skills/foo -> ~/.ai-toolbox/skills/foo".to_string()]);
        },
        _ => panic!("expected a finished sync"),
    }
}

#[test]
fn failed_swap_cleans_the_temporary_path() {
    let start = sync_directory("~/d", "~/target", &env(), true, 7);
    let (mut m, _) = match start {
        DirSyncStart::Run(m, op) => (m, op),
        _ => panic!("expected a running sync"),
    };
    assert!(matches!(m.on_outcome(Ok(String::new())), Progress::Next(_)));
    assert!(matches!(m.on_outcome(Ok(String::new())), Progress::Next(_)));
    // the swap fails: the machine removes the temporary path first
    match m.on_outcome(Err(CoreError::RemoteExec("mv: no space".to_string()))) {
        Progress::Next(RemoteOp::Exec(c)) => {
            assert_eq!(c, "rm -rf \"$HOME/target.tmp_7\"");
        },
        _ => panic!("expected the cleanup request"),
    }
    match m.on_outcome(Ok(String::new())) {
        Progress::Finished(Err(e)) => {
            assert_eq!(e, CoreError::RemoteExec("directory swap failed: mv: no space".to_string()));
        },
        _ => panic!("expected the wrapped swap failure"),
    }
}

#[test]
fn pattern_sync_skips_failed_files() {
    let matches_in = vec![
        GlobMatch { path: "/l/a.txt".to_string(), file_name: "a.txt".to_string() },
        GlobMatch { path: "/l/b.txt".to_string(), file_name: "b.txt".to_string() },
    ];
    let start = sync_pattern_files("~/dir/", &matches_in);
    let (mut m, op) = match start {
        PatternStart::Run(m, op) => (m, op),
        _ => panic!("expected a running sync"),
    };
    match op {
        RemoteOp::Exec(c) => assert_eq!(c, "mkdir -p \"$HOME/dir/\""),
        _ => panic!("expected the mkdir request"),
    }
    match m.on_outcome(Ok(String::new())) {
        Progress::Next(RemoteOp::UploadFile { local, remote }) => {
            assert_eq!(local, "/l/a.txt");
            assert_eq!(remote, "~/dir/a.txt");
        },
        _ => panic!("expected the first upload"),
    }
    // first upload fails: skipped, the batch goes on
    match m.on_outcome(Err(CoreError::RemoteExec("io".to_string()))) {
        Progress::Next(RemoteOp::UploadFile { local, .. }) => assert_eq!(local, "/l/b.txt"),
        _ => panic!("expected the second upload"),
    }
    match m.on_outcome(Ok(String::new())) {
        Progress::Finished(Ok(tokens)) => {
            assert_eq!(tokens, vec!["/l/b.txt -> ~/dir/b.txt".to_string()]);
        },
        _ => panic!("expected a finished sync"),
    }
}

#[test]
fn mapping_dispatch_by_kind() {
    let env = env();
    let no_matches: Vec<GlobMatch> = Vec::new();
    assert!(matches!(
        sync_file_mapping(&mapping("d", "m", true, false, true), &env, true, 1, &no_matches),
        MappingStart::Directory(_)
    ));
    assert!(matches!(
        sync_file_mapping(&mapping("p", "m", false, true, true), &env, true, 1, &no_matches),
        MappingStart::Pattern(_)
    ));
    assert!(matches!(
        sync_file_mapping(&mapping("s", "m", false, false, true), &env, true, 1, &no_matches),
        MappingStart::Single(_)
    ));
}

#[test]
fn batch_filtering_and_aggregation() {
    let mappings = vec![
        mapping("one", "codex", false, false, true),
        mapping("off", "codex", false, false, false),
        mapping("two", "opencode", false, false, true),
        mapping("three", "codex", false, false, true),
    ];
    assert_eq!(filter_mapping_indices(&mappings, None), vec![0, 2, 3]);
    assert_eq!(filter_mapping_indices(&mappings, Some("codex")), vec![0, 3]);

    let outcomes = vec![
        Ok(vec!["a -> b".to_string()]),
        Ok(Vec::new()),
        Err(CoreError::RemoteExec("lost channel".to_string())),
    ];
    let r = sync_mappings(&mappings, None, &outcomes);
    assert!(!r.success);
    assert_eq!(r.synced_files, vec!["a -> b".to_string()]);
    assert_eq!(r.skipped_files, vec!["two".to_string()]);
    assert_eq!(r.errors, vec!["three: lost channel".to_string()]);

    let all_ok = vec![Ok(vec!["a -> b".to_string()]), Ok(vec!["c -> d".to_string()])];
    let r2 = sync_mappings(&mappings, Some("codex"), &all_ok);
    assert!(r2.success);
    assert_eq!(r2.synced_files, vec!["a -> b".to_string(), "c -> d".to_string()]);
    assert!(r2.errors.is_empty());
}

#[test]
fn raw_read_request_text() {
    match read_remote_file_raw("~/cfg.json") {
        RemoteOp::Exec(c) => {
            assert_eq!(
                c,
                "if [ -f \"$HOME/cfg.json\" ]; then cat \"$HOME/cfg.json\"; else echo ''; fi"
            );
        },
        _ => panic!("expected a shell request"),
    }
}

#[test]
fn valid_text_returned_directly() {
    match read_remote_file("~/cfg", Ok("{\"a\":1}".to_string())) {
        TextReadStep::Done(Ok(c)) => assert_eq!(c, "{\"a\":1}"),
        _ => panic!("expected the content back"),
    }
}

#[test]
fn invalid_text_triggers_one_transcode_attempt() {
    // a remote file decodes with replacement characters: one GBK attempt
    match read_remote_file("~/cfg", Ok("bad \u{FFFD} text".to_string())) {
        TextReadStep::Convert(RemoteOp::Exec(c)) => {
            assert_eq!(c, "iconv -f GBK -t UTF-8 \"$HOME/cfg\" 2>/dev/null");
        },
        _ => panic!("expected the transcode request"),
    }
    // the transcoded content validates: it is returned
    match read_remote_file_converted("~/cfg", Ok("good text".to_string())) {
        Ok(c) => assert_eq!(c, "good text"),
        Err(_) => panic!("expected the converted content"),
    }
    // still invalid: the error names the manual fix command
    match read_remote_file_converted("~/cfg", Ok("still \u{FFFD}".to_string())) {
        Err(CoreError::Encoding(m)) => {
            assert!(m.contains("iconv -f GBK -t UTF-8 \"~/cfg\""));
            assert!(m.contains("automatic conversion failed"));
        },
        _ => panic!("expected an encoding error"),
    }
}

#[test]
fn read_error_passes_through() {
    let e = CoreError::Connection("down".to_string());
    match read_remote_file("~/cfg", Err(e.clone())) {
        TextReadStep::Done(Err(got)) => assert_eq!(got, e),
        _ => panic!("expected the error back"),
    }
}

#[test]
fn write_then_read_round_trip() {
    // write_remote_text followed by read_remote_text returns the text
    // valid, non-degenerate UTF-8: mostly printable text, one accented word
    let s = "hello wörld, configuration text\n";
    let op = write_remote_file("~/cfg.txt", s);
    let data = match op {
        RemoteOp::ExecStdin(c, data) => {
            assert_eq!(c, "mkdir -p \"$(dirname \"$HOME/cfg.txt\")\" && cat > \"$HOME/cfg.txt\"");
            data
        },
        _ => panic!("expected a stdin request"),
    };
    // the remote side stores exactly these bytes; reading decodes them
    let echoed = String::from_utf8(data).unwrap();
    match read_remote_file("~/cfg.txt", Ok(echoed)) {
        TextReadStep::Done(Ok(back)) => assert_eq!(back, s),
        _ => panic!("expected the text back unchanged"),
    }
}

#[test]
fn symlink_and_listing_requests() {
    match create_remote_symlink("~/central/foo", "~/.acme/skills/foo") {
        RemoteOp::Exec(c) => {
            assert_eq!(
                c,
                "mkdir -p \"$(dirname \"$HOME/.acme/skills/foo\")\" && rm -rf \"$HOME/.acme/skills/foo\" && ln -s \"$HOME/central/foo\" \"$HOME/.acme/skills/foo\""
            );
        },
        _ => panic!("expected a shell request"),
    }
    match list_remote_dir("~/.ai-toolbox/skills") {
        RemoteOp::Exec(c) => {
            assert_eq!(
                c,
                "if [ -d \"$HOME/.ai-toolbox/skills\" ]; then ls -1 \"$HOME/.ai-toolbox/skills\"; fi"
            );
        },
        _ => panic!("expected a shell request"),
    }
    assert_eq!(
        list_remote_dir_result(Ok("foo\nbar\n\n".to_string())).unwrap(),
        vec!["foo".to_string(), "bar".to_string()]
    );
    match check_remote_symlink_exists("~/.acme/skills/foo", "~/central/foo") {
        RemoteOp::Exec(c) => {
            assert_eq!(
                c,
                "[ -L \"$HOME/.acme/skills/foo\" ] && [ \"$(readlink \"$HOME/.acme/skills/foo\")\" = \"$HOME/central/foo\" ] && echo yes || echo no"
            );
        },
        _ => panic!("expected a shell request"),
    }
    assert!(check_symlink_result(Ok("yes\n".to_string())));
    assert!(!check_symlink_result(Ok("no\n".to_string())));
    assert!(!check_symlink_result(Err(CoreError::Connection("down".to_string()))));
}

#[test]
fn remove_request_for_safe_path() {
    match remove_remote_path("~/.ai-toolbox/skills/old") {
        Ok(RemoteOp::Exec(c)) => {
            assert_eq!(c, "rm -rf \"$HOME/.ai-toolbox/skills/old\"");
        },
        _ => panic!("expected the remove request"),
    }
}
