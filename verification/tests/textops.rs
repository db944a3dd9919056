use remote_mirror::db_id::{db_build_id, db_clean_id};
use remote_mirror::paths::{
    expand_env_vars, expand_local_path, mkdir_p_prefixes, parent_path, remote_path_needs_home,
    resolve_remote_path, tilde_to_home, windows_to_wsl_path, EnvVars,
};
use remote_mirror::text::{join_strings, trim, u64_to_string};

fn empty_env() -> EnvVars {
    EnvVars { home_dir: None, userprofile: None, appdata: None, localappdata: None, home: None }
}

#[test]
fn clean_id_strips_prefix_and_wrappers() {
    assert_eq!(db_clean_id("acme_provider:⟨abc-123⟩"), "abc-123");
    assert_eq!(db_clean_id("acme_provider:c6bs"), "c6bs");
    assert_eq!(db_clean_id("⟨uuid⟩"), "uuid");
    assert_eq!(db_clean_id("plain"), "plain");
}

#[test]
fn build_id_joins_with_colon() {
    assert_eq!(db_build_id("acme_provider", "abc-123"), "acme_provider:abc-123");
}

#[test]
fn expand_local_tilde_and_vars() {
    let mut env = empty_env();
    env.home_dir = Some("/home/u".to_string());
    env.home = Some("/home/u".to_string());
    assert_eq!(expand_local_path("~/cfg/x.json", &env).unwrap(), "/home/u/cfg/x.json");
    assert_eq!(expand_local_path("$HOME/y", &env).unwrap(), "/home/u/y");
    assert_eq!(expand_local_path("/abs/z", &env).unwrap(), "/abs/z");
}

#[test]
fn expand_windows_vars() {
    let mut env = empty_env();
    env.appdata = Some("C:\\Users\\u\\AppData\\Roaming".to_string());
    assert_eq!(
        expand_env_vars("%APPDATA%\\tool\\cfg.json", &env).unwrap(),
        "C:\\Users\\u\\AppData\\Roaming\\tool\\cfg.json"
    );
}

#[test]
fn tilde_missing_home_left_alone() {
    let env = empty_env();
    assert_eq!(expand_local_path("~/cfg", &env).unwrap(), "~/cfg");
}

#[test]
fn windows_path_to_wsl_mount() {
    let env = empty_env();
    assert_eq!(
        windows_to_wsl_path("C:\\Users\\me\\f.txt", &env).unwrap(),
        "/mnt/c/Users/me/f.txt"
    );
    assert_eq!(windows_to_wsl_path("relative/path", &env).unwrap(), "relative/path");
}

#[test]
fn parent_path_cases() {
    assert_eq!(parent_path("/a/b/c"), Some("/a/b".to_string()));
    assert_eq!(parent_path("/a"), Some("/".to_string()));
    assert_eq!(parent_path("/a/b/"), Some("/a".to_string()));
    assert_eq!(parent_path("name"), None);
}

#[test]
fn tilde_rewrites_to_home_var() {
    assert_eq!(tilde_to_home("~/x/y"), "$HOME/x/y");
    assert_eq!(tilde_to_home("/plain"), "/plain");
}

#[test]
fn remote_resolution_against_home() {
    assert!(remote_path_needs_home("~/cfg"));
    assert!(remote_path_needs_home("$HOME/cfg"));
    assert!(!remote_path_needs_home("/abs"));
    assert_eq!(resolve_remote_path("~/cfg", "/home/u"), "/home/u/cfg");
    assert_eq!(resolve_remote_path("$HOME/y", "/h"), "/h/y");
    assert_eq!(resolve_remote_path("/abs", "/h"), "/abs");
}

#[test]
fn decimal_formatting() {
    assert_eq!(u64_to_string(0), "0");
    assert_eq!(u64_to_string(7), "7");
    assert_eq!(u64_to_string(12345), "12345");
}

#[test]
fn join_with_separator() {
    let v = vec!["a".to_string(), "b".to_string(), "c".to_string()];
    assert_eq!(join_strings(&v, "; "), "a; b; c");
    let one = vec!["only".to_string()];
    assert_eq!(join_strings(&one, "; "), "only");
    let none: Vec<String> = Vec::new();
    assert_eq!(join_strings(&none, "; "), "");
}

#[test]
fn trim_both_ends() {
    assert_eq!(trim("  x \t\n"), "x");
    assert_eq!(trim(""), "");
    assert_eq!(trim("   "), "");
}

#[test]
fn mkdir_prefix_chain() {
    assert_eq!(
        mkdir_p_prefixes("/a/b/c"),
        vec!["/a".to_string(), "/a/b".to_string(), "/a/b/c".to_string()]
    );
    assert_eq!(mkdir_p_prefixes("x/y"), vec!["/x".to_string(), "/x/y".to_string()]);
}
