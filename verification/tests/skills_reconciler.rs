use remote_mirror::errors::CoreError;
use remote_mirror::skills::{
    get_all_skill_tool_keys, get_remote_tool_skills_dir, is_stale_remote_skill, join_path,
    links_to_ensure, links_to_remove, skill_needs_upload, skills_central_dir, skills_progress,
    skills_sync_outcome, stale_skill_paths, ManagedSkill, ToolInfo,
};
use remote_mirror::sync::{sync_directory, write_remote_file, DirSyncStart, RemoteOp};
use remote_mirror::paths::EnvVars;

fn tools() -> Vec<ToolInfo> {
    vec![
        ToolInfo {
            key: "acme_code".to_string(),
            relative_skills_dir: Some(".acme/skills".to_string()),
        },
        ToolInfo {
            key: "opencode".to_string(),
            relative_skills_dir: Some("~/.config/opencode/skills".to_string()),
        },
        ToolInfo { key: "codex".to_string(), relative_skills_dir: None },
    ]
}

fn skill(name: &str, hash: Option<&str>, enabled: &[&str]) -> ManagedSkill {
    ManagedSkill {
        name: name.to_string(),
        central_path: format!("skills/{}", name),
        content_hash: hash.map(|h| h.to_string()),
        enabled_tools: enabled.iter().map(|t| t.to_string()).collect(),
    }
}

#[test]
fn tool_dirs_are_home_anchored() {
    let ts = tools();
    assert_eq!(
        get_remote_tool_skills_dir(&ts, "acme_code"),
        Some("~/.acme/skills".to_string())
    );
    assert_eq!(
        get_remote_tool_skills_dir(&ts, "opencode"),
        Some("~/.config/opencode/skills".to_string())
    );
    assert_eq!(get_remote_tool_skills_dir(&ts, "codex"), None);
    assert_eq!(get_remote_tool_skills_dir(&ts, "unknown"), None);
}

#[test]
fn skill_capable_tool_keys() {
    assert_eq!(
        get_all_skill_tool_keys(&tools()),
        vec!["acme_code".to_string(), "opencode".to_string()]
    );
}

#[test]
fn hash_gate_decides_uploads() {
    let s = skill("foo", Some("h1"), &["acme_code"]);
    // absent marker: upload
    assert!(skill_needs_upload(&s, ""));
    // matching marker (as written, with the trailing newline the shell adds): skip
    assert!(!skill_needs_upload(&s, "h1\n"));
    assert!(!skill_needs_upload(&s, "h1"));
    // changed content: upload
    assert!(skill_needs_upload(&s, "h0"));
    // a skill with no recorded hash matches only an empty marker
    let none = skill("bar", None, &[]);
    assert!(!skill_needs_upload(&none, " \n"));
    assert!(skill_needs_upload(&none, "h1"));
}

#[test]
fn first_sync_uploads_and_links_rerun_skips() {
    // skill "foo" (hash "h1") absent remotely, enabled for 2 tools
    let s = skill("foo", Some("h1"), &["acme_code", "opencode"]);
    let ts = tools();
    let central = skills_central_dir();
    let remote_target = join_path(central, "foo");
    assert_eq!(remote_target, "~/.ai-toolbox/skills/foo");

    // the marker is absent remotely: the tree is uploaded
    assert!(skill_needs_upload(&s, ""));
    let env = EnvVars {
        home_dir: Some("/home/u".to_string()),
        userprofile: None,
        appdata: None,
        localappdata: None,
        home: None,
    };
    assert!(matches!(
        sync_directory("/central/skills/foo", &remote_target, &env, true, 9),
        DirSyncStart::Run(_, _)
    ));

    // the marker is written with the new hash
    let hash_file = join_path(&remote_target, ".synced_hash");
    assert_eq!(hash_file, "~/.ai-toolbox/skills/foo/.synced_hash");
    let marker_bytes = match write_remote_file(&hash_file, "h1") {
        RemoteOp::ExecStdin(_, data) => data,
        _ => panic!("expected a stdin request"),
    };
    assert_eq!(marker_bytes, b"h1".to_vec());

    // two symlinks are ensured, one per enabled tool
    let links = links_to_ensure(&s, &ts);
    assert_eq!(
        links,
        vec![
            "~/.acme/skills/foo".to_string(),
            "~/.config/opencode/skills/foo".to_string(),
        ]
    );
    assert!(links_to_remove(&s, &ts).is_empty());

    // re-running with the hash unchanged uploads nothing
    let marker_back = String::from_utf8(marker_bytes).unwrap();
    assert!(!skill_needs_upload(&s, &marker_back));
    // and the link set stays the same
    assert_eq!(links_to_ensure(&s, &ts), links);
}

#[test]
fn disabled_tools_lose_their_links() {
    let s = skill("foo", Some("h1"), &["acme_code"]);
    assert_eq!(links_to_ensure(&s, &tools()), vec!["~/.acme/skills/foo".to_string()]);
    assert_eq!(
        links_to_remove(&s, &tools()),
        vec!["~/.config/opencode/skills/foo".to_string()]
    );
}

#[test]
fn stale_remote_skills_fully_removed() {
    let local = vec!["foo".to_string()];
    assert!(is_stale_remote_skill("gone", &local));
    assert!(!is_stale_remote_skill("foo", &local));
    let paths = stale_skill_paths("gone", &tools(), skills_central_dir());
    assert_eq!(
        paths,
        vec![
            "~/.acme/skills/gone".to_string(),
            "~/.config/opencode/skills/gone".to_string(),
            "~/.ai-toolbox/skills/gone".to_string(),
        ]
    );
}

#[test]
fn progress_reports() {
    let p = skills_progress(2, 5, "foo");
    assert_eq!(p.phase, "skills");
    assert_eq!(p.current_item, "foo");
    assert_eq!(p.current, 2);
    assert_eq!(p.total, 5);
    assert_eq!(p.message, "Skills sync: 2/5 - foo");
}

#[test]
fn reconciliation_outcome() {
    assert!(skills_sync_outcome(&Vec::new()).is_ok());
    let errs = vec!["Skill 'a': e1".to_string(), "Skill 'b': e2".to_string()];
    match skills_sync_outcome(&errs) {
        Err(CoreError::RemoteExec(m)) => assert_eq!(m, "Skill 'a': e1; Skill 'b': e2"),
        _ => panic!("expected the joined errors"),
    }
}

#[test]
fn per_skill_plan_combines_the_decisions() {
    let s = skill("foo", Some("h1"), &["acme_code"]);
    let plan = remote_mirror::skills::skill_sync_plan(&s, &tools(), skills_central_dir(), "h0\n");
    assert_eq!(plan.remote_target, "~/.ai-toolbox/skills/foo");
    assert_eq!(plan.hash_file, "~/.ai-toolbox/skills/foo/.synced_hash");
    assert!(plan.needs_upload);
    assert_eq!(plan.links_ensure, vec!["~/.acme/skills/foo".to_string()]);
    assert_eq!(plan.links_remove, vec!["~/.config/opencode/skills/foo".to_string()]);

    let settled = remote_mirror::skills::skill_sync_plan(&s, &tools(), skills_central_dir(), "h1\n");
    assert!(!settled.needs_upload);
}
