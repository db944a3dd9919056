//! The skills reconciler.
//!
//! A local set of managed skills is mirrored under one central remote
//! directory, with per-tool symlinks pointing into the mirror.  The
//! reconciler decides, from read-only inputs, exactly what must change:
//! which stale remote entries to remove, whether a skill's content must be
//! uploaded (gated by its content hash against the remote marker), and
//! which symlinks to create or remove so that a link exists for a tool if
//! and only if the tool is enabled for the skill.

use vstd::prelude::*;
use vstd::string::*;
use crate::errors::CoreError;
use crate::text::{eq_str, has_prefix, join_seq, starts_with, trim, trim_seq};

verus! {

/// One managed skill, owned and persisted by an external collaborator.
pub struct ManagedSkill {
    pub name: String,
    pub central_path: String,
    pub content_hash: Option<String>,
    pub enabled_tools: Vec<String>,
}

/// One known tool: its key, and where its skills directory lies, when it
/// supports skills.
pub struct ToolInfo {
    pub key: String,
    pub relative_skills_dir: Option<String>,
}

/// A progress report emitted at each skill boundary, consumed by an
/// external observer; fire and forget.
pub struct SyncProgress {
    pub phase: String,
    pub current_item: String,
    pub current: u32,
    pub total: u32,
    pub message: String,
}

/// The central remote directory that mirrors the managed skills.
pub fn skills_central_dir() -> (r: &'static str)
    ensures
        r@ == "~/.ai-toolbox/skills"@,
{
    "~/.ai-toolbox/skills"
}

/// `a` and `b` joined with a slash.
pub open spec fn join_path_seq(a: Seq<char>, b: Seq<char>) -> Seq<char> {
    a + "/"@ + b
}

/// Join a directory and an entry name with a slash.
pub fn join_path(a: &str, b: &str) -> (r: String)
    ensures
        r@ == join_path_seq(a@, b@),
{
    proof {
        reveal_strlit("/");
    }
    let mut r = String::new();
    r.append(a);
    r.append("/");
    r.append(b);
    proof {
        assert(r@ =~= join_path_seq(a@, b@));
    }
    r
}

/// The skills directory of the first tool with this key that has one.
pub open spec fn first_tool_dir(tools: Seq<ToolInfo>, key: Seq<char>) -> Option<Seq<char>>
    decreases tools.len(),
{
    if tools.len() == 0 {
        None
    } else if tools[0].key@ == key && tools[0].relative_skills_dir is Some {
        Some(tools[0].relative_skills_dir->0@)
    } else {
        first_tool_dir(tools.drop_first(), key)
    }
}

/// A relative skills directory anchored at the remote home: left alone when
/// it already starts with `~/` or `~\`, prefixed with `~/` otherwise.
pub open spec fn normalize_skills_dir(d: Seq<char>) -> Seq<char> {
    if has_prefix(d, "~/"@) || has_prefix(d, "~\\"@) {
        d
    } else {
        "~/"@ + d
    }
}

/// The remote skills directory for a tool key, if that tool supports
/// skills: the first matching tool's directory, anchored at the remote
/// home.
pub fn get_remote_tool_skills_dir(tools: &Vec<ToolInfo>, tool_key: &str) -> (r: Option<String>)
    ensures
        match first_tool_dir(tools@, tool_key@) {
            Some(d) => (r matches Some(s) && s@ == normalize_skills_dir(d)),
            None => r is None,
        },
{
    proof {
        reveal_strlit("~/");
        reveal_strlit("~\\");
        assert(tools@.skip(0) =~= tools@);
    }
    let n = tools.len();
    let mut i: usize = 0;
    while i < n
        invariant
            n == tools@.len(),
            i <= n,
            first_tool_dir(tools@, tool_key@) == first_tool_dir(tools@.skip(i as int), tool_key@),
        decreases n - i,
    {
        proof {
            let t = tools@.skip(i as int);
            assert(t[0] == tools@[i as int]);
            assert(t.drop_first() =~= tools@.skip(i + 1));
        }
        if eq_str(tools[i].key.as_str(), tool_key) {
            match &tools[i].relative_skills_dir {
                Some(d) => {
                    if starts_with(d.as_str(), "~/") || starts_with(d.as_str(), "~\\") {
                        return Some(d.clone());
                    } else {
                        let mut s = String::new();
                        s.append("~/");
                        s.append(d.as_str());
                        proof {
                            assert(s@ =~= "~/"@ + d@);
                        }
                        return Some(s);
                    }
                },
                None => {},
            }
        }
        i += 1;
    }
    proof {
        assert(tools@.skip(n as int) =~= Seq::<ToolInfo>::empty());
    }
    None
}

/// The keys of the tools that support skills, in order.
pub open spec fn skill_tool_keys(tools: Seq<ToolInfo>) -> Seq<Seq<char>>
    decreases tools.len(),
{
    if tools.len() == 0 {
        seq![]
    } else {
        let rest = skill_tool_keys(tools.drop_first());
        if tools[0].relative_skills_dir is Some {
            seq![tools[0].key@] + rest
        } else {
            rest
        }
    }
}

/// The keys of all tools that support skills, in order.
pub fn get_all_skill_tool_keys(tools: &Vec<ToolInfo>) -> (r: Vec<String>)
    ensures
        r.deep_view() == skill_tool_keys(tools@),
{
    let n = tools.len();
    let mut r: Vec<String> = Vec::new();
    let mut i: usize = 0;
    proof {
        assert(tools@.skip(0) =~= tools@);
        assert(r.deep_view() =~= Seq::<Seq<char>>::empty());
    }
    while i < n
        invariant
            n == tools@.len(),
            i <= n,
            skill_tool_keys(tools@) == r.deep_view() + skill_tool_keys(tools@.skip(i as int)),
        decreases n - i,
    {
        proof {
            let t = tools@.skip(i as int);
            assert(t[0] == tools@[i as int]);
            assert(t.drop_first() =~= tools@.skip(i + 1));
        }
        let ghost pre = r.deep_view();
        if tools[i].relative_skills_dir.is_some() {
            r.push(tools[i].key.clone());
            proof {
                assert(r.deep_view() =~= pre.push(tools@[i as int].key@));
                assert(pre.push(tools@[i as int].key@) =~= pre + seq![tools@[i as int].key@]);
                assert((pre + seq![tools@[i as int].key@]) + skill_tool_keys(
                    tools@.skip(i + 1),
                ) =~= pre + (seq![tools@[i as int].key@] + skill_tool_keys(tools@.skip(i + 1))));
            }
        }
        i += 1;
    }
    proof {
        assert(tools@.skip(n as int) =~= Seq::<ToolInfo>::empty());
        assert(r.deep_view() + Seq::<Seq<char>>::empty() =~= r.deep_view());
    }
    r
}

/// The local content hash of a skill, the empty string when none is
/// recorded.
pub open spec fn local_hash_view(skill: ManagedSkill) -> Seq<char> {
    match skill.content_hash {
        Some(h) => h@,
        None => Seq::empty(),
    }
}

/// Must this skill's content be uploaded?  Exactly when the trimmed remote
/// marker differs from the skill's current content hash; matching hashes
/// skip the transfer entirely.
pub fn skill_needs_upload(skill: &ManagedSkill, remote_hash_raw: &str) -> (r: bool)
    ensures
        r == (trim_seq(remote_hash_raw@) != local_hash_view(*skill)),
{
    let remote = trim(remote_hash_raw);
    match &skill.content_hash {
        Some(h) => !eq_str(remote, h.as_str()),
        None => {
            let nonempty = remote.unicode_len() != 0;
            proof {
                if remote@.len() == 0 {
                    assert(remote@ =~= Seq::<char>::empty());
                }
            }
            nonempty
        },
    }
}

/// A second reconciliation of an unchanged skill uploads nothing: when the
/// remote marker holds exactly the skill's hash (as it does after a
/// successful sync wrote it, for a hash free of surrounding white space),
/// the hash gate closes.
pub proof fn lemma_unchanged_hash_skips(skill: ManagedSkill, marker: Seq<char>)
    requires
        marker == local_hash_view(skill),
        trim_seq(marker) == marker,
    ensures
        !(trim_seq(marker) != local_hash_view(skill)),
{
}

} // verus!

verus! {

/// The link paths to ensure for a skill: one per enabled tool that
/// supports skills, in the skill's own order, each pointing into the
/// central mirror.
pub open spec fn ensure_links_spec(
    enabled: Seq<Seq<char>>,
    tools: Seq<ToolInfo>,
    name: Seq<char>,
) -> Seq<Seq<char>>
    decreases enabled.len(),
{
    if enabled.len() == 0 {
        seq![]
    } else {
        let rest = ensure_links_spec(enabled.drop_first(), tools, name);
        match first_tool_dir(tools, enabled[0]) {
            Some(d) => seq![join_path_seq(normalize_skills_dir(d), name)] + rest,
            None => rest,
        }
    }
}

/// The symlink paths that must exist for this skill: one under each
/// enabled tool's skills directory.  The runner creates each link that is
/// missing or points at an unexpected target.
pub fn links_to_ensure(skill: &ManagedSkill, tools: &Vec<ToolInfo>) -> (r: Vec<String>)
    ensures
        r.deep_view() == ensure_links_spec(skill.enabled_tools.deep_view(), tools@, skill.name@),
{
    let ghost enabled = skill.enabled_tools.deep_view();
    let n = skill.enabled_tools.len();
    let mut r: Vec<String> = Vec::new();
    let mut i: usize = 0;
    proof {
        assert(enabled.skip(0) =~= enabled);
        assert(r.deep_view() =~= Seq::<Seq<char>>::empty());
    }
    while i < n
        invariant
            n == skill.enabled_tools@.len(),
            enabled == skill.enabled_tools.deep_view(),
            i <= n,
            ensure_links_spec(enabled, tools@, skill.name@) == r.deep_view() + ensure_links_spec(
                enabled.skip(i as int),
                tools@,
                skill.name@,
            ),
        decreases n - i,
    {
        proof {
            let t = enabled.skip(i as int);
            assert(t[0] == enabled[i as int]);
            assert(t.drop_first() =~= enabled.skip(i + 1));
        }
        let ghost pre = r.deep_view();
        match get_remote_tool_skills_dir(tools, skill.enabled_tools[i].as_str()) {
            Some(dir) => {
                let link = join_path(dir.as_str(), skill.name.as_str());
                r.push(link);
                proof {
                    let entry = join_path_seq(
                        normalize_skills_dir(first_tool_dir(tools@, enabled[i as int])->0),
                        skill.name@,
                    );
                    assert(r.deep_view() =~= pre.push(entry));
                    assert(pre.push(entry) =~= pre + seq![entry]);
                    assert((pre + seq![entry]) + ensure_links_spec(
                        enabled.skip(i + 1),
                        tools@,
                        skill.name@,
                    ) =~= pre + (seq![entry] + ensure_links_spec(
                        enabled.skip(i + 1),
                        tools@,
                        skill.name@,
                    )));
                }
            },
            None => {},
        }
        i += 1;
    }
    proof {
        assert(enabled.skip(n as int) =~= Seq::<Seq<char>>::empty());
        assert(r.deep_view() + Seq::<Seq<char>>::empty() =~= r.deep_view());
    }
    r
}

/// The link paths to remove for a skill: one under each skills-capable
/// tool that is not currently enabled for it.
pub open spec fn remove_links_spec(
    tools: Seq<ToolInfo>,
    all_tools: Seq<ToolInfo>,
    enabled: Seq<Seq<char>>,
    name: Seq<char>,
) -> Seq<Seq<char>>
    decreases tools.len(),
{
    if tools.len() == 0 {
        seq![]
    } else {
        let rest = remove_links_spec(tools.drop_first(), all_tools, enabled, name);
        if tools[0].relative_skills_dir is Some && !enabled.contains(tools[0].key@) {
            match first_tool_dir(all_tools, tools[0].key@) {
                Some(d) => seq![join_path_seq(normalize_skills_dir(d), name)] + rest,
                None => rest,
            }
        } else {
            rest
        }
    }
}

fn enabled_contains(enabled: &Vec<String>, key: &str) -> (r: bool)
    ensures
        r == enabled.deep_view().contains(key@),
{
    let n = enabled.len();
    let mut i: usize = 0;
    while i < n
        invariant
            n == enabled@.len(),
            i <= n,
            forall|j: int| 0 <= j < i ==> enabled.deep_view()[j] != key@,
        decreases n - i,
    {
        if eq_str(enabled[i].as_str(), key) {
            assert(enabled.deep_view()[i as int] == key@);
            return true;
        }
        i += 1;
    }
    false
}

/// The symlink paths that must not exist for this skill: one under each
/// skills-capable tool no longer enabled for it.  The runner removes each.
pub fn links_to_remove(skill: &ManagedSkill, tools: &Vec<ToolInfo>) -> (r: Vec<String>)
    ensures
        r.deep_view() == remove_links_spec(
            tools@,
            tools@,
            skill.enabled_tools.deep_view(),
            skill.name@,
        ),
{
    let ghost enabled = skill.enabled_tools.deep_view();
    let n = tools.len();
    let mut r: Vec<String> = Vec::new();
    let mut i: usize = 0;
    proof {
        assert(tools@.skip(0) =~= tools@);
        assert(r.deep_view() =~= Seq::<Seq<char>>::empty());
    }
    while i < n
        invariant
            n == tools@.len(),
            enabled == skill.enabled_tools.deep_view(),
            i <= n,
            remove_links_spec(tools@, tools@, enabled, skill.name@) == r.deep_view()
                + remove_links_spec(tools@.skip(i as int), tools@, enabled, skill.name@),
        decreases n - i,
    {
        proof {
            let t = tools@.skip(i as int);
            assert(t[0] == tools@[i as int]);
            assert(t.drop_first() =~= tools@.skip(i + 1));
        }
        let ghost pre = r.deep_view();
        if tools[i].relative_skills_dir.is_some() && !enabled_contains(
            &skill.enabled_tools,
            tools[i].key.as_str(),
        ) {
            match get_remote_tool_skills_dir(tools, tools[i].key.as_str()) {
                Some(dir) => {
                    let link = join_path(dir.as_str(), skill.name.as_str());
                    r.push(link);
                    proof {
                        let entry = join_path_seq(
                            normalize_skills_dir(
                                first_tool_dir(tools@, tools@[i as int].key@)->0,
                            ),
                            skill.name@,
                        );
                        assert(r.deep_view() =~= pre.push(entry));
                        assert(pre.push(entry) =~= pre + seq![entry]);
                        assert((pre + seq![entry]) + remove_links_spec(
                            tools@.skip(i + 1),
                            tools@,
                            enabled,
                            skill.name@,
                        ) =~= pre + (seq![entry] + remove_links_spec(
                            tools@.skip(i + 1),
                            tools@,
                            enabled,
                            skill.name@,
                        )));
                    }
                },
                None => {},
            }
        }
        i += 1;
    }
    proof {
        assert(tools@.skip(n as int) =~= Seq::<ToolInfo>::empty());
        assert(r.deep_view() + Seq::<Seq<char>>::empty() =~= r.deep_view());
    }
    r
}

/// The paths to remove for a remote skill that no longer exists locally:
/// its link under every skills-capable tool, then its central copy, in
/// that order.
pub fn stale_skill_paths(skill_name: &str, tools: &Vec<ToolInfo>, central_dir: &str) -> (r: Vec<
    String,
>)
    ensures
        r.deep_view().len() > 0,
        r.deep_view().last() == join_path_seq(central_dir@, skill_name@),
        r.deep_view().drop_last() == remove_links_spec(tools@, tools@, Seq::empty(), skill_name@),
{
    let stale = ManagedSkill {
        name: skill_name.to_owned(),
        central_path: String::new(),
        content_hash: None,
        enabled_tools: Vec::new(),
    };
    proof {
        assert(stale.enabled_tools.deep_view() =~= Seq::<Seq<char>>::empty());
    }
    let mut r = links_to_remove(&stale, tools);
    let central = join_path(central_dir, skill_name);
    r.push(central);
    proof {
        assert(r.deep_view().drop_last() =~= remove_links_spec(
            tools@,
            tools@,
            Seq::empty(),
            skill_name@,
        ));
    }
    r
}

/// Is this remote skill name absent from the local skill set?
pub fn is_stale_remote_skill(remote_name: &str, local_names: &Vec<String>) -> (r: bool)
    ensures
        r == !local_names.deep_view().contains(remote_name@),
{
    !enabled_contains(local_names, remote_name)
}

/// The progress message at one skill boundary.
pub open spec fn skills_progress_message(current: u32, total: u32, name: Seq<char>) -> Seq<char> {
    "Skills sync: "@ + crate::text::dec_seq(current as int) + "/"@ + crate::text::dec_seq(
        total as int,
    ) + " - "@ + name
}

/// The progress report emitted at one skill boundary.
pub fn skills_progress(current: u32, total: u32, name: &str) -> (r: SyncProgress)
    ensures
        r.phase@ == "skills"@,
        r.current_item@ == name@,
        r.current == current,
        r.total == total,
        r.message@ == skills_progress_message(current, total, name@),
{
    proof {
        reveal_strlit("skills");
        reveal_strlit("Skills sync: ");
        reveal_strlit("/");
        reveal_strlit(" - ");
    }
    let mut m = String::new();
    m.append("Skills sync: ");
    let c = crate::text::u64_to_string(current as u64);
    m.append(c.as_str());
    m.append("/");
    let t = crate::text::u64_to_string(total as u64);
    m.append(t.as_str());
    m.append(" - ");
    m.append(name);
    proof {
        assert(m@ =~= skills_progress_message(current, total, name@));
    }
    SyncProgress {
        phase: "skills".to_owned(),
        current_item: name.to_owned(),
        current,
        total,
        message: m,
    }
}

/// The overall outcome of a reconciliation run: success when no skill
/// failed, otherwise the per-skill errors joined with `; `.
pub fn skills_sync_outcome(errors: &Vec<String>) -> (r: Result<(), CoreError>)
    ensures
        errors.deep_view().len() == 0 ==> r is Ok,
        errors.deep_view().len() > 0 ==> (r matches Err(e) && e is RemoteExec && e.text()
            == join_seq(errors.deep_view(), "; "@)),
{
    proof {
        reveal_strlit("; ");
    }
    if errors.len() == 0 {
        Ok(())
    } else {
        Err(CoreError::RemoteExec(crate::text::join_strings(errors, "; ")))
    }
}

} // verus!

verus! {

/// Everything the reconciler decides for one skill in one place.
pub struct SkillPlan {
    /// The skill's directory in the central remote mirror.
    pub remote_target: String,
    /// The marker file holding the last-synced content hash.
    pub hash_file: String,
    /// Whether the content must be uploaded (the hash gate).
    pub needs_upload: bool,
    /// The symlinks that must exist, one per enabled tool.
    pub links_ensure: Vec<String>,
    /// The symlinks that must not exist, one per no-longer-enabled tool.
    pub links_remove: Vec<String>,
}

/// Decide one skill's reconciliation, given the raw remote marker content.
///
/// The upload is gated by the content hash; the symlink sets depend only on
/// which tools are enabled, independently of the transfer.
pub fn skill_sync_plan(
    skill: &ManagedSkill,
    tools: &Vec<ToolInfo>,
    central_dir: &str,
    remote_hash_raw: &str,
) -> (r: SkillPlan)
    ensures
        r.remote_target@ == join_path_seq(central_dir@, skill.name@),
        r.hash_file@ == join_path_seq(join_path_seq(central_dir@, skill.name@), ".synced_hash"@),
        r.needs_upload == (trim_seq(remote_hash_raw@) != local_hash_view(*skill)),
        r.links_ensure.deep_view() == ensure_links_spec(
            skill.enabled_tools.deep_view(),
            tools@,
            skill.name@,
        ),
        r.links_remove.deep_view() == remove_links_spec(
            tools@,
            tools@,
            skill.enabled_tools.deep_view(),
            skill.name@,
        ),
{
    let remote_target = join_path(central_dir, skill.name.as_str());
    let hash_file = join_path(remote_target.as_str(), ".synced_hash");
    SkillPlan {
        needs_upload: skill_needs_upload(skill, remote_hash_raw),
        links_ensure: links_to_ensure(skill, tools),
        links_remove: links_to_remove(skill, tools),
        remote_target,
        hash_file,
    }
}

} // verus!
