//! The file sync engine.
//!
//! Every operation here computes the exact remote requests to perform —
//! shell commands and file-transfer uploads — and interprets their
//! outcomes; an unverified runner executes the requests over whichever
//! backend is active.  Multi-step operations are small state machines whose
//! contracts pin each emitted request, so the atomic directory replacement
//! (upload to a fresh temporary path, then one remove-and-rename
//! invocation) is visible in the specification itself.

use vstd::prelude::*;
use vstd::string::*;
use crate::errors::CoreError;
use crate::paths::{expand_local_seq, expanded_local_path, tilde_to_home, tilde_to_home_seq, EnvVars};
use crate::shell;
use crate::text::{dec_seq, trim_end_ch, trim_seq, u64_to_string};

verus! {

/// One mapping from a local path to a remote path, owned and persisted by
/// an external collaborator; the engine only reads it.
pub struct FileMapping {
    pub id: String,
    pub module: String,
    pub name: String,
    pub local_path: String,
    pub remote_path: String,
    pub is_directory: bool,
    pub is_pattern: bool,
    pub enabled: bool,
}

/// The aggregate outcome of a batch run.
pub struct SyncResult {
    pub success: bool,
    pub synced_files: Vec<String>,
    pub skipped_files: Vec<String>,
    pub errors: Vec<String>,
}

/// A request the engine asks the runner to perform on the remote target.
pub enum RemoteOp {
    /// Run a shell command; the outcome carries the collected output.
    Exec(String),
    /// Run a shell command, feeding it the given bytes on standard input.
    ExecStdin(String, Vec<u8>),
    /// Transfer one local file to the remote path (the backend resolves
    /// `~`/`$HOME` in the remote path itself).
    UploadFile { local: String, remote: String },
    /// Transfer a local tree to the remote path (the backend resolves
    /// `~`/`$HOME` in the remote path itself).
    UploadDir { local: String, remote: String },
}

/// The `source -> destination` token recorded for a completed transfer.
pub open spec fn sync_token_seq(l: Seq<char>, r: Seq<char>) -> Seq<char> {
    l + " -> "@ + r
}

/// Build the `source -> destination` token for a transfer.
pub fn sync_token(l: &str, r: &str) -> (t: String)
    ensures
        t@ == sync_token_seq(l@, r@),
{
    proof {
        reveal_strlit(" -> ");
    }
    let mut t = String::new();
    t.append(l);
    t.append(" -> ");
    t.append(r);
    proof {
        assert(t@ =~= sync_token_seq(l@, r@));
    }
    t
}

/// What a started operation asks for next.
pub enum Progress {
    /// Perform this request and report its outcome.
    Next(RemoteOp),
    /// The operation is over with this result.
    Finished(Result<Vec<String>, CoreError>),
}

// ---------------------------------------------------------------------------
// Single-file sync
// ---------------------------------------------------------------------------

/// The stages of a single-file sync: create the remote parent directory,
/// then upload the file.
pub enum SingleFileStage {
    Mkdir,
    Upload,
    Done,
}

/// A running single-file sync.
pub struct SingleFileSync {
    pub local_src: String,
    pub remote_path: String,
    pub token: String,
    pub stage: SingleFileStage,
}

impl SingleFileSync {
    /// The fields a single-file sync for these inputs carries.
    pub open spec fn wf(self, local_path: Seq<char>, remote_path: Seq<char>, env: EnvVars) -> bool {
        self.local_src@ == expand_local_seq(local_path, env) && self.remote_path@ == remote_path
            && self.token@ == sync_token_seq(local_path, remote_path)
    }
}

/// How a single-file sync starts.
pub enum SingleFileStart {
    /// The local source does not exist: success with nothing transferred.
    Skip,
    /// Perform the request and feed the outcome to
    /// [`SingleFileSync::on_outcome`].
    Run(SingleFileSync, RemoteOp),
}

/// Start syncing one local file to a remote path.
///
/// `local_exists` reports whether the alias-expanded local source exists; an
/// absent source is success with an empty transfer list.  Otherwise the
/// first request creates the remote parent directory (against the
/// `~`-to-`$HOME` rewritten path, which the remote shell expands), and the
/// second uploads the file.
pub fn sync_single_file(local_path: &str, remote_path: &str, env: &EnvVars, local_exists: bool) -> (
    r: SingleFileStart)
    ensures
        !local_exists ==> r is Skip,
        local_exists ==> (r matches SingleFileStart::Run(m, op) && m.wf(
            local_path@,
            remote_path@,
            *env,
        ) && m.stage is Mkdir && (op matches RemoteOp::Exec(c) && c@
            == shell::mkdir_parent_cmd_spec(tilde_to_home_seq(remote_path@)))),
{
    if !local_exists {
        return SingleFileStart::Skip;
    }
    let expanded = expanded_local_path(local_path, env);
    let remote_target = tilde_to_home(remote_path);
    let mkdir = shell::mkdir_parent_cmd(remote_target.as_str());
    let token = sync_token(local_path, remote_path);
    let m = SingleFileSync {
        local_src: expanded,
        remote_path: remote_path.to_owned(),
        token,
        stage: SingleFileStage::Mkdir,
    };
    SingleFileStart::Run(m, RemoteOp::Exec(mkdir))
}

impl SingleFileSync {
    /// Feed the outcome of the last request back in.
    ///
    /// Any failed request fails the sync with that error.  After the parent
    /// directory exists the file is uploaded; after the upload the sync
    /// finishes with the one transfer token.
    pub fn on_outcome(&mut self, outcome: Result<String, CoreError>) -> (r: Progress)
        requires
            !(old(self).stage is Done),
        ensures
            final(self).local_src == old(self).local_src,
            final(self).remote_path == old(self).remote_path,
            final(self).token == old(self).token,
            outcome matches Err(e) ==> (r matches Progress::Finished(Err(e2)) && e2 == e) && final(
                self
            ).stage is Done,
            outcome is Ok && old(self).stage is Mkdir ==> (r matches Progress::Next(
                RemoteOp::UploadFile { local, remote },
            ) && local == old(self).local_src && remote == old(self).remote_path) && final(
                self
            ).stage is Upload,
            outcome is Ok && old(self).stage is Upload ==> (r matches Progress::Finished(Ok(toks))
                && toks.deep_view() == seq![old(self).token@]) && final(self).stage is Done,
    {
        match outcome {
            Err(e) => {
                self.stage = SingleFileStage::Done;
                Progress::Finished(Err(e))
            },
            Ok(_) => {
                match self.stage {
                    SingleFileStage::Mkdir => {
                        self.stage = SingleFileStage::Upload;
                        Progress::Next(
                            RemoteOp::UploadFile {
                                local: self.local_src.clone(),
                                remote: self.remote_path.clone(),
                            },
                        )
                    },
                    SingleFileStage::Upload => {
                        self.stage = SingleFileStage::Done;
                        let mut toks: Vec<String> = Vec::new();
                        toks.push(self.token.clone());
                        proof {
                            assert(toks.deep_view() =~= seq![self.token@]);
                        }
                        Progress::Finished(Ok(toks))
                    },
                    SingleFileStage::Done => {
                        // unreachable under the precondition
                        Progress::Finished(Ok(Vec::new()))
                    },
                }
            },
        }
    }
}

} // verus!

verus! {

/// The stages of an atomic directory sync: create the remote parent, upload
/// the tree to the temporary path, swap it into place in one invocation —
/// and, if the swap failed, remove the temporary path before surfacing the
/// failure.
pub enum DirStage {
    Mkdir,
    Upload,
    Swap,
    Cleanup { error: String },
    Done,
}

/// A running atomic directory sync.
pub struct DirSync {
    pub local_src: String,
    pub remote_path: String,
    pub remote_target: String,
    pub tmp_path: String,
    pub tmp_target: String,
    pub token: String,
    pub stage: DirStage,
}

impl DirSync {
    /// The fields a directory sync for these inputs carries: the expanded
    /// local source, the `~`-rewritten remote target, and the temporary
    /// path suffixed with the caller's unique timestamp.
    pub open spec fn wf(
        self,
        local_path: Seq<char>,
        remote_path: Seq<char>,
        env: EnvVars,
        timestamp: u64,
    ) -> bool {
        self.local_src@ == expand_local_seq(local_path, env) && self.remote_path@ == remote_path
            && self.remote_target@ == tilde_to_home_seq(remote_path) && self.tmp_path@
            == remote_path + ".tmp_"@ + dec_seq(timestamp as int) && self.tmp_target@
            == tilde_to_home_seq(remote_path) + ".tmp_"@ + dec_seq(timestamp as int)
            && self.token@ == sync_token_seq(local_path, remote_path)
    }
}

/// How a directory sync starts.
pub enum DirSyncStart {
    /// The local source does not exist: success with nothing transferred.
    Skip,
    /// The remote path is one the engine refuses to replace.
    Reject(CoreError),
    /// Perform the request and feed the outcome to [`DirSync::on_outcome`].
    Run(DirSync, RemoteOp),
}

/// The error text for a refused dangerous remote path.
pub open spec fn dangerous_path_text(p: Seq<char>) -> Seq<char> {
    "refusing to act on dangerous remote path: '"@ + p + "'"@
}

/// Build the error for a refused dangerous remote path.
pub fn dangerous_path_error(p: &str) -> (r: CoreError)
    ensures
        r is Safety,
        r.text() == dangerous_path_text(p@),
{
    proof {
        reveal_strlit("refusing to act on dangerous remote path: '");
        reveal_strlit("'");
    }
    let mut m = String::new();
    m.append("refusing to act on dangerous remote path: '");
    m.append(p);
    m.append("'");
    proof {
        assert(m@ =~= dangerous_path_text(p@));
    }
    CoreError::Safety(m)
}

/// Start an atomic directory sync.
///
/// A remote path that is empty, `/`, `~` or `$HOME` is rejected outright
/// with a safety violation, before anything runs remotely.  An absent local
/// source (after alias expansion; `local_exists` reports it) is success
/// with an empty transfer list.  Otherwise the tree is uploaded to a
/// temporary remote path carrying the caller's `timestamp`, and swapped
/// into place with a single remove-and-rename invocation, so a concurrent
/// observer of the target only ever sees the old tree or the new one.
pub fn sync_directory(
    local_path: &str,
    remote_path: &str,
    env: &EnvVars,
    local_exists: bool,
    timestamp: u64,
) -> (r: DirSyncStart)
    ensures
        shell::dangerous_remote_path(remote_path@) ==> (r matches DirSyncStart::Reject(e) && e
            is Safety && e.text() == dangerous_path_text(remote_path@)),
        !shell::dangerous_remote_path(remote_path@) && !local_exists ==> r is Skip,
        !shell::dangerous_remote_path(remote_path@) && local_exists ==> (r
            matches DirSyncStart::Run(m, op) && m.wf(local_path@, remote_path@, *env, timestamp)
            && m.stage is Mkdir && (op matches RemoteOp::Exec(c) && c@
            == shell::mkdir_parent_cmd_spec(tilde_to_home_seq(remote_path@)))),
{
    if shell::is_dangerous_remote_path(remote_path) {
        return DirSyncStart::Reject(dangerous_path_error(remote_path));
    }
    if !local_exists {
        return DirSyncStart::Skip;
    }
    let expanded = expanded_local_path(local_path, env);
    let remote_target = tilde_to_home(remote_path);
    let ts = u64_to_string(timestamp);
    proof {
        reveal_strlit(".tmp_");
    }
    let mut tmp_path = String::new();
    tmp_path.append(remote_path);
    tmp_path.append(".tmp_");
    tmp_path.append(ts.as_str());
    let mut tmp_target = String::new();
    tmp_target.append(remote_target.as_str());
    tmp_target.append(".tmp_");
    tmp_target.append(ts.as_str());
    let mkdir = shell::mkdir_parent_cmd(remote_target.as_str());
    let token = sync_token(local_path, remote_path);
    proof {
        assert(tmp_path@ =~= remote_path@ + ".tmp_"@ + dec_seq(timestamp as int));
        assert(tmp_target@ =~= tilde_to_home_seq(remote_path@) + ".tmp_"@ + dec_seq(
            timestamp as int,
        ));
    }
    let m = DirSync {
        local_src: expanded,
        remote_path: remote_path.to_owned(),
        remote_target,
        tmp_path,
        tmp_target,
        token,
        stage: DirStage::Mkdir,
    };
    DirSyncStart::Run(m, RemoteOp::Exec(mkdir))
}

/// The error text wrapping a failed swap.
pub open spec fn swap_failed_text(detail: Seq<char>) -> Seq<char> {
    "directory swap failed: "@ + detail
}

impl DirSync {
    /// Feed the outcome of the last request back in.
    ///
    /// A failed mkdir or upload fails the sync with that error.  After the
    /// upload, the swap runs as one remote invocation; if it fails, the
    /// temporary path is removed first and the sync then fails with the
    /// swap's error, distinctly wrapped.  Only a successful swap finishes
    /// with the transfer token.
    pub fn on_outcome(&mut self, outcome: Result<String, CoreError>) -> (r: Progress)
        requires
            !(old(self).stage is Done),
        ensures
            final(self).local_src == old(self).local_src,
            final(self).remote_path == old(self).remote_path,
            final(self).remote_target == old(self).remote_target,
            final(self).tmp_path == old(self).tmp_path,
            final(self).tmp_target == old(self).tmp_target,
            final(self).token == old(self).token,
            old(self).stage is Mkdir ==> match outcome {
                Ok(_) => (r matches Progress::Next(RemoteOp::UploadDir { local, remote }) && local
                    == old(self).local_src && remote == old(self).tmp_path) && final(
                    self
                ).stage is Upload,
                Err(e) => (r matches Progress::Finished(Err(e2)) && e2 == e) && final(
                    self
                ).stage is Done,
            },
            old(self).stage is Upload ==> match outcome {
                Ok(_) => (r matches Progress::Next(RemoteOp::Exec(c)) && c@
                    == shell::swap_cmd_spec(old(self).remote_target@, old(self).tmp_target@))
                    && final(self).stage is Swap,
                Err(e) => (r matches Progress::Finished(Err(e2)) && e2 == e) && final(
                    self
                ).stage is Done,
            },
            old(self).stage is Swap ==> match outcome {
                Ok(_) => (r matches Progress::Finished(Ok(toks)) && toks.deep_view() == seq![
                    old(self).token@,
                ]) && final(self).stage is Done,
                Err(e) => (r matches Progress::Next(RemoteOp::Exec(c)) && c@
                    == shell::remove_cmd_spec(old(self).tmp_target@)) && (final(
                    self
                ).stage matches DirStage::Cleanup { error } && error@ == e.text()),
            },
            old(self).stage is Cleanup ==> (r matches Progress::Finished(Err(e2)) && e2
                is RemoteExec && e2.text() == swap_failed_text(old(self).stage->Cleanup_error@))
                && final(self).stage is Done,
    {
        match &self.stage {
            DirStage::Mkdir => {
                match outcome {
                    Ok(_) => {
                        self.stage = DirStage::Upload;
                        Progress::Next(
                            RemoteOp::UploadDir {
                                local: self.local_src.clone(),
                                remote: self.tmp_path.clone(),
                            },
                        )
                    },
                    Err(e) => {
                        self.stage = DirStage::Done;
                        Progress::Finished(Err(e))
                    },
                }
            },
            DirStage::Upload => {
                match outcome {
                    Ok(_) => {
                        self.stage = DirStage::Swap;
                        let c = shell::swap_cmd(
                            self.remote_target.as_str(),
                            self.tmp_target.as_str(),
                        );
                        Progress::Next(RemoteOp::Exec(c))
                    },
                    Err(e) => {
                        self.stage = DirStage::Done;
                        Progress::Finished(Err(e))
                    },
                }
            },
            DirStage::Swap => {
                match outcome {
                    Ok(_) => {
                        self.stage = DirStage::Done;
                        let mut toks: Vec<String> = Vec::new();
                        toks.push(self.token.clone());
                        proof {
                            assert(toks.deep_view() =~= seq![self.token@]);
                        }
                        Progress::Finished(Ok(toks))
                    },
                    Err(e) => {
                        let c = shell::remove_cmd(self.tmp_target.as_str());
                        self.stage = DirStage::Cleanup { error: e.message() };
                        Progress::Next(RemoteOp::Exec(c))
                    },
                }
            },
            DirStage::Cleanup { error } => {
                proof {
                    reveal_strlit("directory swap failed: ");
                }
                let mut m = String::new();
                m.append("directory swap failed: ");
                m.append(error.as_str());
                proof {
                    assert(m@ =~= swap_failed_text(old(self).stage->Cleanup_error@));
                }
                self.stage = DirStage::Done;
                Progress::Finished(Err(CoreError::RemoteExec(m)))
            },
            DirStage::Done => {
                // unreachable under the precondition
                Progress::Finished(Ok(Vec::new()))
            },
        }
    }
}

} // verus!

verus! {

/// One glob match handed in by the caller: the matched path and its final
/// file name.
pub struct GlobMatch {
    pub path: String,
    pub file_name: String,
}

/// One upload of a pattern sync: a matched file and its destination inside
/// the remote directory.
pub struct PatternUpload {
    pub local: String,
    pub remote_dest: String,
    pub token: String,
}

/// The destination of a match inside `remote_dir`: the directory with
/// trailing slashes dropped, a slash, and the file name.
pub open spec fn pattern_dest_seq(remote_dir: Seq<char>, name: Seq<char>) -> Seq<char> {
    trim_end_ch(remote_dir, '/') + "/"@ + name
}

/// The stages of a pattern sync: create the remote directory, then upload
/// the matches one at a time over one shared transfer session.
pub enum PatternStage {
    Mkdir,
    Uploading,
    Done,
}

/// A running pattern sync.
pub struct PatternSync {
    pub uploads: Vec<PatternUpload>,
    pub tokens: Vec<String>,
    pub idx: usize,
    pub stage: PatternStage,
}

impl PatternSync {
    /// Internal consistency: the index stays within the uploads while any
    /// remain.
    pub open spec fn inv(self) -> bool {
        (self.stage is Uploading ==> self.idx < self.uploads@.len()) && self.uploads@.len() > 0
    }
}

/// How a pattern sync starts.
pub enum PatternStart {
    /// No local file matched the pattern: success with nothing transferred.
    Skip,
    /// Perform the request and feed the outcome to
    /// [`PatternSync::on_outcome`].
    Run(PatternSync, RemoteOp),
}

/// Start syncing the files matching a local glob pattern into a remote
/// directory.
///
/// The caller expands the alias-resolved pattern locally and hands in the
/// matches.  No matches is success with an empty transfer list.  Otherwise
/// the remote directory is created first, and each match is uploaded in
/// order; a single file's failure is skipped without failing the batch.
pub fn sync_pattern_files(remote_dir: &str, matches: &Vec<GlobMatch>) -> (r: PatternStart)
    ensures
        matches@.len() == 0 ==> r is Skip,
        matches@.len() > 0 ==> (r matches PatternStart::Run(m, op) && m.inv()
            && m.stage is Mkdir && m.tokens@.len() == 0 && m.uploads@.len() == matches@.len() && (
        forall|i: int|
            0 <= i < matches@.len() ==> (#[trigger] m.uploads@[i]).local@ == matches@[i].path@
                && m.uploads@[i].remote_dest@ == pattern_dest_seq(
                remote_dir@,
                matches@[i].file_name@,
            ) && m.uploads@[i].token@ == sync_token_seq(
                matches@[i].path@,
                pattern_dest_seq(remote_dir@, matches@[i].file_name@),
            )) && (op matches RemoteOp::Exec(c) && c@ == shell::mkdir_dir_cmd_spec(
            tilde_to_home_seq(remote_dir@),
        ))),
{
    let n = matches.len();
    if n == 0 {
        return PatternStart::Skip;
    }
    let remote_target = tilde_to_home(remote_dir);
    let mkdir = shell::mkdir_dir_cmd(remote_target.as_str());
    let trimmed = crate::text::trim_end_matches_char(remote_dir, '/');
    let mut uploads: Vec<PatternUpload> = Vec::new();
    let mut i: usize = 0;
    while i < n
        invariant
            n == matches@.len(),
            i <= n,
            trimmed@ == trim_end_ch(remote_dir@, '/'),
            uploads@.len() == i,
            forall|j: int|
                0 <= j < i ==> (#[trigger] uploads@[j]).local@ == matches@[j].path@
                    && uploads@[j].remote_dest@ == pattern_dest_seq(
                    remote_dir@,
                    matches@[j].file_name@,
                ) && uploads@[j].token@ == sync_token_seq(
                    matches@[j].path@,
                    pattern_dest_seq(remote_dir@, matches@[j].file_name@),
                ),
        decreases n - i,
    {
        proof {
            reveal_strlit("/");
        }
        let mut dest = String::new();
        dest.append(trimmed);
        dest.append("/");
        dest.append(matches[i].file_name.as_str());
        proof {
            assert(dest@ =~= pattern_dest_seq(remote_dir@, matches@[i as int].file_name@));
        }
        let token = sync_token(matches[i].path.as_str(), dest.as_str());
        uploads.push(
            PatternUpload { local: matches[i].path.clone(), remote_dest: dest, token },
        );
        i += 1;
    }
    let m = PatternSync { uploads, tokens: Vec::new(), idx: 0, stage: PatternStage::Mkdir };
    PatternStart::Run(m, RemoteOp::Exec(mkdir))
}

impl PatternSync {
    /// Feed the outcome of the last request back in.
    ///
    /// A failed mkdir fails the whole batch with that error.  A failed
    /// upload only skips that file: its token is not recorded and the next
    /// match proceeds.  When the matches are exhausted, the sync finishes
    /// with the tokens of the uploads that succeeded, in order.
    pub fn on_outcome(&mut self, outcome: Result<String, CoreError>) -> (r: Progress)
        requires
            old(self).inv(),
            !(old(self).stage is Done),
        ensures
            final(self).inv(),
            final(self).uploads == old(self).uploads,
            old(self).stage is Mkdir ==> match outcome {
                Ok(_) => (r matches Progress::Next(RemoteOp::UploadFile { local, remote }) && local
                    == old(self).uploads@[0].local && remote == old(self).uploads@[0].remote_dest)
                    && final(self).stage is Uploading && final(self).idx == 0 && final(
                    self
                ).tokens == old(self).tokens,
                Err(e) => (r matches Progress::Finished(Err(e2)) && e2 == e) && final(
                    self
                ).stage is Done,
            },
            old(self).stage is Uploading ==> ({
                let i = old(self).idx as int;
                let new_tokens = if outcome is Ok {
                    old(self).tokens@.push(old(self).uploads@[i].token)
                } else {
                    old(self).tokens@
                };
                final(self).tokens@ == new_tokens && if i + 1 < old(self).uploads@.len() {
                    (r matches Progress::Next(RemoteOp::UploadFile { local, remote }) && local
                        == old(self).uploads@[i + 1].local && remote == old(self).uploads@[i
                        + 1].remote_dest) && final(self).stage is Uploading && final(self).idx == i
                        + 1
                } else {
                    (r matches Progress::Finished(Ok(toks)) && toks@ == new_tokens) && final(
                        self
                    ).stage is Done
                }
            }),
    {
        match &self.stage {
            PatternStage::Mkdir => {
                match outcome {
                    Ok(_) => {
                        self.stage = PatternStage::Uploading;
                        self.idx = 0;
                        Progress::Next(
                            RemoteOp::UploadFile {
                                local: self.uploads[0].local.clone(),
                                remote: self.uploads[0].remote_dest.clone(),
                            },
                        )
                    },
                    Err(e) => {
                        self.stage = PatternStage::Done;
                        Progress::Finished(Err(e))
                    },
                }
            },
            PatternStage::Uploading => {
                let i = self.idx;
                let n_uploads = self.uploads.len();
                assert(i < n_uploads);
                if outcome.is_ok() {
                    self.tokens.push(self.uploads[i].token.clone());
                }
                if i + 1 < n_uploads {
                    self.idx = i + 1;
                    self.stage = PatternStage::Uploading;
                    Progress::Next(
                        RemoteOp::UploadFile {
                            local: self.uploads[i + 1].local.clone(),
                            remote: self.uploads[i + 1].remote_dest.clone(),
                        },
                    )
                } else {
                    self.stage = PatternStage::Done;
                    let mut toks: Vec<String> = Vec::new();
                    let n = self.tokens.len();
                    let mut j: usize = 0;
                    while j < n
                        invariant
                            n == self.tokens@.len(),
                            j <= n,
                            toks@ == self.tokens@.take(j as int),
                        decreases n - j,
                    {
                        toks.push(self.tokens[j].clone());
                        proof {
                            assert(self.tokens@.take(j + 1) =~= self.tokens@.take(
                                j as int,
                            ).push(self.tokens@[j as int]));
                        }
                        j += 1;
                    }
                    proof {
                        assert(self.tokens@.take(n as int) =~= self.tokens@);
                    }
                    Progress::Finished(Ok(toks))
                }
            },
            PatternStage::Done => {
                // unreachable under the precondition
                Progress::Finished(Ok(Vec::new()))
            },
        }
    }
}

} // verus!

verus! {

/// The request reading a remote file's raw content: `cat` when it exists,
/// an empty line otherwise.  The outcome's collected output is the result;
/// no validation is applied.
pub fn read_remote_file_raw(path: &str) -> (r: RemoteOp)
    ensures
        (r matches RemoteOp::Exec(c) && c@ == shell::read_file_cmd_spec(
            tilde_to_home_seq(path@),
        )),
{
    let target = tilde_to_home(path);
    RemoteOp::Exec(shell::read_file_cmd(target.as_str()))
}

/// What reading validated remote text asks for next.
pub enum TextReadStep {
    /// The read is over with this result.
    Done(Result<String, CoreError>),
    /// The content failed validation: run this transcoding request and hand
    /// its outcome to [`read_remote_file_converted`].
    Convert(RemoteOp),
}

/// Interpret the raw read of a remote text file.
///
/// Valid UTF-8 text is returned as is.  Content bearing the marks of a
/// non-UTF-8 or binary file triggers exactly one remote GBK-to-UTF-8
/// transcoding attempt.
pub fn read_remote_file(path: &str, raw: Result<String, CoreError>) -> (r: TextReadStep)
    ensures
        match raw {
            Err(e) => (r matches TextReadStep::Done(Err(e2)) && e2 == e),
            Ok(content) => if crate::encoding::encoding_ok(content@) {
                (r matches TextReadStep::Done(Ok(c)) && c == content)
            } else {
                (r matches TextReadStep::Convert(RemoteOp::Exec(cmd)) && cmd@
                    == shell::iconv_cmd_spec(tilde_to_home_seq(path@)))
            },
        },
{
    match raw {
        Err(e) => TextReadStep::Done(Err(e)),
        Ok(content) => {
            if crate::encoding::check_file_encoding(content.as_str(), path).is_ok() {
                TextReadStep::Done(Ok(content))
            } else {
                let target = tilde_to_home(path);
                TextReadStep::Convert(RemoteOp::Exec(shell::iconv_cmd(target.as_str())))
            }
        },
    }
}

/// The error text when the automatic transcoding attempt did not yield
/// valid text either.
pub open spec fn convert_failed_text(p: Seq<char>) -> Seq<char> {
    "File "@ + p
        + " is not UTF-8 encoded and automatic conversion failed; convert it manually and retry.\nFix: "@
        + crate::encoding::iconv_fix_command(p)
}

/// Interpret the outcome of the transcoding attempt: text that now
/// validates is returned; anything else is an encoding error naming the
/// manual fix command.
pub fn read_remote_file_converted(path: &str, converted: Result<String, CoreError>) -> (r: Result<
    String,
    CoreError,
>)
    ensures
        match converted {
            Ok(c) => if crate::encoding::encoding_ok(c@) {
                r matches Ok(c2) && c2 == c
            } else {
                (r matches Err(e) && e is Encoding && e.text() == convert_failed_text(path@))
            },
            Err(_) => (r matches Err(e) && e is Encoding && e.text() == convert_failed_text(
                path@,
            )),
        },
{
    match converted {
        Ok(c) => {
            if crate::encoding::check_file_encoding(c.as_str(), path).is_ok() {
                return Ok(c);
            }
        },
        Err(_) => {},
    }
    proof {
        reveal_strlit("File ");
        reveal_strlit(
            " is not UTF-8 encoded and automatic conversion failed; convert it manually and retry.\nFix: ",
        );
    }
    let mut m = String::new();
    m.append("File ");
    m.append(path);
    m.append(
        " is not UTF-8 encoded and automatic conversion failed; convert it manually and retry.\nFix: ",
    );
    let fix = crate::encoding::build_iconv_fix_command(path);
    m.append(fix.as_str());
    proof {
        assert(m@ =~= convert_failed_text(path@));
    }
    Err(CoreError::Encoding(m))
}

/// The request writing `content` to a remote text file: the parent chain is
/// created and the bytes are fed to `cat` on standard input.
pub fn write_remote_file(path: &str, content: &str) -> (r: RemoteOp)
    ensures
        (r matches RemoteOp::ExecStdin(c, data) && c@ == shell::write_stdin_cmd_spec(
            tilde_to_home_seq(path@),
        ) && data@ == vstd::utf8::encode_utf8(content@)),
{
    let target = tilde_to_home(path);
    let cmd = shell::write_stdin_cmd(target.as_str());
    let data = content.as_bytes_vec();
    RemoteOp::ExecStdin(cmd, data)
}

/// The request replacing whatever stands at `link_path` with a symlink to
/// `target`.
pub fn create_remote_symlink(target: &str, link_path: &str) -> (r: RemoteOp)
    ensures
        (r matches RemoteOp::Exec(c) && c@ == shell::symlink_cmd_spec(
            tilde_to_home_seq(target@),
            tilde_to_home_seq(link_path@),
        )),
{
    let t = tilde_to_home(target);
    let l = tilde_to_home(link_path);
    RemoteOp::Exec(shell::symlink_cmd(t.as_str(), l.as_str()))
}

/// The request removing a remote file or tree — refused outright, with no
/// request made, when the path is empty, `/`, `~` or `$HOME`.
pub fn remove_remote_path(path: &str) -> (r: Result<RemoteOp, CoreError>)
    ensures
        shell::dangerous_remote_path(path@) ==> (r matches Err(e) && e is Safety && e.text()
            == dangerous_path_text(path@)),
        !shell::dangerous_remote_path(path@) ==> (r matches Ok(RemoteOp::Exec(c)) && c@
            == shell::remove_cmd_spec(tilde_to_home_seq(path@))),
{
    if shell::is_dangerous_remote_path(path) {
        return Err(dangerous_path_error(path));
    }
    let target = tilde_to_home(path);
    Ok(RemoteOp::Exec(shell::remove_cmd(target.as_str())))
}

/// The request listing the entries of a remote directory, one per line.
pub fn list_remote_dir(path: &str) -> (r: RemoteOp)
    ensures
        (r matches RemoteOp::Exec(c) && c@ == shell::list_dir_cmd_spec(
            tilde_to_home_seq(path@),
        )),
{
    let target = tilde_to_home(path);
    RemoteOp::Exec(shell::list_dir_cmd(target.as_str()))
}

/// Interpret the listing's outcome: its non-empty lines, in order.
pub fn list_remote_dir_result(outcome: Result<String, CoreError>) -> (r: Result<
    Vec<String>,
    CoreError,
>)
    ensures
        match outcome {
            Ok(out) => (r matches Ok(v) && v.deep_view() == crate::text::clean_lines(
                out@,
                false,
            )),
            Err(e) => (r matches Err(e2) && e2 == e),
        },
{
    match outcome {
        Ok(out) => Ok(crate::text::clean_lines_vec(out.as_str(), false)),
        Err(e) => Err(e),
    }
}

/// The request testing whether `link_path` is a symlink pointing at
/// `expected_target`.
pub fn check_remote_symlink_exists(link_path: &str, expected_target: &str) -> (r: RemoteOp)
    ensures
        (r matches RemoteOp::Exec(c) && c@ == shell::check_symlink_cmd_spec(
            tilde_to_home_seq(link_path@),
            tilde_to_home_seq(expected_target@),
        )),
{
    let l = tilde_to_home(link_path);
    let t = tilde_to_home(expected_target);
    RemoteOp::Exec(shell::check_symlink_cmd(l.as_str(), t.as_str()))
}

/// Interpret the symlink test: it holds exactly when the command ran and
/// printed `yes`.
pub fn check_symlink_result(outcome: Result<String, CoreError>) -> (r: bool)
    ensures
        r == (outcome matches Ok(out) && trim_seq(out@) == "yes"@),
{
    proof {
        reveal_strlit("yes");
    }
    match outcome {
        Ok(out) => crate::text::eq_str(crate::text::trim(out.as_str()), "yes"),
        Err(_) => false,
    }
}

} // verus!

verus! {

/// How the sync of one mapping starts, by the mapping's kind.
pub enum MappingStart {
    Directory(DirSyncStart),
    Pattern(PatternStart),
    Single(SingleFileStart),
}

/// Dispatch one mapping to the operation its kind calls for: a directory
/// mapping to the atomic directory sync, a pattern mapping to the pattern
/// sync (over the caller's glob `matches`), anything else to the
/// single-file sync.
pub fn sync_file_mapping(
    mapping: &FileMapping,
    env: &EnvVars,
    local_exists: bool,
    timestamp: u64,
    matches: &Vec<GlobMatch>,
) -> (r: MappingStart)
    ensures
        mapping.is_directory ==> (r matches MappingStart::Directory(d) && ({
            &&& shell::dangerous_remote_path(mapping.remote_path@) ==> (d
                matches DirSyncStart::Reject(e) && e is Safety && e.text() == dangerous_path_text(
                mapping.remote_path@,
            ))
            &&& !shell::dangerous_remote_path(mapping.remote_path@) && !local_exists ==> d is Skip
            &&& !shell::dangerous_remote_path(mapping.remote_path@) && local_exists ==> (d
                matches DirSyncStart::Run(m, op) && m.wf(
                mapping.local_path@,
                mapping.remote_path@,
                *env,
                timestamp,
            ) && m.stage is Mkdir && (op matches RemoteOp::Exec(c) && c@
                == shell::mkdir_parent_cmd_spec(tilde_to_home_seq(mapping.remote_path@))))
        })),
        !mapping.is_directory && mapping.is_pattern ==> (r matches MappingStart::Pattern(p) && ({
            &&& matches@.len() == 0 ==> p is Skip
            &&& matches@.len() > 0 ==> (p matches PatternStart::Run(m, op) && m.inv()
                && m.stage is Mkdir && m.tokens@.len() == 0 && m.uploads@.len() == matches@.len()
                && (op matches RemoteOp::Exec(c) && c@ == shell::mkdir_dir_cmd_spec(
                tilde_to_home_seq(mapping.remote_path@),
            )))
        })),
        !mapping.is_directory && !mapping.is_pattern ==> (r matches MappingStart::Single(s) && ({
            &&& !local_exists ==> s is Skip
            &&& local_exists ==> (s matches SingleFileStart::Run(m, op) && m.wf(
                mapping.local_path@,
                mapping.remote_path@,
                *env,
            ) && m.stage is Mkdir && (op matches RemoteOp::Exec(c) && c@
                == shell::mkdir_parent_cmd_spec(tilde_to_home_seq(mapping.remote_path@))))
        })),
{
    if mapping.is_directory {
        MappingStart::Directory(
            sync_directory(
                mapping.local_path.as_str(),
                mapping.remote_path.as_str(),
                env,
                local_exists,
                timestamp,
            ),
        )
    } else if mapping.is_pattern {
        MappingStart::Pattern(sync_pattern_files(mapping.remote_path.as_str(), matches))
    } else {
        MappingStart::Single(
            sync_single_file(
                mapping.local_path.as_str(),
                mapping.remote_path.as_str(),
                env,
                local_exists,
            ),
        )
    }
}

/// The view of an optional module filter.
pub open spec fn opt_str_view(f: Option<&str>) -> Option<Seq<char>> {
    match f {
        Some(s) => Some(s@),
        None => None,
    }
}

/// Is this mapping part of the batch: enabled, and of the filtered module
/// if a filter is given?
pub open spec fn mapping_selected(m: FileMapping, filter: Option<Seq<char>>) -> bool {
    m.enabled && (filter is None || filter->0 == m.module@)
}

/// The indices of the selected mappings, in input order.
pub open spec fn selected_indices(ms: Seq<FileMapping>, filter: Option<Seq<char>>) -> Seq<int>
    decreases ms.len(),
{
    if ms.len() == 0 {
        seq![]
    } else {
        let pre = selected_indices(ms.drop_last(), filter);
        if mapping_selected(ms.last(), filter) {
            pre.push(ms.len() - 1)
        } else {
            pre
        }
    }
}

/// How many mappings the batch selects.
pub open spec fn selected_count(ms: Seq<FileMapping>, filter: Option<Seq<char>>) -> nat {
    selected_indices(ms, filter).len()
}

proof fn lemma_selected_take_step(ms: Seq<FileMapping>, filter: Option<Seq<char>>, i: int)
    requires
        0 <= i < ms.len(),
    ensures
        selected_indices(ms.take(i + 1), filter) == if mapping_selected(ms[i], filter) {
            selected_indices(ms.take(i), filter).push(i)
        } else {
            selected_indices(ms.take(i), filter)
        },
{
    assert(ms.take(i + 1).drop_last() =~= ms.take(i));
    assert(ms.take(i + 1).last() == ms[i]);
}

proof fn lemma_selected_count_mono(ms: Seq<FileMapping>, filter: Option<Seq<char>>, i: int, j: int)
    requires
        0 <= i <= j <= ms.len(),
    ensures
        selected_count(ms.take(i), filter) <= selected_count(ms.take(j), filter),
    decreases j - i,
{
    if i < j {
        lemma_selected_take_step(ms, filter, j - 1);
        lemma_selected_count_mono(ms, filter, i, j - 1);
    }
}

/// The positions in `mappings` that the batch will process: the enabled
/// mappings of the filtered module, in input order.
pub fn filter_mapping_indices(mappings: &Vec<FileMapping>, module_filter: Option<&str>) -> (r: Vec<
    usize,
>)
    ensures
        r@.map_values(|v: usize| v as int) == selected_indices(
            mappings@,
            opt_str_view(module_filter),
        ),
{
    let ghost filter = opt_str_view(module_filter);
    let n = mappings.len();
    let mut r: Vec<usize> = Vec::new();
    let mut i: usize = 0;
    proof {
        assert(mappings@.take(0) =~= Seq::<FileMapping>::empty());
        assert(r@.map_values(|v: usize| v as int) =~= selected_indices(
            mappings@.take(0),
            filter,
        ));
    }
    while i < n
        invariant
            n == mappings@.len(),
            i <= n,
            filter == opt_str_view(module_filter),
            r@.map_values(|v: usize| v as int) == selected_indices(mappings@.take(i as int), filter),
        decreases n - i,
    {
        let selected = mappings[i].enabled && (match module_filter {
            None => true,
            Some(f) => crate::text::eq_str(mappings[i].module.as_str(), f),
        });
        proof {
            lemma_selected_take_step(mappings@, filter, i as int);
        }
        if selected {
            r.push(i);
            proof {
                assert(r@.map_values(|v: usize| v as int) =~= selected_indices(
                    mappings@.take(i as int),
                    filter,
                ).push(i as int));
            }
        }
        i += 1;
    }
    proof {
        assert(mappings@.take(n as int) =~= mappings@);
    }
    r
}

/// The error entry recorded for a failed mapping: `name: detail`.
pub open spec fn batch_error_entry(name: Seq<char>, detail: Seq<char>) -> Seq<char> {
    name + ": "@ + detail
}

/// The batch aggregation scan: `i` walks the mappings, `k` counts the
/// selected ones seen, and each selected mapping's outcome goes to the
/// synced tokens, the skipped names, or the error entries.
pub open spec fn batch_rec(
    ms: Seq<FileMapping>,
    filter: Option<Seq<char>>,
    outs: Seq<Result<Vec<String>, CoreError>>,
    i: int,
    k: int,
    synced: Seq<Seq<char>>,
    skipped: Seq<Seq<char>>,
    errors: Seq<Seq<char>>,
) -> (Seq<Seq<char>>, Seq<Seq<char>>, Seq<Seq<char>>)
    decreases ms.len() - i,
{
    if i < 0 || i >= ms.len() {
        (synced, skipped, errors)
    } else if !mapping_selected(ms[i], filter) {
        batch_rec(ms, filter, outs, i + 1, k, synced, skipped, errors)
    } else {
        match outs[k] {
            Ok(files) => if files.deep_view().len() == 0 {
                batch_rec(ms, filter, outs, i + 1, k + 1, synced, skipped.push(ms[i].name@), errors)
            } else {
                batch_rec(
                    ms,
                    filter,
                    outs,
                    i + 1,
                    k + 1,
                    synced + files.deep_view(),
                    skipped,
                    errors,
                )
            },
            Err(e) => batch_rec(
                ms,
                filter,
                outs,
                i + 1,
                k + 1,
                synced,
                skipped,
                errors.push(batch_error_entry(ms[i].name@, e.text())),
            ),
        }
    }
}

/// The batch aggregation of `outs`, the outcomes of the selected mappings
/// in order.
pub open spec fn batch_agg(
    ms: Seq<FileMapping>,
    filter: Option<Seq<char>>,
    outs: Seq<Result<Vec<String>, CoreError>>,
) -> (Seq<Seq<char>>, Seq<Seq<char>>, Seq<Seq<char>>) {
    batch_rec(ms, filter, outs, 0, 0, seq![], seq![], seq![])
}

/// Aggregate a batch run over the enabled mappings of the filtered module.
///
/// `outcomes[k]` is the result of syncing the `k`-th selected mapping (as
/// [`filter_mapping_indices`] orders them).  An empty transfer list counts
/// the mapping as skipped; tokens are gathered in order; a failure is
/// recorded as `name: detail` without aborting the rest.  The batch
/// succeeds exactly when no mapping failed.
pub fn sync_mappings(
    mappings: &Vec<FileMapping>,
    module_filter: Option<&str>,
    outcomes: &Vec<Result<Vec<String>, CoreError>>,
) -> (r: SyncResult)
    requires
        outcomes@.len() == selected_count(mappings@, opt_str_view(module_filter)),
    ensures
        ({
            let (synced, skipped, errors) = batch_agg(
                mappings@,
                opt_str_view(module_filter),
                outcomes@,
            );
            r.synced_files.deep_view() == synced && r.skipped_files.deep_view() == skipped
                && r.errors.deep_view() == errors && r.success == (errors.len() == 0)
        }),
{
    let ghost filter = opt_str_view(module_filter);
    let n = mappings.len();
    let total = outcomes.len();
    let mut synced: Vec<String> = Vec::new();
    let mut skipped: Vec<String> = Vec::new();
    let mut errors: Vec<String> = Vec::new();
    let mut i: usize = 0;
    let mut k: usize = 0;
    proof {
        assert(mappings@.take(0) =~= Seq::<FileMapping>::empty());
        assert(synced.deep_view() =~= Seq::<Seq<char>>::empty());
        assert(skipped.deep_view() =~= Seq::<Seq<char>>::empty());
        assert(errors.deep_view() =~= Seq::<Seq<char>>::empty());
    }
    while i < n
        invariant
            n == mappings@.len(),
            i <= n,
            filter == opt_str_view(module_filter),
            total == outcomes@.len(),
            outcomes@.len() == selected_count(mappings@, filter),
            k == selected_count(mappings@.take(i as int), filter),
            batch_agg(mappings@, filter, outcomes@) == batch_rec(
                mappings@,
                filter,
                outcomes@,
                i as int,
                k as int,
                synced.deep_view(),
                skipped.deep_view(),
                errors.deep_view(),
            ),
        decreases n - i,
    {
        let selected = mappings[i].enabled && (match module_filter {
            None => true,
            Some(f) => crate::text::eq_str(mappings[i].module.as_str(), f),
        });
        proof {
            lemma_selected_take_step(mappings@, filter, i as int);
        }
        if selected {
            proof {
                lemma_selected_count_mono(mappings@, filter, i + 1, n as int);
                assert(mappings@.take(n as int) =~= mappings@);
            }
            match &outcomes[k] {
                Ok(files) => {
                    if files.len() == 0 {
                        let ghost pre = skipped.deep_view();
                        skipped.push(mappings[i].name.clone());
                        proof {
                            assert(skipped.deep_view() =~= pre.push(mappings@[i as int].name@));
                        }
                    } else {
                        let ghost pre = synced.deep_view();
                        let m = files.len();
                        let mut j: usize = 0;
                        while j < m
                            invariant
                                m == files@.len(),
                                j <= m,
                                synced.deep_view() == pre + files.deep_view().take(j as int),
                            decreases m - j,
                        {
                            synced.push(files[j].clone());
                            proof {
                                assert(pre + files.deep_view().take(j + 1) =~= (pre
                                    + files.deep_view().take(j as int)).push(
                                    files.deep_view()[j as int],
                                ));
                            }
                            j += 1;
                        }
                        proof {
                            assert(files.deep_view().take(m as int) =~= files.deep_view());
                        }
                    }
                },
                Err(e) => {
                    let ghost pre = errors.deep_view();
                    proof {
                        reveal_strlit(": ");
                    }
                    let mut entry = String::new();
                    entry.append(mappings[i].name.as_str());
                    entry.append(": ");
                    let detail = e.message();
                    entry.append(detail.as_str());
                    proof {
                        assert(entry@ =~= batch_error_entry(
                            mappings@[i as int].name@,
                            e.text(),
                        ));
                    }
                    errors.push(entry);
                    proof {
                        assert(errors.deep_view() =~= pre.push(batch_error_entry(
                            mappings@[i as int].name@,
                            e.text(),
                        )));
                    }
                },
            }
            k += 1;
        }
        i += 1;
    }
    proof {
        assert(mappings@.take(n as int) =~= mappings@);
    }
    let success = errors.len() == 0;
    proof {
        if errors.deep_view().len() == 0 {
            assert(errors@.len() == 0);
        }
    }
    SyncResult { success, synced_files: synced, skipped_files: skipped, errors }
}

} // verus!

