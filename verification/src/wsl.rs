//! The shell-bridge backend adapter.
//!
//! The second backend reaches its target not over the network but by
//! invoking a local virtualization shell (`wsl`) as an external process,
//! one invocation per operation.  This module decides the exact process
//! arguments, decodes the process output (which on Windows hosts arrives
//! as UTF-16 LE), detects and selects distributions, and interprets each
//! invocation's outcome.  The invocations themselves are performed by an
//! unverified runner.

use vstd::prelude::*;
use vstd::string::*;
use crate::encoding::{decode_wsl_output, decode_wsl_spec};
use crate::errors::CoreError;
use crate::shell;
use crate::text::{
    clean_lines, clean_lines_vec, contains_seq, contains_str, eq_str, has_prefix, split_wsp,
    starts_with, trim, trim_seq,
};

verus! {

/// One invocation of the bridge: the distribution to address and the shell
/// command to run in it.
pub struct WslRequest {
    pub distro: String,
    pub command: String,
}

/// One invocation that also feeds bytes to the command's standard input.
pub struct WslStdinRequest {
    pub distro: String,
    pub command: String,
    pub stdin: Vec<u8>,
}

/// What one finished bridge invocation reported: whether the process
/// exited successfully, and its raw output bytes.
pub struct ShellOutcome {
    pub success: bool,
    pub stdout: Vec<u8>,
    pub stderr: Vec<u8>,
}

/// The argument list handed to the bridge executable for `request`:
/// `-d <distro> --exec bash -c <command>`.
pub fn wsl_exec_args(request: &WslRequest) -> (r: Vec<String>)
    ensures
        r.deep_view() == seq![
            "-d"@,
            request.distro@,
            "--exec"@,
            "bash"@,
            "-c"@,
            request.command@,
        ],
{
    let mut r: Vec<String> = Vec::new();
    r.push("-d".to_owned());
    r.push(request.distro.clone());
    r.push("--exec".to_owned());
    r.push("bash".to_owned());
    r.push("-c".to_owned());
    r.push(request.command.clone());
    proof {
        assert(r.deep_view() =~= seq![
            "-d"@,
            request.distro@,
            "--exec"@,
            "bash"@,
            "-c"@,
            request.command@,
        ]);
    }
    r
}

/// The distributions named by a `--list --quiet` invocation: its decoded
/// output's lines, trimmed, empty ones dropped — or a failure when the
/// listing command itself failed.
pub fn get_wsl_distros(listing: &ShellOutcome) -> (r: Result<Vec<String>, CoreError>)
    ensures
        !listing.success ==> (r matches Err(e) && e is RemoteExec && e.text()
            == "WSL list command failed"@),
        listing.success ==> (r matches Ok(v) && v.deep_view() == clean_lines(
            decode_wsl_spec(listing.stdout@),
            true,
        )),
{
    if !listing.success {
        proof {
            reveal_strlit("WSL list command failed");
        }
        return Err(CoreError::RemoteExec("WSL list command failed".to_owned()));
    }
    let decoded = decode_wsl_output(listing.stdout.as_slice());
    Ok(clean_lines_vec(decoded.as_str(), true))
}

/// The first element of `ds` with prefix-relation `forward` to `c`:
/// `d` such that `c` is a prefix of `d` when `forward`, and `d` a prefix of
/// `c` otherwise.
pub open spec fn first_prefix_match(ds: Seq<Seq<char>>, c: Seq<char>, forward: bool) -> Option<
    Seq<char>,
>
    decreases ds.len(),
{
    if ds.len() == 0 {
        None
    } else if (forward && has_prefix(ds[0], c)) || (!forward && has_prefix(c, ds[0])) {
        Some(ds[0])
    } else {
        first_prefix_match(ds.drop_first(), c, forward)
    }
}

fn find_prefix_match(ds: &Vec<String>, c: &str, forward: bool) -> (r: Option<String>)
    ensures
        match r {
            Some(d) => first_prefix_match(ds.deep_view(), c@, forward) == Some(d@),
            None => first_prefix_match(ds.deep_view(), c@, forward) is None,
        },
{
    let n = ds.len();
    let mut i: usize = 0;
    proof {
        assert(ds.deep_view().skip(0) =~= ds.deep_view());
    }
    while i < n
        invariant
            n == ds@.len(),
            i <= n,
            first_prefix_match(ds.deep_view(), c@, forward) == first_prefix_match(
                ds.deep_view().skip(i as int),
                c@,
                forward,
            ),
        decreases n - i,
    {
        let hit = if forward {
            starts_with(ds[i].as_str(), c)
        } else {
            starts_with(c, ds[i].as_str())
        };
        proof {
            let t = ds.deep_view().skip(i as int);
            assert(t[0] == ds.deep_view()[i as int]);
            assert(t.drop_first() =~= ds.deep_view().skip(i + 1));
        }
        if hit {
            return Some(ds[i].clone());
        }
        i += 1;
    }
    proof {
        assert(ds.deep_view().skip(n as int) =~= Seq::<Seq<char>>::empty());
    }
    None
}

fn vec_contains_str(ds: &Vec<String>, c: &str) -> (r: bool)
    ensures
        r == ds.deep_view().contains(c@),
{
    let n = ds.len();
    let mut i: usize = 0;
    while i < n
        invariant
            n == ds@.len(),
            i <= n,
            forall|j: int| 0 <= j < i ==> ds.deep_view()[j] != c@,
        decreases n - i,
    {
        if eq_str(ds[i].as_str(), c) {
            assert(ds.deep_view()[i as int] == c@);
            return true;
        }
        i += 1;
    }
    false
}

/// The distribution a configured name resolves to, given the available
/// ones.
pub open spec fn effective_distro_spec(c: Seq<char>, ds: Seq<Seq<char>>) -> Seq<char> {
    if ds.contains(c) {
        c
    } else {
        match first_prefix_match(ds, c, true) {
            Some(d) => d,
            None => match first_prefix_match(ds, c, false) {
                Some(d) => d,
                None => ds[0],
            },
        }
    }
}

/// Resolve the configured distribution name against the available ones.
///
/// An exact match wins; otherwise the first available distribution the
/// configured name is a prefix of; then the first one that is a prefix of
/// the configured name; and as a last resort the first available one.  No
/// distributions at all is an error.
pub fn get_effective_distro(configured_distro: &str, distros: &Vec<String>) -> (r: Result<
    String,
    CoreError,
>)
    ensures
        distros@.len() == 0 ==> (r matches Err(e) && e is Connection && e.text()
            == "No WSL distros available"@),
        distros@.len() > 0 ==> (r matches Ok(d) && d@ == effective_distro_spec(
            configured_distro@,
            distros.deep_view(),
        )),
{
    let n = distros.len();
    if n == 0 {
        proof {
            reveal_strlit("No WSL distros available");
        }
        return Err(CoreError::Connection("No WSL distros available".to_owned()));
    }
    if vec_contains_str(distros, configured_distro) {
        return Ok(configured_distro.to_owned());
    }
    if let Some(d) = find_prefix_match(distros, configured_distro, true) {
        return Ok(d);
    }
    if let Some(d) = find_prefix_match(distros, configured_distro, false) {
        return Ok(d);
    }
    Ok(distros[0].clone())
}

/// The outcome of probing for the bridge.
pub struct WslDetectResult {
    pub available: bool,
    pub distros: Vec<String>,
    pub error: Option<String>,
}

/// Interpret the bridge probe.
///
/// `status_run` is the fate of the `--status` invocation: an error when the
/// bridge executable could not be run at all, otherwise whether it exited
/// successfully.  When it did, `distros` (the interpreted `--list`
/// invocation) fills the result; a failed listing still reports the bridge
/// as available.
pub fn detect_wsl(status_run: Result<bool, String>, distros: Result<Vec<String>, CoreError>) -> (r:
    WslDetectResult)
    ensures
        match status_run {
            Err(e) => !r.available && r.distros@.len() == 0 && (r.error matches Some(m) && m@
                == "Failed to run WSL command: "@ + e@),
            Ok(ok) => if !ok {
                !r.available && r.distros@.len() == 0 && (r.error matches Some(m) && m@
                    == "WSL command failed"@)
            } else {
                r.available && match distros {
                    Ok(ds) => r.distros == ds && r.error is None,
                    Err(e) => r.distros@.len() == 0 && (r.error matches Some(m) && m@ == e.text()),
                }
            },
        },
{
    match status_run {
        Err(e) => {
            proof {
                reveal_strlit("Failed to run WSL command: ");
            }
            let mut m = String::new();
            m.append("Failed to run WSL command: ");
            m.append(e.as_str());
            proof {
                assert(m@ =~= "Failed to run WSL command: "@ + e@);
            }
            WslDetectResult { available: false, distros: Vec::new(), error: Some(m) }
        },
        Ok(ok) => {
            if !ok {
                proof {
                    reveal_strlit("WSL command failed");
                }
                WslDetectResult {
                    available: false,
                    distros: Vec::new(),
                    error: Some("WSL command failed".to_owned()),
                }
            } else {
                match distros {
                    Ok(ds) => WslDetectResult { available: true, distros: ds, error: None },
                    Err(e) => WslDetectResult {
                        available: true,
                        distros: Vec::new(),
                        error: Some(e.message()),
                    },
                }
            }
        },
    }
}

} // verus!

verus! {

/// `s` lowered character by character, ASCII letters only.
pub open spec fn ascii_lower_seq(s: Seq<char>) -> Seq<char> {
    s.map_values(|c: char| crate::paths::ascii_lower_char(c))
}

/// Does `s` spell `running` up to ASCII case?
pub fn is_running_token(s: &str) -> (r: bool)
    ensures
        r == (ascii_lower_seq(s@) == "running"@),
{
    proof {
        reveal_strlit("running");
    }
    let n = s.unicode_len();
    if n != 7 {
        proof {
            assert(ascii_lower_seq(s@).len() == s@.len());
        }
        return false;
    }
    let pat = "running";
    let mut i: usize = 0;
    while i < 7
        invariant
            n == s@.len(),
            n == 7,
            pat@ == "running"@,
            pat@.len() == 7,
            i <= 7,
            forall|j: int| 0 <= j < i ==> ascii_lower_seq(s@)[j] == pat@[j],
        decreases 7 - i,
    {
        let lowered = crate::paths::ascii_lower_of(s.get_char(i));
        if lowered != pat.get_char(i) {
            assert(ascii_lower_seq(s@)[i as int] != pat@[i as int]);
            return false;
        }
        i += 1;
    }
    proof {
        assert(ascii_lower_seq(s@) =~= "running"@);
    }
    true
}

/// The scan behind [`distro_state_spec`]: before the header line (one
/// starting with `NAME`) has passed, lines are skipped; after it, the
/// first line whose name column equals the target decides the state, a
/// leading `*` marking the default distribution.
pub open spec fn distro_state_rec(
    lines: Seq<Seq<char>>,
    target: Seq<char>,
    header_seen: bool,
) -> Seq<char>
    decreases lines.len(),
{
    if lines.len() == 0 {
        "Unknown"@
    } else {
        let line = lines[0];
        if !header_seen {
            distro_state_rec(lines.drop_first(), target, has_prefix(line, "NAME"@))
        } else {
            let toks = split_wsp(line);
            if toks.len() < 3 {
                distro_state_rec(lines.drop_first(), target, header_seen)
            } else {
                let starred = toks.len() >= 4 && toks[0] == "*"@;
                let name = if starred {
                    toks[1]
                } else {
                    toks[0]
                };
                let state = if starred {
                    toks[2]
                } else {
                    toks[1]
                };
                if name == target {
                    if ascii_lower_seq(state) == "running"@ {
                        "Running"@
                    } else {
                        "Stopped"@
                    }
                } else {
                    distro_state_rec(lines.drop_first(), target, header_seen)
                }
            }
        }
    }
}

/// The state a `--list --verbose` listing reports for `target`:
/// `Running`, `Stopped`, or `Unknown` when the listing does not name it.
pub open spec fn distro_state_spec(stdout: Seq<u8>, target: Seq<char>) -> Seq<char> {
    distro_state_rec(clean_lines(decode_wsl_spec(stdout), true), target, false)
}

/// Interpret a verbose listing invocation: the running state of `distro`.
///
/// A failed invocation, or a listing that does not name the distribution,
/// reports `Unknown`; otherwise the state column decides between `Running`
/// and `Stopped`.
pub fn get_wsl_distro_state(distro: &str, listing: &ShellOutcome) -> (r: String)
    ensures
        !listing.success ==> r@ == "Unknown"@,
        listing.success ==> r@ == distro_state_spec(listing.stdout@, distro@),
{
    proof {
        reveal_strlit("Unknown");
        reveal_strlit("Running");
        reveal_strlit("Stopped");
        reveal_strlit("NAME");
        reveal_strlit("*");
    }
    if !listing.success {
        return "Unknown".to_owned();
    }
    let decoded = decode_wsl_output(listing.stdout.as_slice());
    let lines = clean_lines_vec(decoded.as_str(), true);
    let n = lines.len();
    let mut header_seen = false;
    let mut i: usize = 0;
    proof {
        assert(lines.deep_view().skip(0) =~= lines.deep_view());
    }
    while i < n
        invariant
            listing.success,
            n == lines@.len(),
            i <= n,
            distro_state_spec(listing.stdout@, distro@) == distro_state_rec(
                lines.deep_view().skip(i as int),
                distro@,
                header_seen,
            ),
        decreases n - i,
    {
        proof {
            let t = lines.deep_view().skip(i as int);
            assert(t[0] == lines.deep_view()[i as int]);
            assert(t.drop_first() =~= lines.deep_view().skip(i + 1));
        }
        let line = &lines[i];
        if !header_seen {
            header_seen = starts_with(line.as_str(), "NAME");
        } else {
            let toks = crate::text::split_wsp_vec(line.as_str());
            if toks.len() >= 3 {
                let starred = toks.len() >= 4 && eq_str(toks[0].as_str(), "*");
                let name: &String = if starred {
                    &toks[1]
                } else {
                    &toks[0]
                };
                let state: &String = if starred {
                    &toks[2]
                } else {
                    &toks[1]
                };
                if eq_str(name.as_str(), distro) {
                    if is_running_token(state.as_str()) {
                        return "Running".to_owned();
                    } else {
                        return "Stopped".to_owned();
                    }
                }
            }
        }
        i += 1;
    }
    proof {
        assert(lines.deep_view().skip(n as int) =~= Seq::<Seq<char>>::empty());
    }
    "Unknown".to_owned()
}

} // verus!

verus! {

/// The request reading a file through the bridge: `cat` when it exists, an
/// empty line otherwise.
pub fn read_wsl_file_raw(distro: &str, wsl_path: &str) -> (r: WslRequest)
    ensures
        r.distro@ == distro@,
        r.command@ == shell::read_file_cmd_spec(crate::paths::tilde_to_home_seq(wsl_path@)),
{
    let target = crate::paths::tilde_to_home(wsl_path);
    WslRequest { distro: distro.to_owned(), command: shell::read_file_cmd(target.as_str()) }
}

/// The error text when the bridge does not know the distribution.
pub open spec fn distro_not_found_text(distro: Seq<char>) -> Seq<char> {
    "WSL distro '"@ + distro + "' not found"@
}

/// The error text of a failed bridge invocation.
pub open spec fn wsl_failed_text(stderr: Seq<u8>) -> Seq<char> {
    "WSL command failed: "@ + trim_seq(decode_wsl_spec(stderr))
}

/// Interpret the raw read: the file's bytes decoded leniently on success;
/// on failure, an unknown distribution is reported as such, anything else
/// with the invocation's trimmed diagnostic output.
pub fn read_wsl_file_raw_result(distro: &str, outcome: &ShellOutcome) -> (r: Result<
    String,
    CoreError,
>)
    ensures
        outcome.success ==> (r matches Ok(c) && c@ == crate::encoding::utf8_lossy_of(
            outcome.stdout@,
        )),
        !outcome.success ==> ({
            let err = decode_wsl_spec(outcome.stderr@);
            if contains_seq(err, "WSL_E_DISTRO_NOT_FOUND"@) || contains_seq(err, "not found"@) {
                (r matches Err(e) && e is Connection && e.text() == distro_not_found_text(distro@))
            } else {
                (r matches Err(e) && e is RemoteExec && e.text() == wsl_failed_text(
                    outcome.stderr@,
                ))
            }
        }),
{
    if outcome.success {
        return Ok(crate::encoding::from_utf8_lossy(outcome.stdout.as_slice()));
    }
    let err = decode_wsl_output(outcome.stderr.as_slice());
    proof {
        reveal_strlit("WSL_E_DISTRO_NOT_FOUND");
        reveal_strlit("not found");
        reveal_strlit("WSL distro '");
        reveal_strlit("' not found");
        reveal_strlit("WSL command failed: ");
    }
    if contains_str(err.as_str(), "WSL_E_DISTRO_NOT_FOUND") || contains_str(
        err.as_str(),
        "not found",
    ) {
        let mut m = String::new();
        m.append("WSL distro '");
        m.append(distro);
        m.append("' not found");
        proof {
            assert(m@ =~= distro_not_found_text(distro@));
        }
        Err(CoreError::Connection(m))
    } else {
        let mut m = String::new();
        m.append("WSL command failed: ");
        let t = trim(err.as_str());
        m.append(t);
        proof {
            assert(m@ =~= wsl_failed_text(outcome.stderr@));
        }
        Err(CoreError::RemoteExec(m))
    }
}

/// What reading validated text through the bridge asks for next.
pub enum WslTextStep {
    /// The read is over with this result.
    Done(Result<String, CoreError>),
    /// The content failed validation: run this transcoding invocation and
    /// hand its outcome to [`read_wsl_file_converted`].
    Convert(WslRequest),
}

/// Interpret the raw read of a text file read through the bridge.
///
/// Valid UTF-8 text is returned as is; content bearing the marks of a
/// non-UTF-8 or binary file triggers exactly one GBK-to-UTF-8 transcoding
/// attempt inside the distribution.
pub fn read_wsl_file(distro: &str, wsl_path: &str, raw: Result<String, CoreError>) -> (r:
    WslTextStep)
    ensures
        match raw {
            Err(e) => (r matches WslTextStep::Done(Err(e2)) && e2 == e),
            Ok(content) => if crate::encoding::encoding_ok(content@) {
                (r matches WslTextStep::Done(Ok(c)) && c == content)
            } else {
                (r matches WslTextStep::Convert(q) && q.distro@ == distro@ && q.command@
                    == shell::iconv_cmd_spec(crate::paths::tilde_to_home_seq(wsl_path@)))
            },
        },
{
    match raw {
        Err(e) => WslTextStep::Done(Err(e)),
        Ok(content) => {
            if crate::encoding::check_file_encoding(content.as_str(), wsl_path).is_ok() {
                WslTextStep::Done(Ok(content))
            } else {
                let target = crate::paths::tilde_to_home(wsl_path);
                WslTextStep::Convert(
                    WslRequest {
                        distro: distro.to_owned(),
                        command: shell::iconv_cmd(target.as_str()),
                    },
                )
            }
        },
    }
}

/// The error text when the transcoding attempt could not run or its result
/// still failed validation.
pub open spec fn wsl_convert_failed_text(p: Seq<char>) -> Seq<char> {
    "File "@ + p
        + " is not UTF-8 encoded and automatic conversion failed; convert it manually and retry.\nFix: "@
        + crate::encoding::iconv_fix_command(p)
}

/// Interpret the transcoding invocation: text that now validates is
/// returned; anything else is an encoding error naming the manual fix
/// command.
pub fn read_wsl_file_converted(wsl_path: &str, outcome: &ShellOutcome) -> (r: Result<
    String,
    CoreError,
>)
    ensures
        outcome.success && crate::encoding::encoding_ok(
            crate::encoding::utf8_lossy_of(outcome.stdout@),
        ) ==> (r matches Ok(c) && c@ == crate::encoding::utf8_lossy_of(outcome.stdout@)),
        !(outcome.success && crate::encoding::encoding_ok(
            crate::encoding::utf8_lossy_of(outcome.stdout@),
        )) ==> (r matches Err(e) && e is Encoding && e.text() == wsl_convert_failed_text(
            wsl_path@,
        )),
{
    if outcome.success {
        let converted = crate::encoding::from_utf8_lossy(outcome.stdout.as_slice());
        if crate::encoding::check_file_encoding(converted.as_str(), wsl_path).is_ok() {
            return Ok(converted);
        }
    }
    proof {
        reveal_strlit("File ");
        reveal_strlit(
            " is not UTF-8 encoded and automatic conversion failed; convert it manually and retry.\nFix: ",
        );
    }
    let mut m = String::new();
    m.append("File ");
    m.append(wsl_path);
    m.append(
        " is not UTF-8 encoded and automatic conversion failed; convert it manually and retry.\nFix: ",
    );
    let fix = crate::encoding::build_iconv_fix_command(wsl_path);
    m.append(fix.as_str());
    proof {
        assert(m@ =~= wsl_convert_failed_text(wsl_path@));
    }
    Err(CoreError::Encoding(m))
}

/// The request writing `content` to a file through the bridge: the parent
/// chain is created and the bytes are fed to `cat` on standard input.
pub fn write_wsl_file(distro: &str, wsl_path: &str, content: &str) -> (r: WslStdinRequest)
    ensures
        r.distro@ == distro@,
        r.command@ == shell::write_stdin_cmd_spec(crate::paths::tilde_to_home_seq(wsl_path@)),
        r.stdin@ == vstd::utf8::encode_utf8(content@),
{
    let target = crate::paths::tilde_to_home(wsl_path);
    WslStdinRequest {
        distro: distro.to_owned(),
        command: shell::write_stdin_cmd(target.as_str()),
        stdin: content.as_bytes_vec(),
    }
}

/// Interpret the write invocation.
pub fn write_wsl_file_result(outcome: &ShellOutcome) -> (r: Result<(), CoreError>)
    ensures
        outcome.success ==> r is Ok,
        !outcome.success ==> (r matches Err(e) && e is RemoteExec && e.text()
            == "WSL write command failed"@),
{
    if outcome.success {
        Ok(())
    } else {
        proof {
            reveal_strlit("WSL write command failed");
        }
        Err(CoreError::RemoteExec("WSL write command failed".to_owned()))
    }
}

/// The request replacing whatever stands at `link_path` with a symlink to
/// `target`, through the bridge.
pub fn create_wsl_symlink(distro: &str, target: &str, link_path: &str) -> (r: WslRequest)
    ensures
        r.distro@ == distro@,
        r.command@ == shell::symlink_cmd_spec(
            crate::paths::tilde_to_home_seq(target@),
            crate::paths::tilde_to_home_seq(link_path@),
        ),
{
    let t = crate::paths::tilde_to_home(target);
    let l = crate::paths::tilde_to_home(link_path);
    WslRequest {
        distro: distro.to_owned(),
        command: shell::symlink_cmd(t.as_str(), l.as_str()),
    }
}

/// The error text of a failed symlink invocation.
pub open spec fn wsl_symlink_failed_text(stderr: Seq<u8>) -> Seq<char> {
    "WSL symlink failed: "@ + trim_seq(decode_wsl_spec(stderr))
}

/// Interpret the symlink invocation.
pub fn create_wsl_symlink_result(outcome: &ShellOutcome) -> (r: Result<(), CoreError>)
    ensures
        outcome.success ==> r is Ok,
        !outcome.success ==> (r matches Err(e) && e is RemoteExec && e.text()
            == wsl_symlink_failed_text(outcome.stderr@)),
{
    if outcome.success {
        Ok(())
    } else {
        proof {
            reveal_strlit("WSL symlink failed: ");
        }
        let err = decode_wsl_output(outcome.stderr.as_slice());
        let mut m = String::new();
        m.append("WSL symlink failed: ");
        m.append(trim(err.as_str()));
        proof {
            assert(m@ =~= wsl_symlink_failed_text(outcome.stderr@));
        }
        Err(CoreError::RemoteExec(m))
    }
}

/// The request removing a file or tree through the bridge — refused
/// outright, with no invocation made, when the path is empty, `/`, `~` or
/// `$HOME`.
pub fn remove_wsl_path(distro: &str, wsl_path: &str) -> (r: Result<WslRequest, CoreError>)
    ensures
        shell::dangerous_remote_path(wsl_path@) ==> (r matches Err(e) && e is Safety && e.text()
            == crate::sync::dangerous_path_text(wsl_path@)),
        !shell::dangerous_remote_path(wsl_path@) ==> (r matches Ok(q) && q.distro@ == distro@
            && q.command@ == shell::remove_cmd_spec(crate::paths::tilde_to_home_seq(wsl_path@))),
{
    if shell::is_dangerous_remote_path(wsl_path) {
        return Err(crate::sync::dangerous_path_error(wsl_path));
    }
    let target = crate::paths::tilde_to_home(wsl_path);
    Ok(WslRequest { distro: distro.to_owned(), command: shell::remove_cmd(target.as_str()) })
}

/// The error text of a failed remove invocation.
pub open spec fn wsl_remove_failed_text(stderr: Seq<u8>) -> Seq<char> {
    "WSL remove failed: "@ + trim_seq(decode_wsl_spec(stderr))
}

/// Interpret the remove invocation.
pub fn remove_wsl_path_result(outcome: &ShellOutcome) -> (r: Result<(), CoreError>)
    ensures
        outcome.success ==> r is Ok,
        !outcome.success ==> (r matches Err(e) && e is RemoteExec && e.text()
            == wsl_remove_failed_text(outcome.stderr@)),
{
    if outcome.success {
        Ok(())
    } else {
        proof {
            reveal_strlit("WSL remove failed: ");
        }
        let err = decode_wsl_output(outcome.stderr.as_slice());
        let mut m = String::new();
        m.append("WSL remove failed: ");
        m.append(trim(err.as_str()));
        proof {
            assert(m@ =~= wsl_remove_failed_text(outcome.stderr@));
        }
        Err(CoreError::RemoteExec(m))
    }
}

/// The request listing the entries of a directory through the bridge, one
/// per line.
pub fn list_wsl_dir(distro: &str, wsl_path: &str) -> (r: WslRequest)
    ensures
        r.distro@ == distro@,
        r.command@ == shell::list_dir_cmd_spec(crate::paths::tilde_to_home_seq(wsl_path@)),
{
    let target = crate::paths::tilde_to_home(wsl_path);
    WslRequest { distro: distro.to_owned(), command: shell::list_dir_cmd(target.as_str()) }
}

/// Interpret the listing: the decoded output's non-empty lines, in order.
pub fn list_wsl_dir_result(outcome: &ShellOutcome) -> (r: Vec<String>)
    ensures
        r.deep_view() == clean_lines(decode_wsl_spec(outcome.stdout@), false),
{
    let decoded = decode_wsl_output(outcome.stdout.as_slice());
    clean_lines_vec(decoded.as_str(), false)
}

/// The request testing whether `link_path` is a symlink pointing at
/// `expected_target`, through the bridge.
pub fn check_wsl_symlink_exists(distro: &str, link_path: &str, expected_target: &str) -> (r:
    WslRequest)
    ensures
        r.distro@ == distro@,
        r.command@ == shell::check_symlink_cmd_spec(
            crate::paths::tilde_to_home_seq(link_path@),
            crate::paths::tilde_to_home_seq(expected_target@),
        ),
{
    let l = crate::paths::tilde_to_home(link_path);
    let t = crate::paths::tilde_to_home(expected_target);
    WslRequest {
        distro: distro.to_owned(),
        command: shell::check_symlink_cmd(l.as_str(), t.as_str()),
    }
}

/// Interpret the symlink test: it holds exactly when the invocation ran
/// and printed `yes`.
pub fn check_wsl_symlink_exists_result(outcome: Option<&ShellOutcome>) -> (r: bool)
    ensures
        r == (outcome matches Some(o) && trim_seq(decode_wsl_spec(o.stdout@)) == "yes"@),
{
    proof {
        reveal_strlit("yes");
    }
    match outcome {
        Some(o) => {
            let decoded = decode_wsl_output(o.stdout.as_slice());
            eq_str(trim(decoded.as_str()), "yes")
        },
        None => false,
    }
}

} // verus!

verus! {

/// The one-invocation migration of the legacy `skill` (singular) directory
/// to `skills`: rename when only the old exists, drop the old when both
/// do, touch nothing otherwise — printing which of the three happened.
pub open spec fn migrate_skill_dir_cmd_spec() -> Seq<char> {
    "old=\"$HOME/.config/opencode/skill\"; new=\"$HOME/.config/opencode/skills\"; if [ -d \"$old\" ]; then if [ ! -d \"$new\" ]; then mv \"$old\" \"$new\" && echo renamed; else rm -rf \"$old\" && echo removed; fi; else echo skip; fi"@
}

/// What the migration invocation did.
pub enum MigrateOutcome {
    /// The legacy directory was renamed into place.
    Renamed,
    /// The legacy directory was dropped because the new one already stood.
    Removed,
    /// There was nothing to migrate, or the invocation failed.
    Skipped,
}

/// The request migrating the legacy singular skills directory of the
/// `opencode` tool inside `distro`.
pub fn migrate_opencode_skill_dir(distro: &str) -> (r: WslRequest)
    ensures
        r.distro@ == distro@,
        r.command@ == migrate_skill_dir_cmd_spec(),
{
    proof {
        reveal_strlit(
            "old=\"$HOME/.config/opencode/skill\"; new=\"$HOME/.config/opencode/skills\"; if [ -d \"$old\" ]; then if [ ! -d \"$new\" ]; then mv \"$old\" \"$new\" && echo renamed; else rm -rf \"$old\" && echo removed; fi; else echo skip; fi",
        );
    }
    WslRequest {
        distro: distro.to_owned(),
        command:
            "old=\"$HOME/.config/opencode/skill\"; new=\"$HOME/.config/opencode/skills\"; if [ -d \"$old\" ]; then if [ ! -d \"$new\" ]; then mv \"$old\" \"$new\" && echo renamed; else rm -rf \"$old\" && echo removed; fi; else echo skip; fi".to_owned(),
    }
}

/// Interpret the migration invocation by what it printed.
pub fn migrate_opencode_skill_dir_result(outcome: &ShellOutcome) -> (r: MigrateOutcome)
    ensures
        ({
            let printed = trim_seq(crate::encoding::utf8_lossy_of(outcome.stdout@));
            if printed == "renamed"@ {
                r is Renamed
            } else if printed == "removed"@ {
                r is Removed
            } else {
                r is Skipped
            }
        }),
{
    proof {
        reveal_strlit("renamed");
        reveal_strlit("removed");
    }
    let decoded = crate::encoding::from_utf8_lossy(outcome.stdout.as_slice());
    let t = trim(decoded.as_str());
    if eq_str(t, "renamed") {
        MigrateOutcome::Renamed
    } else if eq_str(t, "removed") {
        MigrateOutcome::Removed
    } else {
        MigrateOutcome::Skipped
    }
}

} // verus!
