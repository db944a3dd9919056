//! Path expansion and translation.
//!
//! Local paths may carry `~`, `$VAR` and `%VAR%` aliases; remote paths are
//! POSIX-style and may carry `~` and `$HOME`.  The values of the local
//! environment are read by the caller once and handed in as an [`EnvVars`]
//! snapshot, so every function here is a pure, verified map from strings to
//! strings.

use vstd::prelude::*;
use vstd::string::*;
use crate::text::{
    eq_str, has_prefix, replace_first_seq, replace_first_str, replace_seq, replace_str,
    starts_with,
};

verus! {

/// A snapshot of the local environment variables used in path aliases.
///
/// `home` is the value of `$HOME`, falling back to `%USERPROFILE%` when
/// `HOME` is unset; `home_dir` is the platform home directory (as the `dirs`
/// crate reports it), used for a leading `~`.
pub struct EnvVars {
    pub home_dir: Option<String>,
    pub userprofile: Option<String>,
    pub appdata: Option<String>,
    pub localappdata: Option<String>,
    pub home: Option<String>,
}

/// `s` with every `%name%` and `$name` occurrence replaced by `val`, when a
/// value is present.
pub open spec fn expand_one_var(
    s: Seq<char>,
    name: Seq<char>,
    val: Option<Seq<char>>,
) -> Seq<char> {
    match val {
        Some(v) => {
            let after_pct = replace_seq(s, seq!['%'] + name + seq!['%'], v);
            replace_seq(after_pct, seq!['$'] + name, v)
        },
        None => s,
    }
}

/// The view of an optional string.
pub open spec fn opt_view(v: Option<String>) -> Option<Seq<char>> {
    match v {
        Some(s) => Some(s@),
        None => None,
    }
}

/// `s` with `%USERPROFILE%`/`$USERPROFILE`, `%APPDATA%`/`$APPDATA`,
/// `%LOCALAPPDATA%`/`$LOCALAPPDATA` and `%HOME%`/`$HOME` expanded, in that
/// order.
pub open spec fn expand_vars_seq(s: Seq<char>, env: EnvVars) -> Seq<char> {
    let s1 = expand_one_var(s, "USERPROFILE"@, opt_view(env.userprofile));
    let s2 = expand_one_var(s1, "APPDATA"@, opt_view(env.appdata));
    let s3 = expand_one_var(s2, "LOCALAPPDATA"@, opt_view(env.localappdata));
    expand_one_var(s3, "HOME"@, opt_view(env.home))
}

/// A leading `~` expanded to the platform home directory, when the path
/// starts with `~/` or is exactly `~` and the home directory is known.
pub open spec fn expand_tilde_seq(s: Seq<char>, home_dir: Option<Seq<char>>) -> Seq<char> {
    if (has_prefix(s, "~/"@) || s == "~"@) && home_dir is Some {
        replace_first_seq(s, "~"@, home_dir->0)
    } else {
        s
    }
}

/// The full local alias expansion: `~` first, then the environment
/// variables.
pub open spec fn expand_local_seq(s: Seq<char>, env: EnvVars) -> Seq<char> {
    expand_vars_seq(expand_tilde_seq(s, opt_view(env.home_dir)), env)
}

/// `s` with `%name%` and `$name` replaced by `val` when present.
fn expand_one_var_str(s: &str, pct_name: &str, dollar_name: &str, val: &Option<String>) -> (r:
    String)
    requires
        pct_name@.len() > 0,
        dollar_name@.len() > 0,
    ensures
        r@ == match *val {
            Some(ref v) => replace_seq(replace_seq(s@, pct_name@, v@), dollar_name@, v@),
            None => s@,
        },
{
    match val {
        Some(v) => {
            let after_pct = replace_str(s, pct_name, v.as_str());
            replace_str(after_pct.as_str(), dollar_name, v.as_str())
        },
        None => s.to_owned(),
    }
}

/// Expand the common environment-variable aliases in a local path.
///
/// Both Windows (`%VAR%`) and Unix (`$VAR`) spellings are recognised, for
/// `USERPROFILE`, `APPDATA`, `LOCALAPPDATA` and `HOME`.
pub fn expand_env_vars(path: &str, env: &EnvVars) -> (r: Result<String, String>)
    ensures
        r is Ok,
        r->Ok_0@ == expand_vars_seq(path@, *env),
{
    proof {
        reveal_strlit("%USERPROFILE%");
        reveal_strlit("$USERPROFILE");
        reveal_strlit("USERPROFILE");
        reveal_strlit("%APPDATA%");
        reveal_strlit("$APPDATA");
        reveal_strlit("APPDATA");
        reveal_strlit("%LOCALAPPDATA%");
        reveal_strlit("$LOCALAPPDATA");
        reveal_strlit("LOCALAPPDATA");
        reveal_strlit("%HOME%");
        reveal_strlit("$HOME");
        reveal_strlit("HOME");
        assert("%USERPROFILE%"@ =~= seq!['%'] + "USERPROFILE"@ + seq!['%']);
        assert("$USERPROFILE"@ =~= seq!['$'] + "USERPROFILE"@);
        assert("%APPDATA%"@ =~= seq!['%'] + "APPDATA"@ + seq!['%']);
        assert("$APPDATA"@ =~= seq!['$'] + "APPDATA"@);
        assert("%LOCALAPPDATA%"@ =~= seq!['%'] + "LOCALAPPDATA"@ + seq!['%']);
        assert("$LOCALAPPDATA"@ =~= seq!['$'] + "LOCALAPPDATA"@);
        assert("%HOME%"@ =~= seq!['%'] + "HOME"@ + seq!['%']);
        assert("$HOME"@ =~= seq!['$'] + "HOME"@);
    }
    let s1 = expand_one_var_str(path, "%USERPROFILE%", "$USERPROFILE", &env.userprofile);
    let s2 = expand_one_var_str(s1.as_str(), "%APPDATA%", "$APPDATA", &env.appdata);
    let s3 = expand_one_var_str(s2.as_str(), "%LOCALAPPDATA%", "$LOCALAPPDATA", &env.localappdata);
    let s4 = expand_one_var_str(s3.as_str(), "%HOME%", "$HOME", &env.home);
    Ok(s4)
}

/// The expanded form of a local path.  [`expand_local_path`] cannot fail,
/// so this returns the expansion directly.
pub fn expanded_local_path(path: &str, env: &EnvVars) -> (r: String)
    ensures
        r@ == expand_local_seq(path@, *env),
{
    match expand_local_path(path, env) {
        Ok(s) => s,
        Err(s) => {
            proof {
                // expansion always succeeds; this branch cannot be reached
                assert(false);
            }
            s
        },
    }
}

/// Expand a local path: a leading `~`, then `%VAR%` and `$VAR` aliases.
pub fn expand_local_path(path: &str, env: &EnvVars) -> (r: Result<String, String>)
    ensures
        r is Ok,
        r->Ok_0@ == expand_local_seq(path@, *env),
{
    proof {
        reveal_strlit("~/");
        reveal_strlit("~");
    }
    let tilded: String = if starts_with(path, "~/") || eq_str(path, "~") {
        match &env.home_dir {
            Some(h) => replace_first_str(path, "~", h.as_str()),
            None => path.to_owned(),
        }
    } else {
        path.to_owned()
    };
    expand_env_vars(tilded.as_str(), env)
}

} // verus!

verus! {

/// The lower-case form of an ASCII letter; any other character unchanged.
pub open spec fn ascii_lower_char(c: char) -> char {
    if c == 'A' { 'a' } else if c == 'B' { 'b' } else if c == 'C' { 'c' }
    else if c == 'D' { 'd' } else if c == 'E' { 'e' } else if c == 'F' { 'f' }
    else if c == 'G' { 'g' } else if c == 'H' { 'h' } else if c == 'I' { 'i' }
    else if c == 'J' { 'j' } else if c == 'K' { 'k' } else if c == 'L' { 'l' }
    else if c == 'M' { 'm' } else if c == 'N' { 'n' } else if c == 'O' { 'o' }
    else if c == 'P' { 'p' } else if c == 'Q' { 'q' } else if c == 'R' { 'r' }
    else if c == 'S' { 's' } else if c == 'T' { 't' } else if c == 'U' { 'u' }
    else if c == 'V' { 'v' } else if c == 'W' { 'w' } else if c == 'X' { 'x' }
    else if c == 'Y' { 'y' } else if c == 'Z' { 'z' } else { c }
}

/// The one-character string holding the lower-case form of the first
/// character of `w`.
fn lower_first_str(w: &str) -> (r: String)
    requires
        w@.len() >= 1,
    ensures
        r@ =~= seq![ascii_lower_char(w@[0])],
{
    proof {
        reveal_strlit("a"); reveal_strlit("b"); reveal_strlit("c"); reveal_strlit("d");
        reveal_strlit("e"); reveal_strlit("f"); reveal_strlit("g"); reveal_strlit("h");
        reveal_strlit("i"); reveal_strlit("j"); reveal_strlit("k"); reveal_strlit("l");
        reveal_strlit("m"); reveal_strlit("n"); reveal_strlit("o"); reveal_strlit("p");
        reveal_strlit("q"); reveal_strlit("r"); reveal_strlit("s"); reveal_strlit("t");
        reveal_strlit("u"); reveal_strlit("v"); reveal_strlit("w"); reveal_strlit("x");
        reveal_strlit("y"); reveal_strlit("z");
    }
    let c = w.get_char(0);
    let lit: &str = if c == 'A' { "a" } else if c == 'B' { "b" } else if c == 'C' { "c" }
    else if c == 'D' { "d" } else if c == 'E' { "e" } else if c == 'F' { "f" }
    else if c == 'G' { "g" } else if c == 'H' { "h" } else if c == 'I' { "i" }
    else if c == 'J' { "j" } else if c == 'K' { "k" } else if c == 'L' { "l" }
    else if c == 'M' { "m" } else if c == 'N' { "n" } else if c == 'O' { "o" }
    else if c == 'P' { "p" } else if c == 'Q' { "q" } else if c == 'R' { "r" }
    else if c == 'S' { "s" } else if c == 'T' { "t" } else if c == 'U' { "u" }
    else if c == 'V' { "v" } else if c == 'W' { "w" } else if c == 'X' { "x" }
    else if c == 'Y' { "y" } else if c == 'Z' { "z" } else {
        let piece = w.substring_char(0, 1);
        proof {
            assert(w@.subrange(0, 1) =~= seq![w@[0]]);
        }
        return piece.to_owned();
    };
    lit.to_owned()
}

/// A local Windows path translated into the WSL mount convention:
/// environment aliases expanded, backslashes turned into slashes, and a
/// drive-letter prefix `X:` turned into `/mnt/x`.
pub open spec fn windows_to_wsl_seq(s: Seq<char>, env: EnvVars) -> Seq<char> {
    let e = expand_vars_seq(s, env);
    let w = replace_seq(e, seq!['\\'], seq!['/']);
    if w.len() >= 2 && w[1] == ':' {
        "/mnt/"@ + seq![ascii_lower_char(w[0])] + w.skip(2)
    } else {
        w
    }
}

/// Translate a local Windows path to its WSL mount-convention form.
pub fn windows_to_wsl_path(windows_path: &str, env: &EnvVars) -> (r: Result<String, String>)
    ensures
        r is Ok,
        r->Ok_0@ == windows_to_wsl_seq(windows_path@, *env),
{
    let expanded = match expand_env_vars(windows_path, env) {
        Ok(e) => e,
        Err(e) => {
            return Err(e);
        },
    };
    proof {
        reveal_strlit("\\");
        reveal_strlit("/");
        assert("\\"@ =~= seq!['\\']);
        assert("/"@ =~= seq!['/']);
    }
    let w = replace_str(expanded.as_str(), "\\", "/");
    let wlen = w.as_str().unicode_len();
    if wlen >= 2 && w.as_str().get_char(1) == ':' {
        proof {
            reveal_strlit("/mnt/");
        }
        let mut r = String::new();
        r.append("/mnt/");
        let low = lower_first_str(w.as_str());
        r.append(low.as_str());
        let rest = w.as_str().substring_char(2, wlen);
        r.append(rest);
        proof {
            assert(w@.subrange(2, wlen as int) =~= w@.skip(2));
            assert(Seq::<char>::empty() + "/mnt/"@ + seq![ascii_lower_char(w@[0])] + w@.skip(2)
                =~= "/mnt/"@ + seq![ascii_lower_char(w@[0])] + w@.skip(2));
        }
        Ok(r)
    } else {
        Ok(w)
    }
}

/// The parent of a POSIX-style path: trailing slashes dropped, then the part
/// before the last slash; `/` when the last slash is leading; nothing when
/// the path has no slash at all.
pub open spec fn parent_path_seq(s: Seq<char>) -> Option<Seq<char>> {
    let t = crate::text::trim_end_ch(s, '/');
    match crate::text::rlast_index(t, '/') {
        Some(p) => if p == 0 {
            Some("/"@)
        } else {
            Some(t.take(p))
        },
        None => None,
    }
}

/// The parent directory of a remote path, if it has one.
pub fn parent_path(path: &str) -> (r: Option<String>)
    ensures
        match r {
            Some(p) => parent_path_seq(path@) == Some(p@),
            None => parent_path_seq(path@) is None,
        },
{
    let trimmed = crate::text::trim_end_matches_char(path, '/');
    proof {
        crate::text::lemma_rlast_index(trimmed@, '/');
    }
    match crate::text::rfind_char(trimmed, '/') {
        Some(pos) => {
            proof {
                // both characterisations pin the same index
                match crate::text::rlast_index(trimmed@, '/') {
                    Some(i) => {
                        if i < pos {
                        } else if i > pos {
                        }
                        assert(i == pos);
                    },
                    None => {
                        assert(trimmed@.contains(trimmed@[pos as int]));
                    },
                }
            }
            if pos == 0 {
                proof {
                    reveal_strlit("/");
                }
                Some("/".to_owned())
            } else {
                let r = trimmed.substring_char(0, pos);
                proof {
                    assert(trimmed@.subrange(0, pos as int) =~= trimmed@.take(pos as int));
                }
                Some(r.to_owned())
            }
        },
        None => {
            proof {
                match crate::text::rlast_index(trimmed@, '/') {
                    Some(i) => {
                        assert(trimmed@.contains('/')) by {
                            assert(trimmed@[i] == '/');
                        }
                    },
                    None => {},
                }
            }
            None
        },
    }
}

} // verus!

verus! {

/// Every `~` in a remote path rewritten to `$HOME`, the spelling the remote
/// shell expands.
pub open spec fn tilde_to_home_seq(s: Seq<char>) -> Seq<char> {
    replace_seq(s, "~"@, "$HOME"@)
}

/// Rewrite `~` to `$HOME` in a remote path handed to the remote shell.
pub fn tilde_to_home(path: &str) -> (r: String)
    ensures
        r@ == tilde_to_home_seq(path@),
{
    proof {
        reveal_strlit("~");
        reveal_strlit("$HOME");
    }
    replace_str(path, "~", "$HOME")
}

/// Does this remote path refer to the remote home directory by alias?  The
/// file-transfer subprotocol expands neither `~` nor shell variables, so
/// such a path must be resolved against the canonicalized home first.
pub open spec fn needs_home_spec(s: Seq<char>) -> bool {
    has_prefix(s, "~/"@) || s == "~"@ || crate::text::contains_seq(s, "$HOME"@)
}

/// Does the remote path need the canonicalized remote home to resolve?
pub fn remote_path_needs_home(path: &str) -> (r: bool)
    ensures
        r == needs_home_spec(path@),
{
    proof {
        reveal_strlit("~/");
        reveal_strlit("~");
        reveal_strlit("$HOME");
    }
    starts_with(path, "~/") || eq_str(path, "~") || crate::text::contains_str(path, "$HOME")
}

/// A remote path with its home aliases resolved against `home`: the first
/// `~` replaced once, then every `$HOME`.
pub open spec fn resolve_remote_seq(s: Seq<char>, home: Seq<char>) -> Seq<char> {
    if needs_home_spec(s) {
        replace_seq(replace_first_seq(s, "~"@, home), "$HOME"@, home)
    } else {
        s
    }
}

/// Resolve `~` and `$HOME` in a remote path against the canonicalized remote
/// home directory `home`.
pub fn resolve_remote_path(path: &str, home: &str) -> (r: String)
    ensures
        r@ == resolve_remote_seq(path@, home@),
{
    proof {
        reveal_strlit("~/");
        reveal_strlit("~");
        reveal_strlit("$HOME");
    }
    if remote_path_needs_home(path) {
        let once = replace_first_str(path, "~", home);
        replace_str(once.as_str(), "$HOME", home)
    } else {
        path.to_owned()
    }
}

/// The scan behind [`mkdir_prefixes`]: `seg` is the segment being read,
/// `cur` the prefix built so far, `out` the prefixes already produced.
pub open spec fn mkdir_prefixes_rec(
    s: Seq<char>,
    i: int,
    seg: Seq<char>,
    cur: Seq<char>,
    out: Seq<Seq<char>>,
) -> Seq<Seq<char>>
    decreases s.len() - i,
{
    if i < 0 || i >= s.len() {
        if seg.len() > 0 {
            out.push(cur + seq!['/'] + seg)
        } else {
            out
        }
    } else if s[i] == '/' {
        if seg.len() > 0 {
            mkdir_prefixes_rec(s, i + 1, Seq::empty(), cur + seq!['/'] + seg, out.push(
                cur + seq!['/'] + seg,
            ))
        } else {
            mkdir_prefixes_rec(s, i + 1, Seq::empty(), cur, out)
        }
    } else {
        mkdir_prefixes_rec(s, i + 1, seg.push(s[i]), cur, out)
    }
}

/// The cumulative directory prefixes of a slash-separated absolute path:
/// for `/a/b/c` they are `/a`, `/a/b`, `/a/b/c`.  Creating them in order is
/// what `mkdir -p` does, one directory at a time.
pub open spec fn mkdir_prefixes(s: Seq<char>) -> Seq<Seq<char>> {
    mkdir_prefixes_rec(s, 0, Seq::empty(), Seq::empty(), Seq::empty())
}

/// The cumulative directory prefixes of `path`, shallowest first.
pub fn mkdir_p_prefixes(path: &str) -> (r: Vec<String>)
    ensures
        r.deep_view() == mkdir_prefixes(path@),
{
    let slen = path.unicode_len();
    let mut out: Vec<String> = Vec::new();
    let mut cur = String::new();
    let mut start: usize = 0;
    let mut i: usize = 0;
    proof {
        assert(path@.subrange(0, 0) =~= Seq::<char>::empty());
        assert(out.deep_view() =~= Seq::<Seq<char>>::empty());
    }
    while i < slen
        invariant
            slen == path@.len(),
            start <= i <= slen,
            mkdir_prefixes(path@) == mkdir_prefixes_rec(
                path@,
                i as int,
                path@.subrange(start as int, i as int),
                cur@,
                out.deep_view(),
            ),
        decreases slen - i,
    {
        let c = path.get_char(i);
        if c == '/' {
            if i > start {
                let seg = path.substring_char(start, i);
                let ghost pre_cur = cur@;
                let ghost pre_out = out.deep_view();
                proof {
                    reveal_strlit("/");
                }
                cur.append("/");
                cur.append(seg);
                out.push(cur.clone());
                proof {
                    assert(cur@ =~= pre_cur + seq!['/'] + path@.subrange(
                        start as int,
                        i as int,
                    ));
                    assert(out.deep_view() =~= pre_out.push(cur@));
                }
            }
            start = i + 1;
            proof {
                assert(path@.subrange(start as int, i + 1) =~= Seq::<char>::empty());
            }
        } else {
            proof {
                assert(path@.subrange(start as int, i + 1) =~= path@.subrange(
                    start as int,
                    i as int,
                ).push(path@[i as int]));
            }
        }
        i += 1;
    }
    if slen > start {
        let seg = path.substring_char(start, slen);
        let ghost pre_cur = cur@;
        let ghost pre_out = out.deep_view();
        proof {
            reveal_strlit("/");
        }
        cur.append("/");
        cur.append(seg);
        out.push(cur.clone());
        proof {
            assert(cur@ =~= pre_cur + seq!['/'] + path@.subrange(start as int, slen as int));
            assert(out.deep_view() =~= pre_out.push(cur@));
        }
    }
    out
}

/// The local home directory, if the platform reports one.
///
/// Relies on `dirs::home_dir`; the result depends on the machine and
/// environment, so nothing is promised of it.
#[verifier::external_body]
pub fn local_home_dir() -> Option<String> {
    dirs::home_dir().map(|p| p.to_string_lossy().to_string())
}

} // verus!

verus! {

/// The lower-case form of one character, for ASCII letters.
pub fn ascii_lower_of(c: char) -> (r: char)
    ensures
        r == ascii_lower_char(c),
{
    if c == 'A' { 'a' } else if c == 'B' { 'b' } else if c == 'C' { 'c' }
    else if c == 'D' { 'd' } else if c == 'E' { 'e' } else if c == 'F' { 'f' }
    else if c == 'G' { 'g' } else if c == 'H' { 'h' } else if c == 'I' { 'i' }
    else if c == 'J' { 'j' } else if c == 'K' { 'k' } else if c == 'L' { 'l' }
    else if c == 'M' { 'm' } else if c == 'N' { 'n' } else if c == 'O' { 'o' }
    else if c == 'P' { 'p' } else if c == 'Q' { 'q' } else if c == 'R' { 'r' }
    else if c == 'S' { 's' } else if c == 'T' { 't' } else if c == 'U' { 'u' }
    else if c == 'V' { 'v' } else if c == 'W' { 'w' } else if c == 'X' { 'x' }
    else if c == 'Y' { 'y' } else if c == 'Z' { 'z' } else { c }
}

} // verus!
