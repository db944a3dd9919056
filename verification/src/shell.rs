//! The command language spoken to the remote POSIX shell.
//!
//! Every high-level operation of the engine compiles to one of these command
//! strings; a POSIX-compatible shell on the remote side is a hard
//! requirement.  Each builder's contract pins the exact command text, so the
//! engines above can reason about what will run remotely.

use vstd::prelude::*;
use vstd::string::*;
use crate::text::{eq_str, trim, trim_seq};

verus! {

/// A remote path on which `rm -rf` or a directory replacement must never
/// run: empty, the filesystem root, or a home-directory alias.
pub open spec fn dangerous_remote_path(s: Seq<char>) -> bool {
    let t = trim_seq(s);
    t.len() == 0 || t == "/"@ || t == "~"@ || t == "$HOME"@
}

/// Is this remote path one the engine refuses to remove or replace?
pub fn is_dangerous_remote_path(path: &str) -> (r: bool)
    ensures
        r == dangerous_remote_path(path@),
{
    proof {
        reveal_strlit("/");
        reveal_strlit("~");
        reveal_strlit("$HOME");
    }
    let t = trim(path);
    t.unicode_len() == 0 || eq_str(t, "/") || eq_str(t, "~") || eq_str(t, "$HOME")
}

/// `mkdir -p "$(dirname "<target>")"`: create the parent directory chain of
/// `target`.
pub open spec fn mkdir_parent_cmd_spec(target: Seq<char>) -> Seq<char> {
    "mkdir -p \"$(dirname \""@ + target + "\")\""@
}

/// The shell command creating the parent directories of `target`.
pub fn mkdir_parent_cmd(target: &str) -> (r: String)
    ensures
        r@ == mkdir_parent_cmd_spec(target@),
{
    proof {
        reveal_strlit("mkdir -p \"$(dirname \"");
        reveal_strlit("\")\"");
    }
    let mut r = String::new();
    r.append("mkdir -p \"$(dirname \"");
    r.append(target);
    r.append("\")\"");
    proof {
        assert(r@ =~= mkdir_parent_cmd_spec(target@));
    }
    r
}

/// `mkdir -p "<dir>"`: create the directory chain of `dir` itself.
pub open spec fn mkdir_dir_cmd_spec(dir: Seq<char>) -> Seq<char> {
    "mkdir -p \""@ + dir + "\""@
}

/// The shell command creating the directory `dir`.
pub fn mkdir_dir_cmd(dir: &str) -> (r: String)
    ensures
        r@ == mkdir_dir_cmd_spec(dir@),
{
    proof {
        reveal_strlit("mkdir -p \"");
        reveal_strlit("\"");
    }
    let mut r = String::new();
    r.append("mkdir -p \"");
    r.append(dir);
    r.append("\"");
    proof {
        assert(r@ =~= mkdir_dir_cmd_spec(dir@));
    }
    r
}

/// `rm -rf "<target>" && mv "<tmp>" "<target>"`: drop the old tree and move
/// the freshly uploaded one into place, in a single remote invocation.
pub open spec fn swap_cmd_spec(target: Seq<char>, tmp: Seq<char>) -> Seq<char> {
    "rm -rf \""@ + target + "\" && mv \""@ + tmp + "\" \""@ + target + "\""@
}

/// The shell command swapping the uploaded temporary tree into place.
pub fn swap_cmd(target: &str, tmp: &str) -> (r: String)
    ensures
        r@ == swap_cmd_spec(target@, tmp@),
{
    proof {
        reveal_strlit("rm -rf \"");
        reveal_strlit("\" && mv \"");
        reveal_strlit("\" \"");
        reveal_strlit("\"");
    }
    let mut r = String::new();
    r.append("rm -rf \"");
    r.append(target);
    r.append("\" && mv \"");
    r.append(tmp);
    r.append("\" \"");
    r.append(target);
    r.append("\"");
    proof {
        assert(r@ =~= swap_cmd_spec(target@, tmp@));
    }
    r
}

/// `rm -rf "<path>"`: remove a file or tree.
pub open spec fn remove_cmd_spec(path: Seq<char>) -> Seq<char> {
    "rm -rf \""@ + path + "\""@
}

/// The shell command removing `path`.
pub fn remove_cmd(path: &str) -> (r: String)
    ensures
        r@ == remove_cmd_spec(path@),
{
    proof {
        reveal_strlit("rm -rf \"");
        reveal_strlit("\"");
    }
    let mut r = String::new();
    r.append("rm -rf \"");
    r.append(path);
    r.append("\"");
    proof {
        assert(r@ =~= remove_cmd_spec(path@));
    }
    r
}

/// `if [ -f "<p>" ]; then cat "<p>"; else echo ''; fi`: print the file if it
/// exists, an empty line otherwise.
pub open spec fn read_file_cmd_spec(p: Seq<char>) -> Seq<char> {
    "if [ -f \""@ + p + "\" ]; then cat \""@ + p + "\"; else echo ''; fi"@
}

/// The shell command printing the contents of `p`, or nothing if absent.
pub fn read_file_cmd(p: &str) -> (r: String)
    ensures
        r@ == read_file_cmd_spec(p@),
{
    proof {
        reveal_strlit("if [ -f \"");
        reveal_strlit("\" ]; then cat \"");
        reveal_strlit("\"; else echo ''; fi");
    }
    let mut r = String::new();
    r.append("if [ -f \"");
    r.append(p);
    r.append("\" ]; then cat \"");
    r.append(p);
    r.append("\"; else echo ''; fi");
    proof {
        assert(r@ =~= read_file_cmd_spec(p@));
    }
    r
}

/// `iconv -f GBK -t UTF-8 "<p>" 2>/dev/null`: the one automatic
/// legacy-encoding repair attempt.
pub open spec fn iconv_cmd_spec(p: Seq<char>) -> Seq<char> {
    "iconv -f GBK -t UTF-8 \""@ + p + "\" 2>/dev/null"@
}

/// The shell command transcoding `p` from GBK to UTF-8 on the remote side.
pub fn iconv_cmd(p: &str) -> (r: String)
    ensures
        r@ == iconv_cmd_spec(p@),
{
    proof {
        reveal_strlit("iconv -f GBK -t UTF-8 \"");
        reveal_strlit("\" 2>/dev/null");
    }
    let mut r = String::new();
    r.append("iconv -f GBK -t UTF-8 \"");
    r.append(p);
    r.append("\" 2>/dev/null");
    proof {
        assert(r@ =~= iconv_cmd_spec(p@));
    }
    r
}

/// `mkdir -p "$(dirname "<p>")" && cat > "<p>"`: create the parent chain,
/// then write standard input to the file.
pub open spec fn write_stdin_cmd_spec(p: Seq<char>) -> Seq<char> {
    "mkdir -p \"$(dirname \""@ + p + "\")\" && cat > \""@ + p + "\""@
}

/// The shell command writing standard input to `p`.
pub fn write_stdin_cmd(p: &str) -> (r: String)
    ensures
        r@ == write_stdin_cmd_spec(p@),
{
    proof {
        reveal_strlit("mkdir -p \"$(dirname \"");
        reveal_strlit("\")\" && cat > \"");
        reveal_strlit("\"");
    }
    let mut r = String::new();
    r.append("mkdir -p \"$(dirname \"");
    r.append(p);
    r.append("\")\" && cat > \"");
    r.append(p);
    r.append("\"");
    proof {
        assert(r@ =~= write_stdin_cmd_spec(p@));
    }
    r
}

/// `mkdir -p "$(dirname "<link>")" && rm -rf "<link>" && ln -s "<target>"
/// "<link>"`: replace whatever stands at `link` with a symlink to `target`.
pub open spec fn symlink_cmd_spec(target: Seq<char>, link: Seq<char>) -> Seq<char> {
    "mkdir -p \"$(dirname \""@ + link + "\")\" && rm -rf \""@ + link + "\" && ln -s \""@ + target
        + "\" \""@ + link + "\""@
}

/// The shell command creating a symlink `link` pointing at `target`.
pub fn symlink_cmd(target: &str, link: &str) -> (r: String)
    ensures
        r@ == symlink_cmd_spec(target@, link@),
{
    proof {
        reveal_strlit("mkdir -p \"$(dirname \"");
        reveal_strlit("\")\" && rm -rf \"");
        reveal_strlit("\" && ln -s \"");
        reveal_strlit("\" \"");
        reveal_strlit("\"");
    }
    let mut r = String::new();
    r.append("mkdir -p \"$(dirname \"");
    r.append(link);
    r.append("\")\" && rm -rf \"");
    r.append(link);
    r.append("\" && ln -s \"");
    r.append(target);
    r.append("\" \"");
    r.append(link);
    r.append("\"");
    proof {
        assert(r@ =~= symlink_cmd_spec(target@, link@));
    }
    r
}

/// `if [ -d "<p>" ]; then ls -1 "<p>"; fi`: one entry per line if the
/// directory exists, nothing otherwise.
pub open spec fn list_dir_cmd_spec(p: Seq<char>) -> Seq<char> {
    "if [ -d \""@ + p + "\" ]; then ls -1 \""@ + p + "\"; fi"@
}

/// The shell command listing the entries of directory `p`.
pub fn list_dir_cmd(p: &str) -> (r: String)
    ensures
        r@ == list_dir_cmd_spec(p@),
{
    proof {
        reveal_strlit("if [ -d \"");
        reveal_strlit("\" ]; then ls -1 \"");
        reveal_strlit("\"; fi");
    }
    let mut r = String::new();
    r.append("if [ -d \"");
    r.append(p);
    r.append("\" ]; then ls -1 \"");
    r.append(p);
    r.append("\"; fi");
    proof {
        assert(r@ =~= list_dir_cmd_spec(p@));
    }
    r
}

/// `[ -L "<l>" ] && [ "$(readlink "<l>")" = "<t>" ] && echo yes || echo no`:
/// prints `yes` exactly when `l` is a symlink pointing at `t`.
pub open spec fn check_symlink_cmd_spec(link: Seq<char>, target: Seq<char>) -> Seq<char> {
    "[ -L \""@ + link + "\" ] && [ \"$(readlink \""@ + link + "\")\" = \""@ + target
        + "\" ] && echo yes || echo no"@
}

/// The shell command testing whether `link` is a symlink to `target`.
pub fn check_symlink_cmd(link: &str, target: &str) -> (r: String)
    ensures
        r@ == check_symlink_cmd_spec(link@, target@),
{
    proof {
        reveal_strlit("[ -L \"");
        reveal_strlit("\" ] && [ \"$(readlink \"");
        reveal_strlit("\")\" = \"");
        reveal_strlit("\" ] && echo yes || echo no");
    }
    let mut r = String::new();
    r.append("[ -L \"");
    r.append(link);
    r.append("\" ] && [ \"$(readlink \"");
    r.append(link);
    r.append("\")\" = \"");
    r.append(target);
    r.append("\" ] && echo yes || echo no");
    proof {
        assert(r@ =~= check_symlink_cmd_spec(link@, target@));
    }
    r
}

/// `if [ -e "<p>" ]; then echo exists; else echo notfound; fi`: probe a path
/// through the shell bridge.
pub open spec fn exists_check_cmd_spec(p: Seq<char>) -> Seq<char> {
    "if [ -e \""@ + p + "\" ]; then echo exists; else echo notfound; fi"@
}

/// The shell command probing whether `p` exists.
pub fn exists_check_cmd(p: &str) -> (r: String)
    ensures
        r@ == exists_check_cmd_spec(p@),
{
    proof {
        reveal_strlit("if [ -e \"");
        reveal_strlit("\" ]; then echo exists; else echo notfound; fi");
    }
    let mut r = String::new();
    r.append("if [ -e \"");
    r.append(p);
    r.append("\" ]; then echo exists; else echo notfound; fi");
    proof {
        assert(r@ =~= exists_check_cmd_spec(p@));
    }
    r
}

/// `cp -rL "<src>" "<dst>"`: copy a tree, following symlinks, through the
/// shell bridge.
pub open spec fn copy_tree_cmd_spec(src: Seq<char>, dst: Seq<char>) -> Seq<char> {
    "cp -rL \""@ + src + "\" \""@ + dst + "\""@
}

/// The shell command copying the tree at `src` to `dst`, following symlinks.
pub fn copy_tree_cmd(src: &str, dst: &str) -> (r: String)
    ensures
        r@ == copy_tree_cmd_spec(src@, dst@),
{
    proof {
        reveal_strlit("cp -rL \"");
        reveal_strlit("\" \"");
        reveal_strlit("\"");
    }
    let mut r = String::new();
    r.append("cp -rL \"");
    r.append(src);
    r.append("\" \"");
    r.append(dst);
    r.append("\"");
    proof {
        assert(r@ =~= copy_tree_cmd_spec(src@, dst@));
    }
    r
}

/// `mkdir -p "$(dirname "<dst>")" && cp -f "<src>" "<dst>"`: copy one file
/// into place through the shell bridge.
pub open spec fn copy_file_cmd_spec(src: Seq<char>, dst: Seq<char>) -> Seq<char> {
    "mkdir -p \"$(dirname \""@ + dst + "\")\" && cp -f \""@ + src + "\" \""@ + dst + "\""@
}

/// The shell command copying the file `src` to `dst`.
pub fn copy_file_cmd(src: &str, dst: &str) -> (r: String)
    ensures
        r@ == copy_file_cmd_spec(src@, dst@),
{
    proof {
        reveal_strlit("mkdir -p \"$(dirname \"");
        reveal_strlit("\")\" && cp -f \"");
        reveal_strlit("\" \"");
        reveal_strlit("\"");
    }
    let mut r = String::new();
    r.append("mkdir -p \"$(dirname \"");
    r.append(dst);
    r.append("\")\" && cp -f \"");
    r.append(src);
    r.append("\" \"");
    r.append(dst);
    r.append("\"");
    proof {
        assert(r@ =~= copy_file_cmd_spec(src@, dst@));
    }
    r
}

} // verus!
