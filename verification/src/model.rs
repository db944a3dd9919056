//! The abstract remote filesystem and what the engine's requests do to it.
//!
//! A faithful runner turns each [`crate::sync::RemoteOp`] into one remote
//! mutation.  This module gives those mutations a semantics over an
//! abstract filesystem — a map from paths to what stands there — and
//! proves the engine's central guarantees over it: a directory sync is
//! atomic to any observer of the target path, repeating it with unchanged
//! content changes nothing, and written text reads back unchanged.

use vstd::prelude::*;
use crate::text::dec_seq;
use crate::paths::tilde_to_home_seq;

verus! {

/// What stands at one path of the model filesystem.
pub enum Node {
    /// A directory tree, identified by the local content it mirrors.
    Tree(int),
    /// A file with text content.
    File(Seq<char>),
}

/// The model filesystem: what stands at each existing path.
pub type Fs = Map<Seq<char>, Node>;

/// One remote mutation, as a faithful runner performs it.
pub enum OpModel {
    /// `mkdir -p` of a parent chain: creates intermediate directories and
    /// never disturbs what stands at a sync target.
    MkdirParent(Seq<char>),
    /// A recursive upload of local content `content` to `path`.
    PutTree { path: Seq<char>, content: int },
    /// The atomic replacement: one invocation that drops `target` and
    /// renames `tmp` into its place.
    Swap { target: Seq<char>, tmp: Seq<char> },
    /// `rm -rf` of a path.
    Remove(Seq<char>),
    /// A text file written whole.
    PutFile { path: Seq<char>, text: Seq<char> },
}

/// The effect of one mutation on the filesystem.
pub open spec fn apply(fs: Fs, op: OpModel) -> Fs {
    match op {
        OpModel::MkdirParent(_) => fs,
        OpModel::PutTree { path, content } => fs.insert(path, Node::Tree(content)),
        OpModel::Swap { target, tmp } => if fs.dom().contains(tmp) {
            fs.remove(tmp).insert(target, fs[tmp])
        } else {
            fs.remove(target)
        },
        OpModel::Remove(p) => fs.remove(p),
        OpModel::PutFile { path, text } => fs.insert(path, Node::File(text)),
    }
}

/// The effect of a sequence of mutations, applied in order.
pub open spec fn apply_all(fs: Fs, ops: Seq<OpModel>) -> Fs
    decreases ops.len(),
{
    if ops.len() == 0 {
        fs
    } else {
        apply(apply_all(fs, ops.drop_last()), ops.last())
    }
}

/// What a concurrent observer of `path` sees.
pub open spec fn observe(fs: Fs, path: Seq<char>) -> Option<Node> {
    if fs.dom().contains(path) {
        Some(fs[path])
    } else {
        None
    }
}

/// The mutations a directory sync performs, in order: parent creation,
/// upload of the tree to the temporary path, and the swap into place.
pub open spec fn dir_sync_ops(target: Seq<char>, tmp: Seq<char>, content: int) -> Seq<OpModel> {
    seq![
        OpModel::MkdirParent(target),
        OpModel::PutTree { path: tmp, content },
        OpModel::Swap { target, tmp },
    ]
}

/// A decimal representation is never empty.
pub proof fn lemma_dec_seq_nonempty(n: int)
    ensures
        dec_seq(n).len() >= 1,
    decreases n,
{
    if n >= 10 {
        lemma_dec_seq_nonempty(n / 10);
    }
}

/// The temporary path of a directory sync differs from its target: the
/// timestamp suffix makes it strictly longer.
pub proof fn lemma_tmp_path_distinct(remote_path: Seq<char>, timestamp: u64)
    ensures
        tilde_to_home_seq(remote_path) + ".tmp_"@ + dec_seq(timestamp as int) != tilde_to_home_seq(
            remote_path,
        ),
{
    lemma_dec_seq_nonempty(timestamp as int);
    reveal_strlit(".tmp_");
    let t = tilde_to_home_seq(remote_path);
    let tmp = t + ".tmp_"@ + dec_seq(timestamp as int);
    assert(tmp.len() > t.len());
}

proof fn lemma_apply_seq3(fs: Fs, a: OpModel, b: OpModel, c: OpModel)
    ensures
        apply_all(fs, seq![a, b, c].take(0)) == fs,
        apply_all(fs, seq![a, b, c].take(1)) == apply(fs, a),
        apply_all(fs, seq![a, b, c].take(2)) == apply(apply(fs, a), b),
        apply_all(fs, seq![a, b, c].take(3)) == apply(apply(apply(fs, a), b), c),
        apply_all(fs, seq![a, b, c]) == apply(apply(apply(fs, a), b), c),
{
    let s = seq![a, b, c];
    assert(s.take(0) =~= Seq::<OpModel>::empty());
    assert(apply_all(fs, s.take(0)) == fs);
    assert(s.take(1).drop_last() =~= s.take(0));
    assert(s.take(1).last() == a);
    assert(apply_all(fs, s.take(1)) == apply(apply_all(fs, s.take(1).drop_last()), a));
    assert(s.take(2).drop_last() =~= s.take(1));
    assert(s.take(2).last() == b);
    assert(apply_all(fs, s.take(2)) == apply(apply_all(fs, s.take(2).drop_last()), b));
    assert(s.take(3) =~= s);
    assert(s.drop_last() =~= s.take(2));
    assert(s.last() == c);
    assert(apply_all(fs, s) == apply(apply_all(fs, s.drop_last()), c));
}

/// Atomicity of the directory sync: after any prefix of its mutations, an
/// observer of the target path sees either exactly what stood there before
/// or exactly the fully uploaded new tree — never a mixture — and after
/// the last it sees the new tree.
pub proof fn lemma_directory_sync_atomic(
    fs: Fs,
    target: Seq<char>,
    tmp: Seq<char>,
    content: int,
    i: int,
)
    requires
        tmp != target,
        0 <= i <= 3,
    ensures
        i < 3 ==> observe(apply_all(fs, dir_sync_ops(target, tmp, content).take(i)), target)
            == observe(fs, target),
        i == 3 ==> observe(
            apply_all(fs, dir_sync_ops(target, tmp, content).take(i)),
            target,
        ) == Some(Node::Tree(content)),
{
    let a = OpModel::MkdirParent(target);
    let b = OpModel::PutTree { path: tmp, content };
    let c = OpModel::Swap { target, tmp };
    lemma_apply_seq3(fs, a, b, c);
    if i == 2 {
        let mid = apply_all(fs, dir_sync_ops(target, tmp, content).take(2));
        assert(mid == fs.insert(tmp, Node::Tree(content)));
        assert(observe(mid, target) == observe(fs, target));
    } else if i == 3 {
        let mid2 = apply(apply(fs, a), b);
        assert(mid2 == fs.insert(tmp, Node::Tree(content)));
        assert(mid2.dom().contains(tmp));
        let done = apply_all(fs, dir_sync_ops(target, tmp, content).take(3));
        assert(done == mid2.remove(tmp).insert(target, mid2[tmp]));
        assert(observe(done, target) == Some(Node::Tree(content)));
    }
}

/// Idempotence of the directory sync: running it again with unchanged
/// local content, through a fresh temporary path, leaves the remote
/// filesystem exactly as the first run left it.
pub proof fn lemma_directory_sync_idempotent(
    fs: Fs,
    target: Seq<char>,
    tmp1: Seq<char>,
    tmp2: Seq<char>,
    content: int,
)
    requires
        tmp1 != target,
        tmp2 != target,
        !fs.dom().contains(tmp1),
        !fs.dom().contains(tmp2),
    ensures
        ({
            let fs1 = apply_all(fs, dir_sync_ops(target, tmp1, content));
            let fs2 = apply_all(fs1, dir_sync_ops(target, tmp2, content));
            fs2 == fs1
        }),
{
    let a1 = OpModel::MkdirParent(target);
    let b1 = OpModel::PutTree { path: tmp1, content };
    let c1 = OpModel::Swap { target, tmp: tmp1 };
    lemma_apply_seq3(fs, a1, b1, c1);
    let fs1 = apply_all(fs, dir_sync_ops(target, tmp1, content));
    let up1 = fs.insert(tmp1, Node::Tree(content));
    assert(up1.dom().contains(tmp1));
    assert(fs1 == up1.remove(tmp1).insert(target, up1[tmp1]));
    assert(fs1 =~= fs.insert(target, Node::Tree(content)));
    let a2 = OpModel::MkdirParent(target);
    let b2 = OpModel::PutTree { path: tmp2, content };
    let c2 = OpModel::Swap { target, tmp: tmp2 };
    lemma_apply_seq3(fs1, a2, b2, c2);
    let fs2 = apply_all(fs1, dir_sync_ops(target, tmp2, content));
    let up2 = fs1.insert(tmp2, Node::Tree(content));
    assert(up2.dom().contains(tmp2));
    assert(fs2 == up2.remove(tmp2).insert(target, up2[tmp2]));
    assert(!fs1.dom().contains(tmp2));
    assert(fs1.dom().contains(target) && fs1[target] == Node::Tree(content));
    assert(fs2 =~= fs1);
}

/// Idempotence at the target path, with no assumption at all: however the
/// filesystem stood, a repeated directory sync with unchanged local content
/// leaves the target exactly as the first run left it.  (The previous lemma
/// extends this to the whole filesystem, given the fresh temporary paths
/// that the unique timestamp suffix provides.)
pub proof fn lemma_directory_sync_idempotent_at_target(
    fs: Fs,
    target: Seq<char>,
    tmp1: Seq<char>,
    tmp2: Seq<char>,
    content: int,
)
    requires
        tmp1 != target,
        tmp2 != target,
    ensures
        ({
            let fs1 = apply_all(fs, dir_sync_ops(target, tmp1, content));
            let fs2 = apply_all(fs1, dir_sync_ops(target, tmp2, content));
            observe(fs2, target) == observe(fs1, target) && observe(fs1, target) == Some(
                Node::Tree(content),
            )
        }),
{
    lemma_directory_sync_atomic(fs, target, tmp1, content, 3);
    let fs1 = apply_all(fs, dir_sync_ops(target, tmp1, content));
    assert(dir_sync_ops(target, tmp1, content).take(3) =~= dir_sync_ops(target, tmp1, content));
    lemma_directory_sync_atomic(fs1, target, tmp2, content, 3);
    assert(dir_sync_ops(target, tmp2, content).take(3) =~= dir_sync_ops(target, tmp2, content));
}

/// The written-text round trip, filesystem leg: after writing `s` at
/// `path`, an observer of `path` reads exactly `s`.
pub proof fn lemma_write_read_round_trip(fs: Fs, path: Seq<char>, s: Seq<char>)
    ensures
        observe(apply(fs, OpModel::PutFile { path, text: s }), path) == Some(Node::File(s)),
{
}

/// The written-text round trip, encoding leg: the engine sends a text as
/// its UTF-8 bytes, and the lenient decode of those bytes — which is how
/// command output comes back — is the text itself.
pub proof fn lemma_utf8_round_trip(s: Seq<char>)
    ensures
        vstd::utf8::valid_utf8(vstd::utf8::encode_utf8(s)),
        vstd::utf8::decode_utf8(vstd::utf8::encode_utf8(s)) == s,
{
    broadcast use vstd::utf8::encode_utf8_valid_utf8;
    broadcast use vstd::utf8::encode_utf8_decode_utf8;

}

} // verus!

verus! {

/// Atomicity, stated for the paths the directory-sync machine actually
/// uses: its temporary path is the `~`-rewritten target with the timestamp
/// suffix, so any observer of the target sees the old tree or the new one.
pub proof fn lemma_machine_dir_sync_atomic(
    fs: Fs,
    remote_path: Seq<char>,
    timestamp: u64,
    content: int,
    i: int,
)
    requires
        0 <= i <= 3,
    ensures
        ({
            let target = tilde_to_home_seq(remote_path);
            let tmp = target + ".tmp_"@ + dec_seq(timestamp as int);
            let mid = apply_all(fs, dir_sync_ops(target, tmp, content).take(i));
            // an observer sees the whole old tree until the swap, the whole
            // new tree from the swap on — never a mixture
            ||| i < 3 && observe(mid, target) == observe(fs, target)
            ||| i == 3 && observe(mid, target) == Some(Node::Tree(content))
        }),
{
    let target = tilde_to_home_seq(remote_path);
    let tmp = target + ".tmp_"@ + dec_seq(timestamp as int);
    lemma_tmp_path_distinct(remote_path, timestamp);
    lemma_directory_sync_atomic(fs, target, tmp, content, i);
}

} // verus!

verus! {

/// The full written-text round trip: writing text `s` at `path` leaves
/// exactly `s` there for an observer, and the UTF-8 bytes the engine sends
/// decode back to `s`.  With the validated-read contract — content that
/// passes the encoding guard is returned unchanged — a write followed by a
/// read yields `s` for any text the guard accepts.
pub proof fn lemma_text_round_trip(fs: Fs, path: Seq<char>, s: Seq<char>)
    requires
        crate::encoding::encoding_ok(s),
    ensures
        observe(apply(fs, OpModel::PutFile { path, text: s }), path) == Some(Node::File(s)),
        vstd::utf8::decode_utf8(vstd::utf8::encode_utf8(s)) == s,
{
    lemma_write_read_round_trip(fs, path, s);
    lemma_utf8_round_trip(s);
}

} // verus!
