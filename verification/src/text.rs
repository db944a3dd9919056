//! Verified text utilities.
//!
//! Every string operation the engine needs (prefix tests, substring search,
//! replacement, trimming, line splitting, decimal formatting) is implemented
//! and verified here, over the `Seq<char>` view of `&str` and `String`.

use vstd::prelude::*;
use vstd::string::*;

verus! {

/// A character with the Unicode `White_Space` property, the set `str::trim`
/// and `char::is_whitespace` use.
pub open spec fn is_wsp(c: char) -> bool {
    c == ' ' || c == '\t' || c == '\n' || c == '\r' || c == '\u{0B}' || c == '\u{0C}'
        || c == '\u{85}' || c == '\u{A0}' || c == '\u{1680}'
        || ('\u{2000}' <= c && c <= '\u{200A}')
        || c == '\u{2028}' || c == '\u{2029}' || c == '\u{202F}' || c == '\u{205F}'
        || c == '\u{3000}'
}

/// Executable test for [`is_wsp`].
pub fn is_wsp_char(c: char) -> (r: bool)
    ensures
        r == is_wsp(c),
{
    c == ' ' || c == '\t' || c == '\n' || c == '\r' || c == '\u{0B}' || c == '\u{0C}'
        || c == '\u{85}' || c == '\u{A0}' || c == '\u{1680}'
        || ('\u{2000}' <= c && c <= '\u{200A}')
        || c == '\u{2028}' || c == '\u{2029}' || c == '\u{202F}' || c == '\u{205F}'
        || c == '\u{3000}'
}

/// `p` is a prefix of `s`.
pub open spec fn has_prefix(s: Seq<char>, p: Seq<char>) -> bool {
    p.len() <= s.len() && s.subrange(0, p.len() as int) == p
}

/// `p` occurs in `s` starting at index `i`.
pub open spec fn occurs_at(s: Seq<char>, p: Seq<char>, i: int) -> bool {
    0 <= i && i + p.len() <= s.len() && s.subrange(i, i + p.len()) == p
}

/// `p` occurs somewhere in `s`.
pub open spec fn contains_seq(s: Seq<char>, p: Seq<char>) -> bool {
    exists|i: int| occurs_at(s, p, i)
}

/// Character equality over two whole strings.
pub fn eq_str(a: &str, b: &str) -> (r: bool)
    ensures
        r == (a@ == b@),
{
    let alen = a.unicode_len();
    let blen = b.unicode_len();
    if alen != blen {
        assert(a@ != b@);
        return false;
    }
    let mut i: usize = 0;
    while i < alen
        invariant
            alen == a@.len(),
            alen == b@.len(),
            i <= alen,
            forall|j: int| 0 <= j < i ==> a@[j] == b@[j],
        decreases alen - i,
    {
        if a.get_char(i) != b.get_char(i) {
            return false;
        }
        i += 1;
    }
    assert(a@ =~= b@);
    true
}

/// Does `s` start with `p`?
pub fn starts_with(s: &str, p: &str) -> (r: bool)
    ensures
        r == has_prefix(s@, p@),
{
    let slen = s.unicode_len();
    let plen = p.unicode_len();
    if plen > slen {
        return false;
    }
    let mut i: usize = 0;
    while i < plen
        invariant
            slen == s@.len(),
            plen == p@.len(),
            plen <= slen,
            i <= plen,
            forall|j: int| 0 <= j < i ==> s@[j] == p@[j],
        decreases plen - i,
    {
        if s.get_char(i) != p.get_char(i) {
            assert(s@.subrange(0, p@.len() as int) != p@);
            return false;
        }
        i += 1;
    }
    assert(s@.subrange(0, p@.len() as int) =~= p@);
    true
}

/// Does `p` occur at position `i` of `s`?
fn matches_at(s: &str, p: &str, i: usize) -> (r: bool)
    requires
        i + p@.len() <= s@.len(),
    ensures
        r == occurs_at(s@, p@, i as int),
{
    let slen = s.unicode_len();
    let plen = p.unicode_len();
    let mut j: usize = 0;
    while j < plen
        invariant
            slen == s@.len(),
            plen == p@.len(),
            i + plen <= slen,
            j <= plen,
            forall|k: int| 0 <= k < j ==> s@[i + k] == p@[k],
        decreases plen - j,
    {
        if s.get_char(i + j) != p.get_char(j) {
            assert(s@.subrange(i as int, i + p@.len()) != p@);
            return false;
        }
        j += 1;
    }
    assert(s@.subrange(i as int, i + p@.len()) =~= p@);
    true
}

/// Does `p` occur anywhere in `s`?
pub fn contains_str(s: &str, p: &str) -> (r: bool)
    ensures
        r == contains_seq(s@, p@),
{
    let slen = s.unicode_len();
    let plen = p.unicode_len();
    if plen > slen {
        assert(forall|i: int| !occurs_at(s@, p@, i));
        return false;
    }
    let bound = slen - plen;
    let mut i: usize = 0;
    loop
        invariant
            slen == s@.len(),
            plen == p@.len(),
            plen <= slen,
            bound == slen - plen,
            i <= bound + 1,
            forall|k: int| 0 <= k < i ==> !occurs_at(s@, p@, k),
        ensures
            forall|k: int| occurs_at(s@, p@, k) ==> false,
        decreases bound + 1 - i,
    {
        if i > bound {
            assert(forall|k: int| occurs_at(s@, p@, k) ==> 0 <= k <= bound);
            break;
        }
        if matches_at(s, p, i) {
            return true;
        }
        if i == bound {
            assert(forall|k: int| occurs_at(s@, p@, k) ==> 0 <= k <= bound);
            break;
        }
        i += 1;
    }
    false
}

/// Does `s` contain the character `c`?
pub fn contains_char(s: &str, c: char) -> (r: bool)
    ensures
        r == s@.contains(c),
{
    let slen = s.unicode_len();
    let mut i: usize = 0;
    while i < slen
        invariant
            slen == s@.len(),
            i <= slen,
            forall|j: int| 0 <= j < i ==> s@[j] != c,
        decreases slen - i,
    {
        if s.get_char(i) == c {
            return true;
        }
        i += 1;
    }
    false
}

/// Index of the first occurrence of `c` in `s`.
pub fn find_char(s: &str, c: char) -> (r: Option<usize>)
    ensures
        match r {
            Some(i) => i < s@.len() && s@[i as int] == c && forall|j: int|
                0 <= j < i ==> s@[j] != c,
            None => !s@.contains(c),
        },
{
    let slen = s.unicode_len();
    let mut i: usize = 0;
    while i < slen
        invariant
            slen == s@.len(),
            i <= slen,
            forall|j: int| 0 <= j < i ==> s@[j] != c,
        decreases slen - i,
    {
        if s.get_char(i) == c {
            return Some(i);
        }
        i += 1;
    }
    None
}

/// Index of the last occurrence of `c` in `s`.
pub fn rfind_char(s: &str, c: char) -> (r: Option<usize>)
    ensures
        match r {
            Some(i) => i < s@.len() && s@[i as int] == c && forall|j: int|
                i < j < s@.len() ==> s@[j] != c,
            None => !s@.contains(c),
        },
{
    let slen = s.unicode_len();
    let mut i: usize = slen;
    while i > 0
        invariant
            slen == s@.len(),
            i <= slen,
            forall|j: int| i <= j < slen ==> s@[j] != c,
        decreases i,
    {
        i -= 1;
        if s.get_char(i) == c {
            return Some(i);
        }
    }
    None
}

} // verus!

verus! {

/// `s` with leading white space removed.
pub open spec fn trim_start_seq(s: Seq<char>) -> Seq<char>
    decreases s.len(),
{
    if s.len() > 0 && is_wsp(s[0]) {
        trim_start_seq(s.drop_first())
    } else {
        s
    }
}

/// `s` with trailing white space removed.
pub open spec fn trim_end_seq(s: Seq<char>) -> Seq<char>
    decreases s.len(),
{
    if s.len() > 0 && is_wsp(s.last()) {
        trim_end_seq(s.drop_last())
    } else {
        s
    }
}

/// `s` with white space removed from both ends, as `str::trim` leaves it.
pub open spec fn trim_seq(s: Seq<char>) -> Seq<char> {
    trim_end_seq(trim_start_seq(s))
}

proof fn lemma_trim_start_skip(s: Seq<char>, a: int)
    requires
        0 <= a <= s.len(),
        forall|j: int| 0 <= j < a ==> is_wsp(s[j]),
        a == s.len() || !is_wsp(s[a]),
    ensures
        trim_start_seq(s) == s.skip(a),
    decreases a,
{
    if a == 0 {
        assert(s.skip(0) =~= s);
    } else {
        lemma_trim_start_skip(s.drop_first(), a - 1);
        assert(s.drop_first().skip(a - 1) =~= s.skip(a));
    }
}

proof fn lemma_trim_end_take(s: Seq<char>, b: int)
    requires
        0 <= b <= s.len(),
        forall|j: int| b <= j < s.len() ==> is_wsp(s[j]),
        b == 0 || !is_wsp(s[b - 1]),
    ensures
        trim_end_seq(s) == s.take(b),
    decreases s.len() - b,
{
    if b == s.len() {
        assert(s.take(b) =~= s);
    } else {
        lemma_trim_end_take(s.drop_last(), b);
        assert(s.drop_last().take(b) =~= s.take(b));
    }
}

/// White space trimmed from both ends of `s`.
pub fn trim<'a>(s: &'a str) -> (r: &'a str)
    ensures
        r@ == trim_seq(s@),
{
    let slen = s.unicode_len();
    let mut a: usize = 0;
    while a < slen && is_wsp_char(s.get_char(a))
        invariant
            slen == s@.len(),
            a <= slen,
            forall|j: int| 0 <= j < a ==> is_wsp(s@[j]),
        decreases slen - a,
    {
        a += 1;
    }
    proof {
        lemma_trim_start_skip(s@, a as int);
    }
    let mut b: usize = slen;
    while b > a && is_wsp_char(s.get_char(b - 1))
        invariant
            slen == s@.len(),
            a <= b <= slen,
            forall|j: int| b <= j < slen ==> is_wsp(s@[j]),
        decreases b,
    {
        b -= 1;
    }
    let r = s.substring_char(a, b);
    proof {
        let t = s@.skip(a as int);
        if b == a {
            // everything from `a` on is white space
            lemma_trim_end_take(t, 0);
        } else {
            lemma_trim_end_take(t, b - a);
        }
        assert(t.take(b - a) =~= s@.subrange(a as int, b as int));
    }
    r
}

/// Every occurrence of `p` in `s` replaced by `r`, scanning left to right
/// without overlap, as `str::replace` does; `s` itself if `p` is empty.
pub open spec fn replace_seq(s: Seq<char>, p: Seq<char>, r: Seq<char>) -> Seq<char>
    decreases s.len(),
{
    if p.len() == 0 || s.len() < p.len() {
        s
    } else if has_prefix(s, p) {
        r + replace_seq(s.skip(p.len() as int), p, r)
    } else {
        seq![s[0]] + replace_seq(s.drop_first(), p, r)
    }
}

/// `s` with the first occurrence of `p` (if any) replaced by `r`.
pub open spec fn replace_first_seq(s: Seq<char>, p: Seq<char>, r: Seq<char>) -> Seq<char>
    decreases s.len(),
{
    if p.len() == 0 || s.len() < p.len() {
        s
    } else if has_prefix(s, p) {
        r + s.skip(p.len() as int)
    } else {
        seq![s[0]] + replace_first_seq(s.drop_first(), p, r)
    }
}

/// Every occurrence of `p` in `s` replaced by `rep`.
pub fn replace_str(s: &str, p: &str, rep: &str) -> (r: String)
    requires
        p@.len() > 0,
    ensures
        r@ == replace_seq(s@, p@, rep@),
{
    let slen = s.unicode_len();
    let plen = p.unicode_len();
    let mut out = String::new();
    let mut i: usize = 0;
    proof {
        assert(s@.skip(0) =~= s@);
        assert(Seq::<char>::empty() + replace_seq(s@, p@, rep@) =~= replace_seq(s@, p@, rep@));
    }
    while i < slen
        invariant
            slen == s@.len(),
            plen == p@.len(),
            plen > 0,
            i <= slen,
            replace_seq(s@, p@, rep@) == out@ + replace_seq(s@.skip(i as int), p@, rep@),
        decreases slen - i,
    {
        if plen <= slen - i && matches_at(s, p, i) {
            out.append(rep);
            proof {
                assert(s@.skip(i as int).subrange(0, plen as int) =~= s@.subrange(
                    i as int,
                    i + plen,
                ));
                assert(s@.skip(i as int).skip(plen as int) =~= s@.skip(i + plen));
            }
            i += plen;
        } else {
            let piece = s.substring_char(i, i + 1);
            out.append(piece);
            proof {
                let t = s@.skip(i as int);
                assert(t[0] == s@[i as int]);
                assert(s@.subrange(i as int, i + 1) =~= seq![s@[i as int]]);
                assert(t.drop_first() =~= s@.skip(i + 1));
                if t.len() >= plen {
                    assert(t.subrange(0, plen as int) =~= s@.subrange(i as int, i + plen));
                } else {
                    assert(t =~= seq![s@[i as int]] + s@.skip(i + 1));
                    assert(s@.skip(i + 1).len() < plen);
                }
            }
            i += 1;
        }
    }
    proof {
        assert(s@.skip(slen as int) =~= Seq::<char>::empty());
    }
    out
}

/// The first occurrence of `p` in `s` (if any) replaced by `rep`.
pub fn replace_first_str(s: &str, p: &str, rep: &str) -> (r: String)
    requires
        p@.len() > 0,
    ensures
        r@ == replace_first_seq(s@, p@, rep@),
{
    let slen = s.unicode_len();
    let plen = p.unicode_len();
    let mut out = String::new();
    let mut i: usize = 0;
    proof {
        assert(s@.skip(0) =~= s@);
        assert(Seq::<char>::empty() + replace_first_seq(s@, p@, rep@) =~= replace_first_seq(
            s@,
            p@,
            rep@,
        ));
    }
    while i < slen
        invariant
            slen == s@.len(),
            plen == p@.len(),
            plen > 0,
            i <= slen,
            replace_first_seq(s@, p@, rep@) == out@ + replace_first_seq(
                s@.skip(i as int),
                p@,
                rep@,
            ),
        decreases slen - i,
    {
        if plen <= slen - i && matches_at(s, p, i) {
            out.append(rep);
            let rest = s.substring_char(i + plen, slen);
            out.append(rest);
            proof {
                assert(s@.skip(i as int).subrange(0, plen as int) =~= s@.subrange(
                    i as int,
                    i + plen,
                ));
                assert(s@.skip(i as int).skip(plen as int) =~= s@.subrange(
                    i + plen,
                    slen as int,
                ));
            }
            return out;
        } else {
            let piece = s.substring_char(i, i + 1);
            out.append(piece);
            proof {
                let t = s@.skip(i as int);
                assert(t[0] == s@[i as int]);
                assert(s@.subrange(i as int, i + 1) =~= seq![s@[i as int]]);
                assert(t.drop_first() =~= s@.skip(i + 1));
                if t.len() >= plen {
                    assert(t.subrange(0, plen as int) =~= s@.subrange(i as int, i + plen));
                } else {
                    assert(t =~= seq![s@[i as int]] + s@.skip(i + 1));
                    assert(s@.skip(i + 1).len() < plen);
                }
            }
            i += 1;
        }
    }
    proof {
        assert(s@.skip(slen as int) =~= Seq::<char>::empty());
    }
    out
}

} // verus!

verus! {

/// One trailing carriage return removed, as `str::lines` strips it.
pub open spec fn strip_cr(l: Seq<char>) -> Seq<char> {
    if l.len() > 0 && l.last() == '\r' {
        l.drop_last()
    } else {
        l
    }
}

/// The cleaned form of one raw line: carriage return stripped, optionally
/// trimmed; dropped entirely when nothing is left.
pub open spec fn emit_line(l: Seq<char>, trim: bool) -> Seq<Seq<char>> {
    let t = if trim {
        trim_seq(l)
    } else {
        strip_cr(l)
    };
    if t.len() == 0 {
        seq![]
    } else {
        seq![t]
    }
}

/// The scan behind [`clean_lines`]: position `i`, the current line read so
/// far in `cur`, and the lines already produced in `out`.
pub open spec fn clean_lines_rec(
    s: Seq<char>,
    i: int,
    cur: Seq<char>,
    out: Seq<Seq<char>>,
    trim: bool,
) -> Seq<Seq<char>>
    decreases s.len() - i,
{
    if i < 0 || i >= s.len() {
        out + emit_line(cur, trim)
    } else if s[i] == '\n' {
        clean_lines_rec(s, i + 1, Seq::empty(), out + emit_line(cur, trim), trim)
    } else {
        clean_lines_rec(s, i + 1, cur.push(s[i]), out, trim)
    }
}

/// The lines of `s` split on `'\n'`, each stripped of a trailing `'\r'`
/// (and trimmed of white space when `trim` is set), empty lines dropped.
pub open spec fn clean_lines(s: Seq<char>, trim: bool) -> Seq<Seq<char>> {
    clean_lines_rec(s, 0, Seq::empty(), Seq::empty(), trim)
}

/// The non-empty (cleaned) lines of `s`.
pub fn clean_lines_vec(s: &str, do_trim: bool) -> (r: Vec<String>)
    ensures
        r.deep_view() == clean_lines(s@, do_trim),
{
    let slen = s.unicode_len();
    let mut out: Vec<String> = Vec::new();
    let mut start: usize = 0;
    let mut i: usize = 0;
    proof {
        assert(s@.subrange(0, 0) =~= Seq::<char>::empty());
        assert(out.deep_view() =~= Seq::<Seq<char>>::empty());
    }
    while i < slen
        invariant
            slen == s@.len(),
            start <= i <= slen,
            clean_lines(s@, do_trim) == clean_lines_rec(
                s@,
                i as int,
                s@.subrange(start as int, i as int),
                out.deep_view(),
                do_trim,
            ),
        decreases slen - i,
    {
        let c = s.get_char(i);
        if c == '\n' {
            let line = s.substring_char(start, i);
            push_clean(&mut out, line, do_trim);
            start = i + 1;
            proof {
                assert(s@.subrange(start as int, i + 1) =~= Seq::<char>::empty());
            }
        } else {
            proof {
                assert(s@.subrange(start as int, i + 1) =~= s@.subrange(
                    start as int,
                    i as int,
                ).push(s@[i as int]));
            }
        }
        i += 1;
    }
    let line = s.substring_char(start, slen);
    push_clean(&mut out, line, do_trim);
    out
}

/// Push the cleaned form of `line`, unless nothing is left of it.
fn push_clean(out: &mut Vec<String>, line: &str, do_trim: bool)
    ensures
        final(out).deep_view() == old(out).deep_view() + emit_line(line@, do_trim),
{
    if do_trim {
        let t = trim(line);
        if t.unicode_len() > 0 {
            out.push(t.to_owned());
            proof {
                assert(final(out).deep_view() =~= old(out).deep_view() + emit_line(
                    line@,
                    do_trim,
                ));
            }
        } else {
            proof {
                assert(final(out).deep_view() =~= old(out).deep_view() + emit_line(
                    line@,
                    do_trim,
                ));
            }
        }
    } else {
        let llen = line.unicode_len();
        let stripped: &str = if llen > 0 && line.get_char(llen - 1) == '\r' {
            let r = line.substring_char(0, llen - 1);
            proof {
                assert(line@.subrange(0, line@.len() - 1) =~= line@.drop_last());
            }
            r
        } else {
            line
        };
        if stripped.unicode_len() > 0 {
            out.push(stripped.to_owned());
            proof {
                assert(final(out).deep_view() =~= old(out).deep_view() + emit_line(
                    line@,
                    do_trim,
                ));
            }
        } else {
            proof {
                assert(final(out).deep_view() =~= old(out).deep_view() + emit_line(
                    line@,
                    do_trim,
                ));
            }
        }
    }
}

/// The current token emitted, if one has been read.
pub open spec fn emit_token(cur: Seq<char>) -> Seq<Seq<char>> {
    if cur.len() == 0 {
        seq![]
    } else {
        seq![cur]
    }
}

/// The scan behind [`split_wsp`].
pub open spec fn split_wsp_rec(s: Seq<char>, i: int, cur: Seq<char>, out: Seq<Seq<char>>) -> Seq<
    Seq<char>,
>
    decreases s.len() - i,
{
    if i < 0 || i >= s.len() {
        out + emit_token(cur)
    } else if is_wsp(s[i]) {
        split_wsp_rec(s, i + 1, Seq::empty(), out + emit_token(cur))
    } else {
        split_wsp_rec(s, i + 1, cur.push(s[i]), out)
    }
}

/// The white-space-separated tokens of `s`, as `str::split_whitespace`
/// yields them.
pub open spec fn split_wsp(s: Seq<char>) -> Seq<Seq<char>> {
    split_wsp_rec(s, 0, Seq::empty(), Seq::empty())
}

/// The white-space-separated tokens of `s`.
pub fn split_wsp_vec(s: &str) -> (r: Vec<String>)
    ensures
        r.deep_view() == split_wsp(s@),
{
    let slen = s.unicode_len();
    let mut out: Vec<String> = Vec::new();
    let mut start: usize = 0;
    let mut i: usize = 0;
    proof {
        assert(s@.subrange(0, 0) =~= Seq::<char>::empty());
        assert(out.deep_view() =~= Seq::<Seq<char>>::empty());
    }
    while i < slen
        invariant
            slen == s@.len(),
            start <= i <= slen,
            split_wsp(s@) == split_wsp_rec(
                s@,
                i as int,
                s@.subrange(start as int, i as int),
                out.deep_view(),
            ),
        decreases slen - i,
    {
        let c = s.get_char(i);
        if is_wsp_char(c) {
            let ghost pre = out.deep_view();
            let ghost cur = s@.subrange(start as int, i as int);
            if i > start {
                let tok = s.substring_char(start, i);
                out.push(tok.to_owned());
            }
            proof {
                assert(out.deep_view() =~= pre + emit_token(cur));
                assert(s@.subrange(i + 1, i + 1) =~= Seq::<char>::empty());
            }
            start = i + 1;
        } else {
            proof {
                assert(s@.subrange(start as int, i + 1) =~= s@.subrange(
                    start as int,
                    i as int,
                ).push(s@[i as int]));
            }
        }
        i += 1;
    }
    let ghost pre = out.deep_view();
    let ghost cur = s@.subrange(start as int, slen as int);
    if slen > start {
        let tok = s.substring_char(start, slen);
        out.push(tok.to_owned());
    }
    proof {
        assert(out.deep_view() =~= pre + emit_token(cur));
    }
    out
}

} // verus!

verus! {

/// The decimal digit character for `d`.
pub open spec fn dec_digit(d: int) -> char {
    if d == 0 {
        '0'
    } else if d == 1 {
        '1'
    } else if d == 2 {
        '2'
    } else if d == 3 {
        '3'
    } else if d == 4 {
        '4'
    } else if d == 5 {
        '5'
    } else if d == 6 {
        '6'
    } else if d == 7 {
        '7'
    } else if d == 8 {
        '8'
    } else {
        '9'
    }
}

/// The decimal representation of `n`, without sign or leading zeros.
pub open spec fn dec_seq(n: int) -> Seq<char>
    decreases n,
{
    if n < 10 {
        seq![dec_digit(n)]
    } else {
        dec_seq(n / 10).push(dec_digit(n % 10))
    }
}

/// The one-character string for digit `d`.
fn digit_str(d: u64) -> (r: &'static str)
    requires
        d < 10,
    ensures
        r@ =~= seq![dec_digit(d as int)],
{
    proof {
        reveal_strlit("0");
        reveal_strlit("1");
        reveal_strlit("2");
        reveal_strlit("3");
        reveal_strlit("4");
        reveal_strlit("5");
        reveal_strlit("6");
        reveal_strlit("7");
        reveal_strlit("8");
        reveal_strlit("9");
    }
    if d == 0 {
        "0"
    } else if d == 1 {
        "1"
    } else if d == 2 {
        "2"
    } else if d == 3 {
        "3"
    } else if d == 4 {
        "4"
    } else if d == 5 {
        "5"
    } else if d == 6 {
        "6"
    } else if d == 7 {
        "7"
    } else if d == 8 {
        "8"
    } else {
        "9"
    }
}

/// `n` written in decimal.
pub fn u64_to_string(n: u64) -> (r: String)
    ensures
        r@ == dec_seq(n as int),
    decreases n,
{
    if n < 10 {
        let mut r = String::new();
        r.append(digit_str(n));
        proof {
            assert(Seq::<char>::empty() + seq![dec_digit(n as int)] =~= dec_seq(n as int));
        }
        r
    } else {
        let mut r = u64_to_string(n / 10);
        r.append(digit_str(n % 10));
        proof {
            assert(dec_seq((n / 10) as int) + seq![dec_digit((n % 10) as int)] =~= dec_seq(
                (n / 10) as int,
            ).push(dec_digit((n % 10) as int)));
        }
        r
    }
}

/// The elements of `v` joined with `sep` between neighbours.
pub open spec fn join_seq(v: Seq<Seq<char>>, sep: Seq<char>) -> Seq<char>
    decreases v.len(),
{
    if v.len() == 0 {
        Seq::empty()
    } else if v.len() == 1 {
        v[0]
    } else {
        v[0] + sep + join_seq(v.drop_first(), sep)
    }
}

/// Each element of `v` preceded by `sep`, concatenated.
pub open spec fn join_tail_seq(v: Seq<Seq<char>>, sep: Seq<char>) -> Seq<char>
    decreases v.len(),
{
    if v.len() == 0 {
        Seq::empty()
    } else {
        sep + v[0] + join_tail_seq(v.drop_first(), sep)
    }
}

proof fn lemma_join_head(v: Seq<Seq<char>>, sep: Seq<char>)
    requires
        v.len() > 0,
    ensures
        join_seq(v, sep) == v[0] + join_tail_seq(v.drop_first(), sep),
    decreases v.len(),
{
    if v.len() == 1 {
        assert(v[0] + join_tail_seq(v.drop_first(), sep) =~= v[0]);
    } else {
        lemma_join_head(v.drop_first(), sep);
        assert(v[0] + sep + join_seq(v.drop_first(), sep) =~= v[0] + (sep
            + v.drop_first()[0] + join_tail_seq(v.drop_first().drop_first(), sep)));
    }
}

/// The strings of `v` joined with the separator `sep`.
pub fn join_strings(v: &Vec<String>, sep: &str) -> (r: String)
    ensures
        r@ == join_seq(v.deep_view(), sep@),
{
    let ghost dv = v.deep_view();
    let mut r = String::new();
    let n = v.len();
    if n == 0 {
        return r;
    }
    r.append(v[0].as_str());
    proof {
        lemma_join_head(dv, sep@);
        assert(Seq::<char>::empty() + dv[0] =~= dv[0]);
        assert(dv.skip(1) =~= dv.drop_first());
    }
    let mut i: usize = 1;
    while i < n
        invariant
            n == v.len(),
            dv == v.deep_view(),
            1 <= i <= n,
            join_seq(dv, sep@) == r@ + join_tail_seq(dv.skip(i as int), sep@),
        decreases n - i,
    {
        r.append(sep);
        r.append(v[i].as_str());
        proof {
            let t = dv.skip(i as int);
            assert(t[0] == dv[i as int]);
            assert(t.drop_first() =~= dv.skip(i + 1));
        }
        i += 1;
    }
    proof {
        assert(dv.skip(n as int) =~= Seq::<Seq<char>>::empty());
    }
    r
}

} // verus!

verus! {

/// `s` with every trailing `c` removed.
pub open spec fn trim_end_ch(s: Seq<char>, c: char) -> Seq<char>
    decreases s.len(),
{
    if s.len() > 0 && s.last() == c {
        trim_end_ch(s.drop_last(), c)
    } else {
        s
    }
}

proof fn lemma_trim_end_ch_take(s: Seq<char>, c: char, b: int)
    requires
        0 <= b <= s.len(),
        forall|j: int| b <= j < s.len() ==> s[j] == c,
        b == 0 || s[b - 1] != c,
    ensures
        trim_end_ch(s, c) == s.take(b),
    decreases s.len() - b,
{
    if b == s.len() {
        assert(s.take(b) =~= s);
    } else {
        lemma_trim_end_ch_take(s.drop_last(), c, b);
        assert(s.drop_last().take(b) =~= s.take(b));
    }
}

/// Every trailing `c` removed from `s`.
pub fn trim_end_matches_char<'a>(s: &'a str, c: char) -> (r: &'a str)
    ensures
        r@ == trim_end_ch(s@, c),
{
    let slen = s.unicode_len();
    let mut b: usize = slen;
    while b > 0 && s.get_char(b - 1) == c
        invariant
            slen == s@.len(),
            b <= slen,
            forall|j: int| b <= j < slen ==> s@[j] == c,
        decreases b,
    {
        b -= 1;
    }
    proof {
        lemma_trim_end_ch_take(s@, c, b as int);
    }
    let r = s.substring_char(0, b);
    proof {
        assert(s@.subrange(0, b as int) =~= s@.take(b as int));
    }
    r
}

/// The index of the last occurrence of `c` in `s`, if any.
pub open spec fn rlast_index(s: Seq<char>, c: char) -> Option<int>
    decreases s.len(),
{
    if s.len() == 0 {
        None
    } else if s.last() == c {
        Some(s.len() - 1)
    } else {
        rlast_index(s.drop_last(), c)
    }
}

/// [`rlast_index`] finds exactly the last occurrence.
pub proof fn lemma_rlast_index(s: Seq<char>, c: char)
    ensures
        match rlast_index(s, c) {
            Some(i) => 0 <= i < s.len() && s[i] == c && forall|j: int|
                i < j < s.len() ==> s[j] != c,
            None => !s.contains(c),
        },
    decreases s.len(),
{
    if s.len() > 0 && s.last() != c {
        lemma_rlast_index(s.drop_last(), c);
        match rlast_index(s.drop_last(), c) {
            Some(i) => {
                assert(s.drop_last()[i] == s[i]);
                assert forall|j: int| i < j < s.len() implies s[j] != c by {
                    if j < s.len() - 1 {
                        assert(s.drop_last()[j] == s[j]);
                    }
                }
            },
            None => {
                assert forall|j: int| 0 <= j < s.len() implies s[j] != c by {
                    if j < s.len() - 1 {
                        assert(s.drop_last()[j] == s[j]);
                    }
                }
            },
        }
    }
}

} // verus!

verus! {

/// `s` with every leading `c` removed.
pub open spec fn trim_start_ch(s: Seq<char>, c: char) -> Seq<char>
    decreases s.len(),
{
    if s.len() > 0 && s[0] == c {
        trim_start_ch(s.drop_first(), c)
    } else {
        s
    }
}

proof fn lemma_trim_start_ch_skip(s: Seq<char>, c: char, a: int)
    requires
        0 <= a <= s.len(),
        forall|j: int| 0 <= j < a ==> s[j] == c,
        a == s.len() || s[a] != c,
    ensures
        trim_start_ch(s, c) == s.skip(a),
    decreases a,
{
    if a == 0 {
        assert(s.skip(0) =~= s);
    } else {
        lemma_trim_start_ch_skip(s.drop_first(), c, a - 1);
        assert(s.drop_first().skip(a - 1) =~= s.skip(a));
    }
}

/// Every leading `c` removed from `s`.
pub fn trim_start_matches_char<'a>(s: &'a str, c: char) -> (r: &'a str)
    ensures
        r@ == trim_start_ch(s@, c),
{
    let slen = s.unicode_len();
    let mut a: usize = 0;
    while a < slen && s.get_char(a) == c
        invariant
            slen == s@.len(),
            a <= slen,
            forall|j: int| 0 <= j < a ==> s@[j] == c,
        decreases slen - a,
    {
        a += 1;
    }
    proof {
        lemma_trim_start_ch_skip(s@, c, a as int);
    }
    let r = s.substring_char(a, slen);
    proof {
        assert(s@.subrange(a as int, slen as int) =~= s@.skip(a as int));
    }
    r
}

/// What follows the first `c` in `s`; all of `s` when it has none.
pub open spec fn after_first_ch(s: Seq<char>, c: char) -> Seq<char>
    decreases s.len(),
{
    if s.len() == 0 {
        s
    } else if s[0] == c {
        s.drop_first()
    } else {
        after_first_ch(s.drop_first(), c)
    }
}

proof fn lemma_after_first_ch(s: Seq<char>, c: char, i: int)
    requires
        0 <= i < s.len(),
        s[i] == c,
        forall|j: int| 0 <= j < i ==> s[j] != c,
    ensures
        after_first_ch(s, c) == s.skip(i + 1),
    decreases i,
{
    if i == 0 {
        assert(s.drop_first() =~= s.skip(1));
    } else {
        lemma_after_first_ch(s.drop_first(), c, i - 1);
        assert(s.drop_first().skip(i) =~= s.skip(i + 1));
    }
}

/// The part of `s` after the first `c`; all of `s` when it has none.
pub fn after_first_char<'a>(s: &'a str, c: char) -> (r: &'a str)
    ensures
        s@.contains(c) ==> r@ == after_first_ch(s@, c),
        !s@.contains(c) ==> r@ == s@,
{
    let slen = s.unicode_len();
    match find_char(s, c) {
        Some(i) => {
            let r = s.substring_char(i + 1, slen);
            proof {
                lemma_after_first_ch(s@, c, i as int);
                assert(s@.subrange(i + 1, slen as int) =~= s@.skip(i + 1));
                assert(s@.contains(c)) by {
                    assert(s@[i as int] == c);
                }
            }
            r
        },
        None => s,
    }
}

} // verus!
