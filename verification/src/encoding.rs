//! The encoding guard.
//!
//! Remote command output arrives as bytes and is decoded leniently, so a
//! non-UTF-8 file shows up as replacement characters.  [`check_file_encoding`]
//! detects that (and binary junk) and names the exact remediation command;
//! [`decode_wsl_output`] decodes the shell bridge's output, which on Windows
//! hosts is UTF-16 LE.

use vstd::prelude::*;
use vstd::string::*;
use vstd::utf8::{decode_utf8, valid_utf8};
use crate::errors::CoreError;

verus! {

/// A printable ASCII character (`!` through `~`).
pub open spec fn is_ascii_graphic_char(c: char) -> bool {
    '!' <= c && c <= '~'
}

/// An ASCII white-space character: space, tab, newline, form feed or
/// carriage return.
pub open spec fn is_ascii_ws_char(c: char) -> bool {
    c == ' ' || c == '\t' || c == '\n' || c == '\u{C}' || c == '\r'
}

/// Neither printable ASCII nor ASCII white space: evidence of binary or
/// corrupted content when frequent.
pub open spec fn is_suspect_char(c: char) -> bool {
    !is_ascii_graphic_char(c) && !is_ascii_ws_char(c)
}

/// How many suspect characters `s` holds.
pub open spec fn count_suspect(s: Seq<char>) -> nat
    decreases s.len(),
{
    if s.len() == 0 {
        0
    } else {
        count_suspect(s.drop_last()) + if is_suspect_char(s.last()) {
            1nat
        } else {
            0nat
        }
    }
}

/// The sample `check_file_encoding` inspects: the first 256 characters.
pub open spec fn encoding_sample(s: Seq<char>) -> Seq<char> {
    if s.len() <= 256 {
        s
    } else {
        s.take(256)
    }
}

/// Content counts as valid UTF-8 text: no replacement character (the trace
/// of lossy decoding), and no more than ten percent of the first 256
/// characters suspect.
pub open spec fn encoding_ok(s: Seq<char>) -> bool {
    let sample = encoding_sample(s);
    let sample_len = if sample.len() == 0 {
        1int
    } else {
        sample.len() as int
    };
    !s.contains('\u{FFFD}') && count_suspect(sample) * 10 <= sample_len
}

/// The shell command that transcodes `p` from GBK to UTF-8 in place, offered
/// to the user as the manual fix.
pub open spec fn iconv_fix_command(p: Seq<char>) -> Seq<char> {
    "iconv -f GBK -t UTF-8 \""@ + p + "\" -o \""@ + p + ".tmp\" && mv \""@ + p + ".tmp\" \""@ + p
        + "\""@
}

/// The error text for a file that is not UTF-8.
pub open spec fn non_utf8_message(p: Seq<char>) -> Seq<char> {
    "File "@ + p + " is not UTF-8 encoded (possibly GBK/GB2312); convert it and retry.\nFix: "@
        + iconv_fix_command(p)
}

/// The error text for a file that looks binary or corrupted.
pub open spec fn binary_message(p: Seq<char>) -> Seq<char> {
    "File "@ + p + " looks binary or corrupted; check that its contents are right"@
}

/// The manual GBK-to-UTF-8 fix command for `p`.
pub fn build_iconv_fix_command(p: &str) -> (r: String)
    ensures
        r@ == iconv_fix_command(p@),
{
    proof {
        reveal_strlit("iconv -f GBK -t UTF-8 \"");
        reveal_strlit("\" -o \"");
        reveal_strlit(".tmp\" && mv \"");
        reveal_strlit(".tmp\" \"");
        reveal_strlit("\"");
    }
    let mut r = String::new();
    r.append("iconv -f GBK -t UTF-8 \"");
    r.append(p);
    r.append("\" -o \"");
    r.append(p);
    r.append(".tmp\" && mv \"");
    r.append(p);
    r.append(".tmp\" \"");
    r.append(p);
    r.append("\"");
    proof {
        assert(r@ =~= iconv_fix_command(p@));
    }
    r
}

fn build_non_utf8_message(p: &str) -> (r: String)
    ensures
        r@ == non_utf8_message(p@),
{
    proof {
        reveal_strlit("File ");
        reveal_strlit(" is not UTF-8 encoded (possibly GBK/GB2312); convert it and retry.\nFix: ");
    }
    let mut r = String::new();
    r.append("File ");
    r.append(p);
    r.append(" is not UTF-8 encoded (possibly GBK/GB2312); convert it and retry.\nFix: ");
    let fix = build_iconv_fix_command(p);
    r.append(fix.as_str());
    proof {
        assert(r@ =~= non_utf8_message(p@));
    }
    r
}

fn build_binary_message(p: &str) -> (r: String)
    ensures
        r@ == binary_message(p@),
{
    proof {
        reveal_strlit("File ");
        reveal_strlit(" looks binary or corrupted; check that its contents are right");
    }
    let mut r = String::new();
    r.append("File ");
    r.append(p);
    r.append(" looks binary or corrupted; check that its contents are right");
    proof {
        assert(r@ =~= binary_message(p@));
    }
    r
}

/// Validate that `content` is sound UTF-8 text.
///
/// Rejects content holding the Unicode replacement character (the trace of
/// lossily decoding non-UTF-8 bytes) with an error naming the exact `iconv`
/// command that fixes the file, and content more than ten percent of whose
/// first 256 characters is non-printable (binary or corrupted data).
pub fn check_file_encoding(content: &str, file_path: &str) -> (r: Result<(), CoreError>)
    ensures
        r is Ok <==> encoding_ok(content@),
        r is Err ==> r->Err_0 is Encoding && r->Err_0.text() == (if content@.contains(
            '\u{FFFD}',
        ) {
            non_utf8_message(file_path@)
        } else {
            binary_message(file_path@)
        }),
{
    if crate::text::contains_char(content, '\u{FFFD}') {
        let m = build_non_utf8_message(file_path);
        return Err(CoreError::Encoding(m));
    }
    let clen = content.unicode_len();
    let sample_end: usize = if clen <= 256 {
        clen
    } else {
        256
    };
    let mut count: usize = 0;
    let mut i: usize = 0;
    proof {
        assert(content@.take(0) =~= Seq::<char>::empty());
    }
    while i < sample_end
        invariant
            clen == content@.len(),
            sample_end <= clen,
            i <= sample_end,
            count == count_suspect(content@.take(i as int)),
            count <= i,
        decreases sample_end - i,
    {
        let c = content.get_char(i);
        let bad = !(('!' <= c && c <= '~') || c == ' ' || c == '\t' || c == '\n' || c == '\u{C}'
            || c == '\r');
        proof {
            assert(content@.take(i + 1).drop_last() =~= content@.take(i as int));
            assert(content@.take(i + 1).last() == content@[i as int]);
        }
        if bad {
            count += 1;
        }
        i += 1;
    }
    proof {
        if clen <= 256 {
            assert(content@.take(sample_end as int) =~= content@);
        }
    }
    let sample_len: usize = if sample_end == 0 {
        1
    } else {
        sample_end
    };
    if count * 10 > sample_len {
        let m = build_binary_message(file_path);
        return Err(CoreError::Encoding(m));
    }
    Ok(())
}

} // verus!

verus! {

/// How many of the first `k` byte pairs of `b` look like an ASCII character
/// followed by a zero byte — the UTF-16 LE pattern for ASCII text.
pub open spec fn count_ascii_pairs(b: Seq<u8>, k: int) -> nat
    decreases k,
{
    if k <= 0 {
        0
    } else {
        count_ascii_pairs(b, k - 1) + if b[2 * (k - 1)] != 0 && b[2 * (k - 1) + 1] == 0 {
            1nat
        } else {
            0nat
        }
    }
}

/// Does `b` look like UTF-16 LE?  Either it carries the LE byte-order mark,
/// or most of up to eight sampled byte pairs show the ASCII-then-zero
/// pattern.
pub open spec fn looks_utf16_le(b: Seq<u8>) -> bool {
    if b.len() < 2 {
        false
    } else if b[0] == 0xFF && b[1] == 0xFE {
        true
    } else {
        let sample_count = if b.len() / 2 < 8 {
            b.len() as int / 2
        } else {
            8int
        };
        if sample_count < 2 {
            false
        } else {
            count_ascii_pairs(b, sample_count) * 2 >= sample_count
        }
    }
}

/// Does this byte string look like UTF-16 LE output?
///
/// The shell bridge on Windows hosts emits UTF-16 LE for its own listings;
/// this checks for the byte-order mark, or samples up to eight byte pairs
/// for the ASCII-then-zero pattern.
pub fn looks_like_utf16_le(bytes: &[u8]) -> (r: bool)
    ensures
        r == looks_utf16_le(bytes@),
{
    let n = bytes.len();
    if n < 2 {
        return false;
    }
    if bytes[0] == 0xFF && bytes[1] == 0xFE {
        return true;
    }
    let sample_count: usize = if n / 2 < 8 {
        n / 2
    } else {
        8
    };
    if sample_count < 2 {
        return false;
    }
    let mut zero_count: usize = 0;
    let mut k: usize = 0;
    while k < sample_count
        invariant
            n == bytes@.len(),
            sample_count * 2 <= n,
            k <= sample_count,
            zero_count == count_ascii_pairs(bytes@, k as int),
            zero_count <= k,
        decreases sample_count - k,
    {
        if bytes[2 * k] != 0 && bytes[2 * k + 1] == 0 {
            zero_count += 1;
        }
        k += 1;
    }
    zero_count * 2 >= sample_count
}

/// The UTF-16 LE code units held by `b`, pairing bytes low-then-high; a
/// trailing odd byte is dropped.
pub open spec fn utf16_words(b: Seq<u8>) -> Seq<u16> {
    Seq::new((b.len() / 2) as nat, |i: int| (b[2 * i] + 256 * b[2 * i + 1]) as u16)
}

/// Assemble the little-endian 16-bit code units of `b`.
pub fn utf16_words_of(bytes: &[u8]) -> (r: Vec<u16>)
    ensures
        r@ == utf16_words(bytes@),
{
    let n = bytes.len();
    let pairs = n / 2;
    let mut out: Vec<u16> = Vec::new();
    let mut i: usize = 0;
    while i < pairs
        invariant
            n == bytes@.len(),
            pairs == n / 2,
            i <= pairs,
            out@.len() == i,
            forall|j: int| 0 <= j < i ==> out@[j] == utf16_words(bytes@)[j],
        decreases pairs - i,
    {
        let lo = bytes[2 * i];
        let hi = bytes[2 * i + 1];
        let w: u16 = lo as u16 + 256 * (hi as u16);
        out.push(w);
        i += 1;
    }
    proof {
        assert(out@ =~= utf16_words(bytes@));
    }
    out
}

/// What `String::from_utf8_lossy` returns for a given byte string.
pub uninterp spec fn utf8_lossy_of(b: Seq<u8>) -> Seq<char>;

/// Decode bytes as UTF-8, replacing ill-formed sequences.
///
/// Relies on `String::from_utf8_lossy`: the result is a function of the
/// bytes alone; valid UTF-8 decodes unchanged; ill-formed sequences are
/// replaced with U+FFFD.
#[verifier::external_body]
pub fn from_utf8_lossy(bytes: &[u8]) -> (r: String)
    ensures
        r@ == utf8_lossy_of(bytes@),
        valid_utf8(bytes@) ==> r@ == decode_utf8(bytes@),
        !valid_utf8(bytes@) ==> r@.contains('\u{FFFD}'),
{
    String::from_utf8_lossy(bytes).to_string()
}

/// What `String::from_utf16_lossy` returns for given code units.
pub uninterp spec fn utf16_lossy_of(w: Seq<u16>) -> Seq<char>;

/// Decode UTF-16 code units, replacing ill-formed data.
///
/// Relies on `String::from_utf16_lossy`: the result is a function of the
/// code units alone, and units below the surrogate range decode to the
/// code points they name.
#[verifier::external_body]
pub fn from_utf16_lossy(words: &Vec<u16>) -> (r: String)
    ensures
        r@ == utf16_lossy_of(words@),
        (forall|i: int| 0 <= i < words@.len() ==> words@[i] < 0xD800) ==> r@ == Seq::new(
            words@.len(),
            |i: int| words@[i] as char,
        ),
{
    String::from_utf16_lossy(words.as_slice())
}

/// `s` with every NUL character removed.
pub open spec fn strip_nulls(s: Seq<char>) -> Seq<char> {
    s.filter(|c: char| c != '\0')
}

/// Remove every NUL character of `s`.
pub fn strip_null_chars(s: &str) -> (r: String)
    ensures
        r@ == strip_nulls(s@),
{
    let slen = s.unicode_len();
    let mut out = String::new();
    let mut i: usize = 0;
    proof {
        reveal(Seq::filter);
        assert(s@.take(0) =~= Seq::<char>::empty());
        assert(s@.take(0).filter(|c: char| c != '\0') =~= Seq::<char>::empty());
    }
    while i < slen
        invariant
            slen == s@.len(),
            i <= slen,
            out@ == s@.take(i as int).filter(|c: char| c != '\0'),
        decreases slen - i,
    {
        let c = s.get_char(i);
        proof {
            reveal(Seq::filter);
            assert(s@.take(i + 1).drop_last() =~= s@.take(i as int));
            assert(s@.take(i + 1).last() == s@[i as int]);
        }
        if c != '\0' {
            let piece = s.substring_char(i, i + 1);
            out.append(piece);
            proof {
                assert(s@.subrange(i as int, i + 1) =~= seq![s@[i as int]]);
                assert(out@ =~= s@.take(i + 1).filter(|c: char| c != '\0'));
            }
        }
        i += 1;
    }
    proof {
        assert(s@.take(slen as int) =~= s@);
    }
    out
}

/// The decoded text of shell-bridge output: UTF-16 LE when it looks like it,
/// lenient UTF-8 otherwise, with NUL characters stripped.
pub open spec fn decode_wsl_spec(b: Seq<u8>) -> Seq<char> {
    let raw = if looks_utf16_le(b) {
        utf16_lossy_of(utf16_words(b))
    } else {
        utf8_lossy_of(b)
    };
    strip_nulls(raw)
}

/// Decode the output of a shell-bridge invocation, which on Windows hosts
/// may be UTF-16 LE, stripping NUL characters.
pub fn decode_wsl_output(bytes: &[u8]) -> (r: String)
    ensures
        r@ == decode_wsl_spec(bytes@),
{
    let raw: String = if looks_like_utf16_le(bytes) {
        let words = utf16_words_of(bytes);
        from_utf16_lossy(&words)
    } else {
        from_utf8_lossy(bytes)
    };
    strip_null_chars(raw.as_str())
}

} // verus!
