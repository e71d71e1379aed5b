//! Decisions taken on each entry of a project tree: whether it is excluded,
//! whether its extension is indexed, and how its bytes become text.

use vstd::prelude::*;
use crate::chunking::{split_content, split_spec, BlobItem};
use vstd::string::*;
use crate::text::{chars_of, string_of};

verus! {

/// What matching `candidate` against the shell glob `pattern` gives: `None`
/// when the pattern is not a valid glob, or when its matcher is too large to
/// build. Which characters separate path components is the target
/// platform's choice (on Windows a backslash does too).
pub uninterp spec fn glob_match(pattern: Seq<char>, candidate: Seq<char>) -> Option<bool>;

/// Relies on `globset::Glob::new`, `GlobSetBuilder::add`, `GlobSetBuilder::build`
/// and `GlobSet::is_match`: whether the glob matches, or `None` when the
/// pattern does not parse or its matcher cannot be built.
#[verifier::external_body]
fn glob_matches(pattern: &str, candidate: &str) -> (r: Option<bool>)
    ensures
        r == glob_match(pattern@, candidate@),
{
    let glob = globset::Glob::new(pattern).ok()?;
    let mut builder = globset::GlobSetBuilder::new();
    builder.add(glob);
    let set = builder.build().ok()?;
    Some(set.is_match(candidate))
}

/// The state of a left-to-right cut of a path at `'/'`: the finished
/// segments and the one being read. Empty segments are dropped.
pub open spec fn segment_state(s: Seq<char>) -> (Seq<Seq<char>>, Seq<char>)
    decreases s.len(),
{
    if s.len() == 0 {
        (seq![], seq![])
    } else {
        let (done, cur) = segment_state(s.drop_last());
        if s.last() == '/' {
            if cur.len() > 0 {
                (done.push(cur), seq![])
            } else {
                (done, seq![])
            }
        } else {
            (done, cur.push(s.last()))
        }
    }
}

/// The non-empty segments of a forward-slash path.
pub open spec fn segments(s: Seq<char>) -> Seq<Seq<char>> {
    let (done, cur) = segment_state(s);
    if cur.len() > 0 {
        done.push(cur)
    } else {
        done
    }
}

/// Some valid pattern matches the whole relative path or one of its segments.
pub open spec fn excluded(rel: Seq<char>, patterns: Seq<Seq<char>>) -> bool {
    exists|i: int|
        0 <= i < patterns.len() && (glob_match(patterns[i], rel) == Some(true) || exists|k: int|
            0 <= k < segments(rel).len() && glob_match(patterns[i], segments(rel)[k]) == Some(true))
}

/// The segments of a forward-slash path.
pub fn path_segments(rel: &str) -> (r: Vec<String>)
    ensures
        r.deep_view() == segments(rel@),
{
    let chars = chars_of(rel);
    let mut done: Vec<String> = Vec::new();
    let mut cur: Vec<char> = Vec::new();
    let mut i: usize = 0;
    while i < chars.len()
        invariant
            chars@ == rel@,
            i <= chars@.len(),
            segment_state(rel@.take(i as int)) == (done.deep_view(), cur@),
        decreases chars@.len() - i,
    {
        assert(rel@.take(i + 1).drop_last() == rel@.take(i as int));
        let c = chars[i];
        if c == '/' {
            if cur.len() > 0 {
                let ghost prev = done.deep_view();
                done.push(string_of(&cur));
                assert(done.deep_view() =~= prev.push(cur@));
            }
            cur = Vec::new();
            assert(cur@ =~= Seq::<char>::empty());
        } else {
            cur.push(c);
        }
        i += 1;
    }
    assert(rel@.take(chars@.len() as int) == rel@);
    if cur.len() > 0 {
        let ghost prev = done.deep_view();
        done.push(string_of(&cur));
        assert(done.deep_view() =~= prev.push(cur@));
    }
    done
}

/// Whether an entry at `rel` (relative to the root, forward slashes) is
/// excluded by `patterns`. Patterns that are not valid globs are ignored.
pub fn should_exclude(rel: &str, patterns: &Vec<String>) -> (r: bool)
    ensures
        r == excluded(rel@, patterns.deep_view()),
{
    let segs = path_segments(rel);
    let ghost pats = patterns.deep_view();
    let mut i: usize = 0;
    while i < patterns.len()
        invariant
            i <= patterns@.len(),
            pats == patterns.deep_view(),
            segs.deep_view() == segments(rel@),
            forall|t: int|
                0 <= t < i ==> !(glob_match(pats[t], rel@) == Some(true) || exists|k: int|
                    0 <= k < segments(rel@).len() && glob_match(pats[t], segments(rel@)[k]) == Some(true)),
        decreases patterns@.len() - i,
    {
        let p = patterns[i].as_str();
        if glob_matches(p, rel) == Some(true) {
            return true;
        }
        let mut k: usize = 0;
        while k < segs.len()
            invariant
                k <= segs@.len(),
                i < patterns@.len(),
                pats == patterns.deep_view(),
                p@ == pats[i as int],
                segs.deep_view() == segments(rel@),
                forall|t: int| 0 <= t < k ==> glob_match(pats[i as int], segments(rel@)[t]) != Some(true),
            decreases segs@.len() - k,
        {
            if glob_matches(p, segs[k].as_str()) == Some(true) {
                assert(segments(rel@)[k as int] == segs@[k as int]@);
                return true;
            }
            k += 1;
        }
        i += 1;
    }
    false
}

/// The extension of a file name: what follows its last `'.'`, unless that
/// dot opens the name, there is none, or the name is `..`.
pub open spec fn extension_of(name: Seq<char>) -> Option<Seq<char>> {
    if name == seq!['.', '.'] {
        None
    } else if exists|i: int| 0 < i < name.len() && name[i] == '.' && forall|j: int|
        i < j < name.len() ==> name[j] != '.' {
        let i = choose|i: int|
            0 < i < name.len() && name[i] == '.' && forall|j: int| i < j < name.len() ==> name[j] != '.';
        Some(name.subrange(i + 1, name.len() as int))
    } else {
        None
    }
}

/// What `str::to_lowercase` makes of `s`.
pub uninterp spec fn lower_of(s: Seq<char>) -> Seq<char>;

/// Relies on `str::to_lowercase`: the lower-case form of `s`.
#[verifier::external_body]
fn lowercase(s: &str) -> (r: String)
    ensures
        r@ == lower_of(s@),
{
    s.to_lowercase()
}

pub open spec fn ascii_lower(c: char) -> char {
    if 'A' <= c && c <= 'Z' {
        ((c as u32) + 32) as char
    } else {
        c
    }
}

/// Equal up to the case of ASCII letters.
pub open spec fn eq_ignore_ascii_case(a: Seq<char>, b: Seq<char>) -> bool {
    a.len() == b.len() && forall|i: int| 0 <= i < a.len() ==> ascii_lower(a[i]) == ascii_lower(b[i])
}

fn lower_ascii_char(c: char) -> (r: char)
    ensures
        r == ascii_lower(c),
{
    if 'A' <= c && c <= 'Z' {
        ((c as u8) + 32) as char
    } else {
        c
    }
}

/// The file at `rel` has an extension that, written `.ext` and lower-cased,
/// equals one of `text_exts` up to ASCII case.
pub open spec fn admitted(rel: Seq<char>, text_exts: Seq<Seq<char>>) -> bool {
    let segs = segments(rel);
    segs.len() > 0 && match extension_of(segs.last()) {
        Some(e) => exists|i: int|
            0 <= i < text_exts.len() && eq_ignore_ascii_case(text_exts[i], lower_of(seq!['.'] + e)),
        None => false,
    }
}

/// The extension of a file name, as `extension_of` describes it.
pub fn file_extension(name: &str) -> (r: Option<String>)
    ensures
        match r {
            Some(e) => extension_of(name@) == Some(e@),
            None => extension_of(name@) is None,
        },
{
    let chars = chars_of(name);
    let n = chars.len();
    if n == 2 && chars[0] == '.' && chars[1] == '.' {
        assert(name@ =~= seq!['.', '.']);
        return None;
    }
    let mut i: usize = n;
    while i > 0 && chars[i - 1] != '.'
        invariant
            chars@ == name@,
            n == name@.len(),
            i <= n,
            forall|j: int| i <= j < n ==> name@[j] != '.',
        decreases i,
    {
        i -= 1;
    }
    if i <= 1 {
        return None;
    }
    let dot = i - 1;
    assert(name@[dot as int] == '.');
    let ghost c = choose|k: int|
        0 < k < name@.len() && name@[k] == '.' && forall|j: int| k < j < name@.len() ==> name@[j] != '.';
    assert(c == dot as int) by {
        if c < dot { assert(name@[dot as int] != '.'); }
        if c > dot { assert(name@[c] != '.'); }
    }
    let mut ext: Vec<char> = Vec::new();
    let mut k: usize = i;
    while k < n
        invariant
            chars@ == name@,
            n == name@.len(),
            i <= k <= n,
            ext@ == name@.subrange(i as int, k as int),
        decreases n - k,
    {
        ext.push(chars[k]);
        assert(ext@ =~= name@.subrange(i as int, k + 1));
        k += 1;
    }
    Some(string_of(&ext))
}

/// Whether two strings are equal up to the case of ASCII letters.
pub fn eq_ascii_case_insensitive(a: &str, b: &str) -> (r: bool)
    ensures
        r == eq_ignore_ascii_case(a@, b@),
{
    let x = chars_of(a);
    let y = chars_of(b);
    if x.len() != y.len() {
        return false;
    }
    let mut i: usize = 0;
    while i < x.len()
        invariant
            x@ == a@,
            y@ == b@,
            x@.len() == y@.len(),
            i <= x@.len(),
            forall|k: int| 0 <= k < i ==> ascii_lower(x@[k]) == ascii_lower(y@[k]),
        decreases x@.len() - i,
    {
        if lower_ascii_char(x[i]) != lower_ascii_char(y[i]) {
            return false;
        }
        i += 1;
    }
    true
}

/// Whether the file at `rel` has one of the indexed extensions.
pub fn extension_admitted(rel: &str, text_exts: &Vec<String>) -> (r: bool)
    ensures
        r == admitted(rel@, text_exts.deep_view()),
{
    let segs = path_segments(rel);
    if segs.len() == 0 {
        return false;
    }
    let name = segs[segs.len() - 1].as_str();
    assert(name@ == segments(rel@).last());
    let ext = match file_extension(name) {
        Some(e) => e,
        None => {
            return false;
        },
    };
    let mut dotted = String::from_str(".");
    dotted.append(ext.as_str());
    proof {
        reveal_strlit(".");
        assert(dotted@ == seq!['.'] + ext@);
    }
    let lowered = lowercase(dotted.as_str());
    let mut i: usize = 0;
    while i < text_exts.len()
        invariant
            i <= text_exts@.len(),
            lowered@ == lower_of(seq!['.'] + ext@),
            segments(rel@).len() > 0,
            extension_of(segments(rel@).last()) == Some(ext@),
            forall|t: int| 0 <= t < i ==> !eq_ignore_ascii_case(text_exts.deep_view()[t], lowered@),
        decreases text_exts@.len() - i,
    {
        if eq_ascii_case_insensitive(text_exts[i].as_str(), lowered.as_str()) {
            assert(text_exts.deep_view()[i as int] == text_exts@[i as int]@);
            return true;
        }
        i += 1;
    }
    false
}

/// What the walk does with one entry of the tree.
#[derive(Clone, Copy, Debug, PartialEq, Eq, Structural)]
pub enum EntryAction {
    Skip,
    /// A directory to walk into.
    Descend,
    /// A file to read and split into blobs.
    Index,
}

/// Entries the ignore file matches are skipped, then excluded ones; other
/// directories are walked into, other files indexed when their extension
/// is admitted.
pub open spec fn entry_action_of(
    rel: Seq<char>,
    is_dir: bool,
    ignored: bool,
    text_exts: Seq<Seq<char>>,
    patterns: Seq<Seq<char>>,
) -> EntryAction {
    if ignored || excluded(rel, patterns) {
        EntryAction::Skip
    } else if is_dir {
        EntryAction::Descend
    } else if admitted(rel, text_exts) {
        EntryAction::Index
    } else {
        EntryAction::Skip
    }
}

/// Decides what to do with the entry at `rel`, given whether it is a
/// directory and whether the project's ignore file matches it.
pub fn entry_action(
    rel: &str,
    is_dir: bool,
    ignored: bool,
    text_exts: &Vec<String>,
    patterns: &Vec<String>,
) -> (r: EntryAction)
    ensures
        r == entry_action_of(rel@, is_dir, ignored, text_exts.deep_view(), patterns.deep_view()),
{
    if ignored || should_exclude(rel, patterns) {
        EntryAction::Skip
    } else if is_dir {
        EntryAction::Descend
    } else if extension_admitted(rel, text_exts) {
        EntryAction::Index
    } else {
        EntryAction::Skip
    }
}

/// Text encodings tried, in order, on a file's bytes.
#[derive(Clone, Copy, Debug, PartialEq, Eq, Structural)]
pub enum TextEncoding {
    Utf8,
    /// The CJK double-byte legacy encoding (a superset of GB2312).
    Gbk,
    /// The Western single-byte legacy encoding (a superset of Latin-1).
    Windows1252,
}

/// What decoding `bytes` as `encoding` gives: the text, with malformed
/// sequences replaced, and whether there were any.
pub uninterp spec fn decoded(encoding: TextEncoding, bytes: Seq<u8>) -> (Seq<char>, bool);

/// Relies on `encoding_rs::Encoding::decode` for `UTF_8`, `GBK` and
/// `WINDOWS_1252`: the text and whether malformed sequences were replaced.
#[verifier::external_body]
fn decode_as(encoding: TextEncoding, bytes: &[u8]) -> (r: (String, bool))
    ensures
        (r.0@, r.1) == decoded(encoding, bytes@),
{
    let enc = match encoding {
        TextEncoding::Utf8 => encoding_rs::UTF_8,
        TextEncoding::Gbk => encoding_rs::GBK,
        TextEncoding::Windows1252 => encoding_rs::WINDOWS_1252,
    };
    let (text, _, had_errors) = enc.decode(bytes);
    (text.into_owned(), had_errors)
}

/// The text of a file: the first of UTF-8, GBK and Windows-1252 that decodes
/// without errors, else UTF-8 with malformed sequences replaced.
pub open spec fn file_text(bytes: Seq<u8>) -> Seq<char> {
    if !decoded(TextEncoding::Utf8, bytes).1 {
        decoded(TextEncoding::Utf8, bytes).0
    } else if !decoded(TextEncoding::Gbk, bytes).1 {
        decoded(TextEncoding::Gbk, bytes).0
    } else if !decoded(TextEncoding::Windows1252, bytes).1 {
        decoded(TextEncoding::Windows1252, bytes).0
    } else {
        decoded(TextEncoding::Utf8, bytes).0
    }
}

/// Decodes a file's bytes; this always yields some text.
pub fn read_text(bytes: &[u8]) -> (r: String)
    ensures
        r@ == file_text(bytes@),
{
    let (utf8, utf8_errors) = decode_as(TextEncoding::Utf8, bytes);
    if !utf8_errors {
        return utf8;
    }
    let (gbk, gbk_errors) = decode_as(TextEncoding::Gbk, bytes);
    if !gbk_errors {
        return gbk;
    }
    let (western, western_errors) = decode_as(TextEncoding::Windows1252, bytes);
    if !western_errors {
        return western;
    }
    utf8
}

/// The blobs of one admitted file, from its relative path and its bytes.
pub fn file_blobs(rel: &str, bytes: &[u8], max_lines: usize) -> (r: Vec<BlobItem>)
    requires
        max_lines > 0,
    ensures
        r@.map_values(|b: BlobItem| b@) == split_spec(rel@, file_text(bytes@), max_lines as nat),
{
    let text = read_text(bytes);
    split_content(rel, text.as_str(), max_lines)
}

} // verus!
