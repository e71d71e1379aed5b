//! Splitting a file's text into ordered blobs of at most a given number of lines.

use vstd::prelude::*;
use vstd::string::*;
use crate::text::{chars_of, decimal, decimal_of};

verus! {

/// One indexable unit of text: a whole file, or one contiguous chunk of it.
#[derive(Clone, Debug)]
pub struct BlobItem {
    /// Path relative to the project root, with `#chunk{i}of{n}` when split.
    pub path: String,
    pub content: String,
}

impl View for BlobItem {
    type V = (Seq<char>, Seq<char>);

    open spec fn view(&self) -> (Seq<char>, Seq<char>) {
        (self.path@, self.content@)
    }
}

/// End offsets of the lines of `t` that a `'\n'` closes.
pub open spec fn newline_ends(t: Seq<char>) -> Seq<int>
    decreases t.len(),
{
    if t.len() == 0 {
        seq![]
    } else if t.last() == '\n' {
        newline_ends(t.drop_last()).push(t.len() as int)
    } else {
        newline_ends(t.drop_last())
    }
}

/// End offset of each line of `s`: every line keeps its `'\n'`, and a last
/// line without one counts too (the cuts of `str::split_inclusive('\n')`).
pub open spec fn line_ends(s: Seq<char>) -> Seq<int> {
    if s.len() > 0 && s.last() != '\n' {
        newline_ends(s).push(s.len() as int)
    } else {
        newline_ends(s)
    }
}

pub open spec fn line_count(s: Seq<char>) -> nat {
    line_ends(s).len()
}

/// Offset at which the first `k` lines of `s` end.
pub open spec fn cut(s: Seq<char>, k: int) -> int {
    if k <= 0 {
        0
    } else if k >= line_count(s) {
        s.len() as int
    } else {
        line_ends(s)[k - 1]
    }
}

/// Lines `k .. k + m` of `s`, joined.
pub open spec fn lines_range(s: Seq<char>, k: int, m: int) -> Seq<char> {
    s.subrange(cut(s, k), cut(s, k + m))
}

pub open spec fn ceil_div(a: nat, b: nat) -> nat {
    if a % b == 0 {
        a / b
    } else {
        a / b + 1
    }
}

pub open spec fn chunk_path(path: Seq<char>, i: nat, n: nat) -> Seq<char> {
    path + "#chunk"@ + decimal_of(i) + "of"@ + decimal_of(n)
}

/// The blobs of a file: the whole file when it has at most `max_lines` lines,
/// else `ceil(lines / max_lines)` chunks numbered from 1.
pub open spec fn split_spec(path: Seq<char>, content: Seq<char>, max_lines: nat) -> Seq<
    (Seq<char>, Seq<char>),
> {
    let l = line_count(content);
    if l <= max_lines {
        seq![(path, content)]
    } else {
        let n = ceil_div(l, max_lines);
        Seq::new(
            n,
            |j: int|
                (
                    chunk_path(path, (j + 1) as nat, n),
                    lines_range(content, j * max_lines, max_lines as int),
                ),
        )
    }
}

proof fn lemma_newline_ends_bounds(t: Seq<char>)
    ensures
        forall|i: int| 0 <= i < newline_ends(t).len() ==> 1 <= #[trigger] newline_ends(t)[i] <= t.len(),
        forall|i: int, k: int|
            0 <= i < k < newline_ends(t).len() ==> #[trigger] newline_ends(t)[i] < #[trigger] newline_ends(t)[k],
        t.len() > 0 && t.last() == '\n' ==> newline_ends(t).len() > 0 && newline_ends(t).last() == t.len(),
    decreases t.len(),
{
    if t.len() > 0 {
        let prev = newline_ends(t.drop_last());
        lemma_newline_ends_bounds(t.drop_last());
        assert forall|i: int| 0 <= i < prev.len() implies prev[i] < t.len() by {}
        if t.last() == '\n' {
            assert(newline_ends(t) == prev.push(t.len() as int));
        } else {
            assert(newline_ends(t) == prev);
        }
    }
}

/// The line ends of `s` rise strictly, stay within `s`, and the last is its end.
pub proof fn lemma_line_ends_bounds(s: Seq<char>)
    ensures
        forall|i: int| 0 <= i < line_ends(s).len() ==> 1 <= #[trigger] line_ends(s)[i] <= s.len(),
        forall|i: int, k: int|
            0 <= i < k < line_ends(s).len() ==> #[trigger] line_ends(s)[i] < #[trigger] line_ends(s)[k],
        s.len() > 0 <==> line_ends(s).len() > 0,
        s.len() > 0 ==> line_ends(s).last() == s.len(),
{
    lemma_newline_ends_bounds(s);
    if s.len() > 0 && s.last() != '\n' {
        let prev = newline_ends(s);
        assert(prev == newline_ends(s.drop_last()));
        lemma_newline_ends_bounds(s.drop_last());
    }
}

/// `cut` does not decrease and stays within `s`.
pub proof fn lemma_cut_monotone(s: Seq<char>, a: int, b: int)
    requires
        a <= b,
    ensures
        0 <= cut(s, a) <= cut(s, b) <= s.len(),
{
    lemma_line_ends_bounds(s);
}

proof fn lemma_ceil_div(l: nat, m: nat, j: nat)
    requires
        m > 0,
        j < ceil_div(l, m),
    ensures
        j * m < l,
{
    let q = l / m;
    let r = l % m;
    assert(l == m * q + r && 0 <= r < m) by {
        vstd::arithmetic::div_mod::lemma_fundamental_div_mod(l as int, m as int);
    }
    if r == 0 {
        assert(j < q);
        assert(j * m < q * m) by (nonlinear_arith)
            requires j < q, m > 0;
    } else {
        assert(j <= q);
        assert(j * m <= q * m) by (nonlinear_arith)
            requires j <= q, m > 0;
    }
}

proof fn lemma_ceil_div_covers(l: nat, m: nat)
    requires
        m > 0,
    ensures
        ceil_div(l, m) * m >= l,
        1 <= l <= m ==> ceil_div(l, m) == 1,
{
    let q = l / m;
    let r = l % m;
    assert(l == m * q + r && 0 <= r < m) by {
        vstd::arithmetic::div_mod::lemma_fundamental_div_mod(l as int, m as int);
    }
    if r == 0 {
        assert(q * m == m * q) by (nonlinear_arith);
    } else {
        assert((q + 1) * m == m * q + m) by (nonlinear_arith);
    }
    if 1 <= l <= m {
        if q >= 2 {
            assert(m * q >= 2 * m) by (nonlinear_arith)
                requires q >= 2, m > 0;
        }
        if q == 0 {
            assert(m * q == 0) by (nonlinear_arith) requires q == 0;
        }
        if q == 1 && r != 0 {
            assert(m * q == m) by (nonlinear_arith) requires q == 1;
        }
    }
}

proof fn lemma_prefix_flatten(content: Seq<char>, contents: Seq<Seq<char>>, m: int, i: int)
    requires
        m > 0,
        0 <= i <= contents.len(),
        forall|j: int| 0 <= j < contents.len() ==> #[trigger] contents[j] == lines_range(content, j * m, m),
    ensures
        contents.take(i).flatten() == content.subrange(0, cut(content, i * m)),
    decreases i,
{
    if i == 0 {
        assert(contents.take(0) == Seq::<Seq<char>>::empty());
        assert(content.subrange(0, 0) == Seq::<char>::empty());
    } else {
        let p = i - 1;
        lemma_prefix_flatten(content, contents, m, p);
        assert(contents.take(i) == contents.take(p).push(contents[p]));
        contents.take(p).lemma_flatten_push(contents[p]);
        assert(i * m == p * m + m) by (nonlinear_arith)
            requires p == i - 1;
        assert(p * m >= 0) by (nonlinear_arith)
            requires p >= 0, m > 0;
        lemma_cut_monotone(content, 0, p * m);
        lemma_cut_monotone(content, p * m, p * m + m);
        assert(content.subrange(0, cut(content, p * m)) + content.subrange(
            cut(content, p * m),
            cut(content, p * m + m),
        ) == content.subrange(0, cut(content, i * m)));
    }
}

/// Splitting a file of `L >= 1` lines under a limit of `M` lines yields
/// `ceil(L / M)` blobs, and their contents joined in order give back the file.
pub proof fn lemma_chunks_reassemble(path: Seq<char>, content: Seq<char>, max_lines: nat)
    requires
        max_lines > 0,
        line_count(content) >= 1,
    ensures
        split_spec(path, content, max_lines).len() == ceil_div(line_count(content), max_lines),
        split_spec(path, content, max_lines).map_values(|b: (Seq<char>, Seq<char>)| b.1).flatten()
            == content,
{
    let l = line_count(content);
    let blobs = split_spec(path, content, max_lines);
    let contents = blobs.map_values(|b: (Seq<char>, Seq<char>)| b.1);
    lemma_ceil_div_covers(l, max_lines);
    lemma_line_ends_bounds(content);
    if l <= max_lines {
        assert(contents == seq![content]);
        contents.lemma_flatten_one_element();
    } else {
        let n = ceil_div(l, max_lines);
        let m = max_lines as int;
        lemma_prefix_flatten(content, contents, m, n as int);
        assert(contents.take(n as int) == contents);
        assert(cut(content, n * m) == content.len());
        assert(content.subrange(0, content.len() as int) == content);
    }
}

pub(crate) fn newline_end_offsets(chars: &Vec<char>) -> (ends: Vec<usize>)
    ensures
        ends@.len() == line_ends(chars@).len(),
        forall|i: int| 0 <= i < ends@.len() ==> ends@[i] as int == #[trigger] line_ends(chars@)[i],
{
    let mut ends: Vec<usize> = Vec::new();
    let mut i: usize = 0;
    while i < chars.len()
        invariant
            i <= chars.len(),
            ends@.len() == newline_ends(chars@.take(i as int)).len(),
            forall|k: int|
                0 <= k < ends@.len() ==> ends@[k] as int == #[trigger] newline_ends(
                    chars@.take(i as int),
                )[k],
        decreases chars.len() - i,
    {
        let ghost before = chars@.take(i as int);
        assert(chars@.take(i as int + 1).drop_last() == before);
        if chars[i] == '\n' {
            ends.push(i + 1);
        }
        i += 1;
    }
    assert(chars@.take(chars.len() as int) == chars@);
    let n = chars.len();
    if n > 0 && chars[n - 1] != '\n' {
        ends.push(n);
    }
    ends
}

/// Splits a file's text into blobs of at most `max_lines` lines each.
pub fn split_content(path: &str, content: &str, max_lines: usize) -> (r: Vec<BlobItem>)
    requires
        max_lines > 0,
    ensures
        r@.map_values(|b: BlobItem| b@) == split_spec(path@, content@, max_lines as nat),
{
    let chars = chars_of(content);
    let ends = newline_end_offsets(&chars);
    let total_lines = ends.len();
    proof {
        lemma_line_ends_bounds(content@);
    }
    let mut blobs: Vec<BlobItem> = Vec::new();
    if total_lines <= max_lines {
        blobs.push(BlobItem { path: path.to_owned(), content: content.to_owned() });
        assert(blobs@.map_values(|b: BlobItem| b@) =~= split_spec(path@, content@, max_lines as nat));
        return blobs;
    }
    let num_chunks: usize = if total_lines % max_lines == 0 {
        total_lines / max_lines
    } else {
        assert(total_lines / max_lines < usize::MAX) by (nonlinear_arith)
            requires
                max_lines >= 2,
                total_lines <= usize::MAX,
        ;
        total_lines / max_lines + 1
    };
    let ghost spec_blobs = split_spec(path@, content@, max_lines as nat);
    let mut j: usize = 0;
    while j < num_chunks
        invariant
            chars@ == content@,
            total_lines == line_count(content@),
            total_lines > max_lines > 0,
            num_chunks == ceil_div(total_lines as nat, max_lines as nat),
            spec_blobs == split_spec(path@, content@, max_lines as nat),
            spec_blobs.len() == num_chunks,
            ends@.len() == line_ends(content@).len(),
            forall|i: int| 0 <= i < ends@.len() ==> ends@[i] as int == #[trigger] line_ends(content@)[i],
            j <= num_chunks,
            blobs@.len() == j,
            forall|i: int| 0 <= i < j ==> (#[trigger] blobs@[i])@ == spec_blobs[i],
        decreases num_chunks - j,
    {
        proof {
            lemma_ceil_div(total_lines as nat, max_lines as nat, j as nat);
        }
        let k: usize = j * max_lines;
        let start: usize = if k == 0 { 0 } else { ends[k - 1] };
        let end: usize = if total_lines - k <= max_lines { chars.len() } else { ends[k + max_lines - 1] };
        proof {
            lemma_cut_monotone(content@, k as int, k + max_lines);
            assert(start == cut(content@, k as int));
            assert(end == cut(content@, k + max_lines));
        }
        let piece = content.substring_char(start, end);
        let mut chunk_path = path.to_owned();
        chunk_path.append("#chunk");
        chunk_path.append(decimal(j + 1).as_str());
        chunk_path.append("of");
        chunk_path.append(decimal(num_chunks).as_str());
        let blob = BlobItem { path: chunk_path, content: piece.to_owned() };
        assert(blob@ == spec_blobs[j as int]);
        blobs.push(blob);
        j += 1;
    }
    assert(blobs@.map_values(|b: BlobItem| b@) =~= spec_blobs);
    blobs
}

} // verus!
