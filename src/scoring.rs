//! Heuristic code-quality scoring used by the prompt-enhancement tool.

use vstd::prelude::*;
use vstd::string::*;
use crate::chunking::{cut, lemma_cut_monotone, lemma_line_ends_bounds, line_count, line_ends, newline_end_offsets};
use vstd::utf8::encode_utf8;
use crate::text::{decimal, decimal_of, push_char, string_of, chars_of, contains_str, has_prefix, matches_at, occurs_at, seq_contains, trim, trim_of};

verus! {

#[derive(Clone, Copy, Debug, PartialEq, Eq, Structural)]
pub enum FlawType {
    Syntax,
    Logic,
    Performance,
    Security,
    Style,
    Documentation,
    TestCoverage,
    ErrorHandling,
    ResourceLeak,
    Complexity,
}

#[derive(Clone, Copy, Debug, PartialEq, Eq, Structural)]
pub enum Severity {
    Info,
    Low,
    Medium,
    High,
    Critical,
}

pub open spec fn flaw_label(t: FlawType) -> Seq<char> {
    match t {
        FlawType::Syntax => "语法错误"@,
        FlawType::Logic => "逻辑错误"@,
        FlawType::Performance => "性能问题"@,
        FlawType::Security => "安全问题"@,
        FlawType::Style => "代码风格"@,
        FlawType::Documentation => "文档缺失"@,
        FlawType::TestCoverage => "测试覆盖不足"@,
        FlawType::ErrorHandling => "错误处理不当"@,
        FlawType::ResourceLeak => "资源泄漏"@,
        FlawType::Complexity => "复杂度过高"@,
    }
}

pub open spec fn severity_label(s: Severity) -> Seq<char> {
    match s {
        Severity::Info => "信息"@,
        Severity::Low => "低"@,
        Severity::Medium => "中"@,
        Severity::High => "高"@,
        Severity::Critical => "严重"@,
    }
}

pub open spec fn impact(s: Severity) -> u8 {
    match s {
        Severity::Info => 2,
        Severity::Low => 5,
        Severity::Medium => 10,
        Severity::High => 20,
        Severity::Critical => 30,
    }
}

impl FlawType {
    pub fn as_str(&self) -> (r: &'static str)
        ensures
            r@ == flaw_label(*self),
    {
        match self {
            FlawType::Syntax => "语法错误",
            FlawType::Logic => "逻辑错误",
            FlawType::Performance => "性能问题",
            FlawType::Security => "安全问题",
            FlawType::Style => "代码风格",
            FlawType::Documentation => "文档缺失",
            FlawType::TestCoverage => "测试覆盖不足",
            FlawType::ErrorHandling => "错误处理不当",
            FlawType::ResourceLeak => "资源泄漏",
            FlawType::Complexity => "复杂度过高",
        }
    }
}

impl Severity {
    pub fn as_str(&self) -> (r: &'static str)
        ensures
            r@ == severity_label(*self),
    {
        match self {
            Severity::Info => "信息",
            Severity::Low => "低",
            Severity::Medium => "中",
            Severity::High => "高",
            Severity::Critical => "严重",
        }
    }

    /// Points a flaw of this severity is worth.
    pub fn score_impact(&self) -> (r: u8)
        ensures
            r == impact(*self),
    {
        match self {
            Severity::Info => 2,
            Severity::Low => 5,
            Severity::Medium => 10,
            Severity::High => 20,
            Severity::Critical => 30,
        }
    }
}

/// A flaw found in the code.
#[derive(Debug)]
pub struct CodeFlaw {
    pub flaw_type: FlawType,
    pub severity: Severity,
    pub description: String,
    pub location: Option<String>,
}

/// Scores per dimension, each from 0 to 100.
#[derive(Clone, Copy, Debug)]
pub struct ScoreDimensions {
    pub correctness: u8,
    pub readability: u8,
    pub maintainability: u8,
    pub performance: u8,
    pub security: u8,
    pub test_coverage: u8,
}

#[derive(Debug)]
pub struct QualityScore {
    /// Weighted total, from 0 to 100.
    pub total: u8,
    pub dimensions: ScoreDimensions,
    pub flaws: Vec<CodeFlaw>,
    pub suggestions: Vec<String>,
}

/// Non-overlapping occurrences of `n` in `h` from offset `i`, leftmost first.
pub open spec fn count_from(h: Seq<char>, n: Seq<char>, i: int) -> nat
    decreases h.len() - i,
{
    if n.len() == 0 || i < 0 || i + n.len() > h.len() {
        0
    } else if occurs_at(h, n, i) {
        1 + count_from(h, n, i + n.len())
    } else {
        count_from(h, n, i + 1)
    }
}

pub open spec fn count_matches(h: Seq<char>, n: Seq<char>) -> nat {
    count_from(h, n, 0)
}

/// Number of non-overlapping occurrences of a non-empty `needle` in `hay`.
pub fn count_occurrences(hay: &str, needle: &str) -> (r: usize)
    requires
        needle@.len() > 0,
    ensures
        r == count_matches(hay@, needle@),
{
    let h = chars_of(hay);
    let n = chars_of(needle);
    count_in(&h, &n)
}

fn count_in(h: &Vec<char>, n: &Vec<char>) -> (r: usize)
    requires
        n@.len() > 0,
    ensures
        r == count_from(h@, n@, 0),
{
    let mut i: usize = 0;
    let mut c: usize = 0;
    while n.len() <= h.len() - i
        invariant
            n@.len() > 0,
            i <= h@.len(),
            c + count_from(h@, n@, i as int) == count_from(h@, n@, 0),
            c <= i,
        decreases h@.len() - i,
    {
        if matches_at(h, n, i) {
            c += 1;
            i += n.len();
        } else {
            i += 1;
        }
    }
    c
}

/// `p` without its line ending: a final `'\n'`, and then a `'\r'` before it.
pub open spec fn strip_eol(p: Seq<char>) -> Seq<char> {
    if p.len() > 0 && p.last() == '\n' {
        let q = p.drop_last();
        if q.len() > 0 && q.last() == '\r' {
            q.drop_last()
        } else {
            q
        }
    } else {
        p
    }
}

/// The lines of `s` as `str::lines` yields them.
pub open spec fn text_lines(s: Seq<char>) -> Seq<Seq<char>> {
    Seq::new(line_count(s), |k: int| strip_eol(s.subrange(cut(s, k), cut(s, k + 1))))
}

fn strip_line_end(p: &Vec<char>) -> (r: Vec<char>)
    ensures
        r@ == strip_eol(p@),
{
    let mut q = p.clone();
    assert(q@ == p@);
    let n = q.len();
    if n > 0 && q[n - 1] == '\n' {
        q.pop();
        assert(q@ == p@.drop_last());
        let m = q.len();
        if m > 0 && q[m - 1] == '\r' {
            q.pop();
        }
    }
    q
}

/// The lines of a text, without their line endings.
pub fn text_lines_of(s: &str) -> (r: Vec<Vec<char>>)
    ensures
        r@.len() == text_lines(s@).len(),
        forall|k: int| 0 <= k < r@.len() ==> #[trigger] r@[k]@ == text_lines(s@)[k],
{
    let chars = chars_of(s);
    let ends = newline_end_offsets(&chars);
    proof {
        lemma_line_ends_bounds(s@);
    }
    let mut out: Vec<Vec<char>> = Vec::new();
    let mut k: usize = 0;
    while k < ends.len()
        invariant
            chars@ == s@,
            ends@.len() == line_ends(s@).len(),
            forall|i: int| 0 <= i < ends@.len() ==> ends@[i] as int == #[trigger] line_ends(s@)[i],
            k <= ends@.len(),
            out@.len() == k,
            forall|i: int| 0 <= i < k ==> #[trigger] out@[i]@ == text_lines(s@)[i],
        decreases ends@.len() - k,
    {
        let start: usize = if k == 0 { 0 } else { ends[k - 1] };
        let end: usize = ends[k];
        proof {
            lemma_cut_monotone(s@, k as int, k + 1);
            assert(start == cut(s@, k as int));
            if k + 1 == ends@.len() {
                assert(s@.len() > 0);
                assert(line_ends(s@)[k as int] == line_ends(s@).last());
            }
            assert(end == cut(s@, k + 1));
        }
        let mut piece: Vec<char> = Vec::new();
        let mut i: usize = start;
        while i < end
            invariant
                chars@ == s@,
                start <= i <= end <= chars@.len(),
                piece@ == s@.subrange(start as int, i as int),
            decreases end - i,
        {
            piece.push(chars[i]);
            assert(piece@ =~= s@.subrange(start as int, i + 1));
            i += 1;
        }
        let line = strip_line_end(&piece);
        out.push(line);
        k += 1;
    }
    out
}

pub open spec fn sat_sub(a: int, b: int) -> int {
    if a >= b {
        a - b
    } else {
        0
    }
}

pub open spec fn mentions(code: Seq<char>, word: Seq<char>) -> bool {
    seq_contains(code, word)
}

pub open spec fn kinds(flaws: Seq<CodeFlaw>) -> Seq<(FlawType, Severity)> {
    flaws.map_values(|f: CodeFlaw| (f.flaw_type, f.severity))
}

fn push_flaw(flaws: &mut Vec<CodeFlaw>, flaw_type: FlawType, severity: Severity, description: String, location: Option<String>)
    ensures
        kinds(final(flaws)@) == kinds(old(flaws)@).push((flaw_type, severity)),
{
    let ghost before = flaws@;
    flaws.push(CodeFlaw { flaw_type, severity, description, location });
    assert(kinds(flaws@) =~= kinds(before).push((flaw_type, severity)));
}

pub open spec fn no_function(code: Seq<char>) -> bool {
    !(mentions(code, "fn "@) || mentions(code, "function"@) || mentions(code, "def "@))
}

pub open spec fn no_error_handling(code: Seq<char>) -> bool {
    !mentions(code, "Result"@) && !mentions(code, "?"@) && !mentions(code, "unwrap"@) && !mentions(code, "expect"@)
        && !mentions(code, "try"@) && !mentions(code, "catch"@) && !mentions(code, "except"@)
}

pub open spec fn bare_unwrap(code: Seq<char>) -> bool {
    mentions(code, ".unwrap()"@) && !mentions(code, "// SAFETY:"@)
}

pub open spec fn flag(b: bool, k: (FlawType, Severity)) -> Seq<(FlawType, Severity)> {
    if b {
        seq![k]
    } else {
        seq![]
    }
}

pub open spec fn pts(b: bool, p: int) -> int {
    if b {
        p
    } else {
        0
    }
}

/// Correctness: a function must be defined, errors handled, `unwrap`
/// justified.
pub fn check_correctness(code: &str, flaws: &mut Vec<CodeFlaw>, suggestions: &mut Vec<String>) -> (r: u8)
    ensures
        r == 100 - pts(no_function(code@), 20) - pts(no_error_handling(code@), 10) - pts(
            bare_unwrap(code@),
            5,
        ),
        kinds(final(flaws)@) == kinds(old(flaws)@) + flag(no_function(code@), (FlawType::Syntax, Severity::High))
            + flag(no_error_handling(code@), (FlawType::ErrorHandling, Severity::Medium)) + flag(
            bare_unwrap(code@),
            (FlawType::ErrorHandling, Severity::Low),
        ),
        final(suggestions)@.len() == old(suggestions)@.len() + pts(no_error_handling(code@), 1) + pts(
            bare_unwrap(code@),
            1,
        ),
{
    let ghost k0 = kinds(flaws@);
    let mut score: u8 = 100;
    let has_function = contains_str(code, "fn ") || contains_str(code, "function") || contains_str(code, "def ");
    if !has_function {
        push_flaw(flaws, FlawType::Syntax, Severity::High, String::from_str("未找到函数定义"), None);
        score = score - 20;
    }
    let ghost k1 = kinds(flaws@);
    if !contains_str(code, "Result") && !contains_str(code, "?") && !contains_str(code, "unwrap")
        && !contains_str(code, "expect") {
        if !contains_str(code, "try") && !contains_str(code, "catch") && !contains_str(code, "except") {
            push_flaw(flaws, FlawType::ErrorHandling, Severity::Medium, String::from_str("缺少错误处理机制"), None);
            score = score - 10;
            suggestions.push(String::from_str("添加适当的错误处理（Result/Option/try-catch）"));
        }
    }
    let ghost k2 = kinds(flaws@);
    if contains_str(code, ".unwrap()") && !contains_str(code, "// SAFETY:") {
        push_flaw(flaws, FlawType::ErrorHandling, Severity::Low, String::from_str("使用了 unwrap() 可能导致panic"), None);
        score = score - 5;
        suggestions.push(String::from_str("考虑使用 ? 或更安全的错误处理方式"));
    }
    assert(kinds(flaws@) =~= k0 + flag(no_function(code@), (FlawType::Syntax, Severity::High))
            + flag(no_error_handling(code@), (FlawType::ErrorHandling, Severity::Medium)) + flag(
            bare_unwrap(code@),
            (FlawType::ErrorHandling, Severity::Low),
        ));
    score
}

/// `a`, then `n` in decimal, then `b`.
fn with_number(a: &str, n: usize, b: &str) -> (r: String)
    ensures
        r@ == a@ + decimal_of(n as nat) + b@,
{
    let mut s = String::from_str(a);
    let d = decimal(n);
    s.append(d.as_str());
    s.append(b);
    s
}

pub open spec fn is_long(line: Seq<char>) -> bool {
    encode_utf8(line).len() > 120
}

pub open spec fn is_comment(line: Seq<char>) -> bool {
    let t = trim_of(line);
    "//"@.is_prefix_of(t) || "/*"@.is_prefix_of(t) || "#"@.is_prefix_of(t)
}

/// Lines among the first `k` that `p` holds of.
pub open spec fn count_lines(ls: Seq<Seq<char>>, k: int, p: spec_fn(Seq<char>) -> bool) -> nat
    decreases k,
{
    if k <= 0 {
        0
    } else {
        count_lines(ls, k - 1, p) + if p(ls[k - 1]) { 1nat } else { 0nat }
    }
}

pub open spec fn long_lines(code: Seq<char>) -> nat {
    count_lines(text_lines(code), text_lines(code).len() as int, |l: Seq<char>| is_long(l))
}

pub open spec fn comment_lines(code: Seq<char>) -> nat {
    count_lines(text_lines(code), text_lines(code).len() as int, |l: Seq<char>| is_comment(l))
}

/// Fewer than one line in ten is a comment.
pub open spec fn sparse_comments(code: Seq<char>) -> bool {
    let n = text_lines(code).len();
    comment_lines(code) * 10 < if n == 0 { 1 } else { n }
}

pub open spec fn vague_names(code: Seq<char>) -> bool {
    mentions(code, "var1"@) || mentions(code, "temp"@) || mentions(code, "x1"@)
}

pub open spec fn readability_score(code: Seq<char>) -> int {
    let n = text_lines(code).len();
    sat_sub(
        100,
        pts(n > 100, 5) + 2 * long_lines(code) + pts(sparse_comments(code), 8) + pts(vague_names(code), 5),
    )
}

pub open spec fn readability_kinds(code: Seq<char>) -> Seq<(FlawType, Severity)> {
    flag(text_lines(code).len() > 100, (FlawType::Style, Severity::Low)) + Seq::new(
        long_lines(code),
        |i: int| (FlawType::Style, Severity::Info),
    ) + flag(sparse_comments(code), (FlawType::Documentation, Severity::Low)) + flag(
        vague_names(code),
        (FlawType::Style, Severity::Low),
    )
}

fn percent_tenths(part: usize, whole: usize) -> (r: String)
    requires
        whole > 0,
{
    let p: u128 = (2000 * (part as u128) + whole as u128) / (2 * whole as u128);
    let tenths: usize = if p > 1000000 { 1000000 } else { p as usize };
    let mut s = decimal(tenths / 10);
    push_char(&mut s, '.');
    let d = decimal(tenths % 10);
    s.append(d.as_str());
    s
}

/// Readability: length of the code and of its lines, comment density, names.
pub fn check_readability(code: &str, flaws: &mut Vec<CodeFlaw>, suggestions: &mut Vec<String>) -> (r: u8)
    ensures
        r == readability_score(code@),
        kinds(final(flaws)@) == kinds(old(flaws)@) + readability_kinds(code@),
{
    let ghost k0 = kinds(flaws@);
    let lines = text_lines_of(code);
    let ghost ls = text_lines(code@);
    let n = lines.len();
    let mut score: u8 = 100;
    let ghost base: int = 100;
    if n > 100 {
        push_flaw(flaws, FlawType::Style, Severity::Low, with_number("代码过长 (", n, " 行)，建议拆分"), None);
        score = score - 5;
        suggestions.push(String::from_str("将大型函数拆分为更小的功能单元"));
        proof { base = 95; }
    }
    let ghost k1 = kinds(flaws@);
    let mut long: usize = 0;
    let mut comments: usize = 0;
    let mut i: usize = 0;
    while i < n
        invariant
            n == lines@.len(),
            n == ls.len(),
            ls == text_lines(code@),
            forall|k: int| 0 <= k < n ==> #[trigger] lines@[k]@ == ls[k],
            i <= n,
            long == count_lines(ls, i as int, |l: Seq<char>| is_long(l)),
            comments == count_lines(ls, i as int, |l: Seq<char>| is_comment(l)),
            long <= i,
            comments <= i,
            score == sat_sub(base, 2 * long),
            kinds(flaws@) == k1 + Seq::new(long as nat, |j: int| (FlawType::Style, Severity::Info)),
        decreases n - i,
    {
        let line = string_of(&lines[i]);
        let len = line.as_str().as_bytes().len();
        assert(line@ == ls[i as int]);
        if len > 120 {
            let mut d = with_number("第 ", i + 1, " 行过长 (");
            let tail = with_number("", len, " 字符)");
            d.append(tail.as_str());
            let loc = with_number("line ", i + 1, "");
            let ghost before = kinds(flaws@);
            push_flaw(flaws, FlawType::Style, Severity::Info, d, Some(loc));
            assert(kinds(flaws@) =~= k1 + Seq::new((long + 1) as nat, |j: int| (FlawType::Style, Severity::Info)));
            score = if score >= 2 { score - 2 } else { 0 };
            long = long + 1;
        }
        let t = trim(line.as_str());
        if has_prefix(t, "//") || has_prefix(t, "/*") || has_prefix(t, "#") {
            comments = comments + 1;
        }
        i += 1;
    }
    let ghost k2 = kinds(flaws@);
    let denom: usize = if n == 0 { 1 } else { n };
    if comments <= usize::MAX / 10 && comments * 10 < denom {
        let mut d = String::from_str("注释比例较低 (");
        let pct = percent_tenths(comments, denom);
        d.append(pct.as_str());
        d.append("%)");
        push_flaw(flaws, FlawType::Documentation, Severity::Low, d, None);
        score = if score >= 8 { score - 8 } else { 0 };
        suggestions.push(String::from_str("添加必要的注释说明复杂逻辑"));
    }
    let ghost k3 = kinds(flaws@);
    if contains_str(code, "var1") || contains_str(code, "temp") || contains_str(code, "x1") {
        push_flaw(flaws, FlawType::Style, Severity::Low, String::from_str("存在不具描述性的变量名"), None);
        score = if score >= 5 { score - 5 } else { 0 };
        suggestions.push(String::from_str("使用有意义的变量名"));
    }
    assert(kinds(flaws@) =~= kinds(old(flaws)@) + readability_kinds(code@));
    score
}

/// Deepest brace nesting over the first `k` lines, and the depth after them:
/// each line first adds its `{`, then the maximum is taken, then its `}` are
/// removed, never below zero.
pub open spec fn nesting(ls: Seq<Seq<char>>, k: int) -> (nat, nat)
    decreases k,
{
    if k <= 0 {
        (0, 0)
    } else {
        let (m, c) = nesting(ls, k - 1);
        let opened = c + count_matches(ls[k - 1], seq!['{']);
        let raised = if opened > usize::MAX { usize::MAX as nat } else { opened };
        let deepest = if raised > m { raised } else { m };
        let closed = count_matches(ls[k - 1], seq!['}']);
        (deepest, sat_sub(raised as int, closed as int) as nat)
    }
}

pub open spec fn max_nesting(code: Seq<char>) -> nat {
    nesting(text_lines(code), text_lines(code).len() as int).0
}

fn count_char(line: &Vec<char>, c: char) -> (r: usize)
    ensures
        r == count_matches(line@, seq![c]),
{
    let mut v: Vec<char> = Vec::new();
    v.push(c);
    assert(v@ =~= seq![c]);
    count_in(line, &v)
}

/// Deepest brace nesting of the code, line by line.
pub fn calculate_max_nesting(code: &str) -> (r: usize)
    ensures
        r == max_nesting(code@),
{
    let lines = text_lines_of(code);
    let ghost ls = text_lines(code@);
    let mut max_depth: usize = 0;
    let mut current: usize = 0;
    let mut i: usize = 0;
    while i < lines.len()
        invariant
            lines@.len() == ls.len(),
            ls == text_lines(code@),
            forall|k: int| 0 <= k < ls.len() ==> #[trigger] lines@[k]@ == ls[k],
            i <= lines@.len(),
            (max_depth as nat, current as nat) == nesting(ls, i as int),
        decreases lines@.len() - i,
    {
        let opened = count_char(&lines[i], '{');
        let closed = count_char(&lines[i], '}');
        current = current.saturating_add(opened);
        if current > max_depth {
            max_depth = current;
        }
        current = current.saturating_sub(closed);
        i += 1;
    }
    max_depth
}

pub open spec fn branch_count(code: Seq<char>) -> nat {
    count_matches(code, " if "@) + count_matches(code, " for "@) + count_matches(code, " while "@)
        + count_matches(code, " match "@) + count_matches(code, " case "@)
}

pub open spec fn magic_numbers(code: Seq<char>) -> bool {
    (mentions(code, "100"@) || mentions(code, "200"@) || mentions(code, "1000"@) || mentions(code, "0.5"@))
        && !mentions(code, "const"@)
}

/// Maintainability: nesting depth, branching, unnamed constants.
pub fn check_maintainability(code: &str, flaws: &mut Vec<CodeFlaw>, suggestions: &mut Vec<String>) -> (r: u8)
    ensures
        r == 100 - pts(max_nesting(code@) > 4, 15) - pts(branch_count(code@) > 10, 10) - pts(
            magic_numbers(code@),
            5,
        ),
        kinds(final(flaws)@) == kinds(old(flaws)@) + flag(max_nesting(code@) > 4, (FlawType::Complexity, Severity::Medium))
            + flag(branch_count(code@) > 10, (FlawType::Complexity, Severity::Medium)) + flag(
            magic_numbers(code@),
            (FlawType::Style, Severity::Low),
        ),
{
    let ghost k0 = kinds(flaws@);
    let mut score: u8 = 100;
    let depth = calculate_max_nesting(code);
    if depth > 4 {
        push_flaw(flaws, FlawType::Complexity, Severity::Medium, with_number("嵌套层级过深 (", depth, "层)"), None);
        score = score - 15;
        suggestions.push(String::from_str("降低嵌套层级，考虑提前返回或拆分函数"));
    }
    proof {
        reveal_strlit(" if ");
        reveal_strlit(" for ");
        reveal_strlit(" while ");
        reveal_strlit(" match ");
        reveal_strlit(" case ");
    }
    let a = count_occurrences(code, " if ");
    let b = count_occurrences(code, " for ");
    let c = count_occurrences(code, " while ");
    let d = count_occurrences(code, " match ");
    let e = count_occurrences(code, " case ");
    let complex = if a > 10 || b > 10 || c > 10 || d > 10 || e > 10 {
        true
    } else {
        a + b + c + d + e > 10
    };
    if complex {
        let total: usize = if a > 10 || b > 10 || c > 10 || d > 10 || e > 10 {
            if a > usize::MAX / 8 || b > usize::MAX / 8 || c > usize::MAX / 8 || d > usize::MAX / 8 || e > usize::MAX / 8 {
                usize::MAX
            } else {
                a + b + c + d + e
            }
        } else {
            a + b + c + d + e
        };
        push_flaw(flaws, FlawType::Complexity, Severity::Medium, with_number("圈复杂度较高 (约", total, ")"), None);
        score = score - 10;
        suggestions.push(String::from_str("简化逻辑，减少分支数量"));
    }
    let magic = (contains_str(code, "100") || contains_str(code, "200") || contains_str(code, "1000")
        || contains_str(code, "0.5")) && !contains_str(code, "const");
    if magic {
        push_flaw(flaws, FlawType::Style, Severity::Low, String::from_str("存在魔法数字，建议使用常量"), None);
        score = score - 5;
        suggestions.push(String::from_str("将魔法数字提取为命名常量"));
    }
    assert(kinds(flaws@) =~= k0 + flag(max_nesting(code@) > 4, (FlawType::Complexity, Severity::Medium))
            + flag(branch_count(code@) > 10, (FlawType::Complexity, Severity::Medium)) + flag(
            magic_numbers(code@),
            (FlawType::Style, Severity::Low),
        ));
    score
}

pub open spec fn string_concat(code: Seq<char>) -> bool {
    mentions(code, "+\""@) || mentions(code, "+ \""@)
}

pub open spec fn clone_heavy(code: Seq<char>) -> bool {
    count_matches(code, ".clone()"@) > 3
}

pub open spec fn grows_in_loop(code: Seq<char>) -> bool {
    mentions(code, "for"@) && (mentions(code, ".push("@) || mentions(code, ".insert("@))
}

/// Performance: string building with `+`, many clones, collections grown in loops.
pub fn check_performance(code: &str, flaws: &mut Vec<CodeFlaw>, suggestions: &mut Vec<String>) -> (r: u8)
    ensures
        r == 100 - pts(string_concat(code@), 3) - pts(clone_heavy(code@), 5) - pts(grows_in_loop(code@), 3),
        kinds(final(flaws)@) == kinds(old(flaws)@) + flag(string_concat(code@), (FlawType::Performance, Severity::Info))
            + flag(clone_heavy(code@), (FlawType::Performance, Severity::Low)) + flag(
            grows_in_loop(code@),
            (FlawType::Performance, Severity::Info),
        ),
{
    let ghost k0 = kinds(flaws@);
    let mut score: u8 = 100;
    if contains_str(code, "+\"") || contains_str(code, "+ \"") {
        push_flaw(flaws, FlawType::Performance, Severity::Info, String::from_str("使用 + 进行字符串连接，性能较差"), None);
        score = score - 3;
        suggestions.push(String::from_str("考虑使用 format! 或 String::push_str"));
    }
    proof {
        reveal_strlit(".clone()");
    }
    let clones = count_occurrences(code, ".clone()");
    if clones > 3 {
        push_flaw(flaws, FlawType::Performance, Severity::Low, with_number("过多使用 clone() (", clones, "次)"), None);
        score = score - 5;
        suggestions.push(String::from_str("检查是否可以使用引用代替克隆"));
    }
    if contains_str(code, "for") && (contains_str(code, ".push(") || contains_str(code, ".insert(")) {
        push_flaw(flaws, FlawType::Performance, Severity::Info, String::from_str("循环中修改集合，考虑性能影响"), None);
        score = score - 3;
        suggestions.push(String::from_str("考虑预分配容量或使用迭代器"));
    }
    assert(kinds(flaws@) =~= k0 + flag(string_concat(code@), (FlawType::Performance, Severity::Info))
            + flag(clone_heavy(code@), (FlawType::Performance, Severity::Low)) + flag(
            grows_in_loop(code@),
            (FlawType::Performance, Severity::Info),
        ));
    score
}

pub open spec fn uses_unsafe(code: Seq<char>) -> bool {
    mentions(code, "unsafe"@)
}

pub open spec fn query_built_from_strings(code: Seq<char>) -> bool {
    (mentions(code, "execute"@) || mentions(code, "query"@)) && (mentions(code, "format!"@) || mentions(code, "+"@))
}

pub open spec fn command_built_from_strings(code: Seq<char>) -> bool {
    mentions(code, "Command::new"@) && mentions(code, "format!"@)
}

pub open spec fn secrets_in_code(code: Seq<char>) -> bool {
    mentions(code, "password"@) || mentions(code, "secret"@) || mentions(code, "api_key"@)
}

/// Security: unsafe code, injection through built strings, secrets in code.
pub fn check_security(code: &str, flaws: &mut Vec<CodeFlaw>, suggestions: &mut Vec<String>) -> (r: u8)
    ensures
        r == 100 - pts(uses_unsafe(code@), 20) - pts(query_built_from_strings(code@), 30) - pts(
            command_built_from_strings(code@),
            20,
        ) - pts(secrets_in_code(code@), 20),
        kinds(final(flaws)@) == kinds(old(flaws)@) + flag(uses_unsafe(code@), (FlawType::Security, Severity::High))
            + flag(query_built_from_strings(code@), (FlawType::Security, Severity::Critical)) + flag(
            command_built_from_strings(code@),
            (FlawType::Security, Severity::High),
        ) + flag(secrets_in_code(code@), (FlawType::Security, Severity::High)),
{
    let ghost k0 = kinds(flaws@);
    let mut score: u8 = 100;
    if contains_str(code, "unsafe") {
        push_flaw(flaws, FlawType::Security, Severity::High, String::from_str("使用了 unsafe 代码块"), None);
        score = score - 20;
        suggestions.push(String::from_str("仔细review unsafe代码并添加SAFETY注释"));
    }
    if (contains_str(code, "execute") || contains_str(code, "query")) && (contains_str(code, "format!")
        || contains_str(code, "+")) {
        push_flaw(flaws, FlawType::Security, Severity::Critical, String::from_str("可能存在SQL注入风险"), None);
        score = score - 30;
        suggestions.push(String::from_str("使用参数化查询代替字符串拼接"));
    }
    if contains_str(code, "Command::new") && contains_str(code, "format!") {
        push_flaw(flaws, FlawType::Security, Severity::High, String::from_str("可能存在命令注入风险"), None);
        score = score - 20;
        suggestions.push(String::from_str("验证和转义外部输入"));
    }
    if contains_str(code, "password") || contains_str(code, "secret") || contains_str(code, "api_key") {
        push_flaw(flaws, FlawType::Security, Severity::High, String::from_str("可能存在硬编码敏感信息"), None);
        score = score - 20;
        suggestions.push(String::from_str("使用环境变量或密钥管理系统"));
    }
    assert(kinds(flaws@) =~= k0 + flag(uses_unsafe(code@), (FlawType::Security, Severity::High))
            + flag(query_built_from_strings(code@), (FlawType::Security, Severity::Critical)) + flag(
            command_built_from_strings(code@),
            (FlawType::Security, Severity::High),
        ) + flag(secrets_in_code(code@), (FlawType::Security, Severity::High)));
    score
}

/// No tests: blank, or shorter than 50 bytes.
pub open spec fn missing_tests(tests: Seq<char>) -> bool {
    trim_of(tests).len() == 0 || encode_utf8(tests).len() < 50
}

pub open spec fn function_count(code: Seq<char>) -> nat {
    sat_sub(count_matches(code, "fn "@) as int, 1) as nat
}

pub open spec fn test_count(tests: Seq<char>) -> nat {
    count_matches(tests, "#[test]"@) + count_matches(tests, "test_"@) + count_matches(tests, "def test"@)
}

/// Fewer tests than half the functions.
pub open spec fn low_coverage(code: Seq<char>, tests: Seq<char>) -> bool {
    function_count(code) > 0 && 2 * test_count(tests) < function_count(code)
}

pub open spec fn no_edge_cases(tests: Seq<char>) -> bool {
    !mentions(tests, "empty"@) && !mentions(tests, "null"@) && !mentions(tests, "zero"@)
}

pub open spec fn coverage_score(code: Seq<char>, tests: Seq<char>) -> int {
    if missing_tests(tests) {
        70
    } else {
        100 - pts(low_coverage(code, tests), 15) - pts(no_edge_cases(tests), 10)
    }
}

pub open spec fn coverage_kinds(code: Seq<char>, tests: Seq<char>) -> Seq<(FlawType, Severity)> {
    if missing_tests(tests) {
        seq![(FlawType::TestCoverage, Severity::High)]
    } else {
        flag(low_coverage(code, tests), (FlawType::TestCoverage, Severity::Medium)) + flag(
            no_edge_cases(tests),
            (FlawType::TestCoverage, Severity::Low),
        )
    }
}

/// Test coverage: tests present, tests per function, edge cases.
pub fn check_test_coverage(code: &str, tests: &str, flaws: &mut Vec<CodeFlaw>, suggestions: &mut Vec<String>) -> (r: u8)
    ensures
        r == coverage_score(code@, tests@),
        kinds(final(flaws)@) == kinds(old(flaws)@) + coverage_kinds(code@, tests@),
{
    let ghost k0 = kinds(flaws@);
    let mut score: u8 = 100;
    if trim(tests).is_empty() || tests.as_bytes().len() < 50 {
        push_flaw(flaws, FlawType::TestCoverage, Severity::High, String::from_str("缺少测试代码"), None);
        suggestions.push(String::from_str("为主要功能添加单元测试"));
        assert(kinds(flaws@) =~= k0 + coverage_kinds(code@, tests@));
        return 70;
    }
    proof {
        reveal_strlit("fn ");
        reveal_strlit("#[test]");
        reveal_strlit("test_");
        reveal_strlit("def test");
    }
    let functions = count_occurrences(code, "fn ").saturating_sub(1);
    let t1 = count_occurrences(tests, "#[test]");
    let t2 = count_occurrences(tests, "test_");
    let t3 = count_occurrences(tests, "def test");
    let tests_found: u128 = t1 as u128 + t2 as u128 + t3 as u128;
    let low = functions > 0 && 2 * tests_found < functions as u128;
    if low {
        let p128: u128 = (200 * tests_found + functions as u128) / (2 * functions as u128);
        let p: usize = if p128 > 100 { 100 } else { p128 as usize };
        let d = with_number("测试覆盖率较低 (", p, "%)");
        push_flaw(flaws, FlawType::TestCoverage, Severity::Medium, d, None);
        score = score - 15;
        suggestions.push(String::from_str("增加测试用例覆盖更多场景"));
    }
    if !contains_str(tests, "empty") && !contains_str(tests, "null") && !contains_str(tests, "zero") {
        push_flaw(flaws, FlawType::TestCoverage, Severity::Low, String::from_str("缺少边界条件测试"), None);
        score = score - 10;
        suggestions.push(String::from_str("添加边界条件和异常情况的测试"));
    }
    assert(kinds(flaws@) =~= k0 + coverage_kinds(code@, tests@));
    score
}

/// The weighted total, rounded half up: correctness 25%, security and
/// maintainability 20% each, readability 15%, performance and test
/// coverage 10% each.
pub open spec fn weighted_total(d: ScoreDimensions) -> int {
    (25 * d.correctness + 20 * d.security + 20 * d.maintainability + 15 * d.readability + 10 * d.performance
        + 10 * d.test_coverage + 50) / 100
}

pub fn calculate_total_score(d: &ScoreDimensions) -> (r: u8)
    requires
        d.correctness <= 100,
        d.readability <= 100,
        d.maintainability <= 100,
        d.performance <= 100,
        d.security <= 100,
        d.test_coverage <= 100,
    ensures
        r == weighted_total(*d),
        r <= 100,
{
    let w: u32 = 25 * d.correctness as u32 + 20 * d.security as u32 + 20 * d.maintainability as u32 + 15
        * d.readability as u32 + 10 * d.performance as u32 + 10 * d.test_coverage as u32;
    ((w + 50) / 100) as u8
}

/// Scores code and its tests on six dimensions and totals them.
pub fn evaluate_code_quality(code: &str, tests: &str) -> (r: QualityScore)
    ensures
        r.dimensions.correctness == 100 - pts(no_function(code@), 20) - pts(no_error_handling(code@), 10)
            - pts(bare_unwrap(code@), 5),
        r.dimensions.readability == readability_score(code@),
        r.dimensions.maintainability == 100 - pts(max_nesting(code@) > 4, 15) - pts(branch_count(code@) > 10, 10)
            - pts(magic_numbers(code@), 5),
        r.dimensions.performance == 100 - pts(string_concat(code@), 3) - pts(clone_heavy(code@), 5) - pts(
            grows_in_loop(code@),
            3,
        ),
        r.dimensions.security == 100 - pts(uses_unsafe(code@), 20) - pts(query_built_from_strings(code@), 30)
            - pts(command_built_from_strings(code@), 20) - pts(secrets_in_code(code@), 20),
        r.dimensions.test_coverage == coverage_score(code@, tests@),
        r.total == weighted_total(r.dimensions),
        kinds(r.flaws@) == flag(no_function(code@), (FlawType::Syntax, Severity::High)) + flag(
            no_error_handling(code@),
            (FlawType::ErrorHandling, Severity::Medium),
        ) + flag(bare_unwrap(code@), (FlawType::ErrorHandling, Severity::Low)) + readability_kinds(code@)
            + flag(max_nesting(code@) > 4, (FlawType::Complexity, Severity::Medium)) + flag(
            branch_count(code@) > 10,
            (FlawType::Complexity, Severity::Medium),
        ) + flag(magic_numbers(code@), (FlawType::Style, Severity::Low)) + flag(
            string_concat(code@),
            (FlawType::Performance, Severity::Info),
        ) + flag(clone_heavy(code@), (FlawType::Performance, Severity::Low)) + flag(
            grows_in_loop(code@),
            (FlawType::Performance, Severity::Info),
        ) + flag(uses_unsafe(code@), (FlawType::Security, Severity::High)) + flag(
            query_built_from_strings(code@),
            (FlawType::Security, Severity::Critical),
        ) + flag(command_built_from_strings(code@), (FlawType::Security, Severity::High)) + flag(
            secrets_in_code(code@),
            (FlawType::Security, Severity::High),
        ) + coverage_kinds(code@, tests@),
{
    let mut flaws: Vec<CodeFlaw> = Vec::new();
    let mut suggestions: Vec<String> = Vec::new();
    assert(kinds(flaws@) =~= Seq::<(FlawType, Severity)>::empty());
    let correctness = check_correctness(code, &mut flaws, &mut suggestions);
    let readability = check_readability(code, &mut flaws, &mut suggestions);
    let maintainability = check_maintainability(code, &mut flaws, &mut suggestions);
    let performance = check_performance(code, &mut flaws, &mut suggestions);
    let security = check_security(code, &mut flaws, &mut suggestions);
    let test_coverage = check_test_coverage(code, tests, &mut flaws, &mut suggestions);
    let dimensions = ScoreDimensions { correctness, readability, maintainability, performance, security, test_coverage };
    let total = calculate_total_score(&dimensions);
    QualityScore { total, dimensions, flaws, suggestions }
}

} // verus!
