//! Toolchain version detection: a pattern search for
//! `digits '.' digits '.' digits` substrings in the first line of a probe's
//! captured output. Detection is best-effort: output without the pattern
//! yields an empty result, never an error.

use vstd::prelude::*;
use vstd::string::StrSliceExecFns;
use vstd::string::StringExecFns;

verus! {

/// A decimal digit, the only character class the version pattern uses.
pub open spec fn is_digit(c: char) -> bool {
    48 <= c as u32 && c as u32 <= 57
}

/// Least index at or after `i` that lies past the digit run starting at `i`.
pub open spec fn run_end(s: Seq<char>, i: int) -> int
    decreases s.len() - i,
{
    if i < 0 || i >= s.len() || !is_digit(s[i]) {
        i
    } else {
        run_end(s, i + 1)
    }
}

pub proof fn lemma_run_end(s: Seq<char>, i: int)
    requires
        0 <= i <= s.len(),
    ensures
        i <= run_end(s, i) <= s.len(),
        forall|k: int| i <= k < run_end(s, i) ==> is_digit(#[trigger] s[k]),
        run_end(s, i) < s.len() ==> !is_digit(s[run_end(s, i)]),
    decreases s.len() - i,
{
    if i < s.len() && is_digit(s[i]) {
        lemma_run_end(s, i + 1);
    }
}

/// End of the version match that starts exactly at `i`: a run of digits,
/// a dot, a run of digits, a dot, a run of digits, each run maximal and
/// non-empty. None when no match starts at `i`.
pub open spec fn ver_end(s: Seq<char>, i: int) -> Option<int> {
    let a = run_end(s, i);
    if a == i || a >= s.len() || s[a] != '.' {
        None
    } else {
        let b = run_end(s, a + 1);
        if b == a + 1 || b >= s.len() || s[b] != '.' {
            None
        } else {
            let j = run_end(s, b + 1);
            if j == b + 1 {
                None
            } else {
                Some(j)
            }
        }
    }
}

pub open spec fn has_ver_at(s: Seq<char>, i: int) -> bool {
    ver_end(s, i) is Some
}

/// Start of the leftmost version match at or after `i`.
pub open spec fn first_ver_from(s: Seq<char>, i: int) -> Option<int>
    decreases s.len() - i,
{
    if i >= s.len() {
        None
    } else if has_ver_at(s, i) {
        Some(i)
    } else {
        first_ver_from(s, i + 1)
    }
}

pub proof fn lemma_ver_end_bounds(s: Seq<char>, i: int)
    requires
        0 <= i <= s.len(),
        ver_end(s, i) is Some,
    ensures
        i + 5 <= ver_end(s, i)->0 <= s.len(),
{
    lemma_run_end(s, i);
    let a = run_end(s, i);
    lemma_run_end(s, a + 1);
    let b = run_end(s, a + 1);
    lemma_run_end(s, b + 1);
}

pub proof fn lemma_first_ver_from(s: Seq<char>, i: int)
    requires
        0 <= i,
    ensures
        match first_ver_from(s, i) {
            Some(k) => i <= k < s.len() && has_ver_at(s, k) && forall|m: int|
                i <= m < k ==> !(#[trigger] has_ver_at(s, m)),
            None => forall|m: int| i <= m ==> !(#[trigger] has_ver_at(s, m)),
        },
    decreases s.len() - i,
{
    if i >= s.len() {
        assert forall|m: int| i <= m implies !(#[trigger] has_ver_at(s, m)) by {
            assert(run_end(s, m) == m);
        }
    } else if has_ver_at(s, i) {
    } else {
        lemma_first_ver_from(s, i + 1);
    }
}

/// The version substring one line yields: the leftmost match, or the empty
/// sequence when the line holds no match.
pub open spec fn spec_first_version(s: Seq<char>) -> Seq<char> {
    match first_ver_from(s, 0) {
        Some(k) => s.subrange(k, ver_end(s, k)->0),
        None => Seq::empty(),
    }
}

/// Index of the first newline at or after `i`, or the length when none.
pub open spec fn nl_pos(s: Seq<char>, i: int) -> int
    decreases s.len() - i,
{
    if i < 0 {
        0
    } else if i >= s.len() {
        s.len() as int
    } else if s[i] == '\n' {
        i
    } else {
        nl_pos(s, i + 1)
    }
}

/// The first line of captured output, as `str::lines` yields it: everything
/// before the first newline, with a carriage return directly before that
/// newline removed.
pub open spec fn spec_first_line(s: Seq<char>) -> Seq<char> {
    let e = nl_pos(s, 0);
    if e < s.len() && 0 < e && s[e - 1] == '\r' {
        s.subrange(0, e - 1)
    } else {
        s.subrange(0, e)
    }
}

/// What single-version detection yields for one probe's captured output.
pub open spec fn spec_detected_version(out: Seq<char>) -> Seq<char> {
    spec_first_version(spec_first_line(out))
}

/// Every version substring of a line at or after `i`, leftmost first, each
/// match consumed before the next search begins.
pub open spec fn spec_versions_from(s: Seq<char>, i: int) -> Seq<Seq<char>>
    decreases s.len() - i,
    via spec_versions_from_dec
{
    if i < 0 || i > s.len() {
        Seq::empty()
    } else {
        match first_ver_from(s, i) {
            Some(k) => seq![s.subrange(k, ver_end(s, k)->0)] + spec_versions_from(
                s,
                ver_end(s, k)->0,
            ),
            None => Seq::empty(),
        }
    }
}

#[via_fn]
proof fn spec_versions_from_dec(s: Seq<char>, i: int) {
    if 0 <= i && i <= s.len() {
        match first_ver_from(s, i) {
            Some(k) => {
                lemma_first_ver_from(s, i);
                lemma_ver_end_bounds(s, k);
            },
            None => {},
        }
    }
}

/// What build-tool detection yields for one probe's captured output.
pub open spec fn spec_detected_versions(out: Seq<char>) -> Seq<Seq<char>> {
    spec_versions_from(spec_first_line(out), 0)
}

fn is_digit_at(s: &str, i: usize) -> (r: bool)
    requires
        i < s@.len(),
    ensures
        r == is_digit(s@[i as int]),
{
    let c: char = s.get_char(i);
    (c as u32) >= 48 && (c as u32) <= 57
}

pub(crate) fn digit_run_end(s: &str, from: usize) -> (r: usize)
    requires
        from <= s@.len(),
    ensures
        r as int == run_end(s@, from as int),
        from <= r <= s@.len(),
{
    let n: usize = s.unicode_len();
    let mut j: usize = from;
    loop
        invariant_except_break
            from <= j <= n,
            n == s@.len(),
            run_end(s@, from as int) == run_end(s@, j as int),
        ensures
            from <= j <= n,
            n == s@.len(),
            j as int == run_end(s@, from as int),
        decreases n - j,
    {
        if j == n {
            break;
        }
        if !is_digit_at(s, j) {
            break;
        }
        j = j + 1;
    }
    j
}

fn ver_end_at(s: &str, i: usize) -> (r: Option<usize>)
    requires
        i <= s@.len(),
    ensures
        match r {
            Some(j) => ver_end(s@, i as int) == Some(j as int) && i < j <= s@.len(),
            None => ver_end(s@, i as int) is None,
        },
{
    let n: usize = s.unicode_len();
    let a: usize = digit_run_end(s, i);
    if a == i || a == n {
        return None;
    }
    if s.get_char(a) != '.' {
        return None;
    }
    let b: usize = digit_run_end(s, a + 1);
    if b == a + 1 || b == n {
        return None;
    }
    if s.get_char(b) != '.' {
        return None;
    }
    let j: usize = digit_run_end(s, b + 1);
    if j == b + 1 {
        return None;
    }
    Some(j)
}

fn find_ver_from(s: &str, from: usize) -> (r: Option<(usize, usize)>)
    requires
        from <= s@.len(),
    ensures
        match r {
            Some(kj) => first_ver_from(s@, from as int) == Some(kj.0 as int) && ver_end(
                s@,
                kj.0 as int,
            ) == Some(kj.1 as int) && from <= kj.0 && kj.0 < kj.1 <= s@.len(),
            None => first_ver_from(s@, from as int) is None,
        },
{
    let n: usize = s.unicode_len();
    let mut k: usize = from;
    while k < n
        invariant
            from <= k <= n,
            n == s@.len(),
            first_ver_from(s@, from as int) == first_ver_from(s@, k as int),
        decreases n - k,
    {
        match ver_end_at(s, k) {
            Some(j) => {
                return Some((k, j));
            },
            None => {},
        }
        k = k + 1;
    }
    None
}

fn first_line<'a>(s: &'a str) -> (r: &'a str)
    ensures
        r@ == spec_first_line(s@),
{
    let n: usize = s.unicode_len();
    let mut e: usize = 0;
    while e < n && s.get_char(e) != '\n'
        invariant
            e <= n,
            n == s@.len(),
            nl_pos(s@, 0) == nl_pos(s@, e as int),
        decreases n - e,
    {
        e = e + 1;
    }
    proof {
        assert(nl_pos(s@, e as int) == e as int);
    }
    if e < n && e > 0 {
        if s.get_char(e - 1) == '\r' {
            return s.substring_char(0, e - 1);
        }
    }
    s.substring_char(0, e)
}

/// Single-version detection on captured probe output: the leftmost
/// `MAJOR.MINOR.PATCH` substring of the output's first line, or the empty
/// string when the first line holds no such pattern. A probe that failed
/// outright contributes empty output, so detection stays best-effort and
/// never fails.
pub fn detect_version(output: &str) -> (r: String)
    ensures
        r@ == spec_detected_version(output@),
{
    let line = first_line(output);
    match find_ver_from(line, 0) {
        Some((k, j)) => String::from_str(line.substring_char(k, j)),
        None => String::new(),
    }
}

/// Build-tool detection: every `MAJOR.MINOR.PATCH` substring of the first
/// line, in order of appearance — the probed build tool legitimately
/// reports two versions, the system-installed and the project-pinned one.
pub fn detect_versions(output: &str) -> (r: Vec<String>)
    ensures
        r.deep_view() == spec_detected_versions(output@),
{
    let line = first_line(output);
    let n: usize = line.unicode_len();
    let mut out: Vec<String> = Vec::new();
    let mut pos: usize = 0;
    loop
        invariant_except_break
            pos <= n,
            n == line@.len(),
            line@ == spec_first_line(output@),
            spec_versions_from(line@, 0) == out.deep_view() + spec_versions_from(
                line@,
                pos as int,
            ),
        ensures
            out.deep_view() == spec_detected_versions(output@),
        decreases n - pos,
    {
        match find_ver_from(line, pos) {
            Some((k, j)) => {
                let ghost prev = out.deep_view();
                out.push(String::from_str(line.substring_char(k, j)));
                proof {
                    assert(out.deep_view() =~= prev + seq![line@.subrange(k as int, j as int)]);
                    assert(spec_versions_from(line@, pos as int) == seq![
                        line@.subrange(k as int, j as int),
                    ] + spec_versions_from(line@, j as int));
                    assert(spec_versions_from(line@, 0) =~= out.deep_view() + spec_versions_from(
                        line@,
                        j as int,
                    ));
                }
                pos = j;
            },
            None => {
                proof {
                    assert(spec_versions_from(line@, pos as int) == Seq::<Seq<char>>::empty());
                    assert(out.deep_view() =~= out.deep_view() + Seq::<Seq<char>>::empty());
                }
                break;
            },
        }
    }
    out
}

/// The toolchain snapshot, assembled fresh on every resolution and never
/// persisted. An empty version string means "tool not found or version
/// unparsable" and is not an error.
#[derive(Debug, Clone)]
pub struct PluginInfo {
    pub java_version: String,
    pub scala_version: String,
    /// System-installed and project-pinned build-tool versions, in order of
    /// appearance in the probe's output.
    pub sbt_version: Vec<String>,
}

impl PluginInfo {
    /// Assemble the snapshot from the three probes' captured outputs.
    pub fn from_probe_outputs(java_output: &str, scala_output: &str, sbt_output: &str) -> (r:
        PluginInfo)
        ensures
            r.java_version@ == spec_detected_version(java_output@),
            r.scala_version@ == spec_detected_version(scala_output@),
            r.sbt_version.deep_view() == spec_detected_versions(sbt_output@),
    {
        PluginInfo {
            java_version: detect_version(java_output),
            scala_version: detect_version(scala_output),
            sbt_version: detect_versions(sbt_output),
        }
    }
}

} // verus!
