//! Reading the counts of a test run out of the text that `cargo test` (or
//! `cargo check`) prints: the lines that report one test each
//! ("test <name> ... ok", "test <name> ... FAILED") first, and when there are
//! none, the "running N tests" and "test result:" summary lines.
use vstd::prelude::*;
use crate::commit::{TestResults, TestResultsView};
use crate::text::{
    chars_of, contains, contains_chars, find, find_chars, lemma_find_contains, lemma_find_from, lowercase, starts_with, starts_with_chars,
    str_contains, string_from, string_views, to_lowercase, trim, trim_chars, trimmed,
};

verus! {

// ---------------------------------------------------------------------------
// Lines
// ---------------------------------------------------------------------------

/// `l` without one trailing carriage return.
pub open spec fn strip_cr(l: Seq<char>) -> Seq<char> {
    if l.len() > 0 && l.last() == '\r' {
        l.drop_last()
    } else {
        l
    }
}

/// The lines of `rest` when the unfinished line read so far is `cur`: a line
/// ends at each '\n' (which it loses, with one '\r' just before it); a last
/// line without '\n' counts when it is not empty.
pub open spec fn lines_from(rest: Seq<char>, cur: Seq<char>) -> Seq<Seq<char>>
    decreases rest.len(),
{
    if rest.len() == 0 {
        if cur.len() == 0 {
            Seq::empty()
        } else {
            seq![cur]
        }
    } else if rest[0] == '\n' {
        seq![strip_cr(cur)] + lines_from(rest.drop_first(), Seq::empty())
    } else {
        lines_from(rest.drop_first(), cur.push(rest[0]))
    }
}

/// The lines of `s`, as `str::lines` yields them.
pub open spec fn lines_of(s: Seq<char>) -> Seq<Seq<char>> {
    lines_from(s, Seq::empty())
}

/// The lowercase forms of the lines.
pub open spec fn lowered_lines(ls: Seq<Seq<char>>) -> Seq<Seq<char>> {
    ls.map_values(|l: Seq<char>| lowercase(l))
}

/// The lines of `output` (`str::lines`).
pub fn output_lines(output: &str) -> (r: Vec<String>)
    ensures
        string_views(r@) == lines_of(output@),
{
    let v = chars_of(output);
    let mut r: Vec<String> = Vec::new();
    let mut start: usize = 0;
    let mut i: usize = 0;
    assert(v@.skip(0) =~= v@);
    assert(v@.subrange(0, 0) =~= Seq::<char>::empty());
    while i < v.len()
        invariant
            start <= i <= v.len(),
            v@ == output@,
            string_views(r@) + lines_from(v@.skip(i as int), v@.subrange(start as int, i as int)) == lines_of(output@),
        decreases v.len() - i,
    {
        let ghost cur = v@.subrange(start as int, i as int);
        let ghost before_r = string_views(r@);
        assert(v@.skip(i as int).drop_first() =~= v@.skip(i + 1));
        assert(v@.skip(i as int)[0] == v@[i as int]);
        if v[i] == '\n' {
            let mut end = i;
            if end > start && v[end - 1] == '\r' {
                end = end - 1;
            }
            assert(v@.subrange(start as int, end as int) =~= strip_cr(cur));
            let line = string_from(&v, start, end);
            r.push(line);
            assert(string_views(r@) =~= before_r.push(strip_cr(cur)));
            assert(v@.subrange(i + 1, i + 1) =~= Seq::<char>::empty());
            assert(before_r.push(strip_cr(cur)) + lines_from(v@.skip(i + 1), Seq::empty()) =~= before_r + (
            seq![strip_cr(cur)] + lines_from(v@.skip(i + 1), Seq::empty())));
            start = i + 1;
        } else {
            assert(v@.subrange(start as int, i + 1) =~= cur.push(v@[i as int]));
        }
        i = i + 1;
    }
    let ghost cur = v@.subrange(start as int, i as int);
    let ghost before_r = string_views(r@);
    assert(v@.skip(i as int) =~= Seq::<char>::empty());
    if start < v.len() {
        let line = string_from(&v, start, v.len());
        r.push(line);
        assert(string_views(r@) =~= before_r + seq![cur]);
    } else {
        assert(before_r + Seq::<Seq<char>>::empty() =~= before_r);
    }
    r
}

/// The lowercase form of each line (`str::to_lowercase`).
pub fn lower_lines(lines: &Vec<String>) -> (r: Vec<String>)
    ensures
        r.len() == lines.len(),
        string_views(r@) == lowered_lines(string_views(lines@)),
{
    let mut r: Vec<String> = Vec::new();
    let mut i: usize = 0;
    while i < lines.len()
        invariant
            i <= lines.len(),
            string_views(r@) == lowered_lines(string_views(lines@)).take(i as int),
        decreases lines.len() - i,
    {
        let l = to_lowercase(lines[i].as_str());
        let ghost before_r = string_views(r@);
        r.push(l);
        assert(string_views(r@) =~= before_r.push(l@));
        assert(lowered_lines(string_views(lines@)).take(i + 1) =~= lowered_lines(string_views(lines@)).take(
            i as int,
        ).push(lowercase(lines@[i as int]@)));
        i = i + 1;
    }
    assert(lowered_lines(string_views(lines@)).take(i as int) =~= lowered_lines(string_views(lines@)));
    r
}

// ---------------------------------------------------------------------------
// Pieces of a line
// ---------------------------------------------------------------------------

/// `s` up to the first occurrence of `pat`; all of `s` when there is none
/// (the first item of `str::split`).
pub open spec fn before(s: Seq<char>, pat: Seq<char>) -> Seq<char> {
    match find(s, pat) {
        Some(i) => s.take(i),
        None => s,
    }
}

/// `s` after the last `c`; all of `s` when there is none (the last item of
/// `str::split` on a character).
pub open spec fn after_last(s: Seq<char>, c: char) -> Seq<char>
    decreases s.len(),
{
    if s.len() == 0 {
        s
    } else if s.last() == c {
        Seq::empty()
    } else {
        after_last(s.drop_last(), c).push(s.last())
    }
}

/// Every character of `d` is an ASCII digit.
pub open spec fn all_digits(d: Seq<char>) -> bool {
    forall|i: int| 0 <= i < d.len() ==> '0' <= #[trigger] d[i] && d[i] <= '9'
}

/// The number that the ASCII digits `d` write in decimal.
pub open spec fn digits_value(d: Seq<char>) -> nat
    decreases d.len(),
{
    if d.len() == 0 {
        0
    } else {
        digits_value(d.drop_last()) * 10 + (d.last() as int - '0' as int) as nat
    }
}

/// `s` without one leading '+'.
pub open spec fn unsigned_digits(s: Seq<char>) -> Seq<char> {
    if s.len() > 0 && s[0] == '+' {
        s.drop_first()
    } else {
        s
    }
}

/// `s` read as a `u32` (`str::parse::<u32>`): an optional '+' followed by at
/// least one ASCII digit, with a value that fits.
pub open spec fn parse_u32(s: Seq<char>) -> Option<u32> {
    let d = unsigned_digits(s);
    if d.len() > 0 && all_digits(d) && digits_value(d) <= u32::MAX {
        Some(digits_value(d) as u32)
    } else {
        None
    }
}

/// The value of all-digit text is at least that of each of its prefixes.
pub proof fn lemma_digits_prefix(d: Seq<char>, k: int)
    requires
        all_digits(d),
        0 <= k <= d.len(),
    ensures
        digits_value(d.take(k)) <= digits_value(d),
    decreases d.len(),
{
    if k < d.len() {
        assert(all_digits(d.drop_last()));
        assert(d.drop_last().take(k) =~= d.take(k));
        lemma_digits_prefix(d.drop_last(), k);
    } else {
        assert(d.take(k) =~= d);
    }
}

/// `v[lo..hi]`.
fn sub_chars(v: &Vec<char>, lo: usize, hi: usize) -> (r: Vec<char>)
    requires
        lo <= hi <= v.len(),
    ensures
        r@ == v@.subrange(lo as int, hi as int),
{
    let mut r: Vec<char> = Vec::new();
    let mut i = lo;
    while i < hi
        invariant
            lo <= i <= hi <= v.len(),
            r@ == v@.subrange(lo as int, i as int),
        decreases hi - i,
    {
        r.push(v[i]);
        assert(v@.subrange(lo as int, i + 1) =~= v@.subrange(lo as int, i as int).push(v@[i as int]));
        i = i + 1;
    }
    r
}

/// `v` up to the first occurrence of `pat`.
fn before_chars(v: &Vec<char>, pat: &Vec<char>) -> (r: Vec<char>)
    ensures
        r@ == before(v@, pat@),
{
    proof { lemma_find_from(v@, pat@, 0); }
    match find_chars(v, pat, 0) {
        Some(i) => sub_chars(v, 0, i),
        None => {
            let r = sub_chars(v, 0, v.len());
            assert(r@ =~= v@);
            r
        },
    }
}

/// `v` after the last `c`.
fn after_last_chars(v: &Vec<char>, c: char) -> (r: Vec<char>)
    ensures
        r@ == after_last(v@, c),
{
    let mut j: usize = v.len();
    assert(v@.take(j as int) =~= v@);
    assert(v@.skip(j as int) =~= Seq::<char>::empty());
    while j > 0 && v[j - 1] != c
        invariant
            j <= v.len(),
            after_last(v@, c) == after_last(v@.take(j as int), c) + v@.skip(j as int),
        decreases j,
    {
        assert(v@.take(j as int).drop_last() =~= v@.take(j - 1));
        assert(v@.take(j as int).last() == v@[j - 1]);
        assert(v@.skip(j - 1) =~= seq![v@[j - 1]] + v@.skip(j as int));
        assert(after_last(v@.take(j - 1), c).push(v@[j - 1]) + v@.skip(j as int) =~= after_last(
            v@.take(j - 1),
            c,
        ) + v@.skip(j - 1));
        j = j - 1;
    }
    if j > 0 {
        assert(v@.take(j as int).last() == c);
    }
    assert(Seq::<char>::empty() + v@.skip(j as int) =~= v@.skip(j as int));
    assert(v@.take(0) =~= Seq::<char>::empty());
    sub_chars(v, j, v.len())
}

/// `v` read as a `u32` (`str::parse::<u32>`).
pub fn parse_u32_chars(v: &Vec<char>) -> (r: Option<u32>)
    ensures
        r == parse_u32(v@),
{
    let start: usize = if v.len() > 0 && v[0] == '+' { 1 } else { 0 };
    let ghost d = unsigned_digits(v@);
    assert(d =~= v@.skip(start as int));
    if start >= v.len() {
        return None;
    }
    let mut acc: u64 = 0;
    let mut i: usize = start;
    assert(d.take(0) =~= Seq::<char>::empty());
    while i < v.len()
        invariant
            start <= i <= v.len(),
            d == unsigned_digits(v@),
            d =~= v@.skip(start as int),
            d.take(i - start) =~= v@.subrange(start as int, i as int),
            all_digits(d.take(i - start)),
            acc == digits_value(d.take(i - start)),
            acc <= u32::MAX,
        decreases v.len() - i,
    {
        let c = v[i];
        assert(d[i - start] == c);
        if !('0' <= c && c <= '9') {
            assert(!all_digits(d));
            return None;
        }
        let digit = (c as u32 - '0' as u32) as u64;
        assert(d.take(i + 1 - start).drop_last() =~= d.take(i - start));
        assert(d.take(i + 1 - start).last() == c);
        acc = acc * 10 + digit;
        assert(all_digits(d.take(i + 1 - start)));
        if acc > 0xffff_ffff {
            proof {
                if all_digits(d) {
                    lemma_digits_prefix(d, i + 1 - start);
                }
            }
            return None;
        }
        i = i + 1;
    }
    assert(d.take(i - start) =~= d);
    Some(acc as u32)
}

// ---------------------------------------------------------------------------
// Lines marked as passed or failed
// ---------------------------------------------------------------------------

/// The name of the test that a line reports: the line up to the first "...", trimmed.
pub open spec fn test_name(line: Seq<char>) -> Seq<char> {
    trim(before(line, "..."@))
}

/// `s` after the first occurrence of `pat`; nothing when there is none.
pub open spec fn after(s: Seq<char>, pat: Seq<char>) -> Seq<char> {
    match find(s, pat) {
        Some(i) => s.skip(i + pat.len()),
        None => Seq::empty(),
    }
}

/// A line that reports one test, by its lowercase form: "test <name> ... <verdict>".
pub open spec fn is_test_line(lower: Seq<char>) -> bool {
    starts_with(trim(lower), "test "@) && contains(lower, "..."@)
}

/// The verdict of a line that reports one test: what follows its "...", trimmed.
pub open spec fn verdict(lower: Seq<char>) -> Seq<char> {
    trim(after(lower, "..."@))
}

/// A line that reports a test that passed: its verdict is "ok".
pub open spec fn reports_pass(lower: Seq<char>) -> bool {
    is_test_line(lower) && starts_with(verdict(lower), "ok"@)
}

/// A line that reports a test that failed: its verdict is "failed".
pub open spec fn reports_failure(lower: Seq<char>) -> bool {
    is_test_line(lower) && starts_with(verdict(lower), "fail"@)
}

/// Over the first `n` lines `ls` (with lowercase forms `lows`): the number of
/// passes, the number of failures, and the names of the failed tests.
pub open spec fn marks(ls: Seq<Seq<char>>, lows: Seq<Seq<char>>, n: int) -> (nat, nat, Seq<Seq<char>>)
    decreases n,
{
    if n <= 0 {
        (0, 0, Seq::empty())
    } else {
        let m = marks(ls, lows, n - 1);
        if reports_pass(lows[n - 1]) {
            (m.0 + 1, m.1, m.2)
        } else if reports_failure(lows[n - 1]) {
            (m.0, m.1 + 1, m.2.push(test_name(ls[n - 1])))
        } else {
            m
        }
    }
}

/// The name of the test that `line` reports.
pub fn test_name_of(line: &str) -> (r: String)
    ensures
        r@ == test_name(line@),
{
    let v = chars_of(line);
    let dots = chars_of("...");
    let head = before_chars(&v, &dots);
    trim_chars_string(&head)
}

/// `trim(v)` as a string.
fn trim_chars_string(v: &Vec<char>) -> (r: String)
    ensures
        r@ == trim(v@),
{
    let t = trim_chars(v);
    string_from(&t, 0, t.len())
}

// ---------------------------------------------------------------------------
// Summary lines
// ---------------------------------------------------------------------------

/// The count of a "running N tests" line: the text after the first "running"
/// (up to a next one) and before "tests", trimmed, read as a number.
pub open spec fn running_count(l: Seq<char>) -> Option<u32> {
    match find(l, "running"@) {
        Some(i) => if contains(l, "tests"@) {
            parse_u32(trim(before(before(l.skip(i + "running"@.len()), "running"@), "tests"@)))
        } else {
            None
        },
        None => None,
    }
}

/// The last word of `s`: what follows its last space once it is trimmed.
pub open spec fn last_word(s: Seq<char>) -> Seq<char> {
    after_last(trim(s), ' ')
}

/// The passed count of a "test result: ok. <n> passed; <m> failed" line: the
/// word just before "passed", read as a number.
pub open spec fn result_passed(l: Seq<char>) -> Option<u32> {
    if contains(l, "test result:"@) && contains(l, "passed"@) {
        parse_u32(last_word(before(l, "passed"@)))
    } else {
        None
    }
}

/// The failed count of a "test result: ok. <n> passed; <m> failed" line: the
/// word just before "failed", read as a number.
pub open spec fn result_failed(l: Seq<char>) -> Option<u32> {
    if contains(l, "test result:"@) && contains(l, "failed"@) {
        parse_u32(last_word(before(l, "failed"@)))
    } else {
        None
    }
}

/// The passed and failed counts that the summary lines among the first `n`
/// lines give: each one read replaces the one before.
pub open spec fn summary_counts(ls: Seq<Seq<char>>, n: int) -> (u32, u32)
    decreases n,
{
    if n <= 0 {
        (0, 0)
    } else {
        let prev = summary_counts(ls, n - 1);
        let l = ls[n - 1];
        let p = match result_passed(l) {
            Some(x) => x,
            None => match running_count(l) {
                Some(c) => c,
                None => prev.0,
            },
        };
        let f = match result_failed(l) {
            Some(y) => y,
            None => prev.1,
        };
        (p, f)
    }
}

/// The count of a "running N tests" line.
pub fn running_count_of(l: &str) -> (r: Option<u32>)
    ensures
        r == running_count(l@),
{
    let v = chars_of(l);
    let run = chars_of("running");
    let tests = chars_of("tests");
    proof { lemma_find_from(v@, run@, 0); }
    match find_chars(&v, &run, 0) {
        Some(i) => {
            if contains_chars(&v, &tests) {
                let n = run.len();
                assert(i + n <= v.len());
                let after = sub_chars(&v, i + n, v.len());
                assert(after@ =~= v@.skip(i + run@.len()));
                let seg = before_chars(&after, &run);
                let seg2 = before_chars(&seg, &tests);
                let t = trim_chars(&seg2);
                parse_u32_chars(&t)
            } else {
                None
            }
        },
        None => None,
    }
}

/// The last word of `v`.
fn last_word_chars(v: &Vec<char>) -> (r: Vec<char>)
    ensures
        r@ == last_word(v@),
{
    let t = trim_chars(v);
    after_last_chars(&t, ' ')
}

/// The count written just before `label` in a "test result:" line.
fn count_before(l: &str, label: &str) -> (r: Option<u32>)
    ensures
        r == if contains(l@, "test result:"@) && contains(l@, label@) {
            parse_u32(last_word(before(l@, label@)))
        } else {
            None
        },
{
    if str_contains(l, "test result:") && str_contains(l, label) {
        let v = chars_of(l);
        let lv = chars_of(label);
        let head = before_chars(&v, &lv);
        let w = last_word_chars(&head);
        parse_u32_chars(&w)
    } else {
        None
    }
}

/// The passed count of a "test result:" line.
pub fn result_passed_of(l: &str) -> (r: Option<u32>)
    ensures
        r == result_passed(l@),
{
    count_before(l, "passed")
}

/// The failed count of a "test result:" line.
pub fn result_failed_of(l: &str) -> (r: Option<u32>)
    ensures
        r == result_failed(l@),
{
    count_before(l, "failed")
}

/// What a line reports, by its lowercase form: a passed test, a failed test.
pub fn line_marks(lower: &str) -> (r: (bool, bool))
    ensures
        r.0 == reports_pass(lower@),
        r.1 == reports_failure(lower@),
{
    let v = chars_of(lower);
    let t = trim_chars(&v);
    let prefix = chars_of("test ");
    let dots = chars_of("...");
    let ok = chars_of("ok");
    let fail = chars_of("fail");
    proof { lemma_find_from(v@, dots@, 0); lemma_find_contains(v@, dots@); }
    let is_test = starts_with_chars(&t, &prefix);
    match find_chars(&v, &dots, 0) {
        Some(i) => {
            let n = dots.len();
            assert(i + n <= v.len());
            let rest = sub_chars(&v, i + n, v.len());
            assert(rest@ =~= v@.skip(i + dots@.len()));
            let verdict = trim_chars(&rest);
            (is_test && starts_with_chars(&verdict, &ok), is_test && starts_with_chars(&verdict, &fail))
        },
        None => (false, false),
    }
}

/// The counts that the summary lines of `lines` give.
pub fn summary_counts_of(lines: &Vec<String>) -> (r: (u32, u32))
    ensures
        r == summary_counts(string_views(lines@), lines.len() as int),
{
    let ghost ls = string_views(lines@);
    let mut p: u32 = 0;
    let mut f: u32 = 0;
    let mut i: usize = 0;
    while i < lines.len()
        invariant
            i <= lines.len(),
            ls == string_views(lines@),
            (p, f) == summary_counts(ls, i as int),
        decreases lines.len() - i,
    {
        let l = lines[i].as_str();
        assert(ls[i as int] == l@);
        match running_count_of(l) {
            Some(c) => {
                p = c;
            },
            None => {},
        }
        match result_passed_of(l) {
            Some(x) => {
                p = x;
            },
            None => {},
        }
        match result_failed_of(l) {
            Some(y) => {
                f = y;
            },
            None => {},
        }
        i = i + 1;
    }
    (p, f)
}

// ---------------------------------------------------------------------------
// The results of a run
// ---------------------------------------------------------------------------

/// The passed and failed counts of a run: those of the marked lines, or when
/// no line is marked, those of the summary lines.
pub open spec fn final_counts(ls: Seq<Seq<char>>, lows: Seq<Seq<char>>) -> (nat, nat) {
    let m = marks(ls, lows, ls.len() as int);
    if m.0 == 0 && m.1 == 0 {
        let s = summary_counts(ls, ls.len() as int);
        (s.0 as nat, s.1 as nat)
    } else {
        (m.0, m.1)
    }
}

/// The total of the run fits in a `u32`.
pub open spec fn counts_fit(ls: Seq<Seq<char>>, lows: Seq<Seq<char>>) -> bool {
    final_counts(ls, lows).0 + final_counts(ls, lows).1 <= u32::MAX
}

/// The results of a run whose lines are `ls`, with lowercase forms `lows`:
/// with failures, the failed tests named; else all of them passed.
pub open spec fn test_results_model(ls: Seq<Seq<char>>, lows: Seq<Seq<char>>) -> TestResultsView {
    let c = final_counts(ls, lows);
    if c.1 > 0 {
        TestResultsView {
            total: (c.0 + c.1) as u32,
            passed: c.0 as u32,
            failed: c.1 as u32,
            details: marks(ls, lows, ls.len() as int).2,
        }
    } else {
        TestResultsView { total: c.0 as u32, passed: c.0 as u32, failed: 0, details: Seq::empty() }
    }
}

/// The results of a run whose lines are `lines`, given the lowercase form of
/// each line in `lowered`; none when the total does not fit in a `u32`.
pub fn tally_test_results(lines: &Vec<String>, lowered: &Vec<String>) -> (r: Option<TestResults>)
    requires
        lowered.len() == lines.len(),
    ensures
        r is Some <==> counts_fit(string_views(lines@), string_views(lowered@)),
        r matches Some(t) ==> t@ == test_results_model(string_views(lines@), string_views(lowered@)),
        r matches Some(t) ==> (pass_count(string_views(lowered@)) + failure_count(string_views(lowered@)) > 0
            ==> t.passed == pass_count(string_views(lowered@)) && t.failed == failure_count(string_views(lowered@))),
{
    let ghost ls = string_views(lines@);
    let ghost lows = string_views(lowered@);
    proof {
        lemma_marks_count(ls, lows, ls.len() as int);
        assert(lows.take(ls.len() as int) =~= lows);
        if pass_count(lows) + failure_count(lows) > 0 && counts_fit(ls, lows) {
            lemma_marked_lines_counted(ls, lows);
        }
    }
    let mut passed: u64 = 0;
    let mut failed: u64 = 0;
    let mut details: Vec<String> = Vec::new();
    let mut i: usize = 0;
    while i < lines.len()
        invariant
            i <= lines.len(),
            lowered.len() == lines.len(),
            ls == string_views(lines@),
            lows == string_views(lowered@),
            passed + failed <= i,
            marks(ls, lows, i as int).0 == passed,
            marks(ls, lows, i as int).1 == failed,
            marks(ls, lows, i as int).2 == string_views(details@),
        decreases lines.len() - i,
    {
        let lower = lowered[i].as_str();
        assert(lows[i as int] == lower@);
        let (pass, fail) = line_marks(lower);
        if pass {
            passed = passed + 1;
        } else if fail {
            failed = failed + 1;
            let name = test_name_of(lines[i].as_str());
            let ghost before_d = string_views(details@);
            details.push(name);
            assert(string_views(details@) =~= before_d.push(name@));
        }
        i = i + 1;
    }
    if passed == 0 && failed == 0 {
        let (p, f) = summary_counts_of(lines);
        passed = p as u64;
        failed = f as u64;
    }
    if passed + failed > 0xffff_ffff {
        return None;
    }
    let total = (passed + failed) as u32;
    if failed > 0 {
        Some(TestResults::with_failures(total, failed as u32, details))
    } else {
        let r = TestResults::all_passed(total);
        Some(r)
    }
}

/// The results of the run that `output` reports. The total must fit in a
/// `u32` (the sum of the counts read would overflow otherwise).
pub fn parse_test_results(output: &str) -> (r: TestResults)
    requires
        counts_fit(lines_of(output@), lowered_lines(lines_of(output@))),
    ensures
        r@ == test_results_model(lines_of(output@), lowered_lines(lines_of(output@))),
        pass_count(lowered_lines(lines_of(output@))) + failure_count(lowered_lines(lines_of(output@))) > 0 ==> (
        r.passed == pass_count(lowered_lines(lines_of(output@))) && r.failed == failure_count(
            lowered_lines(lines_of(output@)),
        )),
{
    let lines = output_lines(output);
    let lowered = lower_lines(&lines);
    tally_test_results(&lines, &lowered).unwrap()
}

/// The results of the run that `output` reports, or none when their total
/// does not fit in a `u32`.
pub fn parse_test_results_checked(output: &str) -> (r: Option<TestResults>)
    ensures
        r is Some <==> counts_fit(lines_of(output@), lowered_lines(lines_of(output@))),
        r matches Some(t) ==> t@ == test_results_model(lines_of(output@), lowered_lines(lines_of(output@))),
{
    let lines = output_lines(output);
    let lowered = lower_lines(&lines);
    if tally_test_results(&lines, &lowered).is_some() {
        Some(parse_test_results(output))
    } else {
        None
    }
}

/// The results of a run add up: the total is the passed count plus the
/// failed count, the failures are named only when some test failed, and a
/// failed test is named for each line that reported one.
pub proof fn lemma_results_add_up(ls: Seq<Seq<char>>, lows: Seq<Seq<char>>)
    requires
        counts_fit(ls, lows),
    ensures
        test_results_model(ls, lows).total == test_results_model(ls, lows).passed + test_results_model(ls, lows).failed,
        test_results_model(ls, lows).failed == 0 ==> test_results_model(ls, lows).details.len() == 0,
        marks(ls, lows, ls.len() as int).2.len() == marks(ls, lows, ls.len() as int).1,
{
    lemma_marks_names(ls, lows, ls.len() as int);
}

/// The number of lines that report a test that passed.
pub open spec fn pass_count(lows: Seq<Seq<char>>) -> nat {
    lows.filter(|l: Seq<char>| reports_pass(l)).len()
}

/// The number of lines that report a test that failed.
pub open spec fn failure_count(lows: Seq<Seq<char>>) -> nat {
    lows.filter(|l: Seq<char>| reports_failure(l)).len()
}

/// No line reports both a pass and a failure.
pub proof fn lemma_pass_excludes_failure(lower: Seq<char>)
    ensures
        !(reports_pass(lower) && reports_failure(lower)),
{
    reveal_strlit("ok");
    reveal_strlit("fail");
    if reports_pass(lower) && reports_failure(lower) {
        let v = verdict(lower);
        assert(v.subrange(0, 2)[0] == v[0]);
        assert(v.subrange(0, 4)[0] == v[0]);
    }
}

/// Over the first `n` lines, the marked passes and failures are the lines
/// that report them.
pub proof fn lemma_marks_count(ls: Seq<Seq<char>>, lows: Seq<Seq<char>>, n: int)
    requires
        0 <= n <= lows.len(),
    ensures
        marks(ls, lows, n).0 == pass_count(lows.take(n)),
        marks(ls, lows, n).1 == failure_count(lows.take(n)),
    decreases n,
{
    if n > 0 {
        lemma_marks_count(ls, lows, n - 1);
        lemma_pass_excludes_failure(lows[n - 1]);
        reveal(Seq::filter);
        assert(lows.take(n).drop_last() =~= lows.take(n - 1));
        assert(lows.take(n).last() == lows[n - 1]);
    } else {
        assert(lows.take(n) =~= Seq::<Seq<char>>::empty());
    }
}

/// When some line reports a test that passed or failed, the results are
/// those lines and the summary lines are not read: the passed count is the
/// number of lines that report a pass, the failed count the number of lines
/// that report a failure, the total their sum, and one failed test is named
/// per failure, each the name of a line that reports a failure.
pub proof fn lemma_marked_lines_counted(ls: Seq<Seq<char>>, lows: Seq<Seq<char>>)
    requires
        lows.len() == ls.len(),
        pass_count(lows) + failure_count(lows) > 0,
        pass_count(lows) + failure_count(lows) <= u32::MAX,
    ensures
        counts_fit(ls, lows),
        test_results_model(ls, lows).passed == pass_count(lows),
        test_results_model(ls, lows).failed == failure_count(lows),
        test_results_model(ls, lows).total == pass_count(lows) + failure_count(lows),
        test_results_model(ls, lows).details.len() == failure_count(lows),
        forall|k: int|
            0 <= k < test_results_model(ls, lows).details.len() ==> names_failed_line(
                ls,
                lows,
                #[trigger] test_results_model(ls, lows).details[k],
                ls.len() as int,
            ),
{
    lemma_marks_count(ls, lows, ls.len() as int);
    lemma_marks_names(ls, lows, ls.len() as int);
    lemma_marks_name_failures(ls, lows, ls.len() as int);
    let n = ls.len() as int;
    assert forall|k: int| 0 <= k < test_results_model(ls, lows).details.len() implies names_failed_line(
        ls,
        lows,
        #[trigger] test_results_model(ls, lows).details[k],
        n,
    ) by {
        assert(test_results_model(ls, lows).details[k] == marks(ls, lows, n).2[k]);
    }
    assert(lows.take(ls.len() as int) =~= lows);
}

/// `name` is the name of one of the first `n` lines, a line that reports a failure.
pub open spec fn names_failed_line(ls: Seq<Seq<char>>, lows: Seq<Seq<char>>, name: Seq<char>, n: int) -> bool {
    exists|j: int| 0 <= j < n && reports_failure(#[trigger] lows[j]) && name == test_name(ls[j])
}

/// Among the first `n` lines, every failed test named is the name of a line
/// that reports a failure.
pub proof fn lemma_marks_name_failures(ls: Seq<Seq<char>>, lows: Seq<Seq<char>>, n: int)
    requires
        0 <= n <= lows.len(),
    ensures
        forall|k: int|
            0 <= k < marks(ls, lows, n).2.len() ==> names_failed_line(ls, lows, #[trigger] marks(ls, lows, n).2[k], n),
    decreases n,
{
    if n > 0 {
        lemma_marks_name_failures(ls, lows, n - 1);
        assert forall|k: int| 0 <= k < marks(ls, lows, n).2.len() implies names_failed_line(
            ls,
            lows,
            #[trigger] marks(ls, lows, n).2[k],
            n,
        ) by {
            if k < marks(ls, lows, n - 1).2.len() {
                assert(marks(ls, lows, n).2[k] == marks(ls, lows, n - 1).2[k]);
                assert(names_failed_line(ls, lows, marks(ls, lows, n - 1).2[k], n - 1));
                let j = choose|j: int|
                    0 <= j < n - 1 && reports_failure(#[trigger] lows[j]) && marks(ls, lows, n - 1).2[k] == test_name(
                        ls[j],
                    );
                assert(reports_failure(lows[j]));
            } else {
                assert(reports_failure(lows[n - 1]));
            }
        }
    }
}

/// Among the first `n` lines, one failed test is named per failure reported.
pub proof fn lemma_marks_names(ls: Seq<Seq<char>>, lows: Seq<Seq<char>>, n: int)
    ensures
        marks(ls, lows, n).2.len() == marks(ls, lows, n).1,
    decreases n,
{
    if n > 0 {
        lemma_marks_names(ls, lows, n - 1);
    }
}

} // verus!
