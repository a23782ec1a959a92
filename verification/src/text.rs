//! Character-level text operations with their mathematical models:
//! searching, prefix tests, trimming and decimal rendering.
use vstd::prelude::*;

verus! {

/// `String::push` appends one character to the end of the string
/// (std documentation: "Appends the given char to the end of this String").
pub assume_specification[ String::push ](string: &mut String, ch: char)
    ensures
        final(string)@ == old(string)@.push(ch),
;

// ---------------------------------------------------------------------------
// Models
// ---------------------------------------------------------------------------

/// `pat` occurs in `s` starting at index `i`.
pub open spec fn occurs_at(s: Seq<char>, pat: Seq<char>, i: int) -> bool {
    0 <= i && i + pat.len() <= s.len() && s.subrange(i, i + pat.len()) == pat
}

/// `pat` occurs somewhere in `s`.
pub open spec fn contains(s: Seq<char>, pat: Seq<char>) -> bool {
    exists|i: int| occurs_at(s, pat, i)
}

/// The first index at or after `k` where `pat` occurs in `s`.
pub open spec fn find_from(s: Seq<char>, pat: Seq<char>, k: int) -> Option<int>
    decreases s.len() + 1 - k,
{
    if k < 0 || k + pat.len() > s.len() {
        None
    } else if occurs_at(s, pat, k) {
        Some(k)
    } else {
        find_from(s, pat, k + 1)
    }
}

/// The first index where `pat` occurs in `s`.
pub open spec fn find(s: Seq<char>, pat: Seq<char>) -> Option<int> {
    find_from(s, pat, 0)
}

/// `s` begins with `pre`.
pub open spec fn starts_with(s: Seq<char>, pre: Seq<char>) -> bool {
    pre.len() <= s.len() && s.subrange(0, pre.len() as int) == pre
}

/// `s` ends with `suf`.
pub open spec fn ends_with(s: Seq<char>, suf: Seq<char>) -> bool {
    suf.len() <= s.len() && s.subrange(s.len() - suf.len(), s.len() as int) == suf
}

/// Unicode `White_Space`, the property that `char::is_whitespace` tests.
pub open spec fn is_ws(c: char) -> bool {
    let n = c as u32;
    (0x9 <= n && n <= 0xd) || n == 0x20 || n == 0x85 || n == 0xa0 || n == 0x1680
        || (0x2000 <= n && n <= 0x200a) || n == 0x2028 || n == 0x2029 || n == 0x202f
        || n == 0x205f || n == 0x3000
}

/// `s` without its leading white space.
pub open spec fn trim_start(s: Seq<char>) -> Seq<char>
    decreases s.len(),
{
    if s.len() > 0 && is_ws(s[0]) {
        trim_start(s.drop_first())
    } else {
        s
    }
}

/// `s` without its trailing white space.
pub open spec fn trim_end(s: Seq<char>) -> Seq<char>
    decreases s.len(),
{
    if s.len() > 0 && is_ws(s.last()) {
        trim_end(s.drop_last())
    } else {
        s
    }
}

/// `s` without leading and trailing white space (`str::trim`).
pub open spec fn trim(s: Seq<char>) -> Seq<char> {
    trim_end(trim_start(s))
}

/// The decimal digit character for `d < 10`.
pub open spec fn digit_char(d: nat) -> char {
    if d == 0 { '0' }
    else if d == 1 { '1' }
    else if d == 2 { '2' }
    else if d == 3 { '3' }
    else if d == 4 { '4' }
    else if d == 5 { '5' }
    else if d == 6 { '6' }
    else if d == 7 { '7' }
    else if d == 8 { '8' }
    else { '9' }
}

/// The decimal rendering of `n`, without sign or leading zeros (`Display` for integers).
pub open spec fn decimal(n: nat) -> Seq<char>
    decreases n,
{
    if n < 10 {
        seq![digit_char(n)]
    } else {
        decimal(n / 10).push(digit_char(n % 10))
    }
}

/// The lines `ls` joined with `sep` between consecutive ones.
pub open spec fn join(ls: Seq<Seq<char>>, sep: Seq<char>) -> Seq<char>
    decreases ls.len(),
{
    if ls.len() == 0 {
        Seq::empty()
    } else if ls.len() == 1 {
        ls[0]
    } else {
        join(ls.drop_last(), sep) + sep + ls.last()
    }
}

/// The views of a sequence of strings.
pub open spec fn string_views(v: Seq<String>) -> Seq<Seq<char>> {
    v.map_values(|s: String| s@)
}

/// The Unicode lowercase mapping of a text, as `str::to_lowercase` computes it
/// (every character replaced by its `Lowercase` mapping, with the final-sigma rule).
pub uninterp spec fn lowercase(s: Seq<char>) -> Seq<char>;

// ---------------------------------------------------------------------------
// Lemmas
// ---------------------------------------------------------------------------

/// What `find_from` returns: the first occurrence at or after `k`, or none at all.
pub proof fn lemma_find_from(s: Seq<char>, pat: Seq<char>, k: int)
    requires
        0 <= k,
    ensures
        match find_from(s, pat, k) {
            Some(i) => k <= i && occurs_at(s, pat, i) && forall|j: int|
                k <= j < i ==> !occurs_at(s, pat, j),
            None => forall|j: int| k <= j ==> !occurs_at(s, pat, j),
        },
    decreases s.len() + 1 - k,
{
    if k + pat.len() > s.len() {
    } else if occurs_at(s, pat, k) {
    } else {
        lemma_find_from(s, pat, k + 1);
    }
}

/// `find` is some exactly when `pat` occurs in `s`.
pub proof fn lemma_find_contains(s: Seq<char>, pat: Seq<char>)
    ensures
        find(s, pat) is Some <==> contains(s, pat),
        find(s, pat) matches Some(i) ==> occurs_at(s, pat, i) && forall|j: int|
            0 <= j < i ==> !occurs_at(s, pat, j),
{
    lemma_find_from(s, pat, 0);
    if contains(s, pat) {
        let i = choose|i: int| occurs_at(s, pat, i);
        assert(0 <= i);
    }
}

/// Searching a suffix of `s` is searching `s` from the suffix's start.
pub proof fn lemma_find_from_suffix(s: Seq<char>, pat: Seq<char>, a: int, k: int)
    requires
        0 <= a <= s.len(),
        0 <= k,
    ensures
        find_from(s.subrange(a, s.len() as int), pat, k) == match find_from(s, pat, a + k) {
            Some(p) => Some(p - a),
            None => None::<int>,
        },
    decreases s.len() + 1 - (a + k),
{
    let t = s.subrange(a, s.len() as int);
    if k + pat.len() > t.len() {
    } else {
        assert(t.subrange(k, k + pat.len()) =~= s.subrange(a + k, a + k + pat.len()));
        if !occurs_at(s, pat, a + k) {
            lemma_find_from_suffix(s, pat, a, k + 1);
        }
    }
}

/// A text that occurs in `a` occurs in `a` followed by anything, and in
/// anything followed by `a`.
pub proof fn lemma_contains_concat(a: Seq<char>, b: Seq<char>, pat: Seq<char>)
    ensures
        contains(a, pat) ==> contains(a + b, pat) && contains(b + a, pat),
{
    if contains(a, pat) {
        let i = choose|i: int| occurs_at(a, pat, i);
        assert((a + b).subrange(i, i + pat.len()) =~= a.subrange(i, i + pat.len()));
        assert(occurs_at(a + b, pat, i));
        assert((b + a).subrange(b.len() + i, b.len() + i + pat.len()) =~= a.subrange(i, i + pat.len()));
        assert(occurs_at(b + a, pat, b.len() + i));
    }
}

/// Every line occurs in the lines joined with a separator.
pub proof fn lemma_join_contains(ls: Seq<Seq<char>>, sep: Seq<char>, i: int)
    requires
        0 <= i < ls.len(),
    ensures
        contains(join(ls, sep), ls[i]),
    decreases ls.len(),
{
    if ls.len() == 1 {
        assert(join(ls, sep).subrange(0, ls[0].len() as int) =~= ls[0]);
        assert(occurs_at(join(ls, sep), ls[0], 0));
    } else if i == ls.len() - 1 {
        let head = join(ls.drop_last(), sep) + sep;
        assert(join(ls, sep) == head + ls.last());
        assert((head + ls.last()).subrange(head.len() as int, (head.len() + ls.last().len()) as int) =~= ls.last());
        assert(occurs_at(join(ls, sep), ls[i], head.len() as int));
    } else {
        lemma_join_contains(ls.drop_last(), sep, i);
        assert(ls.drop_last()[i] == ls[i]);
        lemma_contains_concat(join(ls.drop_last(), sep), sep + ls.last(), ls[i]);
        assert(join(ls, sep) =~= join(ls.drop_last(), sep) + (sep + ls.last()));
    }
}

/// Every text occurs in itself.
pub proof fn lemma_contains_self(s: Seq<char>)
    ensures
        contains(s, s),
{
    assert(s.subrange(0, s.len() as int) =~= s);
    assert(occurs_at(s, s, 0));
}

/// What occurs in a text that occurs in `a` occurs in `a`.
pub proof fn lemma_contains_trans(a: Seq<char>, b: Seq<char>, c: Seq<char>)
    requires
        contains(a, b),
        contains(b, c),
    ensures
        contains(a, c),
{
    let i = choose|i: int| occurs_at(a, b, i);
    let j = choose|j: int| occurs_at(b, c, j);
    assert(a.subrange(i + j, i + j + c.len()) =~= b.subrange(j, j + c.len()));
    assert(occurs_at(a, c, i + j));
}

/// Joining two non-empty runs of lines is joining each and putting the
/// separator between them.
pub proof fn lemma_join_append(a: Seq<Seq<char>>, b: Seq<Seq<char>>, sep: Seq<char>)
    requires
        a.len() > 0,
        b.len() > 0,
    ensures
        join(a + b, sep) == join(a, sep) + sep + join(b, sep),
    decreases b.len(),
{
    assert((a + b).drop_last() =~= a + b.drop_last());
    assert((a + b).last() == b.last());
    if b.len() == 1 {
        assert(a + b.drop_last() =~= a);
    } else {
        lemma_join_append(a, b.drop_last(), sep);
        assert(join(a + b, sep) =~= join(a, sep) + sep + (join(b.drop_last(), sep) + sep + b.last()));
    }
}

/// A run of lines that has a line before it and a line after it occurs in
/// the joined text as whole lines: in order, with the separator on each side.
pub proof fn lemma_join_contains_run(ls: Seq<Seq<char>>, sep: Seq<char>, i: int, j: int)
    requires
        0 < i < j < ls.len(),
    ensures
        contains(join(ls, sep), sep + join(ls.subrange(i, j), sep) + sep),
{
    let a = ls.subrange(0, i);
    let b = ls.subrange(i, j);
    let c = ls.subrange(j, ls.len() as int);
    assert(ls =~= (a + b) + c);
    lemma_join_append(a, b, sep);
    lemma_join_append(a + b, c, sep);
    let pat = sep + join(b, sep) + sep;
    assert(join(ls, sep) =~= join(a, sep) + (pat + join(c, sep)));
    lemma_contains_self(pat);
    lemma_contains_concat(pat, join(c, sep), pat);
    lemma_contains_concat(pat + join(c, sep), join(a, sep), pat);
}

/// The lines joined with a separator begin with the first line.
pub proof fn lemma_join_starts(ls: Seq<Seq<char>>, sep: Seq<char>)
    requires
        ls.len() > 0,
    ensures
        starts_with(join(ls, sep), ls[0]),
    decreases ls.len(),
{
    if ls.len() > 1 {
        lemma_join_starts(ls.drop_last(), sep);
        let a = join(ls.drop_last(), sep);
        assert(ls.drop_last()[0] == ls[0]);
        assert(join(ls, sep) == a + sep + ls.last());
        assert((a + sep + ls.last()).subrange(0, ls[0].len() as int) =~= a.subrange(0, ls[0].len() as int));
    } else {
        assert(join(ls, sep) == ls[0]);
        assert(ls[0].subrange(0, ls[0].len() as int) =~= ls[0]);
    }
}

// ---------------------------------------------------------------------------
// Executable operations
// ---------------------------------------------------------------------------

/// The characters of a string slice, in order.
pub fn chars_of(s: &str) -> (v: Vec<char>)
    ensures
        v@ == s@,
{
    let mut v: Vec<char> = Vec::new();
    for c in it: s.chars()
        invariant
            v@ == it.seq().take(it.index() as int),
            it.seq() == s@,
    {
        v.push(c);
    }
    v
}

/// A string holding `v[lo..hi]`.
pub fn string_from(v: &Vec<char>, lo: usize, hi: usize) -> (s: String)
    requires
        lo <= hi <= v.len(),
    ensures
        s@ == v@.subrange(lo as int, hi as int),
{
    let mut s = String::new();
    let mut i = lo;
    while i < hi
        invariant
            lo <= i <= hi <= v.len(),
            s@ == v@.subrange(lo as int, i as int),
        decreases hi - i,
    {
        s.push(v[i]);
        assert(v@.subrange(lo as int, i + 1) == v@.subrange(lo as int, i as int).push(v@[i as int]));
        i = i + 1;
    }
    s
}

/// Appends `v[lo..hi]` to `s`.
pub fn push_chars(s: &mut String, v: &Vec<char>, lo: usize, hi: usize)
    requires
        lo <= hi <= v.len(),
    ensures
        final(s)@ == old(s)@ + v@.subrange(lo as int, hi as int),
{
    let mut i = lo;
    while i < hi
        invariant
            lo <= i <= hi <= v.len(),
            s@ == old(s)@ + v@.subrange(lo as int, i as int),
        decreases hi - i,
    {
        s.push(v[i]);
        assert(v@.subrange(lo as int, i + 1) == v@.subrange(lo as int, i as int).push(v@[i as int]));
        i = i + 1;
    }
}

/// Appends a string slice to `s`.
pub fn push_str(s: &mut String, t: &str)
    ensures
        final(s)@ == old(s)@ + t@,
{
    s.append(t);
}

/// Does `pat` occur in `s` at index `i`?
pub fn matches_at(s: &Vec<char>, pat: &Vec<char>, i: usize) -> (r: bool)
    ensures
        r == occurs_at(s@, pat@, i as int),
{
    if i > s.len() || pat.len() > s.len() - i {
        return false;
    }
    let mut j: usize = 0;
    while j < pat.len()
        invariant
            i + pat.len() <= s.len(),
            j <= pat.len(),
            forall|k: int| 0 <= k < j ==> s@[i + k] == pat@[k],
        decreases pat.len() - j,
    {
        if s[i + j] != pat[j] {
            assert(s@.subrange(i as int, i + pat.len())[j as int] != pat@[j as int]);
            return false;
        }
        j = j + 1;
    }
    assert(s@.subrange(i as int, i + pat.len()) =~= pat@);
    true
}

/// The first index at or after `from` where `pat` occurs in `s`.
pub fn find_chars(s: &Vec<char>, pat: &Vec<char>, from: usize) -> (r: Option<usize>)
    ensures
        match r {
            Some(i) => find_from(s@, pat@, from as int) == Some(i as int),
            None => find_from(s@, pat@, from as int) is None,
        },
{
    if pat.len() > s.len() || from > s.len() - pat.len() {
        return None;
    }
    let last = s.len() - pat.len();
    let mut k = from;
    loop
        invariant
            from <= k <= last,
            last + pat.len() == s.len(),
            find_from(s@, pat@, from as int) == find_from(s@, pat@, k as int),
        decreases last - k,
    {
        if matches_at(s, pat, k) {
            return Some(k);
        }
        if k == last {
            assert(find_from(s@, pat@, k + 1) is None);
            return None;
        }
        k = k + 1;
    }
}

/// Does `pat` occur in `s`?
pub fn contains_chars(s: &Vec<char>, pat: &Vec<char>) -> (r: bool)
    ensures
        r == contains(s@, pat@),
{
    proof { lemma_find_contains(s@, pat@); }
    find_chars(s, pat, 0).is_some()
}

/// Does the string slice `s` contain `pat`?
pub fn str_contains(s: &str, pat: &str) -> (r: bool)
    ensures
        r == contains(s@, pat@),
{
    let sv = chars_of(s);
    let pv = chars_of(pat);
    contains_chars(&sv, &pv)
}

/// Does `s` start with `pre`?
pub fn starts_with_chars(s: &Vec<char>, pre: &Vec<char>) -> (r: bool)
    ensures
        r == starts_with(s@, pre@),
{
    matches_at(s, pre, 0)
}

/// Is `c` white space (`char::is_whitespace`)?
pub fn is_whitespace(c: char) -> (r: bool)
    ensures
        r == is_ws(c),
{
    let n = c as u32;
    (0x9 <= n && n <= 0xd) || n == 0x20 || n == 0x85 || n == 0xa0 || n == 0x1680
        || (0x2000 <= n && n <= 0x200a) || n == 0x2028 || n == 0x2029 || n == 0x202f
        || n == 0x205f || n == 0x3000
}

/// The bounds `[lo, hi)` of `v` without leading and trailing white space.
pub fn trim_bounds(v: &Vec<char>) -> (r: (usize, usize))
    ensures
        r.0 <= r.1 <= v.len(),
        v@.subrange(r.0 as int, r.1 as int) == trim(v@),
{
    let mut lo: usize = 0;
    assert(v@.subrange(0, v.len() as int) == v@);
    while lo < v.len() && is_whitespace(v[lo])
        invariant
            lo <= v.len(),
            trim_start(v@) == trim_start(v@.subrange(lo as int, v.len() as int)),
        decreases v.len() - lo,
    {
        assert(v@.subrange(lo as int, v.len() as int).drop_first()
            == v@.subrange(lo + 1, v.len() as int));
        lo = lo + 1;
    }
    let mut hi: usize = v.len();
    let ghost t = v@.subrange(lo as int, v.len() as int);
    assert(trim_start(v@) == t);
    while hi > lo && is_whitespace(v[hi - 1])
        invariant
            lo <= hi <= v.len(),
            trim_end(t) == trim_end(v@.subrange(lo as int, hi as int)),
        decreases hi,
    {
        assert(v@.subrange(lo as int, hi as int).drop_last() == v@.subrange(lo as int, hi - 1));
        hi = hi - 1;
    }
    (lo, hi)
}

/// `s` without leading and trailing white space, as characters.
pub fn trim_chars(v: &Vec<char>) -> (r: Vec<char>)
    ensures
        r@ == trim(v@),
{
    let (lo, hi) = trim_bounds(v);
    let mut r: Vec<char> = Vec::new();
    let mut i = lo;
    while i < hi
        invariant
            lo <= i <= hi <= v.len(),
            r@ == v@.subrange(lo as int, i as int),
        decreases hi - i,
    {
        r.push(v[i]);
        assert(v@.subrange(lo as int, i + 1) == v@.subrange(lo as int, i as int).push(v@[i as int]));
        i = i + 1;
    }
    r
}

/// `s.trim()` as an owned string.
pub fn trimmed(s: &str) -> (r: String)
    ensures
        r@ == trim(s@),
{
    let v = chars_of(s);
    let (lo, hi) = trim_bounds(&v);
    string_from(&v, lo, hi)
}

/// The digit character for `d < 10`.
pub fn digit(d: u64) -> (c: char)
    requires
        d < 10,
    ensures
        c == digit_char(d as nat),
{
    if d == 0 { '0' }
    else if d == 1 { '1' }
    else if d == 2 { '2' }
    else if d == 3 { '3' }
    else if d == 4 { '4' }
    else if d == 5 { '5' }
    else if d == 6 { '6' }
    else if d == 7 { '7' }
    else if d == 8 { '8' }
    else { '9' }
}

/// Appends the decimal rendering of `n` to `s`.
pub fn push_decimal(s: &mut String, n: u64)
    ensures
        final(s)@ == old(s)@ + decimal(n as nat),
    decreases n,
{
    if n >= 10 {
        push_decimal(s, n / 10);
        s.push(digit(n % 10));
        assert(old(s)@ + decimal(n as nat) == old(s)@ + decimal((n / 10) as nat) + seq![digit_char((n % 10) as nat)]);
    } else {
        s.push(digit(n));
        assert(decimal(n as nat) == seq![digit_char(n as nat)]);
    }
}

/// The decimal rendering of `n` (`n.to_string()`).
pub fn decimal_string(n: u64) -> (s: String)
    ensures
        s@ == decimal(n as nat),
{
    let mut s = String::new();
    push_decimal(&mut s, n);
    assert(s@ == Seq::<char>::empty() + decimal(n as nat));
    s
}


/// Do two character vectors hold the same characters?
pub fn chars_eq(a: &Vec<char>, b: &Vec<char>) -> (r: bool)
    ensures
        r == (a@ == b@),
{
    if a.len() != b.len() {
        return false;
    }
    let mut i: usize = 0;
    while i < a.len()
        invariant
            a.len() == b.len(),
            i <= a.len(),
            forall|k: int| 0 <= k < i ==> a@[k] == b@[k],
        decreases a.len() - i,
    {
        if a[i] != b[i] {
            return false;
        }
        i = i + 1;
    }
    assert(a@ =~= b@);
    true
}

/// Are two string slices equal?
pub fn str_eq(a: &str, b: &str) -> (r: bool)
    ensures
        r == (a@ == b@),
{
    let av = chars_of(a);
    let bv = chars_of(b);
    chars_eq(&av, &bv)
}

/// A copy of a string slice.
pub fn owned(s: &str) -> (r: String)
    ensures
        r@ == s@,
{
    String::from_str(s)
}

/// The lines joined with `sep` between consecutive ones (`lines.join(sep)`).
pub fn join_strings(lines: &Vec<String>, sep: &str) -> (r: String)
    ensures
        r@ == join(string_views(lines@), sep@),
{
    let ghost ls = string_views(lines@);
    let mut r = String::new();
    let mut i: usize = 0;
    while i < lines.len()
        invariant
            i <= lines.len(),
            ls == string_views(lines@),
            r@ == join(ls.take(i as int), sep@),
        decreases lines.len() - i,
    {
        assert(ls.take(i + 1).drop_last() =~= ls.take(i as int));
        if i != 0 {
            push_str(&mut r, sep);
        } else {
            assert(ls.take(0) =~= Seq::<Seq<char>>::empty());
        }
        push_str(&mut r, lines[i].as_str());
        i = i + 1;
    }
    assert(ls.take(lines.len() as int) =~= ls);
    r
}

/// Calls `str::to_lowercase`. The contract claims only that the result is a
/// function of the characters of `s`: the Unicode tables it applies are not stated.
#[verifier::external_body]
pub(crate) fn to_lowercase(s: &str) -> (r: String)
    ensures
        r@ == lowercase(s@),
{
    s.to_lowercase()
}

/// `name` joined to the directory `base` (a relative name on a Unix path).
pub open spec fn joined_path(base: Seq<char>, name: Seq<char>) -> Seq<char> {
    if base.len() == 0 || base.last() == '/' { base + name } else { base + seq!['/'] + name }
}

/// Joins a relative file name to a directory (`Path::join` on Unix).
pub fn join_path(base: &str, name: &str) -> (p: String)
    ensures
        p@ == joined_path(base@, name@),
{
    let b = chars_of(base);
    let mut p = owned(base);
    if b.len() > 0 && b[b.len() - 1] != '/' {
        p.push('/');
    }
    push_str(&mut p, name);
    p
}

} // verus!
