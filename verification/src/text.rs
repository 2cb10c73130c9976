//! Character-level string operations with their specifications.
//!
//! Every operation here is stated over the character sequence of a string
//! (`s@`), so that callers can reason about trimming, case folding,
//! searching and replacing without looking at the implementations.

use vstd::prelude::*;

verus! {

pub assume_specification[ String::push ](s: &mut String, ch: char)
    ensures
        final(s)@ == old(s)@.push(ch),
;

/// Unicode `White_Space`, the property that `char::is_whitespace` and
/// `str::trim` use.
pub open spec fn is_ws(c: char) -> bool {
    let u = c as u32;
    ||| 9 <= u <= 13
    ||| u == 32
    ||| u == 0x85
    ||| u == 0xA0
    ||| u == 0x1680
    ||| 0x2000 <= u <= 0x200A
    ||| u == 0x2028
    ||| u == 0x2029
    ||| u == 0x202F
    ||| u == 0x205F
    ||| u == 0x3000
}

pub fn is_whitespace(c: char) -> (b: bool)
    ensures
        b == is_ws(c),
{
    let u = c as u32;
    (9 <= u && u <= 13) || u == 32 || u == 0x85 || u == 0xA0 || u == 0x1680 || (0x2000 <= u && u
        <= 0x200A) || u == 0x2028 || u == 0x2029 || u == 0x202F || u == 0x205F || u == 0x3000
}

/// Index of the first character at or after `i` that is not white space.
pub open spec fn lead_ws(s: Seq<char>, i: int) -> int
    decreases s.len() - i,
{
    if 0 <= i < s.len() && is_ws(s[i]) {
        lead_ws(s, i + 1)
    } else {
        i
    }
}

/// End of `s.take(j)` once trailing white space is dropped.
pub open spec fn trail_ws(s: Seq<char>, j: int) -> int
    decreases j,
{
    if 0 < j <= s.len() && is_ws(s[j - 1]) {
        trail_ws(s, j - 1)
    } else {
        j
    }
}

/// `str::trim`: leading and trailing white space removed.
pub open spec fn trim(s: Seq<char>) -> Seq<char> {
    let a = lead_ws(s, 0);
    let b = trail_ws(s, s.len() as int);
    if a < b {
        s.subrange(a, b)
    } else {
        Seq::empty()
    }
}

/// Index of the first character at or after `i` that differs from `c`.
pub open spec fn lead_char(s: Seq<char>, i: int, c: char) -> int
    decreases s.len() - i,
{
    if 0 <= i < s.len() && s[i] == c {
        lead_char(s, i + 1, c)
    } else {
        i
    }
}

/// End of `s.take(j)` once trailing copies of `c` are dropped.
pub open spec fn trail_char(s: Seq<char>, j: int, c: char) -> int
    decreases j,
{
    if 0 < j <= s.len() && s[j - 1] == c {
        trail_char(s, j - 1, c)
    } else {
        j
    }
}

/// `str::trim_start_matches(c)`.
pub open spec fn trim_start_char(s: Seq<char>, c: char) -> Seq<char> {
    s.subrange(lead_char(s, 0, c), s.len() as int)
}

/// `str::trim_end_matches(c)`.
pub open spec fn trim_end_char(s: Seq<char>, c: char) -> Seq<char> {
    s.subrange(0, trail_char(s, s.len() as int, c))
}

pub proof fn lemma_lead_ws_bounds(s: Seq<char>, i: int)
    requires
        0 <= i <= s.len(),
    ensures
        i <= lead_ws(s, i) <= s.len(),
        lead_ws(s, i) < s.len() ==> !is_ws(s[lead_ws(s, i)]),
        forall|k: int| i <= k < lead_ws(s, i) ==> is_ws(#[trigger] s[k]),
    decreases s.len() - i,
{
    if i < s.len() && is_ws(s[i]) {
        lemma_lead_ws_bounds(s, i + 1);
    }
}

pub proof fn lemma_trail_ws_bounds(s: Seq<char>, j: int)
    requires
        0 <= j <= s.len(),
    ensures
        0 <= trail_ws(s, j) <= j,
        trail_ws(s, j) > 0 ==> !is_ws(s[trail_ws(s, j) - 1]),
        forall|k: int| trail_ws(s, j) <= k < j ==> is_ws(#[trigger] s[k]),
    decreases j,
{
    if 0 < j && is_ws(s[j - 1]) {
        lemma_trail_ws_bounds(s, j - 1);
    }
}

/// Trimming a trimmed text changes nothing.
pub proof fn lemma_trim_idempotent(s: Seq<char>)
    ensures
        trim(trim(s)) == trim(s),
{
    let t = trim(s);
    lemma_lead_ws_bounds(s, 0);
    lemma_trail_ws_bounds(s, s.len() as int);
    if t.len() > 0 {
        assert(!is_ws(t[0]));
        assert(!is_ws(t[t.len() - 1]));
        assert(lead_ws(t, 0) == 0);
        assert(trail_ws(t, t.len() as int) == t.len());
        assert(t.subrange(0, t.len() as int) =~= t);
    }
}

pub proof fn lemma_lead_char_bounds(s: Seq<char>, i: int, c: char)
    requires
        0 <= i <= s.len(),
    ensures
        i <= lead_char(s, i, c) <= s.len(),
        lead_char(s, i, c) < s.len() ==> s[lead_char(s, i, c)] != c,
        forall|k: int| i <= k < lead_char(s, i, c) ==> #[trigger] s[k] == c,
    decreases s.len() - i,
{
    if i < s.len() && s[i] == c {
        lemma_lead_char_bounds(s, i + 1, c);
    }
}

pub proof fn lemma_trail_char_bounds(s: Seq<char>, j: int, c: char)
    requires
        0 <= j <= s.len(),
    ensures
        0 <= trail_char(s, j, c) <= j,
        trail_char(s, j, c) > 0 ==> s[trail_char(s, j, c) - 1] != c,
        forall|k: int| trail_char(s, j, c) <= k < j ==> #[trigger] s[k] == c,
    decreases j,
{
    if 0 < j && s[j - 1] == c {
        lemma_trail_char_bounds(s, j - 1, c);
    }
}

/// The characters of `s`, in order.
pub fn chars_of(s: &str) -> (out: Vec<char>)
    ensures
        out@ == s@,
{
    let mut out: Vec<char> = Vec::new();
    for c in it: s.chars()
        invariant
            out@ == it.seq().take(it.index()),
            it.seq() == s@,
    {
        out.push(c);
    }
    out
}

/// The string made of `v[lo..hi]`.
pub fn string_of_range(v: &Vec<char>, lo: usize, hi: usize) -> (out: String)
    requires
        lo <= hi <= v.len(),
    ensures
        out@ == v@.subrange(lo as int, hi as int),
{
    let mut out = String::new();
    let mut i = lo;
    while i < hi
        invariant
            lo <= i <= hi <= v.len(),
            out@ == v@.subrange(lo as int, i as int),
        decreases hi - i,
    {
        out.push(v[i]);
        i = i + 1;
    }
    out
}

pub fn string_of_chars(v: &Vec<char>) -> (out: String)
    ensures
        out@ == v@,
{
    let out = string_of_range(v, 0, v.len());
    assert(v@.subrange(0, v@.len() as int) == v@);
    out
}

/// Appends `t` to `s`.
pub fn push_str(s: &mut String, t: &str)
    ensures
        final(s)@ == old(s)@ + t@,
{
    let v = chars_of(t);
    let ghost start = s@;
    let mut i: usize = 0;
    while i < v.len()
        invariant
            i <= v.len(),
            v@ == t@,
            s@ == start + v@.subrange(0, i as int),
        decreases v.len() - i,
    {
        s.push(v[i]);
        i = i + 1;
        assert(v@.subrange(0, i as int) == v@.subrange(0, i - 1) + seq![v@[i - 1]]);
    }
    assert(v@.subrange(0, v@.len() as int) == v@);
}

/// The characters of each string, in order.
pub open spec fn strings_view(v: Seq<String>) -> Seq<Seq<char>> {
    v.map_values(|s: String| s@)
}

/// The characters of an optional string.
pub open spec fn opt_text(o: Option<String>) -> Option<Seq<char>> {
    match o {
        Some(s) => Some(s@),
        None => None,
    }
}

/// The characters of an optional string slice.
pub open spec fn opt_str_text(o: Option<&str>) -> Option<Seq<char>> {
    match o {
        Some(s) => Some(s@),
        None => None,
    }
}

/// `s` with `x` added at the end, unless it is there already.
pub open spec fn pushed_unique(s: Seq<Seq<char>>, x: Seq<char>) -> Seq<Seq<char>> {
    if s.contains(x) {
        s
    } else {
        s.push(x)
    }
}

/// Adding only what is not there keeps a list free of repeats.
pub proof fn lemma_pushed_unique_distinct(s: Seq<Seq<char>>, x: Seq<char>)
    requires
        s.no_duplicates(),
    ensures
        pushed_unique(s, x).no_duplicates(),
{
    if !s.contains(x) {
        let t = s.push(x);
        assert forall|a: int, b: int| 0 <= a < t.len() && 0 <= b < t.len() && a != b implies t[a] != t[b] by {
            if a == s.len() as int {
                assert(s[b] == t[b]);
            } else if b == s.len() as int {
                assert(s[a] == t[a]);
            }
        }
    }
}

/// A fresh copy of `s`.
pub fn copy_str(s: &str) -> (out: String)
    ensures
        out@ == s@,
{
    let mut out = String::new();
    push_str(&mut out, s);
    out
}

/// Whether two strings hold the same characters.
pub fn same_text(a: &str, b: &str) -> (out: bool)
    ensures
        out == (a@ == b@),
{
    let x = copy_str(a);
    let y = copy_str(b);
    x == y
}

/// Adds `item` to `list` unless an equal text is listed.
pub fn push_unique(list: &mut Vec<String>, item: String)
    ensures
        strings_view(final(list)@) == pushed_unique(strings_view(old(list)@), item@),
{
    let mut i: usize = 0;
    while i < list.len()
        invariant
            i <= list.len(),
            forall|k: int| 0 <= k < i ==> list@[k]@ != item@,
        decreases list.len() - i,
    {
        if same_text(list[i].as_str(), item.as_str()) {
            proof {
                assert(strings_view(list@)[i as int] == item@);
            }
            return;
        }
        i = i + 1;
    }
    proof {
        assert forall|k: int| 0 <= k < strings_view(list@).len() implies strings_view(list@)[k]
            != item@ by {
            assert(strings_view(list@)[k] == list@[k]@);
        }
    }
    let ghost before = list@;
    list.push(item);
    proof {
        assert(strings_view(list@) =~= strings_view(before).push(list@[before.len() as int]@));
    }
}

/// `str::trim`.
pub fn trim_str(s: &str) -> (out: String)
    ensures
        out@ == trim(s@),
{
    let v = chars_of(s);
    let n = v.len();
    let mut a: usize = 0;
    while a < n && is_whitespace(v[a])
        invariant
            a <= n == v@.len(),
            v@ == s@,
            lead_ws(v@, 0) == lead_ws(v@, a as int),
        decreases n - a,
    {
        a = a + 1;
    }
    let mut b: usize = n;
    while b > 0 && is_whitespace(v[b - 1])
        invariant
            b <= n == v@.len(),
            v@ == s@,
            trail_ws(v@, n as int) == trail_ws(v@, b as int),
        decreases b,
    {
        b = b - 1;
    }
    if a < b {
        string_of_range(&v, a, b)
    } else {
        String::new()
    }
}

/// `str::trim_start_matches(c)`.
pub fn trim_start_char_str(s: &str, c: char) -> (out: String)
    ensures
        out@ == trim_start_char(s@, c),
{
    let v = chars_of(s);
    let n = v.len();
    let mut a: usize = 0;
    while a < n && v[a] == c
        invariant
            a <= n == v@.len(),
            v@ == s@,
            lead_char(v@, 0, c) == lead_char(v@, a as int, c),
        decreases n - a,
    {
        a = a + 1;
    }
    string_of_range(&v, a, n)
}

/// `str::trim_end_matches(c)`.
pub fn trim_end_char_str(s: &str, c: char) -> (out: String)
    ensures
        out@ == trim_end_char(s@, c),
{
    let v = chars_of(s);
    let n = v.len();
    let mut b: usize = n;
    while b > 0 && v[b - 1] == c
        invariant
            b <= n == v@.len(),
            v@ == s@,
            trail_char(v@, n as int, c) == trail_char(v@, b as int, c),
        decreases b,
    {
        b = b - 1;
    }
    proof {
        lemma_trail_char_bounds(v@, n as int, c);
    }
    string_of_range(&v, 0, b)
}


/// `char::to_ascii_lowercase`.
pub open spec fn lower_char(c: char) -> char {
    if 'A' <= c <= 'Z' {
        ((c as u32) + 32) as char
    } else {
        c
    }
}

/// `str::to_ascii_lowercase`.
pub open spec fn lower(s: Seq<char>) -> Seq<char> {
    Seq::new(s.len(), |i: int| lower_char(s[i]))
}

/// `str::replace(from, to)` for single characters.
pub open spec fn replace_char(s: Seq<char>, from: char, to: char) -> Seq<char> {
    Seq::new(s.len(), |i: int| if s[i] == from { to } else { s[i] })
}

/// `p` occurs in `s` starting at index `i`.
pub open spec fn occurs_at(s: Seq<char>, p: Seq<char>, i: int) -> bool {
    0 <= i && i + p.len() <= s.len() && s.subrange(i, i + p.len()) == p
}

/// `str::contains(p)`.
pub open spec fn contains(s: Seq<char>, p: Seq<char>) -> bool {
    exists|i: int| occurs_at(s, p, i)
}

/// `str::starts_with(p)`.
pub open spec fn starts_with(s: Seq<char>, p: Seq<char>) -> bool {
    occurs_at(s, p, 0)
}

/// `str::ends_with(p)`.
pub open spec fn ends_with(s: Seq<char>, p: Seq<char>) -> bool {
    occurs_at(s, p, s.len() - p.len())
}

/// `str::replace(pat, rep)` for a non-empty pattern: occurrences are
/// replaced from left to right without overlapping.
pub open spec fn replace_all(s: Seq<char>, pat: Seq<char>, rep: Seq<char>) -> Seq<char>
    decreases s.len(),
{
    if s.len() == 0 || pat.len() == 0 {
        s
    } else if occurs_at(s, pat, 0) {
        rep + replace_all(s.skip(pat.len() as int), pat, rep)
    } else {
        seq![s[0]] + replace_all(s.drop_first(), pat, rep)
    }
}

pub fn to_lower_char(c: char) -> (out: char)
    ensures
        out == lower_char(c),
{
    if 'A' <= c && c <= 'Z' {
        let u = (c as u8) + 32;
        assert(u as u32 == (c as u32) + 32);
        u as char
    } else {
        c
    }
}

/// `str::to_ascii_lowercase`.
pub fn ascii_lowercase(s: &str) -> (out: String)
    ensures
        out@ == lower(s@),
{
    let v = chars_of(s);
    let mut out = String::new();
    let mut i: usize = 0;
    while i < v.len()
        invariant
            i <= v.len(),
            v@ == s@,
            out@ == lower(s@).take(i as int),
        decreases v.len() - i,
    {
        let c = to_lower_char(v[i]);
        out.push(c);
        i = i + 1;
        assert(out@ =~= lower(s@).take(i as int));
    }
    assert(lower(s@).take(i as int) =~= lower(s@));
    out
}

/// `str::replace(from, to)` for single characters.
pub fn replace_char_str(s: &str, from: char, to: char) -> (out: String)
    ensures
        out@ == replace_char(s@, from, to),
{
    let v = chars_of(s);
    let mut out = String::new();
    let mut i: usize = 0;
    while i < v.len()
        invariant
            i <= v.len(),
            v@ == s@,
            out@ == replace_char(s@, from, to).take(i as int),
        decreases v.len() - i,
    {
        let c = if v[i] == from {
            to
        } else {
            v[i]
        };
        out.push(c);
        i = i + 1;
        assert(out@ =~= replace_char(s@, from, to).take(i as int));
    }
    assert(replace_char(s@, from, to).take(i as int) =~= replace_char(s@, from, to));
    out
}

/// Whether `p` occurs in `v` at index `i`.
pub fn occurs_at_vec(v: &Vec<char>, p: &Vec<char>, i: usize) -> (b: bool)
    ensures
        b == occurs_at(v@, p@, i as int),
{
    if i > v.len() || p.len() > v.len() - i {
        return false;
    }
    let mut k: usize = 0;
    while k < p.len()
        invariant
            k <= p.len(),
            i + p.len() <= v.len(),
            forall|j: int| 0 <= j < k ==> v@[i + j] == p@[j],
        decreases p.len() - k,
    {
        if v[i + k] != p[k] {
            assert(v@.subrange(i as int, i + p.len())[k as int] != p@[k as int]);
            return false;
        }
        k = k + 1;
    }
    assert(v@.subrange(i as int, i + p.len()) =~= p@);
    true
}

/// `str::contains(p)`.
pub fn contains_str(s: &str, p: &str) -> (b: bool)
    ensures
        b == contains(s@, p@),
{
    let v = chars_of(s);
    let w = chars_of(p);
    if w.len() > v.len() {
        assert forall|i: int| !occurs_at(s@, p@, i) by {}
        return false;
    }
    let last = v.len() - w.len();
    let mut i: usize = 0;
    while i < last
        invariant
            w.len() <= v.len(),
            last == v.len() - w.len(),
            v@ == s@,
            w@ == p@,
            i <= last,
            forall|j: int| 0 <= j < i ==> !occurs_at(s@, p@, j),
        decreases last - i,
    {
        if occurs_at_vec(&v, &w, i) {
            return true;
        }
        i = i + 1;
    }
    if occurs_at_vec(&v, &w, last) {
        return true;
    }
    assert forall|j: int| !occurs_at(s@, p@, j) by {}
    false
}

/// `str::starts_with(p)`.
pub fn starts_with_str(s: &str, p: &str) -> (b: bool)
    ensures
        b == starts_with(s@, p@),
{
    let v = chars_of(s);
    let w = chars_of(p);
    occurs_at_vec(&v, &w, 0)
}

/// `str::ends_with(p)`.
pub fn ends_with_str(s: &str, p: &str) -> (b: bool)
    ensures
        b == ends_with(s@, p@),
{
    let v = chars_of(s);
    let w = chars_of(p);
    if w.len() > v.len() {
        return false;
    }
    occurs_at_vec(&v, &w, v.len() - w.len())
}

/// `str::replace(pat, rep)`.
pub fn replace_str(s: &str, pat: &str, rep: &str) -> (out: String)
    requires
        pat@.len() > 0,
    ensures
        out@ == replace_all(s@, pat@, rep@),
{
    let v = chars_of(s);
    let w = chars_of(pat);
    let mut out = String::new();
    let mut i: usize = 0;
    assert(v@.skip(0) =~= v@);
    assert(out@ + replace_all(v@.skip(0), pat@, rep@) =~= replace_all(s@, pat@, rep@));
    while i < v.len()
        invariant
            i <= v.len(),
            v@ == s@,
            w@ == pat@,
            w@.len() > 0,
            out@ + replace_all(v@.skip(i as int), pat@, rep@) == replace_all(s@, pat@, rep@),
        decreases v.len() - i,
    {
        let ghost rest = v@.skip(i as int);
        if occurs_at_vec(&v, &w, i) {
            assert(rest.subrange(0, w@.len() as int) =~= v@.subrange(i as int, i + w@.len()));
            assert(rest.skip(w@.len() as int) =~= v@.skip(i + w@.len()));
            push_str(&mut out, rep);
            i = i + w.len();
            assert(out@ + replace_all(v@.skip(i as int), pat@, rep@) =~= replace_all(s@, pat@, rep@));
        } else {
            assert(!occurs_at(rest, pat@, 0)) by {
                if occurs_at(rest, pat@, 0) {
                    assert(rest.subrange(0, w@.len() as int) =~= v@.subrange(i as int, i + w@.len()));
                }
            }
            assert(rest.drop_first() =~= v@.skip(i + 1));
            out.push(v[i]);
            i = i + 1;
            assert(out@ + replace_all(v@.skip(i as int), pat@, rep@) =~= replace_all(s@, pat@, rep@));
        }
    }
    assert(v@.skip(i as int) =~= Seq::<char>::empty());
    assert(out@ + Seq::<char>::empty() =~= out@);
    out
}


pub open spec fn digit_char(d: nat) -> char {
    ((d % 10) + 48) as char
}

/// The decimal digits of `n`, as `to_string` writes them.
pub open spec fn decimal(n: nat) -> Seq<char>
    decreases n,
{
    if n < 10 {
        seq![digit_char(n)]
    } else {
        decimal(n / 10).push(digit_char(n % 10))
    }
}

fn digit(d: u128) -> (c: char)
    requires
        d < 10,
    ensures
        c == digit_char(d as nat),
{
    let b = (d as u8) + 48;
    b as char
}

/// The decimal text of `n`.
pub fn decimal_string(n: u128) -> (out: String)
    ensures
        out@ == decimal(n as nat),
    decreases n,
{
    if n < 10 {
        let mut out = String::new();
        out.push(digit(n));
        out
    } else {
        let mut out = decimal_string(n / 10);
        out.push(digit(n % 10));
        out
    }
}

/// What `str::to_lowercase` makes of a text (full Unicode lower-casing).
pub uninterp spec fn unicode_lower(s: Seq<char>) -> Seq<char>;

/// `str::to_lowercase`. The contract claims that the result is the named
/// function of the text.
#[verifier::external_body]
pub(crate) fn to_lowercase(s: &str) -> (out: String)
    ensures
        out@ == unicode_lower(s@),
{
    s.to_lowercase()
}

} // verus!
