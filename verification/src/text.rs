//! Character-level string operations with specifications over `Seq<char>`.
//!
//! Every operation here works on Unicode scalar values. Comparisons, prefix and
//! substring tests on `char` sequences agree with the byte-level ones of `str`,
//! because UTF-8 encodes each scalar value as a unique, self-delimiting byte run.
use vstd::prelude::*;
use vstd::string::*;

verus! {

/// The Unicode `White_Space` property, the set that `char::is_whitespace` tests.
pub open spec fn is_ws(c: char) -> bool {
    let u = c as u32;
    ||| 0x09 <= u <= 0x0d
    ||| u == 0x20
    ||| u == 0x85
    ||| u == 0xa0
    ||| u == 0x1680
    ||| 0x2000 <= u <= 0x200a
    ||| u == 0x2028
    ||| u == 0x2029
    ||| u == 0x202f
    ||| u == 0x205f
    ||| u == 0x3000
}

/// Tests whether `c` is white space in the sense of `char::is_whitespace`.
pub fn is_whitespace(c: char) -> (r: bool)
    ensures
        r == is_ws(c),
{
    let u = c as u32;
    (0x09 <= u && u <= 0x0d) || u == 0x20 || u == 0x85 || u == 0xa0 || u == 0x1680 || (0x2000
        <= u && u <= 0x200a) || u == 0x2028 || u == 0x2029 || u == 0x202f || u == 0x205f || u
        == 0x3000
}

/// Index of the first non-white-space character at or after `i` (the length if none).
pub open spec fn first_non_ws(s: Seq<char>, i: int) -> int
    decreases s.len() - i,
{
    if i >= s.len() {
        s.len() as int
    } else if is_ws(s[i]) {
        first_non_ws(s, i + 1)
    } else {
        i
    }
}

/// End (exclusive) of the last non-white-space character before `j` (0 if none).
pub open spec fn end_non_ws(s: Seq<char>, j: int) -> int
    decreases j,
{
    if j <= 0 {
        0
    } else if is_ws(s[j - 1]) {
        end_non_ws(s, j - 1)
    } else {
        j
    }
}

/// `s` without leading and trailing white space, as `str::trim` gives it.
pub open spec fn spec_trim(s: Seq<char>) -> Seq<char> {
    let a = first_non_ws(s, 0);
    let b = end_non_ws(s, s.len() as int);
    if a < b {
        s.subrange(a, b)
    } else {
        Seq::empty()
    }
}

proof fn lemma_end_non_ws_bounds(s: Seq<char>, j: int)
    requires
        0 <= j,
    ensures
        0 <= end_non_ws(s, j) <= j,
    decreases j,
{
    if j > 0 {
        lemma_end_non_ws_bounds(s, j - 1);
    }
}

/// The copy of `s` with leading and trailing white space removed.
pub fn trim(s: &str) -> (r: String)
    ensures
        r@ == spec_trim(s@),
{
    let n = s.unicode_len();
    let mut a: usize = 0;
    while a < n && is_whitespace(s.get_char(a))
        invariant
            a <= n,
            n == s@.len(),
            first_non_ws(s@, 0) == first_non_ws(s@, a as int),
        decreases n - a,
    {
        a = a + 1;
    }
    let mut b: usize = n;
    while b > a && is_whitespace(s.get_char(b - 1))
        invariant
            a <= b <= n,
            n == s@.len(),
            end_non_ws(s@, n as int) == end_non_ws(s@, b as int),
        decreases b,
    {
        b = b - 1;
    }
    proof {
        lemma_end_non_ws_bounds(s@, b as int);
    }
    let sub = s.substring_char(a, b);
    sub.to_owned()
}

/// Whether `s` is empty once trimmed.
pub open spec fn is_blank(s: Seq<char>) -> bool {
    spec_trim(s).len() == 0
}

/// Appends one character to a `String` (`String::push`).
#[verifier::external_body]
pub(crate) fn push_char(s: &mut String, c: char)
    ensures
        final(s)@ == old(s)@.push(c),
{
    s.push(c);
}

/// The characters of `s`, in order.
pub fn chars_of(s: &str) -> (v: Vec<char>)
    ensures
        v@ == s@,
{
    let n = s.unicode_len();
    let mut v: Vec<char> = Vec::new();
    let mut i: usize = 0;
    while i < n
        invariant
            i <= n,
            n == s@.len(),
            v@ == s@.subrange(0, i as int),
        decreases n - i,
    {
        v.push(s.get_char(i));
        i = i + 1;
        assert(v@ =~= s@.subrange(0, i as int));
    }
    assert(v@ =~= s@);
    v
}

/// The `String` made of the characters `v[from..to]`.
pub fn string_from(v: &[char], from: usize, to: usize) -> (r: String)
    requires
        from <= to <= v@.len(),
    ensures
        r@ == v@.subrange(from as int, to as int),
{
    let mut r = String::new();
    let mut i: usize = from;
    while i < to
        invariant
            from <= i <= to,
            to <= v@.len(),
            r@ == v@.subrange(from as int, i as int),
        decreases to - i,
    {
        push_char(&mut r, v[i]);
        i = i + 1;
        assert(r@ =~= v@.subrange(from as int, i as int));
    }
    r
}

/// The `String` whose characters are `s`, joined to `t`.
pub fn concat(s: &str, t: &str) -> (r: String)
    ensures
        r@ == s@ + t@,
{
    let mut r = s.to_owned();
    r.append(t);
    r
}

/// Character-wise equality of two strings.
pub fn str_eq(s: &str, t: &str) -> (r: bool)
    ensures
        r == (s@ == t@),
{
    let a = chars_of(s);
    let b = chars_of(t);
    if a.len() != b.len() {
        return false;
    }
    let mut i: usize = 0;
    while i < a.len()
        invariant
            i <= a@.len(),
            a@ == s@,
            b@ == t@,
            a@.len() == b@.len(),
            a@.subrange(0, i as int) == b@.subrange(0, i as int),
        decreases a@.len() - i,
    {
        if a[i] != b[i] {
            assert(s@[i as int] != t@[i as int]);
            return false;
        }
        i = i + 1;
        assert(a@.subrange(0, i as int) =~= b@.subrange(0, i as int));
    }
    assert(a@ =~= a@.subrange(0, i as int));
    assert(b@ =~= b@.subrange(0, i as int));
    true
}

/// A copy of an optional string.
pub fn str_opt_clone(o: &Option<String>) -> (r: Option<String>)
    ensures
        r is Some == o is Some,
        r matches Some(s) ==> s@ == o->Some_0@,
{
    match o {
        Some(s) => Some(s.clone()),
        None => None,
    }
}

/// `p` occurs in `s` at position `i`.
pub open spec fn matches_at(s: Seq<char>, p: Seq<char>, i: int) -> bool {
    0 <= i && i + p.len() <= s.len() && s.subrange(i, i + p.len()) == p
}

/// `p` occurs somewhere in `s` (`str::contains` with a string pattern).
pub open spec fn has_sub(s: Seq<char>, p: Seq<char>) -> bool {
    exists|i: int| matches_at(s, p, i)
}

/// `s` begins with `p` (`str::starts_with`).
pub open spec fn has_prefix(s: Seq<char>, p: Seq<char>) -> bool {
    matches_at(s, p, 0)
}

/// `s` ends with `p` (`str::ends_with`).
pub open spec fn has_suffix(s: Seq<char>, p: Seq<char>) -> bool {
    p.len() <= s.len() && matches_at(s, p, s.len() - p.len())
}

/// Tests whether `p` occurs in `s` at position `i`.
pub fn matches_at_exec(s: &[char], p: &[char], i: usize) -> (r: bool)
    ensures
        r == matches_at(s@, p@, i as int),
{
    if i > s.len() || p.len() > s.len() - i {
        return false;
    }
    let mut k: usize = 0;
    while k < p.len()
        invariant
            k <= p@.len(),
            i + p.len() <= s.len(),
            forall|m: int| 0 <= m < k ==> s@[i + m] == p@[m],
        decreases p@.len() - k,
    {
        if s[i + k] != p[k] {
            assert(s@.subrange(i as int, i + p@.len())[k as int] != p@[k as int]);
            return false;
        }
        k = k + 1;
    }
    assert(s@.subrange(i as int, i + p@.len()) =~= p@);
    true
}

/// Tests whether `s` begins with `p`.
pub fn starts_with(s: &str, p: &str) -> (r: bool)
    ensures
        r == has_prefix(s@, p@),
{
    let a = chars_of(s);
    let b = chars_of(p);
    matches_at_exec(a.as_slice(), b.as_slice(), 0)
}

/// Tests whether `s` ends with `p`.
pub fn ends_with(s: &str, p: &str) -> (r: bool)
    ensures
        r == has_suffix(s@, p@),
{
    let a = chars_of(s);
    let b = chars_of(p);
    if b.len() > a.len() {
        return false;
    }
    matches_at_exec(a.as_slice(), b.as_slice(), a.len() - b.len())
}

/// The first position at or after `i` where `p` occurs in `s` (`s.len()` if none).
pub open spec fn find_from(s: Seq<char>, p: Seq<char>, i: int) -> int
    decreases s.len() - i,
{
    if i >= s.len() {
        s.len() as int
    } else if matches_at(s, p, i) {
        i
    } else {
        find_from(s, p, i + 1)
    }
}

proof fn lemma_find_from(s: Seq<char>, p: Seq<char>, i: int)
    requires
        0 <= i <= s.len(),
    ensures
        i <= find_from(s, p, i) <= s.len(),
        find_from(s, p, i) < s.len() ==> matches_at(s, p, find_from(s, p, i)),
        forall|k: int| i <= k < find_from(s, p, i) ==> !matches_at(s, p, k),
    decreases s.len() - i,
{
    if i < s.len() && !matches_at(s, p, i) {
        lemma_find_from(s, p, i + 1);
    }
}

/// Tests whether `p` occurs in `s` (for a non-empty `p`).
pub fn contains(s: &str, p: &str) -> (r: bool)
    ensures
        r == has_sub(s@, p@),
{
    let a = chars_of(s);
    let b = chars_of(p);
    let mut i: usize = 0;
    while i < a.len()
        invariant
            i <= a@.len(),
            a@ == s@,
            b@ == p@,
            forall|k: int| 0 <= k < i ==> !matches_at(a@, b@, k),
        decreases a@.len() - i,
    {
        if matches_at_exec(a.as_slice(), b.as_slice(), i) {
            assert(matches_at(s@, p@, i as int));
            return true;
        }
        i = i + 1;
    }
    if matches_at_exec(a.as_slice(), b.as_slice(), i) {
        assert(matches_at(s@, p@, i as int));
        return true;
    }
    assert forall|k: int| !matches_at(a@, b@, k) by {
        if 0 <= k < i {
        }
    }
    false
}

/// `s` with every non-overlapping occurrence of `p`, scanned from the left,
/// replaced by `r` (`str::replace` with a non-empty pattern).
pub open spec fn spec_replace(s: Seq<char>, p: Seq<char>, r: Seq<char>) -> Seq<char>
    decreases s.len(),
{
    if p.len() == 0 {
        spec_interleave(s, r)
    } else if s.len() == 0 {
        s
    } else if matches_at(s, p, 0) {
        r + spec_replace(s.skip(p.len() as int), p, r)
    } else {
        seq![s[0]] + spec_replace(s.drop_first(), p, r)
    }
}

/// `r` before every character of `s` and at its end: what replacing the empty
/// pattern gives (`str::replace` with `""`).
pub open spec fn spec_interleave(s: Seq<char>, r: Seq<char>) -> Seq<char>
    decreases s.len(),
{
    if s.len() == 0 {
        r
    } else {
        r + seq![s[0]] + spec_interleave(s.drop_first(), r)
    }
}

/// `r` before every character of `s` and at its end.
fn interleave(a: &Vec<char>, r: &str) -> (out: String)
    ensures
        out@ == spec_interleave(a@, r@),
{
    let mut out = String::new();
    let mut i: usize = 0;
    assert(a@.skip(0) =~= a@);
    while i < a.len()
        invariant
            i <= a@.len(),
            spec_interleave(a@, r@) == out@ + spec_interleave(a@.skip(i as int), r@),
        decreases a@.len() - i,
    {
        let ghost rest = a@.skip(i as int);
        assert(rest.drop_first() =~= a@.skip(i + 1));
        let ghost before = out@;
        out.append(r);
        push_char(&mut out, a[i]);
        assert(out@ =~= before + r@ + seq![rest[0]]);
        i = i + 1;
        assert(before + (r@ + seq![rest[0]] + spec_interleave(a@.skip(i as int), r@)) =~= out@
            + spec_interleave(a@.skip(i as int), r@));
    }
    assert(a@.skip(i as int) =~= Seq::<char>::empty());
    out.append(r);
    out
}

/// Replaces every occurrence of `p` in `s` by `r`, scanning from the left
/// (`str::replace`; with an empty `p`, `r` goes before every character and at the end).
pub fn replace(s: &str, p: &str, r: &str) -> (out: String)
    ensures
        out@ == spec_replace(s@, p@, r@),
{
    let a = chars_of(s);
    let b = chars_of(p);
    if b.len() == 0 {
        return interleave(&a, r);
    }
    let rv = chars_of(r);
    let mut out = String::new();
    let mut i: usize = 0;
    assert(a@.skip(0) =~= a@);
    while i < a.len()
        invariant
            i <= a@.len(),
            b@.len() > 0,
            rv@ == r@,
            spec_replace(a@, b@, r@) == out@ + spec_replace(a@.skip(i as int), b@, r@),
        decreases a@.len() - i,
    {
        let ghost rest = a@.skip(i as int);
        assert(rest.len() > 0);
        if matches_at_exec(a.as_slice(), b.as_slice(), i) {
            assert(rest.subrange(0, b@.len() as int) =~= a@.subrange(i as int, i + b@.len()));
            assert(rest.skip(b@.len() as int) =~= a@.skip(i + b@.len()));
            out.append(r);
            i = i + b.len();
            assert(out@ + spec_replace(a@.skip(i as int), b@, r@) =~= (out@ + spec_replace(
                a@.skip(i as int),
                b@,
                r@,
            )));
        } else {
            assert(b@.len() <= rest.len() ==> rest.subrange(0, b@.len() as int) =~= a@.subrange(
                i as int,
                i + b@.len(),
            ));
            assert(rest.drop_first() =~= a@.skip(i + 1));
            let ghost before = out@;
            push_char(&mut out, a[i]);
            assert(out@ =~= before + seq![rest[0]]);
            i = i + 1;
        }
    }
    assert(a@.skip(i as int) =~= Seq::<char>::empty());
    assert(out@ + Seq::<char>::empty() =~= out@);
    out
}

/// Position of the first `c` at or after `i` in `s` (`s.len()` if none).
pub open spec fn char_index_from(s: Seq<char>, c: char, i: int) -> int
    decreases s.len() - i,
{
    if i >= s.len() {
        s.len() as int
    } else if s[i] == c {
        i
    } else {
        char_index_from(s, c, i + 1)
    }
}

/// The first position of `c` in `s`, if any.
pub open spec fn spec_find_char(s: Seq<char>, c: char) -> Option<int> {
    let k = char_index_from(s, c, 0);
    if 0 <= k < s.len() {
        Some(k)
    } else {
        None
    }
}

/// The pieces of `s` between occurrences of `c` (`str::split` with a `char`).
pub open spec fn spec_split(s: Seq<char>, c: char) -> Seq<Seq<char>>
    decreases s.len(),
{
    let k = char_index_from(s, c, 0);
    if 0 <= k < s.len() {
        seq![s.take(k)] + spec_split(s.skip(k + 1), c)
    } else {
        seq![s]
    }
}

/// The characters of each string in `v`.
pub open spec fn views(v: Seq<String>) -> Seq<Seq<char>> {
    v.map_values(|x: String| x@)
}

pub proof fn lemma_char_index(s: Seq<char>, c: char, i: int, j: int)
    requires
        0 <= i <= j <= s.len(),
        forall|k: int| i <= k < j ==> s[k] != c,
        j == s.len() || s[j] == c,
    ensures
        char_index_from(s, c, i) == j,
    decreases j - i,
{
    if i < j {
        lemma_char_index(s, c, i + 1, j);
    }
}

/// Where the search for `c` stops before the end, `c` is found.
pub proof fn lemma_char_index_from_found(s: Seq<char>, c: char, i: int)
    requires
        0 <= i,
    ensures
        char_index_from(s, c, i) < s.len() ==> s[char_index_from(s, c, i)] == c,
    decreases s.len() - i,
{
    if i < s.len() && s[i] != c {
        lemma_char_index_from_found(s, c, i + 1);
    }
}

/// The first position of `c` in `s` holds `c`.
pub proof fn lemma_char_index_found(s: Seq<char>, c: char)
    ensures
        spec_find_char(s, c) matches Some(k) ==> s[k] == c,
{
    lemma_char_index_from_found(s, c, 0);
}

/// The first position of `c` in `s`, if any.
pub fn find_char(s: &str, c: char) -> (r: Option<usize>)
    ensures
        match r {
            Some(k) => spec_find_char(s@, c) == Some(k as int),
            None => spec_find_char(s@, c) is None,
        },
{
    let v = chars_of(s);
    let mut i: usize = 0;
    while i < v.len()
        invariant
            i <= v@.len(),
            v@ == s@,
            forall|k: int| 0 <= k < i ==> v@[k] != c,
        decreases v@.len() - i,
    {
        if v[i] == c {
            proof {
                lemma_char_index(s@, c, 0, i as int);
            }
            return Some(i);
        }
        i = i + 1;
    }
    proof {
        lemma_char_index(s@, c, 0, i as int);
    }
    None
}

/// Splits `s` at every `c`.
pub fn split(s: &str, c: char) -> (r: Vec<String>)
    ensures
        views(r@) == spec_split(s@, c),
{
    let v = chars_of(s);
    let mut out: Vec<String> = Vec::new();
    let mut start: usize = 0;
    let mut j: usize = 0;
    assert(s@.skip(0) =~= s@);
    while j < v.len()
        invariant
            start <= j <= v@.len(),
            v@ == s@,
            forall|k: int| start <= k < j ==> v@[k] != c,
            spec_split(s@, c) == views(out@) + spec_split(s@.skip(start as int), c),
        decreases v@.len() - j,
    {
        if v[j] == c {
            let ghost rest = s@.skip(start as int);
            proof {
                lemma_char_index(rest, c, 0, j - start);
            }
            assert(rest.take(j - start) =~= s@.subrange(start as int, j as int));
            assert(rest.skip(j - start + 1) =~= s@.skip(j + 1));
            let piece = string_from(v.as_slice(), start, j);
            let ghost before = out@;
            out.push(piece);
            assert(views(out@) =~= views(before) + seq![piece@]);
            start = j + 1;
        }
        j = j + 1;
    }
    let ghost rest = s@.skip(start as int);
    proof {
        lemma_char_index(rest, c, 0, rest.len() as int);
    }
    let piece = string_from(v.as_slice(), start, j);
    assert(piece@ =~= rest);
    let ghost before = out@;
    out.push(piece);
    assert(views(out@) =~= views(before) + seq![piece@]);
    out
}

/// `s` without the prefix `p`, when it has that prefix (`str::strip_prefix`).
pub open spec fn spec_strip_prefix(s: Seq<char>, p: Seq<char>) -> Option<Seq<char>> {
    if has_prefix(s, p) {
        Some(s.skip(p.len() as int))
    } else {
        None
    }
}

/// Removes the prefix `p` from `s` when `s` begins with it.
pub fn strip_prefix(s: &str, p: &str) -> (r: Option<String>)
    ensures
        match r {
            Some(t) => spec_strip_prefix(s@, p@) == Some(t@),
            None => spec_strip_prefix(s@, p@) is None,
        },
{
    let a = chars_of(s);
    let b = chars_of(p);
    if matches_at_exec(a.as_slice(), b.as_slice(), 0) {
        let t = string_from(a.as_slice(), b.len(), a.len());
        assert(t@ =~= s@.skip(p@.len() as int));
        Some(t)
    } else {
        None
    }
}

/// The code of `c` with ASCII upper-case letters mapped to lower case.
pub open spec fn lower_code(c: char) -> u32 {
    let u = c as u32;
    if 65 <= u <= 90 {
        (u + 32) as u32
    } else {
        u
    }
}

/// `s` and `t` are equal up to ASCII case (`str::eq_ignore_ascii_case`).
pub open spec fn eq_ignore_case(s: Seq<char>, t: Seq<char>) -> bool {
    &&& s.len() == t.len()
    &&& forall|i: int| 0 <= i < s.len() ==> lower_code(#[trigger] s[i]) == lower_code(t[i])
}

/// Tests whether `s` and `t` are equal up to ASCII case.
pub fn eq_ignore_ascii_case(s: &str, t: &str) -> (r: bool)
    ensures
        r == eq_ignore_case(s@, t@),
{
    let a = chars_of(s);
    let b = chars_of(t);
    if a.len() != b.len() {
        return false;
    }
    let mut i: usize = 0;
    while i < a.len()
        invariant
            i <= a@.len(),
            a@ == s@,
            b@ == t@,
            a@.len() == b@.len(),
            forall|k: int| 0 <= k < i ==> lower_code(#[trigger] a@[k]) == lower_code(b@[k]),
        decreases a@.len() - i,
    {
        let x = a[i] as u32;
        let y = b[i] as u32;
        let lx = if 65 <= x && x <= 90 { x + 32 } else { x };
        let ly = if 65 <= y && y <= 90 { y + 32 } else { y };
        if lx != ly {
            assert(lower_code(s@[i as int]) != lower_code(t@[i as int]));
            return false;
        }
        i = i + 1;
    }
    true
}

/// `format!("{:?}", items)` for a list of strings.
pub uninterp spec fn debug_list(items: Seq<Seq<char>>) -> Seq<char>;

/// The `Debug` rendering of a list of strings, as `format!("{:?}", ..)` gives it.
#[verifier::external_body]
pub(crate) fn debug_string_list(items: &Vec<String>) -> (r: String)
    ensures
        r@ == debug_list(views(items@)),
{
    format!("{:?}", items)
}

} // verus!
