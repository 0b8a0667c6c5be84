//! Character-level helpers the command grammar is built from.
//!
//! Chat text is modelled as `Seq<char>`. The executable helpers work on the
//! characters of one message, held in a `Vec<char>`, and hand back index
//! ranges into it; the specifications say which sub-sequence a range denotes.

use vstd::prelude::*;

verus! {

/// Whether `c` carries the Unicode `White_Space` property.
pub open spec fn is_space(c: char) -> bool {
    let n = c as u32;
    ||| 0x09 <= n <= 0x0D
    ||| n == 0x20
    ||| n == 0x85
    ||| n == 0xA0
    ||| n == 0x1680
    ||| 0x2000 <= n <= 0x200A
    ||| n == 0x2028
    ||| n == 0x2029
    ||| n == 0x202F
    ||| n == 0x205F
    ||| n == 0x3000
}

/// `s` without its leading white space.
pub open spec fn trim_start(s: Seq<char>) -> Seq<char>
    decreases s.len(),
{
    if s.len() > 0 && is_space(s[0]) {
        trim_start(s.drop_first())
    } else {
        s
    }
}

/// `s` without its trailing white space.
pub open spec fn trim_end(s: Seq<char>) -> Seq<char>
    decreases s.len(),
{
    if s.len() > 0 && is_space(s.last()) {
        trim_end(s.drop_last())
    } else {
        s
    }
}

/// `s` without leading and trailing white space.
pub open spec fn trim(s: Seq<char>) -> Seq<char> {
    trim_end(trim_start(s))
}

/// Whether `s` neither starts nor ends with white space.
pub open spec fn is_trimmed(s: Seq<char>) -> bool {
    s.len() > 0 ==> !is_space(s[0]) && !is_space(s.last())
}

/// What follows `prefix` in `s`, if `s` starts with it.
pub open spec fn strip_prefix(s: Seq<char>, prefix: Seq<char>) -> Option<Seq<char>> {
    if prefix.is_prefix_of(s) {
        Some(s.skip(prefix.len() as int))
    } else {
        None
    }
}

/// The index of the first `c` in `s`, or `s.len()` if there is none.
pub open spec fn find<A>(s: Seq<A>, c: A) -> int
    decreases s.len(),
{
    if s.len() == 0 || s[0] == c {
        0
    } else {
        1 + find(s.drop_first(), c)
    }
}

/// The parts of `s` before and after its first `c`, if it holds one.
pub open spec fn split_once(s: Seq<char>, c: char) -> Option<(Seq<char>, Seq<char>)> {
    let i = find(s, c);
    if i < s.len() {
        Some((s.take(i), s.skip(i + 1)))
    } else {
        None
    }
}

/// The parts of `s` between the occurrences of `separator`, in order. A
/// text without the separator is one part, and so is the empty text.
pub open spec fn split(s: Seq<char>, separator: char) -> Seq<Seq<char>>
    decreases s.len(),
{
    let i = find(s, separator);
    if 0 <= i < s.len() {
        seq![s.take(i)] + split(s.skip(i + 1), separator)
    } else {
        seq![s]
    }
}

/// `find` returns the least index that holds `c`.
pub proof fn lemma_find<A>(s: Seq<A>, c: A)
    ensures
        0 <= find(s, c) <= s.len(),
        find(s, c) < s.len() ==> s[find(s, c)] == c,
        forall|i: int| 0 <= i < find(s, c) ==> s[i] != c,
    decreases s.len(),
{
    if s.len() == 0 || s[0] == c {
    } else {
        let t = s.drop_first();
        lemma_find(t, c);
        assert forall|i: int| 0 <= i < find(s, c) implies s[i] != c by {
            if i > 0 {
                assert(s[i] == t[i - 1]);
            }
        }
    }
}

/// An index that holds the first `c` of `s` is what `find` returns.
pub proof fn lemma_find_at<A>(s: Seq<A>, c: A, k: int)
    requires
        0 <= k <= s.len(),
        k < s.len() ==> s[k] == c,
        forall|i: int| 0 <= i < k ==> s[i] != c,
    ensures
        find(s, c) == k,
{
    lemma_find(s, c);
    let f = find(s, c);
    if f < k {
        assert(s[f] != c);
    }
}

/// Leading white space does not change what `trim_start` returns.
pub proof fn lemma_trim_start_skip(s: Seq<char>, k: int)
    requires
        0 <= k <= s.len(),
        forall|i: int| 0 <= i < k ==> is_space(s[i]),
    ensures
        trim_start(s) == trim_start(s.skip(k)),
    decreases k,
{
    if k == 0 {
        assert(s.skip(0) =~= s);
    } else {
        let t = s.drop_first();
        assert(is_space(s[0]));
        assert forall|i: int| 0 <= i < k - 1 implies is_space(t[i]) by {
            assert(t[i] == s[i + 1]);
        }
        lemma_trim_start_skip(t, k - 1);
        assert(t.skip(k - 1) =~= s.skip(k));
    }
}

/// Trailing white space does not change what `trim_end` returns.
pub proof fn lemma_trim_end_take(s: Seq<char>, k: int)
    requires
        0 <= k <= s.len(),
        forall|i: int| k <= i < s.len() ==> is_space(s[i]),
    ensures
        trim_end(s) == trim_end(s.take(k)),
    decreases s.len() - k,
{
    if k == s.len() {
        assert(s.take(k) =~= s);
    } else {
        let t = s.drop_last();
        assert(is_space(s.last()));
        assert forall|i: int| k <= i < t.len() implies is_space(t[i]) by {
            assert(t[i] == s[i]);
        }
        lemma_trim_end_take(t, k);
        assert(t.take(k) =~= s.take(k));
    }
}

/// What `trim` returns is trimmed, and trimming a trimmed text changes nothing.
pub proof fn lemma_trim_is_trimmed(s: Seq<char>)
    ensures
        is_trimmed(trim(s)),
        is_trimmed(s) ==> trim(s) == s,
{
    lemma_trim_start_shape(s);
    lemma_trim_end_shape(trim_start(s));
}

/// `trim_start` returns a suffix of `s` that does not start with white space.
pub proof fn lemma_trim_start_shape(s: Seq<char>)
    ensures
        trim_start(s).len() <= s.len(),
        trim_start(s) == s.skip(s.len() - trim_start(s).len()),
        trim_start(s).len() > 0 ==> !is_space(trim_start(s)[0]),
        s.len() > 0 && !is_space(s[0]) ==> trim_start(s) == s,
        forall|i: int| 0 <= i < s.len() - trim_start(s).len() ==> is_space(s[i]),
    decreases s.len(),
{
    if s.len() > 0 && is_space(s[0]) {
        let t = s.drop_first();
        lemma_trim_start_shape(t);
        let r = trim_start(t);
        assert(t.skip(t.len() - r.len()) =~= s.skip(s.len() - r.len()));
        assert forall|i: int| 0 <= i < s.len() - r.len() implies is_space(s[i]) by {
            if i > 0 {
                assert(s[i] == t[i - 1]);
            }
        }
    } else {
        assert(s.skip(0) =~= s);
    }
}

/// `trim_end` returns a prefix of `s` that does not end with white space.
pub proof fn lemma_trim_end_shape(s: Seq<char>)
    ensures
        trim_end(s).len() <= s.len(),
        trim_end(s) == s.take(trim_end(s).len() as int),
        trim_end(s).len() > 0 ==> !is_space(trim_end(s).last()),
        s.len() > 0 && !is_space(s.last()) ==> trim_end(s) == s,
        forall|i: int| trim_end(s).len() <= i < s.len() ==> is_space(s[i]),
    decreases s.len(),
{
    if s.len() > 0 && is_space(s.last()) {
        let t = s.drop_last();
        lemma_trim_end_shape(t);
        let r = trim_end(t);
        assert(t.take(r.len() as int) =~= s.take(r.len() as int));
        assert forall|i: int| r.len() <= i < s.len() implies is_space(s[i]) by {
            if i < t.len() {
                assert(s[i] == t[i]);
            }
        }
    } else {
        assert(s.take(s.len() as int) =~= s);
    }
}

/// A trimmed text followed by one space trims back to itself.
pub proof fn lemma_trim_trailing_space(s: Seq<char>)
    requires
        is_trimmed(s),
    ensures
        trim(s + seq![' ']) == s,
{
    let joined = s + seq![' '];
    assert(is_space(' '));
    assert(joined.last() == ' ');
    assert(joined.drop_last() =~= s);
    if s.len() == 0 {
        assert(joined.drop_first() =~= s);
        assert(trim_start(joined) == trim_start(s));
    } else {
        assert(joined[0] == s[0]);
        assert(trim_start(joined) == joined);
        assert(trim_end(joined) == trim_end(s));
    }
}

/// What is left of a text that ends in something other than white space
/// when it is trimmed is not empty and ends as the text does.
pub proof fn lemma_trim_keeps_end(s: Seq<char>)
    requires
        s.len() > 0,
        !is_space(s.last()),
    ensures
        trim(s).len() > 0,
        trim(s).last() == s.last(),
        trim(s) == trim_start(s),
{
    lemma_trim_start_shape(s);
    let x = trim_start(s);
    let k = s.len() - x.len();
    if x.len() == 0 {
        assert(is_space(s[s.len() - 1]));
    }
    assert(x.last() == s.last());
    lemma_trim_end_shape(x);
}

/// Decides `is_space`.
pub fn is_whitespace(c: char) -> (b: bool)
    ensures
        b == is_space(c),
{
    let n: u32 = c as u32;
    (0x09 <= n && n <= 0x0D) || n == 0x20 || n == 0x85 || n == 0xA0 || n == 0x1680 || (0x2000 <= n
        && n <= 0x200A) || n == 0x2028 || n == 0x2029 || n == 0x202F || n == 0x205F || n == 0x3000
}

/// The characters of `s`, in order.
pub fn to_chars(s: &str) -> (v: Vec<char>)
    ensures
        v@ == s@,
{
    broadcast use vstd::string::group_string_axioms;

    let mut v: Vec<char> = Vec::new();
    for c in it: s.chars()
        invariant
            it.seq() == s@,
            v@ == s@.take(it.index()),
    {
        v.push(c);
    }
    v
}

/// Whether `chars` starts with `prefix`.
pub fn has_prefix(chars: &Vec<char>, prefix: &Vec<char>) -> (b: bool)
    ensures
        b == prefix@.is_prefix_of(chars@),
{
    if prefix.len() > chars.len() {
        return false;
    }
    let mut i: usize = 0;
    while i < prefix.len()
        invariant
            i <= prefix.len() <= chars.len(),
            forall|j: int| 0 <= j < i ==> prefix@[j] == chars@[j],
        decreases prefix.len() - i,
    {
        if prefix[i] != chars[i] {
            assert(chars@.subrange(0, prefix@.len() as int)[i as int] != prefix@[i as int]);
            return false;
        }
        i += 1;
    }
    assert(chars@.subrange(0, prefix@.len() as int) =~= prefix@);
    true
}

/// The range of `chars[lo..hi]` that is left when white space is trimmed
/// from both of its ends.
pub fn trim_range(chars: &Vec<char>, lo: usize, hi: usize) -> (r: (usize, usize))
    requires
        lo <= hi <= chars.len(),
    ensures
        lo <= r.0 <= r.1 <= hi,
        chars@.subrange(r.0 as int, r.1 as int) == trim(chars@.subrange(lo as int, hi as int)),
{
    let ghost whole = chars@.subrange(lo as int, hi as int);
    let mut a: usize = lo;
    while a < hi && is_whitespace(chars[a])
        invariant
            lo <= a <= hi <= chars.len(),
            forall|j: int| lo <= j < a ==> is_space(chars@[j]),
        decreases hi - a,
    {
        a += 1;
    }
    let ghost tail = chars@.subrange(a as int, hi as int);
    proof {
        assert forall|i: int| 0 <= i < a - lo implies is_space(whole[i]) by {
            assert(whole[i] == chars@[lo + i]);
        }
        lemma_trim_start_skip(whole, a - lo);
        assert(whole.skip(a - lo) =~= tail);
        assert(trim_start(tail) == tail) by {
            if tail.len() > 0 {
                assert(tail[0] == chars@[a as int]);
            }
        }
    }
    let mut b: usize = hi;
    while b > a && is_whitespace(chars[b - 1])
        invariant
            a <= b <= hi <= chars.len(),
            forall|j: int| b <= j < hi ==> is_space(chars@[j]),
        decreases b,
    {
        b -= 1;
    }
    proof {
        let kept = chars@.subrange(a as int, b as int);
        assert forall|i: int| b - a <= i < tail.len() implies is_space(tail[i]) by {
            assert(tail[i] == chars@[a + i]);
        }
        lemma_trim_end_take(tail, b - a);
        assert(tail.take(b - a) =~= kept);
        assert(trim_end(kept) == kept) by {
            if kept.len() > 0 {
                assert(kept.last() == chars@[b - 1]);
            }
        }
    }
    (a, b)
}

/// The index of the first `c` in `chars[lo..hi]`, or `hi` if there is none.
pub fn find_in(chars: &Vec<char>, lo: usize, hi: usize, c: char) -> (i: usize)
    requires
        lo <= hi <= chars.len(),
    ensures
        lo <= i <= hi,
        i - lo == find(chars@.subrange(lo as int, hi as int), c),
{
    let mut i: usize = lo;
    while i < hi && chars[i] != c
        invariant
            lo <= i <= hi <= chars.len(),
            forall|j: int| lo <= j < i ==> chars@[j] != c,
        decreases hi - i,
    {
        i += 1;
    }
    proof {
        let s = chars@.subrange(lo as int, hi as int);
        assert forall|j: int| 0 <= j < i - lo implies s[j] != c by {
            assert(s[j] == chars@[lo + j]);
        }
        if i < hi {
            assert(s[i - lo] == chars@[i as int]);
        }
        lemma_find_at(s, c, i - lo);
    }
    i
}

/// Whether `pattern` stands in `s` at index `at`.
pub open spec fn occurs_at(s: Seq<char>, pattern: Seq<char>, at: int) -> bool {
    0 <= at && at + pattern.len() <= s.len() && s.subrange(at, at + pattern.len()) == pattern
}

/// The least index from `from` on at which `pattern` stands in `s`, if it
/// stands at one.
pub open spec fn search(s: Seq<char>, pattern: Seq<char>, from: int) -> Option<int>
    decreases s.len() - from + 1,
{
    if from < 0 || from + pattern.len() > s.len() {
        None
    } else if occurs_at(s, pattern, from) {
        Some(from)
    } else {
        search(s, pattern, from + 1)
    }
}

/// `search` finds the first occurrence from `from` on, and finds none only
/// if there is none.
pub proof fn lemma_search(s: Seq<char>, pattern: Seq<char>, from: int)
    requires
        0 <= from,
    ensures
        match search(s, pattern, from) {
            Some(at) => from <= at && occurs_at(s, pattern, at) && forall|k: int|
                from <= k < at ==> !occurs_at(s, pattern, k),
            None => forall|k: int| from <= k ==> !occurs_at(s, pattern, k),
        },
    decreases s.len() - from + 1,
{
    if from + pattern.len() <= s.len() && !occurs_at(s, pattern, from) {
        lemma_search(s, pattern, from + 1);
    }
}

/// Computes `search` from the start of the text.
pub fn find_text(chars: &Vec<char>, pattern: &Vec<char>) -> (found: Option<usize>)
    ensures
        found.is_some() == search(chars@, pattern@, 0).is_some(),
        found matches Some(at) ==> search(chars@, pattern@, 0) == Some(at as int),
{
    if pattern.len() > chars.len() {
        return None;
    }
    let last = chars.len() - pattern.len();
    let mut at: usize = 0;
    while at < last
        invariant
            last == chars.len() - pattern.len(),
            at <= last,
            search(chars@, pattern@, 0) == search(chars@, pattern@, at as int),
        decreases last - at,
    {
        if matches_at(chars, pattern, at) {
            return Some(at);
        }
        at += 1;
    }
    if matches_at(chars, pattern, at) {
        Some(at)
    } else {
        assert(search(chars@, pattern@, at + 1) is None);
        None
    }
}

/// Decides `occurs_at`.
pub fn matches_at(chars: &Vec<char>, pattern: &Vec<char>, at: usize) -> (b: bool)
    ensures
        b == occurs_at(chars@, pattern@, at as int),
{
    if pattern.len() > chars.len() || at > chars.len() - pattern.len() {
        return false;
    }
    let mut i: usize = 0;
    while i < pattern.len()
        invariant
            i <= pattern.len(),
            at + pattern.len() <= chars.len(),
            forall|j: int| 0 <= j < i ==> pattern@[j] == chars@[at + j],
        decreases pattern.len() - i,
    {
        if pattern[i] != chars[at + i] {
            assert(chars@.subrange(at as int, at + pattern.len())[i as int] != pattern@[i as int]);
            return false;
        }
        i += 1;
    }
    assert(chars@.subrange(at as int, at + pattern.len()) =~= pattern@);
    true
}

/// Whether `a` and `b` hold the same text.
pub fn same_text(a: &str, b: &str) -> (same: bool)
    ensures
        same == (a@ == b@),
{
    let x = to_chars(a);
    let y = to_chars(b);
    if x.len() != y.len() {
        return false;
    }
    let mut i: usize = 0;
    while i < x.len()
        invariant
            x@ == a@,
            y@ == b@,
            i <= x.len() == y.len(),
            forall|j: int| 0 <= j < i ==> x@[j] == y@[j],
        decreases x.len() - i,
    {
        if x[i] != y[i] {
            assert(a@[i as int] != b@[i as int]);
            return false;
        }
        i += 1;
    }
    assert(x@ =~= y@);
    true
}

/// The text `chars[lo..hi]` of `source`, as an owned string.
pub fn slice_to_string(source: &str, lo: usize, hi: usize) -> (s: String)
    requires
        lo <= hi <= source@.len(),
    ensures
        s@ == source@.subrange(lo as int, hi as int),
{
    source.substring_char(lo, hi).to_owned()
}

/// Computes `split`.
pub fn split_text(s: &str, separator: char) -> (parts: Vec<String>)
    ensures
        parts.deep_view() == split(s@, separator),
{
    let chars = to_chars(s);
    let n = chars.len();
    let mut parts: Vec<String> = Vec::new();
    let mut start: usize = 0;
    assert(chars@.subrange(0, n as int) =~= s@);
    loop
        invariant
            chars@ == s@,
            n == chars.len(),
            start <= n,
            parts.deep_view() + split(chars@.subrange(start as int, n as int), separator) == split(
                s@,
                separator,
            ),
        decreases n - start,
    {
        let ghost before = parts.deep_view();
        let ghost rest = chars@.subrange(start as int, n as int);
        let i = find_in(&chars, start, n, separator);
        let part = slice_to_string(s, start, i);
        proof {
            lemma_find(rest, separator);
            assert(rest.take(i - start) =~= chars@.subrange(start as int, i as int));
        }
        parts.push(part);
        assert(parts.deep_view() =~= before.push(part@));
        if i == n {
            assert(before.push(part@) =~= before + seq![rest]);
            return parts;
        }
        proof {
            assert(rest.skip(i - start + 1) =~= chars@.subrange(i + 1, n as int));
            assert(before.push(part@) + split(chars@.subrange(i + 1, n as int), separator)
                =~= before + (seq![part@] + split(chars@.subrange(i + 1, n as int), separator)));
        }
        start = i + 1;
    }
}

/// Computes `trim`.
pub fn trimmed(s: &str) -> (t: String)
    ensures
        t@ == trim(s@),
{
    let chars = to_chars(s);
    let (a, b) = trim_range(&chars, 0, chars.len());
    assert(chars@.subrange(0, chars.len() as int) =~= s@);
    slice_to_string(s, a, b)
}

} // verus!
