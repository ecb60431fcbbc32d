//! Text primitives used throughout the crate: searching, slicing and joining
//! strings, each tied to a specification over the string's characters.
use vstd::prelude::*;

verus! {

/// `p` is a prefix of `s`.
pub open spec fn is_prefix(p: Seq<char>, s: Seq<char>) -> bool {
    p.len() <= s.len() && s.subrange(0, p.len() as int) == p
}

/// `p` is a suffix of `s`.
pub open spec fn is_suffix(p: Seq<char>, s: Seq<char>) -> bool {
    p.len() <= s.len() && s.subrange(s.len() - p.len(), s.len() as int) == p
}

/// `p` occurs in `s` starting at position `i`.
pub open spec fn occurs_at(s: Seq<char>, p: Seq<char>, i: int) -> bool {
    0 <= i && i + p.len() <= s.len() && s.subrange(i, i + p.len()) == p
}

/// `p` occurs somewhere in `s`.
pub open spec fn seq_contains(s: Seq<char>, p: Seq<char>) -> bool {
    exists|i: int| occurs_at(s, p, i)
}

/// `i` is the first position at or after `from` where `p` occurs in `s`.
pub open spec fn first_occurrence_from(s: Seq<char>, p: Seq<char>, from: int, i: int) -> bool {
    &&& from <= i
    &&& occurs_at(s, p, i)
    &&& forall|j: int| from <= j < i ==> !occurs_at(s, p, j)
}

/// `p` occurs in `s` at some position at or after `from`.
pub open spec fn occurs_from(s: Seq<char>, p: Seq<char>, from: int) -> bool {
    exists|i: int| from <= i && occurs_at(s, p, i)
}

/// The character `c` occurs in `s`.
pub open spec fn has_char(s: Seq<char>, c: char) -> bool {
    exists|i: int| 0 <= i < s.len() && s[i] == c
}

/// The first position of `p` in `s`, when `p` occurs in `s`.
pub open spec fn index_of(s: Seq<char>, p: Seq<char>) -> int {
    choose|i: int| first_occurrence_from(s, p, 0, i)
}

/// The characters of `s` after removing every trailing `c`.
pub open spec fn trim_end_char(s: Seq<char>, c: char) -> Seq<char>
    decreases s.len(),
{
    if s.len() > 0 && s.last() == c {
        trim_end_char(s.drop_last(), c)
    } else {
        s
    }
}

/// Position just after the last occurrence of `c` in `s` (0 when `c` does not occur).
pub open spec fn after_last_char(s: Seq<char>, c: char) -> int
    decreases s.len(),
{
    if s.len() == 0 {
        0
    } else if s.last() == c {
        s.len() as int
    } else {
        after_last_char(s.drop_last(), c)
    }
}

/// Position of the last occurrence of `c` in `s`, or -1 when it does not occur.
pub open spec fn last_index_of_char(s: Seq<char>, c: char) -> int {
    after_last_char(s, c) - 1
}

/// `a` followed by the separator `::` and `b`.
pub open spec fn qualified(a: Seq<char>, b: Seq<char>) -> Seq<char> {
    a + "::"@ + b
}

/// When `p` occurs at `i`, there is a first occurrence at or before `i`.
pub proof fn lemma_first_occurrence_exists(s: Seq<char>, p: Seq<char>, from: int, i: int)
    requires
        from <= i,
        occurs_at(s, p, i),
    ensures
        exists|k: int| first_occurrence_from(s, p, from, k),
    decreases i - from,
{
    if exists|j: int| from <= j < i && occurs_at(s, p, j) {
        let j = choose|j: int| from <= j < i && occurs_at(s, p, j);
        lemma_first_occurrence_exists(s, p, from, j);
    } else {
        assert(first_occurrence_from(s, p, from, i));
    }
}

/// When `p` occurs in `s`, `index_of` is its first position.
pub proof fn lemma_index_of(s: Seq<char>, p: Seq<char>)
    requires
        seq_contains(s, p),
    ensures
        first_occurrence_from(s, p, 0, index_of(s, p)),
        0 <= index_of(s, p) <= s.len() - p.len(),
{
    let i = choose|i: int| occurs_at(s, p, i);
    lemma_first_occurrence_exists(s, p, 0, i);
}

pub proof fn lemma_after_last_char_bounds(s: Seq<char>, c: char)
    ensures
        0 <= after_last_char(s, c) <= s.len(),
        after_last_char(s, c) > 0 ==> s[after_last_char(s, c) - 1] == c,
        forall|j: int| after_last_char(s, c) <= j < s.len() ==> s[j] != c,
    decreases s.len(),
{
    if s.len() > 0 && s.last() != c {
        lemma_after_last_char_bounds(s.drop_last(), c);
        assert forall|j: int| after_last_char(s, c) <= j < s.len() implies s[j] != c by {
            if j < s.len() - 1 {
                assert(s.drop_last()[j] == s[j]);
            }
        }
    }
}

pub proof fn lemma_trim_end_char(s: Seq<char>, c: char)
    ensures
        is_prefix(trim_end_char(s, c), s),
        trim_end_char(s, c).len() == 0 || trim_end_char(s, c).last() != c,
    decreases s.len(),
{
    if s.len() > 0 && s.last() == c {
        lemma_trim_end_char(s.drop_last(), c);
        assert(s.drop_last().subrange(0, trim_end_char(s, c).len() as int) =~= s.subrange(
            0,
            trim_end_char(s, c).len() as int,
        ));
    } else {
        assert(s.subrange(0, s.len() as int) =~= s);
    }
}

/// Equality of two string slices.
pub fn str_eq(a: &str, b: &str) -> (r: bool)
    ensures
        r == (a@ == b@),
{
    let n = a.unicode_len();
    let m = b.unicode_len();
    if n != m {
        return false;
    }
    let mut k: usize = 0;
    while k < n
        invariant
            n == a@.len(),
            m == b@.len(),
            n == m,
            k <= n,
            forall|j: int| 0 <= j < k ==> a@[j] == b@[j],
        decreases n - k,
    {
        if a.get_char(k) != b.get_char(k) {
            return false;
        }
        k = k + 1;
    }
    assert(a@ =~= b@);
    true
}

/// Whether `p` occurs in `s` starting at character position `i`.
pub fn matches_at(s: &str, p: &str, i: usize) -> (r: bool)
    ensures
        r == occurs_at(s@, p@, i as int),
{
    let n = s.unicode_len();
    let m = p.unicode_len();
    if i > n || m > n - i {
        return false;
    }
    let mut k: usize = 0;
    while k < m
        invariant
            n == s@.len(),
            m == p@.len(),
            i + m <= n,
            k <= m,
            forall|j: int| 0 <= j < k ==> s@[i + j] == p@[j],
        decreases m - k,
    {
        if s.get_char(i + k) != p.get_char(k) {
            assert(s@.subrange(i as int, i + m)[k as int] != p@[k as int]);
            return false;
        }
        k = k + 1;
    }
    assert(s@.subrange(i as int, i + m) =~= p@);
    true
}

/// First character position at or after `from` where `p` occurs in `s`.
pub fn find_from(s: &str, p: &str, from: usize) -> (r: Option<usize>)
    ensures
        match r {
            Some(i) => first_occurrence_from(s@, p@, from as int, i as int),
            None => !occurs_from(s@, p@, from as int),
        },
{
    let n = s.unicode_len();
    let mut i: usize = from;
    if i > n {
        return None;
    }
    while i < n
        invariant
            n == s@.len(),
            from <= i <= n,
            forall|j: int| from <= j < i ==> !occurs_at(s@, p@, j),
        decreases n - i,
    {
        if matches_at(s, p, i) {
            return Some(i);
        }
        i = i + 1;
    }
    if matches_at(s, p, n) {
        return Some(n);
    }
    None
}

/// First character position where `p` occurs in `s`.
pub fn find(s: &str, p: &str) -> (r: Option<usize>)
    ensures
        match r {
            Some(i) => first_occurrence_from(s@, p@, 0, i as int) && i == index_of(s@, p@),
            None => !seq_contains(s@, p@),
        },
{
    let r = find_from(s, p, 0);
    match r {
        Some(i) => {
            proof {
                let k = index_of(s@, p@);
                assert(first_occurrence_from(s@, p@, 0, i as int));
                assert(first_occurrence_from(s@, p@, 0, k));
                if k < i {
                } else if i < k {
                }
            }
        },
        None => {
            assert forall|j: int| !occurs_at(s@, p@, j) by {
                if j >= 0 {
                    assert(!(0 <= j && occurs_at(s@, p@, j)));
                }
            }
        },
    }
    r
}

/// Whether `p` occurs in `s`.
pub fn contains(s: &str, p: &str) -> (r: bool)
    ensures
        r == seq_contains(s@, p@),
{
    find(s, p).is_some()
}

/// Whether `s` begins with `p`.
pub fn starts_with(s: &str, p: &str) -> (r: bool)
    ensures
        r == is_prefix(p@, s@),
{
    matches_at(s, p, 0)
}

/// Whether `s` ends with `p`.
pub fn ends_with(s: &str, p: &str) -> (r: bool)
    ensures
        r == is_suffix(p@, s@),
{
    let n = s.unicode_len();
    let m = p.unicode_len();
    if m > n {
        return false;
    }
    matches_at(s, p, n - m)
}

/// Whether the character `c` occurs in `s`.
pub fn contains_char(s: &str, c: char) -> (r: bool)
    ensures
        r == has_char(s@, c),
{
    let n = s.unicode_len();
    let mut k: usize = 0;
    while k < n
        invariant
            n == s@.len(),
            k <= n,
            forall|j: int| 0 <= j < k ==> s@[j] != c,
        decreases n - k,
    {
        if s.get_char(k) == c {
            return true;
        }
        k = k + 1;
    }
    false
}

/// Position just after the last occurrence of `c` in `s` (0 when absent).
pub fn after_last(s: &str, c: char) -> (r: usize)
    ensures
        r as int == after_last_char(s@, c),
{
    let n = s.unicode_len();
    let mut k: usize = n;
    assert(s@.subrange(0, n as int) =~= s@);
    while k > 0
        invariant
            n == s@.len(),
            k <= n,
            after_last_char(s@.subrange(0, k as int), c) == after_last_char(s@, c),
        decreases k,
    {
        assert(s@.subrange(0, k as int).drop_last() =~= s@.subrange(0, k - 1));
        if s.get_char(k - 1) == c {
            return k;
        }
        k = k - 1;
    }
    k
}

/// Position of the last `c` in `s`.
pub fn rfind_char(s: &str, c: char) -> (r: Option<usize>)
    ensures
        match r {
            Some(i) => i as int == last_index_of_char(s@, c) && i < s@.len() && s@[i as int] == c,
            None => last_index_of_char(s@, c) == -1 && !has_char(s@, c),
        },
{
    proof {
        lemma_after_last_char_bounds(s@, c);
    }
    let k = after_last(s, c);
    if k == 0 {
        None
    } else {
        Some(k - 1)
    }
}

/// The characters of `s` from position `from` up to (not including) `to`.
pub fn slice(s: &str, from: usize, to: usize) -> (r: String)
    requires
        from <= to <= s@.len(),
    ensures
        r@ == s@.subrange(from as int, to as int),
{
    s.substring_char(from, to).to_owned()
}

/// The characters of `s` from position `from` to the end.
pub fn slice_from(s: &str, from: usize) -> (r: String)
    requires
        from <= s@.len(),
    ensures
        r@ == s@.subrange(from as int, s@.len() as int),
{
    let n = s.unicode_len();
    slice(s, from, n)
}

/// A fresh `String` holding the characters of `s`.
pub fn owned(s: &str) -> (r: String)
    ensures
        r@ == s@,
{
    s.to_owned()
}

/// `a` followed by `b`.
pub fn concat2(a: &str, b: &str) -> (r: String)
    ensures
        r@ == a@ + b@,
{
    let mut r = String::from_str(a);
    r.append(b);
    r
}

/// `a`, `b` and `c` in sequence.
pub fn concat3(a: &str, b: &str, c: &str) -> (r: String)
    ensures
        r@ == a@ + b@ + c@,
{
    let mut r = String::from_str(a);
    r.append(b);
    r.append(c);
    r
}

/// `a::b`.
pub fn qualify(a: &str, b: &str) -> (r: String)
    ensures
        r@ == qualified(a@, b@),
{
    concat3(a, "::", b)
}

/// Removes every trailing `c` from `s`.
pub fn trim_end_matches_char(s: &str, c: char) -> (r: String)
    ensures
        r@ == trim_end_char(s@, c),
{
    let n = s.unicode_len();
    let mut k: usize = n;
    assert(s@.subrange(0, n as int) =~= s@);
    while k > 0 && s.get_char(k - 1) == c
        invariant
            n == s@.len(),
            k <= n,
            trim_end_char(s@.subrange(0, k as int), c) == trim_end_char(s@, c),
        decreases k,
    {
        assert(s@.subrange(0, k as int).drop_last() =~= s@.subrange(0, k - 1));
        k = k - 1;
    }
    assert(k == 0 || s@.subrange(0, k as int).last() != c);
    slice(s, 0, k)
}

/// Whether `c` has the Unicode `White_Space` property (what
/// `char::is_whitespace` tests): the ASCII tab, line feed, vertical tab, form
/// feed, carriage return and space, next line (U+0085), no-break space
/// (U+00A0), ogham space mark (U+1680), the spaces U+2000 to U+200A, the
/// line and paragraph separators (U+2028, U+2029), the narrow no-break space
/// (U+202F), the medium mathematical space (U+205F) and the ideographic space
/// (U+3000).
pub open spec fn char_is_whitespace(c: char) -> bool {
    ||| ('\u{9}' <= c && c <= '\u{d}')
    ||| c == ' '
    ||| c == '\u{85}'
    ||| c == '\u{a0}'
    ||| c == '\u{1680}'
    ||| ('\u{2000}' <= c && c <= '\u{200a}')
    ||| c == '\u{2028}'
    ||| c == '\u{2029}'
    ||| c == '\u{202f}'
    ||| c == '\u{205f}'
    ||| c == '\u{3000}'
}

/// Whether `c` is whitespace, as `char::is_whitespace` decides it.
pub(crate) fn is_whitespace(c: char) -> (r: bool)
    ensures
        r == char_is_whitespace(c),
{
    ('\u{9}' <= c && c <= '\u{d}') || c == ' ' || c == '\u{85}' || c == '\u{a0}' || c == '\u{1680}'
        || ('\u{2000}' <= c && c <= '\u{200a}') || c == '\u{2028}' || c == '\u{2029}' || c == '\u{202f}'
        || c == '\u{205f}' || c == '\u{3000}'
}

/// The maximal runs of characters other than whitespace in `s`, in order.
pub open spec fn words(s: Seq<char>) -> Seq<Seq<char>>
    decreases s.len(),
{
    if s.len() == 0 {
        Seq::empty()
    } else {
        let w = words(s.drop_last());
        if char_is_whitespace(s.last()) {
            w
        } else if s.len() >= 2 && !char_is_whitespace(s[s.len() - 2]) && w.len() > 0 {
            w.update(w.len() - 1, w.last().push(s.last()))
        } else {
            w.push(seq![s.last()])
        }
    }
}

/// The words of `s`, split at whitespace as `str::split_whitespace` does.
pub fn split_whitespace(s: &str) -> (r: Vec<String>)
    ensures
        r.deep_view() == words(s@),
{
    let n = s.unicode_len();
    let mut out: Vec<String> = Vec::new();
    let mut cur = String::new();
    let mut in_word = false;
    let mut k: usize = 0;
    assert(s@.subrange(0, 0) =~= Seq::<char>::empty());
    assert(out.deep_view() =~= Seq::<Seq<char>>::empty());
    while k < n
        invariant
            n == s@.len(),
            k <= n,
            in_word == (k > 0 && !char_is_whitespace(s@[k - 1])),
            in_word ==> words(s@.subrange(0, k as int)) == out.deep_view().push(cur@),
            !in_word ==> words(s@.subrange(0, k as int)) == out.deep_view(),
        decreases n - k,
    {
        let c = s.get_char(k);
        let ghost pre = s@.subrange(0, k as int);
        let ghost next = s@.subrange(0, k + 1);
        assert(next.drop_last() =~= pre);
        assert(next.last() == c);
        if is_whitespace(c) {
            if in_word {
                let w = cur;
                push_word(&mut out, w);
                cur = String::new();
            }
            in_word = false;
        } else {
            let ghost before = cur@;
            let one = s.substring_char(k, k + 1);
            assert(one@ =~= seq![c]);
            if in_word {
                assert(next.len() >= 2 && next[next.len() - 2] == s@[k - 1]);
                cur.append(one);
                assert(cur@ =~= before.push(c));
                assert(out.deep_view().push(before).update(out.deep_view().len() as int, before.push(c)) =~= out.deep_view().push(cur@));
            } else {
                cur = String::new();
                cur.append(one);
                assert(cur@ =~= seq![c]);
            }
            in_word = true;
        }
        k = k + 1;
    }
    assert(s@.subrange(0, n as int) =~= s@);
    if in_word {
        push_word(&mut out, cur);
    }
    out
}

fn push_word(v: &mut Vec<String>, s: String)
    ensures
        final(v).deep_view() == old(v).deep_view().push(s@),
{
    let ghost old_r = v@;
    let ghost old_dv = v.deep_view();
    let ghost sv = s@;
    v.push(s);
    proof {
        assert forall|j: int| 0 <= j < v@.len() implies v.deep_view()[j] == old_dv.push(sv)[j] by {
            if j < old_r.len() {
                assert(v@[j] == old_r[j]);
            }
        }
        assert(v.deep_view() =~= old_dv.push(sv));
    }
}

/// `s` without its leading whitespace.
pub open spec fn trim_start_spec(s: Seq<char>) -> Seq<char>
    decreases s.len(),
{
    if s.len() > 0 && char_is_whitespace(s[0]) {
        trim_start_spec(s.drop_first())
    } else {
        s
    }
}

/// `s` without its trailing whitespace.
pub open spec fn trim_end_spec(s: Seq<char>) -> Seq<char>
    decreases s.len(),
{
    if s.len() > 0 && char_is_whitespace(s.last()) {
        trim_end_spec(s.drop_last())
    } else {
        s
    }
}

/// `s` without its leading and trailing whitespace.
pub open spec fn trim_spec(s: Seq<char>) -> Seq<char> {
    trim_end_spec(trim_start_spec(s))
}

/// The position of the first character of `s` from `i` on that is not
/// whitespace, or `s.len()`.
pub open spec fn non_space_from(s: Seq<char>, i: int) -> int
    decreases s.len() - i,
{
    if i >= s.len() {
        s.len() as int
    } else if !char_is_whitespace(s[i]) {
        i
    } else {
        non_space_from(s, i + 1)
    }
}

proof fn lemma_trim_start_from(s: Seq<char>, i: int)
    requires
        0 <= i <= s.len(),
    ensures
        i <= non_space_from(s, i) <= s.len(),
        trim_start_spec(s.subrange(i, s.len() as int)) == s.subrange(non_space_from(s, i), s.len() as int),
    decreases s.len() - i,
{
    let t = s.subrange(i, s.len() as int);
    if i < s.len() {
        if char_is_whitespace(s[i]) {
            assert(t.drop_first() =~= s.subrange(i + 1, s.len() as int));
            lemma_trim_start_from(s, i + 1);
        }
    } else {
        assert(t.len() == 0);
    }
}

/// `s` without its leading whitespace, as `str::trim_start` gives it.
pub fn trim_start(s: &str) -> (r: String)
    ensures
        r@ == trim_start_spec(s@),
{
    let n = s.unicode_len();
    let mut k: usize = 0;
    while k < n && is_whitespace(s.get_char(k))
        invariant
            n == s@.len(),
            k <= n,
            non_space_from(s@, k as int) == non_space_from(s@, 0),
        decreases n - k,
    {
        k = k + 1;
    }
    proof {
        lemma_trim_start_from(s@, 0);
        assert(s@.subrange(0, n as int) =~= s@);
    }
    slice(s, k, n)
}

/// The position just after the last character of `s` before `i` that is
/// not whitespace, or 0.
pub open spec fn non_space_before(s: Seq<char>, i: int) -> int
    decreases i,
{
    if i <= 0 {
        0
    } else if !char_is_whitespace(s[i - 1]) {
        i
    } else {
        non_space_before(s, i - 1)
    }
}

proof fn lemma_trim_end_before(s: Seq<char>, i: int)
    requires
        0 <= i <= s.len(),
    ensures
        0 <= non_space_before(s, i) <= i,
        trim_end_spec(s.subrange(0, i)) == s.subrange(0, non_space_before(s, i)),
    decreases i,
{
    let t = s.subrange(0, i);
    if i > 0 {
        if char_is_whitespace(s[i - 1]) {
            assert(t.drop_last() =~= s.subrange(0, i - 1));
            lemma_trim_end_before(s, i - 1);
        }
    }
}

/// `s` without its leading and trailing whitespace, as `str::trim` gives it.
pub fn trim(s: &str) -> (r: String)
    ensures
        r@ == trim_spec(s@),
{
    let t = trim_start(s);
    let n = t.unicode_len();
    let mut k: usize = n;
    while k > 0 && is_whitespace(t.get_char(k - 1))
        invariant
            n == t@.len(),
            k <= n,
            non_space_before(t@, k as int) == non_space_before(t@, n as int),
        decreases k,
    {
        k = k - 1;
    }
    proof {
        lemma_trim_end_before(t@, n as int);
        assert(t@.subrange(0, n as int) =~= t@);
    }
    slice(t.as_str(), 0, k)
}

/// A line without one trailing carriage return.
pub open spec fn strip_cr(l: Seq<char>) -> Seq<char> {
    if l.len() > 0 && l.last() == '\r' {
        l.drop_last()
    } else {
        l
    }
}

/// The lines of `s` as `str::lines` gives them: the text between line
/// feeds, where a line that ended with a line feed loses one trailing
/// carriage return, and a final line feed ends the last line.
pub open spec fn text_lines(s: Seq<char>) -> Seq<Seq<char>> {
    let p = crate::paths::split_char(s, '\n');
    let ended = p.drop_last().map_values(|l: Seq<char>| strip_cr(l));
    if s.len() == 0 || s.last() == '\n' {
        ended
    } else {
        ended.push(p.last())
    }
}

/// `l` without one trailing carriage return.
fn without_cr(l: &str) -> (r: String)
    ensures
        r@ == strip_cr(l@),
{
    let n = l.unicode_len();
    if n > 0 && l.get_char(n - 1) == '\r' {
        slice(l, 0, n - 1)
    } else {
        owned(l)
    }
}

/// The lines of `s`, as `str::lines` gives them.
pub fn lines(s: &str) -> (r: Vec<String>)
    ensures
        r.deep_view() == text_lines(s@),
{
    let n = s.unicode_len();
    let mut out: Vec<String> = Vec::new();
    let ghost mut done: Seq<Seq<char>> = Seq::empty();
    let mut start: usize = 0;
    let mut k: usize = 0;
    proof {
        assert(s@.subrange(0, 0) =~= Seq::<char>::empty());
        assert(crate::paths::split_char(s@.subrange(0, 0), '\n') =~= done.push(s@.subrange(0, 0)));
        assert(out.deep_view() =~= done.map_values(|l: Seq<char>| strip_cr(l)));
    }
    while k < n
        invariant
            n == s@.len(),
            start <= k <= n,
            k > 0 ==> (start == k <==> s@[k - 1] == '\n'),
            crate::paths::split_char(s@.subrange(0, k as int), '\n') == done.push(s@.subrange(start as int, k as int)),
            out.deep_view() == done.map_values(|l: Seq<char>| strip_cr(l)),
        decreases n - k,
    {
        let c = s.get_char(k);
        let ghost pre = s@.subrange(0, k as int);
        let ghost post = s@.subrange(0, k + 1);
        assert(post.drop_last() =~= pre);
        assert(post.last() == c);
        if c == '\n' {
            let piece = slice(s, start, k);
            let line = without_cr(piece.as_str());
            let ghost old_out = out.deep_view();
            push_word(&mut out, line);
            proof {
                done = done.push(piece@);
                assert(out.deep_view() =~= done.map_values(|l: Seq<char>| strip_cr(l)));
                assert(s@.subrange(k + 1, k + 1) =~= Seq::<char>::empty());
                assert(crate::paths::split_char(post, '\n') =~= done.push(s@.subrange(k + 1, k + 1)));
            }
            start = k + 1;
        } else {
            proof {
                assert(s@.subrange(start as int, k + 1) =~= s@.subrange(start as int, k as int).push(c));
                let r = crate::paths::split_char(pre, '\n');
                assert(r.update(r.len() - 1, r.last().push(c)) =~= done.push(s@.subrange(start as int, k + 1)));
            }
        }
        k = k + 1;
    }
    assert(s@.subrange(0, n as int) =~= s@);
    if start < n {
        let last = slice(s, start, n);
        push_word(&mut out, last);
        proof {
            assert(s@.last() != '\n');
        }
    }
    out
}

/// The first position at or after `i` where `c` occurs in `s`, or `s.len()`.
pub open spec fn position_from(s: Seq<char>, c: char, i: int) -> int
    decreases s.len() - i,
{
    if i >= s.len() {
        s.len() as int
    } else if s[i] == c {
        i
    } else {
        position_from(s, c, i + 1)
    }
}

/// The first position of `c` in `s`, or `s.len()` when `c` does not occur.
pub open spec fn char_position(s: Seq<char>, c: char) -> int {
    position_from(s, c, 0)
}

/// `position_from` stays within the text and skips only other characters.
pub proof fn lemma_position_from(s: Seq<char>, c: char, i: int)
    requires
        0 <= i <= s.len(),
    ensures
        i <= position_from(s, c, i) <= s.len(),
        position_from(s, c, i) < s.len() ==> s[position_from(s, c, i)] == c,
        forall|j: int| i <= j < position_from(s, c, i) ==> s[j] != c,
    decreases s.len() - i,
{
    if i < s.len() && s[i] != c {
        lemma_position_from(s, c, i + 1);
    }
}

/// The first character position of `c` in `s`, or its length.
pub fn position_of(s: &str, c: char) -> (r: usize)
    ensures
        r as int == char_position(s@, c),
        r <= s@.len(),
{
    let n = s.unicode_len();
    let mut k: usize = 0;
    while k < n && s.get_char(k) != c
        invariant
            n == s@.len(),
            k <= n,
            position_from(s@, c, k as int) == char_position(s@, c),
        decreases n - k,
    {
        k = k + 1;
    }
    k
}

} // verus!
