//! File paths as text: their components, suffix and prefix relations between
//! paths, the file name and stem, and the simple `*` patterns configuration uses.
use vstd::prelude::*;

use crate::strings::{lemma_index_of, contains, find, index_of, is_prefix, last_index_of_char, occurs_at, rfind_char, seq_contains, slice, slice_from, starts_with, str_eq};
use crate::types::{clone_strings, push_string};

verus! {

/// `s` split at every `c` (an empty `s` gives one empty piece).
pub open spec fn split_char(s: Seq<char>, c: char) -> Seq<Seq<char>>
    decreases s.len(),
{
    if s.len() == 0 {
        seq![Seq::empty()]
    } else {
        let r = split_char(s.drop_last(), c);
        if s.last() == c {
            r.push(Seq::empty())
        } else {
            r.update(r.len() - 1, r.last().push(s.last()))
        }
    }
}

pub proof fn lemma_split_char_nonempty(s: Seq<char>, c: char)
    ensures
        split_char(s, c).len() >= 1,
    decreases s.len(),
{
    if s.len() > 0 {
        lemma_split_char_nonempty(s.drop_last(), c);
    }
}

/// Whether a piece at position `idx` of a path is a component: empty pieces
/// are dropped, and `.` is dropped unless it leads a relative path.
pub open spec fn keeps_piece(piece: Seq<char>, idx: int, relative: bool) -> bool {
    piece.len() > 0 && (piece != "."@ || (idx == 0 && relative))
}

/// The pieces kept as components.
pub open spec fn kept_pieces(pieces: Seq<Seq<char>>, relative: bool) -> Seq<Seq<char>>
    decreases pieces.len(),
{
    if pieces.len() == 0 {
        Seq::empty()
    } else {
        let r = kept_pieces(pieces.drop_last(), relative);
        if keeps_piece(pieces.last(), pieces.len() - 1, relative) {
            r.push(pieces.last())
        } else {
            r
        }
    }
}

/// The components of a path: the root `/` when absolute, then each
/// non-empty name between separators, with `.` kept only when it leads.
pub open spec fn components(s: Seq<char>) -> Seq<Seq<char>> {
    if is_prefix("/"@, s) {
        seq!["/"@] + kept_pieces(split_char(s, '/'), false)
    } else {
        kept_pieces(split_char(s, '/'), true)
    }
}

proof fn lemma_kept_pieces_nonempty(pieces: Seq<Seq<char>>, relative: bool)
    ensures
        forall|i: int| 0 <= i < kept_pieces(pieces, relative).len() ==> kept_pieces(pieces, relative)[i].len() > 0,
    decreases pieces.len(),
{
    if pieces.len() > 0 {
        lemma_kept_pieces_nonempty(pieces.drop_last(), relative);
        let r = kept_pieces(pieces.drop_last(), relative);
        let k = kept_pieces(pieces, relative);
        assert forall|i: int| 0 <= i < k.len() implies k[i].len() > 0 by {
            if i < r.len() {
                assert(k[i] == r[i]);
            }
        }
    }
}

/// Every component of a path is non-empty.
pub proof fn lemma_components_nonempty(s: Seq<char>)
    ensures
        forall|i: int| 0 <= i < components(s).len() ==> components(s)[i].len() > 0,
{
    reveal_strlit("/");
    lemma_kept_pieces_nonempty(split_char(s, '/'), !is_prefix("/"@, s));
    let c = components(s);
    if is_prefix("/"@, s) {
        assert forall|i: int| 0 <= i < c.len() implies c[i].len() > 0 by {
            if i > 0 {
                assert(c[i] == kept_pieces(split_char(s, '/'), false)[i - 1]);
            }
        }
    }
}

/// Path `p` ends with path `q`: the components of `q` end those of `p`.
pub open spec fn path_ends_with(p: Seq<char>, q: Seq<char>) -> bool {
    let a = components(p);
    let b = components(q);
    b.len() <= a.len() && a.subrange(a.len() - b.len(), a.len() as int) == b
}

/// Path `p` starts with path `q`: the components of `q` begin those of `p`.
pub open spec fn path_starts_with(p: Seq<char>, q: Seq<char>) -> bool {
    let a = components(p);
    let b = components(q);
    b.len() <= a.len() && a.subrange(0, b.len() as int) == b
}

/// The components of a path, computed.
pub fn path_components(s: &str) -> (r: Vec<String>)
    ensures
        r.deep_view() == components(s@),
{
    let n = s.unicode_len();
    let absolute = starts_with(s, "/");
    let relative = !absolute;
    let mut kept: Vec<String> = Vec::new();
    assert(kept.deep_view() =~= Seq::<Seq<char>>::empty());
    if absolute {
        push_string(&mut kept, String::from_str("/"));
    }
    let ghost mut done: Seq<Seq<char>> = Seq::empty();
    let mut done_count: usize = 0;
    let mut cur_start: usize = 0;
    let mut k: usize = 0;
    proof {
        assert(s@.subrange(0, 0) =~= Seq::<char>::empty());
        assert(kept.deep_view() =~= (if absolute { seq!["/"@] } else { Seq::empty() }) + kept_pieces(
            done,
            relative,
        ));
        assert(split_char(s@.subrange(0, 0), '/') =~= done.push(s@.subrange(0, 0)));
    }
    while k < n
        invariant
            n == s@.len(),
            relative == !is_prefix("/"@, s@),
            cur_start <= k <= n,
            done_count == done.len(),
            done_count <= k,
            split_char(s@.subrange(0, k as int), '/') == done.push(s@.subrange(cur_start as int, k as int)),
            kept.deep_view() == (if !relative { seq!["/"@] } else { Seq::empty() }) + kept_pieces(
                done,
                relative,
            ),
        decreases n - k,
    {
        let c = s.get_char(k);
        let ghost pre = s@.subrange(0, k as int);
        let ghost post = s@.subrange(0, k + 1);
        assert(post.drop_last() =~= pre);
        assert(post.last() == c);
        if c == '/' {
            let piece = slice(s, cur_start, k);
            let keep = piece.unicode_len() > 0 && (!str_eq(piece.as_str(), ".") || (done_count == 0
                && relative));
            proof {
                reveal_strlit(".");
                let d2 = done.push(piece@);
                assert(d2.drop_last() =~= done);
                assert(d2.last() == piece@);
                assert(keep == keeps_piece(piece@, done.len() as int, relative));
            }
            let ghost old_kept = kept.deep_view();
            if keep {
                push_string(&mut kept, piece);
            }
            proof {
                let d2 = done.push(piece@);
                assert(kept_pieces(d2, relative) == if keep { kept_pieces(done, relative).push(piece@) } else { kept_pieces(done, relative) });
                assert(kept.deep_view() =~= (if !relative { seq!["/"@] } else { Seq::empty() }) + kept_pieces(d2, relative));
            }
            done_count = done_count + 1;
            proof {
                let ghost d2 = done.push(s@.subrange(cur_start as int, k as int));
                assert(d2.drop_last() =~= done);
                done = d2;
                assert(s@.subrange((k + 1) as int, (k + 1) as int) =~= Seq::<char>::empty());
            }
            cur_start = k + 1;
        } else {
            proof {
                assert(s@.subrange(cur_start as int, k + 1) =~= s@.subrange(cur_start as int, k as int).push(c));
            }
        }
        proof {
            assert(split_char(post, '/') =~= done.push(s@.subrange(cur_start as int, k + 1)));
        }
        k = k + 1;
    }
    let piece = slice(s, cur_start, n);
    let keep = piece.unicode_len() > 0 && (!str_eq(piece.as_str(), ".") || (done_count == 0 && relative));
    proof {
        reveal_strlit(".");
        assert(s@.subrange(0, n as int) =~= s@);
        let d2 = done.push(piece@);
        assert(d2.drop_last() =~= done);
        assert(d2.last() == piece@);
        assert(keep == keeps_piece(piece@, done.len() as int, relative));
        assert(kept_pieces(d2, relative) == if keep { kept_pieces(done, relative).push(piece@) } else { kept_pieces(done, relative) });
    }
    if keep {
        push_string(&mut kept, piece);
    }
    proof {
        let d2 = done.push(piece@);
        assert(kept.deep_view() =~= (if !relative { seq!["/"@] } else { Seq::empty() }) + kept_pieces(d2, relative));
    }
    kept
}

/// For a relative path, no component has been kept yet.
fn kept_is_first(kept: &Vec<String>, absolute: bool) -> (r: bool)
    ensures
        r == (kept@.len() == (if absolute { 1int } else { 0int })),
{
    if absolute {
        kept.len() == 1
    } else {
        kept.len() == 0
    }
}

/// Kept pieces are empty exactly when no piece so far was kept; for a relative
/// path the first kept piece is at position 0 exactly when none came before.
proof fn lemma_kept_pieces_len_zero(pieces: Seq<Seq<char>>, relative: bool)
    ensures
        pieces.len() == 0 ==> kept_pieces(pieces, relative).len() == 0,
        kept_pieces(pieces, relative).len() <= pieces.len(),
    decreases pieces.len(),
{
    if pieces.len() > 0 {
        lemma_kept_pieces_len_zero(pieces.drop_last(), relative);
    }
}

/// Whether the strings of `a` from position `start` on begin with those of `b`.
fn strings_equal_at(a: &Vec<String>, start: usize, b: &Vec<String>) -> (r: bool)
    requires
        start + b@.len() <= a@.len(),
    ensures
        r == (a.deep_view().subrange(start as int, start + b@.len()) == b.deep_view()),
{
    let alen = a.len();
    let mut i: usize = 0;
    while i < b.len()
        invariant
            alen == a@.len(),
            start + b@.len() <= a@.len(),
            i <= b@.len(),
            forall|j: int| 0 <= j < i ==> a.deep_view()[start + j] == b.deep_view()[j],
        decreases b.len() - i,
    {
        if !str_eq(a[start + i].as_str(), b[i].as_str()) {
            assert(a.deep_view().subrange(start as int, start + b@.len())[i as int] != b.deep_view()[i as int]);
            return false;
        }
        i = i + 1;
    }
    assert(a.deep_view().subrange(start as int, start + b@.len()) =~= b.deep_view());
    true
}

/// Whether path `p` ends with path `q`, comparing whole components.
pub fn ends_with_path(p: &str, q: &str) -> (r: bool)
    ensures
        r == path_ends_with(p@, q@),
{
    let a = path_components(p);
    let b = path_components(q);
    assert(a.deep_view().len() == a@.len() && b.deep_view().len() == b@.len());
    if b.len() > a.len() {
        return false;
    }
    strings_equal_at(&a, a.len() - b.len(), &b)
}

/// Whether path `p` starts with path `q`, comparing whole components.
pub fn starts_with_path(p: &str, q: &str) -> (r: bool)
    ensures
        r == path_starts_with(p@, q@),
{
    let a = path_components(p);
    let b = path_components(q);
    assert(a.deep_view().len() == a@.len() && b.deep_view().len() == b@.len());
    if b.len() > a.len() {
        return false;
    }
    strings_equal_at(&a, 0, &b)
}

/// `s` with every `from` replaced by `to`.
pub open spec fn replace_char(s: Seq<char>, from: char, to: char) -> Seq<char> {
    s.map_values(|x: char| if x == from { to } else { x })
}

/// Whether pattern `pat` matches `text` the way configuration globs do: the
/// pieces between `*`s must occur in `text` in order, each searched for
/// after the end of the previous one's first occurrence.
pub open spec fn glob_pieces_match(pat: Seq<char>, text: Seq<char>) -> bool
    decreases pat.len(),
{
    if !seq_contains(pat, "*"@) {
        seq_contains(text, pat)
    } else {
        let star = index_of(pat, "*"@);
        let piece = pat.subrange(0, star);
        proof {
            reveal_strlit("*");
            lemma_index_of(pat, "*"@);
        }
        if !seq_contains(text, piece) {
            false
        } else {
            let at = index_of(text, piece);
            glob_pieces_match(
                pat.subrange(star + 1, pat.len() as int),
                text.subrange(at + piece.len(), text.len() as int),
            )
        }
    }
}

/// Pattern matching with backslashes read as forward slashes.
pub open spec fn glob_match_spec(pattern: Seq<char>, path: Seq<char>) -> bool {
    glob_pieces_match(replace_char(pattern, '\\', '/'), replace_char(path, '\\', '/'))
}

/// `s` with every backslash turned into a forward slash.
pub fn forward_slashes(s: &str) -> (r: String)
    ensures
        r@ == replace_char(s@, '\\', '/'),
{
    let n = s.unicode_len();
    let mut out = String::new();
    let mut k: usize = 0;
    while k < n
        invariant
            n == s@.len(),
            k <= n,
            out@ == replace_char(s@.subrange(0, k as int), '\\', '/'),
        decreases n - k,
    {
        let c = s.get_char(k);
        let ghost before = out@;
        proof {
            reveal_strlit("/");
            assert(s@.subrange(0, k + 1) =~= s@.subrange(0, k as int).push(c));
            assert(replace_char(s@.subrange(0, k + 1), '\\', '/') =~= replace_char(
                s@.subrange(0, k as int),
                '\\',
                '/',
            ).push(if c == '\\' { '/' } else { c }));
        }
        if c == '\\' {
            out.append("/");
            assert(out@ =~= before.push('/'));
        } else {
            let one = slice(s, k, k + 1);
            out.append(one.as_str());
            assert(out@ =~= before.push(c));
        }
        k = k + 1;
    }
    assert(s@.subrange(0, n as int) =~= s@);
    out
}

fn glob_pieces(pat: &str, text: &str) -> (r: bool)
    ensures
        r == glob_pieces_match(pat@, text@),
    decreases pat@.len(),
{
    match find(pat, "*") {
        None => contains(text, pat),
        Some(star) => {
            let piece = slice(pat, 0, star);
            match find(text, piece.as_str()) {
                None => false,
                Some(at) => {
                    proof {
                        reveal_strlit("*");
                        assert(occurs_at(pat@, "*"@, star as int));
                        assert(seq_contains(text@, piece@));
                        lemma_index_of(pat@, "*"@);
                        lemma_index_of(text@, piece@);
                    }
                    let plen = piece.unicode_len();
                    let pat_len = pat.unicode_len();
                    let text_len = text.unicode_len();
                    assert(star + 1 <= pat_len);
                    assert(at + plen <= text_len);
                    let rest_pat = slice_from(pat, star + 1);
                    let rest_text = slice_from(text, at + plen);
                    glob_pieces(rest_pat.as_str(), rest_text.as_str())
                },
            }
        },
    }
}

/// Simple glob pattern matching for file paths (`examples/leptos_*.rs`).
pub fn glob_match(pattern: &str, path: &str) -> (r: bool)
    ensures
        r == glob_match_spec(pattern@, path@),
{
    let p = forward_slashes(pattern);
    let t = forward_slashes(path);
    glob_pieces(p.as_str(), t.as_str())
}

/// The last component of a path, when it names something.
pub open spec fn file_name_spec(p: Seq<char>) -> Option<Seq<char>> {
    let c = components(p);
    if c.len() == 0 {
        None
    } else {
        let last = c.last();
        if last == "/"@ || last == "."@ || last == ".."@ {
            None
        } else {
            Some(last)
        }
    }
}

/// A file name without its extension: the text before the last `.`, unless
/// that `.` leads the name.
pub open spec fn stem_of(name: Seq<char>) -> Seq<char> {
    let dot = last_index_of_char(name, '.');
    if dot > 0 {
        name.subrange(0, dot)
    } else {
        name
    }
}

/// The stem of the file a path names.
pub open spec fn file_stem_spec(p: Seq<char>) -> Option<Seq<char>> {
    match file_name_spec(p) {
        Some(n) => Some(stem_of(n)),
        None => None,
    }
}

/// The last component of a path, when it names something.
pub fn file_name(p: &str) -> (r: Option<String>)
    ensures
        match r {
            Some(s) => file_name_spec(p@) == Some(s@),
            None => file_name_spec(p@).is_none(),
        },
{
    let c = path_components(p);
    let n = c.len();
    if n == 0 {
        return None;
    }
    let last = c[n - 1].as_str();
    if str_eq(last, "/") || str_eq(last, ".") || str_eq(last, "..") {
        None
    } else {
        Some(last.to_owned())
    }
}

/// The stem of the file a path names.
pub fn file_stem(p: &str) -> (r: Option<String>)
    ensures
        match r {
            Some(s) => file_stem_spec(p@) == Some(s@),
            None => file_stem_spec(p@).is_none(),
        },
{
    match file_name(p) {
        Some(name) => {
            match rfind_char(name.as_str(), '.') {
                Some(dot) => {
                    if dot > 0 {
                        Some(slice(name.as_str(), 0, dot))
                    } else {
                        Some(name)
                    }
                },
                None => Some(name),
            }
        },
        None => None,
    }
}

/// The components joined by `/`, the way a relative path is displayed.
pub open spec fn joined_by_slash(parts: Seq<Seq<char>>) -> Seq<char>
    decreases parts.len(),
{
    if parts.len() == 0 {
        Seq::empty()
    } else if parts.len() == 1 {
        parts[0]
    } else {
        joined_by_slash(parts.drop_last()) + "/"@ + parts.last()
    }
}

/// The components of `p` left after the components of `base`, when `p`
/// starts with `base`.
pub open spec fn strip_prefix_spec(p: Seq<char>, base: Seq<char>) -> Option<Seq<Seq<char>>> {
    if path_starts_with(p, base) {
        let a = components(p);
        Some(a.subrange(components(base).len() as int, a.len() as int))
    } else {
        None
    }
}

/// The components of `p` after those of `base`, joined by `/`.
pub fn strip_prefix(p: &str, base: &str) -> (r: Option<String>)
    ensures
        match r {
            Some(s) => strip_prefix_spec(p@, base@) is Some && s@ == joined_by_slash(
                strip_prefix_spec(p@, base@)->0,
            ),
            None => strip_prefix_spec(p@, base@) is None,
        },
{
    if !starts_with_path(p, base) {
        return None;
    }
    let a = path_components(p);
    let b = path_components(base);
    let ghost rest = a.deep_view().subrange(b@.len() as int, a@.len() as int);
    let mut out = String::new();
    let mut i: usize = b.len();
    while i < a.len()
        invariant
            b@.len() <= i <= a@.len(),
            rest == a.deep_view().subrange(b@.len() as int, a@.len() as int),
            out@ == joined_by_slash(a.deep_view().subrange(b@.len() as int, i as int)),
        decreases a.len() - i,
    {
        if i > b.len() {
            out.append("/");
        }
        out.append(a[i].as_str());
        proof {
            let s = a.deep_view().subrange(b@.len() as int, i + 1);
            assert(s.drop_last() =~= a.deep_view().subrange(b@.len() as int, i as int));
            assert(out@ =~= joined_by_slash(s));
        }
        i = i + 1;
    }
    Some(out)
}

/// The path's components, without the last one.
pub open spec fn parent_components(p: Seq<char>) -> Option<Seq<Seq<char>>> {
    let c = components(p);
    if c.len() == 0 || (c.len() == 1 && c[0] == "/"@) {
        None
    } else {
        Some(c.drop_last())
    }
}

/// A copy of the path's components.
pub fn components_of(p: &str) -> (r: Vec<String>)
    ensures
        r.deep_view() == components(p@),
{
    let c = path_components(p);
    clone_strings(&c)
}

} // verus!
