//! Reading the Rust rules of a BUILD file (their kind, name, sources and
//! the crate they test) and choosing the rule to run for a source file.
use vstd::prelude::*;
use crate::bazel::{BazelTarget, BazelTargetKind};
use crate::paths::split_char;
use crate::strings::{
    char_position, concat2, find, find_from, index_of, is_prefix, lemma_index_of, lemma_position_from, lines,
    occurs_at, owned, position_of, seq_contains, slice, slice_from, starts_with, str_eq, text_lines, trim,
    trim_spec, trim_start, trim_start_spec, char_is_whitespace, first_occurrence_from, strip_cr,
};
use crate::types::push_string;

verus! {

/// The rule blocks read so far: the finished blocks, the block being read,
/// whether a rule is open, and the parenthesis depth.
pub struct BlockScan {
    pub blocks: Seq<Seq<char>>,
    pub current: Seq<char>,
    pub in_rule: bool,
    pub paren: int,
}

/// Nothing read yet.
pub open spec fn no_blocks() -> BlockScan {
    BlockScan { blocks: Seq::empty(), current: Seq::empty(), in_rule: false, paren: 0 }
}

/// One character counted: `(` opens, `)` closes, and a `)` that brings the
/// depth to zero ends the block being read.
pub open spec fn paren_step(st: BlockScan, c: char) -> BlockScan {
    if c == '(' {
        BlockScan { paren: st.paren + 1, ..st }
    } else if c == ')' {
        if st.paren - 1 == 0 {
            BlockScan { blocks: st.blocks.push(st.current), current: Seq::empty(), in_rule: false, paren: 0 }
        } else {
            BlockScan { paren: st.paren - 1, ..st }
        }
    } else {
        st
    }
}

/// The characters of a line counted in order.
pub open spec fn paren_scan(st: BlockScan, line: Seq<char>) -> BlockScan
    decreases line.len(),
{
    if line.len() == 0 {
        st
    } else {
        paren_step(paren_scan(st, line.drop_last()), line.last())
    }
}

/// A trimmed line that starts a rule: `rust_…` or `load(`.
pub open spec fn starts_rule(t: Seq<char>) -> bool {
    is_prefix("rust_"@, t) || is_prefix("load("@, t)
}

/// One line read: it may open a rule; a line read inside a rule joins the
/// block, then its parentheses are counted.
pub open spec fn block_line(st: BlockScan, line: Seq<char>) -> BlockScan {
    let st1 = if !st.in_rule && starts_rule(trim_spec(line)) {
        BlockScan { in_rule: true, current: Seq::empty(), ..st }
    } else {
        st
    };
    if st1.in_rule {
        paren_scan(BlockScan { current: st1.current + line + seq!['\n'], ..st1 }, line)
    } else {
        st1
    }
}

/// Lines read in order.
pub open spec fn block_lines(st: BlockScan, ls: Seq<Seq<char>>) -> BlockScan
    decreases ls.len(),
{
    if ls.len() == 0 {
        st
    } else {
        block_line(block_lines(st, ls.drop_last()), ls.last())
    }
}

/// The rule blocks of a BUILD file's text, each with its lines and their
/// line feeds.
pub open spec fn rule_blocks(content: Seq<char>) -> Seq<Seq<char>> {
    block_lines(no_blocks(), text_lines(content)).blocks
}

/// The total length of some lines.
pub open spec fn total_len(ls: Seq<Seq<char>>) -> int
    decreases ls.len(),
{
    if ls.len() == 0 {
        0
    } else {
        total_len(ls.drop_last()) + ls.last().len()
    }
}

proof fn lemma_split_total(s: Seq<char>, c: char)
    ensures
        total_len(split_char(s, c)) + split_char(s, c).len() == s.len() + 1,
    decreases s.len(),
{
    if s.len() > 0 {
        lemma_split_total(s.drop_last(), c);
        crate::paths::lemma_split_char_nonempty(s.drop_last(), c);
        let r = split_char(s.drop_last(), c);
        assert(total_len(r) == total_len(r.drop_last()) + r.last().len());
        if s.last() == c {
            let u = r.push(Seq::empty());
            assert(u.drop_last() =~= r);
            assert(total_len(u) == total_len(r));
            assert(split_char(s, c) == u);
        } else {
            let u = r.update(r.len() - 1, r.last().push(s.last()));
            assert(u.drop_last() =~= r.drop_last());
            assert(total_len(u) == total_len(r.drop_last()) + r.last().len() + 1);
            assert(split_char(s, c) == u);
        }
    } else {
        let u: Seq<Seq<char>> = seq![Seq::empty()];
        assert(u.drop_last() =~= Seq::<Seq<char>>::empty());
        assert(total_len(u.drop_last()) == 0);
        assert(total_len(u) == 0);
    }
}

proof fn lemma_strip_total(ls: Seq<Seq<char>>)
    ensures
        total_len(ls.map_values(|l: Seq<char>| strip_cr(l))) <= total_len(ls),
    decreases ls.len(),
{
    if ls.len() > 0 {
        lemma_strip_total(ls.drop_last());
        assert(ls.map_values(|l: Seq<char>| strip_cr(l)).drop_last() =~= ls.drop_last().map_values(
            |l: Seq<char>| strip_cr(l),
        ));
    }
}

proof fn lemma_prefix_total(ls: Seq<Seq<char>>, i: int)
    requires
        0 <= i <= ls.len(),
    ensures
        total_len(ls.subrange(0, i)) <= total_len(ls),
    decreases ls.len(),
{
    if i < ls.len() {
        assert(ls.drop_last().subrange(0, i) =~= ls.subrange(0, i));
        lemma_prefix_total(ls.drop_last(), i);
    } else {
        assert(ls.subrange(0, i) =~= ls);
    }
}

/// The lines of a text are no longer, together, than the text.
proof fn lemma_lines_total(s: Seq<char>)
    ensures
        total_len(text_lines(s)) <= s.len(),
{
    let p = split_char(s, '\n');
    lemma_split_total(s, '\n');
    crate::paths::lemma_split_char_nonempty(s, '\n');
    lemma_strip_total(p.drop_last());
    let ended = p.drop_last().map_values(|l: Seq<char>| strip_cr(l));
    assert(p.drop_last().push(p.last()) =~= p);
    assert(total_len(p) == total_len(p.drop_last()) + p.last().len());
    if !(s.len() == 0 || s.last() == '\n') {
        assert(ended.push(p.last()).drop_last() =~= ended);
    }
}

/// The rule blocks of a BUILD file's text.
pub fn extract_rule_blocks(content: &str) -> (r: Vec<String>)
    ensures
        r.deep_view() == rule_blocks(content@),
{
    let total = content.unicode_len();
    let ls = lines(content);
    let ghost lv = ls.deep_view();
    proof {
        lemma_lines_total(content@);
    }
    let mut blocks: Vec<String> = Vec::new();
    let mut current = String::new();
    let mut in_rule = false;
    let mut paren: i128 = 0;
    let ghost mut used: int = 0;
    proof {
        assert(blocks.deep_view() =~= Seq::<Seq<char>>::empty());
        assert(lv.subrange(0, 0) =~= Seq::<Seq<char>>::empty());
    }
    let mut li: usize = 0;
    while li < ls.len()
        invariant
            li <= ls@.len(),
            lv == ls.deep_view(),
            lv == text_lines(content@),
            total_len(lv) <= content@.len(),
            total == content@.len(),
            used == total_len(lv.subrange(0, li as int)),
            -used <= paren <= used,
            (BlockScan { blocks: blocks.deep_view(), current: current@, in_rule, paren: paren as int }) == block_lines(
                no_blocks(),
                lv.subrange(0, li as int),
            ),
        decreases ls.len() - li,
    {
        let line = ls[li].as_str();
        let ghost pre = lv.subrange(0, li as int);
        let ghost post = lv.subrange(0, li + 1);
        assert(post.drop_last() =~= pre);
        assert(post.last() == line@);
        proof {
            lemma_prefix_total(lv, li + 1);
            assert(total_len(post) == total_len(pre) + line@.len());
        }
        let t = trim(line);
        if !in_rule && (starts_with(t.as_str(), "rust_") || starts_with(t.as_str(), "load(")) {
            in_rule = true;
            current = String::new();
        }
        if in_rule {
            let ghost before = current@;
            current.append(line);
            current.append("\n");
            proof {
                reveal_strlit("\n");
                assert(current@ =~= before + line@ + seq!['\n']);
            }
            let ghost start = BlockScan { blocks: blocks.deep_view(), current: current@, in_rule, paren: paren as int };
            let n = line.unicode_len();
            let mut j: usize = 0;
            assert(line@.subrange(0, 0) =~= Seq::<char>::empty());
            while j < n
                invariant
                    n == line@.len(),
                    j <= n,
                    used + n <= content@.len(),
                    total == content@.len(),
                    -(used + j) <= paren <= used + j,
                    (BlockScan { blocks: blocks.deep_view(), current: current@, in_rule, paren: paren as int })
                        == paren_scan(start, line@.subrange(0, j as int)),
                decreases n - j,
            {
                let ch = line.get_char(j);
                let ghost sub = line@.subrange(0, j + 1);
                assert(sub.drop_last() =~= line@.subrange(0, j as int));
                assert(sub.last() == ch);
                if ch == '(' {
                    paren = paren + 1;
                } else if ch == ')' {
                    paren = paren - 1;
                    if paren == 0 {
                        in_rule = false;
                        let done = current;
                        let ghost old_dv = blocks.deep_view();
                        push_string(&mut blocks, done);
                        current = String::new();
                    }
                }
                j = j + 1;
            }
            assert(line@.subrange(0, n as int) =~= line@);
        }
        proof {
            used = used + line@.len();
        }
        li = li + 1;
    }
    assert(lv.subrange(0, ls@.len() as int) =~= lv);
    blocks
}

/// The kind of rule a block starts with, by its name: `rust_test`,
/// `rust_binary` or `rust_library`.
pub open spec fn rule_kind(block: Seq<char>) -> Option<BazelTargetKind> {
    let t = trim_start_spec(block);
    if is_prefix("rust_test"@, t) {
        Some(BazelTargetKind::Test)
    } else if is_prefix("rust_binary"@, t) {
        Some(BazelTargetKind::Binary)
    } else if is_prefix("rust_library"@, t) {
        Some(BazelTargetKind::Library)
    } else {
        None
    }
}

/// The kind of rule a block starts with.
pub fn get_rule_type(block: &str) -> (r: Option<BazelTargetKind>)
    ensures
        r == rule_kind(block@),
{
    let t = trim_start(block);
    if starts_with(t.as_str(), "rust_test") {
        Some(BazelTargetKind::Test)
    } else if starts_with(t.as_str(), "rust_binary") {
        Some(BazelTargetKind::Binary)
    } else if starts_with(t.as_str(), "rust_library") {
        Some(BazelTargetKind::Library)
    } else {
        None
    }
}

/// The text after an opening quote up to the closing `q`, when there is one.
pub open spec fn quoted_value(v: Seq<char>, q: char) -> Option<Seq<char>> {
    let rest = v.subrange(1, v.len() as int);
    let e = char_position(rest, q);
    if e < rest.len() {
        Some(rest.subrange(0, e))
    } else {
        None
    }
}

/// A character that ends a label: `,`, `)` or whitespace.
pub open spec fn ends_label(c: char) -> bool {
    c == ',' || c == ')' || char_is_whitespace(c)
}

/// The first position at or after `i` of a character that ends a label, or `s.len()`.
pub open spec fn label_end_from(s: Seq<char>, i: int) -> int
    decreases s.len() - i,
{
    if i >= s.len() {
        s.len() as int
    } else if ends_label(s[i]) {
        i
    } else {
        label_end_from(s, i + 1)
    }
}

/// The value of `attr = …` in a block: a quoted string, or a label starting
/// with `:` up to the next `,`, `)` or whitespace.
pub open spec fn attribute_value(block: Seq<char>, attr: Seq<char>) -> Option<Seq<char>> {
    let pat = attr + " ="@;
    if !seq_contains(block, pat) {
        None
    } else {
        let v = trim_start_spec(block.subrange(index_of(block, pat) + pat.len(), block.len() as int));
        if v.len() > 0 && v[0] == '"' {
            quoted_value(v, '"')
        } else if v.len() > 0 && v[0] == '\'' {
            quoted_value(v, '\'')
        } else if v.len() > 0 && v[0] == ':' {
            Some(v.subrange(0, 1 + label_end_from(v.subrange(1, v.len() as int), 0)))
        } else {
            None
        }
    }
}

fn quoted(v: &str, q: char) -> (r: Option<String>)
    requires
        v@.len() > 0,
    ensures
        opt_seq(r) == quoted_value(v@, q),
{
    let n = v.unicode_len();
    let rest = slice_from(v, 1);
    let e = position_of(rest.as_str(), q);
    if e < rest.unicode_len() {
        Some(slice(rest.as_str(), 0, e))
    } else {
        None
    }
}

/// The characters of an optional string.
pub open spec fn opt_seq(o: Option<String>) -> Option<Seq<char>> {
    match o {
        Some(s) => Some(s@),
        None => None,
    }
}

fn label_end(s: &str) -> (r: usize)
    ensures
        r as int == label_end_from(s@, 0),
        r <= s@.len(),
{
    let n = s.unicode_len();
    let mut k: usize = 0;
    while k < n
        invariant
            n == s@.len(),
            k <= n,
            label_end_from(s@, k as int) == label_end_from(s@, 0),
        decreases n - k,
    {
        let c = s.get_char(k);
        if c == ',' || c == ')' || crate::strings::is_whitespace(c) {
            return k;
        }
        k = k + 1;
    }
    k
}

/// The value of `attr = …` in a block.
pub fn extract_attribute(block: &str, attr_name: &str) -> (r: Option<String>)
    ensures
        opt_seq(r) == attribute_value(block@, attr_name@),
{
    let pattern = concat2(attr_name, " =");
    let bn = block.unicode_len();
    match find(block, pattern.as_str()) {
        None => None,
        Some(pos) => {
            let plen = pattern.unicode_len();
            proof {
                lemma_index_of(block@, pattern@);
            }
            let after = slice_from(block, pos + plen);
            let v = trim_start(after.as_str());
            let vn = v.unicode_len();
            if vn > 0 && v.get_char(0) == '"' {
                quoted(v.as_str(), '"')
            } else if vn > 0 && v.get_char(0) == '\'' {
                quoted(v.as_str(), '\'')
            } else if vn > 0 && v.get_char(0) == ':' {
                let rest = slice_from(v.as_str(), 1);
                let e = label_end(rest.as_str());
                Some(slice(v.as_str(), 0, 1 + e))
            } else {
                None
            }
        },
    }
}

/// The double-quoted strings of a list's text, in order.
pub open spec fn quoted_strings(s: Seq<char>) -> Seq<Seq<char>>
    decreases s.len(),
{
    let a = char_position(s, '"');
    if a >= s.len() {
        Seq::empty()
    } else {
        let rest = s.subrange(a + 1, s.len() as int);
        let b = char_position(rest, '"');
        if b >= rest.len() {
            Seq::empty()
        } else {
            proof {
                lemma_position_from(s, '"', 0);
                lemma_position_from(rest, '"', 0);
            }
            seq![rest.subrange(0, b)] + quoted_strings(rest.subrange(b + 1, rest.len() as int))
        }
    }
}

/// The double-quoted strings of a list's text.
fn quoted_list(s: &str) -> (r: Vec<String>)
    ensures
        r.deep_view() == quoted_strings(s@),
    decreases s@.len(),
{
    let n = s.unicode_len();
    let a = position_of(s, '"');
    proof {
        lemma_position_from(s@, '"', 0);
    }
    if a >= n {
        let r: Vec<String> = Vec::new();
        assert(r.deep_view() =~= Seq::<Seq<char>>::empty());
        return r;
    }
    let rest = slice_from(s, a + 1);
    let rn = rest.unicode_len();
    let b = position_of(rest.as_str(), '"');
    proof {
        lemma_position_from(rest@, '"', 0);
    }
    if b >= rn {
        let r: Vec<String> = Vec::new();
        assert(r.deep_view() =~= Seq::<Seq<char>>::empty());
        return r;
    }
    let item = slice(rest.as_str(), 0, b);
    let tail = slice_from(rest.as_str(), b + 1);
    let more = quoted_list(tail.as_str());
    let mut r: Vec<String> = Vec::new();
    push_string(&mut r, item);
    crate::types::extend_strings(&mut r, &more);
    assert(r.deep_view() =~= seq![item@] + more.deep_view());
    r
}

/// The sources listed in `srcs = [...]`: the double-quoted strings between
/// the brackets.
pub open spec fn srcs_value(block: Seq<char>) -> Seq<Seq<char>> {
    let pat = "srcs ="@;
    if !seq_contains(block, pat) {
        Seq::empty()
    } else {
        let t = trim_start_spec(block.subrange(index_of(block, pat) + 6, block.len() as int));
        if t.len() > 0 && t[0] == '[' {
            let e = char_position(t, ']');
            if e < t.len() {
                quoted_strings(t.subrange(1, e))
            } else {
                Seq::empty()
            }
        } else {
            Seq::empty()
        }
    }
}

/// The sources listed in a block.
pub fn extract_srcs(block: &str) -> (r: Vec<String>)
    ensures
        r.deep_view() == srcs_value(block@),
{
    let empty: Vec<String> = Vec::new();
    assert(empty.deep_view() =~= Seq::<Seq<char>>::empty());
    let bn = block.unicode_len();
    match find(block, "srcs =") {
        None => empty,
        Some(pos) => {
            proof {
                reveal_strlit("srcs =");
                lemma_index_of(block@, "srcs ="@);
            }
            let after = slice_from(block, pos + 6);
            let t = trim_start(after.as_str());
            let tn = t.unicode_len();
            if tn > 0 && t.get_char(0) == '[' {
                let e = position_of(t.as_str(), ']');
                proof {
                    lemma_position_from(t@, ']', 0);
                }
                if e < tn {
                    let list = slice(t.as_str(), 1, e);
                    quoted_list(list.as_str())
                } else {
                    empty
                }
            } else {
                empty
            }
        },
    }
}

/// A target as values: name, kind, sources and crate reference.
pub open spec fn target_parts(t: BazelTarget) -> (Seq<char>, BazelTargetKind, Seq<Seq<char>>, Option<Seq<char>>) {
    (t.name@, t.kind, t.sources.deep_view(), opt_seq(t.crate_ref))
}

/// What a block declares: a target when it is a Rust rule with a name.
pub open spec fn block_target(block: Seq<char>) -> Option<(Seq<char>, BazelTargetKind, Seq<Seq<char>>, Option<Seq<char>>)> {
    match (rule_kind(block), attribute_value(block, "name"@)) {
        (Some(k), Some(n)) => Some((n, k, srcs_value(block), attribute_value(block, "crate"@))),
        _ => None,
    }
}

/// The targets the blocks declare, in order.
pub open spec fn block_targets(blocks: Seq<Seq<char>>) -> Seq<(Seq<char>, BazelTargetKind, Seq<Seq<char>>, Option<Seq<char>>)>
    decreases blocks.len(),
{
    if blocks.len() == 0 {
        Seq::empty()
    } else {
        block_targets(blocks.drop_last()) + match block_target(blocks.last()) {
            Some(t) => seq![t],
            None => Seq::empty(),
        }
    }
}

/// The Rust targets a BUILD file's text declares (each labelled `:name`
/// within its package).
pub fn parse_bazel_targets(content: &str) -> (r: Vec<BazelTarget>)
    ensures
        r@.map_values(|t: BazelTarget| target_parts(t)) == block_targets(rule_blocks(content@)),
        forall|i: int| 0 <= i < r@.len() ==> (#[trigger] r@[i]).label@ == ":"@ + r@[i].name@,
{
    let blocks = extract_rule_blocks(content);
    let ghost bv = blocks.deep_view();
    let mut targets: Vec<BazelTarget> = Vec::new();
    let mut i: usize = 0;
    assert(bv.subrange(0, 0) =~= Seq::<Seq<char>>::empty());
    assert(targets@.map_values(|t: BazelTarget| target_parts(t)) =~= block_targets(bv.subrange(0, 0)));
    while i < blocks.len()
        invariant
            i <= blocks@.len(),
            bv == blocks.deep_view(),
            bv == rule_blocks(content@),
            targets@.map_values(|t: BazelTarget| target_parts(t)) == block_targets(bv.subrange(0, i as int)),
            forall|j: int| 0 <= j < targets@.len() ==> (#[trigger] targets@[j]).label@ == ":"@ + targets@[j].name@,
        decreases blocks.len() - i,
    {
        let block = blocks[i].as_str();
        let ghost sub = bv.subrange(0, i + 1);
        assert(sub.drop_last() =~= bv.subrange(0, i as int));
        assert(sub.last() == block@);
        let ghost before = targets@.map_values(|t: BazelTarget| target_parts(t));
        match get_rule_type(block) {
            Some(kind) => match extract_attribute(block, "name") {
                Some(name) => {
                    let sources = extract_srcs(block);
                    let crate_ref = extract_attribute(block, "crate");
                    let label = concat2(":", name.as_str());
                    let t = BazelTarget { name, label, kind, sources, crate_ref };
                    let ghost old_t = targets@;
                    targets.push(t);
                    proof {
                        assert(targets@ == old_t.push(t));
                        assert(targets@.map_values(|t: BazelTarget| target_parts(t)) =~= before.push(target_parts(t)));
                    }
                },
                None => {
                    assert(before + Seq::empty() =~= before);
                },
            },
            None => {
                assert(before + Seq::empty() =~= before);
            },
        }
        assert(targets@.map_values(|t: BazelTarget| target_parts(t)) =~= block_targets(sub));
        i = i + 1;
    }
    assert(bv.subrange(0, blocks@.len() as int) =~= bv);
    targets
}

/// `package:name`, or `:name` in the root package `//`.
pub open spec fn label_in(package: Seq<char>, name: Seq<char>) -> Seq<char> {
    if package == "//"@ {
        ":"@ + name
    } else {
        package + ":"@ + name
    }
}

/// The crate a reference names, without a leading `:`.
pub open spec fn crate_name(r: Seq<char>) -> Seq<char> {
    if r.len() > 0 && r[0] == ':' {
        r.subrange(1, r.len() as int)
    } else {
        r
    }
}

/// A target as values: name, kind, sources and crate reference.
pub type TargetParts = (Seq<char>, BazelTargetKind, Seq<Seq<char>>, Option<Seq<char>>);

/// `i` is the first target `ok` holds of.
pub open spec fn first_with(targets: Seq<TargetParts>, i: int, ok: spec_fn(TargetParts) -> bool) -> bool {
    &&& 0 <= i < targets.len()
    &&& ok(targets[i])
    &&& forall|j: int| 0 <= j < i ==> !ok(#[trigger] targets[j])
}

/// There is one first target `ok` holds of.
pub proof fn lemma_first_unique(targets: Seq<TargetParts>, i: int, j: int, ok: spec_fn(TargetParts) -> bool)
    requires
        first_with(targets, i, ok),
        first_with(targets, j, ok),
    ensures
        i == j,
{
    if i < j {
        assert(!ok(targets[i]));
    } else if j < i {
        assert(!ok(targets[j]));
    }
}

/// A library whose sources list the file.
pub open spec fn lists_file(file: Seq<char>) -> spec_fn(TargetParts) -> bool {
    |t: TargetParts| t.1 == BazelTargetKind::Library && t.2.contains(file)
}

/// A test of the crate `lib`.
pub open spec fn tests_crate(lib: Seq<char>) -> spec_fn(TargetParts) -> bool {
    |t: TargetParts| t.1 == BazelTargetKind::Test && t.3 is Some && crate_name(t.3->0) == lib
}

/// A target of kind `k`.
pub open spec fn of_kind(k: BazelTargetKind) -> spec_fn(TargetParts) -> bool {
    |t: TargetParts| t.1 == k
}

/// The first target `ok` holds of, when there is one.
pub open spec fn first_of(targets: Seq<TargetParts>, ok: spec_fn(TargetParts) -> bool) -> Option<int> {
    if exists|i: int| first_with(targets, i, ok) {
        Some(choose|i: int| first_with(targets, i, ok))
    } else {
        None
    }
}

/// The label to run for a file of a package: for a test, the test of the
/// first library listing the file, else the first test; otherwise the
/// first binary.
pub open spec fn target_for_file(package: Seq<char>, targets: Seq<TargetParts>, file: Seq<char>, is_test: bool) -> Option<Seq<char>> {
    let any_test = first_of(targets, of_kind(BazelTargetKind::Test));
    let pick = if is_test {
        match first_of(targets, lists_file(file)) {
            Some(i) => match first_of(targets, tests_crate(targets[i].0)) {
                Some(j) => Some(j),
                None => any_test,
            },
            None => any_test,
        }
    } else {
        first_of(targets, of_kind(BazelTargetKind::Binary))
    };
    match pick {
        Some(j) => Some(label_in(package, targets[j].0)),
        None => None,
    }
}

/// The targets as values.
pub open spec fn parts_of(targets: Seq<BazelTarget>) -> Seq<TargetParts> {
    targets.map_values(|t: BazelTarget| target_parts(t))
}

fn sources_contain(sources: &Vec<String>, file: &str) -> (r: bool)
    ensures
        r == sources.deep_view().contains(file@),
{
    let mut i: usize = 0;
    while i < sources.len()
        invariant
            i <= sources@.len(),
            forall|j: int| 0 <= j < i ==> sources.deep_view()[j] != file@,
        decreases sources.len() - i,
    {
        if str_eq(sources[i].as_str(), file) {
            assert(sources.deep_view()[i as int] == file@);
            return true;
        }
        i = i + 1;
    }
    false
}

fn strip_colon(r: &str) -> (s: String)
    ensures
        s@ == crate_name(r@),
{
    let n = r.unicode_len();
    if n > 0 && r.get_char(0) == ':' {
        slice_from(r, 1)
    } else {
        owned(r)
    }
}

/// Which targets are looked for.
enum Want<'a> {
    Listing(&'a str),
    TestOf(&'a str),
    Kind(BazelTargetKind),
}

spec fn want_pred(w: Want) -> spec_fn(TargetParts) -> bool {
    match w {
        Want::Listing(f) => lists_file(f@),
        Want::TestOf(l) => tests_crate(l@),
        Want::Kind(k) => of_kind(k),
    }
}

fn wanted(t: &BazelTarget, w: &Want) -> (r: bool)
    ensures
        r == (want_pred(*w))(target_parts(*t)),
{
    match w {
        Want::Listing(f) => t.kind == BazelTargetKind::Library && sources_contain(&t.sources, f),
        Want::TestOf(l) => t.kind == BazelTargetKind::Test && match &t.crate_ref {
            Some(c) => {
                let n = strip_colon(c.as_str());
                str_eq(n.as_str(), l)
            },
            None => false,
        },
        Want::Kind(k) => t.kind == *k,
    }
}

fn find_first(targets: &Vec<BazelTarget>, w: &Want) -> (r: Option<usize>)
    ensures
        match r {
            Some(i) => first_of(parts_of(targets@), want_pred(*w)) == Some(i as int),
            None => first_of(parts_of(targets@), want_pred(*w)) is None,
        },
{
    let ghost pv = parts_of(targets@);
    let ghost ok = want_pred(*w);
    let mut i: usize = 0;
    while i < targets.len()
        invariant
            i <= targets@.len(),
            pv == parts_of(targets@),
            ok == want_pred(*w),
            forall|j: int| 0 <= j < i ==> !ok(#[trigger] pv[j]),
        decreases targets.len() - i,
    {
        if wanted(&targets[i], w) {
            proof {
                assert(pv[i as int] == target_parts(targets@[i as int]));
                assert(first_with(pv, i as int, ok));
                let k = choose|k: int| first_with(pv, k, ok);
                lemma_first_unique(pv, i as int, k, ok);
            }
            return Some(i);
        }
        assert(pv[i as int] == target_parts(targets@[i as int]));
        i = i + 1;
    }
    None
}

/// `package:name`, or `:name` in the root package.
fn label_for(package: &str, name: &str) -> (r: String)
    ensures
        r@ == label_in(package@, name@),
{
    if str_eq(package, "//") {
        concat2(":", name)
    } else {
        crate::strings::concat3(package, ":", name)
    }
}

/// The label to run for a file of a package, chosen among the package's
/// targets (`file` is relative to the package's directory).
pub fn select_target_for_file(package_path: &str, targets: &Vec<BazelTarget>, file: &str, is_test: bool) -> (r: Option<String>)
    ensures
        opt_seq(r) == target_for_file(package_path@, parts_of(targets@), file@, is_test),
{
    let ghost pv = parts_of(targets@);
    let pick = if is_test {
        match find_first(targets, &Want::Listing(file)) {
            Some(i) => {
                assert(pv[i as int].0 == targets@[i as int].name@);
                match find_first(targets, &Want::TestOf(targets[i].name.as_str())) {
                    Some(j) => Some(j),
                    None => find_first(targets, &Want::Kind(BazelTargetKind::Test)),
                }
            },
            None => find_first(targets, &Want::Kind(BazelTargetKind::Test)),
        }
    } else {
        find_first(targets, &Want::Kind(BazelTargetKind::Binary))
    };
    match pick {
        Some(j) => {
            assert(pv[j as int].0 == targets@[j as int].name@);
            Some(label_for(package_path, targets[j].name.as_str()))
        },
        None => None,
    }
}

/// The label to run for a file, from the text of the BUILD file of its
/// package: the package's Rust targets are read, then one is chosen.
pub fn find_bazel_target_in_build(content: &str, package_path: &str, file: &str, is_test: bool) -> (r: Option<String>)
    ensures
        opt_seq(r) == target_for_file(package_path@, block_targets(rule_blocks(content@)), file@, is_test),
{
    let targets = parse_bazel_targets(content);
    select_target_for_file(package_path, &targets, file, is_test)
}

} // verus!
