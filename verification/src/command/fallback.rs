//! Commands for a file when no runnable was found at the cursor: a runnable
//! is made up from where the file lies (cargo's layout, the targets the
//! manifest declares, or a script's shebang), and resolved like any other.
use vstd::prelude::*;
use crate::command::cargo_command::{CargoCommand, CargoCommandView};
use crate::config::v2::Config;
use crate::config::v2::registry::StrategyRegistry;
use crate::config::v2::resolver::{ConfigResolver, FileFacts, resolve_spec, outcome};
use crate::config::v2::scope::ScopeContext;
use crate::error::Error;
use crate::paths::{file_name, file_name_spec, file_stem, file_stem_spec, joined_by_slash, strip_prefix, strip_prefix_spec, replace_char, forward_slashes};
use crate::strings::{
    has_char, index_of, is_prefix, is_suffix, seq_contains, last_index_of_char, contains, starts_with, ends_with,
    find, slice, slice_from, rfind_char, str_eq, concat2, concat3, lemma_index_of,
};
use crate::types::{KindView, Position, Runnable, RunnableKind, RunnableView, Scope, ScopeKind, opt_view};

verus! {

/// A build target the manifest declares: its name and path, when given.
#[derive(Debug)]
pub struct ManifestProduct {
    pub name: Option<String>,
    pub path: Option<String>,
}

/// The build targets of a package manifest.
#[derive(Debug)]
pub struct ManifestTargets {
    pub lib_path: Option<String>,
    pub bins: Vec<ManifestProduct>,
    pub examples: Vec<ManifestProduct>,
    pub tests: Vec<ManifestProduct>,
    pub benches: Vec<ManifestProduct>,
}

/// What the file system says about a file with no runnable: its text (when
/// it could be read), the nearest directory above it with a manifest, that
/// manifest's targets (or why it could not be read), and the facts the
/// resolver needs.
#[derive(Debug)]
pub struct FallbackFacts {
    pub content: Option<String>,
    pub project_root: Option<String>,
    pub manifest: Option<Result<ManifestTargets, String>>,
    pub file: FileFacts,
}

/// The first line of a text, as `str::lines` gives it.
pub open spec fn first_line(c: Seq<char>) -> Option<Seq<char>> {
    if c.len() == 0 {
        None
    } else if seq_contains(c, "\n"@) {
        let l = c.subrange(0, index_of(c, "\n"@));
        Some(if l.len() > 0 && l.last() == '\r' {
            l.drop_last()
        } else {
            l
        })
    } else {
        Some(c)
    }
}

/// A first line that runs the file with `cargo -Zscript`.
pub open spec fn is_script_line(l: Seq<char>) -> bool {
    is_prefix("#!"@, l) && seq_contains(l, "cargo"@) && seq_contains(l, "-Zscript"@)
}

/// The file's name ends in `.rs` (the extension of a name that is not all extension).
pub open spec fn rs_extension(p: Seq<char>) -> bool {
    match file_name_spec(p) {
        Some(n) => {
            let dot = last_index_of_char(n, '.');
            dot > 0 && n.subrange(dot + 1, n.len() as int) == "rs"@
        },
        None => false,
    }
}

/// The runnable of a file, as values.
pub open spec fn made_runnable(label: Seq<char>, line_end: u32, kind: KindView, mod_path: Seq<char>, file: Seq<char>) -> RunnableView {
    RunnableView {
        label,
        start: Position { line: if line_end == 0 { 0 } else { 1 }, character: 0 },
        end: Position { line: line_end, character: 0 },
        scope_kind: ScopeKind::Function,
        scope_name: Some("main"@),
        kind,
        mod_path,
        file_path: file,
    }
}

/// The text in quotes after a label's lead.
pub open spec fn quoted(lead: Seq<char>, name: Seq<char>) -> Seq<char> {
    lead + "'"@ + name + "'"@
}

/// The runnable a cargo script gets.
pub open spec fn script_runnable(file: Seq<char>, content: Seq<char>, line: Seq<char>) -> RunnableView {
    let benchmarks = seq_contains(content, "#[bench]"@) || seq_contains(content, "criterion_group!"@)
        || seq_contains(content, "criterion_main!"@);
    made_runnable(
        if benchmarks {
            "Run cargo script benchmarks"@
        } else {
            "Run cargo script"@
        },
        0,
        KindView::SingleFileScript { shebang: line },
        Seq::empty(),
        file,
    )
}

/// The runnable cargo's directory layout gives a file, if any: a binary
/// under `src/bin` or for `src/main.rs`, a benchmark, an integration test,
/// the library's tests for a file under `src`, an example; a build script
/// gets none (`Some(None)`); `None` when the layout says nothing.
pub open spec fn layout_runnable(file: Seq<char>, package: Option<Seq<char>>) -> Option<Option<RunnableView>> {
    let n = replace_char(file, '\\', '/');
    let stem = file_stem_spec(file).unwrap_or(Seq::empty());
    let pkg = package.unwrap_or(Seq::empty());
    if seq_contains(n, "src/bin/"@) || is_suffix("src/main.rs"@, n) {
        let bin_name = if is_suffix("src/main.rs"@, n) {
            None
        } else if stem != "main"@ {
            Some(stem)
        } else {
            None
        };
        Some(Some(made_runnable(
            match bin_name {
                Some(b) => quoted("Run binary "@, b),
                None => "Run main()"@,
            },
            100,
            KindView::Binary { bin_name },
            pkg,
            file,
        )))
    } else if seq_contains(n, "benches/"@) {
        Some(Some(made_runnable(quoted("Run benchmark "@, stem), 100, KindView::Benchmark { bench_name: stem }, Seq::empty(), file)))
    } else if seq_contains(n, "tests/"@) && !is_suffix("mod.rs"@, n) {
        Some(Some(made_runnable(
            quoted("Run test "@, stem),
            100,
            KindView::Test { test_name: stem, is_async: false },
            Seq::empty(),
            file,
        )))
    } else if is_suffix("src/lib.rs"@, n) || ((seq_contains(n, "/src/"@) || is_prefix("src/"@, n)) && !seq_contains(
        n,
        "/src/bin/"@,
    ) && !is_prefix("src/bin/"@, n)) {
        Some(Some(made_runnable("Run library tests"@, 100, KindView::ModuleTests { module_name: Seq::empty() }, Seq::empty(), file)))
    } else if seq_contains(n, "examples/"@) {
        Some(Some(made_runnable(
            quoted("Run example "@, stem),
            100,
            KindView::Binary { bin_name: Some(stem) },
            Seq::empty(),
            file,
        )))
    } else if is_suffix("build.rs"@, n) {
        Some(None)
    } else {
        None
    }
}

/// The file's path relative to the project root, or the path itself.
pub open spec fn relative_to(file: Seq<char>, root: Seq<char>) -> Seq<char> {
    match strip_prefix_spec(file, root) {
        Some(parts) => joined_by_slash(parts),
        None => file,
    }
}

/// Position of the first product declared at `rel`, or -1.
pub open spec fn product_at(ps: Seq<ManifestProduct>, rel: Seq<char>) -> int
    decreases ps.len(),
{
    if ps.len() == 0 {
        -1
    } else {
        let p = product_at(ps.drop_last(), rel);
        if p >= 0 {
            p
        } else if opt_view(ps.last().path) == Some(rel) {
            ps.len() - 1
        } else {
            -1
        }
    }
}

/// The runnable the manifest's declared targets give the file: a binary,
/// an example, a test, a benchmark (named as declared, or by the file's
/// stem), or the library's tests.
pub open spec fn manifest_runnable(m: ManifestTargets, file: Seq<char>, root: Seq<char>, package: Option<Seq<char>>) -> Option<RunnableView> {
    let rel = relative_to(file, root);
    let stem = file_stem_spec(file).unwrap_or(Seq::empty());
    let pkg = package.unwrap_or(Seq::empty());
    let b = product_at(m.bins@, rel);
    let e = product_at(m.examples@, rel);
    let t = product_at(m.tests@, rel);
    let h = product_at(m.benches@, rel);
    if b >= 0 {
        let name = opt_view(m.bins@[b].name).unwrap_or(stem);
        Some(made_runnable(quoted("Run binary "@, name), 100, KindView::Binary { bin_name: Some(name) }, pkg, file))
    } else if e >= 0 {
        let name = opt_view(m.examples@[e].name).unwrap_or(stem);
        Some(made_runnable(quoted("Run example "@, name), 100, KindView::Binary { bin_name: Some(name) }, pkg, file))
    } else if t >= 0 {
        let name = opt_view(m.tests@[t].name).unwrap_or(stem);
        Some(made_runnable(quoted("Run test "@, name), 100, KindView::Test { test_name: name, is_async: false }, pkg, file))
    } else if h >= 0 {
        let name = opt_view(m.benches@[h].name).unwrap_or(stem);
        Some(made_runnable(quoted("Run benchmark "@, name), 100, KindView::Benchmark { bench_name: name }, pkg, file))
    } else if opt_view(m.lib_path) == Some(rel) {
        Some(made_runnable("Run library tests"@, 100, KindView::ModuleTests { module_name: Seq::empty() }, Seq::empty(), file))
    } else {
        None
    }
}

/// The runnable made up for a file, or the error reading its manifest.
pub open spec fn synthetic_spec(file: Seq<char>, package: Option<Seq<char>>, facts: FallbackFacts) -> Result<Option<RunnableView>, Seq<char>> {
    let script_line = if rs_extension(file) && facts.content is Some {
        first_line(facts.content->0@)
    } else {
        None
    };
    if script_line is Some && is_script_line(script_line->0) {
        Ok(Some(script_runnable(file, facts.content->0@, script_line->0)))
    } else {
        match layout_runnable(file, package) {
            Some(r) => Ok(r),
            None => match facts.project_root {
                None => Ok(None),
                Some(root) => match facts.manifest {
                    None => Ok(None),
                    Some(Err(e)) => Err("Failed to parse Cargo.toml: "@ + e@),
                    Some(Ok(m)) => Ok(manifest_runnable(m, file, root@, package)),
                },
            },
        }
    }
}

/// The first product declared at a path is found at its position.
pub proof fn lemma_product_at_first(ps: Seq<ManifestProduct>, rel: Seq<char>, p: int)
    requires
        0 <= p < ps.len(),
        opt_view(ps[p].path) == Some(rel),
        forall|i: int| 0 <= i < p ==> opt_view(ps[i].path) != Some(rel),
    ensures
        product_at(ps, rel) == p,
    decreases ps.len(),
{
    if p < ps.len() - 1 {
        lemma_product_at_first(ps.drop_last(), rel, p);
    } else {
        lemma_product_at_absent(ps.drop_last(), rel);
    }
}

/// No product is declared at the path: none is found.
pub proof fn lemma_product_at_absent(ps: Seq<ManifestProduct>, rel: Seq<char>)
    requires
        forall|i: int| 0 <= i < ps.len() ==> opt_view(ps[i].path) != Some(rel),
    ensures
        product_at(ps, rel) == -1,
    decreases ps.len(),
{
    if ps.len() > 0 {
        lemma_product_at_absent(ps.drop_last(), rel);
    }
}

/// A file that a `[[bin]]` entry of the manifest declares at its path (the
/// first such entry) is run as that binary: under the name the entry
/// declares when it names one, and under the file's stem only when it
/// names none; the label names the same binary.
pub proof fn lemma_declared_bin_name(
    m: ManifestTargets,
    file: Seq<char>,
    root: Seq<char>,
    package: Option<Seq<char>>,
    b: int,
)
    requires
        0 <= b < m.bins@.len(),
        opt_view(m.bins@[b].path) == Some(relative_to(file, root)),
        forall|i: int| 0 <= i < b ==> opt_view(m.bins@[i].path) != Some(relative_to(file, root)),
    ensures
        manifest_runnable(m, file, root, package) is Some,
        m.bins@[b].name is Some ==> ({
            let name = (m.bins@[b].name->0)@;
            &&& manifest_runnable(m, file, root, package)->0.kind == (KindView::Binary { bin_name: Some(name) })
            &&& manifest_runnable(m, file, root, package)->0.label == "Run binary '"@ + name + "'"@
        }),
        m.bins@[b].name is None && file_stem_spec(file) is Some ==> ({
            let name = file_stem_spec(file)->0;
            &&& manifest_runnable(m, file, root, package)->0.kind == (KindView::Binary { bin_name: Some(name) })
            &&& manifest_runnable(m, file, root, package)->0.label == "Run binary '"@ + name + "'"@
        }),
{
    lemma_product_at_first(m.bins@, relative_to(file, root), b);
    let stem = file_stem_spec(file).unwrap_or(Seq::empty());
    let name = opt_view(m.bins@[b].name).unwrap_or(stem);
    reveal_strlit("Run binary ");
    reveal_strlit("'");
    reveal_strlit("Run binary '");
    assert(quoted("Run binary "@, name) =~= "Run binary '"@ + name + "'"@);
    if m.bins@[b].name is Some {
        assert(name == (m.bins@[b].name->0)@);
    }
}

/// A file that no `[[bin]]` entry declares but an `[[example]]` entry does
/// (the first such entry) is run as that example, under the name the entry
/// declares when it names one and under the file's stem otherwise.
pub proof fn lemma_declared_example_name(
    m: ManifestTargets,
    file: Seq<char>,
    root: Seq<char>,
    package: Option<Seq<char>>,
    x: int,
)
    requires
        forall|i: int| 0 <= i < m.bins@.len() ==> opt_view(m.bins@[i].path) != Some(relative_to(file, root)),
        0 <= x < m.examples@.len(),
        opt_view(m.examples@[x].path) == Some(relative_to(file, root)),
        forall|i: int| 0 <= i < x ==> opt_view(m.examples@[i].path) != Some(relative_to(file, root)),
    ensures
        manifest_runnable(m, file, root, package) is Some,
        m.examples@[x].name is Some ==> manifest_runnable(m, file, root, package)->0.kind == (KindView::Binary {
            bin_name: Some((m.examples@[x].name->0)@),
        }),
        m.examples@[x].name is None && file_stem_spec(file) is Some ==> manifest_runnable(m, file, root, package)->0.kind
            == (KindView::Binary { bin_name: Some(file_stem_spec(file)->0) }),
{
    lemma_product_at_absent(m.bins@, relative_to(file, root));
    lemma_product_at_first(m.examples@, relative_to(file, root), x);
}

/// A file that no `[[bin]]` or `[[example]]` entry declares but a `[[test]]`
/// entry does (the first such entry) runs as that test, named as the entry
/// declares or by the file's stem; likewise a `[[bench]]` entry, when no
/// `[[test]]` entry declares the file either, makes it that benchmark.
pub proof fn lemma_declared_test_and_bench_names(
    m: ManifestTargets,
    file: Seq<char>,
    root: Seq<char>,
    package: Option<Seq<char>>,
    k: int,
)
    requires
        forall|i: int| 0 <= i < m.bins@.len() ==> opt_view(m.bins@[i].path) != Some(relative_to(file, root)),
        forall|i: int| 0 <= i < m.examples@.len() ==> opt_view(m.examples@[i].path) != Some(relative_to(file, root)),
    ensures
        (0 <= k < m.tests@.len() && opt_view(m.tests@[k].path) == Some(relative_to(file, root)) && (forall|i: int|
            0 <= i < k ==> opt_view(m.tests@[i].path) != Some(relative_to(file, root)))) ==> ({
            let name = if m.tests@[k].name is Some {
                (m.tests@[k].name->0)@
            } else {
                file_stem_spec(file).unwrap_or(Seq::empty())
            };
            manifest_runnable(m, file, root, package) == Some(
                made_runnable(
                    "Run test '"@ + name + "'"@,
                    100,
                    KindView::Test { test_name: name, is_async: false },
                    package.unwrap_or(Seq::empty()),
                    file,
                ),
            )
        }),
        ((forall|i: int| 0 <= i < m.tests@.len() ==> opt_view(m.tests@[i].path) != Some(relative_to(file, root)))
            && 0 <= k < m.benches@.len() && opt_view(m.benches@[k].path) == Some(relative_to(file, root)) && (forall|
            i: int,
        | 0 <= i < k ==> opt_view(m.benches@[i].path) != Some(relative_to(file, root)))) ==> ({
            let name = if m.benches@[k].name is Some {
                (m.benches@[k].name->0)@
            } else {
                file_stem_spec(file).unwrap_or(Seq::empty())
            };
            manifest_runnable(m, file, root, package) == Some(
                made_runnable(
                    "Run benchmark '"@ + name + "'"@,
                    100,
                    KindView::Benchmark { bench_name: name },
                    package.unwrap_or(Seq::empty()),
                    file,
                ),
            )
        }),
{
    let rel = relative_to(file, root);
    lemma_product_at_absent(m.bins@, rel);
    lemma_product_at_absent(m.examples@, rel);
    reveal_strlit("Run test ");
    reveal_strlit("Run test '");
    reveal_strlit("Run benchmark ");
    reveal_strlit("Run benchmark '");
    reveal_strlit("'");
    if 0 <= k < m.tests@.len() && opt_view(m.tests@[k].path) == Some(rel) && (forall|i: int|
        0 <= i < k ==> opt_view(m.tests@[i].path) != Some(rel)) {
        lemma_product_at_first(m.tests@, rel, k);
        let name = opt_view(m.tests@[k].name).unwrap_or(file_stem_spec(file).unwrap_or(Seq::empty()));
        assert(quoted("Run test "@, name) =~= "Run test '"@ + name + "'"@);
    }
    if (forall|i: int| 0 <= i < m.tests@.len() ==> opt_view(m.tests@[i].path) != Some(rel)) && 0 <= k
        < m.benches@.len() && opt_view(m.benches@[k].path) == Some(rel) && (forall|i: int|
        0 <= i < k ==> opt_view(m.benches@[i].path) != Some(rel)) {
        lemma_product_at_absent(m.tests@, rel);
        lemma_product_at_first(m.benches@, rel, k);
        let name = opt_view(m.benches@[k].name).unwrap_or(file_stem_spec(file).unwrap_or(Seq::empty()));
        assert(quoted("Run benchmark "@, name) =~= "Run benchmark '"@ + name + "'"@);
    }
}

/// The runnable's values, when there is one.
pub open spec fn opt_runnable_view(o: Option<Runnable>) -> Option<RunnableView> {
    match o {
        Some(r) => Some(r@),
        None => None,
    }
}

fn text(s: &str) -> (r: String)
    ensures
        r@ == s@,
{
    String::from_str(s)
}

/// The first line of a text.
fn first_line_of(c: &str) -> (r: Option<String>)
    ensures
        opt_view(r) == first_line(c@),
{
    let n = c.unicode_len();
    if n == 0 {
        return None;
    }
    match find(c, "\n") {
        Some(i) => {
            proof {
                lemma_index_of(c@, "\n"@);
            }
            let l = slice(c, 0, i);
            let k = l.unicode_len();
            if k > 0 && l.as_str().get_char(k - 1) == '\r' {
                Some(slice(l.as_str(), 0, k - 1))
            } else {
                proof {
                    assert(l@.len() == 0 || l@.last() != '\r');
                }
                Some(l)
            }
        },
        None => Some(text(c)),
    }
}

/// Whether the file's name ends in `.rs`.
fn has_rs_extension(p: &str) -> (r: bool)
    ensures
        r == rs_extension(p@),
{
    match file_name(p) {
        Some(n) => {
            let len = n.unicode_len();
            match rfind_char(n.as_str(), '.') {
                Some(dot) => {
                    if dot == 0 {
                        false
                    } else {
                        assert(dot < len);
                        let ext = slice_from(n.as_str(), dot + 1);
                        str_eq(ext.as_str(), "rs")
                    }
                },
                None => false,
            }
        },
        None => false,
    }
}

/// A runnable whose scope is `main`, on lines 0 to 0 or 1 to 100.
fn make_runnable(label: String, line_end: u32, kind: RunnableKind, mod_path: String, file: &str) -> (r: Runnable)
    requires
        line_end == 0 || line_end == 100,
    ensures
        r@ == made_runnable(label@, line_end, kind@, mod_path@, file@),
        r.extended_scope is None,
{
    Runnable {
        label,
        scope: Scope {
            start: Position { line: if line_end == 0 { 0 } else { 1 }, character: 0 },
            end: Position { line: line_end, character: 0 },
            kind: ScopeKind::Function,
            name: Some(text("main")),
        },
        kind,
        mod_path,
        file_path: text(file),
        extended_scope: None,
    }
}

/// A label with a quoted name.
fn quote_label(lead: &str, name: &str) -> (r: String)
    ensures
        r@ == quoted(lead@, name@),
{
    let mut l = concat3(lead, "'", name);
    l.append("'");
    l
}

/// The runnable the directory layout gives a file.
fn layout_runnable_of(file: &str, package_name: Option<&str>) -> (r: Option<Option<Runnable>>)
    ensures
        match r {
            Some(o) => layout_runnable(file@, match package_name {
                Some(p) => Some(p@),
                None => None,
            }) == Some(opt_runnable_view(o)) && (o matches Some(x) ==> x.extended_scope is None),
            None => layout_runnable(file@, match package_name {
                Some(p) => Some(p@),
                None => None,
            }) is None,
        },
{
    let n = forward_slashes(file);
    let n = n.as_str();
    let stem = match file_stem(file) {
        Some(s) => s,
        None => String::new(),
    };
    assert(stem@ == file_stem_spec(file@).unwrap_or(Seq::empty()));
    let pkg = match package_name {
        Some(p) => text(p),
        None => String::new(),
    };
    if contains(n, "src/bin/") || ends_with(n, "src/main.rs") {
        let bin_name = if ends_with(n, "src/main.rs") {
            None
        } else if !str_eq(stem.as_str(), "main") {
            Some(stem.clone())
        } else {
            None
        };
        let label = match &bin_name {
            Some(b) => quote_label("Run binary ", b.as_str()),
            None => text("Run main()"),
        };
        Some(Some(make_runnable(label, 100, RunnableKind::Binary { bin_name }, pkg, file)))
    } else if contains(n, "benches/") {
        let label = quote_label("Run benchmark ", stem.as_str());
        Some(Some(make_runnable(label, 100, RunnableKind::Benchmark { bench_name: stem }, String::new(), file)))
    } else if contains(n, "tests/") && !ends_with(n, "mod.rs") {
        let label = quote_label("Run test ", stem.as_str());
        Some(Some(make_runnable(label, 100, RunnableKind::Test { test_name: stem, is_async: false }, String::new(), file)))
    } else if ends_with(n, "src/lib.rs") || ((contains(n, "/src/") || starts_with(n, "src/")) && !contains(n, "/src/bin/")
        && !starts_with(n, "src/bin/")) {
        Some(
            Some(
                make_runnable(
                    text("Run library tests"),
                    100,
                    RunnableKind::ModuleTests { module_name: String::new() },
                    String::new(),
                    file,
                ),
            ),
        )
    } else if contains(n, "examples/") {
        let label = quote_label("Run example ", stem.as_str());
        Some(Some(make_runnable(label, 100, RunnableKind::Binary { bin_name: Some(stem) }, String::new(), file)))
    } else if ends_with(n, "build.rs") {
        Some(None)
    } else {
        None
    }
}

/// Position of the first product declared at `rel`.
fn product_position(ps: &Vec<ManifestProduct>, rel: &str) -> (r: Option<usize>)
    ensures
        match r {
            Some(i) => i as int == product_at(ps@, rel@) && i < ps@.len(),
            None => product_at(ps@, rel@) == -1,
        },
{
    let mut i: usize = 0;
    while i < ps.len()
        invariant
            i <= ps@.len(),
            product_at(ps@.subrange(0, i as int), rel@) == -1,
        decreases ps.len() - i,
    {
        assert(ps@.subrange(0, i + 1).drop_last() =~= ps@.subrange(0, i as int));
        let hit = match &ps[i].path {
            Some(p) => str_eq(p.as_str(), rel),
            None => false,
        };
        if hit {
            proof {
                lemma_product_prefix(ps@, rel@, i as int);
            }
            return Some(i);
        }
        i = i + 1;
    }
    assert(ps@.subrange(0, i as int) =~= ps@);
    None
}

proof fn lemma_product_prefix(ps: Seq<ManifestProduct>, rel: Seq<char>, i: int)
    requires
        0 <= i < ps.len(),
        product_at(ps.subrange(0, i), rel) == -1,
        opt_view(ps[i].path) == Some(rel),
    ensures
        product_at(ps, rel) == i,
    decreases ps.len(),
{
    if i < ps.len() - 1 {
        assert(ps.drop_last().subrange(0, i) =~= ps.subrange(0, i));
        assert(ps.drop_last()[i] == ps[i]);
        lemma_product_prefix(ps.drop_last(), rel, i);
    } else {
        assert(ps.drop_last() =~= ps.subrange(0, i));
    }
}

/// The declared name, or the stem.
fn name_or(name: &Option<String>, stem: &str) -> (r: String)
    ensures
        r@ == opt_view(*name).unwrap_or(stem@),
{
    match name {
        Some(n) => n.clone(),
        None => text(stem),
    }
}

/// The runnable the manifest's declared targets give the file.
fn manifest_runnable_of(m: &ManifestTargets, file: &str, root: &str, package_name: Option<&str>) -> (r: Option<Runnable>)
    ensures
        opt_runnable_view(r) == manifest_runnable(*m, file@, root@, match package_name {
            Some(p) => Some(p@),
            None => None,
        }),
        r matches Some(x) ==> x.extended_scope is None,
{
    let rel = match strip_prefix(file, root) {
        Some(r) => r,
        None => text(file),
    };
    let rel = rel.as_str();
    let stem = match file_stem(file) {
        Some(s) => s,
        None => String::new(),
    };
    assert(stem@ == file_stem_spec(file@).unwrap_or(Seq::empty()));
    let pkg = match package_name {
        Some(p) => text(p),
        None => String::new(),
    };
    let b = product_position(&m.bins, rel);
    let e = product_position(&m.examples, rel);
    let t = product_position(&m.tests, rel);
    let h = product_position(&m.benches, rel);
    match b {
        Some(i) => {
            let name = name_or(&m.bins[i].name, stem.as_str());
            let label = quote_label("Run binary ", name.as_str());
            return Some(make_runnable(label, 100, RunnableKind::Binary { bin_name: Some(name) }, pkg, file));
        },
        None => {},
    }
    match e {
        Some(i) => {
            let name = name_or(&m.examples[i].name, stem.as_str());
            let label = quote_label("Run example ", name.as_str());
            return Some(make_runnable(label, 100, RunnableKind::Binary { bin_name: Some(name) }, pkg, file));
        },
        None => {},
    }
    match t {
        Some(i) => {
            let name = name_or(&m.tests[i].name, stem.as_str());
            let label = quote_label("Run test ", name.as_str());
            return Some(make_runnable(label, 100, RunnableKind::Test { test_name: name, is_async: false }, pkg, file));
        },
        None => {},
    }
    match h {
        Some(i) => {
            let name = name_or(&m.benches[i].name, stem.as_str());
            let label = quote_label("Run benchmark ", name.as_str());
            return Some(make_runnable(label, 100, RunnableKind::Benchmark { bench_name: name }, pkg, file));
        },
        None => {},
    }
    let lib = match &m.lib_path {
        Some(p) => str_eq(p.as_str(), rel),
        None => false,
    };
    if lib {
        Some(
            make_runnable(
                text("Run library tests"),
                100,
                RunnableKind::ModuleTests { module_name: String::new() },
                String::new(),
                file,
            ),
        )
    } else {
        None
    }
}

/// The runnable made up for a file from where it lies.
pub fn create_synthetic_runnable(file_path: &str, package_name: Option<&str>, facts: &FallbackFacts) -> (r: Result<Option<Runnable>, Error>)
    ensures
        match r {
            Ok(o) => synthetic_spec(file_path@, match package_name {
                Some(p) => Some(p@),
                None => None,
            }, *facts) == Ok::<Option<RunnableView>, Seq<char>>(opt_runnable_view(o)) && (o matches Some(x)
                ==> x.extended_scope is None),
            Err(e) => e matches Error::IoError(m) && synthetic_spec(file_path@, match package_name {
                Some(p) => Some(p@),
                None => None,
            }, *facts) == Err::<Option<RunnableView>, Seq<char>>(m@),
        },
{
    if has_rs_extension(file_path) {
        match &facts.content {
            Some(content) => match first_line_of(content.as_str()) {
                Some(line) => {
                    if starts_with(line.as_str(), "#!") && contains(line.as_str(), "cargo") && contains(
                        line.as_str(),
                        "-Zscript",
                    ) {
                        let benchmarks = contains(content.as_str(), "#[bench]") || contains(
                            content.as_str(),
                            "criterion_group!",
                        ) || contains(content.as_str(), "criterion_main!");
                        let label = if benchmarks {
                            text("Run cargo script benchmarks")
                        } else {
                            text("Run cargo script")
                        };
                        return Ok(
                            Some(
                                make_runnable(
                                    label,
                                    0,
                                    RunnableKind::SingleFileScript { shebang: line },
                                    String::new(),
                                    file_path,
                                ),
                            ),
                        );
                    }
                },
                None => {},
            },
            None => {},
        }
    }
    match layout_runnable_of(file_path, package_name) {
        Some(r) => Ok(r),
        None => match &facts.project_root {
            None => Ok(None),
            Some(root) => match &facts.manifest {
                None => Ok(None),
                Some(Err(e)) => Err(Error::IoError(concat2("Failed to parse Cargo.toml: ", e.as_str()))),
                Some(Ok(m)) => Ok(manifest_runnable_of(m, file_path, root.as_str(), package_name)),
            },
        },
    }
}

/// The file has a `main` function and is not a binary cargo already knows:
/// no package above it, or outside `src/main.rs`, `src/bin` and `examples`
/// and not declared as a binary in the manifest.
pub open spec fn standalone_spec(file: Seq<char>, facts: FallbackFacts) -> bool {
    match facts.content {
        None => false,
        Some(c) => {
            &&& (seq_contains(c@, "fn main("@) || seq_contains(c@, "fn main ("@))
            &&& match facts.project_root {
                None => true,
                Some(root) => match strip_prefix_spec(file, root@) {
                    None => true,
                    Some(parts) => {
                        let rel = joined_by_slash(parts);
                        &&& !(rel == "src/main.rs"@ || is_prefix("src/bin/"@, rel) || is_prefix("examples/"@, rel))
                        &&& !(facts.manifest matches Some(Ok(m)) && product_at(m.bins@, rel) >= 0)
                    },
                },
            }
        },
    }
}

/// Whether the file is a standalone Rust file.
fn is_standalone_rust_file(file: &str, facts: &FallbackFacts) -> (r: bool)
    ensures
        r == standalone_spec(file@, *facts),
{
    let c = match &facts.content {
        Some(c) => c,
        None => return false,
    };
    if !(contains(c.as_str(), "fn main(") || contains(c.as_str(), "fn main (")) {
        return false;
    }
    let root = match &facts.project_root {
        Some(r) => r,
        None => return true,
    };
    let rel = match strip_prefix(file, root.as_str()) {
        Some(r) => r,
        None => return true,
    };
    let rel = rel.as_str();
    if str_eq(rel, "src/main.rs") || starts_with(rel, "src/bin/") || starts_with(rel, "examples/") {
        return false;
    }
    match &facts.manifest {
        Some(Ok(m)) => product_position(&m.bins, rel).is_none(),
        _ => true,
    }
}

/// The context a made-up runnable is resolved in.
pub open spec fn fallback_context(ctx: ScopeContext, rv: RunnableView, package: Option<Seq<char>>) -> bool {
    &&& opt_view(ctx.file_path) == Some(rv.file_path)
    &&& opt_view(ctx.crate_name) == package
    &&& opt_view(ctx.mod_path) == (if rv.mod_path.len() == 0 {
        None
    } else {
        Some(rv.mod_path)
    })
    &&& opt_view(ctx.function_name) == match rv.kind {
        KindView::Test { test_name, .. } => Some(test_name),
        KindView::Benchmark { bench_name } => Some(bench_name),
        _ => rv.scope_name,
    }
    &&& ctx.ty_name is None && ctx.method_name is None && ctx.scope_kind is None
}

/// The context of a lone file: only its path is known.
pub open spec fn file_only_context(ctx: ScopeContext, file: Seq<char>) -> bool {
    &&& opt_view(ctx.file_path) == Some(file)
    &&& ctx.crate_name is None && ctx.mod_path is None && ctx.function_name is None
    &&& ctx.ty_name is None && ctx.method_name is None && ctx.scope_kind is None
}

/// The command result, with a resolution error reported as a configuration error.
pub open spec fn resolved(r: Result<Option<CargoCommand>, Error>, s: Result<CargoCommandView, Seq<char>>) -> bool {
    match s {
        Ok(c) => r matches Ok(Some(x)) && x@ == c,
        Err(e) => r matches Err(Error::ConfigError(m)) && m@ == e,
    }
}

fn resolve_in(
    config: &Config,
    ctx: &ScopeContext,
    kind: RunnableKind,
    facts: FileFacts,
) -> (r: Result<Option<CargoCommand>, Error>)
    ensures
        exists|reg: Seq<crate::config::v2::registry::Strategy>|
            crate::config::v2::default_registry(reg) && resolved(r, resolve_spec(config@.layers, reg, *ctx, kind, facts)),
{
    let registry = StrategyRegistry::new();
    let resolver = config.resolver_with(&registry);
    let r = match resolver.resolve_command_with(ctx, kind, facts) {
        Ok(c) => Ok(Some(c)),
        Err(e) => Err(Error::ConfigError(e)),
    };
    assert(crate::config::v2::default_registry(registry@));
    r
}

/// The command of a standalone file: a cargo script (resolved with the
/// cargo defaults) or, otherwise, the file with or without its tests
/// (resolved with `config`).
pub open spec fn rustc_fallback(
    r: Result<Option<CargoCommand>, Error>,
    file: Seq<char>,
    content: Seq<char>,
    config: crate::config::v2::ConfigView,
    cargo_defaults: Seq<crate::config::v2::layer::ConfigLayer>,
    facts: FileFacts,
) -> bool {
    exists|ctx: ScopeContext, kind: RunnableKind, reg: Seq<crate::config::v2::registry::Strategy>|
        #![trigger file_only_context(ctx, file), crate::config::v2::default_registry(reg), kind@]
        file_only_context(ctx, file) && crate::config::v2::default_registry(reg) && if first_line(content) is Some
            && is_script_line(first_line(content)->0) {
            kind@ == (KindView::SingleFileScript { shebang: first_line(content)->0 }) && resolved(
                r,
                resolve_spec(cargo_defaults, reg, ctx, kind, facts),
            )
        } else {
            kind@ == (KindView::Standalone {
                has_tests: seq_contains(content, "#[test]"@) || seq_contains(content, "#[cfg(test)]"@),
            }) && resolved(r, resolve_spec(config.layers, reg, ctx, kind, facts))
        }
}

/// The command of a standalone file.
fn generate_rustc_command(file_path: &str, content: &str, config: &Config, facts: FileFacts) -> (r: Result<Option<CargoCommand>, Error>)
    ensures
        exists|defaults: Config|
            defaults@.layers.len() == 1 && crate::config::v2::defaults_for(defaults@.layers[0], crate::build_system::BuildSystem::Cargo)
                && rustc_fallback(r, file_path@, content@, config@, defaults@.layers, facts),
{
    let ctx = ScopeContext::new().with_file(text(file_path));
    let defaults = Config::default_with_build_system();
    let line = first_line_of(content);
    let script = match &line {
        Some(l) => starts_with(l.as_str(), "#!") && contains(l.as_str(), "cargo") && contains(l.as_str(), "-Zscript"),
        None => false,
    };
    let ghost f = facts;
    if script {
        let l = match line {
            Some(l) => l,
            None => String::new(),
        };
        let kind = RunnableKind::SingleFileScript { shebang: l };
        let ghost k = kind;
        let r = resolve_in(&defaults, &ctx, kind, facts);
        proof {
            let reg = choose|reg: Seq<crate::config::v2::registry::Strategy>|
                crate::config::v2::default_registry(reg) && resolved(r, resolve_spec(defaults@.layers, reg, ctx, k, f));
            assert(file_only_context(ctx, file_path@));
            assert(k@ == (KindView::SingleFileScript { shebang: first_line(content@)->0 }));
            assert(crate::config::v2::default_registry(reg));
            assert(rustc_fallback(r, file_path@, content@, config@, defaults@.layers, f));
            assert(defaults@.layers.len() == 1 && crate::config::v2::defaults_for(defaults@.layers[0], crate::build_system::BuildSystem::Cargo));
        }
        r
    } else {
        let has_tests = contains(content, "#[test]") || contains(content, "#[cfg(test)]");
        let kind = RunnableKind::Standalone { has_tests };
        let ghost k = kind;
        let r = resolve_in(config, &ctx, kind, facts);
        proof {
            let reg = choose|reg: Seq<crate::config::v2::registry::Strategy>|
                crate::config::v2::default_registry(reg) && resolved(r, resolve_spec(config@.layers, reg, ctx, k, f));
            assert(file_only_context(ctx, file_path@));
            assert(crate::config::v2::default_registry(reg));
            assert(!(first_line(content@) is Some && is_script_line(first_line(content@)->0)));
            assert(k@ == (KindView::Standalone {
                has_tests: seq_contains(content@, "#[test]"@) || seq_contains(content@, "#[cfg(test)]"@),
            }));
            assert(rustc_fallback(r, file_path@, content@, config@, defaults@.layers, f));
            assert(defaults@.layers.len() == 1 && crate::config::v2::defaults_for(defaults@.layers[0], crate::build_system::BuildSystem::Cargo));
        }
        r
    }
}

/// The command a file with no runnable gets: the made up runnable's
/// command under the configuration, a standalone file's command, or none.
pub open spec fn fallback_outcome(
    r: Result<Option<CargoCommand>, Error>,
    file: Seq<char>,
    pkg: Option<Seq<char>>,
    config: crate::config::v2::ConfigView,
    facts: FallbackFacts,
) -> bool {
    match synthetic_spec(file, pkg, facts) {
        Err(m) => r matches Err(Error::IoError(x)) && x@ == m,
        Ok(Some(rv)) => exists|ctx: ScopeContext, kind: RunnableKind, reg: Seq<crate::config::v2::registry::Strategy>|
            #![trigger fallback_context(ctx, rv, pkg), crate::config::v2::default_registry(reg), kind@]
            fallback_context(ctx, rv, pkg) && kind@ == rv.kind && crate::config::v2::default_registry(reg)
                && resolved(r, resolve_spec(config.layers, reg, ctx, kind, facts.file)),
        Ok(None) => if rs_extension(file) && standalone_spec(file, facts) {
            exists|defaults: Config|
                defaults@.layers.len() == 1 && crate::config::v2::defaults_for(
                    defaults@.layers[0],
                    crate::build_system::BuildSystem::Cargo,
                ) && rustc_fallback(r, file, facts.content->0@, config, defaults@.layers, facts.file)
        } else {
            r matches Ok(None)
        },
    }
}

/// Generate a command for a file when no runnable was found in it: the made
/// up runnable's command under `config`, a standalone file's command, or none.
pub fn generate_fallback_command(
    file_path: &str,
    package_name: Option<&str>,
    project_root: Option<&str>,
    config: &Config,
    facts: FallbackFacts,
) -> (r: Result<Option<CargoCommand>, Error>)
    ensures
        fallback_outcome(r, file_path@, match package_name {
            Some(p) => Some(p@),
            None => None,
        }, config@, facts),
{
    let ghost pkg = match package_name {
        Some(p) => Some(p@),
        None => None,
    };
    let ghost fcopy = facts;
    let runnable = match create_synthetic_runnable(file_path, package_name, &facts) {
        Ok(r) => r,
        Err(e) => {
            let r: Result<Option<CargoCommand>, Error> = Err(e);
            assert(fallback_outcome(r, file_path@, pkg, config@, fcopy));
            return r;
        },
    };
    match runnable {
        Some(run) => {
            let ctx = ScopeContext {
                crate_name: match package_name {
                    Some(p) => Some(text(p)),
                    None => None,
                },
                file_path: Some(run.file_path.clone()),
                mod_path: if run.mod_path.unicode_len() == 0 {
                    None
                } else {
                    Some(run.mod_path.clone())
                },
                ty_name: None,
                function_name: run.get_function_name(),
                method_name: None,
                scope_kind: None,
            };
            let ghost rv = run@;
            let ghost k = run.kind;
            let ghost ff = facts.file;
            let r = resolve_in(config, &ctx, run.kind, facts.file);
            proof {
                let reg = choose|reg: Seq<crate::config::v2::registry::Strategy>|
                    crate::config::v2::default_registry(reg) && resolved(r, resolve_spec(config@.layers, reg, ctx, k, ff));
                assert(fallback_context(ctx, rv, match package_name {
                    Some(p) => Some(p@),
                    None => None,
                }));
                assert(crate::config::v2::default_registry(reg));
                assert(k@ == rv.kind);
                assert(fallback_outcome(r, file_path@, pkg, config@, fcopy));
            }
            r
        },
        None => {
            if has_rs_extension(file_path) && is_standalone_rust_file(file_path, &facts) {
                match &facts.content {
                    Some(c) => {
                        let content = c.clone();
                        generate_rustc_command(file_path, content.as_str(), config, facts.file)
                    },
                    None => Ok(None),
                }
            } else {
                Ok(None)
            }
        },
    }
}

} // verus!
