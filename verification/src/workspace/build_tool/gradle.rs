//! `build.gradle` / `build.gradle.kts` handling: whether an artifact is
//! declared, and where a new `implementation(...)` line goes.
use vstd::prelude::*;

use crate::text::{
    chars_of, contains, contains_str, find_chars, find_from, is_white_space, lemma_find_from,
    lemma_skip_white_space, lemma_skip_white_space_run, occurs_at, opt_str_view, skip_white_space, skip_ws,
};
use crate::workspace::build_tool::maven::is_id_char;
use crate::workspace::build_tool::{
    BuildTool, BuildToolError, BuildToolKind, DependencyCoord,
};

verus! {

/// The manifest mentions the artifact as `:id:` (a coordinate with a version)
/// or as `:id"` or `:id'` (a coordinate that ends a double- or single-quoted
/// string).
pub open spec fn spec_gradle_declares(manifest: Seq<char>, artifact_id: Seq<char>) -> bool {
    ||| contains(manifest, seq![':'] + artifact_id + seq![':'])
    ||| contains(manifest, seq![':'] + artifact_id + seq!['"'])
    ||| contains(manifest, seq![':'] + artifact_id + seq!['\''])
}

/// `group:artifact`, followed by `:version` when there is one.
pub open spec fn spec_coordinate(dep: DependencyCoord) -> Seq<char> {
    dep.group_id@ + seq![':'] + dep.artifact_id@ + match opt_str_view(dep.version) {
        Some(v) => seq![':'] + v,
        None => Seq::empty(),
    }
}

pub open spec fn line_head() -> Seq<char> {
    "    implementation(\""@
}

pub open spec fn line_tail() -> Seq<char> {
    "\")\n"@
}

/// The `implementation("...")` line of a coordinate.
pub open spec fn spec_dependency_line(dep: DependencyCoord) -> Seq<char> {
    line_head() + spec_coordinate(dep) + line_tail()
}

pub open spec fn dependencies_open() -> Seq<char> {
    "dependencies {"@
}

pub open spec fn new_block_head() -> Seq<char> {
    "\ndependencies {\n"@
}

pub open spec fn new_block_tail() -> Seq<char> {
    "}\n"@
}

/// The block closes on the line that opens it: only white space separates its
/// `{` (just before `o`) from a `}` on that same line, as in
/// `dependencies {}`.
pub open spec fn closes_on_opening_line(manifest: Seq<char>, o: int) -> bool {
    let j = skip_white_space(manifest, o);
    &&& 0 <= j < manifest.len()
    &&& manifest[j] == '}'
    &&& match find_from(manifest, seq!['\n'], o) {
        Some(n) => j < n,
        None => true,
    }
}

/// Where the dependency line goes in a block whose `{` ends just before `o`:
/// just after the line break that ends the opening line, or at the end of the
/// manifest when no line break follows; `None` when the block closes on its
/// opening line.
pub open spec fn opening_line_end(manifest: Seq<char>, o: int) -> Option<int> {
    if closes_on_opening_line(manifest, o) {
        None
    } else {
        match find_from(manifest, seq!['\n'], o) {
            Some(n) => Some(n + 1),
            None => Some(manifest.len() as int),
        }
    }
}

/// The manifest with the dependency line added to the first `dependencies {`
/// block: after the line that opens the block (at the end of the manifest
/// when that line does not end), except when the block closes on that line,
/// where the line goes on a line of its own right after the `{` (so
/// `dependencies {}` becomes a block that holds it); with a new block appended
/// when there is none.
pub open spec fn spec_gradle_install(manifest: Seq<char>, dep: DependencyCoord) -> Seq<char> {
    let line = spec_dependency_line(dep);
    match find_from(manifest, dependencies_open(), 0) {
        Some(idx) => {
            let o = idx + dependencies_open().len();
            match opening_line_end(manifest, o) {
                Some(ins) => manifest.subrange(0, ins) + line + manifest.subrange(
                    ins,
                    manifest.len() as int,
                ),
                None => manifest.subrange(0, o) + seq!['\n'] + line + manifest.subrange(
                    o,
                    manifest.len() as int,
                ),
            }
        },
        None => manifest + new_block_head() + line + new_block_tail(),
    }
}

fn gradle_declares(manifest: &str, artifact_id: &str) -> (r: bool)
    ensures
        r == spec_gradle_declares(manifest@, artifact_id@),
{
    let colon = ":";
    let quote = "\"";
    let single_quote = "'";
    proof {
        reveal_strlit(":");
        reveal_strlit("\"");
        reveal_strlit("'");
        assert(colon@ =~= seq![':']);
        assert(quote@ =~= seq!['"']);
        assert(single_quote@ =~= seq!['\'']);
    }
    let mut with_version = String::from_str(colon);
    with_version.append(artifact_id);
    with_version.append(colon);
    let mut at_end = String::from_str(colon);
    at_end.append(artifact_id);
    at_end.append(quote);
    let mut at_single_end = String::from_str(colon);
    at_single_end.append(artifact_id);
    at_single_end.append(single_quote);
    contains_str(manifest, with_version.as_str()) || contains_str(manifest, at_end.as_str())
        || contains_str(manifest, at_single_end.as_str())
}

fn dependency_line(dep: &DependencyCoord) -> (r: String)
    ensures
        r@ == spec_dependency_line(*dep),
{
    let colon = ":";
    proof {
        reveal_strlit(":");
        assert(colon@ =~= seq![':']);
    }
    let mut line = String::from_str("    implementation(\"");
    line.append(dep.group_id);
    line.append(colon);
    line.append(dep.artifact_id);
    match dep.version {
        Some(v) => {
            line.append(colon);
            line.append(v);
        },
        None => {},
    }
    line.append("\")\n");
    line
}

fn gradle_install(manifest: &str, dep: &DependencyCoord) -> (r: String)
    ensures
        r@ == spec_gradle_install(manifest@, *dep),
{
    let line = dependency_line(dep);
    let s = chars_of(manifest);
    let open = chars_of("dependencies {");
    let newline = chars_of("\n");
    proof {
        reveal_strlit("\n");
        assert(newline@ =~= seq!['\n']);
    }
    let n = manifest.unicode_len();
    match find_chars(&s, &open, 0) {
        Some(idx) => {
            proof {
                lemma_find_from(s@, open@, 0);
            }
            assert(s@.len() == s.len());
            let o = idx + open.len();
            let nl = find_chars(&s, &newline, o);
            proof {
                lemma_find_from(s@, newline@, o as int);
            }
            let j = skip_ws(&s, o);
            let closes = j < s.len() && s[j] == '}' && match nl {
                Some(k) => j < k,
                None => true,
            };
            let ins: Option<usize> = if closes {
                None
            } else {
                match nl {
                    Some(k) => Some(k + 1),
                    None => Some(s.len()),
                }
            };
            assert(s@.len() == n);
            match ins {
                Some(at) => {
                    let mut out = String::from_str(manifest.substring_char(0, at));
                    out.append(line.as_str());
                    out.append(manifest.substring_char(at, n));
                    out
                },
                None => {
                    let mut out = String::from_str(manifest.substring_char(0, o));
                    out.append("\n");
                    out.append(line.as_str());
                    out.append(manifest.substring_char(o, n));
                    proof {
                        assert(out@ =~= manifest@.subrange(0, o as int) + seq!['\n'] + line@
                            + manifest@.subrange(o as int, n as int));
                    }
                    out
                },
            }
        },
        None => {
            let mut out = String::from_str(manifest);
            out.append("\ndependencies {\n");
            out.append(line.as_str());
            out.append("}\n");
            out
        },
    }
}

/// A text found at a known place of a concatenation occurs in it.
proof fn lemma_occurs_in_middle(x: Seq<char>, pat: Seq<char>, y: Seq<char>)
    ensures
        occurs_at(x + pat + y, pat, x.len() as int),
        contains(x + pat + y, pat),
{
    assert((x + pat + y).subrange(x.len() as int, (x.len() + pat.len()) as int) =~= pat);
}

/// Law: once a dependency is installed into a Gradle build, the build declares
/// its artifact.
pub proof fn law_installed_build_declares_artifact(manifest: Seq<char>, dep: DependencyCoord)
    ensures
        spec_gradle_declares(spec_gradle_install(manifest, dep), dep.artifact_id@),
{
    reveal_strlit("\")\n");
    let line = spec_dependency_line(dep);
    let result = spec_gradle_install(manifest, dep);
    let (before, after) = match find_from(manifest, dependencies_open(), 0) {
        Some(idx) => {
            lemma_find_from(manifest, dependencies_open(), 0);
            let o = idx + dependencies_open().len();
            lemma_find_from(manifest, seq!['\n'], o);
            match opening_line_end(manifest, o) {
                Some(ins) => (
                    manifest.subrange(0, ins),
                    manifest.subrange(ins, manifest.len() as int),
                ),
                None => (
                    manifest.subrange(0, o) + seq!['\n'],
                    manifest.subrange(o, manifest.len() as int),
                ),
            }
        },
        None => (manifest + new_block_head(), new_block_tail()),
    };
    assert(result =~= before + line + after);
    let head = before + line_head() + dep.group_id@;
    let a = dep.artifact_id@;
    match opt_str_view(dep.version) {
        Some(v) => {
            let pat = seq![':'] + a + seq![':'];
            assert(result =~= head + pat + (v + line_tail() + after));
            lemma_occurs_in_middle(head, pat, v + line_tail() + after);
        },
        None => {
            let pat = seq![':'] + a + seq!['"'];
            let rest = line_tail().subrange(1, line_tail().len() as int) + after;
            assert(line_tail() =~= seq!['"'] + line_tail().subrange(1, line_tail().len() as int));
            assert(result =~= head + pat + rest);
            lemma_occurs_in_middle(head, pat, rest);
        },
    }
}

/// An occurrence that ends before, or starts at or after, the point where a
/// text is inserted is still there afterwards.
proof fn lemma_occurrence_kept(m: Seq<char>, ins: int, line: Seq<char>, pat: Seq<char>, k: int)
    requires
        0 <= ins <= m.len(),
        occurs_at(m, pat, k),
        k + pat.len() <= ins || ins <= k,
    ensures
        contains(m.subrange(0, ins) + line + m.subrange(ins, m.len() as int), pat),
{
    let r = m.subrange(0, ins) + line + m.subrange(ins, m.len() as int);
    if k + pat.len() <= ins {
        assert(r.subrange(k, k + pat.len()) =~= m.subrange(k, k + pat.len()));
        assert(occurs_at(r, pat, k));
    } else {
        let j = k + line.len();
        assert(r.subrange(j, j + pat.len()) =~= m.subrange(k, k + pat.len()));
        assert(occurs_at(r, pat, j));
    }
}

/// Installing keeps an occurrence of a text that starts with `:` and holds no
/// white space.
proof fn lemma_install_keeps_occurrence(manifest: Seq<char>, dep: DependencyCoord, pat: Seq<char>)
    requires
        contains(manifest, pat),
        pat.len() > 0,
        pat[0] == ':',
        forall|j: int| 0 <= j < pat.len() ==> !is_white_space(#[trigger] pat[j]),
    ensures
        contains(spec_gradle_install(manifest, dep), pat),
{
    let k = choose|k: int| occurs_at(manifest, pat, k);
    let line = spec_dependency_line(dep);
    match find_from(manifest, dependencies_open(), 0) {
        Some(idx) => {
            reveal_strlit("dependencies {");
            lemma_find_from(manifest, dependencies_open(), 0);
            let o = idx + dependencies_open().len();
            lemma_find_from(manifest, seq!['\n'], o);
            assert(manifest[o - 1] == '{' && manifest[o - 2] == ' ') by {
                assert(manifest.subrange(idx, o)[13] == manifest[o - 1]);
                assert(manifest.subrange(idx, o)[12] == manifest[o - 2]);
            }
            match opening_line_end(manifest, o) {
                Some(ins) => {
                    if k < ins && ins < k + pat.len() {
                        let n = ins - 1;
                        assert(occurs_at(manifest, seq!['\n'], n));
                        assert(manifest.subrange(n, n + 1)[0] == manifest[n]);
                        assert(manifest.subrange(k, k + pat.len())[n - k] == manifest[n]);
                        assert(is_white_space(pat[n - k]));
                    }
                    lemma_occurrence_kept(manifest, ins, line, pat, k);
                },
                None => {
                    if k < o && o < k + pat.len() {
                        if k == o - 1 {
                            assert(manifest.subrange(k, k + pat.len())[0] == manifest[k]);
                        } else {
                            assert(manifest.subrange(k, k + pat.len())[o - 2 - k]
                                == manifest[o - 2]);
                            assert(is_white_space(pat[o - 2 - k]));
                        }
                    }
                    lemma_occurrence_kept(manifest, o, seq!['\n'] + line, pat, k);
                    assert(manifest.subrange(0, o) + seq!['\n'] + line + manifest.subrange(
                        o,
                        manifest.len() as int,
                    ) =~= manifest.subrange(0, o) + (seq!['\n'] + line) + manifest.subrange(
                        o,
                        manifest.len() as int,
                    ));
                },
            }
        },
        None => {
            let r = manifest + new_block_head() + line + new_block_tail();
            assert(r.subrange(k, k + pat.len()) =~= manifest.subrange(k, k + pat.len()));
            assert(occurs_at(r, pat, k));
        },
    }
}

/// Law: installing a dependency keeps every artifact the build declared (for
/// an artifact id without white space).
pub proof fn law_install_keeps_declared(
    manifest: Seq<char>,
    dep: DependencyCoord,
    artifact_id: Seq<char>,
)
    requires
        spec_gradle_declares(manifest, artifact_id),
        forall|j: int| 0 <= j < artifact_id.len() ==> !is_white_space(#[trigger] artifact_id[j]),
    ensures
        spec_gradle_declares(spec_gradle_install(manifest, dep), artifact_id),
{
    let with_version = seq![':'] + artifact_id + seq![':'];
    let at_end = seq![':'] + artifact_id + seq!['"'];
    let at_single_end = seq![':'] + artifact_id + seq!['\''];
    assert forall|j: int| 0 <= j < with_version.len() implies !is_white_space(
        #[trigger] with_version[j],
    ) by {
        if 1 <= j < with_version.len() - 1 {
            assert(with_version[j] == artifact_id[j - 1]);
        }
    }
    assert forall|j: int| 0 <= j < at_end.len() implies !is_white_space(#[trigger] at_end[j]) by {
        if 1 <= j < at_end.len() - 1 {
            assert(at_end[j] == artifact_id[j - 1]);
        }
    }
    assert forall|j: int| 0 <= j < at_single_end.len() implies !is_white_space(
        #[trigger] at_single_end[j],
    ) by {
        if 1 <= j < at_single_end.len() - 1 {
            assert(at_single_end[j] == artifact_id[j - 1]);
        }
    }
    if contains(manifest, with_version) {
        lemma_install_keeps_occurrence(manifest, dep, with_version);
    } else if contains(manifest, at_end) {
        lemma_install_keeps_occurrence(manifest, dep, at_end);
    } else {
        lemma_install_keeps_occurrence(manifest, dep, at_single_end);
    }
}

/// Law: in a manifest whose first `dependencies {` starts at `idx` and whose
/// opening line ends with a line break at `n`, with no `}` on that line, the
/// dependency line is inserted right after that line break, inside the block;
/// the rest of the manifest is kept as it is.
pub proof fn law_line_goes_after_the_opening_line(
    manifest: Seq<char>,
    dep: DependencyCoord,
    idx: int,
    n: int,
)
    requires
        occurs_at(manifest, dependencies_open(), idx),
        forall|j: int| 0 <= j < idx ==> !occurs_at(manifest, dependencies_open(), j),
        idx + dependencies_open().len() <= n < manifest.len(),
        manifest[n] == '\n',
        forall|j: int|
            idx + dependencies_open().len() <= j < n ==> #[trigger] manifest[j] != '\n'
                && manifest[j] != '}',
    ensures
        spec_gradle_install(manifest, dep) == manifest.subrange(0, n + 1) + spec_dependency_line(
            dep,
        ) + manifest.subrange(n + 1, manifest.len() as int),
{
    let o = idx + dependencies_open().len();
    lemma_find_from(manifest, dependencies_open(), 0);
    assert(find_from(manifest, dependencies_open(), 0) == Some(idx));
    lemma_find_from(manifest, seq!['\n'], o);
    assert(occurs_at(manifest, seq!['\n'], n)) by {
        assert(manifest.subrange(n, n + 1) =~= seq!['\n']);
    }
    assert forall|j: int| o <= j < n implies !occurs_at(manifest, seq!['\n'], j) by {
        if occurs_at(manifest, seq!['\n'], j) {
            assert(manifest.subrange(j, j + 1)[0] == manifest[j]);
        }
    }
    assert(find_from(manifest, seq!['\n'], o) == Some(n));
    lemma_skip_white_space(manifest, o);
    let j = skip_white_space(manifest, o);
    if j < n {
        assert(manifest[j] != '}');
    }
    assert(!closes_on_opening_line(manifest, o));
}

/// Law: when the first `dependencies {` (at `idx`) is closed on its own line,
/// with only spaces or tabs before the `}` at `j`, the dependency line goes
/// on a line of its own right after the `{`, inside the block.
pub proof fn law_line_goes_inside_an_inline_block(
    manifest: Seq<char>,
    dep: DependencyCoord,
    idx: int,
    j: int,
)
    requires
        occurs_at(manifest, dependencies_open(), idx),
        forall|k: int| 0 <= k < idx ==> !occurs_at(manifest, dependencies_open(), k),
        idx + dependencies_open().len() <= j < manifest.len(),
        manifest[j] == '}',
        forall|k: int|
            idx + dependencies_open().len() <= k < j ==> is_white_space(#[trigger] manifest[k])
                && manifest[k] != '\n',
    ensures
        spec_gradle_install(manifest, dep) == manifest.subrange(
            0,
            idx + dependencies_open().len(),
        ) + seq!['\n'] + spec_dependency_line(dep) + manifest.subrange(
            idx + dependencies_open().len(),
            manifest.len() as int,
        ),
{
    let o = idx + dependencies_open().len();
    lemma_find_from(manifest, dependencies_open(), 0);
    assert(find_from(manifest, dependencies_open(), 0) == Some(idx));
    lemma_skip_white_space_run(manifest, o, j - o);
    lemma_find_from(manifest, seq!['\n'], o);
    if let Some(k) = find_from(manifest, seq!['\n'], o) {
        assert(manifest.subrange(k, k + 1)[0] == manifest[k]);
        assert(k > j);
    }
    assert(closes_on_opening_line(manifest, o));
}

/// Gradle, through `build.gradle` or `build.gradle.kts`.
pub struct GradleBuildTool {
    manifest: String,
}

impl GradleBuildTool {
    /// A Gradle build whose manifest is at the given path.
    pub fn new(manifest: String) -> (r: Self)
        ensures
            r.spec_manifest_path() == manifest@,
    {
        GradleBuildTool { manifest }
    }
}

impl BuildTool for GradleBuildTool {
    open spec fn spec_kind(&self) -> BuildToolKind {
        BuildToolKind::Gradle
    }

    closed spec fn spec_manifest_path(&self) -> Seq<char> {
        self.manifest@
    }

    open spec fn declares(&self, manifest: Seq<char>, artifact_id: Seq<char>) -> bool {
        spec_gradle_declares(manifest, artifact_id)
    }

    open spec fn installed(&self, manifest: Seq<char>, dep: DependencyCoord) -> Option<Seq<char>> {
        Some(spec_gradle_install(manifest, dep))
    }

    fn kind(&self) -> (r: BuildToolKind) {
        BuildToolKind::Gradle
    }

    fn manifest_path(&self) -> (r: &str) {
        self.manifest.as_str()
    }

    fn has_dependency(&self, manifest: &str, artifact_id: &str) -> (r: bool) {
        gradle_declares(manifest, artifact_id)
    }

    fn install(&self, manifest: &str, dep: &DependencyCoord) -> (r: Result<String, BuildToolError>) {
        Ok(gradle_install(manifest, dep))
    }

    proof fn lemma_installed_declares(&self, manifest: Seq<char>, dep: DependencyCoord) {
        law_installed_build_declares_artifact(manifest, dep);
    }

    proof fn lemma_installed_keeps(
        &self,
        manifest: Seq<char>,
        dep: DependencyCoord,
        artifact_id: Seq<char>,
    ) {
        assert forall|j: int| 0 <= j < artifact_id.len() implies !is_white_space(
            #[trigger] artifact_id[j],
        ) by {
            assert(is_id_char(artifact_id[j]));
        }
        law_install_keeps_declared(manifest, dep, artifact_id);
    }
}

} // verus!
