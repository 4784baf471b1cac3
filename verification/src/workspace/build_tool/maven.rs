//! `pom.xml` handling: whether an artifact is declared, and where a new
//! `<dependency>` goes (the project-level `</dependencies>`, never the one
//! inside `<dependencyManagement>`).
use vstd::prelude::*;

use crate::text::{
    chars_of, find_chars, find_from, is_white_space, lemma_find_from,
    lemma_skip_white_space, lemma_skip_white_space_run, matches_at, occurs_at, opt_str_view,
    skip_white_space, skip_ws, white_space,
};
use crate::workspace::build_tool::{
    BuildTool, BuildToolError, BuildToolKind, DependencyCoord,
};

verus! {

pub open spec fn artifact_open() -> Seq<char> {
    "<artifactId>"@
}

pub open spec fn artifact_close() -> Seq<char> {
    "</artifactId>"@
}

/// A character that may appear in an artifact id: anything but `<` and white
/// space.
pub open spec fn is_id_char(c: char) -> bool {
    c != '<' && !is_white_space(c)
}

/// The first index `j >= i` that holds no artifact-id character.
pub open spec fn skip_id_chars(s: Seq<char>, i: int) -> int
    decreases s.len() - i,
{
    if i < 0 || i >= s.len() {
        i
    } else if is_id_char(s[i]) {
        skip_id_chars(s, i + 1)
    } else {
        i
    }
}


fn skip_id(s: &Vec<char>, i: usize) -> (r: usize)
    requires
        i <= s@.len(),
    ensures
        r == skip_id_chars(s@, i as int),
        i <= r <= s@.len(),
{
    let mut j = i;
    while j < s.len() && s[j] != '<' && !white_space(s[j])
        invariant
            i <= j <= s@.len(),
            skip_id_chars(s@, i as int) == skip_id_chars(s@, j as int),
        decreases s@.len() - j,
    {
        j = j + 1;
    }
    j
}

/// The bounds `(q, r)` of the artifact id of an `<artifactId>` element that
/// starts at `p`: the tag, white space, one or more id characters, white
/// space and the closing tag (what `<artifactId>\s*([^<\s]+)\s*</artifactId>`
/// captures in a match at `p`).
pub open spec fn artifact_bounds_at(s: Seq<char>, p: int) -> Option<(int, int)> {
    if !occurs_at(s, artifact_open(), p) {
        None
    } else {
        let q = skip_white_space(s, p + artifact_open().len());
        let r = skip_id_chars(s, q);
        if r == q {
            None
        } else {
            let t = skip_white_space(s, r);
            if occurs_at(s, artifact_close(), t) {
                Some((q, r))
            } else {
                None
            }
        }
    }
}

/// The artifact id captured by a match at `p`.
pub open spec fn artifact_capture_at(s: Seq<char>, p: int) -> Option<Seq<char>> {
    match artifact_bounds_at(s, p) {
        Some((q, r)) => Some(s.subrange(q, r)),
        None => None,
    }
}

/// Some `<artifactId>` element of the pom names exactly this artifact.
pub open spec fn spec_contains_artifact(pom: Seq<char>, artifact_id: Seq<char>) -> bool {
    exists|p: int| #[trigger] artifact_capture_at(pom, p) == Some(artifact_id)
}

fn artifact_bounds(s: &Vec<char>, open: &Vec<char>, close: &Vec<char>, p: usize) -> (r: Option<
    (usize, usize),
>)
    requires
        open@ == artifact_open(),
        close@ == artifact_close(),
    ensures
        match r {
            Some((q, e)) => artifact_bounds_at(s@, p as int) == Some((q as int, e as int)) && q
                <= e <= s@.len(),
            None => artifact_bounds_at(s@, p as int) is None,
        },
{
    if !matches_at(s, open, p) {
        return None;
    }
    assert(p + open@.len() <= s@.len());
    assert(s@.len() == s.len());
    let q = skip_ws(s, p + open.len());
    let r = skip_id(s, q);
    if r == q {
        return None;
    }
    let t = skip_ws(s, r);
    if matches_at(s, close, t) {
        Some((q, r))
    } else {
        None
    }
}

fn range_equals(s: &Vec<char>, q: usize, r: usize, id: &Vec<char>) -> (b: bool)
    requires
        q <= r <= s@.len(),
    ensures
        b == (s@.subrange(q as int, r as int) == id@),
{
    if r - q != id.len() {
        assert(s@.subrange(q as int, r as int).len() != id@.len());
        return false;
    }
    let mut k: usize = 0;
    while k < id.len()
        invariant
            q <= r <= s@.len(),
            r - q == id@.len(),
            k <= id@.len(),
            forall|m: int| 0 <= m < k ==> s@[q + m] == id@[m],
        decreases id@.len() - k,
    {
        if s[q + k] != id[k] {
            assert(s@.subrange(q as int, r as int)[k as int] != id@[k as int]);
            return false;
        }
        k = k + 1;
    }
    assert(s@.subrange(q as int, r as int) =~= id@);
    true
}

/// Whether some `<artifactId>` element of the pom names exactly this artifact.
pub fn contains_artifact(pom: &str, artifact_id: &str) -> (r: bool)
    ensures
        r == spec_contains_artifact(pom@, artifact_id@),
{
    let s = chars_of(pom);
    let id = chars_of(artifact_id);
    let open = chars_of("<artifactId>");
    let close = chars_of("</artifactId>");
    let n = s.len();
    let mut p: usize = 0;
    while p < n
        invariant
            n == s@.len(),
            s@ == pom@,
            id@ == artifact_id@,
            open@ == artifact_open(),
            close@ == artifact_close(),
            forall|j: int| 0 <= j < p ==> artifact_capture_at(s@, j) != Some(id@),
        decreases n - p,
    {
        match artifact_bounds(&s, &open, &close, p) {
            Some((q, e)) => {
                if range_equals(&s, q, e, &id) {
                    assert(artifact_capture_at(s@, p as int) == Some(id@));
                    return true;
                }
            },
            None => {},
        }
        p = p + 1;
    }
    proof {
        reveal_strlit("<artifactId>");
        assert(artifact_open().len() == 12);
    }
    assert forall|j: int| #[trigger] artifact_capture_at(s@, j) != Some(id@) by {
        if j >= n {
            assert(!occurs_at(s@, artifact_open(), j));
        }
    }
    false
}

pub open spec fn dependency_management_open() -> Seq<char> {
    "<dependencyManagement>"@
}

pub open spec fn dependency_management_close() -> Seq<char> {
    "</dependencyManagement>"@
}

pub open spec fn dependencies_close() -> Seq<char> {
    "</dependencies>"@
}

/// The span `[start, end)` of the `<dependencyManagement>` block: from the
/// first `<dependencyManagement>` to just after the `</dependencyManagement>`
/// that follows it; none when the pom has no such block.
pub open spec fn management_block(pom: Seq<char>) -> Option<(int, int)> {
    match find_from(pom, dependency_management_open(), 0) {
        Some(s) => match find_from(pom, dependency_management_close(), s) {
            Some(e) => Some((s, e + dependency_management_close().len())),
            None => None,
        },
        None => None,
    }
}

/// Index `j` lies inside the `<dependencyManagement>` block.
pub open spec fn in_management_block(pom: Seq<char>, j: int) -> bool {
    match management_block(pom) {
        Some((s, e)) => s <= j < e,
        None => false,
    }
}

/// The index of the project-level `</dependencies>`: the first occurrence
/// outside the `<dependencyManagement>` block, whether it comes before the
/// block or after it.
pub open spec fn spec_locate_main_dependencies_close(pom: Seq<char>) -> Option<int> {
    match management_block(pom) {
        Some((s, e)) => match find_from(pom, dependencies_close(), 0) {
            Some(k) => if k < s {
                Some(k)
            } else {
                find_from(pom, dependencies_close(), e)
            },
            None => None,
        },
        None => find_from(pom, dependencies_close(), 0),
    }
}

/// The index (in characters) of the project-level `</dependencies>`.
pub fn locate_main_dependencies_close(pom: &str) -> (r: Option<usize>)
    ensures
        match r {
            Some(i) => spec_locate_main_dependencies_close(pom@) == Some(i as int),
            None => spec_locate_main_dependencies_close(pom@) is None,
        },
{
    let s = chars_of(pom);
    let dm_open = chars_of("<dependencyManagement>");
    let dm_close = chars_of("</dependencyManagement>");
    let deps_close = chars_of("</dependencies>");
    let block: Option<(usize, usize)> = match find_chars(&s, &dm_open, 0) {
        Some(start) => match find_chars(&s, &dm_close, start) {
            Some(e) => {
                proof {
                    lemma_find_from(s@, dm_close@, start as int);
                }
                assert(s@.len() == s.len());
                Some((start, e + dm_close.len()))
            },
            None => None,
        },
        None => None,
    };
    assert(block == match management_block(pom@) {
        Some((a, b)) => Some((a as usize, b as usize)),
        None => None::<(usize, usize)>,
    });
    let first = find_chars(&s, &deps_close, 0);
    match block {
        Some((start, end)) => match first {
            Some(k) => if k < start {
                Some(k)
            } else {
                find_chars(&s, &deps_close, end)
            },
            None => None,
        },
        None => first,
    }
}

pub open spec fn spec_inject_into_dependencies(pom: Seq<char>, snippet: Seq<char>) -> Option<
    Seq<char>,
> {
    match spec_locate_main_dependencies_close(pom) {
        Some(i) => Some(pom.subrange(0, i) + snippet + pom.subrange(i, pom.len() as int)),
        None => None,
    }
}

/// The pom with the snippet inserted just before the project-level
/// `</dependencies>`; an error when there is none.
pub fn inject_into_dependencies(pom: &str, snippet: &str) -> (r: Result<String, BuildToolError>)
    ensures
        match r {
            Ok(updated) => spec_inject_into_dependencies(pom@, snippet@) == Some(updated@),
            Err(e) => spec_inject_into_dependencies(pom@, snippet@) is None && e
                == BuildToolError::DependenciesBlockNotFound,
        },
{
    let idx = match locate_main_dependencies_close(pom) {
        Some(i) => i,
        None => {
            return Err(BuildToolError::DependenciesBlockNotFound);
        },
    };
    proof {
        law_insertion_point(pom@);
    }
    let n = pom.unicode_len();
    let mut updated = String::from_str(pom.substring_char(0, idx));
    updated.append(snippet);
    updated.append(pom.substring_char(idx, n));
    Ok(updated)
}

pub open spec fn snippet_head() -> Seq<char> {
    "        <dependency>\n            <groupId>"@
}

pub open spec fn snippet_group_end() -> Seq<char> {
    "</groupId>\n            "@
}

pub open spec fn snippet_artifact_end() -> Seq<char> {
    "\n"@
}

pub open spec fn snippet_version_head() -> Seq<char> {
    "            <version>"@
}

pub open spec fn snippet_version_end() -> Seq<char> {
    "</version>\n"@
}

pub open spec fn snippet_tail() -> Seq<char> {
    "        </dependency>\n"@
}

pub open spec fn spec_version_line(version: Option<Seq<char>>) -> Seq<char> {
    match version {
        Some(v) => snippet_version_head() + v + snippet_version_end(),
        None => Seq::empty(),
    }
}

/// The `<dependency>` element of a coordinate, indented for the
/// project-level `<dependencies>` block.
pub open spec fn spec_build_snippet(dep: DependencyCoord) -> Seq<char> {
    snippet_head() + dep.group_id@ + snippet_group_end() + artifact_open() + dep.artifact_id@
        + artifact_close() + snippet_artifact_end() + spec_version_line(opt_str_view(dep.version))
        + snippet_tail()
}

pub fn build_snippet(dep: &DependencyCoord) -> (r: String)
    ensures
        r@ == spec_build_snippet(*dep),
{
    let mut out = String::from_str("        <dependency>\n            <groupId>");
    out.append(dep.group_id);
    out.append("</groupId>\n            ");
    out.append("<artifactId>");
    out.append(dep.artifact_id);
    out.append("</artifactId>");
    out.append("\n");
    match dep.version {
        Some(v) => {
            out.append("            <version>");
            out.append(v);
            out.append("</version>\n");
        },
        None => {},
    }
    out.append("        </dependency>\n");
    out
}


/// `skip_id_chars` stops right after a run of id characters that is followed
/// by a character that is not one.
proof fn lemma_skip_id_run(s: Seq<char>, q: int, n: int)
    requires
        0 <= q,
        q + n < s.len(),
        0 <= n,
        forall|k: int| q <= k < q + n ==> is_id_char(s[k]),
        !is_id_char(s[q + n]),
    ensures
        skip_id_chars(s, q) == q + n,
    decreases n,
{
    if n > 0 {
        lemma_skip_id_run(s, q + 1, n - 1);
    }
}

/// An artifact id written between the tags, with nothing in between, is what
/// the element at that place captures.
pub proof fn lemma_capture_of_element(a: Seq<char>, id: Seq<char>, b: Seq<char>)
    requires
        id.len() > 0,
        forall|k: int| 0 <= k < id.len() ==> is_id_char(#[trigger] id[k]),
    ensures
        artifact_capture_at(a + artifact_open() + id + artifact_close() + b, a.len() as int) == Some(
            id,
        ),
{
    reveal_strlit("<artifactId>");
    reveal_strlit("</artifactId>");
    let s = a + artifact_open() + id + artifact_close() + b;
    let p = a.len() as int;
    let q = p + artifact_open().len();
    let r = q + id.len();
    assert(s.subrange(p, q) =~= artifact_open());
    assert(s[q] == id[0]);
    assert(skip_white_space(s, q) == q);
    assert forall|k: int| q <= k < r implies is_id_char(s[k]) by {
        assert(s[k] == id[k - q]);
    }
    assert(s[r] == '<');
    lemma_skip_id_run(s, q, id.len() as int);
    assert(skip_white_space(s, r) == r);
    assert(s.subrange(r, r + artifact_close().len()) =~= artifact_close());
    assert(s.subrange(q, r) =~= id);
}

/// Law: once a dependency is installed into a pom, the pom declares its
/// artifact (for an artifact id that is not empty and holds no `<` and no
/// white space, as every id of a Maven coordinate does).
pub proof fn law_installed_pom_declares_artifact(pom: Seq<char>, dep: DependencyCoord)
    requires
        dep.artifact_id@.len() > 0,
        forall|k: int|
            0 <= k < dep.artifact_id@.len() ==> is_id_char(#[trigger] dep.artifact_id@[k]),
    ensures
        spec_inject_into_dependencies(pom, spec_build_snippet(dep)) matches Some(updated)
            ==> spec_contains_artifact(updated, dep.artifact_id@),
{
    if let Some(i) = spec_locate_main_dependencies_close(pom) {
        law_insertion_point(pom);
        let a = pom.subrange(0, i) + snippet_head() + dep.group_id@ + snippet_group_end();
        let b = snippet_artifact_end() + spec_version_line(opt_str_view(dep.version))
            + snippet_tail() + pom.subrange(i, pom.len() as int);
        let updated = spec_inject_into_dependencies(pom, spec_build_snippet(dep))->0;
        assert(updated =~= a + artifact_open() + dep.artifact_id@ + artifact_close() + b);
        lemma_capture_of_element(a, dep.artifact_id@, b);
        assert(artifact_capture_at(updated, a.len() as int) == Some(dep.artifact_id@));
    }
}

/// Law: the insertion point is the first `</dependencies>` outside the
/// `<dependencyManagement>` block; there is none exactly when every
/// `</dependencies>` of the pom lies inside that block.
pub proof fn law_insertion_point(pom: Seq<char>)
    ensures
        match spec_locate_main_dependencies_close(pom) {
            Some(i) => {
                &&& occurs_at(pom, dependencies_close(), i)
                &&& !in_management_block(pom, i)
                &&& forall|j: int|
                    j < i && #[trigger] occurs_at(pom, dependencies_close(), j)
                        ==> in_management_block(pom, j)
            },
            None => forall|j: int|
                #[trigger] occurs_at(pom, dependencies_close(), j) ==> in_management_block(pom, j),
        },
{
    lemma_find_from(pom, dependencies_close(), 0);
    if let Some(s) = find_from(pom, dependency_management_open(), 0) {
        lemma_find_from(pom, dependency_management_open(), 0);
        lemma_find_from(pom, dependency_management_close(), s);
        if let Some(e) = find_from(pom, dependency_management_close(), s) {
            let end = e + dependency_management_close().len();
            lemma_find_from(pom, dependencies_close(), end);
        }
    }
}

/// Law: injecting adds the snippet and nothing else: the pom before and after
/// the insertion point is kept as it was.
pub proof fn law_inject_keeps_pom(pom: Seq<char>, snippet: Seq<char>)
    ensures
        spec_inject_into_dependencies(pom, snippet) matches Some(updated) ==> {
            let i = spec_locate_main_dependencies_close(pom)->0;
            &&& updated.len() == pom.len() + snippet.len()
            &&& updated.subrange(0, i) == pom.subrange(0, i)
            &&& updated.subrange(i, i + snippet.len()) == snippet
            &&& updated.subrange(i + snippet.len(), updated.len() as int) == pom.subrange(
                i,
                pom.len() as int,
            )
        },
{
    if let Some(i) = spec_locate_main_dependencies_close(pom) {
        law_insertion_point(pom);
        let updated = spec_inject_into_dependencies(pom, snippet)->0;
        assert(updated.subrange(0, i) =~= pom.subrange(0, i));
        assert(updated.subrange(i, i + snippet.len()) =~= snippet);
        assert(updated.subrange(i + snippet.len(), updated.len() as int) =~= pom.subrange(
            i,
            pom.len() as int,
        ));
    }
}

/// What `skip_id_chars` skips are id characters, and it stops at the end or
/// at a character that is not one.
proof fn lemma_skip_id_chars(s: Seq<char>, i: int)
    requires
        0 <= i <= s.len(),
    ensures
        i <= skip_id_chars(s, i) <= s.len(),
        forall|j: int| i <= j < skip_id_chars(s, i) ==> is_id_char(#[trigger] s[j]),
        skip_id_chars(s, i) < s.len() ==> !is_id_char(s[skip_id_chars(s, i)]),
    decreases s.len() - i,
{
    if i < s.len() && is_id_char(s[i]) {
        lemma_skip_id_chars(s, i + 1);
    }
}

/// Where the id of the element matched at `p` starts.
pub open spec fn id_start(s: Seq<char>, p: int) -> int {
    match artifact_bounds_at(s, p) {
        Some((q, _)) => q,
        None => p,
    }
}

/// Where the id of the element matched at `p` ends.
pub open spec fn id_end(s: Seq<char>, p: int) -> int {
    match artifact_bounds_at(s, p) {
        Some((_, r)) => r,
        None => p,
    }
}

/// The end of the `<artifactId>` element matched at `p`: just after its
/// closing tag.
pub open spec fn element_end(s: Seq<char>, p: int) -> int {
    skip_white_space(s, id_end(s, p)) + artifact_close().len()
}

/// The parts of the element matched at `p`: the tag at `p`, white space, the
/// id in `[q, r)`, white space, and the closing tag, all inside `s`.
proof fn lemma_element_parts(s: Seq<char>, p: int)
    requires
        artifact_bounds_at(s, p) is Some,
    ensures
        ({
            let q = id_start(s, p);
            let r = id_end(s, p);
            let t = skip_white_space(s, r);
            &&& 0 <= p
            &&& p + artifact_open().len() <= q < r <= t < element_end(s, p)
            &&& element_end(s, p) == t + artifact_close().len()
            &&& element_end(s, p) <= s.len()
            &&& occurs_at(s, artifact_open(), p)
            &&& occurs_at(s, artifact_close(), t)
            &&& q == skip_white_space(s, p + artifact_open().len())
            &&& r == skip_id_chars(s, q)
            &&& forall|j: int| p + artifact_open().len() <= j < q ==> is_white_space(#[trigger] s[j])
            &&& !is_white_space(s[q])
            &&& forall|j: int| q <= j < r ==> is_id_char(#[trigger] s[j])
            &&& !is_id_char(s[r])
            &&& forall|j: int| r <= j < t ==> is_white_space(#[trigger] s[j])
            &&& !is_white_space(s[t])
        }),
{
    let q = skip_white_space(s, p + artifact_open().len());
    reveal_strlit("</artifactId>");
    lemma_skip_white_space(s, p + artifact_open().len());
    lemma_skip_id_chars(s, q);
    let r = skip_id_chars(s, q);
    lemma_skip_white_space(s, r);
    assert(artifact_bounds_at(s, p) == Some((q, r)));
}

/// The element matched at `p1` in `s1` is matched, with the same id, at `p2`
/// in a text `s2` that holds the same characters from `p2` on over the
/// element's extent.
proof fn lemma_capture_transfer(s1: Seq<char>, s2: Seq<char>, p1: int, p2: int)
    requires
        artifact_bounds_at(s1, p1) is Some,
        0 <= p2,
        p2 + (element_end(s1, p1) - p1) <= s2.len(),
        s2.subrange(p2, p2 + (element_end(s1, p1) - p1)) == s1.subrange(p1, element_end(s1, p1)),
    ensures
        artifact_capture_at(s2, p2) == artifact_capture_at(s1, p1),
{
    lemma_element_parts(s1, p1);
    let olen = artifact_open().len() as int;
    let clen = artifact_close().len() as int;
    let q = id_start(s1, p1);
    let r = id_end(s1, p1);
    let t = skip_white_space(s1, r);
    let e = element_end(s1, p1);
    let d = p2 - p1;
    let w1 = s1.subrange(p1, e);
    let w2 = s2.subrange(p2, p2 + (e - p1));
    assert forall|j: int| p1 <= j < e implies #[trigger] s1[j] == s2[j + d] by {
        assert(w1[j - p1] == s1[j]);
        assert(w2[j - p1] == s2[j + d]);
    }
    assert(s2.subrange(p2, p2 + olen) =~= artifact_open()) by {
        assert forall|k: int| 0 <= k < olen implies s2.subrange(p2, p2 + olen)[k]
            == artifact_open()[k] by {
            assert(s1[p1 + k] == s2[p1 + k + d]);
            assert(s1.subrange(p1, p1 + olen)[k] == s1[p1 + k]);
        }
    }
    assert forall|j: int| p2 + olen <= j < q + d implies is_white_space(#[trigger] s2[j]) by {
        assert(s1[j - d] == s2[j - d + d]);
    }
    assert(s1[q] == s2[q + d]);
    lemma_skip_white_space_run(s2, p2 + olen, q - p1 - olen);
    assert forall|k: int| q + d <= k < q + d + (r - q) implies is_id_char(#[trigger] s2[k]) by {
        assert(s1[k - d] == s2[k - d + d]);
    }
    assert(s1[r] == s2[r + d]);
    lemma_skip_id_run(s2, q + d, r - q);
    assert forall|j: int| r + d <= j < t + d implies is_white_space(#[trigger] s2[j]) by {
        assert(s1[j - d] == s2[j - d + d]);
    }
    assert(s1[t] == s2[t + d]);
    lemma_skip_white_space_run(s2, r + d, t - r);
    assert(s2.subrange(t + d, t + d + clen) =~= artifact_close()) by {
        assert forall|k: int| 0 <= k < clen implies s2.subrange(t + d, t + d + clen)[k]
            == artifact_close()[k] by {
            assert(s1[t + k] == s2[t + k + d]);
            assert(s1.subrange(t, t + clen)[k] == s1[t + k]);
        }
    }
    assert(s2.subrange(q + d, r + d) =~= s1.subrange(q, r)) by {
        assert forall|k: int| 0 <= k < r - q implies s2.subrange(q + d, r + d)[k]
            == s1.subrange(q, r)[k] by {
            assert(s1[q + k] == s2[q + k + d]);
        }
    }
}

/// An element matched at or before an occurrence of `</dependencies>` ends
/// before it: no element overlaps the insertion point.
proof fn lemma_element_before(s: Seq<char>, p: int, i: int)
    requires
        artifact_bounds_at(s, p) is Some,
        occurs_at(s, dependencies_close(), i),
        p <= i,
    ensures
        element_end(s, p) <= i,
{
    reveal_strlit("<artifactId>");
    reveal_strlit("</artifactId>");
    reveal_strlit("</dependencies>");
    lemma_element_parts(s, p);
    let q = id_start(s, p);
    let r = id_end(s, p);
    let t = skip_white_space(s, r);
    let e = element_end(s, p);
    assert(s[i] == '<' && s[i + 1] == '/' && s[i + 2] == 'd') by {
        assert(s.subrange(i, i + 15)[0] == s[i]);
        assert(s.subrange(i, i + 15)[1] == s[i + 1]);
        assert(s.subrange(i, i + 15)[2] == s[i + 2]);
    }
    if i < e {
        if i < p + 12 {
            assert(s.subrange(p, p + 12)[i - p] == s[i]);
            assert(s.subrange(p, p + 12)[i + 1 - p] == s[i + 1]);
        } else if i < q {
            assert(is_white_space(s[i]));
        } else if i < r {
            assert(is_id_char(s[i]));
        } else if i < t {
            assert(is_white_space(s[i]));
        } else {
            assert(s.subrange(t, t + 13)[i - t] == s[i]);
            assert(s.subrange(t, t + 13)[i + 2 - t] == s[i + 2]);
        }
    }
}

/// Law: injecting a snippet keeps every artifact the pom declared.
pub proof fn law_inject_keeps_declared(pom: Seq<char>, snippet: Seq<char>, artifact_id: Seq<char>)
    requires
        spec_contains_artifact(pom, artifact_id),
    ensures
        spec_inject_into_dependencies(pom, snippet) matches Some(updated)
            ==> spec_contains_artifact(updated, artifact_id),
{
    if let Some(i) = spec_locate_main_dependencies_close(pom) {
        law_insertion_point(pom);
        let n = snippet.len() as int;
        let updated = spec_inject_into_dependencies(pom, snippet)->0;
        assert(updated == pom.subrange(0, i) + snippet + pom.subrange(i, pom.len() as int));
        let p = choose|p: int| #[trigger] artifact_capture_at(pom, p) == Some(artifact_id);
        lemma_element_parts(pom, p);
        let e = element_end(pom, p);
        if p <= i {
            lemma_element_before(pom, p, i);
            assert(updated.subrange(p, e) =~= pom.subrange(p, e));
            lemma_capture_transfer(pom, updated, p, p);
            assert(artifact_capture_at(updated, p) == Some(artifact_id));
        } else {
            assert(updated.subrange(p + n, e + n) =~= pom.subrange(p, e));
            lemma_capture_transfer(pom, updated, p, p + n);
            assert(artifact_capture_at(updated, p + n) == Some(artifact_id));
        }
    }
}

/// Maven, through `pom.xml`.
pub struct MavenBuildTool {
    manifest: String,
}

impl MavenBuildTool {
    /// A Maven build whose manifest is at the given path.
    pub fn new(manifest: String) -> (r: Self)
        ensures
            r.spec_manifest_path() == manifest@,
    {
        MavenBuildTool { manifest }
    }
}

impl BuildTool for MavenBuildTool {
    open spec fn spec_kind(&self) -> BuildToolKind {
        BuildToolKind::Maven
    }

    closed spec fn spec_manifest_path(&self) -> Seq<char> {
        self.manifest@
    }

    open spec fn declares(&self, manifest: Seq<char>, artifact_id: Seq<char>) -> bool {
        spec_contains_artifact(manifest, artifact_id)
    }

    open spec fn installed(&self, manifest: Seq<char>, dep: DependencyCoord) -> Option<Seq<char>> {
        spec_inject_into_dependencies(manifest, spec_build_snippet(dep))
    }

    fn kind(&self) -> (r: BuildToolKind) {
        BuildToolKind::Maven
    }

    fn manifest_path(&self) -> (r: &str) {
        self.manifest.as_str()
    }

    fn has_dependency(&self, manifest: &str, artifact_id: &str) -> (r: bool) {
        contains_artifact(manifest, artifact_id)
    }

    fn install(&self, manifest: &str, dep: &DependencyCoord) -> (r: Result<String, BuildToolError>) {
        let snippet = build_snippet(dep);
        inject_into_dependencies(manifest, snippet.as_str())
    }

    proof fn lemma_installed_declares(&self, manifest: Seq<char>, dep: DependencyCoord) {
        law_installed_pom_declares_artifact(manifest, dep);
    }

    proof fn lemma_installed_keeps(
        &self,
        manifest: Seq<char>,
        dep: DependencyCoord,
        artifact_id: Seq<char>,
    ) {
        law_inject_keeps_declared(manifest, spec_build_snippet(dep), artifact_id);
    }
}

} // verus!
