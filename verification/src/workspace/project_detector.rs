//! Discovery of the Spring Boot project a command runs in: the class annotated
//! with `@SpringBootApplication`, the package it declares and the directory it
//! lives in. The files under `src/main/java` are handed in, in the order a
//! directory walk visits them.
use vstd::prelude::*;

use crate::text::{
    chars_of, contains, contains_str, join_path, matches_at, occurs_at, path_join,
    replace_char, replace_char_with, skip_white_space, skip_ws,
};

verus! {

/// What `regex_syntax::is_word_character` returns for a character: whether it
/// is in the Unicode word class `\w`.
pub uninterp spec fn unicode_word_char(c: char) -> bool;

/// An ASCII letter, an ASCII digit or `_`.
pub open spec fn is_ascii_word_char(c: char) -> bool {
    ||| ('a' <= c && c <= 'z')
    ||| ('A' <= c && c <= 'Z')
    ||| ('0' <= c && c <= '9')
    ||| c == '_'
}

/// Calls `regex_syntax::is_word_character`, the Unicode `\w` class; claims that
/// the answer is a function of the character (named `unicode_word_char`) and
/// that, among ASCII characters, the word characters are exactly the letters,
/// digits and `_`: its ASCII shortcut (`is_word_byte`) accepts those, and the
/// ASCII ranges of its table (`PERL_WORD`) are those same ones. The crate is built with its default features,
/// which hold the tables this function needs.
#[verifier::external_body]
fn word_char(c: char) -> (r: bool)
    ensures
        r == unicode_word_char(c),
        is_ascii_word_char(c) ==> r,
        c <= '\u{7f}' ==> r == is_ascii_word_char(c),
{
    regex_syntax::is_word_character(c)
}

/// A character that may start a package name: an ASCII letter or `_`.
pub open spec fn is_package_start(c: char) -> bool {
    ('a' <= c && c <= 'z') || ('A' <= c && c <= 'Z') || c == '_'
}

/// A character that may continue a package name: a word character or `.`
/// (among ASCII characters the word characters are the letters, the digits
/// and `_`).
pub open spec fn is_package_char(c: char) -> bool {
    if c <= '\u{7f}' {
        is_ascii_word_char(c) || c == '.'
    } else {
        unicode_word_char(c)
    }
}

/// The first index `j >= i` that holds no package character (or the length).
pub open spec fn skip_package_chars(s: Seq<char>, i: int) -> int
    decreases s.len() - i,
{
    if i < 0 || i >= s.len() {
        i
    } else if is_package_char(s[i]) {
        skip_package_chars(s, i + 1)
    } else {
        i
    }
}


fn skip_package(s: &Vec<char>, i: usize) -> (r: usize)
    requires
        i <= s@.len(),
    ensures
        r == skip_package_chars(s@, i as int),
        i <= r <= s@.len(),
{
    let mut j = i;
    while j < s.len() && (word_char(s[j]) || s[j] == '.')
        invariant
            i <= j <= s@.len(),
            skip_package_chars(s@, i as int) == skip_package_chars(s@, j as int),
        decreases s@.len() - j,
    {
        j = j + 1;
    }
    j
}

/// `skip_package_chars` stops right after a run of package characters that is
/// followed by a character that is not one.
proof fn lemma_skip_package_run(s: Seq<char>, i: int, n: int)
    requires
        0 <= i,
        0 <= n,
        i + n < s.len(),
        forall|j: int| i <= j < i + n ==> is_package_char(#[trigger] s[j]),
        !is_package_char(s[i + n]),
    ensures
        skip_package_chars(s, i) == i + n,
    decreases n,
{
    if n > 0 {
        lemma_skip_package_run(s, i + 1, n - 1);
    }
}

pub open spec fn package_keyword() -> Seq<char> {
    seq!['p', 'a', 'c', 'k', 'a', 'g', 'e']
}

/// Index `p` starts a line: it is the start of the text or follows a `\n`.
pub open spec fn is_line_start(s: Seq<char>, p: int) -> bool {
    p == 0 || (0 < p <= s.len() && s[p - 1] == '\n')
}

/// The bounds `(t, u)` of the package name of a `package` declaration read
/// from index `p`: white space, the word `package`, at least one white space,
/// a name that starts with an ASCII letter or `_` and goes on with word
/// characters and dots as far as they reach, white space and `;`.
pub open spec fn declaration_bounds(s: Seq<char>, p: int) -> Option<(int, int)> {
    let q = skip_white_space(s, p);
    let r = q + 7;
    if !occurs_at(s, package_keyword(), q) {
        None
    } else {
        let t = skip_white_space(s, r);
        if t == r || t >= s.len() || !is_package_start(s[t]) {
            None
        } else {
            let u = skip_package_chars(s, t + 1);
            let v = skip_white_space(s, u);
            if v < s.len() && s[v] == ';' {
                Some((t, u))
            } else {
                None
            }
        }
    }
}

/// The package name declared at the first line start, from `p` on, where a
/// declaration can be read: what the pattern
/// `(?m)^\s*package\s+([a-zA-Z_][\w.]*)\s*;` captures in its first match.
pub open spec fn package_declaration_from(s: Seq<char>, p: int) -> Option<Seq<char>>
    decreases s.len() + 1 - p,
{
    if p < 0 || p > s.len() {
        None
    } else if is_line_start(s, p) && declaration_bounds(s, p) is Some {
        let (t, u) = declaration_bounds(s, p)->0;
        Some(s.subrange(t, u))
    } else {
        package_declaration_from(s, p + 1)
    }
}

/// The package declared in a Java source text, if one can be read.
pub open spec fn spec_package_declaration(s: Seq<char>) -> Option<Seq<char>> {
    package_declaration_from(s, 0)
}

fn declaration_bounds_at(s: &Vec<char>, keyword: &Vec<char>, p: usize) -> (r: Option<(usize, usize)>)
    requires
        p <= s@.len(),
        keyword@ == package_keyword(),
    ensures
        match r {
            Some((t, u)) => declaration_bounds(s@, p as int) == Some((t as int, u as int)) && t
                <= u <= s@.len(),
            None => declaration_bounds(s@, p as int) is None,
        },
{
    let q = skip_ws(s, p);
    if !matches_at(s, keyword, q) {
        return None;
    }
    assert(occurs_at(s@, keyword@, q as int));
    assert(q + keyword@.len() <= s@.len());
    assert(keyword@.len() == keyword.len());
    assert(s@.len() == s.len());
    let r = q + keyword.len();
    let t = skip_ws(s, r);
    if t == r || t >= s.len() {
        return None;
    }
    let c = s[t];
    if !(('a' <= c && c <= 'z') || ('A' <= c && c <= 'Z') || c == '_') {
        return None;
    }
    let u = skip_package(s, t + 1);
    let v = skip_ws(s, u);
    if v < s.len() && s[v] == ';' {
        Some((t, u))
    } else {
        None
    }
}

/// The package declared in a Java source text: the name captured by the first
/// match of `(?m)^\s*package\s+([a-zA-Z_][\w.]*)\s*;`, where `\s` and `\w` are
/// the Unicode classes.
pub fn package_declaration(contents: &str) -> (r: Option<String>)
    ensures
        match r {
            Some(name) => spec_package_declaration(contents@) == Some(name@),
            None => spec_package_declaration(contents@) is None,
        },
{
    let s = chars_of(contents);
    let kw = "package";
    let keyword = chars_of(kw);
    proof {
        reveal_strlit("package");
        assert(keyword@ =~= package_keyword());
    }
    let n = s.len();
    let mut p: usize = 0;
    while p <= n
        invariant
            n == s@.len(),
            s@ == contents@,
            keyword@ == package_keyword(),
            package_declaration_from(s@, 0) == package_declaration_from(s@, p as int),
        decreases n + 1 - p,
    {
        if p == 0 || s[p - 1] == '\n' {
            match declaration_bounds_at(&s, &keyword, p) {
                Some((t, u)) => {
                    return Some(String::from_str(contents.substring_char(t, u)));
                },
                None => {},
            }
        }
        if p == n {
            assert(package_declaration_from(s@, p + 1) is None);
            return None;
        }
        p = p + 1;
    }
    None
}

/// A file below `src/main/java`, as a directory walk yields it.
pub struct SourceFile {
    pub path: String,
    pub contents: String,
}

/// The last index `k < n` with `s[k] == c`.
pub open spec fn last_index_before(s: Seq<char>, c: char, n: int) -> Option<int>
    decreases n,
{
    if n <= 0 {
        None
    } else if s[n - 1] == c {
        Some(n - 1)
    } else {
        last_index_before(s, c, n - 1)
    }
}

pub proof fn lemma_last_index_before(s: Seq<char>, c: char, n: int)
    requires
        0 <= n <= s.len(),
    ensures
        match last_index_before(s, c, n) {
            Some(k) => 0 <= k < n && s[k] == c && forall|j: int| k < j < n ==> s[j] != c,
            None => forall|j: int| 0 <= j < n ==> s[j] != c,
        },
    decreases n,
{
    if n > 0 {
        lemma_last_index_before(s, c, n - 1);
    }
}

fn last_index(s: &Vec<char>, c: char) -> (r: Option<usize>)
    ensures
        match r {
            Some(k) => last_index_before(s@, c, s@.len() as int) == Some(k as int),
            None => last_index_before(s@, c, s@.len() as int) is None,
        },
{
    let mut n = s.len();
    while n > 0
        invariant
            n <= s@.len(),
            last_index_before(s@, c, s@.len() as int) == last_index_before(s@, c, n as int),
        decreases n,
    {
        if s[n - 1] == c {
            return Some(n - 1);
        }
        n = n - 1;
    }
    None
}

/// The file name of a path: the text after its last `/`.
pub open spec fn file_name(path: Seq<char>) -> Seq<char> {
    match last_index_before(path, '/', path.len() as int) {
        Some(k) => path.subrange(k + 1, path.len() as int),
        None => path,
    }
}

/// The path's file name has the extension `java`: a `.` other than its first
/// character, after which comes `java` and no other `.`.
pub open spec fn has_java_extension(path: Seq<char>) -> bool {
    let name = file_name(path);
    match last_index_before(name, '.', name.len() as int) {
        Some(k) => k > 0 && name.subrange(k + 1, name.len() as int) == seq!['j', 'a', 'v', 'a'],
        None => false,
    }
}

/// The path names a Java source file (see `has_java_extension`).
pub fn java_extension(path: &str) -> (r: bool)
    ensures
        r == has_java_extension(path@),
{
    let p = chars_of(path);
    proof {
        lemma_last_index_before(p@, '/', p@.len() as int);
    }
    assert(p@.len() == p.len());
    let name_start = match last_index(&p, '/') {
        Some(k) => k + 1,
        None => 0,
    };
    let name = chars_of(path.substring_char(name_start, p.len()));
    assert(name@ == file_name(path@));
    match last_index(&name, '.') {
        Some(k) => {
            proof {
                lemma_last_index_before(name@, '.', name@.len() as int);
            }
            if k == 0 || name.len() - k != 5 {
                proof {
                    if k > 0 {
                        assert(name@.subrange(k + 1, name@.len() as int).len() != 4);
                    }
                }
                return false;
            }
            let ok = name[k + 1] == 'j' && name[k + 2] == 'a' && name[k + 3] == 'v' && name[k
                + 4] == 'a';
            proof {
                let ext = name@.subrange(k + 1, name@.len() as int);
                if ok {
                    assert(ext =~= seq!['j', 'a', 'v', 'a']);
                } else {
                    assert(ext[0] == name@[k + 1]);
                    assert(ext[1] == name@[k + 2]);
                    assert(ext[2] == name@[k + 3]);
                    assert(ext[3] == name@[k + 4]);
                    assert(ext != seq!['j', 'a', 'v', 'a']);
                }
            }
            ok
        },
        None => false,
    }
}

/// The parent directory of a file path: the text before its last `/` (`/`
/// itself when that is the only one, at the start; empty when there is none).
/// The root and the empty path have none.
pub open spec fn parent_dir(path: Seq<char>) -> Option<Seq<char>> {
    match last_index_before(path, '/', path.len() as int) {
        Some(k) => if k == 0 {
            if path.len() == 1 {
                None
            } else {
                Some(seq!['/'])
            }
        } else {
            Some(path.subrange(0, k))
        },
        None => if path.len() == 0 {
            None
        } else {
            Some(Seq::empty())
        },
    }
}

fn parent_of(path: &str) -> (r: Option<String>)
    ensures
        match r {
            Some(p) => parent_dir(path@) == Some(p@),
            None => parent_dir(path@) is None,
        },
{
    let p = chars_of(path);
    match last_index(&p, '/') {
        Some(k) => {
            proof {
                lemma_last_index_before(p@, '/', p@.len() as int);
            }
            if k == 0 {
                if p.len() == 1 {
                    None
                } else {
                    let root = "/";
                    proof {
                        reveal_strlit("/");
                        assert(root@ =~= seq!['/']);
                    }
                    Some(String::from_str(root))
                }
            } else {
                Some(String::from_str(path.substring_char(0, k)))
            }
        },
        None => {
            if p.len() == 0 {
                None
            } else {
                let empty = String::new();
                Some(empty)
            }
        },
    }
}

pub open spec fn spring_boot_marker() -> Seq<char> {
    "@SpringBootApplication"@
}

/// Why no project could be detected.
#[derive(Debug)]
pub enum DetectError {
    /// There is no `src/main/java` below the root.
    SourceRootMissing { root: String },
    /// No Java file under the source root holds the application marker.
    NoApplicationClass { source_root: String },
    /// The application class declares no package that can be read.
    PackageNotParsed { path: String, source_root: String },
    /// The application class has no parent directory.
    NoParentDirectory,
}

impl DetectError {
    pub open spec fn spec_message(self) -> Seq<char> {
        match self {
            DetectError::SourceRootMissing { root } => "sprout must be run from a Spring Boot project root (src/main/java not found at "@
                + root@ + ")"@,
            DetectError::NoApplicationClass { source_root } => "could not find a @SpringBootApplication class under "@
                + source_root@ + ": no @SpringBootApplication class found"@,
            DetectError::PackageNotParsed { path, source_root } => "could not find a @SpringBootApplication class under "@
                + source_root@ + ": found @SpringBootApplication at "@ + path@
                + " but no package declaration could be parsed"@,
            DetectError::NoParentDirectory => "application class has no parent directory"@,
        }
    }

    /// The error as the user reads it, its cause after a colon.
    pub fn message(&self) -> (r: String)
        ensures
            r@ == self.spec_message(),
    {
        match self {
            DetectError::SourceRootMissing { root } => {
                let mut m = String::from_str(
                    "sprout must be run from a Spring Boot project root (src/main/java not found at ",
                );
                m.append(root.as_str());
                m.append(")");
                m
            },
            DetectError::NoApplicationClass { source_root } => {
                let mut m = String::from_str(
                    "could not find a @SpringBootApplication class under ",
                );
                m.append(source_root.as_str());
                m.append(": no @SpringBootApplication class found");
                m
            },
            DetectError::PackageNotParsed { path, source_root } => {
                let mut m = String::from_str(
                    "could not find a @SpringBootApplication class under ",
                );
                m.append(source_root.as_str());
                m.append(": found @SpringBootApplication at ");
                m.append(path.as_str());
                m.append(" but no package declaration could be parsed");
                m
            },
            DetectError::NoParentDirectory => String::from_str(
                "application class has no parent directory",
            ),
        }
    }
}

/// The outcome of looking for the application class in a list of files.
pub enum ApplicationScan {
    NotFound,
    NoPackage(Seq<char>),
    Found(Seq<char>, Seq<char>),
}

/// The path lies below the directory: it is the directory, a `/` and more.
pub open spec fn is_under(path: Seq<char>, dir: Seq<char>) -> bool {
    &&& dir.len() < path.len()
    &&& path.subrange(0, dir.len() as int) == dir
    &&& path[dir.len() as int] == '/'
}

/// Whether the path lies below the directory.
pub fn under(path: &str, dir: &str) -> (r: bool)
    ensures
        r == is_under(path@, dir@),
{
    let p = chars_of(path);
    let d = chars_of(dir);
    if d.len() >= p.len() {
        return false;
    }
    if !matches_at(&p, &d, 0) {
        return false;
    }
    p[d.len()] == '/'
}

/// The first file, from index `i` on, that lies below the source root, is a
/// Java file and holds the `@SpringBootApplication` marker; with its path and
/// declared package.
pub open spec fn scan_application(files: Seq<SourceFile>, source_root: Seq<char>, i: int) -> ApplicationScan
    decreases files.len() - i,
{
    if i < 0 || i >= files.len() {
        ApplicationScan::NotFound
    } else if is_under(files[i].path@, source_root) && has_java_extension(files[i].path@)
        && contains(files[i].contents@, spring_boot_marker()) {
        match spec_package_declaration(files[i].contents@) {
            Some(pkg) => ApplicationScan::Found(files[i].path@, pkg),
            None => ApplicationScan::NoPackage(files[i].path@),
        }
    } else {
        scan_application(files, source_root, i + 1)
    }
}

pub open spec fn source_root_suffix() -> Seq<char> {
    "src/main/java"@
}

pub open spec fn test_root_suffix() -> Seq<char> {
    "src/test/java"@
}

fn find_spring_boot_application(source_root: &str, files: &Vec<SourceFile>) -> (r: Result<
    (String, String),
    DetectError,
>)
    ensures
        match scan_application(files@, source_root@, 0) {
            ApplicationScan::Found(path, pkg) => r matches Ok((p, k)) && p@ == path && k@ == pkg,
            ApplicationScan::NoPackage(path) => r matches Err(
                DetectError::PackageNotParsed { path: p, source_root: sr },
            ) && p@ == path && sr@ == source_root@,
            ApplicationScan::NotFound => r matches Err(
                DetectError::NoApplicationClass { source_root: sr },
            ) && sr@ == source_root@,
        },
{
    let marker = "@SpringBootApplication";
    let mut i: usize = 0;
    while i < files.len()
        invariant
            i <= files@.len(),
            marker@ == spring_boot_marker(),
            scan_application(files@, source_root@, 0) == scan_application(
                files@,
                source_root@,
                i as int,
            ),
        decreases files@.len() - i,
    {
        let file = &files[i];
        if under(file.path.as_str(), source_root) && java_extension(file.path.as_str())
            && contains_str(file.contents.as_str(), marker) {
            match package_declaration(file.contents.as_str()) {
                Some(pkg) => {
                    return Ok((file.path.clone(), pkg));
                },
                None => {
                    return Err(
                        DetectError::PackageNotParsed {
                            path: file.path.clone(),
                            source_root: String::from_str(source_root),
                        },
                    );
                },
            }
        }
        i = i + 1;
    }
    Err(DetectError::NoApplicationClass { source_root: String::from_str(source_root) })
}

/// The application class a scan finds lies below the source root.
proof fn lemma_scan_found_under(files: Seq<SourceFile>, source_root: Seq<char>, i: int)
    ensures
        scan_application(files, source_root, i) matches ApplicationScan::Found(path, _)
            ==> is_under(path, source_root),
    decreases files.len() - i,
{
    if 0 <= i < files.len() {
        lemma_scan_found_under(files, source_root, i + 1);
    }
}

/// The directory of a file below a directory that is not empty is that
/// directory or lies below it.
proof fn lemma_parent_within(path: Seq<char>, dir: Seq<char>)
    requires
        is_under(path, dir),
        dir.len() > 0,
    ensures
        parent_dir(path) matches Some(parent) && (parent == dir || is_under(parent, dir)),
{
    let d = dir.len() as int;
    lemma_last_index_before(path, '/', path.len() as int);
    let k = last_index_before(path, '/', path.len() as int)->0;
    assert(path[d] == '/');
    assert(d <= k);
    let parent = path.subrange(0, k);
    assert(parent_dir(path) == Some(parent));
    if k == d {
        assert(parent =~= path.subrange(0, d));
    } else {
        assert(parent.subrange(0, d) =~= path.subrange(0, d));
        assert(parent[d] == path[d]);
    }
}

/// Law: a text that starts with the line `package <name>;` declares `<name>`,
/// whatever follows, for every name that starts with an ASCII letter or `_`
/// and goes on with word characters (ASCII letters, digits, `_`, or any
/// character of the Unicode word class beyond ASCII) and dots.
pub proof fn law_package_line_is_read(name: Seq<char>, rest: Seq<char>)
    requires
        name.len() > 0,
        is_package_start(name[0]),
        forall|k: int|
            1 <= k < name.len() ==> (#[trigger] name[k] <= '\u{7f}' ==> is_ascii_word_char(name[k])
                || name[k] == '.') && (name[k] > '\u{7f}' ==> unicode_word_char(name[k])),
    ensures
        spec_package_declaration(package_keyword() + seq![' '] + name + seq![';'] + rest) == Some(
            name,
        ),
{
    let s = package_keyword() + seq![' '] + name + seq![';'] + rest;
    let n = name.len() as int;
    assert(s[0] == 'p');
    assert(skip_white_space(s, 0) == 0);
    assert(s.subrange(0, 7) =~= package_keyword());
    assert(s[7] == ' ');
    assert(s[8] == name[0]);
    assert(skip_white_space(s, 8) == 8);
    assert(skip_white_space(s, 7) == 8);
    assert forall|j: int| 9 <= j < 9 + (n - 1) implies is_package_char(#[trigger] s[j]) by {
        assert(s[j] == name[j - 8]);
    }
    assert(s[8 + n] == ';');
    lemma_skip_package_run(s, 9, n - 1);
    assert(skip_white_space(s, 8 + n) == 8 + n);
    assert(declaration_bounds(s, 0) == Some((8int, 8 + n)));
    assert(s.subrange(8, 8 + n) =~= name);
}

/// A detected Spring Boot project.
#[derive(Debug, Clone)]
pub struct ProjectContext {
    root: String,
    base_path: String,
    base_package: String,
    application_class: String,
}

impl ProjectContext {
    pub closed spec fn spec_root(self) -> Seq<char> {
        self.root@
    }

    pub closed spec fn spec_base_path(self) -> Seq<char> {
        self.base_path@
    }

    pub closed spec fn spec_base_package(self) -> Seq<char> {
        self.base_package@
    }

    pub closed spec fn spec_application_class(self) -> Seq<char> {
        self.application_class@
    }

    /// The directory the project was detected in.
    pub fn root(&self) -> (r: &str)
        ensures
            r@ == self.spec_root(),
    {
        self.root.as_str()
    }

    /// The directory of the application class: where generated files go.
    pub fn base_path(&self) -> (r: &str)
        ensures
            r@ == self.spec_base_path(),
    {
        self.base_path.as_str()
    }

    /// The package of the application class.
    pub fn base_package(&self) -> (r: &str)
        ensures
            r@ == self.spec_base_package(),
    {
        self.base_package.as_str()
    }

    /// The path of the application class.
    pub fn application_class(&self) -> (r: &str)
        ensures
            r@ == self.spec_application_class(),
    {
        self.application_class.as_str()
    }

    /// `src/main/java` below the root.
    pub fn source_root(&self) -> (r: String)
        ensures
            r@ == path_join(self.spec_root(), source_root_suffix()),
    {
        join_path(self.root.as_str(), "src/main/java")
    }

    /// The test directory that mirrors the base package: `src/test/java` below
    /// the root, then the base package with its dots turned into `/`.
    pub fn test_base_path(&self) -> (r: String)
        ensures
            r@ == path_join(
                path_join(self.spec_root(), test_root_suffix()),
                replace_char(self.spec_base_package(), '.', seq!['/']),
            ),
    {
        let slash = "/";
        proof {
            reveal_strlit("/");
            assert(slash@ =~= seq!['/']);
        }
        let package_path = replace_char_with(self.base_package.as_str(), '.', slash);
        let test_root = join_path(self.root.as_str(), "src/test/java");
        join_path(test_root.as_str(), package_path.as_str())
    }
}

/// Finds the Spring Boot project rooted at a directory.
pub struct ProjectDetector;

impl ProjectDetector {
    /// The project rooted at `root`, given the files below its `src/main/java`
    /// in walk order (`None` when that directory does not exist; a file that
    /// does not lie below it is ignored): the first Java file holding
    /// `@SpringBootApplication` is the application class; its declared package
    /// is the base package and its directory the base path.
    pub fn detect_from(root: &str, java_tree: Option<&Vec<SourceFile>>) -> (r: Result<
        ProjectContext,
        DetectError,
    >)
        ensures
            match java_tree {
                None => r matches Err(DetectError::SourceRootMissing { root: rt }) && rt@ == root@,
                Some(files) => {
                    let source_root = path_join(root@, source_root_suffix());
                    match scan_application(files@, source_root, 0) {
                        ApplicationScan::NotFound => r matches Err(
                            DetectError::NoApplicationClass { source_root: sr },
                        ) && sr@ == source_root,
                        ApplicationScan::NoPackage(path) => r matches Err(
                            DetectError::PackageNotParsed { path: p, source_root: sr },
                        ) && p@ == path && sr@ == source_root,
                        ApplicationScan::Found(path, pkg) => match parent_dir(path) {
                            None => r matches Err(DetectError::NoParentDirectory),
                            Some(parent) => r matches Ok(ctx) && ctx.spec_root() == root@
                                && ctx.spec_base_path() == parent && ctx.spec_base_package()
                                == pkg && ctx.spec_application_class() == path,
                        },
                    }
                },
            },
            r matches Ok(ctx) ==> {
                let source_root = path_join(ctx.spec_root(), source_root_suffix());
                &&& is_under(ctx.spec_application_class(), source_root)
                &&& (ctx.spec_base_path() == source_root || is_under(
                    ctx.spec_base_path(),
                    source_root,
                ))
            },
    {
        let files = match java_tree {
            None => {
                return Err(DetectError::SourceRootMissing { root: String::from_str(root) });
            },
            Some(files) => files,
        };
        let source_root = join_path(root, "src/main/java");
        let (application_class, base_package) = match find_spring_boot_application(
            source_root.as_str(),
            files,
        ) {
            Ok(found) => found,
            Err(e) => {
                return Err(e);
            },
        };
        proof {
            reveal_strlit("src/main/java");
            lemma_scan_found_under(files@, source_root@, 0);
            if scan_application(files@, source_root@, 0) is Found {
                lemma_parent_within(application_class@, source_root@);
            }
        }
        let base_path = match parent_of(application_class.as_str()) {
            Some(p) => p,
            None => {
                return Err(DetectError::NoParentDirectory);
            },
        };
        Ok(ProjectContext { root: String::from_str(root), base_path, base_package, application_class })
    }
}

} // verus!
