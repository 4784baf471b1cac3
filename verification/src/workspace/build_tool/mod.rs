//! The build tool of the project (Maven or Gradle), the dependencies the
//! generated code needs, and the checks and edits of the build manifest. The
//! manifest's text is read and written by the caller.
use vstd::prelude::*;

use crate::context::generation_context::GenerationContext;
use crate::text::{is_listed, join_path, listed, path_join};

pub mod dependency_audit;
pub mod gradle;
pub mod maven;

verus! {

#[derive(Debug, Clone, Copy, PartialEq, Eq, Structural)]
pub enum BuildToolKind {
    Maven,
    Gradle,
}

impl BuildToolKind {
    pub open spec fn spec_label(self) -> Seq<char> {
        match self {
            BuildToolKind::Maven => "Maven (pom.xml)"@,
            BuildToolKind::Gradle => "Gradle (build.gradle)"@,
        }
    }

    /// The build tool with its manifest, as `list` and `doctor` show it.
    pub fn label(&self) -> (r: &'static str)
        ensures
            r@ == self.spec_label(),
    {
        match self {
            BuildToolKind::Maven => "Maven (pom.xml)",
            BuildToolKind::Gradle => "Gradle (build.gradle)",
        }
    }

    pub open spec fn spec_name(self) -> Seq<char> {
        match self {
            BuildToolKind::Maven => "Maven"@,
            BuildToolKind::Gradle => "Gradle"@,
        }
    }

    /// The build tool's name.
    pub fn name(&self) -> (r: &'static str)
        ensures
            r@ == self.spec_name(),
    {
        match self {
            BuildToolKind::Maven => "Maven",
            BuildToolKind::Gradle => "Gradle",
        }
    }
}

/// A Maven coordinate that generated code depends on, with why.
#[derive(Debug, Clone, Copy)]
pub struct DependencyCoord {
    pub group_id: &'static str,
    pub artifact_id: &'static str,
    pub version: Option<&'static str>,
    pub purpose: &'static str,
}

/// Why a build manifest could not be found or edited.
#[derive(Debug)]
pub enum BuildToolError {
    /// Neither `pom.xml` nor `build.gradle[.kts]` exists at the root.
    NoManifest { root: String },
    /// The pom has no project-level `</dependencies>` to insert before.
    DependenciesBlockNotFound,
}

impl BuildToolError {
    pub open spec fn spec_message(self) -> Seq<char> {
        match self {
            BuildToolError::NoManifest { root } => "no build manifest found (pom.xml or build.gradle[.kts]) at "@
                + root@,
            BuildToolError::DependenciesBlockNotFound => "could not locate the project-level </dependencies> in pom.xml; add the snippet manually"@,
        }
    }

    /// The error as the user reads it.
    pub fn message(&self) -> (r: String)
        ensures
            r@ == self.spec_message(),
    {
        match self {
            BuildToolError::NoManifest { root } => {
                let mut m = String::from_str(
                    "no build manifest found (pom.xml or build.gradle[.kts]) at ",
                );
                m.append(root.as_str());
                m
            },
            BuildToolError::DependenciesBlockNotFound => String::from_str(
                "could not locate the project-level </dependencies> in pom.xml; add the snippet manually",
            ),
        }
    }
}

/// `group:artifact`, with `:version` when there is one: how a coordinate is
/// shown to the user.
pub open spec fn spec_coordinate_text(dep: DependencyCoord) -> Seq<char> {
    dep.group_id@ + seq![':'] + dep.artifact_id@ + match crate::text::opt_str_view(dep.version) {
        Some(v) => seq![':'] + v,
        None => Seq::empty(),
    }
}

pub fn coordinate_text(dep: &DependencyCoord) -> (r: String)
    ensures
        r@ == spec_coordinate_text(*dep),
{
    let colon = ":";
    proof {
        reveal_strlit(":");
        assert(colon@ =~= seq![':']);
    }
    let mut out = String::from_str(dep.group_id);
    out.append(colon);
    out.append(dep.artifact_id);
    match dep.version {
        Some(v) => {
            out.append(colon);
            out.append(v);
        },
        None => {},
    }
    out
}

/// An artifact id as Maven coordinates have them: not empty, with no `<` and
/// no white space.
pub open spec fn valid_artifact_id(id: Seq<char>) -> bool {
    &&& id.len() > 0
    &&& forall|k: int| 0 <= k < id.len() ==> maven::is_id_char(#[trigger] id[k])
}

/// A build tool and its manifest. The manifest's current text is passed in;
/// `install` returns the text to write back.
pub trait BuildTool {
    spec fn spec_kind(&self) -> BuildToolKind;

    spec fn spec_manifest_path(&self) -> Seq<char>;

    /// The manifest text declares the artifact.
    spec fn declares(&self, manifest: Seq<char>, artifact_id: Seq<char>) -> bool;

    /// The manifest text with the dependency added, or `None` when it cannot be
    /// added.
    spec fn installed(&self, manifest: Seq<char>, dep: DependencyCoord) -> Option<Seq<char>>;

    fn kind(&self) -> (r: BuildToolKind)
        ensures
            r == self.spec_kind(),
    ;

    fn manifest_path(&self) -> (r: &str)
        ensures
            r@ == self.spec_manifest_path(),
    ;

    fn has_dependency(&self, manifest: &str, artifact_id: &str) -> (r: bool)
        ensures
            r == self.declares(manifest@, artifact_id@),
    ;

    fn install(&self, manifest: &str, dep: &DependencyCoord) -> (r: Result<String, BuildToolError>)
        ensures
            match r {
                Ok(updated) => self.installed(manifest@, *dep) == Some(updated@),
                Err(_) => self.installed(manifest@, *dep) is None,
            },
    ;

    /// Once a dependency is installed, the manifest declares its artifact.
    proof fn lemma_installed_declares(&self, manifest: Seq<char>, dep: DependencyCoord)
        requires
            valid_artifact_id(dep.artifact_id@),
        ensures
            self.installed(manifest, dep) matches Some(updated) ==> self.declares(
                updated,
                dep.artifact_id@,
            ),
    ;

    /// Installing a dependency keeps every artifact the manifest declared.
    proof fn lemma_installed_keeps(
        &self,
        manifest: Seq<char>,
        dep: DependencyCoord,
        artifact_id: Seq<char>,
    )
        requires
            valid_artifact_id(artifact_id),
            self.declares(manifest, artifact_id),
        ensures
            self.installed(manifest, dep) matches Some(updated) ==> self.declares(
                updated,
                artifact_id,
            ),
    ;
}

/// The build tool found at a project root.
pub enum DetectedBuildTool {
    Maven(maven::MavenBuildTool),
    Gradle(gradle::GradleBuildTool),
}

pub open spec fn pom_file() -> Seq<char> {
    "pom.xml"@
}

pub open spec fn gradle_file() -> Seq<char> {
    "build.gradle"@
}

pub open spec fn gradle_kts_file() -> Seq<char> {
    "build.gradle.kts"@
}

/// The build tool of a project root, given which files exist: `pom.xml`
/// first, then `build.gradle`, then `build.gradle.kts`.
pub fn detect(project_root: &str, existing_files: &Vec<String>) -> (r: Result<
    DetectedBuildTool,
    BuildToolError,
>)
    ensures
        ({
            let pom = path_join(project_root@, pom_file());
            let gradle = path_join(project_root@, gradle_file());
            let kts = path_join(project_root@, gradle_kts_file());
            if is_listed(existing_files@, pom) {
                r matches Ok(DetectedBuildTool::Maven(m)) && m.spec_manifest_path() == pom
            } else if is_listed(existing_files@, gradle) {
                r matches Ok(DetectedBuildTool::Gradle(g)) && g.spec_manifest_path() == gradle
            } else if is_listed(existing_files@, kts) {
                r matches Ok(DetectedBuildTool::Gradle(g)) && g.spec_manifest_path() == kts
            } else {
                r matches Err(BuildToolError::NoManifest { root }) && root@ == project_root@
            }
        }),
{
    let pom = join_path(project_root, "pom.xml");
    if listed(existing_files, &pom) {
        return Ok(DetectedBuildTool::Maven(maven::MavenBuildTool::new(pom)));
    }
    let gradle = join_path(project_root, "build.gradle");
    let gradle_kts = join_path(project_root, "build.gradle.kts");
    if listed(existing_files, &gradle) {
        return Ok(DetectedBuildTool::Gradle(gradle::GradleBuildTool::new(gradle)));
    }
    if listed(existing_files, &gradle_kts) {
        return Ok(DetectedBuildTool::Gradle(gradle::GradleBuildTool::new(gradle_kts)));
    }
    Err(BuildToolError::NoManifest { root: String::from_str(project_root) })
}

pub open spec fn spec_mapstruct() -> DependencyCoord {
    DependencyCoord {
        group_id: "org.mapstruct",
        artifact_id: "mapstruct",
        version: Some("1.5.5.Final"),
        purpose: "DTO ↔ entity mapping used by generated @Mapper interfaces",
    }
}

pub open spec fn spec_validation() -> DependencyCoord {
    DependencyCoord {
        group_id: "org.springframework.boot",
        artifact_id: "spring-boot-starter-validation",
        version: None,
        purpose: "Bean Validation (@NotBlank, @Valid) used by generated DTOs and controllers",
    }
}

pub open spec fn spec_data_jpa() -> DependencyCoord {
    DependencyCoord {
        group_id: "org.springframework.boot",
        artifact_id: "spring-boot-starter-data-jpa",
        version: None,
        purpose: "JPA / Hibernate runtime required by JpaRepository<Entity, Long>",
    }
}

pub open spec fn spec_data_mongo() -> DependencyCoord {
    DependencyCoord {
        group_id: "org.springframework.boot",
        artifact_id: "spring-boot-starter-data-mongodb",
        version: None,
        purpose: "Spring Data MongoDB runtime required by MongoRepository<Entity, String>",
    }
}

fn mapstruct() -> (r: DependencyCoord)
    ensures
        r == spec_mapstruct(),
{
    DependencyCoord {
        group_id: "org.mapstruct",
        artifact_id: "mapstruct",
        version: Some("1.5.5.Final"),
        purpose: "DTO ↔ entity mapping used by generated @Mapper interfaces",
    }
}

fn validation() -> (r: DependencyCoord)
    ensures
        r == spec_validation(),
{
    DependencyCoord {
        group_id: "org.springframework.boot",
        artifact_id: "spring-boot-starter-validation",
        version: None,
        purpose: "Bean Validation (@NotBlank, @Valid) used by generated DTOs and controllers",
    }
}

fn data_jpa() -> (r: DependencyCoord)
    ensures
        r == spec_data_jpa(),
{
    DependencyCoord {
        group_id: "org.springframework.boot",
        artifact_id: "spring-boot-starter-data-jpa",
        version: None,
        purpose: "JPA / Hibernate runtime required by JpaRepository<Entity, Long>",
    }
}

fn data_mongo() -> (r: DependencyCoord)
    ensures
        r == spec_data_mongo(),
{
    DependencyCoord {
        group_id: "org.springframework.boot",
        artifact_id: "spring-boot-starter-data-mongodb",
        version: None,
        purpose: "Spring Data MongoDB runtime required by MongoRepository<Entity, String>",
    }
}

/// Which group of dependencies a kind of generated code needs.
#[derive(Debug, Clone, Copy, PartialEq, Eq, Structural)]
pub enum DepKind {
    Common,
    Jpa,
    Mongo,
}

/// The dependencies of one group: MapStruct and Bean Validation for every
/// resource, the JPA or MongoDB starter for its persistence.
pub open spec fn spec_dependencies_of(kind: DepKind) -> Seq<DependencyCoord> {
    match kind {
        DepKind::Common => seq![spec_mapstruct(), spec_validation()],
        DepKind::Jpa => seq![spec_data_jpa()],
        DepKind::Mongo => seq![spec_data_mongo()],
    }
}

/// The dependencies of each group in turn.
pub open spec fn spec_dependencies_for_kinds(kinds: Seq<DepKind>) -> Seq<DependencyCoord>
    decreases kinds.len(),
{
    if kinds.len() == 0 {
        Seq::empty()
    } else {
        spec_dependencies_for_kinds(kinds.drop_last()) + spec_dependencies_of(kinds.last())
    }
}

pub fn dependencies_for_kinds(kinds: &[DepKind]) -> (r: Vec<DependencyCoord>)
    ensures
        r@ == spec_dependencies_for_kinds(kinds@),
{
    let mut deps: Vec<DependencyCoord> = Vec::new();
    let mut i: usize = 0;
    while i < kinds.len()
        invariant
            i <= kinds@.len(),
            deps@ == spec_dependencies_for_kinds(kinds@.subrange(0, i as int)),
        decreases kinds@.len() - i,
    {
        let ghost before = deps@;
        match kinds[i] {
            DepKind::Common => {
                deps.push(mapstruct());
                deps.push(validation());
            },
            DepKind::Jpa => deps.push(data_jpa()),
            DepKind::Mongo => deps.push(data_mongo()),
        }
        assert(kinds@.subrange(0, i + 1).drop_last() =~= kinds@.subrange(0, i as int));
        assert(deps@ =~= before + spec_dependencies_of(kinds@[i as int]));
        i = i + 1;
    }
    assert(kinds@.subrange(0, kinds@.len() as int) =~= kinds@);
    deps
}

/// The dependency groups of a resource: the common ones, then those of its
/// persistence.
pub open spec fn spec_required_kinds(is_jpa: bool) -> Seq<DepKind> {
    if is_jpa {
        seq![DepKind::Common, DepKind::Jpa]
    } else {
        seq![DepKind::Common, DepKind::Mongo]
    }
}

/// The dependencies the code generated for this context needs.
pub fn required_dependencies_for(ctx: &GenerationContext) -> (r: Vec<DependencyCoord>)
    ensures
        r@ == spec_dependencies_for_kinds(spec_required_kinds(ctx.is_jpa)),
{
    if ctx.is_jpa {
        let kinds: [DepKind; 2] = [DepKind::Common, DepKind::Jpa];
        assert(kinds@ =~= spec_required_kinds(true));
        dependencies_for_kinds(kinds.as_slice())
    } else {
        let kinds: [DepKind; 2] = [DepKind::Common, DepKind::Mongo];
        assert(kinds@ =~= spec_required_kinds(false));
        dependencies_for_kinds(kinds.as_slice())
    }
}

/// The dependencies of the given groups, in order.
pub fn required_dependencies_for_kinds(kinds: &[DepKind]) -> (r: Vec<DependencyCoord>)
    ensures
        r@ == spec_dependencies_for_kinds(kinds@),
{
    dependencies_for_kinds(kinds)
}

/// Law: a resource needs MapStruct, Bean Validation and the starter of its
/// persistence, in that order, and nothing else.
pub proof fn law_required_dependencies(is_jpa: bool)
    ensures
        spec_dependencies_for_kinds(spec_required_kinds(is_jpa)) == seq![
            spec_mapstruct(),
            spec_validation(),
            if is_jpa {
                spec_data_jpa()
            } else {
                spec_data_mongo()
            },
        ],
{
    let kinds = spec_required_kinds(is_jpa);
    assert(kinds.drop_last().drop_last() =~= Seq::<DepKind>::empty());
    assert(kinds.drop_last() =~= seq![DepKind::Common]);
    assert(spec_dependencies_for_kinds(kinds.drop_last().drop_last()) =~= Seq::empty());
    assert(spec_dependencies_for_kinds(kinds.drop_last()) =~= seq![
        spec_mapstruct(),
        spec_validation(),
    ]);
    assert(spec_dependencies_for_kinds(kinds) =~= seq![
        spec_mapstruct(),
        spec_validation(),
        if is_jpa {
            spec_data_jpa()
        } else {
            spec_data_mongo()
        },
    ]);
}

/// The artifact id of each of the dependencies Sprout adds is valid.
proof fn lemma_known_artifact_ids_valid()
    ensures
        valid_artifact_id(spec_mapstruct().artifact_id@),
        valid_artifact_id(spec_validation().artifact_id@),
        valid_artifact_id(spec_data_jpa().artifact_id@),
        valid_artifact_id(spec_data_mongo().artifact_id@),
{
    reveal_strlit("mapstruct");
    reveal_strlit("spring-boot-starter-validation");
    reveal_strlit("spring-boot-starter-data-jpa");
    reveal_strlit("spring-boot-starter-data-mongodb");
}

/// Law: every dependency of every group has an artifact id as Maven
/// coordinates have them (not empty, with no `<` and no white space).
pub proof fn law_required_artifact_ids_valid(kinds: Seq<DepKind>)
    ensures
        forall|i: int|
            0 <= i < spec_dependencies_for_kinds(kinds).len() ==> valid_artifact_id(
                #[trigger] spec_dependencies_for_kinds(kinds)[i].artifact_id@,
            ),
    decreases kinds.len(),
{
    if kinds.len() > 0 {
        law_required_artifact_ids_valid(kinds.drop_last());
        lemma_known_artifact_ids_valid();
        let init = spec_dependencies_for_kinds(kinds.drop_last());
        let last = spec_dependencies_of(kinds.last());
        let all = spec_dependencies_for_kinds(kinds);
        assert forall|i: int| 0 <= i < all.len() implies valid_artifact_id(
            #[trigger] all[i].artifact_id@,
        ) by {
            if i < init.len() {
                assert(all[i] == init[i]);
            } else {
                assert(all[i] == last[i - init.len()]);
            }
        }
    }
}

} // verus!
