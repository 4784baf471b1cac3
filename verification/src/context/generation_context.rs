//! Everything a template needs to render one resource.
use vstd::prelude::*;

use crate::cli::schematic_kind::SchematicKind;
use crate::context::architecture::{Architecture, ArtifactKind};
use crate::context::dto_style::DtoStyle;
use crate::context::persistence::Persistence;
use crate::naming::identifier::{
    NameSet, heck_kebab_case, heck_lower_camel_case, heck_pascal_case, heck_snake_case, plural_of,
};
use crate::prompts::InteractivePrompter;
use crate::workspace::folder_conventions::{FolderConventions, spec_scan_for_artifact};
use crate::workspace::project_detector::ProjectContext;

verus! {

/// The fully qualified package of each artifact.
#[derive(Debug)]
pub struct PackageMap {
    pub entity: String,
    pub dto: String,
    pub mapper: String,
    pub service: String,
    pub controller: String,
    pub repository: String,
}

/// The package of an artifact: the base package, followed by `.` and the
/// artifact's package segment when that segment is not empty.
pub open spec fn spec_qualify(
    base_package: Seq<char>,
    arch: Architecture,
    feature: Seq<char>,
    artifact: ArtifactKind,
    conventions: FolderConventions,
) -> Seq<char> {
    let suffix = arch.spec_package_segment_for(feature, artifact, conventions);
    if suffix.len() == 0 {
        base_package
    } else {
        base_package + seq!['.'] + suffix
    }
}

pub open spec fn package_map_is(
    packages: PackageMap,
    base_package: Seq<char>,
    arch: Architecture,
    feature: Seq<char>,
    conventions: FolderConventions,
) -> bool {
    &&& packages.entity@ == spec_qualify(base_package, arch, feature, ArtifactKind::Entity, conventions)
    &&& packages.dto@ == spec_qualify(base_package, arch, feature, ArtifactKind::Dto, conventions)
    &&& packages.mapper@ == spec_qualify(base_package, arch, feature, ArtifactKind::Mapper, conventions)
    &&& packages.service@ == spec_qualify(base_package, arch, feature, ArtifactKind::Service, conventions)
    &&& packages.controller@ == spec_qualify(
        base_package,
        arch,
        feature,
        ArtifactKind::Controller,
        conventions,
    )
    &&& packages.repository@ == spec_qualify(
        base_package,
        arch,
        feature,
        ArtifactKind::Repository,
        conventions,
    )
}

fn qualify(
    base_package: &str,
    arch: &Architecture,
    feature: &str,
    artifact: ArtifactKind,
    conventions: &FolderConventions,
) -> (r: String)
    ensures
        r@ == spec_qualify(base_package@, *arch, feature@, artifact, *conventions),
{
    let suffix = arch.package_segment_for(feature, artifact, conventions);
    if suffix.unicode_len() == 0 {
        String::from_str(base_package)
    } else {
        let dot = ".";
        proof {
            reveal_strlit(".");
            assert(dot@ =~= seq!['.']);
        }
        let mut out = String::from_str(base_package);
        out.append(dot);
        out.append(suffix.as_str());
        out
    }
}

/// The package of every artifact of a feature.
pub fn build_package_map(
    base_package: &str,
    arch: &Architecture,
    feature: &str,
    conventions: &FolderConventions,
) -> (r: PackageMap)
    ensures
        package_map_is(r, base_package@, *arch, feature@, *conventions),
{
    PackageMap {
        entity: qualify(base_package, arch, feature, ArtifactKind::Entity, conventions),
        dto: qualify(base_package, arch, feature, ArtifactKind::Dto, conventions),
        mapper: qualify(base_package, arch, feature, ArtifactKind::Mapper, conventions),
        service: qualify(base_package, arch, feature, ArtifactKind::Service, conventions),
        controller: qualify(base_package, arch, feature, ArtifactKind::Controller, conventions),
        repository: qualify(base_package, arch, feature, ArtifactKind::Repository, conventions),
    }
}

/// The data a template renders.
#[derive(Debug)]
pub struct GenerationContext {
    pub name: NameSet,
    pub base_package: String,
    pub architecture: Architecture,
    pub dto_style: DtoStyle,
    pub persistence: Persistence,
    pub is_jpa: bool,
    pub id_type: String,
    pub repository_base_class: String,
    pub packages: PackageMap,
    pub conventions: FolderConventions,
    pub skip_test: bool,
}

/// The context of a raw name in a project, given the chosen architecture, DTO
/// style and persistence, the directories that exist and whether tests are
/// skipped.
pub open spec fn context_is(
    r: GenerationContext,
    raw_name: Seq<char>,
    project: ProjectContext,
    architecture: Architecture,
    dto_style: DtoStyle,
    persistence: Persistence,
    existing_dirs: Seq<String>,
    skip_test: bool,
) -> bool {
    &&& r.name.pascal@ == heck_pascal_case(raw_name)
    &&& r.name.camel@ == heck_lower_camel_case(r.name.pascal@)
    &&& r.name.kebab@ == heck_kebab_case(r.name.pascal@)
    &&& r.name.snake@ == heck_snake_case(r.name.pascal@)
    &&& r.name.plural_kebab@ == plural_of(r.name.kebab@)
    &&& r.name.plural_snake@ == plural_of(r.name.snake@)
    &&& r.name.plural_camel@ == plural_of(r.name.camel@)
    &&& r.base_package@ == project.spec_base_package()
    &&& r.architecture == architecture
    &&& r.dto_style == dto_style
    &&& r.persistence == persistence
    &&& r.is_jpa == persistence.spec_is_jpa()
    &&& r.id_type@ == persistence.spec_id_type()
    &&& r.repository_base_class@ == persistence.spec_repository_base_class()
    &&& forall|kind: ArtifactKind|
        #[trigger] r.conventions.spec_folder_for(kind) == spec_scan_for_artifact(
            project.spec_base_path(),
            r.name.kebab@,
            architecture,
            kind,
            existing_dirs,
        )
    &&& package_map_is(
        r.packages,
        project.spec_base_package(),
        architecture,
        r.name.kebab@,
        r.conventions,
    )
    &&& r.skip_test == skip_test
}

/// A question asked while collecting a generation context.
#[derive(Debug, Clone, Copy, PartialEq, Eq, Structural)]
pub enum Question {
    Architecture,
    DtoStyle,
    Persistence,
}

/// The questions for a schematic, in the order they are asked: the
/// architecture always and first, then the DTO style when the schematic has
/// DTOs, then the persistence when it has persistence code; each at most once.
pub open spec fn spec_questions(kind: SchematicKind) -> Seq<Question> {
    seq![Question::Architecture] + (if kind.spec_needs_dto_style() {
        seq![Question::DtoStyle]
    } else {
        Seq::empty()
    }) + (if kind.spec_needs_persistence() {
        seq![Question::Persistence]
    } else {
        Seq::empty()
    })
}

/// Law: the architecture is asked first, always; the DTO style is asked
/// exactly when the schematic has DTOs and the persistence exactly when it has
/// persistence code; no question is asked twice, and the DTO style comes
/// before the persistence.
pub proof fn law_questions(kind: SchematicKind)
    ensures
        spec_questions(kind)[0] == Question::Architecture,
        spec_questions(kind).contains(Question::DtoStyle) <==> kind.spec_needs_dto_style(),
        spec_questions(kind).contains(Question::Persistence) <==> kind.spec_needs_persistence(),
        forall|i: int, j: int|
            0 <= i < j < spec_questions(kind).len() ==> spec_questions(kind)[i] != spec_questions(
                kind,
            )[j],
        forall|i: int, j: int|
            0 <= i < j < spec_questions(kind).len() && spec_questions(kind)[i]
                == Question::Persistence ==> spec_questions(kind)[j] != Question::DtoStyle,
{
    let q = spec_questions(kind);
    if kind.spec_needs_dto_style() {
        if kind.spec_needs_persistence() {
            assert(q =~= seq![Question::Architecture, Question::DtoStyle, Question::Persistence]);
            assert(q[1] == Question::DtoStyle);
            assert(q[2] == Question::Persistence);
        } else {
            assert(q =~= seq![Question::Architecture, Question::DtoStyle]);
            assert(q[1] == Question::DtoStyle);
        }
    } else {
        if kind.spec_needs_persistence() {
            assert(q =~= seq![Question::Architecture, Question::Persistence]);
            assert(q[1] == Question::Persistence);
        } else {
            assert(q =~= seq![Question::Architecture]);
        }
    }
}

/// The questions `GenerationContext::build` asks for a schematic, in order.
pub fn questions_for(kind: SchematicKind) -> (r: Vec<Question>)
    ensures
        r@ == spec_questions(kind),
{
    let mut questions: Vec<Question> = Vec::new();
    questions.push(Question::Architecture);
    if kind.needs_dto_style() {
        questions.push(Question::DtoStyle);
    }
    if kind.needs_persistence() {
        questions.push(Question::Persistence);
    }
    assert(questions@ =~= spec_questions(kind));
    questions
}

impl GenerationContext {
    /// The context of a raw name in a project once the architecture, DTO style
    /// and persistence are chosen; `existing_dirs` lists the directories (among
    /// `FolderConventions::probe_paths`) that exist.
    pub fn assemble(
        raw_name: &str,
        project: &ProjectContext,
        architecture: Architecture,
        dto_style: DtoStyle,
        persistence: Persistence,
        existing_dirs: &Vec<String>,
        skip_test: bool,
    ) -> (r: Self)
        ensures
            context_is(
                r,
                raw_name@,
                *project,
                architecture,
                dto_style,
                persistence,
                existing_dirs@,
                skip_test,
            ),
    {
        let name = NameSet::from_raw(raw_name);
        let base_package = String::from_str(project.base_package());
        let conventions = FolderConventions::detect(
            project.base_path(),
            name.kebab.as_str(),
            architecture,
            existing_dirs,
        );
        let packages = build_package_map(
            base_package.as_str(),
            &architecture,
            name.kebab.as_str(),
            &conventions,
        );
        GenerationContext {
            name,
            base_package,
            architecture,
            dto_style,
            persistence,
            is_jpa: persistence.is_jpa(),
            id_type: String::from_str(persistence.id_type()),
            repository_base_class: String::from_str(persistence.repository_base_class()),
            packages,
            conventions,
            skip_test,
        }
    }

    /// The context of a raw name in a project. The questions of
    /// `questions_for(kind)` are asked in turn: the architecture, then the DTO
    /// style only when the schematic has DTOs (the default otherwise), then the
    /// persistence only when it has persistence (the default otherwise). The
    /// first failed question fails the whole, and nothing more is asked.
    pub fn build<P: InteractivePrompter>(
        kind: SchematicKind,
        raw_name: &str,
        project: &ProjectContext,
        prompter: &P,
        skip_test: bool,
        existing_dirs: &Vec<String>,
    ) -> (r: Result<Self, anyhow::Error>)
        ensures
            r matches Ok(ctx) ==> {
                &&& context_is(
                    ctx,
                    raw_name@,
                    *project,
                    ctx.architecture,
                    ctx.dto_style,
                    ctx.persistence,
                    existing_dirs@,
                    skip_test,
                )
                &&& !kind.spec_needs_dto_style() ==> ctx.dto_style == DtoStyle::Record
                &&& !kind.spec_needs_persistence() ==> ctx.persistence
                    == Persistence::JpaRelational
            },
    {
        let questions = questions_for(kind);
        let mut architecture = Architecture::default();
        let mut dto_style = DtoStyle::default();
        let mut persistence = Persistence::default();
        let mut i: usize = 0;
        while i < questions.len()
            invariant
                i <= questions@.len(),
                questions@ == spec_questions(kind),
                !kind.spec_needs_dto_style() ==> dto_style == DtoStyle::Record,
                !kind.spec_needs_persistence() ==> persistence == Persistence::JpaRelational,
            decreases questions@.len() - i,
        {
            let question = questions[i];
            proof {
                if question == Question::DtoStyle {
                    assert(kind.spec_needs_dto_style());
                }
                if question == Question::Persistence {
                    assert(kind.spec_needs_persistence());
                }
            }
            match question {
                Question::Architecture => {
                    architecture = prompter.ask_architecture()?;
                },
                Question::DtoStyle => {
                    dto_style = prompter.ask_dto_style()?;
                },
                Question::Persistence => {
                    persistence = prompter.ask_persistence()?;
                },
            }
            i = i + 1;
        }
        Ok(
            Self::assemble(
                raw_name,
                project,
                architecture,
                dto_style,
                persistence,
                existing_dirs,
                skip_test,
            ),
        )
    }
}

} // verus!
