use vstd::prelude::*;

use crate::cli::schematic_kind::SchematicKind;
use crate::context::generation_context::GenerationContext;
use crate::schematics::controller_schematic::{ControllerSchematic, spec_controller_plans};
use crate::schematics::dto_schematic::{DtoSchematic, spec_dto_plans};
use crate::schematics::entity_schematic::{EntitySchematic, spec_entity_plans};
use crate::schematics::mapper_schematic::{MapperSchematic, spec_mapper_plans};
use crate::schematics::repository_schematic::{RepositorySchematic, spec_repository_plans};
use crate::schematics::resource_schematic::{ResourceSchematic, spec_resource_plans};
use crate::schematics::service_schematic::{ServiceSchematic, spec_service_plans};
use crate::context::architecture::ArtifactKind;
use crate::schematics::{OutputPlan, plans_view, spec_artifact_path, spec_artifact_plan};

verus! {

/// The one place that maps a schematic kind to the schematic that serves it.
pub struct SchematicRegistry;

/// The files the schematic of a kind writes.
pub open spec fn spec_plans_for(kind: SchematicKind, ctx: GenerationContext) -> Seq<
    (Seq<char>, Seq<char>, bool),
> {
    match kind {
        SchematicKind::Resource => spec_resource_plans(ctx),
        SchematicKind::Service => spec_service_plans(ctx),
        SchematicKind::Controller => spec_controller_plans(ctx),
        SchematicKind::Entity => spec_entity_plans(ctx),
        SchematicKind::Dto => spec_dto_plans(ctx),
        SchematicKind::Mapper => spec_mapper_plans(ctx),
        SchematicKind::Repository => spec_repository_plans(ctx),
    }
}

impl SchematicRegistry {
    /// The files the schematic of this kind writes for the context.
    pub fn resolve(kind: SchematicKind, ctx: &GenerationContext) -> (r: Vec<OutputPlan>)
        ensures
            plans_view(r@) == spec_plans_for(kind, *ctx),
    {
        match kind {
            SchematicKind::Resource => ResourceSchematic.plan(ctx),
            SchematicKind::Service => ServiceSchematic.plan(ctx),
            SchematicKind::Controller => ControllerSchematic.plan(ctx),
            SchematicKind::Entity => EntitySchematic.plan(ctx),
            SchematicKind::Dto => DtoSchematic.plan(ctx),
            SchematicKind::Mapper => MapperSchematic.plan(ctx),
            SchematicKind::Repository => RepositorySchematic.plan(ctx),
        }
    }
}

/// The kind of artifact a schematic writes (a resource writes every kind; its
/// entity is named here).
pub open spec fn artifact_of(kind: SchematicKind) -> ArtifactKind {
    match kind {
        SchematicKind::Resource | SchematicKind::Entity => ArtifactKind::Entity,
        SchematicKind::Service => ArtifactKind::Service,
        SchematicKind::Controller => ArtifactKind::Controller,
        SchematicKind::Dto => ArtifactKind::Dto,
        SchematicKind::Mapper => ArtifactKind::Mapper,
        SchematicKind::Repository => ArtifactKind::Repository,
    }
}

/// `path` is a file of the resource (its name starts with the Pascal name) in
/// the folder of an artifact.
pub open spec fn in_artifact_folder(ctx: GenerationContext, artifact: ArtifactKind, path: Seq<char>) -> bool {
    exists|suffix: Seq<char>|
        path == #[trigger] spec_artifact_path(
            ctx.architecture.spec_path_for(ctx.name.kebab@, artifact, ctx.conventions),
            ctx.name.pascal@ + suffix,
        )
}

/// `template` lies in the template directory named after the artifact's
/// folder (`controller/...`, `mapper/...`).
pub open spec fn in_template_dir(artifact: ArtifactKind, template: Seq<char>) -> bool {
    let dir = artifact.spec_folder() + seq!['/'];
    template.len() > dir.len() && template.subrange(0, dir.len() as int) == dir
}

proof fn lemma_template_dir(artifact: ArtifactKind, template: Seq<char>)
    requires
        template.len() > artifact.spec_folder().len() + 1,
        template.subrange(0, artifact.spec_folder().len() + 1int) =~= artifact.spec_folder() + seq!['/'],
    ensures
        in_template_dir(artifact, template),
{
}

proof fn lemma_artifact_plan(
    ctx: GenerationContext,
    artifact: ArtifactKind,
    suffix: Seq<char>,
    template: Seq<char>,
)
    requires
        in_template_dir(artifact, template),
    ensures
        in_artifact_folder(ctx, artifact, spec_artifact_plan(ctx, artifact, suffix, template, false).0),
        in_template_dir(artifact, spec_artifact_plan(ctx, artifact, suffix, template, false).1),
        !spec_artifact_plan(ctx, artifact, suffix, template, false).2,
{
    let _ = spec_artifact_path(
        ctx.architecture.spec_path_for(ctx.name.kebab@, artifact, ctx.conventions),
        ctx.name.pascal@ + suffix,
    );
}

/// Law: every schematic but the resource is served by the schematic of its
/// own artifact: it plans at least one file; every file it plans is a main
/// file named after the resource, in the folder of that artifact, rendered
/// from a template in the directory of that artifact; and it is one of the
/// files the resource schematic plans.
pub proof fn law_kind_served_by_its_schematic(kind: SchematicKind, ctx: GenerationContext)
    requires
        kind != SchematicKind::Resource,
    ensures
        spec_plans_for(kind, ctx).len() > 0,
        forall|i: int|
            0 <= i < spec_plans_for(kind, ctx).len() ==> {
                let p = #[trigger] spec_plans_for(kind, ctx)[i];
                &&& !p.2
                &&& in_artifact_folder(ctx, artifact_of(kind), p.0)
                &&& in_template_dir(artifact_of(kind), p.1)
                &&& spec_resource_plans(ctx).contains(p)
            },
{
    reveal_strlit("entity");
    reveal_strlit("repository");
    reveal_strlit("dto");
    reveal_strlit("mapper");
    reveal_strlit("service");
    reveal_strlit("controller");
    reveal_strlit("entity/jpa.java.tera");
    reveal_strlit("entity/mongo.java.tera");
    reveal_strlit("repository/jpa.java.tera");
    reveal_strlit("repository/mongo.java.tera");
    reveal_strlit("dto/request_record.java.tera");
    reveal_strlit("dto/request_class.java.tera");
    reveal_strlit("dto/response_record.java.tera");
    reveal_strlit("dto/response_class.java.tera");
    reveal_strlit("mapper/mapstruct.java.tera");
    reveal_strlit("service/interface.java.tera");
    reveal_strlit("service/implementation.java.tera");
    reveal_strlit("controller/controller.java.tera");
    let a = artifact_of(kind);
    let plans = spec_plans_for(kind, ctx);
    let res = spec_resource_plans(ctx);
    let offset: int = match kind {
        SchematicKind::Repository => 1,
        SchematicKind::Dto => 2,
        SchematicKind::Mapper => 4,
        SchematicKind::Service => 5,
        SchematicKind::Controller => 7,
        _ => 0,
    };
    match kind {
        SchematicKind::Entity => {
            lemma_template_dir(a, ctx.persistence.spec_entity_template());
            lemma_artifact_plan(ctx, a, ".java"@, ctx.persistence.spec_entity_template());
        },
        SchematicKind::Repository => {
            lemma_template_dir(a, ctx.persistence.spec_repository_template());
            lemma_artifact_plan(ctx, a, "Repository.java"@, ctx.persistence.spec_repository_template());
        },
        SchematicKind::Dto => {
            lemma_template_dir(a, ctx.dto_style.spec_request_template());
            lemma_artifact_plan(ctx, a, "Request.java"@, ctx.dto_style.spec_request_template());
            lemma_template_dir(a, ctx.dto_style.spec_response_template());
            lemma_artifact_plan(ctx, a, "Response.java"@, ctx.dto_style.spec_response_template());
        },
        SchematicKind::Mapper => {
            lemma_template_dir(a, "mapper/mapstruct.java.tera"@);
            lemma_artifact_plan(ctx, a, "Mapper.java"@, "mapper/mapstruct.java.tera"@);
        },
        SchematicKind::Service => {
            lemma_template_dir(a, "service/interface.java.tera"@);
            lemma_artifact_plan(ctx, a, "Service.java"@, "service/interface.java.tera"@);
            lemma_template_dir(a, "service/implementation.java.tera"@);
            lemma_artifact_plan(ctx, a, "ServiceImpl.java"@, "service/implementation.java.tera"@);
        },
        SchematicKind::Controller => {
            lemma_template_dir(a, "controller/controller.java.tera"@);
            lemma_artifact_plan(ctx, a, "Controller.java"@, "controller/controller.java.tera"@);
        },
        SchematicKind::Resource => {},
    }
    assert forall|i: int| 0 <= i < plans.len() implies res.contains(#[trigger] plans[i]) by {
        assert(res[offset + i] == plans[i]);
    }
}

} // verus!
