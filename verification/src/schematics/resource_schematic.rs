use vstd::prelude::*;

use crate::context::architecture::ArtifactKind;
use crate::context::generation_context::{GenerationContext, package_map_is};
use crate::schematics::spec_artifact_path;
use crate::text::replace_char;
use crate::schematics::controller_schematic::{ControllerSchematic, spec_controller_plans};
use crate::schematics::controller_test_schematic::{
    ControllerTestSchematic, spec_controller_test_plans,
};
use crate::schematics::dto_schematic::{DtoSchematic, spec_dto_plans};
use crate::schematics::entity_schematic::{EntitySchematic, spec_entity_plans};
use crate::schematics::mapper_schematic::{MapperSchematic, spec_mapper_plans};
use crate::schematics::repository_schematic::{RepositorySchematic, spec_repository_plans};
use crate::schematics::service_schematic::{ServiceSchematic, spec_service_plans};
use crate::schematics::service_test_schematic::{ServiceTestSchematic, spec_service_test_plans};
use crate::schematics::{OutputPlan, plans_view};

verus! {

/// The full CRUD slice: entity, repository, DTOs, mapper, service and
/// controller, then the service and controller tests unless tests are skipped.
pub struct ResourceSchematic;

pub open spec fn spec_resource_plans(ctx: GenerationContext) -> Seq<(Seq<char>, Seq<char>, bool)> {
    let main = spec_entity_plans(ctx) + spec_repository_plans(ctx) + spec_dto_plans(ctx)
        + spec_mapper_plans(ctx) + spec_service_plans(ctx) + spec_controller_plans(ctx);
    if ctx.skip_test {
        main
    } else {
        main + spec_service_test_plans(ctx) + spec_controller_test_plans(ctx)
    }
}

fn append_plans(out: &mut Vec<OutputPlan>, mut more: Vec<OutputPlan>)
    ensures
        plans_view(final(out)@) == plans_view(old(out)@) + plans_view(more@),
{
    let ghost before = out@;
    let ghost added = more@;
    out.append(&mut more);
    assert(plans_view(out@) =~= plans_view(before) + plans_view(added));
}

impl ResourceSchematic {
    /// The outputs of each part, in order.
    pub fn plan(&self, ctx: &GenerationContext) -> (r: Vec<OutputPlan>)
        ensures
            plans_view(r@) == spec_resource_plans(*ctx),
    {
        let mut out: Vec<OutputPlan> = Vec::new();
        append_plans(&mut out, EntitySchematic.plan(ctx));
        append_plans(&mut out, RepositorySchematic.plan(ctx));
        append_plans(&mut out, DtoSchematic.plan(ctx));
        append_plans(&mut out, MapperSchematic.plan(ctx));
        append_plans(&mut out, ServiceSchematic.plan(ctx));
        append_plans(&mut out, ControllerSchematic.plan(ctx));
        if !ctx.skip_test {
            append_plans(&mut out, ServiceTestSchematic.plan(ctx));
            append_plans(&mut out, ControllerTestSchematic.plan(ctx));
        }
        assert(plans_view(Seq::<OutputPlan>::empty()) =~= Seq::empty());
        out
    }
}

/// Law: a resource writes eight main files, then two tests unless tests are
/// skipped; a file is a test exactly when it is one of those two.
pub proof fn law_resource_tests(ctx: GenerationContext)
    ensures
        spec_resource_plans(ctx).len() == if ctx.skip_test {
            8int
        } else {
            10int
        },
        forall|i: int|
            0 <= i < spec_resource_plans(ctx).len() ==> (#[trigger] spec_resource_plans(ctx)[i].2
                <==> (!ctx.skip_test && i >= 8)),
{
    let main = spec_entity_plans(ctx) + spec_repository_plans(ctx) + spec_dto_plans(ctx)
        + spec_mapper_plans(ctx) + spec_service_plans(ctx) + spec_controller_plans(ctx);
    assert forall|i: int| 0 <= i < main.len() implies !main[i].2 by {
        let a = spec_entity_plans(ctx);
        let b = spec_repository_plans(ctx);
        let c = spec_dto_plans(ctx);
        let d = spec_mapper_plans(ctx);
        let e = spec_service_plans(ctx);
        let f = spec_controller_plans(ctx);
        assert(main =~= a + b + c + d + e + f);
    }
    if !ctx.skip_test {
        let all = main + spec_service_test_plans(ctx) + spec_controller_test_plans(ctx);
        assert forall|i: int| 0 <= i < all.len() implies (all[i].2 <==> i >= 8) by {
            if i < 8 {
                assert(all[i] == main[i]);
            }
        }
    }
}

/// The package declared for the artifacts of a kind.
pub open spec fn package_for(ctx: GenerationContext, artifact: ArtifactKind) -> Seq<char> {
    match artifact {
        ArtifactKind::Entity => ctx.packages.entity@,
        ArtifactKind::Repository => ctx.packages.repository@,
        ArtifactKind::Dto => ctx.packages.dto@,
        ArtifactKind::Mapper => ctx.packages.mapper@,
        ArtifactKind::Service | ArtifactKind::ServiceTest => ctx.packages.service@,
        ArtifactKind::Controller | ArtifactKind::ControllerTest => ctx.packages.controller@,
    }
}

/// The package that a folder (relative to the base package's directory)
/// stands for.
pub open spec fn package_of_folder(base_package: Seq<char>, folder: Seq<char>) -> Seq<char> {
    let suffix = replace_char(folder, '/', seq!['.']);
    if suffix.len() == 0 {
        base_package
    } else {
        base_package + seq!['.'] + suffix
    }
}

/// The artifact kind of each file of a resource, in order.
pub open spec fn resource_artifacts() -> Seq<ArtifactKind> {
    seq![
        ArtifactKind::Entity,
        ArtifactKind::Repository,
        ArtifactKind::Dto,
        ArtifactKind::Dto,
        ArtifactKind::Mapper,
        ArtifactKind::Service,
        ArtifactKind::Service,
        ArtifactKind::Controller,
        ArtifactKind::ServiceTest,
        ArtifactKind::ControllerTest,
    ]
}

/// The file-name suffix (after the Pascal name) of each file of a resource.
pub open spec fn resource_suffixes() -> Seq<Seq<char>> {
    seq![
        ".java"@,
        "Repository.java"@,
        "Request.java"@,
        "Response.java"@,
        "Mapper.java"@,
        "Service.java"@,
        "ServiceImpl.java"@,
        "Controller.java"@,
        "ServiceTest.java"@,
        "ControllerTest.java"@,
    ]
}

/// Law: where a file goes on disk and what its package line says agree: every
/// file of a resource lies in the folder of its artifact kind, that folder
/// stands for exactly the package the context declares for the kind, and a
/// test lies in the same folder (below the test root) as the code it tests.
pub proof fn law_package_matches_folder(ctx: GenerationContext)
    requires
        package_map_is(
            ctx.packages,
            ctx.base_package@,
            ctx.architecture,
            ctx.name.kebab@,
            ctx.conventions,
        ),
    ensures
        forall|i: int|
            0 <= i < spec_resource_plans(ctx).len() ==> {
                let artifact = resource_artifacts()[i];
                let folder = ctx.architecture.spec_path_for(
                    ctx.name.kebab@,
                    artifact,
                    ctx.conventions,
                );
                &&& #[trigger] spec_resource_plans(ctx)[i].0 == spec_artifact_path(
                    folder,
                    ctx.name.pascal@ + resource_suffixes()[i],
                )
                &&& package_for(ctx, artifact) == package_of_folder(ctx.base_package@, folder)
            },
        ctx.architecture.spec_path_for(ctx.name.kebab@, ArtifactKind::ServiceTest, ctx.conventions)
            == ctx.architecture.spec_path_for(
            ctx.name.kebab@,
            ArtifactKind::Service,
            ctx.conventions,
        ),
        ctx.architecture.spec_path_for(
            ctx.name.kebab@,
            ArtifactKind::ControllerTest,
            ctx.conventions,
        ) == ctx.architecture.spec_path_for(
            ctx.name.kebab@,
            ArtifactKind::Controller,
            ctx.conventions,
        ),
{
    let main = spec_entity_plans(ctx) + spec_repository_plans(ctx) + spec_dto_plans(ctx)
        + spec_mapper_plans(ctx) + spec_service_plans(ctx) + spec_controller_plans(ctx);
    let tests = spec_service_test_plans(ctx) + spec_controller_test_plans(ctx);
    let all = main + tests;
    assert(main =~= seq![
        spec_entity_plans(ctx)[0],
        spec_repository_plans(ctx)[0],
        spec_dto_plans(ctx)[0],
        spec_dto_plans(ctx)[1],
        spec_mapper_plans(ctx)[0],
        spec_service_plans(ctx)[0],
        spec_service_plans(ctx)[1],
        spec_controller_plans(ctx)[0],
    ]);
    assert(all =~= main + seq![spec_service_test_plans(ctx)[0], spec_controller_test_plans(ctx)[0]]);
}

} // verus!
