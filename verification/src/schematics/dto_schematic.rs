use vstd::prelude::*;

use crate::context::architecture::ArtifactKind;
use crate::context::generation_context::GenerationContext;
use crate::schematics::{OutputPlan, artifact_plan, plans_view, spec_artifact_plan};

verus! {

/// The request and response DTOs.
pub struct DtoSchematic;

pub open spec fn spec_dto_plans(ctx: GenerationContext) -> Seq<(Seq<char>, Seq<char>, bool)> {
    seq![
        spec_artifact_plan(
            ctx,
            ArtifactKind::Dto,
            "Request.java"@,
            ctx.dto_style.spec_request_template(),
            false,
        ),
        spec_artifact_plan(
            ctx,
            ArtifactKind::Dto,
            "Response.java"@,
            ctx.dto_style.spec_response_template(),
            false,
        ),
    ]
}

impl DtoSchematic {
    /// `<Pascal>Request.java` and `<Pascal>Response.java` in the DTO folder,
    /// from the DTO style's templates.
    pub fn plan(&self, ctx: &GenerationContext) -> (r: Vec<OutputPlan>)
        ensures
            plans_view(r@) == spec_dto_plans(*ctx),
    {
        let mut out: Vec<OutputPlan> = Vec::new();
        out.push(
            artifact_plan(
                ctx,
                ArtifactKind::Dto,
                "Request.java",
                ctx.dto_style.request_template(),
                false,
            ),
        );
        out.push(
            artifact_plan(
                ctx,
                ArtifactKind::Dto,
                "Response.java",
                ctx.dto_style.response_template(),
                false,
            ),
        );
        assert(plans_view(out@) =~= spec_dto_plans(*ctx));
        out
    }
}

} // verus!
