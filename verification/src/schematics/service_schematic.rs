use vstd::prelude::*;

use crate::context::architecture::ArtifactKind;
use crate::context::generation_context::GenerationContext;
use crate::schematics::{OutputPlan, artifact_plan, plans_view, spec_artifact_plan};

verus! {

/// The service interface and its `@Service` implementation.
pub struct ServiceSchematic;

pub open spec fn spec_service_plans(ctx: GenerationContext) -> Seq<(Seq<char>, Seq<char>, bool)> {
    seq![
        spec_artifact_plan(
            ctx,
            ArtifactKind::Service,
            "Service.java"@,
            "service/interface.java.tera"@,
            false,
        ),
        spec_artifact_plan(
            ctx,
            ArtifactKind::Service,
            "ServiceImpl.java"@,
            "service/implementation.java.tera"@,
            false,
        ),
    ]
}

impl ServiceSchematic {
    /// `<Pascal>Service.java` and `<Pascal>ServiceImpl.java` in the service
    /// folder.
    pub fn plan(&self, ctx: &GenerationContext) -> (r: Vec<OutputPlan>)
        ensures
            plans_view(r@) == spec_service_plans(*ctx),
    {
        let mut out: Vec<OutputPlan> = Vec::new();
        out.push(
            artifact_plan(
                ctx,
                ArtifactKind::Service,
                "Service.java",
                "service/interface.java.tera",
                false,
            ),
        );
        out.push(
            artifact_plan(
                ctx,
                ArtifactKind::Service,
                "ServiceImpl.java",
                "service/implementation.java.tera",
                false,
            ),
        );
        assert(plans_view(out@) =~= spec_service_plans(*ctx));
        out
    }
}

} // verus!
