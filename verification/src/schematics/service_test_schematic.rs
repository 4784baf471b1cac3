use vstd::prelude::*;

use crate::context::architecture::ArtifactKind;
use crate::context::generation_context::GenerationContext;
use crate::schematics::{OutputPlan, artifact_plan, plans_view, spec_artifact_plan};

verus! {

/// The test of the service implementation.
pub struct ServiceTestSchematic;

pub open spec fn spec_service_test_plans(ctx: GenerationContext) -> Seq<
    (Seq<char>, Seq<char>, bool),
> {
    seq![
        spec_artifact_plan(
            ctx,
            ArtifactKind::ServiceTest,
            "ServiceTest.java"@,
            "test/service_test.java.tera"@,
            true,
        ),
    ]
}

impl ServiceTestSchematic {
    /// `<Pascal>ServiceTest.java` in the service folder, below the test base
    /// path.
    pub fn plan(&self, ctx: &GenerationContext) -> (r: Vec<OutputPlan>)
        ensures
            plans_view(r@) == spec_service_test_plans(*ctx),
    {
        let mut out: Vec<OutputPlan> = Vec::new();
        out.push(
            artifact_plan(
                ctx,
                ArtifactKind::ServiceTest,
                "ServiceTest.java",
                "test/service_test.java.tera",
                true,
            ),
        );
        assert(plans_view(out@) =~= spec_service_test_plans(*ctx));
        out
    }
}

} // verus!
