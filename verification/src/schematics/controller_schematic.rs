use vstd::prelude::*;

use crate::context::architecture::ArtifactKind;
use crate::context::generation_context::GenerationContext;
use crate::schematics::{OutputPlan, artifact_plan, plans_view, spec_artifact_plan};

verus! {

/// `@RestController` with its endpoints.
pub struct ControllerSchematic;

pub open spec fn spec_controller_plans(ctx: GenerationContext) -> Seq<(Seq<char>, Seq<char>, bool)> {
    seq![
        spec_artifact_plan(
            ctx,
            ArtifactKind::Controller,
            "Controller.java"@,
            "controller/controller.java.tera"@,
            false,
        ),
    ]
}

impl ControllerSchematic {
    /// `<Pascal>Controller.java` in the controller folder.
    pub fn plan(&self, ctx: &GenerationContext) -> (r: Vec<OutputPlan>)
        ensures
            plans_view(r@) == spec_controller_plans(*ctx),
    {
        let mut out: Vec<OutputPlan> = Vec::new();
        out.push(
            artifact_plan(
                ctx,
                ArtifactKind::Controller,
                "Controller.java",
                "controller/controller.java.tera",
                false,
            ),
        );
        assert(plans_view(out@) =~= spec_controller_plans(*ctx));
        out
    }
}

} // verus!
