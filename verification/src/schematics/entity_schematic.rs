use vstd::prelude::*;

use crate::context::architecture::ArtifactKind;
use crate::context::generation_context::GenerationContext;
use crate::schematics::{OutputPlan, artifact_plan, plans_view, spec_artifact_plan};

verus! {

/// The JPA or MongoDB entity.
pub struct EntitySchematic;

pub open spec fn spec_entity_plans(ctx: GenerationContext) -> Seq<(Seq<char>, Seq<char>, bool)> {
    seq![
        spec_artifact_plan(
            ctx,
            ArtifactKind::Entity,
            ".java"@,
            ctx.persistence.spec_entity_template(),
            false,
        ),
    ]
}

impl EntitySchematic {
    /// `<Pascal>.java` in the entity folder, from the persistence's entity
    /// template.
    pub fn plan(&self, ctx: &GenerationContext) -> (r: Vec<OutputPlan>)
        ensures
            plans_view(r@) == spec_entity_plans(*ctx),
    {
        let mut out: Vec<OutputPlan> = Vec::new();
        out.push(
            artifact_plan(
                ctx,
                ArtifactKind::Entity,
                ".java",
                ctx.persistence.entity_template(),
                false,
            ),
        );
        assert(plans_view(out@) =~= spec_entity_plans(*ctx));
        out
    }
}

} // verus!
