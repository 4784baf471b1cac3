use vstd::prelude::*;

use crate::context::architecture::ArtifactKind;
use crate::context::generation_context::GenerationContext;
use crate::schematics::{OutputPlan, artifact_plan, plans_view, spec_artifact_plan};

verus! {

/// The MapStruct mapper between entity and DTOs.
pub struct MapperSchematic;

pub open spec fn spec_mapper_plans(ctx: GenerationContext) -> Seq<(Seq<char>, Seq<char>, bool)> {
    seq![
        spec_artifact_plan(
            ctx,
            ArtifactKind::Mapper,
            "Mapper.java"@,
            "mapper/mapstruct.java.tera"@,
            false,
        ),
    ]
}

impl MapperSchematic {
    /// `<Pascal>Mapper.java` in the mapper folder.
    pub fn plan(&self, ctx: &GenerationContext) -> (r: Vec<OutputPlan>)
        ensures
            plans_view(r@) == spec_mapper_plans(*ctx),
    {
        let mut out: Vec<OutputPlan> = Vec::new();
        out.push(
            artifact_plan(
                ctx,
                ArtifactKind::Mapper,
                "Mapper.java",
                "mapper/mapstruct.java.tera",
                false,
            ),
        );
        assert(plans_view(out@) =~= spec_mapper_plans(*ctx));
        out
    }
}

} // verus!
