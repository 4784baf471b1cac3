use vstd::prelude::*;

use crate::context::architecture::ArtifactKind;
use crate::context::generation_context::GenerationContext;
use crate::schematics::{OutputPlan, artifact_plan, plans_view, spec_artifact_plan};

verus! {

/// The Spring Data repository.
pub struct RepositorySchematic;

pub open spec fn spec_repository_plans(ctx: GenerationContext) -> Seq<
    (Seq<char>, Seq<char>, bool),
> {
    seq![
        spec_artifact_plan(
            ctx,
            ArtifactKind::Repository,
            "Repository.java"@,
            ctx.persistence.spec_repository_template(),
            false,
        ),
    ]
}

impl RepositorySchematic {
    /// `<Pascal>Repository.java` in the repository folder, from the
    /// persistence's repository template.
    pub fn plan(&self, ctx: &GenerationContext) -> (r: Vec<OutputPlan>)
        ensures
            plans_view(r@) == spec_repository_plans(*ctx),
    {
        let mut out: Vec<OutputPlan> = Vec::new();
        out.push(
            artifact_plan(
                ctx,
                ArtifactKind::Repository,
                "Repository.java",
                ctx.persistence.repository_template(),
                false,
            ),
        );
        assert(plans_view(out@) =~= spec_repository_plans(*ctx));
        out
    }
}

} // verus!
