//! What each schematic writes: the files (relative to the base path, or to the
//! test base path for tests) and the template that renders each. Rendering
//! and writing are done by the caller.
use vstd::prelude::*;

use crate::context::architecture::ArtifactKind;
use crate::context::generation_context::GenerationContext;
use crate::text::{join_path, path_join};

pub mod controller_schematic;
pub mod controller_test_schematic;
pub mod dto_schematic;
pub mod entity_schematic;
pub mod mapper_schematic;
pub mod registry;
pub mod repository_schematic;
pub mod resource_schematic;
pub mod service_schematic;
pub mod service_test_schematic;

verus! {

/// A file to write: where (relative to the base path, or to the test base
/// path when it is a test) and what.
pub struct SchematicOutput {
    pub relative_path: String,
    pub contents: String,
    pub is_test: bool,
}

/// A file a schematic writes, before rendering: where, and with which
/// template.
#[derive(Debug)]
pub struct OutputPlan {
    pub relative_path: String,
    pub template: &'static str,
    pub is_test: bool,
}

/// A planned file as plain values: (relative path, template, is a test).
pub open spec fn plan_view(p: OutputPlan) -> (Seq<char>, Seq<char>, bool) {
    (p.relative_path@, p.template@, p.is_test)
}

pub open spec fn plans_view(v: Seq<OutputPlan>) -> Seq<(Seq<char>, Seq<char>, bool)> {
    v.map_values(|p: OutputPlan| plan_view(p))
}

/// The relative path of a file in the folder of an artifact.
pub open spec fn spec_artifact_path(sub_path: Seq<char>, file_name: Seq<char>) -> Seq<char> {
    path_join(sub_path, file_name)
}

pub fn artifact_path(sub_path: &str, file_name: &str) -> (r: String)
    ensures
        r@ == spec_artifact_path(sub_path@, file_name@),
{
    join_path(sub_path, file_name)
}

/// The planned file `<Pascal><suffix>` in the folder of an artifact.
pub open spec fn spec_artifact_plan(
    ctx: GenerationContext,
    artifact: ArtifactKind,
    suffix: Seq<char>,
    template: Seq<char>,
    is_test: bool,
) -> (Seq<char>, Seq<char>, bool) {
    (
        spec_artifact_path(
            ctx.architecture.spec_path_for(ctx.name.kebab@, artifact, ctx.conventions),
            ctx.name.pascal@ + suffix,
        ),
        template,
        is_test,
    )
}

pub fn artifact_plan(
    ctx: &GenerationContext,
    artifact: ArtifactKind,
    suffix: &str,
    template: &'static str,
    is_test: bool,
) -> (r: OutputPlan)
    ensures
        plan_view(r) == spec_artifact_plan(*ctx, artifact, suffix@, template@, is_test),
{
    let sub_path = ctx.architecture.path_for(ctx.name.kebab.as_str(), artifact, &ctx.conventions);
    let mut file_name = String::from_str(ctx.name.pascal.as_str());
    file_name.append(suffix);
    OutputPlan {
        relative_path: artifact_path(sub_path.as_str(), file_name.as_str()),
        template,
        is_test,
    }
}

/// Where an output is written: below the test base path when it is a test and
/// one is set, below the base path otherwise.
pub open spec fn spec_write_target(
    base_path: Seq<char>,
    test_base_path: Option<Seq<char>>,
    relative_path: Seq<char>,
    is_test: bool,
) -> Seq<char> {
    let base = if is_test && test_base_path is Some {
        test_base_path->0
    } else {
        base_path
    };
    path_join(base, relative_path)
}

pub fn write_target(base_path: &str, test_base_path: Option<&str>, output: &SchematicOutput) -> (r:
    String)
    ensures
        r@ == spec_write_target(
            base_path@,
            crate::text::opt_str_view(test_base_path),
            output.relative_path@,
            output.is_test,
        ),
{
    let base = if output.is_test {
        match test_base_path {
            Some(t) => t,
            None => base_path,
        }
    } else {
        base_path
    };
    join_path(base, output.relative_path.as_str())
}

} // verus!
