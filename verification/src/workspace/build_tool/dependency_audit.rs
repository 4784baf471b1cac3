//! Which of the dependencies the generated code needs are missing from the
//! build manifest.
use vstd::prelude::*;

use crate::context::generation_context::GenerationContext;
use crate::workspace::build_tool::{
    BuildTool, DependencyCoord, required_dependencies_for, spec_dependencies_for_kinds,
    spec_required_kinds, valid_artifact_id,
};

verus! {

/// The dependencies found missing, in the order they are required.
pub struct AuditReport {
    pub missing: Vec<DependencyCoord>,
}

impl AuditReport {
    /// Nothing is missing.
    pub fn is_clean(&self) -> (r: bool)
        ensures
            r == (self.missing@.len() == 0),
    {
        self.missing.len() == 0
    }
}

pub open spec fn spec_install_prompt(missing: nat) -> Seq<char> {
    if missing == 1 {
        "Would you like Sprout to add the missing dependency now?"@
    } else {
        "Would you like Sprout to add the missing dependencies now?"@
    }
}

/// The question asked before installing the missing dependencies.
pub fn install_prompt(report: &AuditReport) -> (r: &'static str)
    ensures
        r@ == spec_install_prompt(report.missing@.len()),
{
    if report.missing.len() == 1 {
        "Would you like Sprout to add the missing dependency now?"
    } else {
        "Would you like Sprout to add the missing dependencies now?"
    }
}

/// The dependencies, in order, whose artifact the manifest does not declare.
pub open spec fn spec_missing<B: BuildTool>(
    build_tool: &B,
    manifest: Seq<char>,
    deps: Seq<DependencyCoord>,
) -> Seq<DependencyCoord>
    decreases deps.len(),
{
    if deps.len() == 0 {
        Seq::empty()
    } else {
        let rest = spec_missing(build_tool, manifest, deps.drop_last());
        if build_tool.declares(manifest, deps.last().artifact_id@) {
            rest
        } else {
            rest.push(deps.last())
        }
    }
}

/// The report of the dependencies required by the context that the manifest
/// text does not declare.
pub fn audit<B: BuildTool>(build_tool: &B, manifest: &str, ctx: &GenerationContext) -> (r:
    AuditReport)
    ensures
        r.missing@ == spec_missing(
            build_tool,
            manifest@,
            spec_dependencies_for_kinds(spec_required_kinds(ctx.is_jpa)),
        ),
{
    let required = required_dependencies_for(ctx);
    let mut missing: Vec<DependencyCoord> = Vec::new();
    let mut i: usize = 0;
    while i < required.len()
        invariant
            i <= required@.len(),
            missing@ == spec_missing(build_tool, manifest@, required@.subrange(0, i as int)),
        decreases required@.len() - i,
    {
        let dep = required[i];
        assert(required@.subrange(0, i + 1).drop_last() =~= required@.subrange(0, i as int));
        if !build_tool.has_dependency(manifest, dep.artifact_id) {
            missing.push(dep);
        }
        i = i + 1;
    }
    assert(required@.subrange(0, required@.len() as int) =~= required@);
    AuditReport { missing }
}

/// Law: the report is clean exactly when the manifest declares the artifact of
/// every required dependency; and every reported dependency is required and
/// undeclared.
pub proof fn law_audit_clean_iff_all_declared<B: BuildTool>(
    build_tool: &B,
    manifest: Seq<char>,
    deps: Seq<DependencyCoord>,
)
    ensures
        spec_missing(build_tool, manifest, deps).len() == 0 <==> forall|i: int|
            0 <= i < deps.len() ==> build_tool.declares(manifest, #[trigger] deps[i].artifact_id@),
        forall|j: int|
            0 <= j < spec_missing(build_tool, manifest, deps).len() ==> deps.contains(
                #[trigger] spec_missing(build_tool, manifest, deps)[j],
            ) && !build_tool.declares(
                manifest,
                spec_missing(build_tool, manifest, deps)[j].artifact_id@,
            ),
    decreases deps.len(),
{
    if deps.len() > 0 {
        let init = deps.drop_last();
        law_audit_clean_iff_all_declared(build_tool, manifest, init);
        let rest = spec_missing(build_tool, manifest, init);
        let m = spec_missing(build_tool, manifest, deps);
        assert forall|j: int| 0 <= j < m.len() implies deps.contains(#[trigger] m[j])
            && !build_tool.declares(manifest, m[j].artifact_id@) by {
            if j < rest.len() {
                assert(m[j] == rest[j]);
                let k = choose|k: int| 0 <= k < init.len() && init[k] == rest[j];
                assert(deps[k] == init[k]);
            } else {
                assert(m[j] == deps.last());
                assert(deps[deps.len() - 1] == deps.last());
            }
        }
        if forall|i: int|
            0 <= i < deps.len() ==> build_tool.declares(manifest, #[trigger] deps[i].artifact_id@) {
            assert forall|i: int| 0 <= i < init.len() implies build_tool.declares(
                manifest,
                #[trigger] init[i].artifact_id@,
            ) by {
                assert(init[i] == deps[i]);
            }
            assert(build_tool.declares(manifest, deps[deps.len() - 1].artifact_id@));
        }
        if m.len() == 0 {
            assert forall|i: int|
                0 <= i < deps.len() implies build_tool.declares(
                manifest,
                #[trigger] deps[i].artifact_id@,
            ) by {
                if i < init.len() {
                    assert(init[i] == deps[i]);
                }
            }
        }
    }
}

/// Every undeclared dependency is reported.
proof fn lemma_missing_complete<B: BuildTool>(
    build_tool: &B,
    manifest: Seq<char>,
    deps: Seq<DependencyCoord>,
)
    ensures
        forall|i: int|
            0 <= i < deps.len() && !build_tool.declares(manifest, #[trigger] deps[i].artifact_id@)
                ==> spec_missing(build_tool, manifest, deps).contains(deps[i]),
    decreases deps.len(),
{
    if deps.len() > 0 {
        let init = deps.drop_last();
        lemma_missing_complete(build_tool, manifest, init);
        let rest = spec_missing(build_tool, manifest, init);
        let m = spec_missing(build_tool, manifest, deps);
        assert forall|i: int|
            0 <= i < deps.len() && !build_tool.declares(
                manifest,
                #[trigger] deps[i].artifact_id@,
            ) implies m.contains(deps[i]) by {
            if i < init.len() {
                assert(init[i] == deps[i]);
                assert(rest.contains(init[i]));
                let k = choose|k: int| 0 <= k < rest.len() && rest[k] == init[i];
                assert(m[k] == rest[k]);
            } else {
                assert(deps[i] == deps.last());
                assert(m[m.len() - 1] == deps.last());
            }
        }
    }
}

/// The manifest after installing each dependency in turn; `None` when one of
/// them cannot be installed.
pub open spec fn spec_install_all<B: BuildTool>(
    build_tool: &B,
    manifest: Seq<char>,
    deps: Seq<DependencyCoord>,
) -> Option<Seq<char>>
    decreases deps.len(),
{
    if deps.len() == 0 {
        Some(manifest)
    } else {
        match build_tool.installed(manifest, deps[0]) {
            Some(updated) => spec_install_all(build_tool, updated, deps.drop_first()),
            None => None,
        }
    }
}

/// After installing a list of dependencies, the manifest declares each of
/// them and still declares what it declared before.
proof fn lemma_install_all<B: BuildTool>(
    build_tool: &B,
    manifest: Seq<char>,
    deps: Seq<DependencyCoord>,
)
    requires
        forall|i: int| 0 <= i < deps.len() ==> valid_artifact_id(#[trigger] deps[i].artifact_id@),
    ensures
        spec_install_all(build_tool, manifest, deps) matches Some(last) ==> {
            &&& forall|i: int|
                0 <= i < deps.len() ==> build_tool.declares(last, #[trigger] deps[i].artifact_id@)
            &&& forall|id: Seq<char>|
                valid_artifact_id(id) && build_tool.declares(manifest, id)
                    ==> #[trigger] build_tool.declares(last, id)
        },
    decreases deps.len(),
{
    if deps.len() > 0 {
        if let Some(updated) = build_tool.installed(manifest, deps[0]) {
            let rest = deps.drop_first();
            assert forall|i: int| 0 <= i < rest.len() implies valid_artifact_id(
                #[trigger] rest[i].artifact_id@,
            ) by {
                assert(rest[i] == deps[i + 1]);
            }
            lemma_install_all(build_tool, updated, rest);
            if let Some(last) = spec_install_all(build_tool, manifest, deps) {
                build_tool.lemma_installed_declares(manifest, deps[0]);
                assert forall|i: int| 0 <= i < deps.len() implies build_tool.declares(
                    last,
                    #[trigger] deps[i].artifact_id@,
                ) by {
                    if i > 0 {
                        assert(deps[i] == rest[i - 1]);
                    }
                }
                assert forall|id: Seq<char>|
                    valid_artifact_id(id) && build_tool.declares(manifest, id) implies #[trigger]
                    build_tool.declares(last, id) by {
                    build_tool.lemma_installed_keeps(manifest, deps[0], id);
                }
            }
        }
    }
}

/// Law: installing, in turn, every dependency the audit finds missing leaves a
/// manifest whose audit is clean (for artifact ids as Maven coordinates have
/// them: not empty, with no `<` and no white space).
pub proof fn law_installing_missing_cleans_audit<B: BuildTool>(
    build_tool: &B,
    manifest: Seq<char>,
    deps: Seq<DependencyCoord>,
)
    requires
        forall|i: int| 0 <= i < deps.len() ==> valid_artifact_id(#[trigger] deps[i].artifact_id@),
    ensures
        spec_install_all(build_tool, manifest, spec_missing(build_tool, manifest, deps)) matches Some(
            last,
        ) ==> spec_missing(build_tool, last, deps).len() == 0,
{
    let missing = spec_missing(build_tool, manifest, deps);
    law_audit_clean_iff_all_declared(build_tool, manifest, deps);
    lemma_missing_complete(build_tool, manifest, deps);
    assert forall|j: int| 0 <= j < missing.len() implies valid_artifact_id(
        #[trigger] missing[j].artifact_id@,
    ) by {
        assert(deps.contains(missing[j]));
        let k = choose|k: int| 0 <= k < deps.len() && deps[k] == missing[j];
        assert(valid_artifact_id(deps[k].artifact_id@));
    }
    lemma_install_all(build_tool, manifest, missing);
    if let Some(last) = spec_install_all(build_tool, manifest, missing) {
        assert forall|i: int| 0 <= i < deps.len() implies build_tool.declares(
            last,
            #[trigger] deps[i].artifact_id@,
        ) by {
            if build_tool.declares(manifest, deps[i].artifact_id@) {
                assert(valid_artifact_id(deps[i].artifact_id@));
            } else {
                assert(missing.contains(deps[i]));
                let j = choose|j: int| 0 <= j < missing.len() && missing[j] == deps[i];
                assert(build_tool.declares(last, missing[j].artifact_id@));
            }
        }
        law_audit_clean_iff_all_declared(build_tool, last, deps);
    }
}

} // verus!
