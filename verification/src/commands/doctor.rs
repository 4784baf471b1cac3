//! The verdict of `sprout doctor`: problems are counted as checks run, and the
//! summary follows from the counts. The checks themselves read the disk.
use vstd::prelude::*;

verus! {

/// The outcome of checking one dependency in the build manifest.
#[derive(Debug, Clone, Copy, PartialEq, Eq, Structural)]
pub enum DependencyCheck {
    Present,
    Missing,
    /// The manifest could not be read.
    Unchecked,
}

/// The number of checks that did not find the dependency present.
pub open spec fn count_problems(checks: Seq<DependencyCheck>) -> int
    decreases checks.len(),
{
    if checks.len() == 0 {
        0
    } else {
        count_problems(checks.drop_last()) + if checks.last() == DependencyCheck::Present {
            0int
        } else {
            1int
        }
    }
}

pub proof fn lemma_count_problems_bound(checks: Seq<DependencyCheck>)
    ensures
        0 <= count_problems(checks) <= checks.len(),
    decreases checks.len(),
{
    if checks.len() > 0 {
        lemma_count_problems_bound(checks.drop_last());
    }
}

/// `(critical, warnings)`: a missing project is critical; a project without
/// a build manifest is a warning; with a build tool, so is every dependency
/// that is not present (missing or unchecked).
pub fn tally(project_found: bool, build_tool_found: bool, checks: &Vec<DependencyCheck>) -> (r: (
    u32,
    u32,
))
    requires
        checks@.len() < u32::MAX,
    ensures
        r.0 == if project_found {
            0int
        } else {
            1int
        },
        r.1 == (if project_found && !build_tool_found {
            1int
        } else {
            0int
        }) + (if build_tool_found {
            count_problems(checks@)
        } else {
            0int
        }),
{
    let critical: u32 = if project_found {
        0
    } else {
        1
    };
    let mut warnings: u32 = if project_found && !build_tool_found {
        1
    } else {
        0
    };
    if build_tool_found {
        let mut i: usize = 0;
        while i < checks.len()
            invariant
                i <= checks@.len(),
                checks@.len() < u32::MAX,
                warnings == count_problems(checks@.subrange(0, i as int)),
            decreases checks@.len() - i,
        {
            proof {
                lemma_count_problems_bound(checks@.subrange(0, i as int));
                assert(checks@.subrange(0, i + 1).drop_last() =~= checks@.subrange(0, i as int));
            }
            if checks[i] != DependencyCheck::Present {
                warnings = warnings + 1;
            }
            i = i + 1;
        }
        assert(checks@.subrange(0, checks@.len() as int) =~= checks@);
    }
    (critical, warnings)
}

/// The summary line of the report.
#[derive(Debug, Clone, Copy, PartialEq, Eq, Structural)]
pub enum DoctorVerdict {
    /// Nothing to fix.
    Ready,
    /// Some warnings and no critical issue.
    Warnings(u32),
    /// Critical issues: the command fails.
    Critical(u32),
}

pub fn summary(critical: u32, warnings: u32) -> (r: DoctorVerdict)
    ensures
        r == if critical == 0 && warnings == 0 {
            DoctorVerdict::Ready
        } else if critical == 0 {
            DoctorVerdict::Warnings(warnings)
        } else {
            DoctorVerdict::Critical(critical)
        },
{
    if critical == 0 && warnings == 0 {
        DoctorVerdict::Ready
    } else if critical == 0 {
        DoctorVerdict::Warnings(warnings)
    } else {
        DoctorVerdict::Critical(critical)
    }
}

} // verus!
