//! Writing generated files: where each goes, and what happens when the file
//! is already there (the policy decides whether it is overwritten). The disk
//! itself is touched by the caller.
use vstd::prelude::*;

use crate::schematics::{spec_write_target, write_target, SchematicOutput};
use crate::text::opt_str_view;

verus! {

/// Decides whether an existing file may be overwritten. The interactive
/// policy asks the user; it may fail (a closed terminal, for instance).
pub trait OverwritePolicy {
    fn allow_overwrite(&self, target_display: &str) -> Result<bool, anyhow::Error>;
}

/// What writing one file did.
#[derive(Debug, Clone, Copy, PartialEq, Eq, Structural)]
pub enum WriteOutcome {
    Created,
    Overwritten,
    Skipped,
}

/// The outcome of a write: a new file is created; an existing one is
/// overwritten when the policy allows it and skipped otherwise.
pub open spec fn spec_write_outcome(exists: bool, overwrite_allowed: bool) -> WriteOutcome {
    if !exists {
        WriteOutcome::Created
    } else if overwrite_allowed {
        WriteOutcome::Overwritten
    } else {
        WriteOutcome::Skipped
    }
}

pub fn write_outcome(exists: bool, overwrite_allowed: bool) -> (r: WriteOutcome)
    ensures
        r == spec_write_outcome(exists, overwrite_allowed),
{
    if !exists {
        WriteOutcome::Created
    } else if overwrite_allowed {
        WriteOutcome::Overwritten
    } else {
        WriteOutcome::Skipped
    }
}

impl WriteOutcome {
    /// Whether the contents go to disk (everything but a skip).
    pub open spec fn spec_persists(self) -> bool {
        self != WriteOutcome::Skipped
    }

    pub fn persists(&self) -> (r: bool)
        ensures
            r == self.spec_persists(),
    {
        match self {
            WriteOutcome::Skipped => false,
            _ => true,
        }
    }
}

/// Writes outputs below the base path (tests below the test base path, when
/// one is set), asking the policy before replacing a file.
pub struct DiskFileWriter<P> {
    pub base_path: String,
    pub test_base_path: Option<String>,
    pub policy: P,
}

impl<P: OverwritePolicy> DiskFileWriter<P> {
    /// A writer with no test base path and the given policy.
    pub fn with_policy(base_path: String, policy: P) -> (r: Self)
        ensures
            r.base_path@ == base_path@,
            r.test_base_path is None,
            r.policy == policy,
    {
        DiskFileWriter { base_path, test_base_path: None, policy }
    }

    /// The full path an output is written to.
    pub open spec fn spec_target(&self, output: SchematicOutput) -> Seq<char> {
        spec_write_target(
            self.base_path@,
            match self.test_base_path {
                Some(t) => Some(t@),
                None => None,
            },
            output.relative_path@,
            output.is_test,
        )
    }

    pub fn target(&self, output: &SchematicOutput) -> (r: String)
        ensures
            r@ == self.spec_target(*output),
    {
        let test_base: Option<&str> = match &self.test_base_path {
            Some(t) => Some(t.as_str()),
            None => None,
        };
        proof {
            assert(opt_str_view(test_base) == match self.test_base_path {
                Some(t) => Some(t@),
                None => None::<Seq<char>>,
            });
        }
        write_target(self.base_path.as_str(), test_base, output)
    }

    /// Decides the write of an output whose target does (`exists`) or does not
    /// exist yet: the target and the outcome. The policy is asked only about
    /// an existing file, and its error is passed on.
    pub fn decide(&self, output: &SchematicOutput, exists: bool) -> (r: Result<
        (String, WriteOutcome),
        anyhow::Error,
    >)
        ensures
            !exists ==> (r matches Ok((t, o)) && t@ == self.spec_target(*output) && o
                == WriteOutcome::Created),
            exists ==> match r {
                Ok((t, o)) => t@ == self.spec_target(*output) && (o == WriteOutcome::Overwritten
                    || o == WriteOutcome::Skipped),
                Err(_) => true,
            },
    {
        let target = self.target(output);
        if !exists {
            return Ok((target, write_outcome(false, false)));
        }
        match self.policy.allow_overwrite(target.as_str()) {
            Ok(allowed) => Ok((target, write_outcome(true, allowed))),
            Err(e) => Err(e),
        }
    }
}

} // verus!
