use vstd::prelude::*;

use crate::cli::schematic_kind::SchematicKind;

verus! {

/// A parsed `sprout` command line.
pub struct SproutCli {
    /// `--skip-test`: generate no unit or integration tests.
    pub skip_test: bool,
    pub command: Command,
}

/// The subcommands.
pub enum Command {
    /// `generate` (`g`): generate artifacts, asking for what is left open.
    Generate(GenerateArgs),
    /// `list` (`ls`): the schematics and the detected project.
    List,
    /// `doctor`: check the project for what generation needs.
    Doctor,
}

/// The arguments of `generate`.
pub struct GenerateArgs {
    pub kind: Option<SchematicKind>,
    pub name: Option<String>,
}

} // verus!
