//! Sprout: scaffolding of Spring Boot code (entities, repositories, DTOs,
//! mappers, services, controllers and their tests) into an existing project.
//! This crate holds the decisions: what the project is, where each file goes
//! and with which package, which template renders it, and which build
//! dependencies are missing and how to add them.
pub mod cli;
pub mod commands;
pub mod context;
pub mod naming;
pub mod prompts;
pub mod schematics;
pub mod text;
pub mod update_check;
pub mod workspace;

use vstd::prelude::*;

use crate::cli::schematic_kind::SchematicKind;
use crate::prompts::InteractivePrompter;

verus! {

/// The schematic to generate: the one on the command line, else the one the
/// user picks.
pub fn resolve_kind<P: InteractivePrompter>(from_args: Option<SchematicKind>, prompter: &P) -> (r:
    Result<SchematicKind, anyhow::Error>)
    ensures
        from_args matches Some(k) ==> r matches Ok(k2) && k2 == k,
{
    match from_args {
        Some(k) => Ok(k),
        None => prompter.ask_schematic_kind(),
    }
}

/// The resource name: the one on the command line, else the one the user
/// types.
pub fn resolve_name<P: InteractivePrompter>(
    from_args: Option<String>,
    kind: SchematicKind,
    prompter: &P,
) -> (r: Result<String, anyhow::Error>)
    ensures
        from_args matches Some(n) ==> r matches Ok(n2) && n2@ == n@,
{
    match from_args {
        Some(n) => Ok(n),
        None => prompter.ask_name(kind),
    }
}

} // verus!
