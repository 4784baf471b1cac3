//! The questions asked while generating, and the choices that settings in the
//! environment make without asking.
use vstd::prelude::*;

use crate::cli::schematic_kind::SchematicKind;
use crate::context::architecture::Architecture;
use crate::context::dto_style::DtoStyle;
use crate::context::persistence::Persistence;
use crate::text::same_text;

pub mod name_prompt;

verus! {

/// `anyhow::Error`, carried through unchanged from a prompter to the caller.
#[verifier::external_type_specification]
#[verifier::external_body]
pub struct ExAnyhowError(anyhow::Error);

/// Asks the user for what the command line left open. Implementations may
/// fail (a closed terminal, for instance).
pub trait InteractivePrompter {
    fn ask_schematic_kind(&self) -> Result<SchematicKind, anyhow::Error>;

    fn ask_name(&self, kind: SchematicKind) -> Result<String, anyhow::Error>;

    fn ask_architecture(&self) -> Result<Architecture, anyhow::Error>;

    fn ask_dto_style(&self) -> Result<DtoStyle, anyhow::Error>;

    fn ask_persistence(&self) -> Result<Persistence, anyhow::Error>;
}

/// The architecture chosen without asking: from the `SPROUT_ARCHITECTURE`
/// setting when it is set (`layered`, `hexagonal`, anything else modular),
/// else the default in non-interactive mode; `None` when the user must be
/// asked.
pub open spec fn spec_architecture_choice(setting: Option<Seq<char>>, non_interactive: bool) -> Option<
    Architecture,
> {
    match setting {
        Some(s) => if s == "layered"@ {
            Some(Architecture::Layered)
        } else if s == "hexagonal"@ {
            Some(Architecture::Hexagonal)
        } else {
            Some(Architecture::Modular)
        },
        None => if non_interactive {
            Some(Architecture::Modular)
        } else {
            None
        },
    }
}

pub fn architecture_choice(setting: Option<&str>, non_interactive: bool) -> (r: Option<Architecture>)
    ensures
        r == spec_architecture_choice(crate::text::opt_str_view(setting), non_interactive),
{
    match setting {
        Some(s) => if same_text(s, "layered") {
            Some(Architecture::Layered)
        } else if same_text(s, "hexagonal") {
            Some(Architecture::Hexagonal)
        } else {
            Some(Architecture::Modular)
        },
        None => if non_interactive {
            Some(Architecture::default())
        } else {
            None
        },
    }
}

/// The DTO style chosen without asking: from `SPROUT_DTO_STYLE` when set
/// (`class`, anything else records), else the default in non-interactive mode.
pub open spec fn spec_dto_style_choice(setting: Option<Seq<char>>, non_interactive: bool) -> Option<
    DtoStyle,
> {
    match setting {
        Some(s) => if s == "class"@ {
            Some(DtoStyle::Class)
        } else {
            Some(DtoStyle::Record)
        },
        None => if non_interactive {
            Some(DtoStyle::Record)
        } else {
            None
        },
    }
}

pub fn dto_style_choice(setting: Option<&str>, non_interactive: bool) -> (r: Option<DtoStyle>)
    ensures
        r == spec_dto_style_choice(crate::text::opt_str_view(setting), non_interactive),
{
    match setting {
        Some(s) => if same_text(s, "class") {
            Some(DtoStyle::Class)
        } else {
            Some(DtoStyle::Record)
        },
        None => if non_interactive {
            Some(DtoStyle::default())
        } else {
            None
        },
    }
}

/// The persistence chosen without asking: from `SPROUT_PERSISTENCE` when set
/// (`mongo`, anything else JPA), else the default in non-interactive mode.
pub open spec fn spec_persistence_choice(setting: Option<Seq<char>>, non_interactive: bool) -> Option<
    Persistence,
> {
    match setting {
        Some(s) => if s == "mongo"@ {
            Some(Persistence::MongoDb)
        } else {
            Some(Persistence::JpaRelational)
        },
        None => if non_interactive {
            Some(Persistence::JpaRelational)
        } else {
            None
        },
    }
}

pub fn persistence_choice(setting: Option<&str>, non_interactive: bool) -> (r: Option<Persistence>)
    ensures
        r == spec_persistence_choice(crate::text::opt_str_view(setting), non_interactive),
{
    match setting {
        Some(s) => if same_text(s, "mongo") {
            Some(Persistence::MongoDb)
        } else {
            Some(Persistence::JpaRelational)
        },
        None => if non_interactive {
            Some(Persistence::default())
        } else {
            None
        },
    }
}

/// Law: in non-interactive mode nothing is ever asked, and a setting in the
/// environment always decides without asking.
pub proof fn law_non_interactive_never_asks(setting: Option<Seq<char>>, non_interactive: bool)
    ensures
        (non_interactive || setting is Some) ==> {
            &&& spec_architecture_choice(setting, non_interactive) is Some
            &&& spec_dto_style_choice(setting, non_interactive) is Some
            &&& spec_persistence_choice(setting, non_interactive) is Some
        },
        (!non_interactive && setting is None) ==> {
            &&& spec_architecture_choice(setting, non_interactive) is None
            &&& spec_dto_style_choice(setting, non_interactive) is None
            &&& spec_persistence_choice(setting, non_interactive) is None
        },
{
}

} // verus!
