use vstd::prelude::*;

use crate::context::generation_context::{GenerationContext, context_is};
use crate::context::dto_style::DtoStyle;
use crate::context::persistence::Persistence;
use crate::prompts::InteractivePrompter;
use crate::workspace::project_detector::ProjectContext;

verus! {

/// What `sprout generate` can produce.
#[derive(Debug, Clone, Copy, PartialEq, Eq, Structural)]
pub enum SchematicKind {
    Resource,
    Service,
    Controller,
    Entity,
    Dto,
    Mapper,
    Repository,
}

impl SchematicKind {
    /// Every schematic, in the order the picker and `sprout list` show them.
    pub fn all() -> (r: &'static [SchematicKind])
        ensures
            r@ == seq![
                SchematicKind::Resource,
                SchematicKind::Service,
                SchematicKind::Controller,
                SchematicKind::Entity,
                SchematicKind::Dto,
                SchematicKind::Mapper,
                SchematicKind::Repository,
            ],
    {
        let r: &'static [SchematicKind] = &[
            SchematicKind::Resource,
            SchematicKind::Service,
            SchematicKind::Controller,
            SchematicKind::Entity,
            SchematicKind::Dto,
            SchematicKind::Mapper,
            SchematicKind::Repository,
        ];
        r
    }

    pub open spec fn spec_name(self) -> Seq<char> {
        match self {
            SchematicKind::Resource => "resource"@,
            SchematicKind::Service => "service"@,
            SchematicKind::Controller => "controller"@,
            SchematicKind::Entity => "entity"@,
            SchematicKind::Dto => "dto"@,
            SchematicKind::Mapper => "mapper"@,
            SchematicKind::Repository => "repository"@,
        }
    }

    /// The name of the schematic on the command line.
    pub fn name(&self) -> (r: &'static str)
        ensures
            r@ == self.spec_name(),
    {
        match self {
            SchematicKind::Resource => "resource",
            SchematicKind::Service => "service",
            SchematicKind::Controller => "controller",
            SchematicKind::Entity => "entity",
            SchematicKind::Dto => "dto",
            SchematicKind::Mapper => "mapper",
            SchematicKind::Repository => "repository",
        }
    }

    pub open spec fn spec_label(self) -> Seq<char> {
        match self {
            SchematicKind::Resource => "Full CRUD: entity, dto, mapper, service, controller"@,
            SchematicKind::Service => "Service interface + @Service impl with @RequiredArgsConstructor"@,
            SchematicKind::Controller => "@RestController with @ResponseStatus endpoints"@,
            SchematicKind::Entity => "JPA or Mongo entity, decorated with Lombok"@,
            SchematicKind::Dto => "DTO (Java record or class) with Bean Validation"@,
            SchematicKind::Mapper => "MapStruct mapper bound to the Spring component model"@,
            SchematicKind::Repository => "Spring Data repository (JPA or Mongo) for the entity"@,
        }
    }

    /// What the schematic generates, as the picker and `sprout list` say it.
    pub fn label(&self) -> (r: &'static str)
        ensures
            r@ == self.spec_label(),
    {
        match self {
            SchematicKind::Resource => "Full CRUD: entity, dto, mapper, service, controller",
            SchematicKind::Service => "Service interface + @Service impl with @RequiredArgsConstructor",
            SchematicKind::Controller => "@RestController with @ResponseStatus endpoints",
            SchematicKind::Entity => "JPA or Mongo entity, decorated with Lombok",
            SchematicKind::Dto => "DTO (Java record or class) with Bean Validation",
            SchematicKind::Mapper => "MapStruct mapper bound to the Spring component model",
            SchematicKind::Repository => "Spring Data repository (JPA or Mongo) for the entity",
        }
    }

    pub open spec fn spec_needs_dto_style(self) -> bool {
        self == SchematicKind::Resource || self == SchematicKind::Dto
    }

    /// The schematic writes DTOs, so the DTO style is asked for.
    pub fn needs_dto_style(&self) -> (r: bool)
        ensures
            r == self.spec_needs_dto_style(),
    {
        match self {
            SchematicKind::Resource | SchematicKind::Dto => true,
            _ => false,
        }
    }

    pub open spec fn spec_needs_persistence(self) -> bool {
        self == SchematicKind::Resource || self == SchematicKind::Entity || self
            == SchematicKind::Repository
    }

    /// The schematic writes persistence code, so the persistence is asked for.
    pub fn needs_persistence(&self) -> (r: bool)
        ensures
            r == self.spec_needs_persistence(),
    {
        match self {
            SchematicKind::Resource | SchematicKind::Entity | SchematicKind::Repository => true,
            _ => false,
        }
    }

    /// The generation context for this schematic (see `GenerationContext::build`).
    pub fn collect_context<P: InteractivePrompter>(
        &self,
        raw_name: &str,
        project: &ProjectContext,
        prompter: &P,
        skip_test: bool,
        existing_dirs: &Vec<String>,
    ) -> (r: Result<GenerationContext, anyhow::Error>)
        ensures
            r matches Ok(ctx) ==> {
                &&& context_is(
                    ctx,
                    raw_name@,
                    *project,
                    ctx.architecture,
                    ctx.dto_style,
                    ctx.persistence,
                    existing_dirs@,
                    skip_test,
                )
                &&& !self.spec_needs_dto_style() ==> ctx.dto_style == DtoStyle::Record
                &&& !self.spec_needs_persistence() ==> ctx.persistence
                    == Persistence::JpaRelational
            },
    {
        GenerationContext::build(*self, raw_name, project, prompter, skip_test, existing_dirs)
    }
}

} // verus!
