use vstd::prelude::*;

use crate::text::{replace_char, replace_char_with};
use crate::workspace::folder_conventions::FolderConventions;

verus! {

/// How the generated files of one feature are laid out in packages.
#[derive(Debug, Clone, Copy, PartialEq, Eq, Structural)]
pub enum Architecture {
    Modular,
    Layered,
    Hexagonal,
}

impl Default for Architecture {
    /// Modular (feature-first) is the default.
    fn default() -> (r: Self)
        ensures
            r == Architecture::Modular,
    {
        Architecture::Modular
    }
}

/// The kinds of artifact a schematic writes; each has its own folder.
#[derive(Debug, Clone, Copy, PartialEq, Eq, Structural)]
pub enum ArtifactKind {
    Service,
    Controller,
    Entity,
    Dto,
    Mapper,
    Repository,
    ServiceTest,
    ControllerTest,
}

impl ArtifactKind {
    pub open spec fn spec_folder(self) -> Seq<char> {
        match self {
            ArtifactKind::Service | ArtifactKind::ServiceTest => "service"@,
            ArtifactKind::Controller | ArtifactKind::ControllerTest => "controller"@,
            ArtifactKind::Entity => "entity"@,
            ArtifactKind::Dto => "dto"@,
            ArtifactKind::Mapper => "mapper"@,
            ArtifactKind::Repository => "repository"@,
        }
    }

    /// The default folder name of this kind of artifact.
    pub fn folder(&self) -> (r: &'static str)
        ensures
            r@ == self.spec_folder(),
    {
        match self {
            ArtifactKind::Service | ArtifactKind::ServiceTest => "service",
            ArtifactKind::Controller | ArtifactKind::ControllerTest => "controller",
            ArtifactKind::Entity => "entity",
            ArtifactKind::Dto => "dto",
            ArtifactKind::Mapper => "mapper",
            ArtifactKind::Repository => "repository",
        }
    }
}

/// The leaf folder of an artifact: the project's own folder when one was
/// detected, the default folder otherwise.
pub open spec fn spec_override_leaf(artifact: ArtifactKind, conventions: FolderConventions) -> Seq<
    char,
> {
    match conventions.spec_folder_for(artifact) {
        Some(f) => f,
        None => artifact.spec_folder(),
    }
}

pub fn override_leaf(artifact: ArtifactKind, conventions: &FolderConventions) -> (r: String)
    ensures
        r@ == spec_override_leaf(artifact, *conventions),
{
    match conventions.folder_for(artifact) {
        Some(f) => String::from_str(f),
        None => String::from_str(artifact.folder()),
    }
}

impl Architecture {
    /// Every architecture, in the order the picker shows them.
    pub fn all() -> (r: &'static [Architecture])
        ensures
            r@ == seq![Architecture::Modular, Architecture::Layered, Architecture::Hexagonal],
    {
        let r: &'static [Architecture] = &[
            Architecture::Modular,
            Architecture::Layered,
            Architecture::Hexagonal,
        ];
        r
    }

    pub open spec fn spec_label(self) -> Seq<char> {
        match self {
            Architecture::Modular => "Modular (feature-first)"@,
            Architecture::Layered => "Layered (by responsibility)"@,
            Architecture::Hexagonal => "Hexagonal (ports & adapters)"@,
        }
    }

    /// The text the picker shows for this architecture.
    pub fn label(&self) -> (r: &'static str)
        ensures
            r@ == self.spec_label(),
    {
        match self {
            Architecture::Modular => "Modular (feature-first)",
            Architecture::Layered => "Layered (by responsibility)",
            Architecture::Hexagonal => "Hexagonal (ports & adapters)",
        }
    }

    /// The fixed sub-path of an artifact in the hexagonal layout, below the feature.
    pub open spec fn spec_hexagonal_leaf(artifact: ArtifactKind) -> Seq<char> {
        match artifact {
            ArtifactKind::Service | ArtifactKind::ServiceTest => "application"@,
            ArtifactKind::Controller | ArtifactKind::ControllerTest => "infrastructure/web"@,
            ArtifactKind::Entity => "domain/model"@,
            ArtifactKind::Dto => "application/dto"@,
            ArtifactKind::Mapper => "infrastructure/mapper"@,
            ArtifactKind::Repository => "infrastructure/persistence"@,
        }
    }

    /// The folder of an artifact, relative to the base package's directory.
    pub open spec fn spec_path_for(
        self,
        feature: Seq<char>,
        artifact: ArtifactKind,
        conventions: FolderConventions,
    ) -> Seq<char> {
        match self {
            Architecture::Layered => spec_override_leaf(artifact, conventions),
            Architecture::Modular => feature + seq!['/'] + spec_override_leaf(
                artifact,
                conventions,
            ),
            Architecture::Hexagonal => feature + seq!['/'] + Self::spec_hexagonal_leaf(artifact),
        }
    }

    fn hexagonal_leaf(artifact: ArtifactKind) -> (r: &'static str)
        ensures
            r@ == Self::spec_hexagonal_leaf(artifact),
    {
        match artifact {
            ArtifactKind::Service | ArtifactKind::ServiceTest => "application",
            ArtifactKind::Controller | ArtifactKind::ControllerTest => "infrastructure/web",
            ArtifactKind::Entity => "domain/model",
            ArtifactKind::Dto => "application/dto",
            ArtifactKind::Mapper => "infrastructure/mapper",
            ArtifactKind::Repository => "infrastructure/persistence",
        }
    }

    /// The folder of an artifact, relative to the base package's directory:
    /// `leaf` (layered), `feature/leaf` (modular) or the fixed hexagonal
    /// sub-path below the feature; `leaf` is the detected or default folder.
    pub fn path_for(
        &self,
        feature: &str,
        artifact: ArtifactKind,
        conventions: &FolderConventions,
    ) -> (r: String)
        ensures
            r@ == self.spec_path_for(feature@, artifact, *conventions),
    {
        let slash = "/";
        proof {
            reveal_strlit("/");
        }
        match self {
            Architecture::Layered => override_leaf(artifact, conventions),
            Architecture::Modular => {
                let mut out = String::from_str(feature);
                out.append(slash);
                let leaf = override_leaf(artifact, conventions);
                out.append(leaf.as_str());
                out
            },
            Architecture::Hexagonal => {
                let mut out = String::from_str(feature);
                out.append(slash);
                out.append(Self::hexagonal_leaf(artifact));
                out
            },
        }
    }

    pub open spec fn spec_package_segment_for(
        self,
        feature: Seq<char>,
        artifact: ArtifactKind,
        conventions: FolderConventions,
    ) -> Seq<char> {
        replace_char(self.spec_path_for(feature, artifact, conventions), '/', seq!['.'])
    }

    /// `path_for` with every `/` turned into `.`: the package suffix of the artifact.
    pub fn package_segment_for(
        &self,
        feature: &str,
        artifact: ArtifactKind,
        conventions: &FolderConventions,
    ) -> (r: String)
        ensures
            r@ == self.spec_package_segment_for(feature@, artifact, *conventions),
    {
        let path = self.path_for(feature, artifact, conventions);
        let dot = ".";
        proof {
            reveal_strlit(".");
            assert(dot@ =~= seq!['.']);
        }
        replace_char_with(path.as_str(), '/', dot)
    }
}

} // verus!
