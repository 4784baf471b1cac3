//! Detection of the folder names a project already uses for each kind of
//! artifact (`model` instead of `entity`, `repositories` instead of
//! `repository`, ...). The directories that exist on disk are handed in as a
//! list of paths; every path that detection may look at is given by
//! `FolderConventions::probe_paths`.
use vstd::prelude::*;

use crate::context::architecture::{Architecture, ArtifactKind};
use crate::naming::identifier::plural_of;
use crate::text::{opt_str_view, opt_view, is_listed, join_path, listed, path_join, same_text};

verus! {

/// The folder detected for each kind of artifact, `None` where the default
/// folder applies.
#[derive(Debug)]
pub struct FolderConventions {
    pub entity: Option<String>,
    pub repository: Option<String>,
    pub service: Option<String>,
    pub controller: Option<String>,
    pub dto: Option<String>,
    pub mapper: Option<String>,
}

fn opt_as_str(o: &Option<String>) -> (r: Option<&str>)
    ensures
        opt_str_view(r) == opt_view(*o),
{
    match o {
        Some(s) => Some(s.as_str()),
        None => None,
    }
}

impl Default for FolderConventions {
    /// No detected folder for any artifact.
    fn default() -> (r: Self)
        ensures
            r.entity is None,
            r.repository is None,
            r.service is None,
            r.controller is None,
            r.dto is None,
            r.mapper is None,
    {
        FolderConventions {
            entity: None,
            repository: None,
            service: None,
            controller: None,
            dto: None,
            mapper: None,
        }
    }
}

/// The folder names tried for each kind of artifact, in priority order.
pub open spec fn spec_candidates_for(kind: ArtifactKind) -> Seq<Seq<char>> {
    match kind {
        ArtifactKind::Entity => seq!["entity"@, "entities"@, "model"@, "models"@, "domain"@],
        ArtifactKind::Repository => seq![
            "repository"@,
            "repositories"@,
            "repo"@,
            "repos"@,
            "dao"@,
            "daos"@,
        ],
        ArtifactKind::Service | ArtifactKind::ServiceTest => seq![
            "service"@,
            "services"@,
            "usecase"@,
            "usecases"@,
        ],
        ArtifactKind::Controller | ArtifactKind::ControllerTest => seq![
            "controller"@,
            "controllers"@,
            "web"@,
            "api"@,
            "endpoint"@,
            "endpoints"@,
        ],
        ArtifactKind::Dto => seq!["dto"@, "dtos"@, "payload"@, "payloads"@],
        ArtifactKind::Mapper => seq!["mapper"@, "mappers"@, "converter"@, "converters"@],
    }
}

pub fn candidates_for(kind: ArtifactKind) -> (r: &'static [&'static str])
    ensures
        r@.len() == spec_candidates_for(kind).len(),
        forall|i: int| 0 <= i < r@.len() ==> #[trigger] r@[i]@ == spec_candidates_for(kind)[i],
{
    match kind {
        ArtifactKind::Entity => {
            let r: &'static [&'static str] = &["entity", "entities", "model", "models", "domain"];
            r
        },
        ArtifactKind::Repository => {
            let r: &'static [&'static str] = &[
                "repository",
                "repositories",
                "repo",
                "repos",
                "dao",
                "daos",
            ];
            r
        },
        ArtifactKind::Service | ArtifactKind::ServiceTest => {
            let r: &'static [&'static str] = &["service", "services", "usecase", "usecases"];
            r
        },
        ArtifactKind::Controller | ArtifactKind::ControllerTest => {
            let r: &'static [&'static str] = &[
                "controller",
                "controllers",
                "web",
                "api",
                "endpoint",
                "endpoints",
            ];
            r
        },
        ArtifactKind::Dto => {
            let r: &'static [&'static str] = &["dto", "dtos", "payload", "payloads"];
            r
        },
        ArtifactKind::Mapper => {
            let r: &'static [&'static str] = &["mapper", "mappers", "converter", "converters"];
            r
        },
    }
}

/// The directory under which the folders of an artifact are looked for.
pub open spec fn spec_scan_root_for(
    base_path: Seq<char>,
    feature: Seq<char>,
    arch: Architecture,
    kind: ArtifactKind,
) -> Seq<char> {
    match arch {
        Architecture::Layered => base_path,
        Architecture::Modular => path_join(base_path, feature),
        Architecture::Hexagonal => match kind {
            ArtifactKind::Entity => path_join(path_join(base_path, feature), "domain"@),
            ArtifactKind::Dto => path_join(path_join(base_path, feature), "application"@),
            ArtifactKind::Service | ArtifactKind::ServiceTest => path_join(base_path, feature),
            _ => path_join(path_join(base_path, feature), "infrastructure"@),
        },
    }
}

pub fn scan_root_for(base_path: &str, feature: &str, arch: Architecture, kind: ArtifactKind) -> (r:
    String)
    ensures
        r@ == spec_scan_root_for(base_path@, feature@, arch, kind),
{
    match arch {
        Architecture::Layered => String::from_str(base_path),
        Architecture::Modular => join_path(base_path, feature),
        Architecture::Hexagonal => {
            let at_feature = join_path(base_path, feature);
            match kind {
                ArtifactKind::Entity => join_path(at_feature.as_str(), "domain"),
                ArtifactKind::Dto => join_path(at_feature.as_str(), "application"),
                ArtifactKind::Service | ArtifactKind::ServiceTest => at_feature,
                _ => join_path(at_feature.as_str(), "infrastructure"),
            }
        },
    }
}

/// The first candidate folder, from index `i` on, that is not the default
/// folder and exists below `root`.
pub open spec fn first_present(
    root: Seq<char>,
    candidates: Seq<Seq<char>>,
    default: Seq<char>,
    dirs: Seq<String>,
    i: int,
) -> Option<Seq<char>>
    decreases candidates.len() - i,
{
    if i < 0 || i >= candidates.len() {
        None
    } else if candidates[i] != default && is_listed(dirs, path_join(root, candidates[i])) {
        Some(candidates[i])
    } else {
        first_present(root, candidates, default, dirs, i + 1)
    }
}

/// The folder detected for one kind of artifact.
pub open spec fn spec_scan_for_artifact(
    base_path: Seq<char>,
    feature: Seq<char>,
    arch: Architecture,
    kind: ArtifactKind,
    dirs: Seq<String>,
) -> Option<Seq<char>> {
    first_present(
        spec_scan_root_for(base_path, feature, arch, kind),
        spec_candidates_for(kind),
        kind.spec_folder(),
        dirs,
        0,
    )
}

/// A detected folder is a candidate of its kind other than the default folder,
/// it exists, and no candidate before it qualifies.
pub proof fn lemma_first_present(
    root: Seq<char>,
    candidates: Seq<Seq<char>>,
    default: Seq<char>,
    dirs: Seq<String>,
    i: int,
)
    requires
        0 <= i,
    ensures
        match first_present(root, candidates, default, dirs, i) {
            Some(f) => exists|k: int|
                #![trigger candidates[k]]
                i <= k < candidates.len() && candidates[k] == f && f != default && is_listed(
                    dirs,
                    path_join(root, f),
                ) && forall|m: int|
                    i <= m < k ==> !(candidates[m] != default && is_listed(
                        dirs,
                        path_join(root, #[trigger] candidates[m]),
                    )),
            None => forall|m: int|
                i <= m < candidates.len() ==> !(candidates[m] != default && is_listed(
                    dirs,
                    path_join(root, #[trigger] candidates[m]),
                )),
        },
    decreases candidates.len() - i,
{
    if i < candidates.len() {
        lemma_first_present(root, candidates, default, dirs, i + 1);
        if candidates[i] != default && is_listed(dirs, path_join(root, candidates[i])) {
            assert(candidates[i] == candidates[i]);
        } else {
            match first_present(root, candidates, default, dirs, i + 1) {
                Some(f) => {
                    let k = choose|k: int|
                        #![trigger candidates[k]]
                        i + 1 <= k < candidates.len() && candidates[k] == f && f != default
                            && is_listed(dirs, path_join(root, f)) && forall|m: int|
                            i + 1 <= m < k ==> !(candidates[m] != default && is_listed(
                                dirs,
                                path_join(root, #[trigger] candidates[m]),
                            ));
                    assert(candidates[k] == f);
                },
                None => {},
            }
        }
    }
}

pub fn scan_for_artifact(
    base_path: &str,
    feature: &str,
    arch: Architecture,
    kind: ArtifactKind,
    existing_dirs: &Vec<String>,
) -> (r: Option<String>)
    ensures
        opt_view(r) == spec_scan_for_artifact(base_path@, feature@, arch, kind, existing_dirs@),
{
    let scan_root = scan_root_for(base_path, feature, arch, kind);
    let candidates = candidates_for(kind);
    let default = kind.folder();
    let ghost cands = spec_candidates_for(kind);
    let mut i: usize = 0;
    while i < candidates.len()
        invariant
            i <= candidates@.len(),
            candidates@.len() == cands.len(),
            forall|k: int| 0 <= k < candidates@.len() ==> #[trigger] candidates@[k]@ == cands[k],
            default@ == kind.spec_folder(),
            scan_root@ == spec_scan_root_for(base_path@, feature@, arch, kind),
            cands == spec_candidates_for(kind),
            spec_scan_for_artifact(base_path@, feature@, arch, kind, existing_dirs@)
                == first_present(scan_root@, cands, default@, existing_dirs@, i as int),
        decreases candidates@.len() - i,
    {
        let cand: &str = candidates[i];
        assert(cand@ == cands[i as int]);
        if !same_text(cand, default) {
            let path = join_path(scan_root.as_str(), cand);
            if listed(existing_dirs, &path) {
                return Some(String::from_str(cand));
            }
        }
        i = i + 1;
    }
    None
}

/// The path of candidate folder `i` of `kind` under the scan root of `arch`.
pub open spec fn probe_path(
    base_path: Seq<char>,
    feature: Seq<char>,
    arch: Architecture,
    kind: ArtifactKind,
    i: int,
) -> Seq<char> {
    path_join(spec_scan_root_for(base_path, feature, arch, kind), spec_candidates_for(kind)[i])
}

pub open spec fn all_artifact_kinds() -> Seq<ArtifactKind> {
    seq![
        ArtifactKind::Service,
        ArtifactKind::Controller,
        ArtifactKind::Entity,
        ArtifactKind::Dto,
        ArtifactKind::Mapper,
        ArtifactKind::Repository,
        ArtifactKind::ServiceTest,
        ArtifactKind::ControllerTest,
    ]
}

pub open spec fn all_architectures() -> Seq<Architecture> {
    seq![Architecture::Modular, Architecture::Layered, Architecture::Hexagonal]
}

/// Every directory path that detection may look at for a feature, under any
/// architecture: the candidate folders below each scan root.
pub open spec fn spec_probe_paths(base_path: Seq<char>, feature: Seq<char>) -> Set<Seq<char>> {
    Set::new(
        |p: Seq<char>|
            exists|arch: Architecture, kind: ArtifactKind, i: int|
                0 <= i < spec_candidates_for(kind).len() && p == #[trigger] probe_path(
                    base_path,
                    feature,
                    arch,
                    kind,
                    i,
                ),
    )
}

impl FolderConventions {
    pub open spec fn spec_folder_for(self, kind: ArtifactKind) -> Option<Seq<char>> {
        match kind {
            ArtifactKind::Entity => opt_view(self.entity),
            ArtifactKind::Repository => opt_view(self.repository),
            ArtifactKind::Service | ArtifactKind::ServiceTest => opt_view(self.service),
            ArtifactKind::Controller | ArtifactKind::ControllerTest => opt_view(self.controller),
            ArtifactKind::Dto => opt_view(self.dto),
            ArtifactKind::Mapper => opt_view(self.mapper),
        }
    }

    /// The detected folder for a kind of artifact; test artifacts share the
    /// folder of the artifact they test.
    pub fn folder_for(&self, kind: ArtifactKind) -> (r: Option<&str>)
        ensures
            opt_str_view(r) == self.spec_folder_for(kind),
    {
        match kind {
            ArtifactKind::Entity => opt_as_str(&self.entity),
            ArtifactKind::Repository => opt_as_str(&self.repository),
            ArtifactKind::Service | ArtifactKind::ServiceTest => opt_as_str(&self.service),
            ArtifactKind::Controller | ArtifactKind::ControllerTest => opt_as_str(
                &self.controller,
            ),
            ArtifactKind::Dto => opt_as_str(&self.dto),
            ArtifactKind::Mapper => opt_as_str(&self.mapper),
        }
    }

    /// The conventions of a feature: for each kind of artifact, the first
    /// candidate folder (in priority order) other than the default folder that
    /// is a listed directory below the kind's scan root.
    pub fn detect(
        base_path: &str,
        feature: &str,
        arch: Architecture,
        existing_dirs: &Vec<String>,
    ) -> (r: Self)
        ensures
            forall|kind: ArtifactKind|
                #[trigger] r.spec_folder_for(kind) == spec_scan_for_artifact(
                    base_path@,
                    feature@,
                    arch,
                    kind,
                    existing_dirs@,
                ),
    {
        let r = FolderConventions {
            entity: scan_for_artifact(base_path, feature, arch, ArtifactKind::Entity, existing_dirs),
            repository: scan_for_artifact(
                base_path,
                feature,
                arch,
                ArtifactKind::Repository,
                existing_dirs,
            ),
            service: scan_for_artifact(
                base_path,
                feature,
                arch,
                ArtifactKind::Service,
                existing_dirs,
            ),
            controller: scan_for_artifact(
                base_path,
                feature,
                arch,
                ArtifactKind::Controller,
                existing_dirs,
            ),
            dto: scan_for_artifact(base_path, feature, arch, ArtifactKind::Dto, existing_dirs),
            mapper: scan_for_artifact(base_path, feature, arch, ArtifactKind::Mapper, existing_dirs),
        };
        assert forall|kind: ArtifactKind|
            #[trigger] r.spec_folder_for(kind) == spec_scan_for_artifact(
                base_path@,
                feature@,
                arch,
                kind,
                existing_dirs@,
            ) by {
            // test artifacts are scanned exactly like the artifact they test
            assert(spec_scan_for_artifact(
                base_path@,
                feature@,
                arch,
                ArtifactKind::ServiceTest,
                existing_dirs@,
            ) == spec_scan_for_artifact(
                base_path@,
                feature@,
                arch,
                ArtifactKind::Service,
                existing_dirs@,
            ));
            assert(spec_scan_for_artifact(
                base_path@,
                feature@,
                arch,
                ArtifactKind::ControllerTest,
                existing_dirs@,
            ) == spec_scan_for_artifact(
                base_path@,
                feature@,
                arch,
                ArtifactKind::Controller,
                existing_dirs@,
            ));
        }
        r
    }

    /// Every directory path that `detect` may look at for this feature, under
    /// any architecture; the caller lists those that exist.
    pub fn probe_paths(base_path: &str, feature: &str) -> (r: Vec<String>)
        ensures
            forall|p: Seq<char>|
                spec_probe_paths(base_path@, feature@).contains(p) ==> is_listed(r@, p),
    {
        let mut out: Vec<String> = Vec::new();
        let archs = Architecture::all();
        let kinds: &'static [ArtifactKind] = &[
            ArtifactKind::Service,
            ArtifactKind::Controller,
            ArtifactKind::Entity,
            ArtifactKind::Dto,
            ArtifactKind::Mapper,
            ArtifactKind::Repository,
            ArtifactKind::ServiceTest,
            ArtifactKind::ControllerTest,
        ];
        let mut a: usize = 0;
        while a < archs.len()
            invariant
                archs@ == all_architectures(),
                kinds@ == all_artifact_kinds(),
                a <= archs@.len(),
                forall|ai: int, kind: ArtifactKind, i: int|
                    0 <= ai < a && 0 <= i < spec_candidates_for(kind).len() ==> is_listed(
                        out@,
                        #[trigger] probe_path(base_path@, feature@, all_architectures()[ai], kind, i),
                    ),
            decreases archs@.len() - a,
        {
            let arch = archs[a];
            let mut k: usize = 0;
            while k < kinds.len()
                invariant
                    archs@ == all_architectures(),
                    kinds@ == all_artifact_kinds(),
                    a < archs@.len(),
                    arch == all_architectures()[a as int],
                    k <= kinds@.len(),
                    forall|ai: int, kind: ArtifactKind, i: int|
                        0 <= ai < a && 0 <= i < spec_candidates_for(kind).len() ==> is_listed(
                            out@,
                            #[trigger] probe_path(base_path@, feature@, all_architectures()[ai], kind, i),
                        ),
                    forall|ki: int, i: int|
                        0 <= ki < k && 0 <= i < spec_candidates_for(all_artifact_kinds()[ki]).len()
                            ==> is_listed(
                            out@,
                            #[trigger] probe_path(base_path@, feature@, arch, all_artifact_kinds()[ki], i),
                        ),
                decreases kinds@.len() - k,
            {
                let kind = kinds[k];
                let root = scan_root_for(base_path, feature, arch, kind);
                let candidates = candidates_for(kind);
                let mut i: usize = 0;
                while i < candidates.len()
                    invariant
                        archs@ == all_architectures(),
                        kinds@ == all_artifact_kinds(),
                        a < archs@.len(),
                        arch == all_architectures()[a as int],
                        k < kinds@.len(),
                        kind == all_artifact_kinds()[k as int],
                        root@ == spec_scan_root_for(base_path@, feature@, arch, kind),
                        candidates@.len() == spec_candidates_for(kind).len(),
                        forall|m: int|
                            0 <= m < candidates@.len() ==> #[trigger] candidates@[m]@
                                == spec_candidates_for(kind)[m],
                        i <= candidates@.len(),
                        forall|ai: int, kind2: ArtifactKind, i2: int|
                            0 <= ai < a && 0 <= i2 < spec_candidates_for(kind2).len()
                                ==> is_listed(
                                out@,
                                #[trigger] probe_path(base_path@, feature@, all_architectures()[ai], kind2, i2),
                            ),
                        forall|ki: int, i2: int|
                            0 <= ki < k && 0 <= i2 < spec_candidates_for(all_artifact_kinds()[ki]).len()
                                ==> is_listed(
                                out@,
                                #[trigger] probe_path(base_path@, feature@, arch, all_artifact_kinds()[ki], i2),
                            ),
                        forall|i2: int|
                            0 <= i2 < i ==> is_listed(
                                out@,
                                #[trigger] probe_path(base_path@, feature@, arch, kind, i2),
                            ),
                    decreases candidates@.len() - i,
                {
                    let path = join_path(root.as_str(), candidates[i]);
                    let ghost before = out@;
                    out.push(path);
                    assert(out@[before.len() as int]@ == probe_path(
                        base_path@,
                        feature@,
                        arch,
                        kind,
                        i as int,
                    ));
                    assert forall|p: Seq<char>| is_listed(before, p) implies is_listed(
                        out@,
                        p,
                    ) by {
                        let j = choose|j: int| 0 <= j < before.len() && #[trigger] before[j]@ == p;
                        assert(out@[j]@ == p);
                    }
                    i = i + 1;
                }
                k = k + 1;
            }
            assert forall|kind: ArtifactKind, i: int|
                0 <= i < spec_candidates_for(kind).len() implies is_listed(
                out@,
                #[trigger] probe_path(base_path@, feature@, arch, kind, i),
            ) by {
                let ki: int = match kind {
                    ArtifactKind::Service => 0,
                    ArtifactKind::Controller => 1,
                    ArtifactKind::Entity => 2,
                    ArtifactKind::Dto => 3,
                    ArtifactKind::Mapper => 4,
                    ArtifactKind::Repository => 5,
                    ArtifactKind::ServiceTest => 6,
                    ArtifactKind::ControllerTest => 7,
                };
                assert(all_artifact_kinds()[ki] == kind);
            }
            a = a + 1;
        }
        assert forall|p: Seq<char>|
            spec_probe_paths(base_path@, feature@).contains(p) implies is_listed(out@, p) by {
            let (arch, kind, i) = choose|arch: Architecture, kind: ArtifactKind, i: int|
                0 <= i < spec_candidates_for(kind).len() && p == #[trigger] probe_path(
                    base_path@,
                    feature@,
                    arch,
                    kind,
                    i,
                );
            let ai: int = match arch {
                Architecture::Modular => 0,
                Architecture::Layered => 1,
                Architecture::Hexagonal => 2,
            };
            assert(all_architectures()[ai] == arch);
        }
        out
    }
}

/// Law: a detected folder is one of the candidates of its kind, other than the
/// default folder, that exists below the scan root, and no candidate before it
/// in priority order qualifies; when none is detected, no candidate
/// qualifies.
pub proof fn law_detected_folder_is_first_existing_candidate(
    base_path: Seq<char>,
    feature: Seq<char>,
    arch: Architecture,
    kind: ArtifactKind,
    dirs: Seq<String>,
)
    ensures
        ({
            let root = spec_scan_root_for(base_path, feature, arch, kind);
            let cands = spec_candidates_for(kind);
            match spec_scan_for_artifact(base_path, feature, arch, kind, dirs) {
                Some(f) => exists|k: int|
                    #![trigger cands[k]]
                    0 <= k < cands.len() && cands[k] == f && f != kind.spec_folder() && is_listed(
                        dirs,
                        path_join(root, f),
                    ) && forall|m: int|
                        0 <= m < k ==> !(cands[m] != kind.spec_folder() && is_listed(
                            dirs,
                            path_join(root, #[trigger] cands[m]),
                        )),
                None => forall|m: int|
                    0 <= m < cands.len() ==> !(cands[m] != kind.spec_folder() && is_listed(
                        dirs,
                        path_join(root, #[trigger] cands[m]),
                    )),
            }
        }),
{
    lemma_first_present(
        spec_scan_root_for(base_path, feature, arch, kind),
        spec_candidates_for(kind),
        kind.spec_folder(),
        dirs,
        0,
    );
}

/// The plural of each default folder name is the first alternative tried for
/// its kind, right after the default folder.
proof fn lemma_plural_is_first_alternative(kind: ArtifactKind)
    ensures
        spec_candidates_for(kind).len() >= 2,
        spec_candidates_for(kind)[0] == kind.spec_folder(),
        spec_candidates_for(kind)[1] == plural_of(kind.spec_folder()),
        spec_candidates_for(kind)[1] != kind.spec_folder(),
{
    let f = kind.spec_folder();
    let c = spec_candidates_for(kind);
    match kind {
        ArtifactKind::Entity => {
            reveal_strlit("entity");
            reveal_strlit("entities");
            assert(f.drop_last() + seq!['i', 'e', 's'] =~= c[1]);
        },
        ArtifactKind::Repository => {
            reveal_strlit("repository");
            reveal_strlit("repositories");
            assert(f.drop_last() + seq!['i', 'e', 's'] =~= c[1]);
        },
        ArtifactKind::Service | ArtifactKind::ServiceTest => {
            reveal_strlit("service");
            reveal_strlit("services");
            assert(f + seq!['s'] =~= c[1]);
        },
        ArtifactKind::Controller | ArtifactKind::ControllerTest => {
            reveal_strlit("controller");
            reveal_strlit("controllers");
            assert(f + seq!['s'] =~= c[1]);
        },
        ArtifactKind::Dto => {
            reveal_strlit("dto");
            reveal_strlit("dtos");
            assert(f + seq!['s'] =~= c[1]);
        },
        ArtifactKind::Mapper => {
            reveal_strlit("mapper");
            reveal_strlit("mappers");
            assert(f + seq!['s'] =~= c[1]);
        },
    }
}

/// Law: for every kind of artifact, an existing folder named with the plural
/// of the default folder (`controllers`, `entities`, `repositories`, ...) below
/// the scan root is detected, whatever else exists there.
pub proof fn law_plural_folder_detected(
    base_path: Seq<char>,
    feature: Seq<char>,
    arch: Architecture,
    kind: ArtifactKind,
    dirs: Seq<String>,
)
    requires
        is_listed(
            dirs,
            path_join(spec_scan_root_for(base_path, feature, arch, kind), plural_of(kind.spec_folder())),
        ),
    ensures
        spec_scan_for_artifact(base_path, feature, arch, kind, dirs) == Some(
            plural_of(kind.spec_folder()),
        ),
{
    lemma_plural_is_first_alternative(kind);
    let root = spec_scan_root_for(base_path, feature, arch, kind);
    let c = spec_candidates_for(kind);
    let f = kind.spec_folder();
    assert(first_present(root, c, f, dirs, 1) == Some(c[1]));
    assert(first_present(root, c, f, dirs, 0) == first_present(root, c, f, dirs, 1));
}

/// The folder names recognised for each kind of artifact, the default one
/// first, as a list written out on its own.
pub open spec fn recognised_folder_names(kind: ArtifactKind) -> Seq<Seq<char>> {
    match kind {
        ArtifactKind::Entity => seq!["entity"@, "entities"@, "model"@, "models"@, "domain"@],
        ArtifactKind::Repository => seq![
            "repository"@,
            "repositories"@,
            "repo"@,
            "repos"@,
            "dao"@,
            "daos"@,
        ],
        ArtifactKind::Service | ArtifactKind::ServiceTest => seq![
            "service"@,
            "services"@,
            "usecase"@,
            "usecases"@,
        ],
        ArtifactKind::Controller | ArtifactKind::ControllerTest => seq![
            "controller"@,
            "controllers"@,
            "web"@,
            "api"@,
            "endpoint"@,
            "endpoints"@,
        ],
        ArtifactKind::Dto => seq!["dto"@, "dtos"@, "payload"@, "payloads"@],
        ArtifactKind::Mapper => seq!["mapper"@, "mappers"@, "converter"@, "converters"@],
    }
}

/// Law: the folder names recognised for each kind, in priority order after
/// the default one: an existing folder with the `i`-th name is detected when
/// no folder with an earlier alternative name exists.
pub proof fn law_alternatives_in_priority_order(
    base_path: Seq<char>,
    feature: Seq<char>,
    arch: Architecture,
    kind: ArtifactKind,
    dirs: Seq<String>,
    i: int,
)
    requires
        ({
            let names = recognised_folder_names(kind);
            let root = spec_scan_root_for(base_path, feature, arch, kind);
            &&& 1 <= i < names.len()
            &&& names[i] != kind.spec_folder()
            &&& is_listed(dirs, path_join(root, names[i]))
            &&& forall|j: int| 1 <= j < i ==> !is_listed(dirs, path_join(root, #[trigger] names[j]))
        }),
    ensures
        spec_scan_for_artifact(base_path, feature, arch, kind, dirs) == Some(
            recognised_folder_names(kind)[i],
        ),
{
    let root = spec_scan_root_for(base_path, feature, arch, kind);
    let c = spec_candidates_for(kind);
    let f = kind.spec_folder();
    let names = recognised_folder_names(kind);
    assert(c =~= names);
    assert(c[0] == f);
    lemma_first_present(root, c, f, dirs, 0);
    match first_present(root, c, f, dirs, 0) {
        Some(g) => {
            let k = choose|k: int|
                #![trigger c[k]]
                0 <= k < c.len() && c[k] == g && g != f && is_listed(dirs, path_join(root, g))
                    && forall|m: int|
                    0 <= m < k ==> !(c[m] != f && is_listed(dirs, path_join(root, #[trigger] c[m])));
            assert(!(c[i] != f && is_listed(dirs, path_join(root, c[i]))) ==> k < i) by {
                if k > i {
                    assert(!(c[i] != f && is_listed(dirs, path_join(root, c[i]))));
                }
            }
            if k != i {
                if k < i {
                    assert(k >= 1);
                    assert(c[k] == names[k]);
                    assert(!is_listed(dirs, path_join(root, names[k])));
                } else {
                    assert(!(c[i] != f && is_listed(dirs, path_join(root, c[i]))));
                }
            }
        },
        None => {
            assert(!(c[i] != f && is_listed(dirs, path_join(root, c[i]))));
        },
    }
}

} // verus!
