use sprout::cli::schematic_kind::SchematicKind;
use sprout::commands::doctor::{summary, tally, DependencyCheck, DoctorVerdict};
use sprout::context::architecture::{Architecture, ArtifactKind};
use sprout::context::dto_style::DtoStyle;
use sprout::context::persistence::Persistence;
use sprout::prompts::name_prompt::{name_prompt_label, trim, validate_name, NameError};
use sprout::prompts::{architecture_choice, dto_style_choice, persistence_choice};
use sprout::update_check::{
    announces_update, install_command, release_to_announce, strip_v_prefix, update_box_layout,
    UpdateProbe,
};

#[test]
fn install_command_matches_target_os() {
    let cmd = install_command("windows");
    assert!(cmd.contains("install.ps1"));
    let cmd = install_command("linux");
    assert!(cmd.contains("install.sh"));
    assert!(install_command("macos").contains("install.sh"));
}

#[test]
fn strips_one_leading_v() {
    assert_eq!(strip_v_prefix("v1.2.0"), "1.2.0");
    assert_eq!(strip_v_prefix("1.2.0"), "1.2.0");
    assert_eq!(strip_v_prefix("vv1"), "v1");
    assert_eq!(strip_v_prefix(""), "");
    assert_eq!(strip_v_prefix("v"), "");
}

#[test]
fn announces_only_other_versions() {
    assert!(announces_update(Some("0.2.0"), "0.1.0"));
    assert!(!announces_update(Some("0.1.0"), "0.1.0"));
    assert!(!announces_update(None, "0.1.0"));
}

#[test]
fn update_box_pads_every_line_to_the_widest() {
    let layout = update_box_layout(&vec![10, 25, 3]);
    assert_eq!(layout.inner, 29);
    assert_eq!(layout.trailing, vec![17, 2, 24]);
}

#[test]
fn settings_choose_without_asking() {
    assert_eq!(architecture_choice(Some("layered"), false), Some(Architecture::Layered));
    assert_eq!(architecture_choice(Some("hexagonal"), false), Some(Architecture::Hexagonal));
    assert_eq!(architecture_choice(Some("other"), false), Some(Architecture::Modular));
    assert_eq!(architecture_choice(None, true), Some(Architecture::Modular));
    assert_eq!(architecture_choice(None, false), None);
    assert_eq!(dto_style_choice(Some("class"), false), Some(DtoStyle::Class));
    assert_eq!(dto_style_choice(Some("record"), false), Some(DtoStyle::Record));
    assert_eq!(dto_style_choice(None, true), Some(DtoStyle::Record));
    assert_eq!(dto_style_choice(None, false), None);
    assert_eq!(persistence_choice(Some("mongo"), false), Some(Persistence::MongoDb));
    assert_eq!(persistence_choice(Some("jpa"), true), Some(Persistence::JpaRelational));
    assert_eq!(persistence_choice(None, true), Some(Persistence::JpaRelational));
    assert_eq!(persistence_choice(None, false), None);
}

#[test]
fn validates_typed_names() {
    assert_eq!(validate_name("user-account"), Ok(()));
    assert_eq!(validate_name("  User_2 \n"), Ok(()));
    assert_eq!(validate_name("   "), Err(NameError::Empty));
    assert_eq!(validate_name("user account"), Err(NameError::InvalidCharacter));
    assert_eq!(validate_name("usér"), Err(NameError::InvalidCharacter));
    assert_eq!(validate_name("1user"), Err(NameError::MustStartWithLetter));
    assert_eq!(validate_name("-user"), Err(NameError::MustStartWithLetter));
    assert_eq!(NameError::Empty.message(), "Name cannot be empty");
    assert_eq!(NameError::InvalidCharacter.message(), "Name may only contain letters, digits, '-' and '_'");
    assert_eq!(NameError::MustStartWithLetter.message(), "Name must start with a letter");
    assert_eq!(trim("\u{3000} a b \u{85}"), "a b");
    assert_eq!(trim(""), "");
}

#[test]
fn doctor_counts_and_verdict() {
    assert_eq!(tally(false, false, &vec![]), (1, 0));
    assert_eq!(tally(true, false, &vec![]), (0, 1));
    let checks = vec![DependencyCheck::Present, DependencyCheck::Missing, DependencyCheck::Unchecked];
    assert_eq!(tally(true, true, &checks), (0, 2));
    assert_eq!(summary(0, 0), DoctorVerdict::Ready);
    assert_eq!(summary(0, 2), DoctorVerdict::Warnings(2));
    assert_eq!(summary(1, 3), DoctorVerdict::Critical(1));
}

#[test]
fn schematic_kinds() {
    let names: Vec<&str> = SchematicKind::all().iter().map(|k| k.name()).collect();
    assert_eq!(names, vec!["resource", "service", "controller", "entity", "dto", "mapper", "repository"]);
    assert!(SchematicKind::Resource.needs_dto_style());
    assert!(SchematicKind::Dto.needs_dto_style());
    assert!(!SchematicKind::Entity.needs_dto_style());
    assert!(SchematicKind::Entity.needs_persistence());
    assert!(SchematicKind::Repository.needs_persistence());
    assert!(!SchematicKind::Mapper.needs_persistence());
    assert_eq!(SchematicKind::Controller.label(), "@RestController with @ResponseStatus endpoints");
}

#[test]
fn enum_labels_and_templates() {
    assert_eq!(Architecture::all().len(), 3);
    assert_eq!(Architecture::Hexagonal.label(), "Hexagonal (ports & adapters)");
    assert_eq!(Architecture::default(), Architecture::Modular);
    assert_eq!(DtoStyle::all(), &[DtoStyle::Record, DtoStyle::Class]);
    assert_eq!(DtoStyle::Class.label(), "Classic Classes (Lombok)");
    assert_eq!(DtoStyle::Record.request_template(), "dto/request_record.java.tera");
    assert_eq!(DtoStyle::Class.response_template(), "dto/response_class.java.tera");
    assert_eq!(Persistence::all(), &[Persistence::JpaRelational, Persistence::MongoDb]);
    assert_eq!(Persistence::MongoDb.label(), "MongoDB (NoSQL)");
    assert!(Persistence::JpaRelational.is_jpa());
    assert_eq!(Persistence::JpaRelational.entity_template(), "entity/jpa.java.tera");
    assert_eq!(Persistence::MongoDb.repository_template(), "repository/mongo.java.tera");
    assert_eq!(Persistence::JpaRelational.repository_base_class(), "JpaRepository");
    assert_eq!(Persistence::JpaRelational.id_type(), "Long");
    assert_eq!(ArtifactKind::ServiceTest.folder(), "service");
    assert_eq!(ArtifactKind::ControllerTest.folder(), "controller");
    assert_eq!(Persistence::default(), Persistence::JpaRelational);
    assert_eq!(DtoStyle::default(), DtoStyle::Record);
}

#[test]
fn probe_announces_a_newer_release() {
    let (tx, rx) = std::sync::mpsc::channel();
    tx.send(Some("0.2.0".to_string())).unwrap();
    let probe = UpdateProbe { receiver: Some(rx) };
    assert_eq!(probe.finalize("0.1.0"), Some("0.2.0".to_string()));
}

#[test]
fn probe_stays_quiet_otherwise() {
    assert_eq!(UpdateProbe { receiver: None }.finalize("0.1.0"), None);

    let (tx, rx) = std::sync::mpsc::channel();
    tx.send(Some("0.1.0".to_string())).unwrap();
    assert_eq!(UpdateProbe { receiver: Some(rx) }.finalize("0.1.0"), None);

    let (tx, rx) = std::sync::mpsc::channel::<Option<String>>();
    tx.send(None).unwrap();
    assert_eq!(UpdateProbe { receiver: Some(rx) }.finalize("0.1.0"), None);

    let (tx, rx) = std::sync::mpsc::channel::<Option<String>>();
    drop(tx);
    assert_eq!(UpdateProbe { receiver: Some(rx) }.finalize("0.1.0"), None);
}

#[test]
fn release_to_announce_cases() {
    assert_eq!(release_to_announce(Some(Some("v0.3.0".to_string())), "0.1.0"), Some("v0.3.0".to_string()));
    assert_eq!(release_to_announce(Some(Some("0.1.0".to_string())), "0.1.0"), None);
    assert_eq!(release_to_announce(Some(None), "0.1.0"), None);
    assert_eq!(release_to_announce(None, "0.1.0"), None);
}

#[test]
fn name_prompt_labels() {
    use_label(SchematicKind::Resource, "Resource name");
    use_label(SchematicKind::Service, "Service name");
    use_label(SchematicKind::Controller, "Controller name");
    use_label(SchematicKind::Entity, "Entity name");
    use_label(SchematicKind::Repository, "Repository name");
    use_label(SchematicKind::Dto, "DTO name");
    use_label(SchematicKind::Mapper, "Mapper name");
}

fn use_label(kind: SchematicKind, expected: &str) {
    assert_eq!(name_prompt_label(kind), expected);
}
