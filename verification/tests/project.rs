use sprout::context::architecture::{Architecture, ArtifactKind};
use sprout::workspace::folder_conventions::FolderConventions;
use sprout::workspace::project_detector::{
    package_declaration, DetectError, ProjectDetector, SourceFile,
};

fn file(path: &str, contents: &str) -> SourceFile {
    SourceFile { path: path.to_string(), contents: contents.to_string() }
}

fn dirs(paths: &[&str]) -> Vec<String> {
    paths.iter().map(|p| p.to_string()).collect()
}

const BASE: &str = "/tmp/project/src/main/java/com/acme";

#[test]
fn defaults_when_nothing_exists() {
    let conv = FolderConventions::detect(BASE, "user", Architecture::Modular, &dirs(&[]));
    assert_eq!(conv.entity, None);
    assert_eq!(conv.repository, None);
}

#[test]
fn detects_model_for_entity_modular() {
    let existing = dirs(&["/tmp/project/src/main/java/com/acme/user/model"]);
    let conv = FolderConventions::detect(BASE, "user", Architecture::Modular, &existing);
    assert_eq!(conv.entity.as_deref(), Some("model"));
}

#[test]
fn detects_repositories_plural_for_repository_layered() {
    let existing = dirs(&["/tmp/project/src/main/java/com/acme/repositories"]);
    let conv = FolderConventions::detect(BASE, "user", Architecture::Layered, &existing);
    assert_eq!(conv.repository.as_deref(), Some("repositories"));
}

#[test]
fn skips_default_folder_so_it_stays_none() {
    let existing = dirs(&["/tmp/project/src/main/java/com/acme/user/entity"]);
    let conv = FolderConventions::detect(BASE, "user", Architecture::Modular, &existing);
    assert_eq!(conv.entity, None);
}

#[test]
fn first_match_wins_in_priority_order() {
    let existing = dirs(&[
        "/tmp/project/src/main/java/com/acme/user/domain",
        "/tmp/project/src/main/java/com/acme/user/model",
    ]);
    let conv = FolderConventions::detect(BASE, "user", Architecture::Modular, &existing);
    assert_eq!(conv.entity.as_deref(), Some("model"));
}

#[test]
fn hexagonal_scans_below_layer_folders() {
    let existing = dirs(&[
        "/tmp/project/src/main/java/com/acme/user/infrastructure/repos",
        "/tmp/project/src/main/java/com/acme/user/domain/entities",
        "/tmp/project/src/main/java/com/acme/user/usecases",
    ]);
    let conv = FolderConventions::detect(BASE, "user", Architecture::Hexagonal, &existing);
    assert_eq!(conv.repository.as_deref(), Some("repos"));
    assert_eq!(conv.entity.as_deref(), Some("entities"));
    assert_eq!(conv.service.as_deref(), Some("usecases"));
    assert_eq!(conv.folder_for(ArtifactKind::ServiceTest), Some("usecases"));
    assert_eq!(conv.controller, None);
}

#[test]
fn probe_paths_cover_every_candidate() {
    let paths = FolderConventions::probe_paths(BASE, "user");
    for p in [
        "/tmp/project/src/main/java/com/acme/user/model",
        "/tmp/project/src/main/java/com/acme/repositories",
        "/tmp/project/src/main/java/com/acme/user/infrastructure/repos",
        "/tmp/project/src/main/java/com/acme/user/application/payloads",
        "/tmp/project/src/main/java/com/acme/user/domain/entities",
    ] {
        assert!(paths.iter().any(|q| q == p), "{p}");
    }
}

#[test]
fn detects_base_package_from_application_class() {
    let files = vec![
        file(
            "/tmp/store/src/main/java/com/acme/store/StoreApplication.java",
            "package com.acme.store;\n\nimport org.springframework.boot.autoconfigure.SpringBootApplication;\n\n@SpringBootApplication\npublic class StoreApplication {}\n",
        ),
        file(
            "/tmp/store/src/main/java/com/acme/store/other/Util.java",
            "package com.acme.store.other; class Util {}\n",
        ),
    ];
    let project = ProjectDetector::detect_from("/tmp/store", Some(&files)).unwrap();
    assert_eq!(project.base_package(), "com.acme.store");
    assert!(project.base_path().ends_with("com/acme/store"));
    assert_eq!(project.root(), "/tmp/store");
    assert_eq!(
        project.application_class(),
        "/tmp/store/src/main/java/com/acme/store/StoreApplication.java"
    );
    assert_eq!(project.source_root(), "/tmp/store/src/main/java");
    assert_eq!(project.test_base_path(), "/tmp/store/src/test/java/com/acme/store");
}

#[test]
fn fails_when_no_application_class_found() {
    let files = vec![file("/tmp/x/src/main/java/com/acme/Foo.java", "package com.acme; class Foo {}\n")];
    let err = ProjectDetector::detect_from("/tmp/x", Some(&files)).unwrap_err();
    assert!(matches!(err, DetectError::NoApplicationClass { .. }));
    assert_eq!(
        err.message(),
        "could not find a @SpringBootApplication class under /tmp/x/src/main/java: no @SpringBootApplication class found"
    );
}

#[test]
fn test_cli_generate_resource_fails_outside_project() {
    let err = ProjectDetector::detect_from("/tmp/empty", None).unwrap_err();
    assert!(err.message().contains("must be run from a Spring Boot project root"));
}

#[test]
fn marker_outside_java_files_is_ignored() {
    let files = vec![
        file("/r/src/main/java/notes.txt", "@SpringBootApplication\npackage a.b;"),
        file("/r/src/main/java/.java", "@SpringBootApplication\npackage c.d;"),
        file("/r/src/main/java/x/App.java", "package x.y;\n@SpringBootApplication class App {}"),
    ];
    let project = ProjectDetector::detect_from("/r", Some(&files)).unwrap();
    assert_eq!(project.base_package(), "x.y");
    assert_eq!(project.base_path(), "/r/src/main/java/x");
}

#[test]
fn application_without_package_is_an_error() {
    let files = vec![file("/r/src/main/java/App.java", "@SpringBootApplication class App {}")];
    let err = ProjectDetector::detect_from("/r", Some(&files)).unwrap_err();
    match &err {
        DetectError::PackageNotParsed { path, .. } => assert_eq!(path, "/r/src/main/java/App.java"),
        other => panic!("unexpected {other:?}"),
    }
    assert_eq!(
        err.message(),
        "could not find a @SpringBootApplication class under /r/src/main/java: found @SpringBootApplication at /r/src/main/java/App.java but no package declaration could be parsed"
    );
}

#[test]
fn application_in_the_source_root_has_it_as_base_path() {
    let relative = vec![file("src/main/java/App.java", "package a;\n@SpringBootApplication")];
    let project = ProjectDetector::detect_from("", Some(&relative)).unwrap();
    assert_eq!(project.base_path(), "src/main/java");
}

#[test]
fn files_outside_the_source_root_are_ignored() {
    let files = vec![
        file("/r/src/test/java/x/TestApp.java", "package t;\n@SpringBootApplication class T {}"),
        file("/r/src/main/javax/App.java", "package u;\n@SpringBootApplication class U {}"),
        file("/r/src/main/java/y/App.java", "package y;\n@SpringBootApplication class App {}"),
    ];
    let project = ProjectDetector::detect_from("/r", Some(&files)).unwrap();
    assert_eq!(project.base_package(), "y");
    assert_eq!(project.application_class(), "/r/src/main/java/y/App.java");
    assert_eq!(project.base_path(), "/r/src/main/java/y");
    let outside = vec![file("/elsewhere/App.java", "package z;\n@SpringBootApplication")];
    assert!(matches!(
        ProjectDetector::detect_from("/r", Some(&outside)).unwrap_err(),
        DetectError::NoApplicationClass { .. }
    ));
}

#[test]
fn reads_package_declarations() {
    assert_eq!(package_declaration("package com.acme;").as_deref(), Some("com.acme"));
    assert_eq!(package_declaration("  package\tcom.acme.store ;\n").as_deref(), Some("com.acme.store"));
    assert_eq!(package_declaration("\n\npackage\ncom.x\n;").as_deref(), Some("com.x"));
    assert_eq!(package_declaration("// package a.b;\npackage c.d;").as_deref(), Some("c.d"));
    assert_eq!(package_declaration("package _x.été;").as_deref(), Some("_x.été"));
    assert_eq!(package_declaration("packagecom.acme;"), None);
    assert_eq!(package_declaration("package 1com;"), None);
    assert_eq!(package_declaration("package com.acme"), None);
    assert_eq!(package_declaration("package com-acme;"), None);
    assert_eq!(package_declaration("x package a;"), None);
    assert_eq!(package_declaration(""), None);
    assert_eq!(package_declaration("package a b;\npackage c;").as_deref(), Some("c"));
}
