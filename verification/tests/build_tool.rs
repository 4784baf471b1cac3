use sprout::workspace::build_tool::dependency_audit::{install_prompt, AuditReport};
use sprout::workspace::build_tool::gradle::GradleBuildTool;
use sprout::workspace::build_tool::maven::{
    build_snippet, contains_artifact, inject_into_dependencies, locate_main_dependencies_close,
    MavenBuildTool,
};
use sprout::workspace::build_tool::{
    coordinate_text, dependencies_for_kinds, detect, required_dependencies_for_kinds, BuildTool,
    BuildToolError, BuildToolKind, DepKind, DependencyCoord, DetectedBuildTool,
};

const POM: &str = r#"<project>
    <dependencies>
        <dependency>
            <groupId>org.springframework.boot</groupId>
            <artifactId>spring-boot-starter-web</artifactId>
        </dependency>
    </dependencies>
</project>
"#;

const MANAGED_POM: &str = r#"<project>
    <dependencyManagement>
        <dependencies>
            <dependency>
                <groupId>org.springframework.boot</groupId>
                <artifactId>spring-boot-dependencies</artifactId>
                <version>3.3.0</version>
                <type>pom</type>
                <scope>import</scope>
            </dependency>
        </dependencies>
    </dependencyManagement>
    <dependencies>
        <dependency>
            <groupId>org.springframework.boot</groupId>
            <artifactId>spring-boot-starter-web</artifactId>
        </dependency>
    </dependencies>
</project>
"#;

fn mapstruct() -> DependencyCoord {
    DependencyCoord {
        group_id: "org.mapstruct",
        artifact_id: "mapstruct",
        version: Some("1.5.5.Final"),
        purpose: "",
    }
}

#[test]
fn detects_present_artifact() {
    assert!(contains_artifact(POM, "spring-boot-starter-web"));
}

#[test]
fn detects_missing_artifact() {
    assert!(!contains_artifact(POM, "mapstruct"));
}

#[test]
fn injects_dependency_before_closing_tag() {
    let dep = mapstruct();
    let injected = inject_into_dependencies(POM, &build_snippet(&dep)).unwrap();
    assert!(injected.contains("<artifactId>mapstruct</artifactId>"));
    assert!(injected.contains("<version>1.5.5.Final</version>"));
    let close_idx = injected.find("</dependencies>").unwrap();
    let mapstruct_idx = injected.find("mapstruct").unwrap();
    assert!(mapstruct_idx < close_idx);
}

#[test]
fn skips_dependency_management_block() {
    let dep = mapstruct();
    let injected = inject_into_dependencies(MANAGED_POM, &build_snippet(&dep)).unwrap();
    let mapstruct_idx = injected.find("<artifactId>mapstruct</artifactId>").unwrap();
    let mgmt_close = injected.find("</dependencyManagement>").unwrap();
    assert!(
        mapstruct_idx > mgmt_close,
        "mapstruct must land in the project-level <dependencies>, not in dependencyManagement"
    );
}

#[test]
fn artifact_tags_allow_surrounding_white_space() {
    let pom = "<artifactId>\n   lombok \t</artifactId>";
    assert!(contains_artifact(pom, "lombok"));
    assert!(!contains_artifact(pom, "lom"));
    assert!(!contains_artifact(pom, " lombok"));
    assert!(!contains_artifact("<artifactId></artifactId>", ""));
    assert!(!contains_artifact("<artifactId>a b</artifactId>", "a b"));
    assert!(!contains_artifact("<artifactId>lombok</artifactid>", "lombok"));
    assert!(contains_artifact("x<artifactId>a</artifactId><artifactId>b</artifactId>", "b"));
}

#[test]
fn snippet_layout() {
    let with_version = build_snippet(&mapstruct());
    assert_eq!(
        with_version,
        "        <dependency>\n            <groupId>org.mapstruct</groupId>\n            <artifactId>mapstruct</artifactId>\n            <version>1.5.5.Final</version>\n        </dependency>\n"
    );
    let managed = DependencyCoord { group_id: "g", artifact_id: "a", version: None, purpose: "" };
    assert_eq!(
        build_snippet(&managed),
        "        <dependency>\n            <groupId>g</groupId>\n            <artifactId>a</artifactId>\n        </dependency>\n"
    );
}

#[test]
fn locates_project_level_close() {
    let idx = locate_main_dependencies_close(POM).unwrap();
    assert!(POM[idx..].starts_with("</dependencies>"));
    let managed = locate_main_dependencies_close(MANAGED_POM).unwrap();
    let chars: Vec<char> = MANAGED_POM.chars().collect();
    let tail: String = chars[managed..].iter().collect();
    assert!(tail.starts_with("</dependencies>\n</project>"));
    assert_eq!(locate_main_dependencies_close("<project></project>"), None);
}

#[test]
fn project_dependencies_before_the_management_block() {
    let pom = "<dependencies></dependencies><dependencyManagement><dependencies></dependencies></dependencyManagement>";
    assert_eq!(locate_main_dependencies_close(pom), Some(14));
    let injected = inject_into_dependencies(pom, "X").unwrap();
    assert_eq!(
        injected,
        "<dependencies>X</dependencies><dependencyManagement><dependencies></dependencies></dependencyManagement>"
    );
    let only_managed = "<dependencyManagement><dependencies></dependencies></dependencyManagement>";
    assert_eq!(locate_main_dependencies_close(only_managed), None);
}

#[test]
fn injection_fails_without_dependencies_block() {
    let r = inject_into_dependencies("<project></project>", "x");
    assert!(matches!(r, Err(BuildToolError::DependenciesBlockNotFound)));
    assert_eq!(
        r.unwrap_err().message(),
        "could not locate the project-level </dependencies> in pom.xml; add the snippet manually"
    );
}

#[test]
fn injection_keeps_the_rest_of_the_pom() {
    let injected = inject_into_dependencies(POM, "SNIPPET").unwrap();
    assert_eq!(injected.replacen("SNIPPET", "", 1), POM);
    assert!(injected.contains("    SNIPPET</dependencies>"));
}

#[test]
fn maven_install_then_declared() {
    let tool = MavenBuildTool::new("pom.xml".to_string());
    assert_eq!(tool.kind(), BuildToolKind::Maven);
    assert_eq!(tool.manifest_path(), "pom.xml");
    let dep = mapstruct();
    assert!(!tool.has_dependency(POM, dep.artifact_id));
    let updated = tool.install(POM, &dep).unwrap();
    assert!(tool.has_dependency(&updated, dep.artifact_id));
    assert!(tool.has_dependency(&updated, "spring-boot-starter-web"));
}

#[test]
fn gradle_install_then_declared() {
    let tool = GradleBuildTool::new("build.gradle".to_string());
    assert_eq!(tool.kind(), BuildToolKind::Gradle);
    let managed = DependencyCoord {
        group_id: "org.springframework.boot",
        artifact_id: "spring-boot-starter-validation",
        version: None,
        purpose: "",
    };
    let gradle = "plugins {}\n\ndependencies {\n    implementation(\"x:y:1\")\n}\n";
    assert!(!tool.has_dependency(gradle, managed.artifact_id));
    assert!(tool.has_dependency(gradle, "y"));
    let updated = tool.install(gradle, &managed).unwrap();
    assert_eq!(
        updated,
        "plugins {}\n\ndependencies {\n    implementation(\"org.springframework.boot:spring-boot-starter-validation\")\n    implementation(\"x:y:1\")\n}\n"
    );
    assert!(tool.has_dependency(&updated, managed.artifact_id));

    let fresh = tool.install("plugins {}", &mapstruct()).unwrap();
    assert_eq!(
        fresh,
        "plugins {}\ndependencies {\n    implementation(\"org.mapstruct:mapstruct:1.5.5.Final\")\n}\n"
    );
    assert!(tool.has_dependency(&fresh, "mapstruct"));

    let unterminated = tool.install("dependencies {", &mapstruct()).unwrap();
    assert_eq!(
        unterminated,
        "dependencies {    implementation(\"org.mapstruct:mapstruct:1.5.5.Final\")\n"
    );
}

#[test]
fn gradle_install_into_an_empty_inline_block() {
    let tool = GradleBuildTool::new("build.gradle".to_string());
    let updated = tool.install("dependencies {}", &mapstruct()).unwrap();
    assert_eq!(
        updated,
        "dependencies {\n    implementation(\"org.mapstruct:mapstruct:1.5.5.Final\")\n}"
    );
    assert!(tool.has_dependency(&updated, "mapstruct"));
    let spaced = tool.install("dependencies {  }\n", &mapstruct()).unwrap();
    assert_eq!(
        spaced,
        "dependencies {\n    implementation(\"org.mapstruct:mapstruct:1.5.5.Final\")\n  }\n"
    );
    let commented = tool.install("dependencies { // c\n}\n", &mapstruct()).unwrap();
    assert_eq!(
        commented,
        "dependencies { // c\n    implementation(\"org.mapstruct:mapstruct:1.5.5.Final\")\n}\n"
    );
    let closed_later = tool.install("dependencies {\n}\n", &mapstruct()).unwrap();
    assert_eq!(
        closed_later,
        "dependencies {\n    implementation(\"org.mapstruct:mapstruct:1.5.5.Final\")\n}\n"
    );
}

#[test]
fn gradle_single_quoted_coordinates_are_declared() {
    let tool = GradleBuildTool::new("build.gradle".to_string());
    let manifest = "dependencies {\n    implementation 'org.springframework.boot:spring-boot-starter-validation'\n    implementation 'org.mapstruct:mapstruct:1.5.5.Final'\n}\n";
    assert!(tool.has_dependency(manifest, "spring-boot-starter-validation"));
    assert!(tool.has_dependency(manifest, "mapstruct"));
    assert!(!tool.has_dependency(manifest, "spring-boot-starter-data-jpa"));
}

#[test]
fn dependency_groups() {
    let deps = required_dependencies_for_kinds(&[DepKind::Common, DepKind::Jpa, DepKind::Mongo]);
    let ids: Vec<&str> = deps.iter().map(|d| d.artifact_id).collect();
    assert_eq!(
        ids,
        vec![
            "mapstruct",
            "spring-boot-starter-validation",
            "spring-boot-starter-data-jpa",
            "spring-boot-starter-data-mongodb"
        ]
    );
    assert!(dependencies_for_kinds(&[]).is_empty());
    let mongo = dependencies_for_kinds(&[DepKind::Mongo, DepKind::Mongo]);
    assert_eq!(mongo.len(), 2);
    assert_eq!(coordinate_text(&deps[0]), "org.mapstruct:mapstruct:1.5.5.Final");
    assert_eq!(
        coordinate_text(&deps[1]),
        "org.springframework.boot:spring-boot-starter-validation"
    );
}

#[test]
fn detects_build_tool_by_manifest() {
    let all = vec![
        "/p/pom.xml".to_string(),
        "/p/build.gradle".to_string(),
        "/p/build.gradle.kts".to_string(),
    ];
    match detect("/p", &all).unwrap() {
        DetectedBuildTool::Maven(m) => assert_eq!(m.manifest_path(), "/p/pom.xml"),
        DetectedBuildTool::Gradle(_) => panic!("pom.xml comes first"),
    }
    match detect("/p", &all[1..].to_vec()).unwrap() {
        DetectedBuildTool::Gradle(g) => assert_eq!(g.manifest_path(), "/p/build.gradle"),
        DetectedBuildTool::Maven(_) => panic!("no pom"),
    }
    match detect("/p/", &vec!["/p/build.gradle.kts".to_string()]).unwrap() {
        DetectedBuildTool::Gradle(g) => assert_eq!(g.manifest_path(), "/p/build.gradle.kts"),
        DetectedBuildTool::Maven(_) => panic!("no pom"),
    }
    let err = match detect("/p", &vec![]) {
        Err(e) => e,
        Ok(_) => panic!("nothing exists"),
    };
    assert_eq!(
        err.message(),
        "no build manifest found (pom.xml or build.gradle[.kts]) at /p"
    );
    assert_eq!(BuildToolKind::Maven.label(), "Maven (pom.xml)");
    assert_eq!(BuildToolKind::Gradle.label(), "Gradle (build.gradle)");
    assert_eq!(BuildToolKind::Gradle.name(), "Gradle");
}

#[test]
fn install_prompt_wording() {
    let one = AuditReport { missing: vec![mapstruct()] };
    assert!(!one.is_clean());
    assert_eq!(install_prompt(&one), "Would you like Sprout to add the missing dependency now?");
    let two = AuditReport { missing: vec![mapstruct(), mapstruct()] };
    assert_eq!(
        install_prompt(&two),
        "Would you like Sprout to add the missing dependencies now?"
    );
    assert!(AuditReport { missing: vec![] }.is_clean());
}
