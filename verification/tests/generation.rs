use sprout::cli::schematic_kind::SchematicKind;
use sprout::context::architecture::{Architecture, ArtifactKind};
use sprout::context::dto_style::DtoStyle;
use sprout::context::generation_context::{
    build_package_map, questions_for, GenerationContext, Question,
};
use sprout::context::persistence::Persistence;
use sprout::prompts::{
    architecture_choice, dto_style_choice, persistence_choice, InteractivePrompter,
};
use sprout::schematics::registry::SchematicRegistry;
use sprout::schematics::{write_target, OutputPlan, SchematicOutput};
use sprout::workspace::build_tool::dependency_audit::audit;
use sprout::workspace::build_tool::gradle::GradleBuildTool;
use sprout::workspace::build_tool::maven::MavenBuildTool;
use sprout::workspace::build_tool::BuildTool;
use sprout::workspace::folder_conventions::FolderConventions;
use sprout::workspace::project_detector::{ProjectContext, ProjectDetector, SourceFile};
use sprout::{resolve_kind, resolve_name};

/// Answers as the program does without a terminal: from the settings given,
/// else the defaults.
struct Settings {
    architecture: Option<&'static str>,
    dto_style: Option<&'static str>,
    persistence: Option<&'static str>,
}

impl InteractivePrompter for Settings {
    fn ask_schematic_kind(&self) -> anyhow::Result<SchematicKind> {
        Ok(SchematicKind::Entity)
    }
    fn ask_name(&self, _kind: SchematicKind) -> anyhow::Result<String> {
        Ok("asked".to_string())
    }
    fn ask_architecture(&self) -> anyhow::Result<Architecture> {
        architecture_choice(self.architecture, true).ok_or_else(|| anyhow::Error::msg("asked"))
    }
    fn ask_dto_style(&self) -> anyhow::Result<DtoStyle> {
        dto_style_choice(self.dto_style, true).ok_or_else(|| anyhow::Error::msg("asked"))
    }
    fn ask_persistence(&self) -> anyhow::Result<Persistence> {
        persistence_choice(self.persistence, true).ok_or_else(|| anyhow::Error::msg("asked"))
    }
}

struct Closed;

impl InteractivePrompter for Closed {
    fn ask_schematic_kind(&self) -> anyhow::Result<SchematicKind> {
        Err(anyhow::Error::msg("no terminal"))
    }
    fn ask_name(&self, _kind: SchematicKind) -> anyhow::Result<String> {
        Err(anyhow::Error::msg("no terminal"))
    }
    fn ask_architecture(&self) -> anyhow::Result<Architecture> {
        Err(anyhow::Error::msg("no terminal"))
    }
    fn ask_dto_style(&self) -> anyhow::Result<DtoStyle> {
        Err(anyhow::Error::msg("no terminal"))
    }
    fn ask_persistence(&self) -> anyhow::Result<Persistence> {
        Err(anyhow::Error::msg("no terminal"))
    }
}

fn demo_project(root: &str) -> ProjectContext {
    let files = vec![SourceFile {
        path: format!("{root}/src/main/java/com/acme/demo/DemoApplication.java"),
        contents: "package com.acme.demo;\nimport org.springframework.boot.autoconfigure.SpringBootApplication;\n@SpringBootApplication\npublic class DemoApplication {}".to_string(),
    }];
    ProjectDetector::detect_from(root, Some(&files)).unwrap()
}

fn targets(project: &ProjectContext, plans: &[OutputPlan]) -> Vec<String> {
    let test_base = project.test_base_path();
    plans
        .iter()
        .map(|p| {
            let out = SchematicOutput {
                relative_path: p.relative_path.clone(),
                contents: String::new(),
                is_test: p.is_test,
            };
            write_target(project.base_path(), Some(test_base.as_str()), &out)
        })
        .collect()
}

#[test]
fn test_cli_generate_resource_non_interactive() {
    let project = demo_project("/tmp/t1");
    let prompter = Settings { architecture: None, dto_style: None, persistence: None };
    let kind = resolve_kind(Some(SchematicKind::Resource), &prompter).unwrap();
    let name = resolve_name(Some("product".to_string()), kind, &prompter).unwrap();
    let ctx = GenerationContext::build(kind, &name, &project, &prompter, false, &vec![]).unwrap();
    let plans = SchematicRegistry::resolve(kind, &ctx);
    let written = targets(&project, &plans);
    let main_java = "/tmp/t1/src/main/java/com/acme/demo";
    let test_java = "/tmp/t1/src/test/java/com/acme/demo";
    assert!(written.contains(&format!("{main_java}/product/entity/Product.java")));
    assert!(written.contains(&format!("{main_java}/product/controller/ProductController.java")));
    assert!(written.contains(&format!("{test_java}/product/service/ProductServiceTest.java")));
    assert!(written.contains(&format!("{test_java}/product/controller/ProductControllerTest.java")));
    assert_eq!(written.len(), 10);
}

#[test]
fn test_cli_generate_mongo_and_class_style_non_interactive() {
    let project = demo_project("/tmp/t2");
    let prompter = Settings { architecture: None, dto_style: Some("class"), persistence: Some("mongo") };
    let ctx = GenerationContext::build(
        SchematicKind::Resource,
        "customer",
        &project,
        &prompter,
        false,
        &vec![],
    )
    .unwrap();
    assert_eq!(ctx.persistence, Persistence::MongoDb);
    assert_eq!(ctx.dto_style, DtoStyle::Class);
    assert!(!ctx.is_jpa);
    assert_eq!(ctx.id_type, "String");
    assert_eq!(ctx.repository_base_class, "MongoRepository");
    let plans = SchematicRegistry::resolve(SchematicKind::Resource, &ctx);
    let written = targets(&project, &plans);
    let main_java = "/tmp/t2/src/main/java/com/acme/demo";
    let test_java = "/tmp/t2/src/test/java/com/acme/demo";
    assert!(written.contains(&format!("{main_java}/customer/entity/Customer.java")));
    assert!(written.contains(&format!("{main_java}/customer/repository/CustomerRepository.java")));
    assert!(written.contains(&format!("{test_java}/customer/service/CustomerServiceTest.java")));
    assert_eq!(plans[0].template, "entity/mongo.java.tera");
    assert_eq!(plans[1].template, "repository/mongo.java.tera");
    assert_eq!(plans[2].template, "dto/request_class.java.tera");
    assert_eq!(plans[3].template, "dto/response_class.java.tera");
}

#[test]
fn resource_plan_order_and_templates() {
    let project = demo_project("/tmp/t3");
    let ctx = GenerationContext::assemble(
        "user-account",
        &project,
        Architecture::Modular,
        DtoStyle::Record,
        Persistence::JpaRelational,
        &vec![],
        false,
    );
    let plans = SchematicRegistry::resolve(SchematicKind::Resource, &ctx);
    let got: Vec<(&str, &str, bool)> =
        plans.iter().map(|p| (p.relative_path.as_str(), p.template, p.is_test)).collect();
    assert_eq!(
        got,
        vec![
            ("user-account/entity/UserAccount.java", "entity/jpa.java.tera", false),
            ("user-account/repository/UserAccountRepository.java", "repository/jpa.java.tera", false),
            ("user-account/dto/UserAccountRequest.java", "dto/request_record.java.tera", false),
            ("user-account/dto/UserAccountResponse.java", "dto/response_record.java.tera", false),
            ("user-account/mapper/UserAccountMapper.java", "mapper/mapstruct.java.tera", false),
            ("user-account/service/UserAccountService.java", "service/interface.java.tera", false),
            ("user-account/service/UserAccountServiceImpl.java", "service/implementation.java.tera", false),
            ("user-account/controller/UserAccountController.java", "controller/controller.java.tera", false),
            ("user-account/service/UserAccountServiceTest.java", "test/service_test.java.tera", true),
            ("user-account/controller/UserAccountControllerTest.java", "test/controller_test.java.tera", true),
        ]
    );
    assert_eq!(ctx.packages.entity, "com.acme.demo.user-account.entity");
    assert_eq!(ctx.packages.controller, "com.acme.demo.user-account.controller");
}

#[test]
fn skip_test_drops_the_tests() {
    let project = demo_project("/tmp/t4");
    let ctx = GenerationContext::assemble(
        "order",
        &project,
        Architecture::Layered,
        DtoStyle::Record,
        Persistence::JpaRelational,
        &vec![],
        true,
    );
    let plans = SchematicRegistry::resolve(SchematicKind::Resource, &ctx);
    assert_eq!(plans.len(), 8);
    assert!(plans.iter().all(|p| !p.is_test));
    assert_eq!(plans[0].relative_path, "entity/Order.java");
    assert_eq!(ctx.packages.entity, "com.acme.demo.entity");
}

#[test]
fn hexagonal_layout_and_packages() {
    let project = demo_project("/tmp/t5");
    let ctx = GenerationContext::assemble(
        "user",
        &project,
        Architecture::Hexagonal,
        DtoStyle::Record,
        Persistence::JpaRelational,
        &vec![],
        true,
    );
    assert_eq!(ctx.packages.entity, "com.acme.demo.user.domain.model");
    assert_eq!(ctx.packages.dto, "com.acme.demo.user.application.dto");
    assert_eq!(ctx.packages.service, "com.acme.demo.user.application");
    assert_eq!(ctx.packages.controller, "com.acme.demo.user.infrastructure.web");
    assert_eq!(ctx.packages.mapper, "com.acme.demo.user.infrastructure.mapper");
    assert_eq!(ctx.packages.repository, "com.acme.demo.user.infrastructure.persistence");
    let plans = SchematicRegistry::resolve(SchematicKind::Repository, &ctx);
    assert_eq!(plans.len(), 1);
    assert_eq!(plans[0].relative_path, "user/infrastructure/persistence/UserRepository.java");
}

#[test]
fn detected_conventions_shape_paths_and_packages() {
    let project = demo_project("/tmp/t6");
    let existing = vec!["/tmp/t6/src/main/java/com/acme/demo/user/model".to_string()];
    let ctx = GenerationContext::assemble(
        "user",
        &project,
        Architecture::Modular,
        DtoStyle::Record,
        Persistence::JpaRelational,
        &existing,
        true,
    );
    assert_eq!(ctx.conventions.entity.as_deref(), Some("model"));
    assert_eq!(ctx.packages.entity, "com.acme.demo.user.model");
    let plans = SchematicRegistry::resolve(SchematicKind::Entity, &ctx);
    assert_eq!(plans[0].relative_path, "user/model/User.java");
    let layered = Architecture::Layered.path_for("user", ArtifactKind::Entity, &ctx.conventions);
    assert_eq!(layered, "model");
}

#[test]
fn single_schematics_ask_only_what_they_need() {
    let project = demo_project("/tmp/t7");
    let prompter = Settings { architecture: Some("layered"), dto_style: Some("class"), persistence: Some("mongo") };
    let ctx = SchematicKind::Service
        .collect_context("invoice", &project, &prompter, false, &vec![])
        .unwrap();
    assert_eq!(ctx.architecture, Architecture::Layered);
    assert_eq!(ctx.dto_style, DtoStyle::Record);
    assert_eq!(ctx.persistence, Persistence::JpaRelational);
    let plans = SchematicRegistry::resolve(SchematicKind::Service, &ctx);
    let paths: Vec<&str> = plans.iter().map(|p| p.relative_path.as_str()).collect();
    assert_eq!(paths, vec!["service/InvoiceService.java", "service/InvoiceServiceImpl.java"]);
    let dto = SchematicKind::Dto.collect_context("invoice", &project, &prompter, false, &vec![]).unwrap();
    assert_eq!(dto.dto_style, DtoStyle::Class);
    assert_eq!(dto.persistence, Persistence::JpaRelational);
    let entity = SchematicKind::Entity.collect_context("invoice", &project, &prompter, false, &vec![]).unwrap();
    assert_eq!(entity.persistence, Persistence::MongoDb);
    assert_eq!(entity.dto_style, DtoStyle::Record);
    for kind in [SchematicKind::Controller, SchematicKind::Mapper] {
        let plans = SchematicRegistry::resolve(kind, &ctx);
        assert_eq!(plans.len(), 1);
    }
}

#[test]
fn failed_question_fails_the_context() {
    let project = demo_project("/tmp/t8");
    assert!(GenerationContext::build(SchematicKind::Resource, "x", &project, &Closed, false, &vec![]).is_err());
    assert!(resolve_kind(None, &Closed).is_err());
    assert_eq!(resolve_kind(Some(SchematicKind::Dto), &Closed).unwrap(), SchematicKind::Dto);
    assert_eq!(resolve_name(Some("n".to_string()), SchematicKind::Dto, &Closed).unwrap(), "n");
    let s = Settings { architecture: None, dto_style: None, persistence: None };
    assert_eq!(resolve_kind(None, &s).unwrap(), SchematicKind::Entity);
    assert_eq!(resolve_name(None, SchematicKind::Entity, &s).unwrap(), "asked");
}

#[test]
fn audit_reports_missing_dependencies_in_order() {
    let project = demo_project("/tmp/t9");
    let jpa = GenerationContext::assemble(
        "user",
        &project,
        Architecture::Modular,
        DtoStyle::Record,
        Persistence::JpaRelational,
        &vec![],
        false,
    );
    let gradle = GradleBuildTool::new("build.gradle".to_string());
    let report = audit(&gradle, "dependencies {}", &jpa);
    let ids: Vec<&str> = report.missing.iter().map(|d| d.artifact_id).collect();
    assert_eq!(ids, vec!["mapstruct", "spring-boot-starter-validation", "spring-boot-starter-data-jpa"]);
    let mut manifest = "dependencies {\n}\n".to_string();
    for dep in &report.missing {
        manifest = sprout::workspace::build_tool::BuildTool::install(&gradle, &manifest, dep).unwrap();
    }
    assert!(audit(&gradle, &manifest, &jpa).is_clean());

    let mongo = GenerationContext::assemble(
        "user",
        &project,
        Architecture::Modular,
        DtoStyle::Record,
        Persistence::MongoDb,
        &vec![],
        false,
    );
    let maven = MavenBuildTool::new("pom.xml".to_string());
    let pom = "<project><dependencies><dependency><artifactId>mapstruct</artifactId></dependency></dependencies></project>";
    let report = audit(&maven, pom, &mongo);
    let ids: Vec<&str> = report.missing.iter().map(|d| d.artifact_id).collect();
    assert_eq!(ids, vec!["spring-boot-starter-validation", "spring-boot-starter-data-mongodb"]);
}

#[test]
fn installing_missing_dependencies_cleans_the_audit() {
    let project = demo_project("/tmp/t10");
    let mongo = GenerationContext::assemble(
        "user",
        &project,
        Architecture::Modular,
        DtoStyle::Record,
        Persistence::MongoDb,
        &vec![],
        false,
    );
    let maven = MavenBuildTool::new("pom.xml".to_string());
    let mut pom = "<project>\n  <dependencies>\n    <dependency><artifactId> mapstruct </artifactId></dependency>\n  </dependencies>\n</project>\n".to_string();
    let report = audit(&maven, &pom, &mongo);
    assert_eq!(report.missing.len(), 2);
    for dep in &report.missing {
        pom = maven.install(&pom, dep).unwrap();
        assert!(maven.has_dependency(&pom, "mapstruct"));
    }
    assert!(audit(&maven, &pom, &mongo).is_clean());

    let gradle = GradleBuildTool::new("build.gradle".to_string());
    let mut build = "plugins {}\n".to_string();
    let report = audit(&gradle, &build, &mongo);
    assert_eq!(report.missing.len(), 3);
    for dep in &report.missing {
        build = gradle.install(&build, dep).unwrap();
    }
    assert!(audit(&gradle, &build, &mongo).is_clean());
}

#[test]
fn package_map_without_suffix_uses_base_package() {
    let conv = FolderConventions::default();
    let map = build_package_map("com.acme", &Architecture::Layered, "user", &conv);
    assert_eq!(map.service, "com.acme.service");
    assert_eq!(map.dto, "com.acme.dto");
    let modular = build_package_map("com.acme", &Architecture::Modular, "user", &conv);
    assert_eq!(modular.repository, "com.acme.user.repository");
}

#[test]
fn write_target_uses_test_base_only_for_tests() {
    let out = SchematicOutput { relative_path: "a/B.java".to_string(), contents: String::new(), is_test: true };
    assert_eq!(write_target("/main", Some("/test"), &out), "/test/a/B.java");
    assert_eq!(write_target("/main", None, &out), "/main/a/B.java");
    let main = SchematicOutput { relative_path: "a/B.java".to_string(), contents: String::new(), is_test: false };
    assert_eq!(write_target("/main/", Some("/test"), &main), "/main/a/B.java");
}

/// Records the questions asked; fails the one named in `fail_on`.
struct Recorder {
    asked: std::cell::RefCell<Vec<&'static str>>,
    fail_on: Option<&'static str>,
}

impl Recorder {
    fn answer<T>(&self, what: &'static str, value: T) -> anyhow::Result<T> {
        self.asked.borrow_mut().push(what);
        if self.fail_on == Some(what) {
            Err(anyhow::Error::msg(what))
        } else {
            Ok(value)
        }
    }
}

impl InteractivePrompter for Recorder {
    fn ask_schematic_kind(&self) -> anyhow::Result<SchematicKind> {
        self.answer("kind", SchematicKind::Resource)
    }
    fn ask_name(&self, _kind: SchematicKind) -> anyhow::Result<String> {
        self.answer("name", "user".to_string())
    }
    fn ask_architecture(&self) -> anyhow::Result<Architecture> {
        self.answer("architecture", Architecture::Layered)
    }
    fn ask_dto_style(&self) -> anyhow::Result<DtoStyle> {
        self.answer("dto", DtoStyle::Class)
    }
    fn ask_persistence(&self) -> anyhow::Result<Persistence> {
        self.answer("persistence", Persistence::MongoDb)
    }
}

#[test]
fn questions_follow_the_schematic() {
    assert_eq!(
        questions_for(SchematicKind::Resource),
        vec![Question::Architecture, Question::DtoStyle, Question::Persistence]
    );
    assert_eq!(questions_for(SchematicKind::Dto), vec![Question::Architecture, Question::DtoStyle]);
    assert_eq!(questions_for(SchematicKind::Entity), vec![Question::Architecture, Question::Persistence]);
    assert_eq!(questions_for(SchematicKind::Service), vec![Question::Architecture]);
}

#[test]
fn build_asks_in_order_and_stops_at_the_first_failure() {
    let project = demo_project("/tmp/t11");
    let all = Recorder { asked: std::cell::RefCell::new(Vec::new()), fail_on: None };
    let ctx = GenerationContext::build(SchematicKind::Resource, "user", &project, &all, false, &vec![]).unwrap();
    assert_eq!(*all.asked.borrow(), vec!["architecture", "dto", "persistence"]);
    assert_eq!(ctx.architecture, Architecture::Layered);
    assert_eq!(ctx.dto_style, DtoStyle::Class);
    assert_eq!(ctx.persistence, Persistence::MongoDb);

    let service = Recorder { asked: std::cell::RefCell::new(Vec::new()), fail_on: None };
    let ctx = GenerationContext::build(SchematicKind::Service, "user", &project, &service, false, &vec![]).unwrap();
    assert_eq!(*service.asked.borrow(), vec!["architecture"]);
    assert_eq!(ctx.dto_style, DtoStyle::Record);
    assert_eq!(ctx.persistence, Persistence::JpaRelational);

    let failing = Recorder { asked: std::cell::RefCell::new(Vec::new()), fail_on: Some("dto") };
    let err = GenerationContext::build(SchematicKind::Resource, "user", &project, &failing, false, &vec![]).unwrap_err();
    assert_eq!(err.to_string(), "dto");
    assert_eq!(*failing.asked.borrow(), vec!["architecture", "dto"]);
}
