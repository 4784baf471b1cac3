use sprout::schematics::SchematicOutput;
use sprout::workspace::file_writer::{write_outcome, DiskFileWriter, OverwritePolicy, WriteOutcome};

struct Answer(bool);

impl OverwritePolicy for Answer {
    fn allow_overwrite(&self, _target_display: &str) -> anyhow::Result<bool> {
        Ok(self.0)
    }
}

struct Broken;

impl OverwritePolicy for Broken {
    fn allow_overwrite(&self, target_display: &str) -> anyhow::Result<bool> {
        Err(anyhow::Error::msg(format!("cannot ask about {target_display}")))
    }
}

fn output(path: &str, is_test: bool) -> SchematicOutput {
    SchematicOutput { relative_path: path.to_string(), contents: "class A {}".to_string(), is_test }
}

#[test]
fn outcome_of_each_case() {
    assert_eq!(write_outcome(false, false), WriteOutcome::Created);
    assert_eq!(write_outcome(false, true), WriteOutcome::Created);
    assert_eq!(write_outcome(true, true), WriteOutcome::Overwritten);
    assert_eq!(write_outcome(true, false), WriteOutcome::Skipped);
    assert!(WriteOutcome::Created.persists());
    assert!(WriteOutcome::Overwritten.persists());
    assert!(!WriteOutcome::Skipped.persists());
}

#[test]
fn new_file_is_created_without_asking() {
    let writer = DiskFileWriter::with_policy("/p/src/main/java/com/acme".to_string(), Broken);
    let (target, outcome) = writer.decide(&output("user/User.java", false), false).unwrap();
    assert_eq!(target, "/p/src/main/java/com/acme/user/User.java");
    assert_eq!(outcome, WriteOutcome::Created);
}

#[test]
fn existing_file_follows_the_policy() {
    let yes = DiskFileWriter::with_policy("/base".to_string(), Answer(true));
    let no = DiskFileWriter::with_policy("/base".to_string(), Answer(false));
    assert_eq!(yes.decide(&output("a/B.java", false), true).unwrap().1, WriteOutcome::Overwritten);
    assert_eq!(no.decide(&output("a/B.java", false), true).unwrap().1, WriteOutcome::Skipped);
    let broken = DiskFileWriter::with_policy("/base".to_string(), Broken);
    let err = broken.decide(&output("a/B.java", false), true).unwrap_err();
    assert_eq!(err.to_string(), "cannot ask about /base/a/B.java");
}

#[test]
fn tests_go_below_the_test_base_path() {
    let mut writer = DiskFileWriter::with_policy("/p/main".to_string(), Answer(true));
    assert!(writer.test_base_path.is_none());
    assert_eq!(writer.target(&output("x/XTest.java", true)), "/p/main/x/XTest.java");
    writer.test_base_path = Some("/p/test".to_string());
    assert_eq!(writer.target(&output("x/XTest.java", true)), "/p/test/x/XTest.java");
    assert_eq!(writer.target(&output("x/X.java", false)), "/p/main/x/X.java");
}
