use jack_make::error::{escape_json, write_failure_report};
use jack_make::migration::{Migration, ModelVersion, VersionError, VersionField};
use jack_make::schema::{TacticPolicy, TaskType};

fn text(value: &str) -> VersionField {
    VersionField::Text(value.to_string())
}

fn version(major: u32, minor: u32, patch: u32) -> ModelVersion {
    ModelVersion { major, minor, patch }
}

#[test]
fn a_header_without_a_version_is_of_the_first_schema() {
    let detected =
        ModelVersion::detect(&VersionField::Missing, &VersionField::Missing, &VersionField::Missing);
    assert_eq!(detected, Ok(version(0, 4, 11)));
}

#[test]
fn a_header_with_a_version() {
    assert_eq!(ModelVersion::detect(&text("0"), &text("6"), &text("0")), Ok(version(0, 6, 0)));
    assert_eq!(
        ModelVersion::detect(&text("12"), &text("345"), &text("4294967295")),
        Ok(version(12, 345, 4294967295))
    );
}

#[test]
fn a_header_with_a_broken_version() {
    assert_eq!(
        ModelVersion::detect(&text("0"), &VersionField::Missing, &text("0")),
        Err(VersionError::FieldsMissing)
    );
    assert_eq!(
        ModelVersion::detect(&VersionField::Missing, &VersionField::NotText, &text("0")),
        Err(VersionError::FieldsMissing)
    );
    assert_eq!(
        ModelVersion::detect(&text("0"), &VersionField::NotText, &text("0")),
        Err(VersionError::FieldsNotText)
    );
    assert_eq!(
        ModelVersion::detect(&text("0"), &text("six"), &text("0")),
        Err(VersionError::NotNumbers)
    );
    assert_eq!(
        ModelVersion::detect(&text("0"), &text("6"), &text("4294967296")),
        Err(VersionError::NotNumbers)
    );
    assert_eq!(
        ModelVersion::detect(&text("-1"), &text("6"), &text("0")),
        Err(VersionError::NotNumbers)
    );
}

#[test]
fn every_earlier_schema_is_brought_to_the_current_one_step_by_step() {
    let mut at = version(0, 4, 11);
    let mut steps = Vec::new();
    while let Some(step) = at.next_migration() {
        steps.push(step);
        at = step.target();
    }
    assert_eq!(
        steps,
        vec![
            Migration::From_0_4_11_To_0_5_0,
            Migration::From_0_5_0_To_0_5_1,
            Migration::From_0_5_1_To_0_5_2,
            Migration::From_0_5_2_To_0_5_3,
            Migration::From_0_5_3_To_0_6_0,
        ]
    );
    assert!(at.is_current());
    assert_eq!(at, version(0, 6, 0));
}

#[test]
fn versions_that_need_no_step() {
    assert_eq!(version(0, 6, 0).next_migration(), None);
    assert_eq!(version(0, 5, 4).next_migration(), None);
    assert_eq!(version(1, 4, 0).next_migration(), None);
    assert_eq!(version(0, 4, 0).next_migration(), Some(Migration::From_0_4_11_To_0_5_0));
    assert!(!version(0, 5, 3).is_current());
    assert!(!version(1, 6, 0).is_current());
}

#[test]
fn the_report_that_stands_in_for_a_failed_one() {
    assert_eq!(
        write_failure_report("no luck"),
        "[{ \"keys\" : [], \"machine_keys\" : [], \"error_type\" : \"JsonSerialisationFailure\", \"error_string\" : \"no luck\" }]"
    );
}

#[test]
fn names_of_task_types_and_policies() {
    assert_eq!(TaskType::action.to_string(), "action");
    assert_eq!(TaskType::sleep.to_string(), "sleep");
    assert_eq!(TaskType::goal.to_string(), "goal");
    assert_eq!(TaskType::condition.to_string(), "condition");
    assert_eq!(TaskType::Nil.to_string(), "None");
    assert_eq!(TacticPolicy::default().to_string(), "ExcludePlanAfterAttempt");
    assert_eq!(TacticPolicy::Strict.to_string(), "Strict");
    assert_eq!(TacticPolicy::ChooseBestPlan.to_string(), "ChooseBestPlan");
}

#[test]
fn a_text_as_json_holds_it() {
    assert_eq!(escape_json("plain"), "plain");
    assert_eq!(escape_json(""), "");
    assert_eq!(escape_json("say \"hi\""), "say \\\"hi\\\"");
    assert_eq!(escape_json("a\\b"), "a\\\\b");
    assert_eq!(escape_json("line\nnext\ttab\r"), "line\\u000anext\\u0009tab\\u000d");
    assert_eq!(escape_json("\u{0}\u{1f}"), "\\u0000\\u001f");
    assert_eq!(escape_json("größe \u{7f} 日本"), "größe \u{7f} 日本");
}

#[test]
fn the_failure_report_is_json_whatever_the_message_holds() {
    let messages = [
        "no luck",
        "Model file \"from JSON buffer\" is invalid: 'project' object is missing one of the following, \"major_version\", \"minor_version\" or \"patch_version",
        "back\\slash and \"quote\" and\nnewline\tand tab \u{1} done",
        "",
        "ends with a backslash \\",
    ];
    for message in messages {
        let report = write_failure_report(message);
        let parsed: serde_json::Value = serde_json::from_str(&report).unwrap();
        let list = parsed.as_array().unwrap();
        assert_eq!(list.len(), 1);
        let finding = list[0].as_object().unwrap();
        assert_eq!(finding.len(), 4);
        assert!(finding["keys"].as_array().unwrap().is_empty());
        assert!(finding["machine_keys"].as_array().unwrap().is_empty());
        assert_eq!(finding["error_type"].as_str(), Some("JsonSerialisationFailure"));
        assert_eq!(finding["error_string"].as_str(), Some(message));
    }
}
