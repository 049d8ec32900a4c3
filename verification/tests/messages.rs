use file_commands::failure::{IoFailure, Stage};

#[test]
fn label_of_each_stage() {
    assert_eq!(Stage::Create.label_str(), "Failed to create file");
    assert_eq!(Stage::Write.label_str(), "Failed to write to file");
    assert_eq!(Stage::Open.label_str(), "Failed to open file");
    assert_eq!(Stage::Read.label_str(), "Failed to read file");
}

#[test]
fn message_is_label_colon_space_detail() {
    let failure = IoFailure::at(Stage::Create, "Permission denied (os error 13)");
    assert_eq!(failure.message, "Failed to create file: Permission denied (os error 13)");
    let failure = IoFailure::at(Stage::Write, "No space left on device (os error 28)");
    assert_eq!(failure.message, "Failed to write to file: No space left on device (os error 28)");
    let failure = IoFailure::at(Stage::Open, "No such file or directory (os error 2)");
    assert_eq!(failure.message, "Failed to open file: No such file or directory (os error 2)");
    let failure = IoFailure::at(Stage::Read, "stream did not contain valid UTF-8");
    assert_eq!(failure.message, "Failed to read file: stream did not contain valid UTF-8");
}

#[test]
fn message_with_empty_detail() {
    assert_eq!(IoFailure::at(Stage::Open, "").message, "Failed to open file: ");
}

#[test]
fn message_keeps_multi_byte_detail() {
    let failure = IoFailure::at(Stage::Read, "données illisibles – 読めません");
    assert_eq!(failure.message, "Failed to read file: données illisibles – 読めません");
}

#[test]
fn message_starts_with_label() {
    let stages = [Stage::Create, Stage::Write, Stage::Open, Stage::Read];
    for stage in stages {
        let failure = IoFailure::at(stage, "x");
        assert!(failure.message.starts_with(stage.label_str()));
        assert_eq!(failure.message.len(), stage.label_str().len() + 3);
    }
}

#[test]
fn messages_of_different_stages_differ() {
    let stages = [Stage::Create, Stage::Write, Stage::Open, Stage::Read];
    for a in stages {
        for b in stages {
            let same = IoFailure::at(a, "denied").message == IoFailure::at(b, "denied").message;
            assert_eq!(same, a == b);
        }
    }
}

#[test]
fn into_message_gives_the_message() {
    let failure = IoFailure::at(Stage::Create, "denied");
    assert_eq!(failure.into_message(), String::from("Failed to create file: denied"));
}
