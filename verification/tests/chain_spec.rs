use node_command::chain_spec::{same_text, SpecSource};

#[test]
fn dev_and_development_select_the_development_preset() {
    assert_eq!(SpecSource::from_id("dev"), SpecSource::Development);
    assert_eq!(SpecSource::from_id("development"), SpecSource::Development);
    assert_eq!(SpecSource::from_id("dev"), SpecSource::from_id("development"));
}

#[test]
fn empty_and_local_select_the_local_preset() {
    assert_eq!(SpecSource::from_id(""), SpecSource::LocalTestnet);
    assert_eq!(SpecSource::from_id("local"), SpecSource::LocalTestnet);
    assert_eq!(SpecSource::from_id(""), SpecSource::from_id("local"));
}

#[test]
fn presets_differ() {
    assert_ne!(SpecSource::from_id("dev"), SpecSource::from_id("local"));
}

#[test]
fn any_other_identifier_is_a_path() {
    assert_eq!(
        SpecSource::from_id("/etc/node/chain.json"),
        SpecSource::File("/etc/node/chain.json".to_string())
    );
    assert_eq!(SpecSource::from_id("staging"), SpecSource::File("staging".to_string()));
}

#[test]
fn identifiers_are_matched_exactly() {
    assert_eq!(SpecSource::from_id("Dev"), SpecSource::File("Dev".to_string()));
    assert_eq!(SpecSource::from_id("dev "), SpecSource::File("dev ".to_string()));
    assert_eq!(SpecSource::from_id(" "), SpecSource::File(" ".to_string()));
    assert_eq!(SpecSource::from_id("develop"), SpecSource::File("develop".to_string()));
    assert_eq!(SpecSource::from_id("localhost"), SpecSource::File("localhost".to_string()));
    assert_eq!(SpecSource::from_id("LOCAL"), SpecSource::File("LOCAL".to_string()));
}

#[test]
fn path_is_kept_as_given() {
    let id = "./specs/ünïcode spec.json";
    assert_eq!(SpecSource::from_id(id), SpecSource::File(id.to_string()));
}

#[test]
fn presets_are_presets_and_files_are_not() {
    assert!(SpecSource::Development.is_preset());
    assert!(SpecSource::LocalTestnet.is_preset());
    assert!(!SpecSource::File("chain.json".to_string()).is_preset());
    assert!(!SpecSource::from_id("chain.json").is_preset());
}

#[test]
fn clone_keeps_the_source() {
    let file = SpecSource::File("chain.json".to_string());
    assert_eq!(file.clone(), file);
    assert_eq!(SpecSource::Development.clone(), SpecSource::Development);
    assert_eq!(SpecSource::LocalTestnet.clone(), SpecSource::LocalTestnet);
}

#[test]
fn same_text_compares_contents() {
    assert!(same_text("", ""));
    assert!(same_text("dev", "dev"));
    assert!(!same_text("dev", "development"));
    assert!(!same_text("dev", "deV"));
    assert!(!same_text("", " "));
}
