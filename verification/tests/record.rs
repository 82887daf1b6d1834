use obirt::artifact::Artifact;
use obirt::record::KeyRecord;

fn text(s: &str) -> Option<String> {
    Some(String::from(s))
}

#[test]
fn empty_record_holds_nothing() {
    let record = KeyRecord::empty();
    assert_eq!(record.private, None);
    assert_eq!(record.public, None);
    assert!(!record.is_present(Artifact::Private));
    assert!(!record.is_present(Artifact::Public));
    assert_eq!(record.text(Artifact::Private), None);
    assert_eq!(record.text(Artifact::Public), None);
}

#[test]
fn new_record_keeps_the_texts_it_is_given() {
    let record = KeyRecord::new(text("secret"), text("open"));
    assert!(record.is_present(Artifact::Private));
    assert!(record.is_present(Artifact::Public));
    assert_eq!(record.text(Artifact::Private), Some("secret"));
    assert_eq!(record.text(Artifact::Public), Some("open"));
}

#[test]
fn one_half_alone_is_a_record_too() {
    let record = KeyRecord::new(None, text("open"));
    assert!(!record.is_present(Artifact::Private));
    assert!(record.is_present(Artifact::Public));
    assert_eq!(record.text(Artifact::Private), None);
    assert_eq!(record.text(Artifact::Public), Some("open"));
}

#[test]
fn an_empty_artifact_still_exists() {
    let record = KeyRecord::new(text(""), None);
    assert!(record.is_present(Artifact::Private));
    assert_eq!(record.text(Artifact::Private), Some(""));
    assert_eq!(record.conflict(), Some(Artifact::Private));
}

#[test]
fn empty_record_has_no_conflict() {
    assert_eq!(KeyRecord::empty().conflict(), None);
}

#[test]
fn conflict_names_the_private_artifact_when_only_it_exists() {
    let record = KeyRecord::new(text("secret"), None);
    assert_eq!(record.conflict(), Some(Artifact::Private));
}

#[test]
fn conflict_names_the_public_artifact_when_only_it_exists() {
    let record = KeyRecord::new(None, text("open"));
    assert_eq!(record.conflict(), Some(Artifact::Public));
}

#[test]
fn conflict_names_the_private_artifact_when_both_exist() {
    let record = KeyRecord::new(text("secret"), text("open"));
    assert_eq!(record.conflict(), Some(Artifact::Private));
}

#[test]
fn looking_for_a_conflict_creates_nothing() {
    let record = KeyRecord::empty();
    assert_eq!(record.conflict(), None);
    assert_eq!(record.conflict(), None);
    assert_eq!(record, KeyRecord::empty());
}
