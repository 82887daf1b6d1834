use obirt::artifact::Artifact;

#[test]
fn private_artifact_lives_in_private_txt() {
    assert_eq!(Artifact::Private.path(), "./private.txt");
}

#[test]
fn public_artifact_lives_in_public_txt() {
    assert_eq!(Artifact::Public.path(), "./public.txt");
}

#[test]
fn each_artifact_has_its_own_notice() {
    assert_eq!(Artifact::Private.notice(), "Private key already exists");
    assert_eq!(Artifact::Public.notice(), "Public key already exists");
}

#[test]
fn artifacts_compare_by_kind() {
    assert_eq!(Artifact::Private, Artifact::Private);
    assert_ne!(Artifact::Private, Artifact::Public);
}
