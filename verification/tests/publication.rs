use prollyglot_runtime::publication::advance_revision;

#[test]
fn revisions_must_advance_before_publication() {
    let mut published_revision = 0;

    assert!(advance_revision(&mut published_revision, 2));
    assert!(!advance_revision(&mut published_revision, 1));
    assert!(!advance_revision(&mut published_revision, 2));
    assert!(advance_revision(&mut published_revision, 3));
}
