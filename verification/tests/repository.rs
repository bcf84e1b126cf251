use ghastoolkit::Repository;

#[test]
fn test_try_from() {
    let repository = Repository::parse("owner/repo@main").unwrap();
    assert_eq!(repository.owner, "owner");
    assert_eq!(repository.name, "repo");
    assert_eq!(repository.branch, Some("main".to_string()));

    let repository = Repository::parse("owner/repo/path/to/file@main").unwrap();
    assert_eq!(repository.owner, "owner");
    assert_eq!(repository.name, "repo");
    assert_eq!(repository.path, String::from("path/to/file"));
    assert_eq!(repository.branch, Some("main".to_string()));
}

#[test]
fn test_parse_sets_reference() {
    let repository = Repository::parse("octo/demo@dev").unwrap();
    assert_eq!(repository.reference, Some("refs/heads/dev".to_string()));
}

#[test]
fn test_parse_invalid_reference() {
    // outside the grammar: the empty repository, not an error
    let repository = Repository::parse("not a repository!!").unwrap();
    assert_eq!(repository.owner, "");
    assert_eq!(repository.name, "");
    assert_eq!(repository.branch, None);

    let repository = Repository::parse("single-segment").unwrap();
    assert_eq!(repository.owner, "");
    assert_eq!(repository.name, "");
}

#[test]
fn test_repository_new_and_display() {
    let repo = Repository::new("geekmasher", "ghastoolkit-rs");
    assert_eq!(repo.owner(), "geekmasher");
    assert_eq!(repo.name(), "ghastoolkit-rs");
    assert_eq!(repo.to_string(), "geekmasher/ghastoolkit-rs");
}

#[test]
fn test_repository_builder() {
    let repo = Repository::init()
        .repo("octo/demo")
        .branch("main")
        .path("src")
        .root("/checkout/demo")
        .build()
        .unwrap();
    assert_eq!(repo.owner(), "octo");
    assert_eq!(repo.name(), "demo");
    assert_eq!(repo.branch(), Some("main"));
    assert_eq!(repo.reference(), Some("refs/heads/main"));
    assert_eq!(repo.fullpath(), "/checkout/demo/src");
}

#[test]
fn test_repository_builder_reference() {
    let repo = Repository::init()
        .owner("octo")
        .name("demo")
        .reference("refs/heads/feature/x")
        .build()
        .unwrap();
    assert_eq!(repo.branch(), Some("feature/x"));
    assert_eq!(repo.reference(), Some("refs/heads/feature/x"));
}
