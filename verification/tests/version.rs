use ghastoolkit::CodeQLVersion;

#[test]
fn test_codeql_version_from() {
    assert_eq!(CodeQLVersion::from("latest"), CodeQLVersion::Latest);
    assert_eq!(CodeQLVersion::from("stable"), CodeQLVersion::Latest);
    assert_eq!(CodeQLVersion::from("nightly"), CodeQLVersion::Nightly);
    assert_eq!(CodeQLVersion::from("unstable"), CodeQLVersion::Nightly);
    assert_eq!(
        CodeQLVersion::from("2.7.5"),
        CodeQLVersion::Version("2.7.5".to_string())
    );
}

#[test]
fn test_codeql_version_to_string() {
    assert_eq!(CodeQLVersion::Latest.to_string(), "latest");
    assert_eq!(CodeQLVersion::Nightly.to_string(), "nightly");
    assert_eq!(
        CodeQLVersion::Version("2.7.5".to_string()).to_string(),
        "2.7.5"
    );
}
