use ghastoolkit::extractors::CodeQLExtractor;
use ghastoolkit::languages::canonicalize;
use ghastoolkit::{CodeQLLanguage, CodeQLLanguages};

#[test]
fn test_languages() {
    let language = CodeQLLanguage::from("cpp".to_string());
    assert_eq!(language.language(), "cpp");
    assert_eq!(language.pretty(), "C/C++");

    let language = CodeQLLanguage::from("actions");
    assert_eq!(language.language(), "actions");
    assert_eq!(language.pretty(), "GitHub Actions");
}

#[test]
fn test_unsupported() {
    let language = CodeQLLanguage::from("iac");
    assert_eq!(language.language(), "iac");
    assert_eq!(language.pretty(), "iac");
}

#[test]
fn test_canonicalize_aliases() {
    assert_eq!(canonicalize("kotlin").language(), "java");
    assert_eq!(canonicalize("java").language(), "java");
    assert_eq!(canonicalize("typescript").language(), "javascript");
    assert_eq!(canonicalize("c++").language(), "cpp");
    assert_eq!(canonicalize("golang").language(), "go");
    assert_eq!(canonicalize("KOTLIN").language(), "java");
}

#[test]
fn test_canonicalize_idempotent() {
    for token in ["kotlin", "typescript", "c++", "golang", "yaml", "someother"] {
        let once = canonicalize(token);
        let twice = canonicalize(once.language().as_str());
        assert_eq!(twice.language(), once.language());
    }
}

#[test]
fn test_canonicalize_unknown_echoes() {
    assert_eq!(canonicalize("iac").language(), "iac");
}

#[test]
fn test_canonicalize_secondary() {
    assert!(canonicalize("yaml").is_secondary());
    assert!(canonicalize("html").is_secondary());
    assert!(!canonicalize("python").is_secondary());
}

fn extractor_language(name: &str, api_languages: Vec<&str>) -> CodeQLLanguage {
    let mut extractor = CodeQLExtractor::default();
    extractor.name = name.to_string();
    extractor.github_api_languages = Some(
        api_languages.into_iter().map(|s| s.to_string()).collect(),
    );
    CodeQLLanguage::from_parts(name.to_string(), extractor)
}

#[test]
fn test_languages_check() {
    let languages = CodeQLLanguages::new(vec![
        extractor_language("javascript", vec!["JavaScript", "TypeScript"]),
        extractor_language("yaml", vec!["YAML"]),
    ]);
    assert!(languages.check("TypeScript"));
    assert!(languages.check("YAML"));
    assert!(!languages.check("Haskell"));
}

#[test]
fn test_languages_primary_and_secondary() {
    let languages = CodeQLLanguages::new(vec![
        extractor_language("javascript", vec![]),
        extractor_language("yaml", vec![]),
        extractor_language("python", vec![]),
    ]);
    assert_eq!(languages.get_all().len(), 3);

    let primary = languages.get_languages();
    assert_eq!(primary.len(), 2);
    assert_eq!(primary[0].language(), "javascript");
    assert_eq!(primary[1].language(), "python");

    let secondary = languages.get_secondary();
    assert_eq!(secondary.len(), 1);
    assert_eq!(secondary[0].language(), "yaml");
}
