use ghastoolkit::CodeQLQueries;

#[test]
fn test_pack() {
    let queries = CodeQLQueries::parse("codeql/python-queries")
        .expect("Failed to parse CodeQLQueries from string");

    assert_eq!(queries.scope, Some("codeql".to_string()));
    assert_eq!(queries.name, Some("python-queries".to_string()));
    assert_eq!(queries.range, None);
    assert_eq!(queries.path, None);
}

#[test]
fn test_language_default() {
    let queries = CodeQLQueries::language_default("python");
    assert_eq!(queries.scope, Some("codeql".to_string()));
    assert_eq!(queries.name, Some("python-queries".to_string()));
    assert_eq!(queries.range, None);
    assert_eq!(queries.path, None);
}

#[test]
fn test_string() {
    let query = CodeQLQueries {
        scope: Some("codeql".to_string()),
        name: Some("python-queries".to_string()),
        range: Some("0.9.0".to_string()),
        path: Some(String::from("codeql-suites/python-code-scanning.qls")),
    };

    assert_eq!(
        query.to_string(),
        "codeql/python-queries@0.9.0:codeql-suites/python-code-scanning.qls"
    );
}

#[test]
fn test_pack_range() {
    let queries = CodeQLQueries::from("codeql/python-queries@0.9.0");
    assert_eq!(queries.scope, Some("codeql".to_string()));
    assert_eq!(queries.name, Some("python-queries".to_string()));
    assert_eq!(queries.range, Some("0.9.0".to_string()));
    assert_eq!(queries.path, None);
}

#[test]
fn test_full() {
    let queries = "codeql/python-queries@0.9.0:codeql-suites/python-code-scanning.qls";
    let codeql_queries = CodeQLQueries::from(queries);

    assert_eq!(codeql_queries.scope, Some(String::from("codeql")));
    assert_eq!(codeql_queries.name, Some(String::from("python-queries")));
    assert_eq!(codeql_queries.range, Some(String::from("0.9.0")));
    assert_eq!(
        codeql_queries.path,
        Some(String::from("codeql-suites/python-code-scanning.qls"))
    );
}

#[test]
fn test_empty_specifier_rejected() {
    assert!(CodeQLQueries::parse("").is_err());
}

#[test]
fn test_roundtrip_language_default() {
    let spec = CodeQLQueries::language_default("javascript");
    let parsed = CodeQLQueries::parse(spec.to_string().as_str()).unwrap();
    assert_eq!(parsed, spec);
}

#[test]
fn test_roundtrip_full_specifier() {
    let spec = CodeQLQueries {
        scope: Some("codeql".to_string()),
        name: Some("python-queries".to_string()),
        range: Some("0.9.0".to_string()),
        path: Some("codeql-suites/python-code-scanning.qls".to_string()),
    };
    let parsed = CodeQLQueries::parse(spec.to_string().as_str()).unwrap();
    assert_eq!(parsed, spec);
}

#[test]
fn test_roundtrip_filesystem_path() {
    let spec = CodeQLQueries {
        scope: None,
        name: None,
        range: None,
        path: Some("/queries/suite.qls".to_string()),
    };
    let parsed = CodeQLQueries::parse(spec.to_string().as_str()).unwrap();
    assert_eq!(parsed, spec);
}

#[test]
fn test_parse_filesystem_path() {
    let queries = CodeQLQueries::parse("./local/queries").unwrap();
    assert_eq!(queries.scope, None);
    assert_eq!(queries.name, None);
    assert_eq!(queries.range, None);
    assert_eq!(queries.path, Some("./local/queries".to_string()));
}

#[test]
fn test_parse_bare_language_sugar() {
    let queries = CodeQLQueries::parse("python").unwrap();
    assert_eq!(queries, CodeQLQueries::language_default("python"));
}

#[test]
fn test_parse_bare_unknown_token() {
    let queries = CodeQLQueries::parse("somethingelse").unwrap();
    assert_eq!(queries, CodeQLQueries::default());
}

#[test]
fn test_set_path() {
    let mut queries = CodeQLQueries::language_default("go");
    queries.set_path("codeql-suites/go-security-extended.qls");
    assert_eq!(
        queries.to_string(),
        "codeql/go-queries:codeql-suites/go-security-extended.qls"
    );
}
