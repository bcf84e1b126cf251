use ghastoolkit::{CodeQL, CodeQLDatabase, CodeQLDatabaseHandler, CodeQLPack, GHASError};

fn init_codeql() -> (CodeQL, CodeQLDatabase) {
    let codeql = CodeQL::default();
    let database = CodeQLDatabase::init()
        .name("test")
        .language("javascript")
        .source("/path/to/source")
        .build()
        .unwrap();
    (codeql, database)
}

#[test]
fn test_codeql_create() {
    let (codeql, database) = init_codeql();
    let cmd = CodeQLDatabaseHandler::new(&database, &codeql)
        .sarif("test.sarif")
        .create_cmd()
        .unwrap();

    assert_eq!(cmd.len(), 9);
    assert_eq!(cmd[0], "database");
    assert_eq!(cmd[1], "create");
    assert_eq!(cmd[2], "-l");
    assert_eq!(cmd[3], "javascript");
    assert_eq!(cmd[4], "-s");
    assert_eq!(cmd[5], "/path/to/source");
    // Summary enabled by default
    assert_eq!(cmd[6], "--print-diagnostics-summary");
    assert_eq!(cmd[7], "--print-metrics-summary");
    assert_eq!(&cmd[8], database.path());
}

#[test]
fn test_codeql_create_threat_model() {
    let (codeql, database) = init_codeql();
    let cmd = CodeQLDatabaseHandler::new(&database, &codeql)
        .threat_model("test")
        .create_cmd()
        .unwrap();

    assert_eq!(cmd.len(), 11);
    assert_eq!(cmd[6], "--threat-models");
    assert_eq!(cmd[7], "test");

    let cmd = CodeQLDatabaseHandler::new(&database, &codeql)
        .threat_models(vec!["test".to_string(), "test2".to_string()])
        .create_cmd()
        .unwrap();

    assert_eq!(cmd.len(), 11);
    assert_eq!(cmd[6], "--threat-models");
    assert_eq!(cmd[7], "test,test2");

    let cmd = CodeQLDatabaseHandler::new(&database, &codeql)
        .disable_default_threat_model()
        .create_cmd()
        .unwrap();
    assert_eq!(cmd.len(), 11);
    assert_eq!(cmd[6], "--threat-models");
    assert_eq!(cmd[7], "!default");
}

#[test]
fn test_codeql_create_pack_models() {
    let (codeql, database) = init_codeql();
    let cmd = CodeQLDatabaseHandler::new(&database, &codeql)
        .model_packs(vec!["test".to_string(), "test2".to_string()])
        .create_cmd()
        .unwrap();

    assert_eq!(cmd.len(), 11);
    assert_eq!(cmd[6], "--model-packs");
    assert_eq!(cmd[7], "test,test2");
}

#[test]
fn test_codeql_analysis() {
    let (codeql, database) = init_codeql();
    let cmd = CodeQLDatabaseHandler::new(&database, &codeql)
        .sarif("test.sarif")
        .analyze_cmd()
        .unwrap();

    assert_eq!(cmd.len(), 8);
    assert_eq!(cmd[0], "database");
    assert_eq!(cmd[1], "analyze");
    assert_eq!(cmd[2], "--output");
    assert_eq!(cmd[3], "test.sarif");
    assert_eq!(cmd[4], "--format");
    assert_eq!(cmd[5], "sarif-latest");
    assert_eq!(&cmd[6], database.path());
}

#[test]
fn test_codeql_analysis_suites() {
    let (codeql, database) = init_codeql();
    let cmd = CodeQLDatabaseHandler::new(&database, &codeql)
        .suite("javascript")
        .analyze_cmd()
        .unwrap();
    assert_eq!(cmd.len(), 8);
    assert_eq!(cmd[7], "codeql/javascript-queries");

    let cmd = CodeQLDatabaseHandler::new(&database, &codeql)
        .suite("security-extended")
        .analyze_cmd()
        .unwrap();
    assert_eq!(cmd.len(), 8);
    assert_eq!(
        cmd[7],
        "codeql/javascript-queries:codeql-suites/javascript-security-extended.qls"
    );
}

#[test]
fn test_codeql_analysis_queries() {
    let (codeql, database) = init_codeql();
    let cmd = CodeQLDatabaseHandler::new(&database, &codeql)
        .queries("codeql/javascript-queries@0.9.0")
        .analyze_cmd()
        .unwrap();
    assert_eq!(cmd.len(), 8);
    assert_eq!(cmd[7], "codeql/javascript-queries@0.9.0");

    let cmd = CodeQLDatabaseHandler::new(&database, &codeql)
        .queries("codeql/javascript-queries@0.9.0:codeql-suites/javascript-code-scanning.qls")
        .analyze_cmd()
        .unwrap();
    assert_eq!(cmd.len(), 8);
    assert_eq!(
        cmd[7],
        "codeql/javascript-queries@0.9.0:codeql-suites/javascript-code-scanning.qls"
    );
}

#[test]
fn test_create_requires_source() {
    // no source root: create is refused before any command exists, so a
    // recording invoker would see zero calls
    let codeql = CodeQL::default();
    let database = CodeQLDatabase::init()
        .name("test")
        .language("javascript")
        .build()
        .unwrap();
    let result = CodeQLDatabaseHandler::new(&database, &codeql).create_cmd();
    assert!(matches!(
        result,
        Err(GHASError::CodeQLDatabaseError(ref m)) if m == "No source root provided"
    ));
}

#[test]
fn test_create_requires_language() {
    let codeql = CodeQL::default();
    let database = CodeQLDatabase::init()
        .name("test")
        .source("/path/to/source")
        .build()
        .unwrap();
    let result = CodeQLDatabaseHandler::new(&database, &codeql).create_cmd();
    assert!(matches!(
        result,
        Err(GHASError::CodeQLDatabaseError(ref m)) if m == "No language provided"
    ));
}

#[test]
fn test_create_cmd_deterministic() {
    let (codeql, database) = init_codeql();
    let handler = CodeQLDatabaseHandler::new(&database, &codeql).sarif("out.sarif");
    let first = handler.create_cmd().unwrap();
    let second = handler.create_cmd().unwrap();
    assert_eq!(first, second);
    let first = handler.analyze_cmd().unwrap();
    let second = handler.analyze_cmd().unwrap();
    assert_eq!(first, second);
}

#[test]
fn test_create_cmd_overwrite_iff_requested() {
    let (codeql, database) = init_codeql();
    let without = CodeQLDatabaseHandler::new(&database, &codeql)
        .create_cmd()
        .unwrap();
    assert!(!without.iter().any(|a| a == "--overwrite"));

    let with = CodeQLDatabaseHandler::new(&database, &codeql)
        .overwrite()
        .create_cmd()
        .unwrap();
    assert!(with.iter().any(|a| a == "--overwrite"));
    assert_eq!(with.len(), without.len() + 1);
}

#[test]
fn test_end_to_end_stubbed_create() {
    // the full scenario without a real codeql binary: the constructed
    // create command is handed to an invoker; recording it and returning
    // success, the recorded arguments are exactly these
    let codeql = CodeQL::default();
    let database = CodeQLDatabase::init()
        .language("javascript")
        .source("/tmp/src")
        .build()
        .unwrap();

    let mut recorded: Vec<Vec<String>> = Vec::new();
    let cmd = codeql.database(&database).create_cmd().unwrap();
    recorded.push(cmd);

    let expected = vec![
        "database".to_string(),
        "create".to_string(),
        "-l".to_string(),
        "javascript".to_string(),
        "-s".to_string(),
        "/tmp/src".to_string(),
        "--print-diagnostics-summary".to_string(),
        "--print-metrics-summary".to_string(),
        database.path().clone(),
    ];
    assert_eq!(recorded, vec![expected]);

    let suite = codeql.database(&database).suite("security-extended");
    assert_eq!(
        suite.queries.to_string(),
        "codeql/javascript-queries:codeql-suites/javascript-security-extended.qls"
    );
}

#[test]
fn test_pack_handler_commands() {
    let codeql = CodeQL::default();
    let pack = CodeQLPack::new("codeql/python-queries@1.0.0");
    let handler = codeql.pack(&pack);
    assert_eq!(
        handler.download_cmd(),
        vec!["pack", "download", "codeql/python-queries@1.0.0"]
    );
    assert_eq!(
        handler.resolve_cmd(),
        vec![
            "resolve",
            "queries",
            "--format=json",
            "codeql/python-queries@1.0.0"
        ]
    );

    let handler = handler.suite("codeql/python-queries@1.0.0:codeql-suites/python-security.qls");
    assert_eq!(
        handler.resolve_cmd(),
        vec![
            "resolve",
            "queries",
            "--format=json",
            "codeql/python-queries@1.0.0:codeql-suites/python-security.qls"
        ]
    );
}

#[test]
fn test_pack_handler_resolve_output() {
    let codeql = CodeQL::default();
    let mut pack = CodeQLPack::new("codeql/python-queries");
    pack.path = "/cache/python-queries".to_string();
    let handler = codeql.pack(&pack);
    let stripped = handler.resolve_output(&vec![
        "/cache/python-queries/queries/a.ql".to_string(),
        "/elsewhere/b.ql".to_string(),
    ]);
    assert_eq!(stripped, vec!["queries/a.ql", "/elsewhere/b.ql"]);
}

#[test]
fn test_codeql_builder() {
    let codeql = CodeQL::init()
        .path("/path/to/codeql")
        .threads(4)
        .ram(8)
        .additional_packs("my-pack")
        .search_path("/path/to/search")
        .show_output(true)
        .build()
        .unwrap();

    assert_eq!(codeql.path, "/path/to/codeql".to_string());
    assert_eq!(codeql.threads, 4);
    assert_eq!(codeql.ram, Some(8));
    assert_eq!(codeql.additional_packs, vec!["my-pack".to_string()]);
    assert_eq!(codeql.search_path, vec!["/path/to/search".to_string()]);
    assert_eq!(codeql.showoutput, true);
}

#[test]
fn test_codeql_search_path_args() {
    let mut codeql = CodeQL::default();
    codeql.append_search_path("/a");
    codeql.append_search_path("/b");
    assert_eq!(codeql.search_paths(), "/a:/b");

    let mut args: Vec<String> = Vec::new();
    codeql.add_search_path(&mut args);
    assert_eq!(args, vec!["--search-path", "/a:/b"]);

    let mut args: Vec<String> = Vec::new();
    codeql.add_additional_packs(&mut args);
    assert!(args.is_empty());
}

#[test]
fn test_codeql_registry_auth() {
    let mut codeql = CodeQL::default();
    assert_eq!(codeql.registry_auth(), None);
    codeql.token = Some("example-token".to_string());
    assert_eq!(
        codeql.registry_auth(),
        Some((
            "CODEQL_REGISTRIES_AUTH".to_string(),
            "example-token".to_string()
        ))
    );
}

#[test]
fn test_codeql_default_suite() {
    let mut codeql = CodeQL::default();
    assert_eq!(codeql.default_suite(), "code-scanning");
    codeql.suite = Some("security-extended".to_string());
    assert_eq!(codeql.default_suite(), "security-extended");
}

#[test]
fn test_codeql_silent_clone() {
    let codeql = CodeQL::default();
    assert!(codeql.showoutput);
    let silent = codeql.silent();
    assert!(!silent.showoutput);
    assert_eq!(silent.path, codeql.path);
}

#[test]
fn test_codeql_version_cmd() {
    assert_eq!(CodeQL::version_cmd(), vec!["version", "--format", "terse"]);
}

#[test]
fn test_codeql_resolve_languages_cmd() {
    let mut codeql = CodeQL::default();
    assert_eq!(
        codeql.resolve_languages_cmd(),
        vec!["resolve", "languages", "--format", "json"]
    );
    codeql.append_search_path("/a");
    assert_eq!(
        codeql.resolve_languages_cmd(),
        vec!["resolve", "languages", "--format", "json", "--search-path", "/a"]
    );
}

#[test]
fn test_codeql_run_outcome() {
    let lines = vec!["one".to_string(), "two".to_string()];
    assert_eq!(CodeQL::run_outcome(true, &lines), Ok("one\ntwo".to_string()));
    assert!(matches!(
        CodeQL::run_outcome(false, &lines),
        Err(GHASError::CodeQLError(ref m)) if m == "Error running CodeQL command"
    ));
}

#[test]
fn test_error_to_string() {
    let err = GHASError::CodeQLPackError("CodeQLQueries cannot be empty".to_string());
    assert_eq!(
        err.to_string(),
        "CodeQLPackError: CodeQLQueries cannot be empty"
    );
}
