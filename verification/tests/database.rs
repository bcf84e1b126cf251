use ghastoolkit::database::{CodeQLDatabaseConfig, CodeQLDatabaseConfigMetadata};
use ghastoolkit::{CodeQLDatabase, CodeQLDatabases, GHASError, Repository};

#[test]
fn test_database_name() {
    // Set the name of the database
    let db = CodeQLDatabase::init()
        .name("test-repo")
        .language("python")
        .build()
        .expect("Failed to build database");

    assert_eq!(db.name, "test-repo");
}

#[test]
fn test_database_from_source() {
    let db2 = CodeQLDatabase::init()
        .source("/tmp/test-repo")
        .language("python")
        .build()
        .expect("Failed to build database");
    assert_eq!(db2.name, "test-repo");
}

#[test]
fn test_database_from_repository() {
    let repo = Repository::parse("geekmasher/test-repo").unwrap();
    let db3 = CodeQLDatabase::init()
        .repository(&repo)
        .language("python")
        .build()
        .expect("Failed to build database");

    assert_eq!(db3.name, "test-repo");
}

#[test]
fn test_database_name_priority() {
    // explicit name > repository name > path's last component > source
    let repo = Repository::parse("octo/from-repo").unwrap();

    // the repository setter adopts the repository's name, so an explicit
    // name set afterwards wins over it
    let db = CodeQLDatabase::init()
        .repository(&repo)
        .name("explicit")
        .path("/dbs/from-path")
        .source("/src/from-source")
        .build()
        .unwrap();
    assert_eq!(db.name, "explicit");

    let db = CodeQLDatabase::init()
        .repository(&repo)
        .path("/dbs/from-path")
        .source("/src/from-source")
        .build()
        .unwrap();
    assert_eq!(db.name, "from-repo");

    let db = CodeQLDatabase::init()
        .language("python")
        .path("/dbs/from-path")
        .source("/src/from-source")
        .build()
        .unwrap();
    assert_eq!(db.name, "from-path");

    let db = CodeQLDatabase::init()
        .language("python")
        .source("/src/from-source")
        .build()
        .unwrap();
    assert_eq!(db.name, "from-source");
}

#[test]
fn test_database_default_path() {
    let db = CodeQLDatabase::init()
        .name("demo")
        .language("javascript")
        .build()
        .unwrap();
    assert_eq!(db.path(), "javascript-demo");

    let repo = Repository::parse("octo/demo").unwrap();
    let db = CodeQLDatabase::init()
        .repository(&repo)
        .language("javascript")
        .build()
        .unwrap();
    assert_eq!(db.path(), "octo/demo/javascript");
}

fn sample_config() -> CodeQLDatabaseConfig {
    let mut config = CodeQLDatabaseConfig::default();
    config.primary_language = "javascript".to_string();
    config.baseline_lines_of_code = 1234;
    config.creation_metadata = Some(CodeQLDatabaseConfigMetadata {
        sha: None,
        cli_version: "2.17.0".to_string(),
        creation_time: "2024-05-01T12:00:00Z".to_string(),
    });
    config
}

#[test]
fn test_database_sentinels_without_config() {
    let db = CodeQLDatabase::init()
        .name("demo")
        .language("javascript")
        .build()
        .unwrap();
    assert_eq!(db.version(), "0.0.0");
    assert_eq!(db.created_at(), None);
    assert_eq!(db.lines_of_code(), 0);
}

#[test]
fn test_database_reload_requires_config() {
    // reloading before the configuration exists on disk fails and leaves
    // the loaded configuration untouched
    let mut db = CodeQLDatabase::init()
        .name("demo")
        .language("javascript")
        .build()
        .unwrap();
    assert!(db.reload(None).is_err());
    assert!(db.config.is_none());
    assert_eq!(db.version(), "0.0.0");

    assert!(db.reload(Some(Ok(sample_config()))).is_ok());
    assert_eq!(db.version(), "2.17.0");
    assert_eq!(db.created_at(), Some("2024-05-01T12:00:00Z".to_string()));
    assert_eq!(db.lines_of_code(), 1234);
}

#[test]
fn test_database_reload_malformed_config() {
    // a configuration file that fails to decode is a format error, not an
    // invalid-database error, and leaves the loaded configuration alone
    let mut db = CodeQLDatabase::init()
        .name("demo")
        .language("javascript")
        .build()
        .unwrap();
    let result = db.reload(Some(Err("unexpected character".to_string())));
    assert!(matches!(
        result,
        Err(GHASError::FormatError(ref m)) if m == "unexpected character"
    ));
    assert!(db.config.is_none());
}

#[test]
fn test_database_configuration_path() {
    let db = CodeQLDatabase::init()
        .name("demo")
        .language("javascript")
        .path("/dbs/demo")
        .build()
        .unwrap();
    assert_eq!(db.configuration_path(), "/dbs/demo/codeql-database.yml");
}

#[test]
fn test_databases_default_paths() {
    assert_eq!(
        CodeQLDatabases::default_path(Some("/custom"), Some("/home/u")),
        "/custom"
    );
    assert_eq!(
        CodeQLDatabases::default_path(None, Some("/home/u")),
        "/home/u/.codeql/databases"
    );
    assert_eq!(CodeQLDatabases::default_path(None, None), "/tmp/codeql");
    assert_eq!(
        CodeQLDatabases::default_results(None, Some("/home/u")),
        "/home/u/.codeql/results"
    );
}

#[test]
fn test_databases_collection() {
    let mut databases = CodeQLDatabases::new();
    assert!(databases.is_empty());
    databases.set_path("/dbs");
    let db = CodeQLDatabase::init()
        .name("demo")
        .language("javascript")
        .build()
        .unwrap();
    databases.add(db);
    assert_eq!(databases.len(), 1);
    assert_eq!(databases.databases()[0].name(), "demo");
}
