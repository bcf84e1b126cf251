use ghastoolkit::{
    CodeQLPack, CodeQLPackType, CodeQLPacks, GHASError, PackProbe, PackYaml, PackYamlLock,
    PackYamlLockDependency,
};

#[test]
fn test_codeql_pack() {
    let pack = CodeQLPack::new("codeql/python-queries");

    assert_eq!(pack.name(), "python-queries");
    assert_eq!(pack.namespace(), "codeql");

    let pack = CodeQLPack::new("codeql/python-queries@1.0.0");

    assert_eq!(pack.name(), "python-queries");
    assert_eq!(pack.namespace(), "codeql");
    assert_eq!(pack.version(), Some("1.0.0".to_string()));
}

fn manifest(name: &str) -> PackYaml {
    let mut yaml = PackYaml::default();
    yaml.name = name.to_string();
    yaml
}

#[test]
fn test_pack_type_precedence() {
    // a library with data extensions is a Models pack, never a Library
    let mut yaml = manifest("codeql/java-models");
    yaml.library = Some(true);
    yaml.data_extensions = Some(vec!["models/*.yml".to_string()]);
    assert_eq!(CodeQLPack::get_pack_type(&yaml), CodeQLPackType::Models);

    let mut yaml = manifest("codeql/java-lib");
    yaml.library = Some(true);
    assert_eq!(CodeQLPack::get_pack_type(&yaml), CodeQLPackType::Library);

    let mut yaml = manifest("codeql/java-tests");
    yaml.tests = Some("tests".to_string());
    assert_eq!(CodeQLPack::get_pack_type(&yaml), CodeQLPackType::Testing);

    let yaml = manifest("codeql/java-queries");
    assert_eq!(CodeQLPack::get_pack_type(&yaml), CodeQLPackType::Queries);
}

#[test]
fn test_resolution_prefers_local() {
    let local = manifest("geekmasher/codeql-java");
    let cache = manifest("codeql/java-queries");
    let pack = CodeQLPack::resolve_from_sources(
        "geekmasher/codeql-java",
        Some(PackProbe::Found("/src/java".to_string(), local, None)),
        Some(PackProbe::Found(
            "/home/u/.codeql/packages/codeql/java-queries/1.0.0".to_string(),
            cache,
            None,
        )),
    )
    .unwrap();
    assert_eq!(pack.path(), "/src/java");
    assert_eq!(pack.name(), "codeql-java");
}

#[test]
fn test_resolution_falls_back_to_cache() {
    // absent locally but present in the package cache: the cache wins over
    // a reference-only pack
    let cache = manifest("codeql/java-queries");
    let pack = CodeQLPack::resolve_from_sources(
        "codeql/java-queries",
        None,
        Some(PackProbe::Found(
            "/home/u/.codeql/packages/codeql/java-queries/1.0.0".to_string(),
            cache,
            None,
        )),
    )
    .unwrap();
    assert!(pack.pack.is_some());
    assert_eq!(
        pack.path(),
        "/home/u/.codeql/packages/codeql/java-queries/1.0.0"
    );
    assert_eq!(pack.name(), "java-queries");
}

#[test]
fn test_resolution_reference_only() {
    // absent from both sources: a reference-only pack, not an error
    let pack = CodeQLPack::resolve_from_sources("codeql/rust-queries@0.1.0", None, None).unwrap();
    assert!(pack.pack.is_none());
    assert_eq!(pack.path(), "");
    assert_eq!(pack.full_name(), "codeql/rust-queries@0.1.0");
}

#[test]
fn test_resolution_local_errors() {
    // an existing local directory without a manifest, or with a malformed
    // one, is an error rather than a fallthrough
    let missing = CodeQLPack::resolve_from_sources(
        "/src/java",
        Some(PackProbe::MissingManifest),
        None,
    );
    assert!(matches!(
        missing,
        Err(GHASError::CodeQLPackError(ref m)) if m == "qlpack.yml file does not exist"
    ));

    let malformed = CodeQLPack::resolve_from_sources(
        "/src/java",
        Some(PackProbe::Malformed("bad yaml at line 3".to_string())),
        None,
    );
    assert!(matches!(
        malformed,
        Err(GHASError::CodeQLPackError(ref m)) if m == "bad yaml at line 3"
    ));
}

#[test]
fn test_resolution_cache_malformed_falls_through() {
    // a cache entry the resolver cannot decode does not poison the
    // reference: the reference-only pack comes back
    let pack = CodeQLPack::resolve_from_sources(
        "codeql/java-queries",
        None,
        Some(PackProbe::Malformed("bad yaml".to_string())),
    )
    .unwrap();
    assert!(pack.pack.is_none());
    assert_eq!(pack.full_name(), "codeql/java-queries");
}

#[test]
fn test_pack_load_requires_manifest() {
    let missing = CodeQLPack::load("/some/dir", true, None, None);
    assert!(matches!(
        missing,
        Err(GHASError::CodeQLPackError(ref m)) if m == "qlpack.yml file does not exist"
    ));

    let absent = CodeQLPack::load("/some/dir", false, None, None);
    assert!(matches!(
        absent,
        Err(GHASError::CodeQLPackError(ref m)) if m == "/some/dir"
    ));

    let loaded = CodeQLPack::load(
        "/some/dir",
        true,
        Some(Ok(manifest("codeql/cpp-queries"))),
        None,
    );
    assert!(loaded.is_ok());
    assert_eq!(loaded.unwrap().name(), "cpp-queries");
}

#[test]
fn test_pack_load_malformed_yaml() {
    // a malformed manifest is a pack error carrying the decode failure,
    // not the missing-file message
    let malformed = CodeQLPack::load(
        "/some/dir",
        true,
        Some(Err("mapping values are not allowed".to_string())),
        None,
    );
    assert!(matches!(
        malformed,
        Err(GHASError::CodeQLPackError(ref m)) if m == "mapping values are not allowed"
    ));

    // a malformed lock file beside a healthy manifest also errors
    let bad_lock = CodeQLPack::load(
        "/some/dir",
        true,
        Some(Ok(manifest("codeql/cpp-queries"))),
        Some(Err("bad lock".to_string())),
    );
    assert!(matches!(
        bad_lock,
        Err(GHASError::CodeQLPackError(ref m)) if m == "bad lock"
    ));
}

#[test]
fn test_pack_maintenance_commands() {
    let mut pack = CodeQLPack::new("codeql/python-queries");
    pack.path = "/cache/python-queries".to_string();
    assert_eq!(pack.install_cmd(), vec!["pack", "install", "/cache/python-queries"]);
    assert_eq!(pack.upgrade_cmd(), vec!["pack", "upgrade", "/cache/python-queries"]);
    assert_eq!(pack.publish_cmd(), vec!["pack", "publish", "/cache/python-queries"]);
}

#[test]
fn test_pick_newest_is_lexicographic() {
    let entries = vec!["0.9.0".to_string(), "0.10.0".to_string(), "1.0.0".to_string()];
    assert_eq!(CodeQLPack::pick_newest(&entries), Some("1.0.0".to_string()));

    // lexical, not semantic-version, order: 9.0.0 outranks 10.0.0
    let entries = vec!["10.0.0".to_string(), "9.0.0".to_string()];
    assert_eq!(CodeQLPack::pick_newest(&entries), Some("9.0.0".to_string()));

    let empty: Vec<String> = Vec::new();
    assert_eq!(CodeQLPack::pick_newest(&empty), None);
}

#[test]
fn test_cache_pack_dir() {
    assert_eq!(
        CodeQLPack::cache_pack_dir("/home/u/.codeql/packages", "codeql", "python-queries", None),
        "/home/u/.codeql/packages/codeql/python-queries/**"
    );
    assert_eq!(
        CodeQLPack::cache_pack_dir(
            "/home/u/.codeql/packages",
            "codeql",
            "python-queries",
            Some("1.2.3")
        ),
        "/home/u/.codeql/packages/codeql/python-queries/1.2.3"
    );
    assert_eq!(
        CodeQLPack::codeql_packages_path("/home/u"),
        "/home/u/.codeql/packages"
    );
}

fn typed_pack(pack_type: CodeQLPackType) -> CodeQLPack {
    let mut pack = CodeQLPack::new("codeql/sort-test");
    pack.pack_type = Some(pack_type);
    pack
}

#[test]
fn test_packs_sort() {
    let mut packs = CodeQLPacks::default();
    packs.packs.push(typed_pack(CodeQLPackType::Testing));
    packs.packs.push(typed_pack(CodeQLPackType::Queries));
    packs.packs.push(typed_pack(CodeQLPackType::Models));
    packs.packs.push(typed_pack(CodeQLPackType::Library));
    packs.sort();
    assert_eq!(packs.len(), 4);
    assert_eq!(packs.packs()[0].pack_type(), CodeQLPackType::Library);
    assert_eq!(packs.packs()[1].pack_type(), CodeQLPackType::Queries);
    assert_eq!(packs.packs()[2].pack_type(), CodeQLPackType::Models);
    assert_eq!(packs.packs()[3].pack_type(), CodeQLPackType::Testing);
}

#[test]
fn test_packs_merge() {
    let mut packs = CodeQLPacks::default();
    packs.packs.push(typed_pack(CodeQLPackType::Queries));
    let mut other = CodeQLPacks::default();
    other.packs.push(typed_pack(CodeQLPackType::Library));
    packs.merge(&mut other);
    assert_eq!(packs.len(), 2);
    assert_eq!(other.len(), 0);
}

#[test]
fn test_pack_dependencies_prefer_lock() {
    let mut yaml = manifest("codeql/java-queries");
    yaml.dependencies = Some(vec![(
        "codeql/java-all".to_string(),
        "^1.0.0".to_string(),
    )]);

    let pack = CodeQLPack::from_manifest("/p", yaml.clone(), None);
    assert_eq!(
        pack.dependencies(),
        vec![("codeql/java-all".to_string(), "^1.0.0".to_string())]
    );

    let lock = PackYamlLock {
        lock_version: "1.0.0".to_string(),
        dependencies: vec![(
            "codeql/java-all".to_string(),
            PackYamlLockDependency { version: "1.2.3".to_string() },
        )],
        compiled: false,
    };
    let pack = CodeQLPack::from_manifest("/p", yaml, Some(lock));
    assert_eq!(
        pack.dependencies(),
        vec![("codeql/java-all".to_string(), "1.2.3".to_string())]
    );
}
