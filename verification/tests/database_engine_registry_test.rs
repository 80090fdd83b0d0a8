use fuse_query::catalogs::database_engine_registry::DatabaseEngineRegistry;
use fuse_query::catalogs::prelude::register_database_engines;
use fuse_query::catalogs::prelude::DatabaseEngine;
use fuse_query::catalogs::table_engine::build_table;
use fuse_query::catalogs::table_info::TableIdent;
use fuse_query::catalogs::table_info::TableInfo;
use fuse_query::datavalues::data_schema::DataSchema;
use fuse_query::errors::ErrorCode;
use fuse_query::errors::ErrorKind;

#[test]
fn test_database_engine_registry() -> Result<(), ErrorCode> {
    let mut registry = DatabaseEngineRegistry::default();
    registry.register("DEFAULT", DatabaseEngine::Fuse)?;
    registry.register("GITHUB", DatabaseEngine::Github)?;

    let engine = registry.get_database_factory("default");
    assert!(engine.is_some());

    let engine = registry.get_database_factory("github");
    assert!(engine.is_some());

    let engine = registry.get_database_factory("xx");
    assert!(engine.is_none());

    Ok(())
}

#[test]
fn test_registry_lookup_ignores_case() {
    let mut registry = DatabaseEngineRegistry::new();
    registry.register("Default", 1u32).unwrap();
    assert_eq!(registry.get_database_factory("DEFAULT"), Some(&1));
    assert_eq!(registry.get_database_factory("default"), Some(&1));
    assert_eq!(registry.get_database_factory("dEfAuLt"), Some(&1));
    assert_eq!(registry.get_database_factory("defaul"), None);
    assert_eq!(registry.get_database_factory("default "), None);
    assert!(registry.contains("DeFault"));
    assert!(!registry.contains(""));
}

#[test]
fn test_registry_rejects_second_registration() {
    let mut registry = DatabaseEngineRegistry::new();
    registry.register("GITHUB", 1u32).unwrap();
    let err = registry.register("github", 2u32).unwrap_err();
    assert_eq!(err.kind, ErrorKind::AlreadyExists);
    assert_eq!(err.message, "Database engine provider github already exists");
    // the first registration stays
    assert_eq!(registry.get_database_factory("GitHub"), Some(&1));
    let err = registry.register("GITHUB", 3u32).unwrap_err();
    assert_eq!(err.kind(), ErrorKind::AlreadyExists);
    assert_eq!(registry.get_database_factory("github"), Some(&1));
}

#[test]
fn test_registry_case_folding_is_ascii_only() {
    let mut registry = DatabaseEngineRegistry::new();
    registry.register("é", 1u32).unwrap();
    // only ASCII letters are folded
    assert!(registry.get_database_factory("É").is_none());
    assert!(registry.register("É", 2u32).is_ok());
    assert_eq!(registry.get_database_factory("é"), Some(&1));
    assert_eq!(registry.get_database_factory("É"), Some(&2));
}

#[test]
fn test_register_database_engines() {
    let mut registry = DatabaseEngineRegistry::new();
    register_database_engines(&mut registry).unwrap();
    assert_eq!(registry.get_database_factory("default"), Some(&DatabaseEngine::Fuse));
    assert_eq!(registry.get_database_factory("github"), Some(&DatabaseEngine::Github));
    assert_eq!(registry.get_database_factory("system"), None);
    // one-shot: a second run is refused and changes nothing
    let err = register_database_engines(&mut registry).unwrap_err();
    assert_eq!(err.kind, ErrorKind::AlreadyExists);
    assert_eq!(err.message, "Database engine provider DEFAULT already exists");
    assert_eq!(registry.engines.len(), 2);
}

#[test]
fn test_register_database_engines_github_taken() {
    let mut registry = DatabaseEngineRegistry::new();
    registry.register("github", DatabaseEngine::Fuse).unwrap();
    let err = register_database_engines(&mut registry).unwrap_err();
    assert_eq!(err.kind, ErrorKind::AlreadyExists);
    assert_eq!(err.message, "Database engine provider GITHUB already exists");
    assert_eq!(registry.get_database_factory("DEFAULT"), Some(&DatabaseEngine::Fuse));
    assert_eq!(registry.get_database_factory("GITHUB"), Some(&DatabaseEngine::Fuse));
}

#[test]
fn test_build_table_by_engine() {
    let mut engines = DatabaseEngineRegistry::new();
    engines.register("Fuse", "fuse").unwrap();
    engines.register("SystemUsers", "users").unwrap();
    let table = |engine: &str| TableInfo::simple("db1", "t", TableIdent::new(1, 0), DataSchema::empty(), engine);
    assert_eq!(build_table(&engines, &table("Fuse")), Ok(&"fuse"));
    assert_eq!(build_table(&engines, &table("FUSE")), Ok(&"fuse"));
    assert_eq!(build_table(&engines, &table("systemusers")), Ok(&"users"));
    let err = build_table(&engines, &table("CSV")).unwrap_err();
    assert_eq!(err.kind, ErrorKind::UnknownTable);
    assert_eq!(err.message, "Unknown table engine CSV");
    let err = build_table(&engines, &table("")).unwrap_err();
    assert_eq!(err.message, "Unknown table engine ");
}
