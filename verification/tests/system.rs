use greptime_common::system::{FunctionRegistry, PGCatalogFunction, SystemFunction};

const SCALAR: [&str; 12] = [
    "build",
    "version",
    "current_schema",
    "database",
    "session_user",
    "read_preference",
    "pg_backend_pid",
    "connection_id",
    "timezone",
    "pg_catalog.pg_table_is_visible",
    "pg_catalog.pg_get_userbyid",
    "pg_catalog.version",
];

#[test]
fn register_adds_all_system_functions() {
    let mut registry = FunctionRegistry::new();
    assert!(!registry.has_scalar("build"));
    SystemFunction::register(&mut registry);
    for name in SCALAR {
        assert!(registry.has_scalar(name), "{}", name);
        assert!(!registry.has_async(name), "{}", name);
    }
    assert!(registry.has_async("procedure_state"));
    assert!(!registry.has_scalar("procedure_state"));
    assert!(!registry.has_scalar("no_such_function"));
}

#[test]
fn law_register_keeps_earlier_functions_and_is_idempotent() {
    let mut registry = FunctionRegistry::new();
    registry.register_scalar("my_udf");
    registry.register_async("my_async");
    SystemFunction::register(&mut registry);
    SystemFunction::register(&mut registry);
    assert!(registry.has_scalar("my_udf"));
    assert!(registry.has_async("my_async"));
    assert!(registry.has_scalar("timezone"));
}

#[test]
fn pg_catalog_registers_catalog_functions_only() {
    let mut registry = FunctionRegistry::new();
    PGCatalogFunction::register(&mut registry);
    assert!(registry.has_scalar("pg_catalog.pg_table_is_visible"));
    assert!(registry.has_scalar("pg_catalog.version"));
    assert!(!registry.has_scalar("version"));
    assert!(!registry.has_async("procedure_state"));
}
