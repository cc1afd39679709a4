use axum_routes::{
    build, BuildError, CustomizerKind, CustomizerRegistry, DefinitionError, Method, Route,
    RouteEntry, RouteTable,
};

fn root_table() -> RouteTable {
    let get_by_id = RouteEntry::method(
        "GetByID".into(),
        Method::Get,
        Route::parse("/{id}").unwrap(),
        "get_user".into(),
        None,
    );
    let users = RouteEntry::nest(
        "Users".into(),
        Route::parse("/users").unwrap(),
        RouteTable::new(vec![get_by_id]),
        None,
    );
    let home = RouteEntry::method(
        "Home".into(),
        Method::Get,
        Route::parse("/").unwrap(),
        "main".into(),
        None,
    );
    RouteTable::new(vec![home, users])
}

fn customized_table() -> RouteTable {
    let get_by_id = RouteEntry::method(
        "GetByID".into(),
        Method::Get,
        Route::parse("/{id}").unwrap(),
        "get_user".into(),
        Some("auth".into()),
    );
    let users = RouteEntry::nest(
        "Users".into(),
        Route::parse("/users").unwrap(),
        RouteTable::new(vec![get_by_id]),
        Some("wrap".into()),
    );
    RouteTable::new(vec![users])
}

fn full_registry() -> CustomizerRegistry {
    let mut registry = CustomizerRegistry::new();
    registry.register("auth".into(), CustomizerKind::MethodRouter);
    registry.register("wrap".into(), CustomizerKind::Router);
    registry
}

#[test]
fn build_flattens_nested_paths() {
    let table = build(&root_table(), &CustomizerRegistry::new()).unwrap();
    assert_eq!(table.entries.len(), 2);
    assert_eq!(table.entries[0].method, Method::Get);
    assert_eq!(table.entries[0].path, "/");
    assert_eq!(table.entries[0].handler, "main");
    assert_eq!(table.entries[0].customize, None);
    assert!(table.entries[0].router_customizers.is_empty());
    assert_eq!(table.entries[1].method, Method::Get);
    assert_eq!(table.entries[1].path, "/users/{id}");
    assert_eq!(table.entries[1].handler, "get_user");
}

#[test]
fn build_records_customizers() {
    let table = build(&customized_table(), &full_registry()).unwrap();
    assert_eq!(table.entries.len(), 1);
    assert_eq!(table.entries[0].path, "/users/{id}");
    assert_eq!(table.entries[0].customize, Some("auth".to_string()));
    assert_eq!(table.entries[0].router_customizers, vec!["wrap".to_string()]);
}

#[test]
fn build_duplicate_identifier() {
    let table = RouteTable::new(vec![
        RouteEntry::method(
            "Home".into(),
            Method::Get,
            Route::parse("/").unwrap(),
            "main".into(),
            None,
        ),
        RouteEntry::method(
            "Home".into(),
            Method::Post,
            Route::parse("/other").unwrap(),
            "other".into(),
            None,
        ),
    ]);
    let err = build(&table, &CustomizerRegistry::new()).unwrap_err();
    assert_eq!(
        err,
        BuildError::Definition(DefinitionError::DuplicateIdentifier("Home".into()))
    );
}

#[test]
fn build_duplicate_in_nested_table() {
    let child = RouteTable::new(vec![
        RouteEntry::method(
            "GetByID".into(),
            Method::Get,
            Route::parse("/{id}").unwrap(),
            "get_user".into(),
            None,
        ),
        RouteEntry::method(
            "GetByID".into(),
            Method::Delete,
            Route::parse("/{id}").unwrap(),
            "delete_user".into(),
            None,
        ),
    ]);
    let table = RouteTable::new(vec![RouteEntry::nest(
        "Users".into(),
        Route::parse("/users").unwrap(),
        child,
        None,
    )]);
    let err = build(&table, &CustomizerRegistry::new()).unwrap_err();
    assert_eq!(
        err,
        BuildError::Definition(DefinitionError::DuplicateIdentifier("GetByID".into()))
    );
}

#[test]
fn build_missing_customizer() {
    let err = build(&customized_table(), &CustomizerRegistry::new()).unwrap_err();
    // the nest entry's customizer is resolved before its child is built
    assert_eq!(err, BuildError::MissingCustomizer("wrap".into()));
}

#[test]
fn build_missing_method_customizer() {
    let mut registry = CustomizerRegistry::new();
    registry.register("wrap".into(), CustomizerKind::Router);
    let err = build(&customized_table(), &registry).unwrap_err();
    assert_eq!(err, BuildError::MissingCustomizer("auth".into()));
}

#[test]
fn build_customizer_kind_mismatch() {
    // a name supplied under the wrong kind does not satisfy the reference
    let mut registry = CustomizerRegistry::new();
    registry.register("auth".into(), CustomizerKind::Router);
    registry.register("wrap".into(), CustomizerKind::Router);
    let err = build(&customized_table(), &registry).unwrap_err();
    assert_eq!(err, BuildError::MissingCustomizer("auth".into()));
}

#[test]
fn build_duplicate_wins_over_missing_customizer() {
    // validation of the definitions happens before any customizer resolution
    let table = RouteTable::new(vec![
        RouteEntry::method(
            "A".into(),
            Method::Get,
            Route::parse("/").unwrap(),
            "main".into(),
            Some("absent".into()),
        ),
        RouteEntry::method(
            "A".into(),
            Method::Post,
            Route::parse("/b").unwrap(),
            "other".into(),
            None,
        ),
    ]);
    let err = build(&table, &CustomizerRegistry::new()).unwrap_err();
    assert_eq!(
        err,
        BuildError::Definition(DefinitionError::DuplicateIdentifier("A".into()))
    );
}

#[test]
fn build_deterministic() {
    let first = build(&customized_table(), &full_registry());
    let second = build(&customized_table(), &full_registry());
    assert_eq!(first, second);
    assert!(first.is_ok());
    let plain_first = build(&root_table(), &CustomizerRegistry::new());
    let plain_second = build(&root_table(), &CustomizerRegistry::new());
    assert_eq!(plain_first, plain_second);
}

#[test]
fn registry_lookup() {
    let registry = full_registry();
    assert_eq!(
        registry.get(&"auth".to_string()),
        Some(CustomizerKind::MethodRouter)
    );
    assert_eq!(registry.get(&"wrap".to_string()), Some(CustomizerKind::Router));
    assert_eq!(registry.get(&"absent".to_string()), None);
}

#[test]
fn table_get_finds_entries() {
    let table = root_table();
    let home = table.get(&"Home".to_string()).unwrap();
    assert_eq!(home.name, "Home");
    let users = table.get(&"Users".to_string()).unwrap();
    assert_eq!(users.name, "Users");
    assert!(table.get(&"Absent".to_string()).is_none());
}
