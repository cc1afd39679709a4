use axum_routes::{
    route_resolver, Method, Route, RouteEntry, RouteResolverError, RouteTable,
};

fn home_entry() -> RouteEntry {
    RouteEntry::method(
        "Home".into(),
        Method::Get,
        Route::parse("/").unwrap(),
        "main".into(),
        None,
    )
}

fn get_by_id_entry() -> RouteEntry {
    RouteEntry::method(
        "GetByID".into(),
        Method::Get,
        Route::parse("/{id}").unwrap(),
        "get_user".into(),
        None,
    )
}

fn get_field_by_id_entry() -> RouteEntry {
    RouteEntry::method(
        "GetFieldByID".into(),
        Method::Get,
        Route::parse("/{id}/field/{field}").unwrap(),
        "get_user_field".into(),
        None,
    )
}

fn users_nest_entry() -> RouteEntry {
    RouteEntry::nest(
        "Users".into(),
        Route::parse("/users").unwrap(),
        RouteTable::new(vec![get_by_id_entry(), get_field_by_id_entry()]),
        None,
    )
}

#[test]
fn resolve_nested_chain() {
    let chain = vec![users_nest_entry(), get_by_id_entry()];
    let resolved = route_resolver(&chain, vec![32.to_string()]);
    assert_eq!(resolved, Ok("/users/32".to_string()));
}

#[test]
fn resolve_without_prefix() {
    let chain = vec![get_by_id_entry()];
    let resolved = route_resolver(&chain, vec![32.to_string()]);
    assert_eq!(resolved, Ok("/32".to_string()));
}

#[test]
fn resolve_two_parameters() {
    let chain = vec![users_nest_entry(), get_field_by_id_entry()];
    let resolved = route_resolver(&chain, vec![42.to_string(), "address".to_string()]);
    assert_eq!(resolved, Ok("/users/42/field/address".to_string()));
}

#[test]
fn resolve_too_few_parameters() {
    let chain = vec![get_by_id_entry()];
    let resolved = route_resolver(&chain, ());
    assert_eq!(resolved, Err(RouteResolverError::ParametersMismatch));
}

#[test]
fn resolve_too_many_parameters() {
    let chain = vec![home_entry()];
    let resolved = route_resolver(&chain, vec!["extra".to_string()]);
    assert_eq!(resolved, Err(RouteResolverError::ParametersMismatch));
}

#[test]
fn resolve_nest_leaf_keeps_leftovers() {
    // a chain ending in a nested entry yields only the prefix; checking for
    // leftover values is the terminating leaf's business
    let chain = vec![users_nest_entry()];
    let resolved = route_resolver(&chain, vec!["spare".to_string()]);
    assert_eq!(resolved, Ok("/users".to_string()));
}

#[test]
fn resolve_empty_chain_is_empty_path() {
    let chain: Vec<RouteEntry> = vec![];
    let resolved = route_resolver(&chain, ());
    assert_eq!(resolved, Ok(String::new()));
}

#[test]
fn resolve_unit_equals_empty_vec() {
    let chain = vec![home_entry()];
    let with_unit = route_resolver(&chain, ());
    let with_vec = route_resolver(&chain, Vec::<String>::new());
    assert_eq!(with_unit, with_vec);
    assert_eq!(with_unit, Ok("/".to_string()));
}

#[test]
fn resolve_binds_positionally() {
    // parameter names never take part in binding: values fill the slots in
    // declaration order across the whole chain
    let entry = RouteEntry::method(
        "Pair".into(),
        Method::Get,
        Route::parse("/{second}/{first}").unwrap(),
        "pair".into(),
        None,
    );
    let resolved = route_resolver(&vec![entry], vec!["1".to_string(), "2".to_string()]);
    assert_eq!(resolved, Ok("/1/2".to_string()));
}

#[test]
fn resolve_consumes_across_levels() {
    // a nest prefix with a parameter consumes from the same queue as the leaf
    let leaf = || {
        RouteEntry::method(
            "GetDoc".into(),
            Method::Get,
            Route::parse("/docs/{doc_id}").unwrap(),
            "get_doc".into(),
            None,
        )
    };
    let nest = RouteEntry::nest(
        "Org".into(),
        Route::parse("/org/{org_id}").unwrap(),
        RouteTable::new(vec![leaf()]),
        None,
    );
    let resolved = route_resolver(&vec![nest, leaf()], vec!["7".to_string(), "9".to_string()]);
    assert_eq!(resolved, Ok("/org/7/docs/9".to_string()));
}
