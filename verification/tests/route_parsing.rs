use axum_routes::{
    parse_route_into_components, render_components, DefinitionError, ParseRouteError, Route,
    RouteComponent,
};

#[test]
fn route_parsing() -> Result<(), ParseRouteError> {
    assert_eq!(
        parse_route_into_components("/segment{param}/")?,
        Vec::from([
            RouteComponent::Path("/segment".into()),
            RouteComponent::Parameter("param".into()),
            RouteComponent::Path("/".into()),
        ])
    );
    assert_eq!(
        parse_route_into_components("/{&*(}/segment?wer")?,
        Vec::from([
            RouteComponent::Path("/".into()),
            RouteComponent::Parameter("&*(".into()),
            RouteComponent::Path("/segment?wer".into()),
        ])
    );

    Ok(())
}

#[test]
fn parse_segment_param() {
    let components = parse_route_into_components("/segment{param}/").unwrap();
    assert_eq!(
        components,
        vec![
            RouteComponent::Path("/segment".into()),
            RouteComponent::Parameter("param".into()),
            RouteComponent::Path("/".into()),
        ]
    );
}

#[test]
fn parse_company_users() {
    let components =
        parse_route_into_components("/company/{company_id}/users/{user_id}/list").unwrap();
    assert_eq!(
        components,
        vec![
            RouteComponent::Path("/company/".into()),
            RouteComponent::Parameter("company_id".into()),
            RouteComponent::Path("/users/".into()),
            RouteComponent::Parameter("user_id".into()),
            RouteComponent::Path("/list".into()),
        ]
    );
}

#[test]
fn parse_round_trip_examples() {
    let templates = vec![
        "/",
        "/users",
        "/segment{param}/",
        "/company/{company_id}/users/{user_id}/list",
        "/{a}{b}",
        "/x{y}z",
        "/{&*(}/segment?wer",
    ];
    for template in templates {
        let components = parse_route_into_components(template).unwrap();
        assert_eq!(render_components(&components), template);
    }
}

#[test]
fn parse_colon_is_literal() {
    // only `{name}` placeholders are parameters; a colon is ordinary text
    let components = parse_route_into_components("/company/:company_id").unwrap();
    assert_eq!(
        components,
        vec![RouteComponent::Path("/company/:company_id".into())]
    );
}

#[test]
fn parse_rejects_empty() {
    assert!(parse_route_into_components("").is_err());
}

#[test]
fn parse_rejects_unterminated_brace() {
    let err = parse_route_into_components("/a{bc").unwrap_err();
    assert_eq!(err.message(), "parameter is missing its closing brace");
}

#[test]
fn parse_rejects_empty_parameter_name() {
    let err = parse_route_into_components("/a{}b").unwrap_err();
    assert_eq!(err.message(), "parameter name must not be empty");
}

#[test]
fn route_parse_keeps_source() {
    let route = Route::parse("/company/{company_id}").unwrap();
    assert_eq!(route.route, "/company/{company_id}");
    assert_eq!(
        route.components,
        vec![
            RouteComponent::Path("/company/".into()),
            RouteComponent::Parameter("company_id".into()),
        ]
    );
}

#[test]
fn route_parse_requires_leading_slash() {
    let err = Route::parse("users").unwrap_err();
    assert_eq!(err, DefinitionError::MalformedTemplate("users".into()));
}

#[test]
fn route_parse_rejects_malformed() {
    let err = Route::parse("/a{").unwrap_err();
    assert_eq!(err, DefinitionError::MalformedTemplate("/a{".into()));
    let err = Route::parse("").unwrap_err();
    assert_eq!(err, DefinitionError::MalformedTemplate("".into()));
}
