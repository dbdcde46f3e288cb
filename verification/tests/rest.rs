use crabodon::rest::ApplicationBody;
use crabodon::rest::TokenBody;

#[test]
fn application_body_new_keeps_every_field() {
    let body = ApplicationBody::new(
        "crabodon".to_string(),
        "urn:ietf:wg:oauth:2.0:oob".to_string(),
        Some("read write".to_string()),
        Some("https://example.com".to_string()),
    );
    assert_eq!(body.client_name(), "crabodon");
    assert_eq!(body.redirect_uris(), "urn:ietf:wg:oauth:2.0:oob");
    assert_eq!(body.scopes(), &Some("read write".to_string()));
    assert_eq!(body.website(), &Some("https://example.com".to_string()));
}

#[test]
fn application_body_for_client_has_no_scopes_and_no_website() {
    let body = ApplicationBody::for_client("crabodon".to_string(), "https://cb".to_string());
    assert_eq!(body.client_name(), "crabodon");
    assert_eq!(body.redirect_uris(), "https://cb");
    assert_eq!(body.scopes(), &None);
    assert_eq!(body.website(), &None);
}

#[test]
fn application_body_with_scopes_changes_scopes_only() {
    let body = ApplicationBody::for_client("name".to_string(), "uri".to_string())
        .with_website("site".to_string())
        .with_scopes("read".to_string())
        .with_scopes("write".to_string());
    assert_eq!(body.client_name(), "name");
    assert_eq!(body.redirect_uris(), "uri");
    assert_eq!(body.scopes(), &Some("write".to_string()));
    assert_eq!(body.website(), &Some("site".to_string()));
}

#[test]
fn application_body_with_website_changes_website_only() {
    let body = ApplicationBody::new(
        "name".to_string(),
        "uri".to_string(),
        Some("read".to_string()),
        Some("old".to_string()),
    )
    .with_website("new".to_string());
    assert_eq!(body.client_name(), "name");
    assert_eq!(body.redirect_uris(), "uri");
    assert_eq!(body.scopes(), &Some("read".to_string()));
    assert_eq!(body.website(), &Some("new".to_string()));
}

#[test]
fn token_body_new_keeps_every_field() {
    let body = TokenBody::new(
        "client_credentials".to_string(),
        None,
        "id".to_string(),
        "secret".to_string(),
        "uri".to_string(),
        Some("read".to_string()),
    );
    assert_eq!(body.grant_type(), "client_credentials");
    assert_eq!(body.code(), &None);
    assert_eq!(body.client_id(), "id");
    assert_eq!(body.client_secret(), "secret");
    assert_eq!(body.redirect_uri(), "uri");
    assert_eq!(body.scope(), &Some("read".to_string()));
}

#[test]
fn token_body_with_code_grants_by_authorization_code() {
    let body = TokenBody::with_code(
        "the code".to_string(),
        "id".to_string(),
        "secret".to_string(),
        "uri".to_string(),
    );
    assert_eq!(body.grant_type(), "authorization_code");
    assert_eq!(body.code(), &Some("the code".to_string()));
    assert_eq!(body.client_id(), "id");
    assert_eq!(body.client_secret(), "secret");
    assert_eq!(body.redirect_uri(), "uri");
    assert_eq!(body.scope(), &None);
}

#[test]
fn token_body_with_scope_changes_scope_only() {
    let body = TokenBody::with_code(
        "code".to_string(),
        "id".to_string(),
        "secret".to_string(),
        "uri".to_string(),
    )
    .with_scope("read".to_string())
    .with_scope("read write".to_string());
    assert_eq!(body.grant_type(), "authorization_code");
    assert_eq!(body.code(), &Some("code".to_string()));
    assert_eq!(body.client_id(), "id");
    assert_eq!(body.client_secret(), "secret");
    assert_eq!(body.redirect_uri(), "uri");
    assert_eq!(body.scope(), &Some("read write".to_string()));
}
