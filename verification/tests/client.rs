use auth0_client::client::{Auth0Client, GrantType};
use auth0_client::error::Error;

fn new_client() -> Auth0Client {
    Auth0Client::new(
        "client_id",
        "client_secret",
        "https://tenant.example.com",
        "https://audience.com",
    )
}

#[test]
fn return_none_when_not_authenticated() {
    let client = new_client();

    assert_eq!(client.access_token(), None);
}

#[test]
fn stored_access_token_is_returned() {
    let mut client = new_client();
    client.store_access_token(String::from("access_token"));
    assert_eq!(client.access_token(), Some(String::from("access_token")));
}

#[test]
fn token_endpoint_joins_domain_and_path() {
    let client = new_client();
    assert_eq!(client.token_endpoint_url(), "https://tenant.example.com/oauth/token");
}

#[test]
fn token_endpoint_collapses_doubled_slash() {
    let client = Auth0Client::new(
        "client_id",
        "client_secret",
        "https://tenant.example.com/",
        "https://audience.com",
    );
    assert_eq!(client.token_endpoint_url(), "https://tenant.example.com/oauth/token");
}

#[test]
fn credentials_body_carries_the_configuration() {
    let client = new_client();
    let body = client.credentials_request_body();
    let pairs: Vec<(&str, &str)> =
        body.iter().map(|(k, v)| (k.as_str(), v.as_str())).collect();
    assert_eq!(
        pairs,
        vec![
            ("grant_type", "client_credentials"),
            ("client_id", "client_id"),
            ("client_secret", "client_secret"),
            ("audience", "https://audience.com"),
        ]
    );
}

#[test]
fn password_body_appends_the_user_credentials() {
    let client = new_client();
    let body =
        client.password_request_body(String::from("user@email.com"), String::from("password"));
    assert_eq!(body.len(), 6);
    assert_eq!(body[4].0.as_str(), "username");
    assert_eq!(body[4].1.as_str(), "user@email.com");
    assert_eq!(body[5].0.as_str(), "password");
    assert_eq!(body[5].1.as_str(), "password");
}

#[test]
fn grant_type_names() {
    assert_eq!(GrantType::ClientCredentials.as_str(), "client_credentials");
    assert_eq!(GrantType::Password.as_str(), "password");
}

#[test]
fn access_token_response_parses_from_sample_body() {
    let body = "{\"access_token\": \"access_token\", \"token_type\": \"Bearer\"}";
    let response = auth0_client::client::parse_access_token_response(body).unwrap();
    assert_eq!(response.access_token, "access_token");
}

#[test]
fn access_token_response_rejects_bodies_without_token() {
    let missing = auth0_client::client::parse_access_token_response("{\"token_type\": \"Bearer\"}");
    assert!(matches!(missing, Err(Error::MalformedResponse)));
    let not_json = auth0_client::client::parse_access_token_response("not json");
    assert!(matches!(not_json, Err(Error::MalformedResponse)));
    let wrong_type = auth0_client::client::parse_access_token_response("{\"access_token\": 5}");
    assert!(matches!(wrong_type, Err(Error::MalformedResponse)));
}
