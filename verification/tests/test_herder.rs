use herder::api::oauth::{CreateApp, OAuthApp};
use herder::api::v1::methods::APIEndpoint;
use herder::api::HttpMethod;
use herder::{Error, Mastodon};
use url::Url;

#[test]
fn test_herder_mastodon_node_created() {
    let mastodon_node = Mastodon::new("http://localhost").unwrap();
    assert_eq!(mastodon_node.0, Url::parse("http://localhost").unwrap().into_string());
}

#[test]
fn client_registration() {
    let mastodon = Mastodon::new("http://localhost:3000").unwrap();
    let app = CreateApp::new("herder-app", "urn:ietf:wg:oauth:2.0:oob", "read write follow");
    let request = mastodon.registration_request(&app).unwrap();
    assert_eq!(request.method, HttpMethod::Post);
    assert_eq!(request.uri, "http://localhost:3000/api/v1/apps");
    assert_eq!(request.path, "/api/v1/apps");
    assert_eq!(
        request.body,
        Some(String::from(
            "client_name=herder-app&redirect_uris=urn%3Aietf%3Awg%3Aoauth%3A2.0%3Aoob&scopes=read+write+follow"
        ))
    );
    assert_eq!(
        request.header("Content-Type"),
        Some(&String::from("application/x-www-form-urlencoded"))
    );
    let body = r#"{"id":7,"client_id":"CID","client_secret":"CSEC","redirect_uri":"urn:ietf:wg:oauth:2.0:oob"}"#;
    let registered = OAuthApp::from_response(200, body).unwrap();
    assert_eq!(
        registered,
        OAuthApp {
            id: Some(7),
            client_id: String::from("CID"),
            client_secret: String::from("CSEC"),
            redirect_uri: String::from("urn:ietf:wg:oauth:2.0:oob"),
        }
    );
}

#[test]
fn client_token_authentication() {
    let mastodon = Mastodon::new("http://localhost:3000").unwrap();
    let visitor = mastodon.anonymous_client();
    assert!(!visitor.is_authenticated());
    assert_eq!(visitor.build_request(APIEndpoint::GetCurrentUser), Err(Error::AuthRequired));
    let client = visitor.with_token("MY_TOKEN");
    assert!(client.is_authenticated());
    assert!(!visitor.is_authenticated());
    let request = client.build_request(APIEndpoint::GetCurrentUser).unwrap();
    assert_eq!(request.header("Authorization"), Some(&String::from("Bearer MY_TOKEN")));
    assert_eq!(client, mastodon.client("MY_TOKEN").unwrap());
}
