use herder::api::oauth::CreateApp;
use herder::api::v1::methods::{
    APIEndpoint, AccountID, HomeTimelineQuery, RelationshipsQuery, SearchAccountsQuery,
    SearchContentsQuery, TimelineQuery, UserFormData,
};
use herder::api::{APIMethodRequest, HttpMethod};
use herder::{Client, Error, Mastodon};
use url::Url;

fn client_of(base: &str, token: Option<&str>) -> Client {
    Client { url_base: String::from(base), token: token.map(String::from) }
}

fn search(q: &str, limit: Option<usize>) -> APIEndpoint {
    APIEndpoint::SearchAccounts(SearchAccountsQuery { q: String::from(q), limit })
}

#[test]
fn a_node_keeps_its_url_as_the_url_crate_writes_it() {
    let mastodon = Mastodon::new("HTTP://Example.COM:80/a/../b").unwrap();
    assert_eq!(mastodon.0, "http://example.com/b");
    assert_eq!(mastodon.url(), Ok(String::from("http://example.com/b")));
    assert_eq!(mastodon.0, Url::parse("HTTP://Example.COM:80/a/../b").unwrap().into_string());
}

#[test]
fn a_node_needs_an_absolute_url() {
    assert_eq!(
        Mastodon::new("localhost"),
        Err(Error::Url(String::from("relative URL without a base")))
    );
    assert_eq!(Mastodon::new(""), Err(Error::Url(String::from("relative URL without a base"))));
    assert_eq!(Mastodon::new("http://"), Err(Error::Url(String::from("empty host"))));
    assert_eq!(Mastodon::new("http://a:b/"), Err(Error::Url(String::from("invalid port number"))));
}

#[test]
fn an_endpoint_is_joined_onto_the_base() {
    let mastodon = Mastodon::new("https://example.com/masto/").unwrap();
    assert_eq!(
        mastodon.endpoint_url("/api/v1/apps"),
        Ok(String::from("https://example.com/api/v1/apps"))
    );
    assert_eq!(
        mastodon.endpoint_url("api/v1/apps"),
        Ok(String::from("https://example.com/masto/api/v1/apps"))
    );
    let client = mastodon.client("T").unwrap();
    assert_eq!(
        client.endpoint_url("/oauth/token"),
        Ok(String::from("https://example.com/oauth/token"))
    );
}

#[test]
fn a_base_that_cannot_be_joined_is_an_url_error() {
    let client = client_of("not a url", Some("T"));
    assert_eq!(
        client.build_request(APIEndpoint::GetCurrentUser),
        Err(Error::Url(String::from("relative URL without a base")))
    );
    let client = client_of("mailto:jane@example.com", Some("T"));
    assert_eq!(
        client.endpoint_url("/api/v1/apps"),
        Err(Error::Url(String::from("relative URL with a cannot-be-a-base base")))
    );
}

#[test]
fn an_address_that_is_no_request_target_is_an_url_error() {
    let client = client_of("file:///tmp/", Some("T"));
    assert_eq!(
        client.build_request(APIEndpoint::GetInstance),
        Err(Error::Url(String::from("file:///api/v1/instance")))
    );
    let mastodon = Mastodon::new("file:///tmp/").unwrap();
    assert_eq!(
        mastodon.registration_request(&CreateApp::default()),
        Err(Error::Url(String::from("file:///api/v1/apps")))
    );
}

#[test]
fn a_bearer_method_needs_a_token() {
    let visitor = client_of("http://localhost:3000", None);
    assert_eq!(
        visitor.build_request(APIEndpoint::FollowAccount(AccountID { id: 1 })),
        Err(Error::AuthRequired)
    );
    assert_eq!(visitor.build_request(search("x", None)), Err(Error::AuthRequired));
    let request = visitor.build_request(APIEndpoint::GetInstance).unwrap();
    assert_eq!(request.headers, Vec::new());
    assert_eq!(request.uri, "http://localhost:3000/api/v1/instance");
}

#[test]
fn an_open_method_never_sends_the_token() {
    let client = client_of("http://localhost:3000", Some("MY_TOKEN"));
    let open = vec![
        APIEndpoint::GetInstance,
        APIEndpoint::PublicTimeline(TimelineQuery {
            local: None,
            max_id: None,
            since_id: None,
            limit: None,
        }),
        APIEndpoint::SearchContent(SearchContentsQuery { q: String::from("x"), resolve: None }),
    ];
    for endpoint in open {
        assert!(!endpoint.requires_auth());
        let request = client.build_request(endpoint).unwrap();
        assert_eq!(request.header("Authorization"), None);
    }
    let request = client.build_request(APIEndpoint::GetCurrentUser).unwrap();
    assert_eq!(
        request.headers,
        vec![(String::from("Authorization"), String::from("Bearer MY_TOKEN"))]
    );
}

#[test]
fn the_query_of_a_search_is_in_form_syntax() {
    assert_eq!(search("search text", None).query(), Some(String::from("q=search+text")));
    assert_eq!(
        search("a&b=c d/é*-._~", Some(40)).query(),
        Some(String::from("q=a%26b%3Dc+d%2F%C3%A9*-._%7E&limit=40"))
    );
    assert_eq!(search("", None).query(), Some(String::from("q=")));
    let client = client_of("http://localhost:3000", Some("T"));
    let request = client.build_request(search("a b", Some(5))).unwrap();
    assert_eq!(request.uri, "http://localhost:3000/api/v1/accounts/search?q=a+b&limit=5");
    assert_eq!(request.path, "/api/v1/accounts/search");
    assert_eq!(request.query, Some(String::from("q=a+b&limit=5")));
}

#[test]
fn relationships_are_asked_in_the_order_of_the_accounts() {
    let single = RelationshipsQuery::SingleAccount(AccountID { id: 12345 });
    assert_eq!(single.query(), "id=12345");
    let none = RelationshipsQuery::MultipleAccounts(Vec::new());
    assert_eq!(none.query(), "");
    assert_eq!(APIEndpoint::GetAccountRelationships(none).query(), None);
    let one = RelationshipsQuery::MultipleAccounts(vec![AccountID { id: 7 }]);
    assert_eq!(one.query(), "id[]=7");
    let three = RelationshipsQuery::MultipleAccounts(vec![
        AccountID { id: 67890 },
        AccountID { id: 12345 },
        AccountID { id: 0 },
    ]);
    assert_eq!(three.query(), "id[]=67890&id[]=12345&id[]=0");
}

#[test]
fn timeline_queries_keep_the_order_of_their_fields() {
    let all = TimelineQuery { local: Some(false), max_id: Some(9), since_id: Some(1), limit: Some(5) };
    assert_eq!(all.query(), "local=false&max_id=9&since_id=1&limit=5");
    let none = TimelineQuery { local: None, max_id: None, since_id: None, limit: None };
    assert_eq!(none.query(), "");
    let home = HomeTimelineQuery { max_id: None, since_id: Some(3), limit: Some(40) };
    assert_eq!(home.query(), "since_id=3&limit=40");
    let content = SearchContentsQuery { q: String::from("@jane@example.org"), resolve: Some(false) };
    assert_eq!(content.query(), "q=%40jane%40example.org&resolve=false");
}

#[test]
fn the_target_is_the_path_and_the_query() {
    assert_eq!(APIEndpoint::GetInstance.target(), "/api/v1/instance");
    assert_eq!(
        APIEndpoint::FetchMutes(String::from("limit=2")).target(),
        "/api/v1/mutes?limit=2"
    );
    assert_eq!(
        APIEndpoint::FetchAccount(AccountID { id: usize::MAX }).path(),
        format!("/api/v1/accounts/{}", usize::MAX)
    );
    assert_eq!(APIEndpoint::FetchAccount(AccountID { id: 0 }).path(), "/api/v1/accounts/0");
}

#[test]
fn an_update_carries_the_fields_that_are_set() {
    let client = client_of("http://localhost:3000", Some("T"));
    let form = UserFormData::new(
        Some(String::from("Jane")),
        None,
        Some(String::from("a \"b\"")),
        None,
    );
    let request = client.build_request(APIEndpoint::UpdateCurrentUser(form)).unwrap();
    assert_eq!(request.method, HttpMethod::Patch);
    assert_eq!(request.path, "/api/v1/accounts/update_credentials");
    assert_eq!(request.query, None);
    assert_eq!(
        request.body,
        Some(String::from(r#"{"display_name":"Jane","avatar":"a \"b\""}"#))
    );
    assert_eq!(
        request.headers,
        vec![
            (String::from("Authorization"), String::from("Bearer T")),
            (String::from("Content-Type"), String::from("application/json")),
        ]
    );
    let full = UserFormData::new(
        Some(String::from("d")),
        Some(String::from("n")),
        Some(String::from("a")),
        Some(String::from("h")),
    );
    let request = client.build_request(APIEndpoint::UpdateCurrentUser(full)).unwrap();
    assert_eq!(request.method, HttpMethod::Patch);
    assert_eq!(request.path, "/api/v1/accounts/update_credentials");
    assert_eq!(
        request.body,
        Some(String::from(r#"{"display_name":"d","note":"n","avatar":"a","header":"h"}"#))
    );
}

#[test]
fn a_request_without_a_body_has_none() {
    let client = client_of("http://localhost:3000", Some("T"));
    let request = client.build_request(APIEndpoint::ClearNotifications).unwrap();
    assert_eq!(request.body, None);
    assert_eq!(request.header("Content-Type"), None);
    assert_eq!(request.header("content-type"), None);
}

#[test]
fn the_first_of_two_headers_with_one_name_is_found() {
    let mut request = APIMethodRequest::default();
    assert_eq!(request.header("Accept"), None);
    request.headers.push((String::from("Accept"), String::from("a")));
    request.headers.push((String::from("Other"), String::from("o")));
    request.headers.push((String::from("Accept"), String::from("b")));
    assert_eq!(request.header("Accept"), Some(&String::from("a")));
    assert_eq!(request.header("Other"), Some(&String::from("o")));
}

#[test]
fn the_form_of_an_application_is_escaped() {
    let app = CreateApp::new("Été+hiver", "urn:ietf:wg:oauth:2.0:oob", "read write");
    assert_eq!(
        app.form_encode(),
        "client_name=%C3%89t%C3%A9%2Bhiver&redirect_uris=urn%3Aietf%3Awg%3Aoauth%3A2.0%3Aoob&scopes=read+write"
    );
    assert_eq!(
        CreateApp::default().form_encode(),
        "client_name=herder&redirect_uris=urn%3Aietf%3Awg%3Aoauth%3A2.0%3Aoob&scopes=read"
    );
    assert_eq!(CreateApp::default(), CreateApp::new("herder", "urn:ietf:wg:oauth:2.0:oob", "read"));
    assert_eq!(CreateApp::new("", "", "").form_encode(), "client_name=&redirect_uris=&scopes=");
}
