//! The client of the API under `/api/v1`: it turns a method into the request
//! that reaches it.
use crate::address::{accepted_request_target, is_request_target, join_url, joined_url};
use crate::api::v1::methods::{APIEndpoint, UserFormData};
use crate::api::{header_value, APIMethodRequest, HttpMethod, RequestView};
use crate::text::opt_text;
use crate::errors::{Error, ErrorView};
use vstd::prelude::*;
use vstd::string::*;

verus! {

/// The API client: the base URL of a node and, once a token was supplied,
/// the bearer token. A client without a token can call the methods that are
/// open to everybody.
#[derive(Debug, PartialEq, Eq)]
pub struct Client {
    pub url_base: String,
    pub token: Option<String>,
}

/// What a `Client` holds, as mathematical values.
pub ghost struct ClientView {
    pub url_base: Seq<char>,
    pub token: Option<Seq<char>>,
}

impl View for Client {
    type V = ClientView;

    open spec fn view(&self) -> ClientView {
        ClientView { url_base: self.url_base@, token: opt_text(self.token) }
    }
}

/// The value of the `Authorization` header for a token.
pub open spec fn bearer(token: Seq<char>) -> Seq<char> {
    "Bearer "@ + token
}

/// The headers of the request of a method: `Authorization` with the token
/// where the method sends it, then `Content-Type` where it has a body.
pub open spec fn spec_headers(token: Option<Seq<char>>, endpoint: &APIEndpoint) -> Seq<
    (Seq<char>, Seq<char>),
> {
    let authorization = if endpoint.spec_route().bearer && token is Some {
        seq![("Authorization"@, bearer(token->Some_0))]
    } else {
        Seq::empty()
    };
    let content_type = match endpoint.spec_content_type() {
        Some(t) => seq![("Content-Type"@, t)],
        None => Seq::empty(),
    };
    authorization + content_type
}

/// The request of a method at the address that was found for it. A method
/// that sends the token cannot be called without one.
pub open spec fn spec_request_at(
    client: ClientView,
    endpoint: &APIEndpoint,
    address: Seq<char>,
) -> Result<RequestView, ErrorView> {
    if endpoint.spec_route().bearer && client.token is None {
        Err(ErrorView::AuthRequired)
    } else {
        Ok(
            RequestView {
                body: endpoint.spec_body(),
                headers: spec_headers(client.token, endpoint),
                method: endpoint.spec_route().method,
                path: endpoint.spec_path(),
                query: endpoint.spec_query(),
                uri: address,
            },
        )
    }
}

/// The request of a method.
///
/// A method that sends the token cannot be called without one. The address
/// is the base URL joined with what the method asks for; it must be one
/// that can be joined and that is taken as the target of a request.
pub open spec fn spec_request(client: ClientView, endpoint: &APIEndpoint) -> Result<
    RequestView,
    ErrorView,
> {
    if endpoint.spec_route().bearer && client.token is None {
        Err(ErrorView::AuthRequired)
    } else {
        match joined_url(client.url_base, endpoint.spec_target()) {
            Err(message) => Err(ErrorView::Url(message)),
            Ok(address) => if accepted_request_target(address) {
                spec_request_at(client, endpoint, address)
            } else {
                Err(ErrorView::Url(address))
            },
        }
    }
}

impl Client {
    /// The address of `path` on the node: the base URL joined with it.
    pub fn endpoint_url(&self, path: &str) -> (r: Result<String, Error>)
        ensures
            match joined_url(self@.url_base, path@) {
                Ok(address) => r matches Ok(a) && a@ == address,
                Err(message) => r matches Err(e) && e@ == ErrorView::Url(message),
            },
    {
        match join_url(self.url_base.as_str(), path) {
            Ok(address) => Ok(address),
            Err(message) => Err(Error::Url(message)),
        }
    }

    /// Whether the client holds a token.
    pub fn is_authenticated(&self) -> (yes: bool)
        ensures
            yes == self@.token is Some,
    {
        self.token.is_some()
    }

    /// The same client with `token` as its bearer token: a new value, this
    /// one stays as it is.
    pub fn with_token(&self, token: &str) -> (c: Client)
        ensures
            c@ == (ClientView { url_base: self@.url_base, token: Some(token@) }),
    {
        Client { url_base: self.url_base.clone(), token: Some(String::from_str(token)) }
    }

    fn headers(&self, endpoint: &APIEndpoint) -> (h: Vec<(String, String)>)
        ensures
            crate::api::header_views(h@) == spec_headers(self@.token, endpoint),
    {
        let mut h: Vec<(String, String)> = Vec::new();
        if endpoint.requires_auth() {
            match &self.token {
                Some(token) => {
                    let mut value = String::from_str("Bearer ");
                    value.append(token.as_str());
                    h.push((String::from_str("Authorization"), value));
                },
                None => {},
            }
        }
        match endpoint.content_type() {
            Some(t) => {
                h.push((String::from_str("Content-Type"), String::from_str(t)));
            },
            None => {},
        }
        assert(crate::api::header_views(h@) =~= spec_headers(self@.token, endpoint));
        h
    }

    /// Builds the request of a method that goes to `address`.
    pub fn request_at(&self, endpoint: APIEndpoint, address: String) -> (r: Result<
        APIMethodRequest,
        Error,
    >)
        ensures
            match spec_request_at(self@, &endpoint, address@) {
                Ok(request) => r matches Ok(x) && x@ == request,
                Err(error) => r matches Err(e) && e@ == error,
            },
    {
        if endpoint.requires_auth() && self.token.is_none() {
            return Err(Error::AuthRequired);
        }
        Ok(
            APIMethodRequest {
                body: endpoint.body(),
                headers: self.headers(&endpoint),
                method: endpoint.method(),
                path: endpoint.path(),
                query: endpoint.query(),
                uri: address,
            },
        )
    }

    /// Builds the request of a method.
    pub fn build_request(&self, endpoint: APIEndpoint) -> (r: Result<APIMethodRequest, Error>)
        ensures
            match spec_request(self@, &endpoint) {
                Ok(request) => r matches Ok(x) && x@ == request,
                Err(error) => r matches Err(e) && e@ == error,
            },
    {
        if endpoint.requires_auth() && self.token.is_none() {
            return Err(Error::AuthRequired);
        }
        let target = endpoint.target();
        match join_url(self.url_base.as_str(), target.as_str()) {
            Err(message) => Err(Error::Url(message)),
            Ok(address) => {
                if !is_request_target(address.as_str()) {
                    return Err(Error::Url(address));
                }
                self.request_at(endpoint, address)
            },
        }
    }
}

/// A method that is open to everybody sends no `Authorization` header,
/// whether or not the client holds a token.
pub proof fn lemma_anonymous_sends_no_token(client: ClientView, endpoint: APIEndpoint)
    requires
        !endpoint.spec_route().bearer,
        spec_request(client, &endpoint) is Ok,
    ensures
        header_value(spec_request(client, &endpoint)->Ok_0.headers, "Authorization"@) is None,
{
    reveal_strlit("Authorization");
    reveal_strlit("Content-Type");
    assert("Authorization"@.len() == 13);
    assert("Content-Type"@.len() == 12);
    let headers = spec_headers(client.token, &endpoint);
    match endpoint.spec_content_type() {
        Some(t) => {
            assert(headers =~= seq![("Content-Type"@, t)]);
            assert(headers.drop_first() =~= Seq::empty());
        },
        None => {
            assert(headers =~= Seq::empty());
        },
    }
}

/// A method that sends the token sends it as `Bearer` and the token, in the
/// `Authorization` header, and cannot be built without a token.
pub proof fn lemma_bearer_sends_token(client: ClientView, endpoint: APIEndpoint)
    requires
        endpoint.spec_route().bearer,
    ensures
        client.token is None ==> spec_request(client, &endpoint) == Err::<
            RequestView,
            ErrorView,
        >(ErrorView::AuthRequired),
        spec_request(client, &endpoint) matches Ok(r) ==> client.token is Some && header_value(
            r.headers,
            "Authorization"@,
        ) == Some(bearer(client.token->Some_0)),
{
    if client.token is Some {
        let headers = spec_headers(client.token, &endpoint);
        assert(headers[0] == ("Authorization"@, bearer(client.token->Some_0)));
    }
}

/// An update of the current user is a `PATCH` of
/// `/api/v1/accounts/update_credentials`, whatever the form holds.
pub proof fn lemma_update_current_user(client: ClientView, form: UserFormData)
    ensures
        APIEndpoint::UpdateCurrentUser(form).spec_route().method == HttpMethod::Patch,
        APIEndpoint::UpdateCurrentUser(form).spec_path()
            == "/api/v1/accounts/update_credentials"@,
        APIEndpoint::UpdateCurrentUser(form).spec_query() is None,
        spec_request(client, &APIEndpoint::UpdateCurrentUser(form)) matches Ok(r) ==> r.method
            == HttpMethod::Patch && r.path == "/api/v1/accounts/update_credentials"@,
{
    reveal_strlit("");
    let e = APIEndpoint::UpdateCurrentUser(form);
    assert(e.spec_path() =~= "/api/v1/accounts/update_credentials"@);
}

} // verus!
