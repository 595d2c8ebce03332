//! Mastodon nodes: where one is, and how to become a client of it.
use crate::address::{
    accepted_request_target, is_request_target, join_url, joined_url, parse_url, parsed_url,
};
use crate::api::oauth::{CreateApp, CreateAppView};
use crate::api::v1::client::{Client, ClientView};
use crate::api::{APIMethodRequest, RequestView};
use crate::errors::{Error, ErrorView};
use vstd::prelude::*;
use vstd::string::*;

verus! {

/// `Mastodon` is used to specify the base URL of a Mastodon node.
#[derive(Debug, PartialEq, Eq)]
pub struct Mastodon(pub String);

impl View for Mastodon {
    type V = Seq<char>;

    open spec fn view(&self) -> Seq<char> {
        self.0@
    }
}

/// The path that applications register at.
pub open spec fn apps_path() -> Seq<char> {
    "/api/v1/apps"@
}

/// The request that registers an application with the node at `base`: the
/// application's request at the address of `/api/v1/apps`.
pub open spec fn spec_registration(base: Seq<char>, app: CreateAppView) -> Result<
    RequestView,
    ErrorView,
> {
    match joined_url(base, apps_path()) {
        Err(message) => Err(ErrorView::Url(message)),
        Ok(address) => if accepted_request_target(address) {
            Ok(app.request(address, apps_path()))
        } else {
            Err(ErrorView::Url(address))
        },
    }
}

impl Mastodon {
    /// The node at `url`, which must be an absolute URL. The node keeps the
    /// URL as the `url` crate writes it.
    pub fn new(url: &str) -> (r: Result<Mastodon, Error>)
        ensures
            match parsed_url(url@) {
                Ok(address) => r matches Ok(m) && m@ == address,
                Err(message) => r matches Err(e) && e@ == ErrorView::Url(message),
            },
    {
        match parse_url(url) {
            Ok(address) => Ok(Mastodon(address)),
            Err(message) => Err(Error::Url(message)),
        }
    }

    /// The base URL of the node. There is always one.
    pub fn url(&self) -> (r: Result<String, Error>)
        ensures
            r matches Ok(u) && u@ == self@,
    {
        Ok(self.0.clone())
    }

    /// A client of the node that holds `token` as its bearer token. Every
    /// text is taken as a token.
    pub fn client(&self, token: &str) -> (r: Result<Client, Error>)
        ensures
            r matches Ok(c) && c@ == (ClientView { url_base: self@, token: Some(token@) }),
    {
        Ok(Client { url_base: self.0.clone(), token: Some(String::from_str(token)) })
    }

    /// A client of the node that holds no token.
    pub fn anonymous_client(&self) -> (c: Client)
        ensures
            c@ == (ClientView { url_base: self@, token: None }),
    {
        Client { url_base: self.0.clone(), token: None }
    }

    /// The address of `path` on the node: the base URL joined with it.
    pub fn endpoint_url(&self, path: &str) -> (r: Result<String, Error>)
        ensures
            match joined_url(self@, path@) {
                Ok(address) => r matches Ok(a) && a@ == address,
                Err(message) => r matches Err(e) && e@ == ErrorView::Url(message),
            },
    {
        match join_url(self.0.as_str(), path) {
            Ok(address) => Ok(address),
            Err(message) => Err(Error::Url(message)),
        }
    }

    /// The request that registers `app` with the node.
    pub fn registration_request(&self, app: &CreateApp) -> (r: Result<APIMethodRequest, Error>)
        ensures
            match spec_registration(self@, app@) {
                Ok(request) => r matches Ok(x) && x@ == request,
                Err(error) => r matches Err(e) && e@ == error,
            },
    {
        match join_url(self.0.as_str(), "/api/v1/apps") {
            Err(message) => Err(Error::Url(message)),
            Ok(address) => {
                if !is_request_target(address.as_str()) {
                    return Err(Error::Url(address));
                }
                Ok(app.request(address, "/api/v1/apps"))
            },
        }
    }
}

} // verus!
