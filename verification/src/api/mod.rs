//! The supported versions of the Mastodon API, currently only `/api/v1`, and
//! the description of a request that every version shares.
pub mod oauth;
pub mod v1;

pub use self::v1::client::Client;

use crate::text::{opt_text, opt_text_ref, str_eq};
use vstd::prelude::*;
use vstd::string::*;

verus! {

/// The HTTP verbs that the API uses.
#[derive(Clone, Copy, Debug, PartialEq, Eq, Structural)]
pub enum HttpMethod {
    Get,
    Post,
    Patch,
    Delete,
}

/// A request, described and not yet sent: the transport turns it into a
/// message on the wire.
#[derive(Clone, Debug, PartialEq, Eq)]
pub struct APIMethodRequest {
    /// The body, where the request carries one.
    pub body: Option<String>,
    /// The headers, each a name and its value, in the order they are sent.
    pub headers: Vec<(String, String)>,
    /// The HTTP verb.
    pub method: HttpMethod,
    /// The path of the endpoint, from its leading `/`.
    pub path: String,
    /// The query, without its leading `?`, where there is one.
    pub query: Option<String>,
    /// The address that the request goes to.
    pub uri: String,
}

/// What an `APIMethodRequest` holds, as mathematical values.
pub ghost struct RequestView {
    pub body: Option<Seq<char>>,
    pub headers: Seq<(Seq<char>, Seq<char>)>,
    pub method: HttpMethod,
    pub path: Seq<char>,
    pub query: Option<Seq<char>>,
    pub uri: Seq<char>,
}

/// The views of a list of headers.
pub open spec fn header_views(headers: Seq<(String, String)>) -> Seq<(Seq<char>, Seq<char>)> {
    Seq::new(headers.len(), |i: int| (headers[i].0@, headers[i].1@))
}

/// The value of the first header called `name`, where there is one.
pub open spec fn header_value(headers: Seq<(Seq<char>, Seq<char>)>, name: Seq<char>) -> Option<
    Seq<char>,
>
    decreases headers.len(),
{
    if headers.len() == 0 {
        None
    } else if headers[0].0 == name {
        Some(headers[0].1)
    } else {
        header_value(headers.drop_first(), name)
    }
}

impl View for APIMethodRequest {
    type V = RequestView;

    open spec fn view(&self) -> RequestView {
        RequestView {
            body: opt_text(self.body),
            headers: header_views(self.headers@),
            method: self.method,
            path: self.path@,
            query: opt_text(self.query),
            uri: self.uri@,
        }
    }
}

impl Default for APIMethodRequest {
    /// A `GET` of `/` with no headers, no query and no body.
    fn default() -> (r: APIMethodRequest)
        ensures
            r@ == (RequestView {
                body: None,
                headers: Seq::empty(),
                method: HttpMethod::Get,
                path: "/"@,
                query: None,
                uri: "/"@,
            }),
    {
        let r = APIMethodRequest {
            body: None,
            headers: Vec::new(),
            method: HttpMethod::Get,
            path: String::from_str("/"),
            query: None,
            uri: String::from_str("/"),
        };
        assert(header_views(r.headers@) =~= Seq::empty());
        r
    }
}

impl APIMethodRequest {
    /// The value of the first header called `name`, where the request has one.
    pub fn header(&self, name: &str) -> (r: Option<&String>)
        ensures
            opt_text_ref(r) == header_value(self@.headers, name@),
    {
        let mut i: usize = 0;
        proof {
            assert(self@.headers.subrange(0, self.headers.len() as int) =~= self@.headers);
        }
        while i < self.headers.len()
            invariant
                0 <= i <= self.headers.len(),
                self@.headers.len() == self.headers.len(),
                header_value(self@.headers, name@) == header_value(
                    self@.headers.subrange(i as int, self.headers.len() as int),
                    name@,
                ),
            decreases self.headers.len() - i,
        {
            let ghost rest = self@.headers.subrange(i as int, self.headers.len() as int);
            proof {
                assert(rest[0] == self@.headers[i as int]);
                assert(rest.drop_first() =~= self@.headers.subrange(
                    i as int + 1,
                    self.headers.len() as int,
                ));
            }
            if str_eq(self.headers[i].0.as_str(), name) {
                return Some(&self.headers[i].1);
            }
            i = i + 1;
        }
        proof {
            assert(self@.headers.subrange(i as int, self.headers.len() as int).len() == 0);
        }
        None
    }
}

} // verus!
