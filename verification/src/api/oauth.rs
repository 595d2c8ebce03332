//! The registration of an application with a Mastodon node, and the
//! credentials that the node issues for it.
use crate::address::{
    append_pair, form_char_kept, form_escaped, form_with_pair, lemma_kept_text_is_unchanged,
};
use crate::api::v1::fields::{
    fault_not_an_object, is_object, json_opt_u64, json_text, not_an_object, push_member,
    read_opt_u64, read_text, spec_opt_u64, spec_text, write_opt_u64, write_text,
};
use crate::api::v1::response::{read_server_message, server_message};
use crate::api::v1::wire::{decode, spec_decode, Wire};
use crate::api::v1::Entity;
use crate::api::{header_views, APIMethodRequest, HttpMethod, RequestView};
use crate::errors::{Error, ErrorView, Fault, FaultView};
use crate::json::{lemma_member_push, lemma_object_view, member_views, Json, JsonView};
use crate::text::{append_decimal, digits_of, lemma_text_int_of_int_text};
use vstd::prelude::*;
use vstd::string::*;

verus! {

/// The credentials of a registered application.
#[derive(Debug, PartialEq, Eq)]
pub struct OAuthApp {
    pub id: Option<u64>,
    pub client_id: String,
    pub client_secret: String,
    pub redirect_uri: String,
}

/// What an `OAuthApp` holds, as mathematical values.
pub ghost struct OAuthAppView {
    pub id: Option<u64>,
    pub client_id: Seq<char>,
    pub client_secret: Seq<char>,
    pub redirect_uri: Seq<char>,
}

impl View for OAuthApp {
    type V = OAuthAppView;

    open spec fn view(&self) -> OAuthAppView
    {
        OAuthAppView {
            id: self.id,
            client_id: self.client_id@,
            client_secret: self.client_secret@,
            redirect_uri: self.redirect_uri@,
        }
    }
}

impl OAuthAppView {
    /// The JSON object of the oauthapp.
    pub open spec fn to_json(self) -> JsonView
    {
        JsonView::Object(
            Seq::empty()
                .push(("id"@, json_opt_u64(self.id)))
                .push(("client_id"@, json_text(self.client_id)))
                .push(("client_secret"@, json_text(self.client_secret)))
                .push(("redirect_uri"@, json_text(self.redirect_uri))),
        )
    }
}

impl Wire for OAuthApp {
    open spec fn spec_kind() -> Entity {
        Entity::OAuthApp
    }

    open spec fn spec_required() -> Seq<Seq<char>> {
        seq!["client_id"@, "client_secret"@, "redirect_uri"@]
    }

    #[verifier::opaque]
    open spec fn spec_from_json(j: JsonView) -> Result<OAuthAppView, FaultView>
    {
        let id = spec_opt_u64(j, "id"@);
        let client_id = spec_text(j, "client_id"@);
        let client_secret = spec_text(j, "client_secret"@);
        let redirect_uri = spec_text(j, "redirect_uri"@);
        if !(j is Object) {
            Err(not_an_object())
        } else if id is Err {
            Err(id->Err_0)
        } else if client_id is Err {
            Err(client_id->Err_0)
        } else if client_secret is Err {
            Err(client_secret->Err_0)
        } else if redirect_uri is Err {
            Err(redirect_uri->Err_0)
        } else {
            Ok(
                OAuthAppView {
                    id: id->Ok_0,
                    client_id: client_id->Ok_0,
                    client_secret: client_secret->Ok_0,
                    redirect_uri: redirect_uri->Ok_0,
                },
            )
        }
    }

    open spec fn spec_to_json(v: OAuthAppView) -> JsonView {
        v.to_json()
    }

    fn kind() -> (k: Entity) {
        Entity::OAuthApp
    }

    fn from_json(j: &Json) -> (r: Result<OAuthApp, Fault>)
    {
        proof {
            reveal(<OAuthApp as Wire>::spec_from_json);
        }
        if !is_object(j) {
            return Err(fault_not_an_object());
        }
        let id = read_opt_u64(j, "id")?;
        let client_id = read_text(j, "client_id")?;
        let client_secret = read_text(j, "client_secret")?;
        let redirect_uri = read_text(j, "redirect_uri")?;
        Ok(OAuthApp { id, client_id, client_secret, redirect_uri })
    }

    fn to_json(&self) -> (j: Json)
    {
        let mut members: Vec<(String, Json)> = Vec::new();
        proof {
            assert(member_views(members@) =~= Seq::empty());
        }
        push_member(&mut members, "id", write_opt_u64(self.id));
        push_member(&mut members, "client_id", write_text(&self.client_id));
        push_member(&mut members, "client_secret", write_text(&self.client_secret));
        push_member(&mut members, "redirect_uri", write_text(&self.redirect_uri));
        proof {
            lemma_object_view(members);
        }
        Json::Object(members)
    }

    proof fn lemma_round_trip(v: OAuthAppView)
    {
        broadcast use lemma_member_push;

        reveal(<OAuthApp as Wire>::spec_from_json);
        reveal_strlit("id");
        assert("id"@.len() == 2 && "id"@[0] == 'i' && "id"@[1] == 'd');
        reveal_strlit("client_id");
        assert("client_id"@.len() == 9 && "client_id"@[0] == 'c' && "client_id"@[1] == 'l' && "client_id"@[2] == 'i' && "client_id"@[3] == 'e' && "client_id"@[4] == 'n' && "client_id"@[5] == 't' && "client_id"@[6] == '_' && "client_id"@[7] == 'i' && "client_id"@[8] == 'd');
        reveal_strlit("client_secret");
        assert("client_secret"@.len() == 13 && "client_secret"@[0] == 'c' && "client_secret"@[1] == 'l' && "client_secret"@[2] == 'i' && "client_secret"@[3] == 'e' && "client_secret"@[4] == 'n' && "client_secret"@[5] == 't' && "client_secret"@[6] == '_' && "client_secret"@[7] == 's' && "client_secret"@[8] == 'e' && "client_secret"@[9] == 'c' && "client_secret"@[10] == 'r' && "client_secret"@[11] == 'e' && "client_secret"@[12] == 't');
        reveal_strlit("redirect_uri");
        assert("redirect_uri"@.len() == 12 && "redirect_uri"@[0] == 'r' && "redirect_uri"@[1] == 'e' && "redirect_uri"@[2] == 'd' && "redirect_uri"@[3] == 'i' && "redirect_uri"@[4] == 'r' && "redirect_uri"@[5] == 'e' && "redirect_uri"@[6] == 'c' && "redirect_uri"@[7] == 't' && "redirect_uri"@[8] == '_' && "redirect_uri"@[9] == 'u' && "redirect_uri"@[10] == 'r' && "redirect_uri"@[11] == 'i');
        let j = v.to_json();
        if v.id is Some {
            lemma_text_int_of_int_text(v.id->Some_0 as int);
        }
        assert(spec_opt_u64(j, "id"@) == Ok::<Option<u64>, FaultView>(v.id));
        assert(spec_text(j, "client_id"@) == Ok::<Seq<char>, FaultView>(v.client_id));
        assert(spec_text(j, "client_secret"@) == Ok::<Seq<char>, FaultView>(v.client_secret));
        assert(spec_text(j, "redirect_uri"@) == Ok::<Seq<char>, FaultView>(v.redirect_uri));
    }

    proof fn lemma_needs_fields(j: JsonView, k: int) {
        reveal(<OAuthApp as Wire>::spec_from_json);
        reveal_strlit("client_id");
        reveal_strlit("client_secret");
        reveal_strlit("redirect_uri");
    }
}

/// How an `OAuthApp` is shown: `App(`, its id as `Some(..)` or `None`, `, `,
/// its client id and `)`.
pub open spec fn described(app: OAuthAppView) -> Seq<char> {
    "App("@ + (match app.id {
        Some(n) => "Some("@ + digits_of(n as nat) + ")"@,
        None => "None"@,
    }) + ", "@ + app.client_id + ")"@
}

/// The credentials in the answer to a registration: those that the body
/// holds where the status is between 200 and 299; else the error of the
/// server, with its message where the body gives one.
pub open spec fn spec_registered(status: u16, body: Seq<char>) -> Result<OAuthAppView, ErrorView> {
    if 200 <= status <= 299 {
        match spec_decode::<OAuthApp>(body) {
            Ok(v) => Ok(v),
            Err(e) => Err(ErrorView::Decode(e)),
        }
    } else {
        Err(ErrorView::Api { status, message: server_message(body) })
    }
}

impl OAuthApp {
    /// Credentials that hold nothing yet.
    pub fn new() -> (app: OAuthApp)
        ensures
            app@ == (OAuthAppView {
                id: None,
                client_id: Seq::empty(),
                client_secret: Seq::empty(),
                redirect_uri: Seq::empty(),
            }),
    {
        OAuthApp {
            id: None,
            client_id: String::new(),
            client_secret: String::new(),
            redirect_uri: String::new(),
        }
    }

    /// The credentials as a line of text.
    pub fn describe(&self) -> (text: String)
        ensures
            text@ == described(self@),
    {
        let mut text = String::from_str("App(");
        match self.id {
            Some(n) => {
                text.append("Some(");
                append_decimal(&mut text, n);
                text.append(")");
            },
            None => {
                text.append("None");
            },
        }
        text.append(", ");
        text.append(self.client_id.as_str());
        text.append(")");
        assert(text@ =~= described(self@));
        text
    }

    /// Reads the answer to a registration.
    pub fn from_response(status: u16, body: &str) -> (r: Result<OAuthApp, Error>)
        ensures
            match spec_registered(status, body@) {
                Ok(v) => r matches Ok(x) && x@ == v,
                Err(f) => r matches Err(e) && e@ == f,
            },
    {
        if 200 <= status && status <= 299 {
            match decode::<OAuthApp>(body) {
                Ok(v) => Ok(v),
                Err(e) => Err(Error::Decode(e)),
            }
        } else {
            Err(Error::Api { status, message: read_server_message(body) })
        }
    }
}

/// What a node is told of an application that registers.
#[derive(Debug, PartialEq, Eq)]
pub struct CreateApp {
    pub(crate) client_name: String,
    pub(crate) redirect_uris: String,
    pub(crate) scopes: String,
}

/// What a `CreateApp` holds, as mathematical values.
pub ghost struct CreateAppView {
    pub client_name: Seq<char>,
    pub redirect_uris: Seq<char>,
    pub scopes: Seq<char>,
}

impl View for CreateApp {
    type V = CreateAppView;

    closed spec fn view(&self) -> CreateAppView {
        CreateAppView {
            client_name: self.client_name@,
            redirect_uris: self.redirect_uris@,
            scopes: self.scopes@,
        }
    }
}

impl CreateAppView {
    /// The form that registers the application: `client_name`,
    /// `redirect_uris` and `scopes`, in this order.
    pub open spec fn form(self) -> Seq<char> {
        form_with_pair(
            form_with_pair(
                form_with_pair(Seq::empty(), "client_name"@, self.client_name),
                "redirect_uris"@,
                self.redirect_uris,
            ),
            "scopes"@,
            self.scopes,
        )
    }
}

impl CreateAppView {
    /// The request that registers the application: a `POST` of its form to
    /// `address`, whose path is `path`.
    pub open spec fn request(self, address: Seq<char>, path: Seq<char>) -> RequestView {
        RequestView {
            body: Some(self.form()),
            headers: seq![("Content-Type"@, "application/x-www-form-urlencoded"@)],
            method: HttpMethod::Post,
            path,
            query: None,
            uri: address,
        }
    }
}

impl Default for CreateApp {
    /// The application `herder`, which is not redirected and asks to read.
    fn default() -> (app: CreateApp)
        ensures
            app@ == (CreateAppView {
                client_name: "herder"@,
                redirect_uris: "urn:ietf:wg:oauth:2.0:oob"@,
                scopes: "read"@,
            }),
    {
        CreateApp {
            client_name: String::from_str("herder"),
            redirect_uris: String::from_str("urn:ietf:wg:oauth:2.0:oob"),
            scopes: String::from_str("read"),
        }
    }
}

impl CreateApp {
    /// An application by its name, where its users are sent after they
    /// authorized it, and what it asks to do: `read`, `write`, `follow`, as a
    /// list with spaces between.
    pub fn new(name: &str, uris: &str, scopes: &str) -> (app: CreateApp)
        ensures
            app@ == (CreateAppView { client_name: name@, redirect_uris: uris@, scopes: scopes@ }),
    {
        CreateApp {
            client_name: String::from_str(name),
            redirect_uris: String::from_str(uris),
            scopes: String::from_str(scopes),
        }
    }

    /// The request that registers the application at `address`, whose path
    /// is `path`.
    pub fn request(&self, address: String, path: &str) -> (r: APIMethodRequest)
        ensures
            r@ == self@.request(address@, path@),
    {
        let mut headers: Vec<(String, String)> = Vec::new();
        headers.push(
            (
                String::from_str("Content-Type"),
                String::from_str("application/x-www-form-urlencoded"),
            ),
        );
        assert(header_views(headers@) =~= seq![
            ("Content-Type"@, "application/x-www-form-urlencoded"@),
        ]);
        APIMethodRequest {
            body: Some(self.form_encode()),
            headers,
            method: HttpMethod::Post,
            path: String::from_str(path),
            query: None,
            uri: address,
        }
    }

    /// The form that registers the application.
    pub fn form_encode(&self) -> (form: String)
        ensures
            form@ == self@.form(),
    {
        let form = append_pair(String::new(), "client_name", self.client_name.as_str());
        let form = append_pair(form, "redirect_uris", self.redirect_uris.as_str());
        append_pair(form, "scopes", self.scopes.as_str())
    }
}

/// The form of an application reads `client_name=`, `&redirect_uris=` and
/// `&scopes=`, each followed by its value in form syntax.
pub proof fn lemma_form_of_application(app: CreateAppView)
    ensures
        app.form() == "client_name="@ + form_escaped(vstd::utf8::encode_utf8(app.client_name))
            + "&redirect_uris="@ + form_escaped(vstd::utf8::encode_utf8(app.redirect_uris))
            + "&scopes="@ + form_escaped(vstd::utf8::encode_utf8(app.scopes)),
{
    reveal_strlit("client_name");
    assert forall|i: int| 0 <= i < "client_name"@.len() implies form_char_kept(
        #[trigger] "client_name"@[i],
    ) by {
        if i == 0 {
            assert("client_name"@[0] == 'c');
        } else if i == 1 {
            assert("client_name"@[1] == 'l');
        } else if i == 2 {
            assert("client_name"@[2] == 'i');
        } else if i == 3 {
            assert("client_name"@[3] == 'e');
        } else if i == 4 {
            assert("client_name"@[4] == 'n');
        } else if i == 5 {
            assert("client_name"@[5] == 't');
        } else if i == 6 {
            assert("client_name"@[6] == '_');
        } else if i == 7 {
            assert("client_name"@[7] == 'n');
        } else if i == 8 {
            assert("client_name"@[8] == 'a');
        } else if i == 9 {
            assert("client_name"@[9] == 'm');
        } else if i == 10 {
            assert("client_name"@[10] == 'e');
        }
    }
    lemma_kept_text_is_unchanged("client_name"@);
    reveal_strlit("redirect_uris");
    assert forall|i: int| 0 <= i < "redirect_uris"@.len() implies form_char_kept(
        #[trigger] "redirect_uris"@[i],
    ) by {
        if i == 0 {
            assert("redirect_uris"@[0] == 'r');
        } else if i == 1 {
            assert("redirect_uris"@[1] == 'e');
        } else if i == 2 {
            assert("redirect_uris"@[2] == 'd');
        } else if i == 3 {
            assert("redirect_uris"@[3] == 'i');
        } else if i == 4 {
            assert("redirect_uris"@[4] == 'r');
        } else if i == 5 {
            assert("redirect_uris"@[5] == 'e');
        } else if i == 6 {
            assert("redirect_uris"@[6] == 'c');
        } else if i == 7 {
            assert("redirect_uris"@[7] == 't');
        } else if i == 8 {
            assert("redirect_uris"@[8] == '_');
        } else if i == 9 {
            assert("redirect_uris"@[9] == 'u');
        } else if i == 10 {
            assert("redirect_uris"@[10] == 'r');
        } else if i == 11 {
            assert("redirect_uris"@[11] == 'i');
        } else if i == 12 {
            assert("redirect_uris"@[12] == 's');
        }
    }
    lemma_kept_text_is_unchanged("redirect_uris"@);
    reveal_strlit("scopes");
    assert forall|i: int| 0 <= i < "scopes"@.len() implies form_char_kept(
        #[trigger] "scopes"@[i],
    ) by {
        if i == 0 {
            assert("scopes"@[0] == 's');
        } else if i == 1 {
            assert("scopes"@[1] == 'c');
        } else if i == 2 {
            assert("scopes"@[2] == 'o');
        } else if i == 3 {
            assert("scopes"@[3] == 'p');
        } else if i == 4 {
            assert("scopes"@[4] == 'e');
        } else if i == 5 {
            assert("scopes"@[5] == 's');
        }
    }
    lemma_kept_text_is_unchanged("scopes"@);
    reveal_strlit("client_name=");
    reveal_strlit("&redirect_uris=");
    reveal_strlit("&scopes=");
    let name = form_escaped(vstd::utf8::encode_utf8(app.client_name));
    let uris = form_escaped(vstd::utf8::encode_utf8(app.redirect_uris));
    let scopes = form_escaped(vstd::utf8::encode_utf8(app.scopes));
    let first = form_with_pair(Seq::empty(), "client_name"@, app.client_name);
    assert(first =~= "client_name="@ + name);
    let second = form_with_pair(first, "redirect_uris"@, app.redirect_uris);
    assert(second =~= "client_name="@ + name + "&redirect_uris="@ + uris);
    assert(app.form() =~= "client_name="@ + name + "&redirect_uris="@ + uris + "&scopes="@ + scopes);
}

} // verus!
