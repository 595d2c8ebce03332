//! The entities of the Mastodon API under `/api/v1`: what each holds, how it
//! is read from a JSON object and how it is written as one.
use crate::api::v1::fields::{
    fault_not_an_object, is_object, json_int, json_opt, json_opt_i32, json_opt_text, json_text,
    lemma_list_round_trip, not_an_object, push_member, read_bool, read_i32, read_opt_i32,
    read_opt_text, read_optional, read_text, read_text_list, spec_bool, spec_i32, spec_list,
    spec_nested, spec_opt_i32, spec_opt_nested, spec_opt_text, spec_optional, spec_text,
    text_reader, text_writer, views, write_i32, write_opt_i32, write_opt_text, write_text,
    write_text_list,
};
use crate::api::v1::wire::{
    read_list, read_nested, read_opt_nested, reader, write_list, write_opt, writer, Wire,
};
use crate::api::v1::Entity;
use crate::errors::{fault_under, Fault, FaultView};
use crate::json::{
    lemma_member_push, lemma_member_smaller, lemma_object_view, member_views, Json, JsonView,
};
use crate::text::{lemma_text_int_of_int_text, opt_text, str_eq};
use vstd::prelude::*;
use vstd::string::*;

verus! {

/// An account of a user.
#[derive(Debug, PartialEq)]
pub struct Account {
    pub account_id: i32,
    pub username: String,
    pub acct: String,
    pub display_name: String,
    pub note: String,
    pub url: String,
    pub avatar: String,
    pub header: String,
    pub locked: bool,
    pub created_at: String,
    pub followers_count: i32,
    pub following_count: i32,
    pub statuses_count: i32,
}

/// What an `Account` holds, as mathematical values.
pub ghost struct AccountView {
    pub account_id: i32,
    pub username: Seq<char>,
    pub acct: Seq<char>,
    pub display_name: Seq<char>,
    pub note: Seq<char>,
    pub url: Seq<char>,
    pub avatar: Seq<char>,
    pub header: Seq<char>,
    pub locked: bool,
    pub created_at: Seq<char>,
    pub followers_count: i32,
    pub following_count: i32,
    pub statuses_count: i32,
}

impl View for Account {
    type V = AccountView;

    open spec fn view(&self) -> AccountView
    {
        AccountView {
            account_id: self.account_id,
            username: self.username@,
            acct: self.acct@,
            display_name: self.display_name@,
            note: self.note@,
            url: self.url@,
            avatar: self.avatar@,
            header: self.header@,
            locked: self.locked,
            created_at: self.created_at@,
            followers_count: self.followers_count,
            following_count: self.following_count,
            statuses_count: self.statuses_count,
        }
    }
}

impl Default for Account {
    /// An account that holds nothing: empty texts, zeros, and not locked.
    fn default() -> (a: Account)
        ensures
            a@ == (AccountView {
                account_id: 0,
                username: Seq::empty(),
                acct: Seq::empty(),
                display_name: Seq::empty(),
                note: Seq::empty(),
                url: Seq::empty(),
                avatar: Seq::empty(),
                header: Seq::empty(),
                locked: false,
                created_at: Seq::empty(),
                followers_count: 0,
                following_count: 0,
                statuses_count: 0,
            }),
    {
        Account {
            account_id: 0,
            username: String::new(),
            acct: String::new(),
            display_name: String::new(),
            note: String::new(),
            url: String::new(),
            avatar: String::new(),
            header: String::new(),
            locked: false,
            created_at: String::new(),
            followers_count: 0,
            following_count: 0,
            statuses_count: 0,
        }
    }
}

impl AccountView {
    /// The JSON object of the account.
    pub open spec fn to_json(self) -> JsonView
    {
        JsonView::Object(
            Seq::empty()
                .push(("id"@, json_int(self.account_id as int)))
                .push(("username"@, json_text(self.username)))
                .push(("acct"@, json_text(self.acct)))
                .push(("display_name"@, json_text(self.display_name)))
                .push(("note"@, json_text(self.note)))
                .push(("url"@, json_text(self.url)))
                .push(("avatar"@, json_text(self.avatar)))
                .push(("header"@, json_text(self.header)))
                .push(("locked"@, JsonView::Bool(self.locked)))
                .push(("created_at"@, json_text(self.created_at)))
                .push(("followers_count"@, json_int(self.followers_count as int)))
                .push(("following_count"@, json_int(self.following_count as int)))
                .push(("statuses_count"@, json_int(self.statuses_count as int))),
        )
    }
}

impl Wire for Account {
    open spec fn spec_kind() -> Entity {
        Entity::Account
    }

    open spec fn spec_required() -> Seq<Seq<char>> {
        seq!["id"@, "username"@, "acct"@, "display_name"@, "note"@, "url"@, "avatar"@, "header"@, "locked"@, "created_at"@, "followers_count"@, "following_count"@, "statuses_count"@]
    }

    #[verifier::opaque]
    open spec fn spec_from_json(j: JsonView) -> Result<AccountView, FaultView>
    {
        let account_id = spec_i32(j, "id"@);
        let username = spec_text(j, "username"@);
        let acct = spec_text(j, "acct"@);
        let display_name = spec_text(j, "display_name"@);
        let note = spec_text(j, "note"@);
        let url = spec_text(j, "url"@);
        let avatar = spec_text(j, "avatar"@);
        let header = spec_text(j, "header"@);
        let locked = spec_bool(j, "locked"@);
        let created_at = spec_text(j, "created_at"@);
        let followers_count = spec_i32(j, "followers_count"@);
        let following_count = spec_i32(j, "following_count"@);
        let statuses_count = spec_i32(j, "statuses_count"@);
        if !(j is Object) {
            Err(not_an_object())
        } else if account_id is Err {
            Err(account_id->Err_0)
        } else if username is Err {
            Err(username->Err_0)
        } else if acct is Err {
            Err(acct->Err_0)
        } else if display_name is Err {
            Err(display_name->Err_0)
        } else if note is Err {
            Err(note->Err_0)
        } else if url is Err {
            Err(url->Err_0)
        } else if avatar is Err {
            Err(avatar->Err_0)
        } else if header is Err {
            Err(header->Err_0)
        } else if locked is Err {
            Err(locked->Err_0)
        } else if created_at is Err {
            Err(created_at->Err_0)
        } else if followers_count is Err {
            Err(followers_count->Err_0)
        } else if following_count is Err {
            Err(following_count->Err_0)
        } else if statuses_count is Err {
            Err(statuses_count->Err_0)
        } else {
            Ok(
                AccountView {
                    account_id: account_id->Ok_0,
                    username: username->Ok_0,
                    acct: acct->Ok_0,
                    display_name: display_name->Ok_0,
                    note: note->Ok_0,
                    url: url->Ok_0,
                    avatar: avatar->Ok_0,
                    header: header->Ok_0,
                    locked: locked->Ok_0,
                    created_at: created_at->Ok_0,
                    followers_count: followers_count->Ok_0,
                    following_count: following_count->Ok_0,
                    statuses_count: statuses_count->Ok_0,
                },
            )
        }
    }

    open spec fn spec_to_json(v: AccountView) -> JsonView {
        v.to_json()
    }

    fn kind() -> (k: Entity) {
        Entity::Account
    }

    fn from_json(j: &Json) -> (r: Result<Account, Fault>)
    {
        proof {
            reveal(<Account as Wire>::spec_from_json);
        }
        if !is_object(j) {
            return Err(fault_not_an_object());
        }
        let account_id = read_i32(j, "id")?;
        let username = read_text(j, "username")?;
        let acct = read_text(j, "acct")?;
        let display_name = read_text(j, "display_name")?;
        let note = read_text(j, "note")?;
        let url = read_text(j, "url")?;
        let avatar = read_text(j, "avatar")?;
        let header = read_text(j, "header")?;
        let locked = read_bool(j, "locked")?;
        let created_at = read_text(j, "created_at")?;
        let followers_count = read_i32(j, "followers_count")?;
        let following_count = read_i32(j, "following_count")?;
        let statuses_count = read_i32(j, "statuses_count")?;
        Ok(Account { account_id, username, acct, display_name, note, url, avatar, header, locked, created_at, followers_count, following_count, statuses_count })
    }

    fn to_json(&self) -> (j: Json)
    {
        let mut members: Vec<(String, Json)> = Vec::new();
        proof {
            assert(member_views(members@) =~= Seq::empty());
        }
        push_member(&mut members, "id", write_i32(self.account_id));
        push_member(&mut members, "username", write_text(&self.username));
        push_member(&mut members, "acct", write_text(&self.acct));
        push_member(&mut members, "display_name", write_text(&self.display_name));
        push_member(&mut members, "note", write_text(&self.note));
        push_member(&mut members, "url", write_text(&self.url));
        push_member(&mut members, "avatar", write_text(&self.avatar));
        push_member(&mut members, "header", write_text(&self.header));
        push_member(&mut members, "locked", Json::Bool(self.locked));
        push_member(&mut members, "created_at", write_text(&self.created_at));
        push_member(&mut members, "followers_count", write_i32(self.followers_count));
        push_member(&mut members, "following_count", write_i32(self.following_count));
        push_member(&mut members, "statuses_count", write_i32(self.statuses_count));
        proof {
            lemma_object_view(members);
        }
        Json::Object(members)
    }

    proof fn lemma_round_trip(v: AccountView)
    {
        broadcast use lemma_member_push;

        reveal(<Account as Wire>::spec_from_json);
        reveal_strlit("id");
        assert("id"@.len() == 2 && "id"@[0] == 'i' && "id"@[1] == 'd');
        reveal_strlit("username");
        assert("username"@.len() == 8 && "username"@[0] == 'u' && "username"@[1] == 's' && "username"@[2] == 'e' && "username"@[3] == 'r' && "username"@[4] == 'n' && "username"@[5] == 'a' && "username"@[6] == 'm' && "username"@[7] == 'e');
        reveal_strlit("acct");
        assert("acct"@.len() == 4 && "acct"@[0] == 'a' && "acct"@[1] == 'c' && "acct"@[2] == 'c' && "acct"@[3] == 't');
        reveal_strlit("display_name");
        assert("display_name"@.len() == 12 && "display_name"@[0] == 'd' && "display_name"@[1] == 'i' && "display_name"@[2] == 's' && "display_name"@[3] == 'p' && "display_name"@[4] == 'l' && "display_name"@[5] == 'a' && "display_name"@[6] == 'y' && "display_name"@[7] == '_' && "display_name"@[8] == 'n' && "display_name"@[9] == 'a' && "display_name"@[10] == 'm' && "display_name"@[11] == 'e');
        reveal_strlit("note");
        assert("note"@.len() == 4 && "note"@[0] == 'n' && "note"@[1] == 'o' && "note"@[2] == 't' && "note"@[3] == 'e');
        reveal_strlit("url");
        assert("url"@.len() == 3 && "url"@[0] == 'u' && "url"@[1] == 'r' && "url"@[2] == 'l');
        reveal_strlit("avatar");
        assert("avatar"@.len() == 6 && "avatar"@[0] == 'a' && "avatar"@[1] == 'v' && "avatar"@[2] == 'a' && "avatar"@[3] == 't' && "avatar"@[4] == 'a' && "avatar"@[5] == 'r');
        reveal_strlit("header");
        assert("header"@.len() == 6 && "header"@[0] == 'h' && "header"@[1] == 'e' && "header"@[2] == 'a' && "header"@[3] == 'd' && "header"@[4] == 'e' && "header"@[5] == 'r');
        reveal_strlit("locked");
        assert("locked"@.len() == 6 && "locked"@[0] == 'l' && "locked"@[1] == 'o' && "locked"@[2] == 'c' && "locked"@[3] == 'k' && "locked"@[4] == 'e' && "locked"@[5] == 'd');
        reveal_strlit("created_at");
        assert("created_at"@.len() == 10 && "created_at"@[0] == 'c' && "created_at"@[1] == 'r' && "created_at"@[2] == 'e' && "created_at"@[3] == 'a' && "created_at"@[4] == 't' && "created_at"@[5] == 'e' && "created_at"@[6] == 'd' && "created_at"@[7] == '_' && "created_at"@[8] == 'a' && "created_at"@[9] == 't');
        reveal_strlit("followers_count");
        assert("followers_count"@.len() == 15 && "followers_count"@[0] == 'f' && "followers_count"@[1] == 'o' && "followers_count"@[2] == 'l' && "followers_count"@[3] == 'l' && "followers_count"@[4] == 'o' && "followers_count"@[5] == 'w' && "followers_count"@[6] == 'e' && "followers_count"@[7] == 'r' && "followers_count"@[8] == 's' && "followers_count"@[9] == '_' && "followers_count"@[10] == 'c' && "followers_count"@[11] == 'o' && "followers_count"@[12] == 'u' && "followers_count"@[13] == 'n' && "followers_count"@[14] == 't');
        reveal_strlit("following_count");
        assert("following_count"@.len() == 15 && "following_count"@[0] == 'f' && "following_count"@[1] == 'o' && "following_count"@[2] == 'l' && "following_count"@[3] == 'l' && "following_count"@[4] == 'o' && "following_count"@[5] == 'w' && "following_count"@[6] == 'i' && "following_count"@[7] == 'n' && "following_count"@[8] == 'g' && "following_count"@[9] == '_' && "following_count"@[10] == 'c' && "following_count"@[11] == 'o' && "following_count"@[12] == 'u' && "following_count"@[13] == 'n' && "following_count"@[14] == 't');
        reveal_strlit("statuses_count");
        assert("statuses_count"@.len() == 14 && "statuses_count"@[0] == 's' && "statuses_count"@[1] == 't' && "statuses_count"@[2] == 'a' && "statuses_count"@[3] == 't' && "statuses_count"@[4] == 'u' && "statuses_count"@[5] == 's' && "statuses_count"@[6] == 'e' && "statuses_count"@[7] == 's' && "statuses_count"@[8] == '_' && "statuses_count"@[9] == 'c' && "statuses_count"@[10] == 'o' && "statuses_count"@[11] == 'u' && "statuses_count"@[12] == 'n' && "statuses_count"@[13] == 't');
        let j = v.to_json();
        lemma_text_int_of_int_text(v.account_id as int);
        lemma_text_int_of_int_text(v.followers_count as int);
        lemma_text_int_of_int_text(v.following_count as int);
        lemma_text_int_of_int_text(v.statuses_count as int);
        assert(spec_i32(j, "id"@) == Ok::<i32, FaultView>(v.account_id));
        assert(spec_text(j, "username"@) == Ok::<Seq<char>, FaultView>(v.username));
        assert(spec_text(j, "acct"@) == Ok::<Seq<char>, FaultView>(v.acct));
        assert(spec_text(j, "display_name"@) == Ok::<Seq<char>, FaultView>(v.display_name));
        assert(spec_text(j, "note"@) == Ok::<Seq<char>, FaultView>(v.note));
        assert(spec_text(j, "url"@) == Ok::<Seq<char>, FaultView>(v.url));
        assert(spec_text(j, "avatar"@) == Ok::<Seq<char>, FaultView>(v.avatar));
        assert(spec_text(j, "header"@) == Ok::<Seq<char>, FaultView>(v.header));
        assert(spec_bool(j, "locked"@) == Ok::<bool, FaultView>(v.locked));
        assert(spec_text(j, "created_at"@) == Ok::<Seq<char>, FaultView>(v.created_at));
        assert(spec_i32(j, "followers_count"@) == Ok::<i32, FaultView>(v.followers_count));
        assert(spec_i32(j, "following_count"@) == Ok::<i32, FaultView>(v.following_count));
        assert(spec_i32(j, "statuses_count"@) == Ok::<i32, FaultView>(v.statuses_count));
    }

    proof fn lemma_needs_fields(j: JsonView, k: int) {
        reveal(<Account as Wire>::spec_from_json);
        reveal_strlit("id");
        reveal_strlit("username");
        reveal_strlit("acct");
        reveal_strlit("display_name");
        reveal_strlit("note");
        reveal_strlit("url");
        reveal_strlit("avatar");
        reveal_strlit("header");
        reveal_strlit("locked");
        reveal_strlit("created_at");
        reveal_strlit("followers_count");
        reveal_strlit("following_count");
        reveal_strlit("statuses_count");
    }
}

/// The application that posted a status.
#[derive(Debug, PartialEq)]
pub struct Application {
    pub name: String,
    pub website: Option<String>,
}

/// What an `Application` holds, as mathematical values.
pub ghost struct ApplicationView {
    pub name: Seq<char>,
    pub website: Option<Seq<char>>,
}

impl View for Application {
    type V = ApplicationView;

    open spec fn view(&self) -> ApplicationView
    {
        ApplicationView {
            name: self.name@,
            website: opt_text(self.website),
        }
    }
}

impl ApplicationView {
    /// The JSON object of the application.
    pub open spec fn to_json(self) -> JsonView
    {
        JsonView::Object(
            Seq::empty()
                .push(("name"@, json_text(self.name)))
                .push(("website"@, json_opt_text(self.website))),
        )
    }
}

impl Wire for Application {
    open spec fn spec_kind() -> Entity {
        Entity::Application
    }

    open spec fn spec_required() -> Seq<Seq<char>> {
        seq!["name"@]
    }

    #[verifier::opaque]
    open spec fn spec_from_json(j: JsonView) -> Result<ApplicationView, FaultView>
    {
        let name = spec_text(j, "name"@);
        let website = spec_opt_text(j, "website"@);
        if !(j is Object) {
            Err(not_an_object())
        } else if name is Err {
            Err(name->Err_0)
        } else if website is Err {
            Err(website->Err_0)
        } else {
            Ok(
                ApplicationView {
                    name: name->Ok_0,
                    website: website->Ok_0,
                },
            )
        }
    }

    open spec fn spec_to_json(v: ApplicationView) -> JsonView {
        v.to_json()
    }

    fn kind() -> (k: Entity) {
        Entity::Application
    }

    fn from_json(j: &Json) -> (r: Result<Application, Fault>)
    {
        proof {
            reveal(<Application as Wire>::spec_from_json);
        }
        if !is_object(j) {
            return Err(fault_not_an_object());
        }
        let name = read_text(j, "name")?;
        let website = read_opt_text(j, "website")?;
        Ok(Application { name, website })
    }

    fn to_json(&self) -> (j: Json)
    {
        let mut members: Vec<(String, Json)> = Vec::new();
        proof {
            assert(member_views(members@) =~= Seq::empty());
        }
        push_member(&mut members, "name", write_text(&self.name));
        push_member(&mut members, "website", write_opt_text(&self.website));
        proof {
            lemma_object_view(members);
        }
        Json::Object(members)
    }

    proof fn lemma_round_trip(v: ApplicationView)
    {
        broadcast use lemma_member_push;

        reveal(<Application as Wire>::spec_from_json);
        reveal_strlit("name");
        assert("name"@.len() == 4 && "name"@[0] == 'n' && "name"@[1] == 'a' && "name"@[2] == 'm' && "name"@[3] == 'e');
        reveal_strlit("website");
        assert("website"@.len() == 7 && "website"@[0] == 'w' && "website"@[1] == 'e' && "website"@[2] == 'b' && "website"@[3] == 's' && "website"@[4] == 'i' && "website"@[5] == 't' && "website"@[6] == 'e');
        let j = v.to_json();
        assert(spec_text(j, "name"@) == Ok::<Seq<char>, FaultView>(v.name));
        assert(spec_opt_text(j, "website"@) == Ok::<Option<Seq<char>>, FaultView>(v.website));
    }

    proof fn lemma_needs_fields(j: JsonView, k: int) {
        reveal(<Application as Wire>::spec_from_json);
        reveal_strlit("name");
    }
}

/// A media file attached to a status.
#[derive(Debug, PartialEq)]
pub struct Attachment {
    pub attachment_id: i32,
    pub attachment_type: String,
    pub url: String,
    pub remote_url: String,
    pub preview_url: String,
    pub text_url: String,
}

/// What an `Attachment` holds, as mathematical values.
pub ghost struct AttachmentView {
    pub attachment_id: i32,
    pub attachment_type: Seq<char>,
    pub url: Seq<char>,
    pub remote_url: Seq<char>,
    pub preview_url: Seq<char>,
    pub text_url: Seq<char>,
}

impl View for Attachment {
    type V = AttachmentView;

    open spec fn view(&self) -> AttachmentView
    {
        AttachmentView {
            attachment_id: self.attachment_id,
            attachment_type: self.attachment_type@,
            url: self.url@,
            remote_url: self.remote_url@,
            preview_url: self.preview_url@,
            text_url: self.text_url@,
        }
    }
}

impl AttachmentView {
    /// The JSON object of the attachment.
    pub open spec fn to_json(self) -> JsonView
    {
        JsonView::Object(
            Seq::empty()
                .push(("id"@, json_int(self.attachment_id as int)))
                .push(("type"@, json_text(self.attachment_type)))
                .push(("url"@, json_text(self.url)))
                .push(("remote_url"@, json_text(self.remote_url)))
                .push(("preview_url"@, json_text(self.preview_url)))
                .push(("text_url"@, json_text(self.text_url))),
        )
    }
}

impl Wire for Attachment {
    open spec fn spec_kind() -> Entity {
        Entity::Attachment
    }

    open spec fn spec_required() -> Seq<Seq<char>> {
        seq!["id"@, "type"@, "url"@, "remote_url"@, "preview_url"@, "text_url"@]
    }

    #[verifier::opaque]
    open spec fn spec_from_json(j: JsonView) -> Result<AttachmentView, FaultView>
    {
        let attachment_id = spec_i32(j, "id"@);
        let attachment_type = spec_text(j, "type"@);
        let url = spec_text(j, "url"@);
        let remote_url = spec_text(j, "remote_url"@);
        let preview_url = spec_text(j, "preview_url"@);
        let text_url = spec_text(j, "text_url"@);
        if !(j is Object) {
            Err(not_an_object())
        } else if attachment_id is Err {
            Err(attachment_id->Err_0)
        } else if attachment_type is Err {
            Err(attachment_type->Err_0)
        } else if url is Err {
            Err(url->Err_0)
        } else if remote_url is Err {
            Err(remote_url->Err_0)
        } else if preview_url is Err {
            Err(preview_url->Err_0)
        } else if text_url is Err {
            Err(text_url->Err_0)
        } else {
            Ok(
                AttachmentView {
                    attachment_id: attachment_id->Ok_0,
                    attachment_type: attachment_type->Ok_0,
                    url: url->Ok_0,
                    remote_url: remote_url->Ok_0,
                    preview_url: preview_url->Ok_0,
                    text_url: text_url->Ok_0,
                },
            )
        }
    }

    open spec fn spec_to_json(v: AttachmentView) -> JsonView {
        v.to_json()
    }

    fn kind() -> (k: Entity) {
        Entity::Attachment
    }

    fn from_json(j: &Json) -> (r: Result<Attachment, Fault>)
    {
        proof {
            reveal(<Attachment as Wire>::spec_from_json);
        }
        if !is_object(j) {
            return Err(fault_not_an_object());
        }
        let attachment_id = read_i32(j, "id")?;
        let attachment_type = read_text(j, "type")?;
        let url = read_text(j, "url")?;
        let remote_url = read_text(j, "remote_url")?;
        let preview_url = read_text(j, "preview_url")?;
        let text_url = read_text(j, "text_url")?;
        Ok(Attachment { attachment_id, attachment_type, url, remote_url, preview_url, text_url })
    }

    fn to_json(&self) -> (j: Json)
    {
        let mut members: Vec<(String, Json)> = Vec::new();
        proof {
            assert(member_views(members@) =~= Seq::empty());
        }
        push_member(&mut members, "id", write_i32(self.attachment_id));
        push_member(&mut members, "type", write_text(&self.attachment_type));
        push_member(&mut members, "url", write_text(&self.url));
        push_member(&mut members, "remote_url", write_text(&self.remote_url));
        push_member(&mut members, "preview_url", write_text(&self.preview_url));
        push_member(&mut members, "text_url", write_text(&self.text_url));
        proof {
            lemma_object_view(members);
        }
        Json::Object(members)
    }

    proof fn lemma_round_trip(v: AttachmentView)
    {
        broadcast use lemma_member_push;

        reveal(<Attachment as Wire>::spec_from_json);
        reveal_strlit("id");
        assert("id"@.len() == 2 && "id"@[0] == 'i' && "id"@[1] == 'd');
        reveal_strlit("type");
        assert("type"@.len() == 4 && "type"@[0] == 't' && "type"@[1] == 'y' && "type"@[2] == 'p' && "type"@[3] == 'e');
        reveal_strlit("url");
        assert("url"@.len() == 3 && "url"@[0] == 'u' && "url"@[1] == 'r' && "url"@[2] == 'l');
        reveal_strlit("remote_url");
        assert("remote_url"@.len() == 10 && "remote_url"@[0] == 'r' && "remote_url"@[1] == 'e' && "remote_url"@[2] == 'm' && "remote_url"@[3] == 'o' && "remote_url"@[4] == 't' && "remote_url"@[5] == 'e' && "remote_url"@[6] == '_' && "remote_url"@[7] == 'u' && "remote_url"@[8] == 'r' && "remote_url"@[9] == 'l');
        reveal_strlit("preview_url");
        assert("preview_url"@.len() == 11 && "preview_url"@[0] == 'p' && "preview_url"@[1] == 'r' && "preview_url"@[2] == 'e' && "preview_url"@[3] == 'v' && "preview_url"@[4] == 'i' && "preview_url"@[5] == 'e' && "preview_url"@[6] == 'w' && "preview_url"@[7] == '_' && "preview_url"@[8] == 'u' && "preview_url"@[9] == 'r' && "preview_url"@[10] == 'l');
        reveal_strlit("text_url");
        assert("text_url"@.len() == 8 && "text_url"@[0] == 't' && "text_url"@[1] == 'e' && "text_url"@[2] == 'x' && "text_url"@[3] == 't' && "text_url"@[4] == '_' && "text_url"@[5] == 'u' && "text_url"@[6] == 'r' && "text_url"@[7] == 'l');
        let j = v.to_json();
        lemma_text_int_of_int_text(v.attachment_id as int);
        assert(spec_i32(j, "id"@) == Ok::<i32, FaultView>(v.attachment_id));
        assert(spec_text(j, "type"@) == Ok::<Seq<char>, FaultView>(v.attachment_type));
        assert(spec_text(j, "url"@) == Ok::<Seq<char>, FaultView>(v.url));
        assert(spec_text(j, "remote_url"@) == Ok::<Seq<char>, FaultView>(v.remote_url));
        assert(spec_text(j, "preview_url"@) == Ok::<Seq<char>, FaultView>(v.preview_url));
        assert(spec_text(j, "text_url"@) == Ok::<Seq<char>, FaultView>(v.text_url));
    }

    proof fn lemma_needs_fields(j: JsonView, k: int) {
        reveal(<Attachment as Wire>::spec_from_json);
        reveal_strlit("id");
        reveal_strlit("type");
        reveal_strlit("url");
        reveal_strlit("remote_url");
        reveal_strlit("preview_url");
        reveal_strlit("text_url");
    }
}

/// A preview of a link in a status.
#[derive(Debug, PartialEq)]
pub struct Card {
    pub url: String,
    pub title: String,
    pub description: String,
    pub image: String,
}

/// What a `Card` holds, as mathematical values.
pub ghost struct CardView {
    pub url: Seq<char>,
    pub title: Seq<char>,
    pub description: Seq<char>,
    pub image: Seq<char>,
}

impl View for Card {
    type V = CardView;

    open spec fn view(&self) -> CardView
    {
        CardView {
            url: self.url@,
            title: self.title@,
            description: self.description@,
            image: self.image@,
        }
    }
}

impl CardView {
    /// The JSON object of the card.
    pub open spec fn to_json(self) -> JsonView
    {
        JsonView::Object(
            Seq::empty()
                .push(("url"@, json_text(self.url)))
                .push(("title"@, json_text(self.title)))
                .push(("description"@, json_text(self.description)))
                .push(("image"@, json_text(self.image))),
        )
    }
}

impl Wire for Card {
    open spec fn spec_kind() -> Entity {
        Entity::Card
    }

    open spec fn spec_required() -> Seq<Seq<char>> {
        seq!["url"@, "title"@, "description"@, "image"@]
    }

    #[verifier::opaque]
    open spec fn spec_from_json(j: JsonView) -> Result<CardView, FaultView>
    {
        let url = spec_text(j, "url"@);
        let title = spec_text(j, "title"@);
        let description = spec_text(j, "description"@);
        let image = spec_text(j, "image"@);
        if !(j is Object) {
            Err(not_an_object())
        } else if url is Err {
            Err(url->Err_0)
        } else if title is Err {
            Err(title->Err_0)
        } else if description is Err {
            Err(description->Err_0)
        } else if image is Err {
            Err(image->Err_0)
        } else {
            Ok(
                CardView {
                    url: url->Ok_0,
                    title: title->Ok_0,
                    description: description->Ok_0,
                    image: image->Ok_0,
                },
            )
        }
    }

    open spec fn spec_to_json(v: CardView) -> JsonView {
        v.to_json()
    }

    fn kind() -> (k: Entity) {
        Entity::Card
    }

    fn from_json(j: &Json) -> (r: Result<Card, Fault>)
    {
        proof {
            reveal(<Card as Wire>::spec_from_json);
        }
        if !is_object(j) {
            return Err(fault_not_an_object());
        }
        let url = read_text(j, "url")?;
        let title = read_text(j, "title")?;
        let description = read_text(j, "description")?;
        let image = read_text(j, "image")?;
        Ok(Card { url, title, description, image })
    }

    fn to_json(&self) -> (j: Json)
    {
        let mut members: Vec<(String, Json)> = Vec::new();
        proof {
            assert(member_views(members@) =~= Seq::empty());
        }
        push_member(&mut members, "url", write_text(&self.url));
        push_member(&mut members, "title", write_text(&self.title));
        push_member(&mut members, "description", write_text(&self.description));
        push_member(&mut members, "image", write_text(&self.image));
        proof {
            lemma_object_view(members);
        }
        Json::Object(members)
    }

    proof fn lemma_round_trip(v: CardView)
    {
        broadcast use lemma_member_push;

        reveal(<Card as Wire>::spec_from_json);
        reveal_strlit("url");
        assert("url"@.len() == 3 && "url"@[0] == 'u' && "url"@[1] == 'r' && "url"@[2] == 'l');
        reveal_strlit("title");
        assert("title"@.len() == 5 && "title"@[0] == 't' && "title"@[1] == 'i' && "title"@[2] == 't' && "title"@[3] == 'l' && "title"@[4] == 'e');
        reveal_strlit("description");
        assert("description"@.len() == 11 && "description"@[0] == 'd' && "description"@[1] == 'e' && "description"@[2] == 's' && "description"@[3] == 'c' && "description"@[4] == 'r' && "description"@[5] == 'i' && "description"@[6] == 'p' && "description"@[7] == 't' && "description"@[8] == 'i' && "description"@[9] == 'o' && "description"@[10] == 'n');
        reveal_strlit("image");
        assert("image"@.len() == 5 && "image"@[0] == 'i' && "image"@[1] == 'm' && "image"@[2] == 'a' && "image"@[3] == 'g' && "image"@[4] == 'e');
        let j = v.to_json();
        assert(spec_text(j, "url"@) == Ok::<Seq<char>, FaultView>(v.url));
        assert(spec_text(j, "title"@) == Ok::<Seq<char>, FaultView>(v.title));
        assert(spec_text(j, "description"@) == Ok::<Seq<char>, FaultView>(v.description));
        assert(spec_text(j, "image"@) == Ok::<Seq<char>, FaultView>(v.image));
    }

    proof fn lemma_needs_fields(j: JsonView, k: int) {
        reveal(<Card as Wire>::spec_from_json);
        reveal_strlit("url");
        reveal_strlit("title");
        reveal_strlit("description");
        reveal_strlit("image");
    }
}

/// What the server says where it refuses.
#[derive(Debug, PartialEq)]
pub struct Error {
    pub error: String,
}

/// What an `Error` holds, as mathematical values.
pub ghost struct ErrorView {
    pub error: Seq<char>,
}

impl View for Error {
    type V = ErrorView;

    open spec fn view(&self) -> ErrorView
    {
        ErrorView {
            error: self.error@,
        }
    }
}

impl ErrorView {
    /// The JSON object of the error.
    pub open spec fn to_json(self) -> JsonView
    {
        JsonView::Object(
            Seq::empty()
                .push(("error"@, json_text(self.error))),
        )
    }
}

impl Wire for Error {
    open spec fn spec_kind() -> Entity {
        Entity::Error
    }

    open spec fn spec_required() -> Seq<Seq<char>> {
        seq!["error"@]
    }

    #[verifier::opaque]
    open spec fn spec_from_json(j: JsonView) -> Result<ErrorView, FaultView>
    {
        let error = spec_text(j, "error"@);
        if !(j is Object) {
            Err(not_an_object())
        } else if error is Err {
            Err(error->Err_0)
        } else {
            Ok(
                ErrorView {
                    error: error->Ok_0,
                },
            )
        }
    }

    open spec fn spec_to_json(v: ErrorView) -> JsonView {
        v.to_json()
    }

    fn kind() -> (k: Entity) {
        Entity::Error
    }

    fn from_json(j: &Json) -> (r: Result<Error, Fault>)
    {
        proof {
            reveal(<Error as Wire>::spec_from_json);
        }
        if !is_object(j) {
            return Err(fault_not_an_object());
        }
        let error = read_text(j, "error")?;
        Ok(Error { error })
    }

    fn to_json(&self) -> (j: Json)
    {
        let mut members: Vec<(String, Json)> = Vec::new();
        proof {
            assert(member_views(members@) =~= Seq::empty());
        }
        push_member(&mut members, "error", write_text(&self.error));
        proof {
            lemma_object_view(members);
        }
        Json::Object(members)
    }

    proof fn lemma_round_trip(v: ErrorView)
    {
        broadcast use lemma_member_push;

        reveal(<Error as Wire>::spec_from_json);
        reveal_strlit("error");
        assert("error"@.len() == 5 && "error"@[0] == 'e' && "error"@[1] == 'r' && "error"@[2] == 'r' && "error"@[3] == 'o' && "error"@[4] == 'r');
        let j = v.to_json();
        assert(spec_text(j, "error"@) == Ok::<Seq<char>, FaultView>(v.error));
    }

    proof fn lemma_needs_fields(j: JsonView, k: int) {
        reveal(<Error as Wire>::spec_from_json);
        reveal_strlit("error");
    }
}

/// The server itself.
#[derive(Debug, PartialEq)]
pub struct Instance {
    pub url: String,
    pub title: String,
    pub description: String,
    pub email: String,
}

/// What an `Instance` holds, as mathematical values.
pub ghost struct InstanceView {
    pub url: Seq<char>,
    pub title: Seq<char>,
    pub description: Seq<char>,
    pub email: Seq<char>,
}

impl View for Instance {
    type V = InstanceView;

    open spec fn view(&self) -> InstanceView
    {
        InstanceView {
            url: self.url@,
            title: self.title@,
            description: self.description@,
            email: self.email@,
        }
    }
}

impl InstanceView {
    /// The JSON object of the instance.
    pub open spec fn to_json(self) -> JsonView
    {
        JsonView::Object(
            Seq::empty()
                .push(("url"@, json_text(self.url)))
                .push(("title"@, json_text(self.title)))
                .push(("description"@, json_text(self.description)))
                .push(("email"@, json_text(self.email))),
        )
    }
}

impl Wire for Instance {
    open spec fn spec_kind() -> Entity {
        Entity::Instance
    }

    open spec fn spec_required() -> Seq<Seq<char>> {
        seq!["url"@, "title"@, "description"@, "email"@]
    }

    #[verifier::opaque]
    open spec fn spec_from_json(j: JsonView) -> Result<InstanceView, FaultView>
    {
        let url = spec_text(j, "url"@);
        let title = spec_text(j, "title"@);
        let description = spec_text(j, "description"@);
        let email = spec_text(j, "email"@);
        if !(j is Object) {
            Err(not_an_object())
        } else if url is Err {
            Err(url->Err_0)
        } else if title is Err {
            Err(title->Err_0)
        } else if description is Err {
            Err(description->Err_0)
        } else if email is Err {
            Err(email->Err_0)
        } else {
            Ok(
                InstanceView {
                    url: url->Ok_0,
                    title: title->Ok_0,
                    description: description->Ok_0,
                    email: email->Ok_0,
                },
            )
        }
    }

    open spec fn spec_to_json(v: InstanceView) -> JsonView {
        v.to_json()
    }

    fn kind() -> (k: Entity) {
        Entity::Instance
    }

    fn from_json(j: &Json) -> (r: Result<Instance, Fault>)
    {
        proof {
            reveal(<Instance as Wire>::spec_from_json);
        }
        if !is_object(j) {
            return Err(fault_not_an_object());
        }
        let url = read_text(j, "url")?;
        let title = read_text(j, "title")?;
        let description = read_text(j, "description")?;
        let email = read_text(j, "email")?;
        Ok(Instance { url, title, description, email })
    }

    fn to_json(&self) -> (j: Json)
    {
        let mut members: Vec<(String, Json)> = Vec::new();
        proof {
            assert(member_views(members@) =~= Seq::empty());
        }
        push_member(&mut members, "url", write_text(&self.url));
        push_member(&mut members, "title", write_text(&self.title));
        push_member(&mut members, "description", write_text(&self.description));
        push_member(&mut members, "email", write_text(&self.email));
        proof {
            lemma_object_view(members);
        }
        Json::Object(members)
    }

    proof fn lemma_round_trip(v: InstanceView)
    {
        broadcast use lemma_member_push;

        reveal(<Instance as Wire>::spec_from_json);
        reveal_strlit("url");
        assert("url"@.len() == 3 && "url"@[0] == 'u' && "url"@[1] == 'r' && "url"@[2] == 'l');
        reveal_strlit("title");
        assert("title"@.len() == 5 && "title"@[0] == 't' && "title"@[1] == 'i' && "title"@[2] == 't' && "title"@[3] == 'l' && "title"@[4] == 'e');
        reveal_strlit("description");
        assert("description"@.len() == 11 && "description"@[0] == 'd' && "description"@[1] == 'e' && "description"@[2] == 's' && "description"@[3] == 'c' && "description"@[4] == 'r' && "description"@[5] == 'i' && "description"@[6] == 'p' && "description"@[7] == 't' && "description"@[8] == 'i' && "description"@[9] == 'o' && "description"@[10] == 'n');
        reveal_strlit("email");
        assert("email"@.len() == 5 && "email"@[0] == 'e' && "email"@[1] == 'm' && "email"@[2] == 'a' && "email"@[3] == 'i' && "email"@[4] == 'l');
        let j = v.to_json();
        assert(spec_text(j, "url"@) == Ok::<Seq<char>, FaultView>(v.url));
        assert(spec_text(j, "title"@) == Ok::<Seq<char>, FaultView>(v.title));
        assert(spec_text(j, "description"@) == Ok::<Seq<char>, FaultView>(v.description));
        assert(spec_text(j, "email"@) == Ok::<Seq<char>, FaultView>(v.email));
    }

    proof fn lemma_needs_fields(j: JsonView, k: int) {
        reveal(<Instance as Wire>::spec_from_json);
        reveal_strlit("url");
        reveal_strlit("title");
        reveal_strlit("description");
        reveal_strlit("email");
    }
}

/// An account mentioned in a status.
#[derive(Debug, PartialEq)]
pub struct Mention {
    pub mention_id: i32,
    pub url: String,
    pub username: String,
    pub acct: String,
}

/// What a `Mention` holds, as mathematical values.
pub ghost struct MentionView {
    pub mention_id: i32,
    pub url: Seq<char>,
    pub username: Seq<char>,
    pub acct: Seq<char>,
}

impl View for Mention {
    type V = MentionView;

    open spec fn view(&self) -> MentionView
    {
        MentionView {
            mention_id: self.mention_id,
            url: self.url@,
            username: self.username@,
            acct: self.acct@,
        }
    }
}

impl MentionView {
    /// The JSON object of the mention.
    pub open spec fn to_json(self) -> JsonView
    {
        JsonView::Object(
            Seq::empty()
                .push(("id"@, json_int(self.mention_id as int)))
                .push(("url"@, json_text(self.url)))
                .push(("username"@, json_text(self.username)))
                .push(("acct"@, json_text(self.acct))),
        )
    }
}

impl Wire for Mention {
    open spec fn spec_kind() -> Entity {
        Entity::Mention
    }

    open spec fn spec_required() -> Seq<Seq<char>> {
        seq!["id"@, "url"@, "username"@, "acct"@]
    }

    #[verifier::opaque]
    open spec fn spec_from_json(j: JsonView) -> Result<MentionView, FaultView>
    {
        let mention_id = spec_i32(j, "id"@);
        let url = spec_text(j, "url"@);
        let username = spec_text(j, "username"@);
        let acct = spec_text(j, "acct"@);
        if !(j is Object) {
            Err(not_an_object())
        } else if mention_id is Err {
            Err(mention_id->Err_0)
        } else if url is Err {
            Err(url->Err_0)
        } else if username is Err {
            Err(username->Err_0)
        } else if acct is Err {
            Err(acct->Err_0)
        } else {
            Ok(
                MentionView {
                    mention_id: mention_id->Ok_0,
                    url: url->Ok_0,
                    username: username->Ok_0,
                    acct: acct->Ok_0,
                },
            )
        }
    }

    open spec fn spec_to_json(v: MentionView) -> JsonView {
        v.to_json()
    }

    fn kind() -> (k: Entity) {
        Entity::Mention
    }

    fn from_json(j: &Json) -> (r: Result<Mention, Fault>)
    {
        proof {
            reveal(<Mention as Wire>::spec_from_json);
        }
        if !is_object(j) {
            return Err(fault_not_an_object());
        }
        let mention_id = read_i32(j, "id")?;
        let url = read_text(j, "url")?;
        let username = read_text(j, "username")?;
        let acct = read_text(j, "acct")?;
        Ok(Mention { mention_id, url, username, acct })
    }

    fn to_json(&self) -> (j: Json)
    {
        let mut members: Vec<(String, Json)> = Vec::new();
        proof {
            assert(member_views(members@) =~= Seq::empty());
        }
        push_member(&mut members, "id", write_i32(self.mention_id));
        push_member(&mut members, "url", write_text(&self.url));
        push_member(&mut members, "username", write_text(&self.username));
        push_member(&mut members, "acct", write_text(&self.acct));
        proof {
            lemma_object_view(members);
        }
        Json::Object(members)
    }

    proof fn lemma_round_trip(v: MentionView)
    {
        broadcast use lemma_member_push;

        reveal(<Mention as Wire>::spec_from_json);
        reveal_strlit("id");
        assert("id"@.len() == 2 && "id"@[0] == 'i' && "id"@[1] == 'd');
        reveal_strlit("url");
        assert("url"@.len() == 3 && "url"@[0] == 'u' && "url"@[1] == 'r' && "url"@[2] == 'l');
        reveal_strlit("username");
        assert("username"@.len() == 8 && "username"@[0] == 'u' && "username"@[1] == 's' && "username"@[2] == 'e' && "username"@[3] == 'r' && "username"@[4] == 'n' && "username"@[5] == 'a' && "username"@[6] == 'm' && "username"@[7] == 'e');
        reveal_strlit("acct");
        assert("acct"@.len() == 4 && "acct"@[0] == 'a' && "acct"@[1] == 'c' && "acct"@[2] == 'c' && "acct"@[3] == 't');
        let j = v.to_json();
        lemma_text_int_of_int_text(v.mention_id as int);
        assert(spec_i32(j, "id"@) == Ok::<i32, FaultView>(v.mention_id));
        assert(spec_text(j, "url"@) == Ok::<Seq<char>, FaultView>(v.url));
        assert(spec_text(j, "username"@) == Ok::<Seq<char>, FaultView>(v.username));
        assert(spec_text(j, "acct"@) == Ok::<Seq<char>, FaultView>(v.acct));
    }

    proof fn lemma_needs_fields(j: JsonView, k: int) {
        reveal(<Mention as Wire>::spec_from_json);
        reveal_strlit("id");
        reveal_strlit("url");
        reveal_strlit("username");
        reveal_strlit("acct");
    }
}

/// The current user's relation to an account.
#[derive(Debug, PartialEq)]
pub struct Relationship {
    pub relationship_id: i32,
    pub following: bool,
    pub followed_by: bool,
    pub blocking: bool,
    pub muting: bool,
    pub requested: bool,
}

/// What a `Relationship` holds, as mathematical values.
pub ghost struct RelationshipView {
    pub relationship_id: i32,
    pub following: bool,
    pub followed_by: bool,
    pub blocking: bool,
    pub muting: bool,
    pub requested: bool,
}

impl View for Relationship {
    type V = RelationshipView;

    open spec fn view(&self) -> RelationshipView
    {
        RelationshipView {
            relationship_id: self.relationship_id,
            following: self.following,
            followed_by: self.followed_by,
            blocking: self.blocking,
            muting: self.muting,
            requested: self.requested,
        }
    }
}

impl RelationshipView {
    /// The JSON object of the relationship.
    pub open spec fn to_json(self) -> JsonView
    {
        JsonView::Object(
            Seq::empty()
                .push(("id"@, json_int(self.relationship_id as int)))
                .push(("following"@, JsonView::Bool(self.following)))
                .push(("followed_by"@, JsonView::Bool(self.followed_by)))
                .push(("blocking"@, JsonView::Bool(self.blocking)))
                .push(("muting"@, JsonView::Bool(self.muting)))
                .push(("requested"@, JsonView::Bool(self.requested))),
        )
    }
}

impl Wire for Relationship {
    open spec fn spec_kind() -> Entity {
        Entity::Relationship
    }

    open spec fn spec_required() -> Seq<Seq<char>> {
        seq!["id"@, "following"@, "followed_by"@, "blocking"@, "muting"@, "requested"@]
    }

    #[verifier::opaque]
    open spec fn spec_from_json(j: JsonView) -> Result<RelationshipView, FaultView>
    {
        let relationship_id = spec_i32(j, "id"@);
        let following = spec_bool(j, "following"@);
        let followed_by = spec_bool(j, "followed_by"@);
        let blocking = spec_bool(j, "blocking"@);
        let muting = spec_bool(j, "muting"@);
        let requested = spec_bool(j, "requested"@);
        if !(j is Object) {
            Err(not_an_object())
        } else if relationship_id is Err {
            Err(relationship_id->Err_0)
        } else if following is Err {
            Err(following->Err_0)
        } else if followed_by is Err {
            Err(followed_by->Err_0)
        } else if blocking is Err {
            Err(blocking->Err_0)
        } else if muting is Err {
            Err(muting->Err_0)
        } else if requested is Err {
            Err(requested->Err_0)
        } else {
            Ok(
                RelationshipView {
                    relationship_id: relationship_id->Ok_0,
                    following: following->Ok_0,
                    followed_by: followed_by->Ok_0,
                    blocking: blocking->Ok_0,
                    muting: muting->Ok_0,
                    requested: requested->Ok_0,
                },
            )
        }
    }

    open spec fn spec_to_json(v: RelationshipView) -> JsonView {
        v.to_json()
    }

    fn kind() -> (k: Entity) {
        Entity::Relationship
    }

    fn from_json(j: &Json) -> (r: Result<Relationship, Fault>)
    {
        proof {
            reveal(<Relationship as Wire>::spec_from_json);
        }
        if !is_object(j) {
            return Err(fault_not_an_object());
        }
        let relationship_id = read_i32(j, "id")?;
        let following = read_bool(j, "following")?;
        let followed_by = read_bool(j, "followed_by")?;
        let blocking = read_bool(j, "blocking")?;
        let muting = read_bool(j, "muting")?;
        let requested = read_bool(j, "requested")?;
        Ok(Relationship { relationship_id, following, followed_by, blocking, muting, requested })
    }

    fn to_json(&self) -> (j: Json)
    {
        let mut members: Vec<(String, Json)> = Vec::new();
        proof {
            assert(member_views(members@) =~= Seq::empty());
        }
        push_member(&mut members, "id", write_i32(self.relationship_id));
        push_member(&mut members, "following", Json::Bool(self.following));
        push_member(&mut members, "followed_by", Json::Bool(self.followed_by));
        push_member(&mut members, "blocking", Json::Bool(self.blocking));
        push_member(&mut members, "muting", Json::Bool(self.muting));
        push_member(&mut members, "requested", Json::Bool(self.requested));
        proof {
            lemma_object_view(members);
        }
        Json::Object(members)
    }

    proof fn lemma_round_trip(v: RelationshipView)
    {
        broadcast use lemma_member_push;

        reveal(<Relationship as Wire>::spec_from_json);
        reveal_strlit("id");
        assert("id"@.len() == 2 && "id"@[0] == 'i' && "id"@[1] == 'd');
        reveal_strlit("following");
        assert("following"@.len() == 9 && "following"@[0] == 'f' && "following"@[1] == 'o' && "following"@[2] == 'l' && "following"@[3] == 'l' && "following"@[4] == 'o' && "following"@[5] == 'w' && "following"@[6] == 'i' && "following"@[7] == 'n' && "following"@[8] == 'g');
        reveal_strlit("followed_by");
        assert("followed_by"@.len() == 11 && "followed_by"@[0] == 'f' && "followed_by"@[1] == 'o' && "followed_by"@[2] == 'l' && "followed_by"@[3] == 'l' && "followed_by"@[4] == 'o' && "followed_by"@[5] == 'w' && "followed_by"@[6] == 'e' && "followed_by"@[7] == 'd' && "followed_by"@[8] == '_' && "followed_by"@[9] == 'b' && "followed_by"@[10] == 'y');
        reveal_strlit("blocking");
        assert("blocking"@.len() == 8 && "blocking"@[0] == 'b' && "blocking"@[1] == 'l' && "blocking"@[2] == 'o' && "blocking"@[3] == 'c' && "blocking"@[4] == 'k' && "blocking"@[5] == 'i' && "blocking"@[6] == 'n' && "blocking"@[7] == 'g');
        reveal_strlit("muting");
        assert("muting"@.len() == 6 && "muting"@[0] == 'm' && "muting"@[1] == 'u' && "muting"@[2] == 't' && "muting"@[3] == 'i' && "muting"@[4] == 'n' && "muting"@[5] == 'g');
        reveal_strlit("requested");
        assert("requested"@.len() == 9 && "requested"@[0] == 'r' && "requested"@[1] == 'e' && "requested"@[2] == 'q' && "requested"@[3] == 'u' && "requested"@[4] == 'e' && "requested"@[5] == 's' && "requested"@[6] == 't' && "requested"@[7] == 'e' && "requested"@[8] == 'd');
        let j = v.to_json();
        lemma_text_int_of_int_text(v.relationship_id as int);
        assert(spec_i32(j, "id"@) == Ok::<i32, FaultView>(v.relationship_id));
        assert(spec_bool(j, "following"@) == Ok::<bool, FaultView>(v.following));
        assert(spec_bool(j, "followed_by"@) == Ok::<bool, FaultView>(v.followed_by));
        assert(spec_bool(j, "blocking"@) == Ok::<bool, FaultView>(v.blocking));
        assert(spec_bool(j, "muting"@) == Ok::<bool, FaultView>(v.muting));
        assert(spec_bool(j, "requested"@) == Ok::<bool, FaultView>(v.requested));
    }

    proof fn lemma_needs_fields(j: JsonView, k: int) {
        reveal(<Relationship as Wire>::spec_from_json);
        reveal_strlit("id");
        reveal_strlit("following");
        reveal_strlit("followed_by");
        reveal_strlit("blocking");
        reveal_strlit("muting");
        reveal_strlit("requested");
    }
}

/// A report of an account to the moderators.
#[derive(Debug, PartialEq)]
pub struct Report {
    pub report_id: i32,
    pub action_taken: String,
}

/// What a `Report` holds, as mathematical values.
pub ghost struct ReportView {
    pub report_id: i32,
    pub action_taken: Seq<char>,
}

impl View for Report {
    type V = ReportView;

    open spec fn view(&self) -> ReportView
    {
        ReportView {
            report_id: self.report_id,
            action_taken: self.action_taken@,
        }
    }
}

impl ReportView {
    /// The JSON object of the report.
    pub open spec fn to_json(self) -> JsonView
    {
        JsonView::Object(
            Seq::empty()
                .push(("id"@, json_int(self.report_id as int)))
                .push(("action_taken"@, json_text(self.action_taken))),
        )
    }
}

impl Wire for Report {
    open spec fn spec_kind() -> Entity {
        Entity::Report
    }

    open spec fn spec_required() -> Seq<Seq<char>> {
        seq!["id"@, "action_taken"@]
    }

    #[verifier::opaque]
    open spec fn spec_from_json(j: JsonView) -> Result<ReportView, FaultView>
    {
        let report_id = spec_i32(j, "id"@);
        let action_taken = spec_text(j, "action_taken"@);
        if !(j is Object) {
            Err(not_an_object())
        } else if report_id is Err {
            Err(report_id->Err_0)
        } else if action_taken is Err {
            Err(action_taken->Err_0)
        } else {
            Ok(
                ReportView {
                    report_id: report_id->Ok_0,
                    action_taken: action_taken->Ok_0,
                },
            )
        }
    }

    open spec fn spec_to_json(v: ReportView) -> JsonView {
        v.to_json()
    }

    fn kind() -> (k: Entity) {
        Entity::Report
    }

    fn from_json(j: &Json) -> (r: Result<Report, Fault>)
    {
        proof {
            reveal(<Report as Wire>::spec_from_json);
        }
        if !is_object(j) {
            return Err(fault_not_an_object());
        }
        let report_id = read_i32(j, "id")?;
        let action_taken = read_text(j, "action_taken")?;
        Ok(Report { report_id, action_taken })
    }

    fn to_json(&self) -> (j: Json)
    {
        let mut members: Vec<(String, Json)> = Vec::new();
        proof {
            assert(member_views(members@) =~= Seq::empty());
        }
        push_member(&mut members, "id", write_i32(self.report_id));
        push_member(&mut members, "action_taken", write_text(&self.action_taken));
        proof {
            lemma_object_view(members);
        }
        Json::Object(members)
    }

    proof fn lemma_round_trip(v: ReportView)
    {
        broadcast use lemma_member_push;

        reveal(<Report as Wire>::spec_from_json);
        reveal_strlit("id");
        assert("id"@.len() == 2 && "id"@[0] == 'i' && "id"@[1] == 'd');
        reveal_strlit("action_taken");
        assert("action_taken"@.len() == 12 && "action_taken"@[0] == 'a' && "action_taken"@[1] == 'c' && "action_taken"@[2] == 't' && "action_taken"@[3] == 'i' && "action_taken"@[4] == 'o' && "action_taken"@[5] == 'n' && "action_taken"@[6] == '_' && "action_taken"@[7] == 't' && "action_taken"@[8] == 'a' && "action_taken"@[9] == 'k' && "action_taken"@[10] == 'e' && "action_taken"@[11] == 'n');
        let j = v.to_json();
        lemma_text_int_of_int_text(v.report_id as int);
        assert(spec_i32(j, "id"@) == Ok::<i32, FaultView>(v.report_id));
        assert(spec_text(j, "action_taken"@) == Ok::<Seq<char>, FaultView>(v.action_taken));
    }

    proof fn lemma_needs_fields(j: JsonView, k: int) {
        reveal(<Report as Wire>::spec_from_json);
        reveal_strlit("id");
        reveal_strlit("action_taken");
    }
}

/// A hashtag in a status.
#[derive(Debug, PartialEq)]
pub struct Tag {
    pub name: String,
    pub url: String,
}

/// What a `Tag` holds, as mathematical values.
pub ghost struct TagView {
    pub name: Seq<char>,
    pub url: Seq<char>,
}

impl View for Tag {
    type V = TagView;

    open spec fn view(&self) -> TagView
    {
        TagView {
            name: self.name@,
            url: self.url@,
        }
    }
}

impl TagView {
    /// The JSON object of the tag.
    pub open spec fn to_json(self) -> JsonView
    {
        JsonView::Object(
            Seq::empty()
                .push(("name"@, json_text(self.name)))
                .push(("url"@, json_text(self.url))),
        )
    }
}

impl Wire for Tag {
    open spec fn spec_kind() -> Entity {
        Entity::Tag
    }

    open spec fn spec_required() -> Seq<Seq<char>> {
        seq!["name"@, "url"@]
    }

    #[verifier::opaque]
    open spec fn spec_from_json(j: JsonView) -> Result<TagView, FaultView>
    {
        let name = spec_text(j, "name"@);
        let url = spec_text(j, "url"@);
        if !(j is Object) {
            Err(not_an_object())
        } else if name is Err {
            Err(name->Err_0)
        } else if url is Err {
            Err(url->Err_0)
        } else {
            Ok(
                TagView {
                    name: name->Ok_0,
                    url: url->Ok_0,
                },
            )
        }
    }

    open spec fn spec_to_json(v: TagView) -> JsonView {
        v.to_json()
    }

    fn kind() -> (k: Entity) {
        Entity::Tag
    }

    fn from_json(j: &Json) -> (r: Result<Tag, Fault>)
    {
        proof {
            reveal(<Tag as Wire>::spec_from_json);
        }
        if !is_object(j) {
            return Err(fault_not_an_object());
        }
        let name = read_text(j, "name")?;
        let url = read_text(j, "url")?;
        Ok(Tag { name, url })
    }

    fn to_json(&self) -> (j: Json)
    {
        let mut members: Vec<(String, Json)> = Vec::new();
        proof {
            assert(member_views(members@) =~= Seq::empty());
        }
        push_member(&mut members, "name", write_text(&self.name));
        push_member(&mut members, "url", write_text(&self.url));
        proof {
            lemma_object_view(members);
        }
        Json::Object(members)
    }

    proof fn lemma_round_trip(v: TagView)
    {
        broadcast use lemma_member_push;

        reveal(<Tag as Wire>::spec_from_json);
        reveal_strlit("name");
        assert("name"@.len() == 4 && "name"@[0] == 'n' && "name"@[1] == 'a' && "name"@[2] == 'm' && "name"@[3] == 'e');
        reveal_strlit("url");
        assert("url"@.len() == 3 && "url"@[0] == 'u' && "url"@[1] == 'r' && "url"@[2] == 'l');
        let j = v.to_json();
        assert(spec_text(j, "name"@) == Ok::<Seq<char>, FaultView>(v.name));
        assert(spec_text(j, "url"@) == Ok::<Seq<char>, FaultView>(v.url));
    }

    proof fn lemma_needs_fields(j: JsonView, k: int) {
        reveal(<Tag as Wire>::spec_from_json);
        reveal_strlit("name");
        reveal_strlit("url");
    }
}

/// A status, also called a toot.
#[derive(Debug, PartialEq)]
pub struct Status {
    pub status_id: i32,
    pub uri: String,
    pub url: String,
    pub account: Account,
    pub in_reply_to_id: Option<i32>,
    pub in_reply_to_account_id: Option<i32>,
    pub reblog: Option<Box<Status>>,
    pub content: String,
    pub created_at: String,
    pub reblogs_count: i32,
    pub favourites_count: i32,
    pub reblogged: bool,
    pub favourited: bool,
    pub sensitive: bool,
    pub spoiler_text: String,
    pub visibility: String,
    pub media_attachments: Vec<Attachment>,
    pub mentions: Vec<Mention>,
    pub tags: Vec<Tag>,
    pub application: Application,
}

/// What a `Status` holds, as mathematical values.
pub ghost struct StatusView {
    pub status_id: i32,
    pub uri: Seq<char>,
    pub url: Seq<char>,
    pub account: AccountView,
    pub in_reply_to_id: Option<i32>,
    pub in_reply_to_account_id: Option<i32>,
    pub reblog: Option<Box<StatusView>>,
    pub content: Seq<char>,
    pub created_at: Seq<char>,
    pub reblogs_count: i32,
    pub favourites_count: i32,
    pub reblogged: bool,
    pub favourited: bool,
    pub sensitive: bool,
    pub spoiler_text: Seq<char>,
    pub visibility: Seq<char>,
    pub media_attachments: Seq<AttachmentView>,
    pub mentions: Seq<MentionView>,
    pub tags: Seq<TagView>,
    pub application: ApplicationView,
}

impl View for Status {
    type V = StatusView;

    open spec fn view(&self) -> StatusView
        decreases self,
    {
        StatusView {
            status_id: self.status_id,
            uri: self.uri@,
            url: self.url@,
            account: self.account@,
            in_reply_to_id: self.in_reply_to_id,
            in_reply_to_account_id: self.in_reply_to_account_id,
            reblog: match self.reblog {
                Some(b) => Some(Box::new((*b).view())),
                None => None,
            },
            content: self.content@,
            created_at: self.created_at@,
            reblogs_count: self.reblogs_count,
            favourites_count: self.favourites_count,
            reblogged: self.reblogged,
            favourited: self.favourited,
            sensitive: self.sensitive,
            spoiler_text: self.spoiler_text@,
            visibility: self.visibility@,
            media_attachments: views(self.media_attachments@),
            mentions: views(self.mentions@),
            tags: views(self.tags@),
            application: self.application@,
        }
    }
}

impl StatusView {
    /// The JSON object of the status.
    pub open spec fn to_json(self) -> JsonView
        decreases self,
    {
        JsonView::Object(
            Seq::empty()
                .push(("id"@, json_int(self.status_id as int)))
                .push(("uri"@, json_text(self.uri)))
                .push(("url"@, json_text(self.url)))
                .push(("account"@, self.account.to_json()))
                .push(("in_reply_to_id"@, json_opt_i32(self.in_reply_to_id)))
                .push(("in_reply_to_account_id"@, json_opt_i32(self.in_reply_to_account_id)))
                .push(("reblog"@, match self.reblog {
                    Some(b) => (*b).to_json(),
                    None => JsonView::Null,
                }))
                .push(("content"@, json_text(self.content)))
                .push(("created_at"@, json_text(self.created_at)))
                .push(("reblogs_count"@, json_int(self.reblogs_count as int)))
                .push(("favourites_count"@, json_int(self.favourites_count as int)))
                .push(("reblogged"@, JsonView::Bool(self.reblogged)))
                .push(("favourited"@, JsonView::Bool(self.favourited)))
                .push(("sensitive"@, JsonView::Bool(self.sensitive)))
                .push(("spoiler_text"@, json_text(self.spoiler_text)))
                .push(("visibility"@, json_text(self.visibility)))
                .push(("media_attachments"@, JsonView::Array(self.media_attachments.map_values(writer::<Attachment>()))))
                .push(("mentions"@, JsonView::Array(self.mentions.map_values(writer::<Mention>()))))
                .push(("tags"@, JsonView::Array(self.tags.map_values(writer::<Tag>()))))
                .push(("application"@, self.application.to_json())),
        )
    }
}

impl Wire for Status {
    open spec fn spec_kind() -> Entity {
        Entity::Status
    }

    open spec fn spec_required() -> Seq<Seq<char>> {
        seq!["id"@, "uri"@, "url"@, "account"@, "content"@, "created_at"@, "reblogs_count"@, "favourites_count"@, "reblogged"@, "favourited"@, "sensitive"@, "spoiler_text"@, "visibility"@, "media_attachments"@, "mentions"@, "tags"@, "application"@]
    }

    #[verifier::opaque]
    open spec fn spec_from_json(j: JsonView) -> Result<StatusView, FaultView>
        decreases j,
    {
        let status_id = spec_i32(j, "id"@);
        let uri = spec_text(j, "uri"@);
        let url = spec_text(j, "url"@);
        let account = spec_nested(j, "account"@, reader::<Account>());
        let in_reply_to_id = spec_opt_i32(j, "in_reply_to_id"@);
        let in_reply_to_account_id = spec_opt_i32(j, "in_reply_to_account_id"@);
        let reblog: Result<Option<Box<StatusView>>, FaultView> = match spec_optional(j, "reblog"@) {
            None => Ok(None),
            Some(inner) => {
                proof {
                    lemma_member_smaller(j->Object_0, "reblog"@);
                }
                match Self::spec_from_json(inner) {
                    Ok(v) => Ok(Some(Box::new(v))),
                    Err(f) => Err(fault_under("reblog"@, f)),
                }
            },
        };
        let content = spec_text(j, "content"@);
        let created_at = spec_text(j, "created_at"@);
        let reblogs_count = spec_i32(j, "reblogs_count"@);
        let favourites_count = spec_i32(j, "favourites_count"@);
        let reblogged = spec_bool(j, "reblogged"@);
        let favourited = spec_bool(j, "favourited"@);
        let sensitive = spec_bool(j, "sensitive"@);
        let spoiler_text = spec_text(j, "spoiler_text"@);
        let visibility = spec_text(j, "visibility"@);
        let media_attachments = spec_list(j, "media_attachments"@, reader::<Attachment>());
        let mentions = spec_list(j, "mentions"@, reader::<Mention>());
        let tags = spec_list(j, "tags"@, reader::<Tag>());
        let application = spec_nested(j, "application"@, reader::<Application>());
        if !(j is Object) {
            Err(not_an_object())
        } else if status_id is Err {
            Err(status_id->Err_0)
        } else if uri is Err {
            Err(uri->Err_0)
        } else if url is Err {
            Err(url->Err_0)
        } else if account is Err {
            Err(account->Err_0)
        } else if in_reply_to_id is Err {
            Err(in_reply_to_id->Err_0)
        } else if in_reply_to_account_id is Err {
            Err(in_reply_to_account_id->Err_0)
        } else if reblog is Err {
            Err(reblog->Err_0)
        } else if content is Err {
            Err(content->Err_0)
        } else if created_at is Err {
            Err(created_at->Err_0)
        } else if reblogs_count is Err {
            Err(reblogs_count->Err_0)
        } else if favourites_count is Err {
            Err(favourites_count->Err_0)
        } else if reblogged is Err {
            Err(reblogged->Err_0)
        } else if favourited is Err {
            Err(favourited->Err_0)
        } else if sensitive is Err {
            Err(sensitive->Err_0)
        } else if spoiler_text is Err {
            Err(spoiler_text->Err_0)
        } else if visibility is Err {
            Err(visibility->Err_0)
        } else if media_attachments is Err {
            Err(media_attachments->Err_0)
        } else if mentions is Err {
            Err(mentions->Err_0)
        } else if tags is Err {
            Err(tags->Err_0)
        } else if application is Err {
            Err(application->Err_0)
        } else {
            Ok(
                StatusView {
                    status_id: status_id->Ok_0,
                    uri: uri->Ok_0,
                    url: url->Ok_0,
                    account: account->Ok_0,
                    in_reply_to_id: in_reply_to_id->Ok_0,
                    in_reply_to_account_id: in_reply_to_account_id->Ok_0,
                    reblog: reblog->Ok_0,
                    content: content->Ok_0,
                    created_at: created_at->Ok_0,
                    reblogs_count: reblogs_count->Ok_0,
                    favourites_count: favourites_count->Ok_0,
                    reblogged: reblogged->Ok_0,
                    favourited: favourited->Ok_0,
                    sensitive: sensitive->Ok_0,
                    spoiler_text: spoiler_text->Ok_0,
                    visibility: visibility->Ok_0,
                    media_attachments: media_attachments->Ok_0,
                    mentions: mentions->Ok_0,
                    tags: tags->Ok_0,
                    application: application->Ok_0,
                },
            )
        }
    }

    open spec fn spec_to_json(v: StatusView) -> JsonView {
        v.to_json()
    }

    fn kind() -> (k: Entity) {
        Entity::Status
    }

    fn from_json(j: &Json) -> (r: Result<Status, Fault>)
        decreases j@,
    {
        proof {
            reveal(<Status as Wire>::spec_from_json);
        }
        if !is_object(j) {
            return Err(fault_not_an_object());
        }
        let status_id = read_i32(j, "id")?;
        let uri = read_text(j, "uri")?;
        let url = read_text(j, "url")?;
        let account = read_nested::<Account>(j, "account")?;
        let in_reply_to_id = read_opt_i32(j, "in_reply_to_id")?;
        let in_reply_to_account_id = read_opt_i32(j, "in_reply_to_account_id")?;
        let reblog = match read_optional(j, "reblog") {
            None => None,
            Some(inner) => {
                proof {
                    lemma_member_smaller(j@->Object_0, "reblog"@);
                }
                match Status::from_json(inner) {
                    Ok(v) => Some(Box::new(v)),
                    Err(f) => {
                        return Err(f.under("reblog"));
                    },
                }
            },
        };
        let content = read_text(j, "content")?;
        let created_at = read_text(j, "created_at")?;
        let reblogs_count = read_i32(j, "reblogs_count")?;
        let favourites_count = read_i32(j, "favourites_count")?;
        let reblogged = read_bool(j, "reblogged")?;
        let favourited = read_bool(j, "favourited")?;
        let sensitive = read_bool(j, "sensitive")?;
        let spoiler_text = read_text(j, "spoiler_text")?;
        let visibility = read_text(j, "visibility")?;
        let media_attachments = read_list::<Attachment>(j, "media_attachments")?;
        let mentions = read_list::<Mention>(j, "mentions")?;
        let tags = read_list::<Tag>(j, "tags")?;
        let application = read_nested::<Application>(j, "application")?;
        Ok(Status { status_id, uri, url, account, in_reply_to_id, in_reply_to_account_id, reblog, content, created_at, reblogs_count, favourites_count, reblogged, favourited, sensitive, spoiler_text, visibility, media_attachments, mentions, tags, application })
    }

    fn to_json(&self) -> (j: Json)
        decreases self,
    {
        let mut members: Vec<(String, Json)> = Vec::new();
        proof {
            assert(member_views(members@) =~= Seq::empty());
        }
        push_member(&mut members, "id", write_i32(self.status_id));
        push_member(&mut members, "uri", write_text(&self.uri));
        push_member(&mut members, "url", write_text(&self.url));
        push_member(&mut members, "account", self.account.to_json());
        push_member(&mut members, "in_reply_to_id", write_opt_i32(self.in_reply_to_id));
        push_member(&mut members, "in_reply_to_account_id", write_opt_i32(self.in_reply_to_account_id));
        let reblog = match &self.reblog {
            Some(b) => b.to_json(),
            None => Json::Null,
        };
        push_member(&mut members, "reblog", reblog);
        push_member(&mut members, "content", write_text(&self.content));
        push_member(&mut members, "created_at", write_text(&self.created_at));
        push_member(&mut members, "reblogs_count", write_i32(self.reblogs_count));
        push_member(&mut members, "favourites_count", write_i32(self.favourites_count));
        push_member(&mut members, "reblogged", Json::Bool(self.reblogged));
        push_member(&mut members, "favourited", Json::Bool(self.favourited));
        push_member(&mut members, "sensitive", Json::Bool(self.sensitive));
        push_member(&mut members, "spoiler_text", write_text(&self.spoiler_text));
        push_member(&mut members, "visibility", write_text(&self.visibility));
        push_member(&mut members, "media_attachments", write_list::<Attachment>(&self.media_attachments));
        push_member(&mut members, "mentions", write_list::<Mention>(&self.mentions));
        push_member(&mut members, "tags", write_list::<Tag>(&self.tags));
        push_member(&mut members, "application", self.application.to_json());
        proof {
            lemma_object_view(members);
        }
        Json::Object(members)
    }

    #[verifier::rlimit(80)]
    proof fn lemma_round_trip(v: StatusView)
        decreases v,
    {
        broadcast use lemma_member_push;

        reveal(<Status as Wire>::spec_from_json);
        reveal_strlit("id");
        assert("id"@.len() == 2 && "id"@[0] == 'i' && "id"@[1] == 'd');
        reveal_strlit("uri");
        assert("uri"@.len() == 3 && "uri"@[0] == 'u' && "uri"@[1] == 'r' && "uri"@[2] == 'i');
        reveal_strlit("url");
        assert("url"@.len() == 3 && "url"@[0] == 'u' && "url"@[1] == 'r' && "url"@[2] == 'l');
        reveal_strlit("account");
        assert("account"@.len() == 7 && "account"@[0] == 'a' && "account"@[1] == 'c' && "account"@[2] == 'c' && "account"@[3] == 'o' && "account"@[4] == 'u' && "account"@[5] == 'n' && "account"@[6] == 't');
        reveal_strlit("in_reply_to_id");
        assert("in_reply_to_id"@.len() == 14 && "in_reply_to_id"@[0] == 'i' && "in_reply_to_id"@[1] == 'n' && "in_reply_to_id"@[2] == '_' && "in_reply_to_id"@[3] == 'r' && "in_reply_to_id"@[4] == 'e' && "in_reply_to_id"@[5] == 'p' && "in_reply_to_id"@[6] == 'l' && "in_reply_to_id"@[7] == 'y' && "in_reply_to_id"@[8] == '_' && "in_reply_to_id"@[9] == 't' && "in_reply_to_id"@[10] == 'o' && "in_reply_to_id"@[11] == '_' && "in_reply_to_id"@[12] == 'i' && "in_reply_to_id"@[13] == 'd');
        reveal_strlit("in_reply_to_account_id");
        assert("in_reply_to_account_id"@.len() == 22 && "in_reply_to_account_id"@[0] == 'i' && "in_reply_to_account_id"@[1] == 'n' && "in_reply_to_account_id"@[2] == '_' && "in_reply_to_account_id"@[3] == 'r' && "in_reply_to_account_id"@[4] == 'e' && "in_reply_to_account_id"@[5] == 'p' && "in_reply_to_account_id"@[6] == 'l' && "in_reply_to_account_id"@[7] == 'y' && "in_reply_to_account_id"@[8] == '_' && "in_reply_to_account_id"@[9] == 't' && "in_reply_to_account_id"@[10] == 'o' && "in_reply_to_account_id"@[11] == '_' && "in_reply_to_account_id"@[12] == 'a' && "in_reply_to_account_id"@[13] == 'c' && "in_reply_to_account_id"@[14] == 'c' && "in_reply_to_account_id"@[15] == 'o' && "in_reply_to_account_id"@[16] == 'u' && "in_reply_to_account_id"@[17] == 'n' && "in_reply_to_account_id"@[18] == 't' && "in_reply_to_account_id"@[19] == '_' && "in_reply_to_account_id"@[20] == 'i' && "in_reply_to_account_id"@[21] == 'd');
        reveal_strlit("reblog");
        assert("reblog"@.len() == 6 && "reblog"@[0] == 'r' && "reblog"@[1] == 'e' && "reblog"@[2] == 'b' && "reblog"@[3] == 'l' && "reblog"@[4] == 'o' && "reblog"@[5] == 'g');
        reveal_strlit("content");
        assert("content"@.len() == 7 && "content"@[0] == 'c' && "content"@[1] == 'o' && "content"@[2] == 'n' && "content"@[3] == 't' && "content"@[4] == 'e' && "content"@[5] == 'n' && "content"@[6] == 't');
        reveal_strlit("created_at");
        assert("created_at"@.len() == 10 && "created_at"@[0] == 'c' && "created_at"@[1] == 'r' && "created_at"@[2] == 'e' && "created_at"@[3] == 'a' && "created_at"@[4] == 't' && "created_at"@[5] == 'e' && "created_at"@[6] == 'd' && "created_at"@[7] == '_' && "created_at"@[8] == 'a' && "created_at"@[9] == 't');
        reveal_strlit("reblogs_count");
        assert("reblogs_count"@.len() == 13 && "reblogs_count"@[0] == 'r' && "reblogs_count"@[1] == 'e' && "reblogs_count"@[2] == 'b' && "reblogs_count"@[3] == 'l' && "reblogs_count"@[4] == 'o' && "reblogs_count"@[5] == 'g' && "reblogs_count"@[6] == 's' && "reblogs_count"@[7] == '_' && "reblogs_count"@[8] == 'c' && "reblogs_count"@[9] == 'o' && "reblogs_count"@[10] == 'u' && "reblogs_count"@[11] == 'n' && "reblogs_count"@[12] == 't');
        reveal_strlit("favourites_count");
        assert("favourites_count"@.len() == 16 && "favourites_count"@[0] == 'f' && "favourites_count"@[1] == 'a' && "favourites_count"@[2] == 'v' && "favourites_count"@[3] == 'o' && "favourites_count"@[4] == 'u' && "favourites_count"@[5] == 'r' && "favourites_count"@[6] == 'i' && "favourites_count"@[7] == 't' && "favourites_count"@[8] == 'e' && "favourites_count"@[9] == 's' && "favourites_count"@[10] == '_' && "favourites_count"@[11] == 'c' && "favourites_count"@[12] == 'o' && "favourites_count"@[13] == 'u' && "favourites_count"@[14] == 'n' && "favourites_count"@[15] == 't');
        reveal_strlit("reblogged");
        assert("reblogged"@.len() == 9 && "reblogged"@[0] == 'r' && "reblogged"@[1] == 'e' && "reblogged"@[2] == 'b' && "reblogged"@[3] == 'l' && "reblogged"@[4] == 'o' && "reblogged"@[5] == 'g' && "reblogged"@[6] == 'g' && "reblogged"@[7] == 'e' && "reblogged"@[8] == 'd');
        reveal_strlit("favourited");
        assert("favourited"@.len() == 10 && "favourited"@[0] == 'f' && "favourited"@[1] == 'a' && "favourited"@[2] == 'v' && "favourited"@[3] == 'o' && "favourited"@[4] == 'u' && "favourited"@[5] == 'r' && "favourited"@[6] == 'i' && "favourited"@[7] == 't' && "favourited"@[8] == 'e' && "favourited"@[9] == 'd');
        reveal_strlit("sensitive");
        assert("sensitive"@.len() == 9 && "sensitive"@[0] == 's' && "sensitive"@[1] == 'e' && "sensitive"@[2] == 'n' && "sensitive"@[3] == 's' && "sensitive"@[4] == 'i' && "sensitive"@[5] == 't' && "sensitive"@[6] == 'i' && "sensitive"@[7] == 'v' && "sensitive"@[8] == 'e');
        reveal_strlit("spoiler_text");
        assert("spoiler_text"@.len() == 12 && "spoiler_text"@[0] == 's' && "spoiler_text"@[1] == 'p' && "spoiler_text"@[2] == 'o' && "spoiler_text"@[3] == 'i' && "spoiler_text"@[4] == 'l' && "spoiler_text"@[5] == 'e' && "spoiler_text"@[6] == 'r' && "spoiler_text"@[7] == '_' && "spoiler_text"@[8] == 't' && "spoiler_text"@[9] == 'e' && "spoiler_text"@[10] == 'x' && "spoiler_text"@[11] == 't');
        reveal_strlit("visibility");
        assert("visibility"@.len() == 10 && "visibility"@[0] == 'v' && "visibility"@[1] == 'i' && "visibility"@[2] == 's' && "visibility"@[3] == 'i' && "visibility"@[4] == 'b' && "visibility"@[5] == 'i' && "visibility"@[6] == 'l' && "visibility"@[7] == 'i' && "visibility"@[8] == 't' && "visibility"@[9] == 'y');
        reveal_strlit("media_attachments");
        assert("media_attachments"@.len() == 17 && "media_attachments"@[0] == 'm' && "media_attachments"@[1] == 'e' && "media_attachments"@[2] == 'd' && "media_attachments"@[3] == 'i' && "media_attachments"@[4] == 'a' && "media_attachments"@[5] == '_' && "media_attachments"@[6] == 'a' && "media_attachments"@[7] == 't' && "media_attachments"@[8] == 't' && "media_attachments"@[9] == 'a' && "media_attachments"@[10] == 'c' && "media_attachments"@[11] == 'h' && "media_attachments"@[12] == 'm' && "media_attachments"@[13] == 'e' && "media_attachments"@[14] == 'n' && "media_attachments"@[15] == 't' && "media_attachments"@[16] == 's');
        reveal_strlit("mentions");
        assert("mentions"@.len() == 8 && "mentions"@[0] == 'm' && "mentions"@[1] == 'e' && "mentions"@[2] == 'n' && "mentions"@[3] == 't' && "mentions"@[4] == 'i' && "mentions"@[5] == 'o' && "mentions"@[6] == 'n' && "mentions"@[7] == 's');
        reveal_strlit("tags");
        assert("tags"@.len() == 4 && "tags"@[0] == 't' && "tags"@[1] == 'a' && "tags"@[2] == 'g' && "tags"@[3] == 's');
        reveal_strlit("application");
        assert("application"@.len() == 11 && "application"@[0] == 'a' && "application"@[1] == 'p' && "application"@[2] == 'p' && "application"@[3] == 'l' && "application"@[4] == 'i' && "application"@[5] == 'c' && "application"@[6] == 'a' && "application"@[7] == 't' && "application"@[8] == 'i' && "application"@[9] == 'o' && "application"@[10] == 'n');
        let j = v.to_json();
        lemma_text_int_of_int_text(v.status_id as int);
        Account::lemma_round_trip(v.account);
        if v.in_reply_to_id is Some {
            lemma_text_int_of_int_text(v.in_reply_to_id->Some_0 as int);
        }
        if v.in_reply_to_account_id is Some {
            lemma_text_int_of_int_text(v.in_reply_to_account_id->Some_0 as int);
        }
        if v.reblog is Some {
            Self::lemma_round_trip(*v.reblog->Some_0);
        }
        lemma_text_int_of_int_text(v.reblogs_count as int);
        lemma_text_int_of_int_text(v.favourites_count as int);
        assert forall|x: AttachmentView| #[trigger] reader::<Attachment>()(writer::<Attachment>()(x)) == Ok::<
            AttachmentView,
            FaultView,
        >(x) by {
            Attachment::lemma_round_trip(x);
        }
        lemma_list_round_trip(v.media_attachments, writer::<Attachment>(), reader::<Attachment>());
        assert forall|x: MentionView| #[trigger] reader::<Mention>()(writer::<Mention>()(x)) == Ok::<
            MentionView,
            FaultView,
        >(x) by {
            Mention::lemma_round_trip(x);
        }
        lemma_list_round_trip(v.mentions, writer::<Mention>(), reader::<Mention>());
        assert forall|x: TagView| #[trigger] reader::<Tag>()(writer::<Tag>()(x)) == Ok::<
            TagView,
            FaultView,
        >(x) by {
            Tag::lemma_round_trip(x);
        }
        lemma_list_round_trip(v.tags, writer::<Tag>(), reader::<Tag>());
        Application::lemma_round_trip(v.application);
        assert(spec_i32(j, "id"@) == Ok::<i32, FaultView>(v.status_id));
        assert(spec_text(j, "uri"@) == Ok::<Seq<char>, FaultView>(v.uri));
        assert(spec_text(j, "url"@) == Ok::<Seq<char>, FaultView>(v.url));
        assert(spec_nested(j, "account"@, reader::<Account>()) == Ok::<AccountView, FaultView>(v.account));
        assert(spec_opt_i32(j, "in_reply_to_id"@) == Ok::<Option<i32>, FaultView>(v.in_reply_to_id));
        assert(spec_opt_i32(j, "in_reply_to_account_id"@) == Ok::<Option<i32>, FaultView>(v.in_reply_to_account_id));
        assert(spec_text(j, "content"@) == Ok::<Seq<char>, FaultView>(v.content));
        assert(spec_text(j, "created_at"@) == Ok::<Seq<char>, FaultView>(v.created_at));
        assert(spec_i32(j, "reblogs_count"@) == Ok::<i32, FaultView>(v.reblogs_count));
        assert(spec_i32(j, "favourites_count"@) == Ok::<i32, FaultView>(v.favourites_count));
        assert(spec_bool(j, "reblogged"@) == Ok::<bool, FaultView>(v.reblogged));
        assert(spec_bool(j, "favourited"@) == Ok::<bool, FaultView>(v.favourited));
        assert(spec_bool(j, "sensitive"@) == Ok::<bool, FaultView>(v.sensitive));
        assert(spec_text(j, "spoiler_text"@) == Ok::<Seq<char>, FaultView>(v.spoiler_text));
        assert(spec_text(j, "visibility"@) == Ok::<Seq<char>, FaultView>(v.visibility));
        assert(spec_list(j, "media_attachments"@, reader::<Attachment>()) == Ok::<Seq<AttachmentView>, FaultView>(v.media_attachments));
        assert(spec_list(j, "mentions"@, reader::<Mention>()) == Ok::<Seq<MentionView>, FaultView>(v.mentions));
        assert(spec_list(j, "tags"@, reader::<Tag>()) == Ok::<Seq<TagView>, FaultView>(v.tags));
        assert(spec_nested(j, "application"@, reader::<Application>()) == Ok::<ApplicationView, FaultView>(v.application));
    }

    proof fn lemma_needs_fields(j: JsonView, k: int) {
        reveal(<Status as Wire>::spec_from_json);
        reveal_strlit("id");
        reveal_strlit("uri");
        reveal_strlit("url");
        reveal_strlit("account");
        reveal_strlit("content");
        reveal_strlit("created_at");
        reveal_strlit("reblogs_count");
        reveal_strlit("favourites_count");
        reveal_strlit("reblogged");
        reveal_strlit("favourited");
        reveal_strlit("sensitive");
        reveal_strlit("spoiler_text");
        reveal_strlit("visibility");
        reveal_strlit("media_attachments");
        reveal_strlit("mentions");
        reveal_strlit("tags");
        reveal_strlit("application");
    }
}

/// The statuses around a status in its conversation.
#[derive(Debug, PartialEq)]
pub struct Context {
    pub ancestors: Vec<Status>,
    pub descendants: Vec<Status>,
}

/// What a `Context` holds, as mathematical values.
pub ghost struct ContextView {
    pub ancestors: Seq<StatusView>,
    pub descendants: Seq<StatusView>,
}

impl View for Context {
    type V = ContextView;

    open spec fn view(&self) -> ContextView
    {
        ContextView {
            ancestors: views(self.ancestors@),
            descendants: views(self.descendants@),
        }
    }
}

impl ContextView {
    /// The JSON object of the context.
    pub open spec fn to_json(self) -> JsonView
    {
        JsonView::Object(
            Seq::empty()
                .push(("ancestors"@, JsonView::Array(self.ancestors.map_values(writer::<Status>()))))
                .push(("descendants"@, JsonView::Array(self.descendants.map_values(writer::<Status>())))),
        )
    }
}

impl Wire for Context {
    open spec fn spec_kind() -> Entity {
        Entity::Context
    }

    open spec fn spec_required() -> Seq<Seq<char>> {
        seq!["ancestors"@, "descendants"@]
    }

    #[verifier::opaque]
    open spec fn spec_from_json(j: JsonView) -> Result<ContextView, FaultView>
    {
        let ancestors = spec_list(j, "ancestors"@, reader::<Status>());
        let descendants = spec_list(j, "descendants"@, reader::<Status>());
        if !(j is Object) {
            Err(not_an_object())
        } else if ancestors is Err {
            Err(ancestors->Err_0)
        } else if descendants is Err {
            Err(descendants->Err_0)
        } else {
            Ok(
                ContextView {
                    ancestors: ancestors->Ok_0,
                    descendants: descendants->Ok_0,
                },
            )
        }
    }

    open spec fn spec_to_json(v: ContextView) -> JsonView {
        v.to_json()
    }

    fn kind() -> (k: Entity) {
        Entity::Context
    }

    fn from_json(j: &Json) -> (r: Result<Context, Fault>)
    {
        proof {
            reveal(<Context as Wire>::spec_from_json);
        }
        if !is_object(j) {
            return Err(fault_not_an_object());
        }
        let ancestors = read_list::<Status>(j, "ancestors")?;
        let descendants = read_list::<Status>(j, "descendants")?;
        Ok(Context { ancestors, descendants })
    }

    fn to_json(&self) -> (j: Json)
    {
        let mut members: Vec<(String, Json)> = Vec::new();
        proof {
            assert(member_views(members@) =~= Seq::empty());
        }
        push_member(&mut members, "ancestors", write_list::<Status>(&self.ancestors));
        push_member(&mut members, "descendants", write_list::<Status>(&self.descendants));
        proof {
            lemma_object_view(members);
        }
        Json::Object(members)
    }

    proof fn lemma_round_trip(v: ContextView)
    {
        broadcast use lemma_member_push;

        reveal(<Context as Wire>::spec_from_json);
        reveal_strlit("ancestors");
        assert("ancestors"@.len() == 9 && "ancestors"@[0] == 'a' && "ancestors"@[1] == 'n' && "ancestors"@[2] == 'c' && "ancestors"@[3] == 'e' && "ancestors"@[4] == 's' && "ancestors"@[5] == 't' && "ancestors"@[6] == 'o' && "ancestors"@[7] == 'r' && "ancestors"@[8] == 's');
        reveal_strlit("descendants");
        assert("descendants"@.len() == 11 && "descendants"@[0] == 'd' && "descendants"@[1] == 'e' && "descendants"@[2] == 's' && "descendants"@[3] == 'c' && "descendants"@[4] == 'e' && "descendants"@[5] == 'n' && "descendants"@[6] == 'd' && "descendants"@[7] == 'a' && "descendants"@[8] == 'n' && "descendants"@[9] == 't' && "descendants"@[10] == 's');
        let j = v.to_json();
        assert forall|x: StatusView| #[trigger] reader::<Status>()(writer::<Status>()(x)) == Ok::<
            StatusView,
            FaultView,
        >(x) by {
            Status::lemma_round_trip(x);
        }
        lemma_list_round_trip(v.ancestors, writer::<Status>(), reader::<Status>());
        assert forall|x: StatusView| #[trigger] reader::<Status>()(writer::<Status>()(x)) == Ok::<
            StatusView,
            FaultView,
        >(x) by {
            Status::lemma_round_trip(x);
        }
        lemma_list_round_trip(v.descendants, writer::<Status>(), reader::<Status>());
        assert(spec_list(j, "ancestors"@, reader::<Status>()) == Ok::<Seq<StatusView>, FaultView>(v.ancestors));
        assert(spec_list(j, "descendants"@, reader::<Status>()) == Ok::<Seq<StatusView>, FaultView>(v.descendants));
    }

    proof fn lemma_needs_fields(j: JsonView, k: int) {
        reveal(<Context as Wire>::spec_from_json);
        reveal_strlit("ancestors");
        reveal_strlit("descendants");
    }
}

/// Something that happened and concerns the current user.
#[derive(Debug, PartialEq)]
pub struct Notification {
    pub notification_id: i32,
    pub notification_type: String,
    pub created_at: String,
    pub account: Account,
    pub status: Option<Status>,
}

/// What a `Notification` holds, as mathematical values.
pub ghost struct NotificationView {
    pub notification_id: i32,
    pub notification_type: Seq<char>,
    pub created_at: Seq<char>,
    pub account: AccountView,
    pub status: Option<StatusView>,
}

impl View for Notification {
    type V = NotificationView;

    open spec fn view(&self) -> NotificationView
    {
        NotificationView {
            notification_id: self.notification_id,
            notification_type: self.notification_type@,
            created_at: self.created_at@,
            account: self.account@,
            status: match self.status {
                Some(v) => Some(v@),
                None => None,
            },
        }
    }
}

impl NotificationView {
    /// The JSON object of the notification.
    pub open spec fn to_json(self) -> JsonView
    {
        JsonView::Object(
            Seq::empty()
                .push(("id"@, json_int(self.notification_id as int)))
                .push(("type"@, json_text(self.notification_type)))
                .push(("created_at"@, json_text(self.created_at)))
                .push(("account"@, self.account.to_json()))
                .push(("status"@, json_opt(self.status, writer::<Status>()))),
        )
    }
}

impl Wire for Notification {
    open spec fn spec_kind() -> Entity {
        Entity::Notification
    }

    open spec fn spec_required() -> Seq<Seq<char>> {
        seq!["id"@, "type"@, "created_at"@, "account"@]
    }

    #[verifier::opaque]
    open spec fn spec_from_json(j: JsonView) -> Result<NotificationView, FaultView>
    {
        let notification_id = spec_i32(j, "id"@);
        let notification_type = spec_text(j, "type"@);
        let created_at = spec_text(j, "created_at"@);
        let account = spec_nested(j, "account"@, reader::<Account>());
        let status = spec_opt_nested(j, "status"@, reader::<Status>());
        if !(j is Object) {
            Err(not_an_object())
        } else if notification_id is Err {
            Err(notification_id->Err_0)
        } else if notification_type is Err {
            Err(notification_type->Err_0)
        } else if created_at is Err {
            Err(created_at->Err_0)
        } else if account is Err {
            Err(account->Err_0)
        } else if status is Err {
            Err(status->Err_0)
        } else {
            Ok(
                NotificationView {
                    notification_id: notification_id->Ok_0,
                    notification_type: notification_type->Ok_0,
                    created_at: created_at->Ok_0,
                    account: account->Ok_0,
                    status: status->Ok_0,
                },
            )
        }
    }

    open spec fn spec_to_json(v: NotificationView) -> JsonView {
        v.to_json()
    }

    fn kind() -> (k: Entity) {
        Entity::Notification
    }

    fn from_json(j: &Json) -> (r: Result<Notification, Fault>)
    {
        proof {
            reveal(<Notification as Wire>::spec_from_json);
        }
        if !is_object(j) {
            return Err(fault_not_an_object());
        }
        let notification_id = read_i32(j, "id")?;
        let notification_type = read_text(j, "type")?;
        let created_at = read_text(j, "created_at")?;
        let account = read_nested::<Account>(j, "account")?;
        let status = read_opt_nested::<Status>(j, "status")?;
        Ok(Notification { notification_id, notification_type, created_at, account, status })
    }

    fn to_json(&self) -> (j: Json)
    {
        let mut members: Vec<(String, Json)> = Vec::new();
        proof {
            assert(member_views(members@) =~= Seq::empty());
        }
        push_member(&mut members, "id", write_i32(self.notification_id));
        push_member(&mut members, "type", write_text(&self.notification_type));
        push_member(&mut members, "created_at", write_text(&self.created_at));
        push_member(&mut members, "account", self.account.to_json());
        push_member(&mut members, "status", write_opt::<Status>(&self.status));
        proof {
            lemma_object_view(members);
        }
        Json::Object(members)
    }

    proof fn lemma_round_trip(v: NotificationView)
    {
        broadcast use lemma_member_push;

        reveal(<Notification as Wire>::spec_from_json);
        reveal_strlit("id");
        assert("id"@.len() == 2 && "id"@[0] == 'i' && "id"@[1] == 'd');
        reveal_strlit("type");
        assert("type"@.len() == 4 && "type"@[0] == 't' && "type"@[1] == 'y' && "type"@[2] == 'p' && "type"@[3] == 'e');
        reveal_strlit("created_at");
        assert("created_at"@.len() == 10 && "created_at"@[0] == 'c' && "created_at"@[1] == 'r' && "created_at"@[2] == 'e' && "created_at"@[3] == 'a' && "created_at"@[4] == 't' && "created_at"@[5] == 'e' && "created_at"@[6] == 'd' && "created_at"@[7] == '_' && "created_at"@[8] == 'a' && "created_at"@[9] == 't');
        reveal_strlit("account");
        assert("account"@.len() == 7 && "account"@[0] == 'a' && "account"@[1] == 'c' && "account"@[2] == 'c' && "account"@[3] == 'o' && "account"@[4] == 'u' && "account"@[5] == 'n' && "account"@[6] == 't');
        reveal_strlit("status");
        assert("status"@.len() == 6 && "status"@[0] == 's' && "status"@[1] == 't' && "status"@[2] == 'a' && "status"@[3] == 't' && "status"@[4] == 'u' && "status"@[5] == 's');
        let j = v.to_json();
        lemma_text_int_of_int_text(v.notification_id as int);
        Account::lemma_round_trip(v.account);
        if v.status is Some {
            Status::lemma_round_trip(v.status->Some_0);
        }
        assert(spec_i32(j, "id"@) == Ok::<i32, FaultView>(v.notification_id));
        assert(spec_text(j, "type"@) == Ok::<Seq<char>, FaultView>(v.notification_type));
        assert(spec_text(j, "created_at"@) == Ok::<Seq<char>, FaultView>(v.created_at));
        assert(spec_nested(j, "account"@, reader::<Account>()) == Ok::<AccountView, FaultView>(v.account));
        assert(spec_opt_nested(j, "status"@, reader::<Status>()) == Ok::<Option<StatusView>, FaultView>(v.status));
    }

    proof fn lemma_needs_fields(j: JsonView, k: int) {
        reveal(<Notification as Wire>::spec_from_json);
        reveal_strlit("id");
        reveal_strlit("type");
        reveal_strlit("created_at");
        reveal_strlit("account");
    }
}

/// What a search found.
#[derive(Debug, PartialEq)]
pub struct Results {
    pub accounts: Vec<Account>,
    pub statuses: Vec<Status>,
    pub hashtags: Vec<String>,
}

/// What a `Results` holds, as mathematical values.
pub ghost struct ResultsView {
    pub accounts: Seq<AccountView>,
    pub statuses: Seq<StatusView>,
    pub hashtags: Seq<Seq<char>>,
}

impl View for Results {
    type V = ResultsView;

    open spec fn view(&self) -> ResultsView
    {
        ResultsView {
            accounts: views(self.accounts@),
            statuses: views(self.statuses@),
            hashtags: views(self.hashtags@),
        }
    }
}

impl ResultsView {
    /// The JSON object of the results.
    pub open spec fn to_json(self) -> JsonView
    {
        JsonView::Object(
            Seq::empty()
                .push(("accounts"@, JsonView::Array(self.accounts.map_values(writer::<Account>()))))
                .push(("statuses"@, JsonView::Array(self.statuses.map_values(writer::<Status>()))))
                .push(("hashtags"@, JsonView::Array(self.hashtags.map_values(text_writer())))),
        )
    }
}

impl Wire for Results {
    open spec fn spec_kind() -> Entity {
        Entity::Results
    }

    open spec fn spec_required() -> Seq<Seq<char>> {
        seq!["accounts"@, "statuses"@, "hashtags"@]
    }

    #[verifier::opaque]
    open spec fn spec_from_json(j: JsonView) -> Result<ResultsView, FaultView>
    {
        let accounts = spec_list(j, "accounts"@, reader::<Account>());
        let statuses = spec_list(j, "statuses"@, reader::<Status>());
        let hashtags = spec_list(j, "hashtags"@, text_reader());
        if !(j is Object) {
            Err(not_an_object())
        } else if accounts is Err {
            Err(accounts->Err_0)
        } else if statuses is Err {
            Err(statuses->Err_0)
        } else if hashtags is Err {
            Err(hashtags->Err_0)
        } else {
            Ok(
                ResultsView {
                    accounts: accounts->Ok_0,
                    statuses: statuses->Ok_0,
                    hashtags: hashtags->Ok_0,
                },
            )
        }
    }

    open spec fn spec_to_json(v: ResultsView) -> JsonView {
        v.to_json()
    }

    fn kind() -> (k: Entity) {
        Entity::Results
    }

    fn from_json(j: &Json) -> (r: Result<Results, Fault>)
    {
        proof {
            reveal(<Results as Wire>::spec_from_json);
        }
        if !is_object(j) {
            return Err(fault_not_an_object());
        }
        let accounts = read_list::<Account>(j, "accounts")?;
        let statuses = read_list::<Status>(j, "statuses")?;
        let hashtags = read_text_list(j, "hashtags")?;
        Ok(Results { accounts, statuses, hashtags })
    }

    fn to_json(&self) -> (j: Json)
    {
        let mut members: Vec<(String, Json)> = Vec::new();
        proof {
            assert(member_views(members@) =~= Seq::empty());
        }
        push_member(&mut members, "accounts", write_list::<Account>(&self.accounts));
        push_member(&mut members, "statuses", write_list::<Status>(&self.statuses));
        push_member(&mut members, "hashtags", write_text_list(&self.hashtags));
        proof {
            lemma_object_view(members);
        }
        Json::Object(members)
    }

    proof fn lemma_round_trip(v: ResultsView)
    {
        broadcast use lemma_member_push;

        reveal(<Results as Wire>::spec_from_json);
        reveal_strlit("accounts");
        assert("accounts"@.len() == 8 && "accounts"@[0] == 'a' && "accounts"@[1] == 'c' && "accounts"@[2] == 'c' && "accounts"@[3] == 'o' && "accounts"@[4] == 'u' && "accounts"@[5] == 'n' && "accounts"@[6] == 't' && "accounts"@[7] == 's');
        reveal_strlit("statuses");
        assert("statuses"@.len() == 8 && "statuses"@[0] == 's' && "statuses"@[1] == 't' && "statuses"@[2] == 'a' && "statuses"@[3] == 't' && "statuses"@[4] == 'u' && "statuses"@[5] == 's' && "statuses"@[6] == 'e' && "statuses"@[7] == 's');
        reveal_strlit("hashtags");
        assert("hashtags"@.len() == 8 && "hashtags"@[0] == 'h' && "hashtags"@[1] == 'a' && "hashtags"@[2] == 's' && "hashtags"@[3] == 'h' && "hashtags"@[4] == 't' && "hashtags"@[5] == 'a' && "hashtags"@[6] == 'g' && "hashtags"@[7] == 's');
        let j = v.to_json();
        assert forall|x: AccountView| #[trigger] reader::<Account>()(writer::<Account>()(x)) == Ok::<
            AccountView,
            FaultView,
        >(x) by {
            Account::lemma_round_trip(x);
        }
        lemma_list_round_trip(v.accounts, writer::<Account>(), reader::<Account>());
        assert forall|x: StatusView| #[trigger] reader::<Status>()(writer::<Status>()(x)) == Ok::<
            StatusView,
            FaultView,
        >(x) by {
            Status::lemma_round_trip(x);
        }
        lemma_list_round_trip(v.statuses, writer::<Status>(), reader::<Status>());
        lemma_list_round_trip(v.hashtags, text_writer(), text_reader());
        assert(spec_list(j, "accounts"@, reader::<Account>()) == Ok::<Seq<AccountView>, FaultView>(v.accounts));
        assert(spec_list(j, "statuses"@, reader::<Status>()) == Ok::<Seq<StatusView>, FaultView>(v.statuses));
        assert(spec_list(j, "hashtags"@, text_reader()) == Ok::<Seq<Seq<char>>, FaultView>(v.hashtags));
    }

    proof fn lemma_needs_fields(j: JsonView, k: int) {
        reveal(<Results as Wire>::spec_from_json);
        reveal_strlit("accounts");
        reveal_strlit("statuses");
        reveal_strlit("hashtags");
    }
}
/// Who may see a status.
#[derive(Clone, Copy, Debug, PartialEq, Eq, Structural)]
pub enum Visibility {
    Direct,
    Private,
    Unlisted,
    Public,
}

impl Visibility {
    /// The word for the visibility on the wire.
    pub open spec fn spec_word(self) -> Seq<char> {
        match self {
            Visibility::Direct => "direct"@,
            Visibility::Private => "private"@,
            Visibility::Unlisted => "unlisted"@,
            Visibility::Public => "public"@,
        }
    }

    /// The visibility that a word names, where it names one.
    pub open spec fn spec_parse(word: Seq<char>) -> Option<Visibility> {
        if word == "direct"@ {
            Some(Visibility::Direct)
        } else if word == "private"@ {
            Some(Visibility::Private)
        } else if word == "unlisted"@ {
            Some(Visibility::Unlisted)
        } else if word == "public"@ {
            Some(Visibility::Public)
        } else {
            None
        }
    }

    /// The word for the visibility on the wire.
    pub fn word(&self) -> (w: &'static str)
        ensures
            w@ == self.spec_word(),
    {
        match self {
            Visibility::Direct => "direct",
            Visibility::Private => "private",
            Visibility::Unlisted => "unlisted",
            Visibility::Public => "public",
        }
    }

    /// The visibility that a word names, where it names one.
    pub fn parse(word: &str) -> (v: Option<Visibility>)
        ensures
            v == Visibility::spec_parse(word@),
    {
        if str_eq(word, "direct") {
            Some(Visibility::Direct)
        } else if str_eq(word, "private") {
            Some(Visibility::Private)
        } else if str_eq(word, "unlisted") {
            Some(Visibility::Unlisted)
        } else if str_eq(word, "public") {
            Some(Visibility::Public)
        } else {
            None
        }
    }
}

/// The word of a visibility names that visibility.
pub proof fn lemma_visibility_round_trip(v: Visibility)
    ensures
        Visibility::spec_parse(v.spec_word()) == Some(v),
{
    reveal_strlit("direct");
    reveal_strlit("private");
    reveal_strlit("unlisted");
    reveal_strlit("public");
    assert("direct"@.len() == 6 && "direct"@[0] == 'd');
    assert("private"@.len() == 7);
    assert("unlisted"@.len() == 8);
    assert("public"@.len() == 6 && "public"@[0] == 'p');
}

impl Status {
    /// Who may see the status, where its `visibility` is one of the four
    /// words.
    pub fn visibility_kind(&self) -> (v: Option<Visibility>)
        ensures
            v == Visibility::spec_parse(self@.visibility),
    {
        Visibility::parse(self.visibility.as_str())
    }
}

} // verus!
