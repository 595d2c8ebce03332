//! The methods of the Mastodon API under `/api/v1`: what each is called with,
//! and where its request goes.
use crate::address::{
    append_pair, form_char_kept, form_escaped, form_with_pair, lemma_kept_text_is_unchanged,
};
use crate::api::v1::{Entity, Method};
use crate::api::HttpMethod;
use crate::json::{lemma_object_view, member_views, text_of, Json, JsonView};
use crate::text::{append_decimal, decimal, digits_of, is_digit, lemma_digits_of};
use vstd::prelude::*;
use vstd::string::*;

verus! {

/// Account ID.
#[derive(Clone, Copy, Debug, PartialEq, Eq)]
pub struct AccountID {
    pub id: usize,
}

/// Notification ID.
#[derive(Clone, Copy, Debug, PartialEq, Eq)]
pub struct NotificationID {
    pub id: usize,
}

/// Status ID.
#[derive(Clone, Copy, Debug, PartialEq, Eq)]
pub struct StatusID {
    pub id: usize,
}

/// Tag ID.
#[derive(Clone, Copy, Debug, PartialEq, Eq)]
pub struct TagID {
    pub id: usize,
}

/// Updatable fields for the authenticated user.
#[derive(Clone, Debug, PartialEq, Eq)]
pub struct UserFormData {
    pub(crate) display_name: Option<String>,
    pub(crate) note: Option<String>,
    pub(crate) avatar: Option<String>,
    pub(crate) header: Option<String>,
}

/// What a `UserFormData` holds, as mathematical values.
pub ghost struct UserFormView {
    pub display_name: Option<Seq<char>>,
    pub note: Option<Seq<char>>,
    pub avatar: Option<Seq<char>>,
    pub header: Option<Seq<char>>,
}

impl View for UserFormData {
    type V = UserFormView;

    closed spec fn view(&self) -> UserFormView {
        UserFormView {
            display_name: crate::text::opt_text(self.display_name),
            note: crate::text::opt_text(self.note),
            avatar: crate::text::opt_text(self.avatar),
            header: crate::text::opt_text(self.header),
        }
    }
}

impl UserFormData {
    /// A form with the given fields; `None` leaves a field out of the update.
    pub fn new(
        display_name: Option<String>,
        note: Option<String>,
        avatar: Option<String>,
        header: Option<String>,
    ) -> (form: Self)
        ensures
            form@ == (UserFormView {
                display_name: crate::text::opt_text(display_name),
                note: crate::text::opt_text(note),
                avatar: crate::text::opt_text(avatar),
                header: crate::text::opt_text(header),
            }),
    {
        UserFormData { display_name, note, avatar, header }
    }
}

/// Which accounts to ask the relationships of.
#[derive(Clone, Debug, PartialEq, Eq)]
pub enum RelationshipsQuery {
    SingleAccount(AccountID),
    MultipleAccounts(Vec<AccountID>),
}

/// Fields to query accounts.
#[derive(Clone, Debug, PartialEq, Eq)]
pub struct SearchAccountsQuery {
    pub q: String,
    pub limit: Option<usize>,
}

/// Fields to query contents.
#[derive(Clone, Debug, PartialEq, Eq)]
pub struct SearchContentsQuery {
    pub q: String,
    pub resolve: Option<bool>,
}

/// Fields to query the home timeline.
#[derive(Clone, Copy, Debug, PartialEq, Eq)]
pub struct HomeTimelineQuery {
    pub max_id: Option<usize>,
    pub since_id: Option<usize>,
    pub limit: Option<usize>,
}

/// Fields to query the public/tag timeline.
#[derive(Clone, Copy, Debug, PartialEq, Eq)]
pub struct TimelineQuery {
    pub local: Option<bool>,
    pub max_id: Option<usize>,
    pub since_id: Option<usize>,
    pub limit: Option<usize>,
}

/// What the body of a method's answer holds.
#[derive(Clone, Copy, Debug, PartialEq, Eq, Structural)]
pub enum Expected {
    /// One entity of the kind.
    One(Entity),
    /// An array of entities of the kind.
    Many(Entity),
    /// An empty object.
    Nothing,
}

/// A query with one more parameter at its end, after `&` where it held any
/// before. The name and the value are written as they are.
pub open spec fn with_param(query: Seq<char>, name: Seq<char>, value: Seq<char>) -> Seq<char> {
    if query.len() == 0 {
        name + seq!['='] + value
    } else {
        query + seq!['&'] + name + seq!['='] + value
    }
}

/// A query with a number as one more parameter, where the number is given.
pub open spec fn with_number(query: Seq<char>, name: Seq<char>, n: Option<usize>) -> Seq<char> {
    match n {
        Some(v) => with_param(query, name, digits_of(v as nat)),
        None => query,
    }
}

/// A query with `true` or `false` as one more parameter, where it is given.
pub open spec fn with_flag(query: Seq<char>, name: Seq<char>, flag: Option<bool>) -> Seq<char> {
    match flag {
        Some(v) => with_param(
            query,
            name,
            if v {
                "true"@
            } else {
                "false"@
            },
        ),
        None => query,
    }
}

/// The query that asks for several accounts: `id[]=` and the number of each,
/// in their order.
pub open spec fn ids_query(ids: Seq<AccountID>) -> Seq<char>
    decreases ids.len(),
{
    if ids.len() == 0 {
        Seq::empty()
    } else {
        with_param(ids_query(ids.drop_last()), "id[]"@, digits_of(ids.last().id as nat))
    }
}

fn append_param(query: &mut String, name: &str, value: &str)
    ensures
        final(query)@ == with_param(old(query)@, name@, value@),
{
    proof {
        reveal_strlit("&");
        reveal_strlit("=");
    }
    if !query.as_str().is_empty() {
        query.append("&");
    }
    query.append(name);
    query.append("=");
    query.append(value);
    assert(query@ =~= with_param(old(query)@, name@, value@));
}

fn append_number(query: &mut String, name: &str, n: Option<usize>)
    ensures
        final(query)@ == with_number(old(query)@, name@, n),
{
    match n {
        Some(v) => {
            let digits = decimal(v as u64);
            append_param(query, name, digits.as_str());
        },
        None => {},
    }
}

fn append_flag(query: &mut String, name: &str, flag: Option<bool>)
    ensures
        final(query)@ == with_flag(old(query)@, name@, flag),
{
    match flag {
        Some(v) => {
            if v {
                append_param(query, name, "true");
            } else {
                append_param(query, name, "false");
            }
        },
        None => {},
    }
}

impl RelationshipsQuery {
    /// `id=` and the number of a single account; for several, `id[]=` and
    /// the number of each, in their order.
    pub open spec fn spec_query(&self) -> Seq<char> {
        match self {
            RelationshipsQuery::SingleAccount(a) => with_param(
                Seq::empty(),
                "id"@,
                digits_of(a.id as nat),
            ),
            RelationshipsQuery::MultipleAccounts(ids) => ids_query(ids@),
        }
    }

    /// The text of the query.
    pub fn query(&self) -> (q: String)
        ensures
            q@ == self.spec_query(),
    {
        let mut q = String::new();
        match self {
            RelationshipsQuery::SingleAccount(a) => {
                append_number(&mut q, "id", Some(a.id));
            },
            RelationshipsQuery::MultipleAccounts(ids) => {
                let mut i: usize = 0;
                while i < ids.len()
                    invariant
                        0 <= i <= ids.len(),
                        q@ == ids_query(ids@.take(i as int)),
                    decreases ids.len() - i,
                {
                    proof {
                        assert(ids@.take(i + 1).drop_last() =~= ids@.take(i as int));
                    }
                    append_number(&mut q, "id[]", Some(ids[i].id));
                    i = i + 1;
                }
                proof {
                    assert(ids@.take(i as int) =~= ids@);
                }
            },
        }
        q
    }
}

impl SearchAccountsQuery {
    /// `q` and what to search for, in form syntax; then `limit`, where one is
    /// given.
    pub open spec fn spec_query(&self) -> Seq<char> {
        with_number(form_with_pair(Seq::empty(), "q"@, self.q@), "limit"@, self.limit)
    }

    /// The text of the query.
    pub fn query(&self) -> (q: String)
        ensures
            q@ == self.spec_query(),
    {
        let mut q = append_pair(String::new(), "q", self.q.as_str());
        append_number(&mut q, "limit", self.limit);
        q
    }
}

impl SearchContentsQuery {
    /// `q` and what to search for, in form syntax; then `resolve`, where it
    /// is given.
    pub open spec fn spec_query(&self) -> Seq<char> {
        with_flag(form_with_pair(Seq::empty(), "q"@, self.q@), "resolve"@, self.resolve)
    }

    /// The text of the query.
    pub fn query(&self) -> (q: String)
        ensures
            q@ == self.spec_query(),
    {
        let mut q = append_pair(String::new(), "q", self.q.as_str());
        append_flag(&mut q, "resolve", self.resolve);
        q
    }
}

impl HomeTimelineQuery {
    /// `max_id`, `since_id` and `limit`, in this order, each where it is
    /// given.
    pub open spec fn spec_query(&self) -> Seq<char> {
        with_number(
            with_number(with_number(Seq::empty(), "max_id"@, self.max_id), "since_id"@, self.since_id),
            "limit"@,
            self.limit,
        )
    }

    /// The text of the query.
    pub fn query(&self) -> (q: String)
        ensures
            q@ == self.spec_query(),
    {
        let mut q = String::new();
        append_number(&mut q, "max_id", self.max_id);
        append_number(&mut q, "since_id", self.since_id);
        append_number(&mut q, "limit", self.limit);
        q
    }
}

impl TimelineQuery {
    /// `local`, `max_id`, `since_id` and `limit`, in this order, each where
    /// it is given.
    pub open spec fn spec_query(&self) -> Seq<char> {
        with_number(
            with_number(
                with_number(with_flag(Seq::empty(), "local"@, self.local), "max_id"@, self.max_id),
                "since_id"@,
                self.since_id,
            ),
            "limit"@,
            self.limit,
        )
    }

    /// The text of the query.
    pub fn query(&self) -> (q: String)
        ensures
            q@ == self.spec_query(),
    {
        let mut q = String::new();
        append_flag(&mut q, "local", self.local);
        append_number(&mut q, "max_id", self.max_id);
        append_number(&mut q, "since_id", self.since_id);
        append_number(&mut q, "limit", self.limit);
        q
    }
}

/// The methods of the API, each with what it is called with.
#[derive(Clone, Debug, PartialEq, Eq)]
pub enum APIEndpoint {
    /// Fetching an account.
    FetchAccount(AccountID),
    /// Getting the current user.
    GetCurrentUser,
    /// Updating the current user.
    UpdateCurrentUser(UserFormData),
    /// Getting an account's followers.
    GetAccountFollowers(AccountID),
    /// Getting who an account is following.
    GetFollowing(AccountID),
    /// Getting an account's statuses.
    GetAccountStatuses(AccountID),
    /// Following an account.
    FollowAccount(AccountID),
    /// Unfollowing an account.
    UnfollowAccount(AccountID),
    /// Blocking an account.
    BlockAccount(AccountID),
    /// Unblocking an account.
    UnblockAccount(AccountID),
    /// Muting an account.
    MuteAccount(AccountID),
    /// Unmuting an account.
    UnmuteAccount(AccountID),
    /// Getting the current user's relationships to accounts.
    GetAccountRelationships(RelationshipsQuery),
    /// Searching for accounts.
    SearchAccounts(SearchAccountsQuery),
    /// Fetching the current user's blocks; the text is the query.
    FetchBlocks(String),
    /// Fetching the current user's favourites; the text is the query.
    FetchFavourites(String),
    /// Fetching the follow requests; the text is the query.
    FetchFollowRequests(String),
    /// Authorizing a follow request.
    AuthorizeFollowRequest(AccountID),
    /// Rejecting a follow request.
    RejectFollowRequest(AccountID),
    /// Following a remote user; the text is the body.
    FollowRemoteUser(String),
    /// Getting instance information.
    GetInstance,
    /// Uploading a media attachment; the text is the body.
    UploadMedia(String),
    /// Fetching the current user's mutes; the text is the query.
    FetchMutes(String),
    /// Fetching the current user's notifications; the text is the query.
    FetchNotifications(String),
    /// Getting a single notification.
    GetNotification(NotificationID),
    /// Clearing notifications.
    ClearNotifications,
    /// Fetching the current user's reports.
    FetchingReports,
    /// Reporting a user; the text is the body.
    ReportingUser(String),
    /// Searching for content.
    SearchContent(SearchContentsQuery),
    /// Fetching a status.
    FetchStatus(StatusID),
    /// Getting the context of a status.
    GetStatusContext(StatusID),
    /// Getting the card of a status.
    GetStatusCard(StatusID),
    /// Getting who reblogged a status.
    RebloggedBy(StatusID),
    /// Getting who favourited a status.
    FavouritedBy(StatusID),
    /// Posting a new status; the text is the form-encoded body.
    PostStatus(String),
    /// Deleting a status.
    DeleteStatus(StatusID),
    /// Reblogging a status.
    ReblogStatus(StatusID),
    /// Unreblogging a status.
    UnreblogStatus(StatusID),
    /// Favouriting a status.
    FavouriteStatus(StatusID),
    /// Unfavouriting a status.
    UnfavouriteStatus(StatusID),
    /// Retrieving the home timeline.
    HomeTimeline(HomeTimelineQuery),
    /// Retrieving the public timeline.
    PublicTimeline(TimelineQuery),
    /// Retrieving the timeline of a tag.
    TagTimeline(TagID, TimelineQuery),
}

/// A method that sends the bearer token.
pub const BEARER: bool = true;

/// A method that is open to everybody and sends no token.
pub const ANONYMOUS: bool = false;

/// Where the request of a method goes, and what comes back.
#[derive(Clone, Copy, Debug)]
pub struct Route {
    /// The HTTP verb.
    pub method: HttpMethod,
    /// The path up to the number in it, or the whole path.
    pub prefix: &'static str,
    /// The number in the path, where it has one.
    pub id: Option<usize>,
    /// The path after the number.
    pub suffix: &'static str,
    /// Whether the request carries the bearer token.
    pub bearer: bool,
    /// The family of the method.
    pub family: Method,
    /// What the body of the answer holds.
    pub expected: Expected,
}

/// What a `Route` holds, as mathematical values.
pub ghost struct RouteView {
    pub method: HttpMethod,
    pub prefix: Seq<char>,
    pub id: Option<usize>,
    pub suffix: Seq<char>,
    pub bearer: bool,
    pub family: Method,
    pub expected: Expected,
}

/// The route with the given parts.
pub open spec fn route_view(
    method: HttpMethod,
    prefix: Seq<char>,
    id: Option<usize>,
    suffix: Seq<char>,
    bearer: bool,
    family: Method,
    expected: Expected,
) -> RouteView {
    RouteView { method, prefix, id, suffix, bearer, family, expected }
}

impl View for Route {
    type V = RouteView;

    open spec fn view(&self) -> RouteView {
        RouteView {
            method: self.method,
            prefix: self.prefix@,
            id: self.id,
            suffix: self.suffix@,
            bearer: self.bearer,
            family: self.family,
            expected: self.expected,
        }
    }
}

impl RouteView {
    /// The path: the prefix, the number in decimal where there is one, and
    /// the suffix.
    pub open spec fn path(self) -> Seq<char> {
        match self.id {
            Some(n) => self.prefix + digits_of(n as nat) + self.suffix,
            None => self.prefix + self.suffix,
        }
    }
}

impl Route {
    /// The route with the given parts.
    pub fn new(
        method: HttpMethod,
        prefix: &'static str,
        id: Option<usize>,
        suffix: &'static str,
        bearer: bool,
        family: Method,
        expected: Expected,
    ) -> (r: Route)
        ensures
            r@ == route_view(method, prefix@, id, suffix@, bearer, family, expected),
    {
        Route { method, prefix, id, suffix, bearer, family, expected }
    }

    /// The path of the route.
    pub fn path(&self) -> (p: String)
        ensures
            p@ == self@.path(),
    {
        let mut p = String::from_str(self.prefix);
        match self.id {
            Some(n) => {
                append_decimal(&mut p, n as u64);
            },
            None => {},
        }
        p.append(self.suffix);
        assert(p@ =~= self@.path());
        p
    }
}

impl APIEndpoint {
    /// The catalog: for each method its verb, its path, whether it sends the
    /// token, its family and what it answers.
    pub open spec fn spec_route(&self) -> RouteView {
        match self {
            APIEndpoint::FetchAccount(a) => route_view(
                HttpMethod::Get,
                "/api/v1/accounts/"@,
                Some(a.id),
                ""@,
                BEARER,
                Method::Accounts,
                Expected::One(Entity::Account),
            ),
            APIEndpoint::GetCurrentUser => route_view(
                HttpMethod::Get,
                "/api/v1/accounts/verify_credentials"@,
                None,
                ""@,
                BEARER,
                Method::Accounts,
                Expected::One(Entity::Account),
            ),
            APIEndpoint::UpdateCurrentUser(_) => route_view(
                HttpMethod::Patch,
                "/api/v1/accounts/update_credentials"@,
                None,
                ""@,
                BEARER,
                Method::Accounts,
                Expected::One(Entity::Account),
            ),
            APIEndpoint::GetAccountFollowers(a) => route_view(
                HttpMethod::Get,
                "/api/v1/accounts/"@,
                Some(a.id),
                "/followers"@,
                BEARER,
                Method::Accounts,
                Expected::Many(Entity::Account),
            ),
            APIEndpoint::GetFollowing(a) => route_view(
                HttpMethod::Get,
                "/api/v1/accounts/"@,
                Some(a.id),
                "/following"@,
                BEARER,
                Method::Accounts,
                Expected::Many(Entity::Account),
            ),
            APIEndpoint::GetAccountStatuses(a) => route_view(
                HttpMethod::Get,
                "/api/v1/accounts/"@,
                Some(a.id),
                "/statuses"@,
                BEARER,
                Method::Accounts,
                Expected::Many(Entity::Status),
            ),
            APIEndpoint::FollowAccount(a) => route_view(
                HttpMethod::Post,
                "/api/v1/accounts/"@,
                Some(a.id),
                "/follow"@,
                BEARER,
                Method::Accounts,
                Expected::One(Entity::Relationship),
            ),
            APIEndpoint::UnfollowAccount(a) => route_view(
                HttpMethod::Post,
                "/api/v1/accounts/"@,
                Some(a.id),
                "/unfollow"@,
                BEARER,
                Method::Accounts,
                Expected::One(Entity::Relationship),
            ),
            APIEndpoint::BlockAccount(a) => route_view(
                HttpMethod::Post,
                "/api/v1/accounts/"@,
                Some(a.id),
                "/block"@,
                BEARER,
                Method::Accounts,
                Expected::One(Entity::Relationship),
            ),
            APIEndpoint::UnblockAccount(a) => route_view(
                HttpMethod::Post,
                "/api/v1/accounts/"@,
                Some(a.id),
                "/unblock"@,
                BEARER,
                Method::Accounts,
                Expected::One(Entity::Relationship),
            ),
            APIEndpoint::MuteAccount(a) => route_view(
                HttpMethod::Post,
                "/api/v1/accounts/"@,
                Some(a.id),
                "/mute"@,
                BEARER,
                Method::Accounts,
                Expected::One(Entity::Relationship),
            ),
            APIEndpoint::UnmuteAccount(a) => route_view(
                HttpMethod::Post,
                "/api/v1/accounts/"@,
                Some(a.id),
                "/unmute"@,
                BEARER,
                Method::Accounts,
                Expected::One(Entity::Relationship),
            ),
            APIEndpoint::GetAccountRelationships(_) => route_view(
                HttpMethod::Get,
                "/api/v1/accounts/relationships"@,
                None,
                ""@,
                BEARER,
                Method::Accounts,
                Expected::Many(Entity::Relationship),
            ),
            APIEndpoint::SearchAccounts(_) => route_view(
                HttpMethod::Get,
                "/api/v1/accounts/search"@,
                None,
                ""@,
                BEARER,
                Method::Accounts,
                Expected::Many(Entity::Account),
            ),
            APIEndpoint::FetchBlocks(_) => route_view(
                HttpMethod::Get,
                "/api/v1/blocks"@,
                None,
                ""@,
                BEARER,
                Method::Blocks,
                Expected::Many(Entity::Account),
            ),
            APIEndpoint::FetchFavourites(_) => route_view(
                HttpMethod::Get,
                "/api/v1/favourites"@,
                None,
                ""@,
                BEARER,
                Method::Favorites,
                Expected::Many(Entity::Account),
            ),
            APIEndpoint::FetchFollowRequests(_) => route_view(
                HttpMethod::Get,
                "/api/v1/follow_requests"@,
                None,
                ""@,
                BEARER,
                Method::FollowRequests,
                Expected::Many(Entity::Account),
            ),
            APIEndpoint::AuthorizeFollowRequest(a) => route_view(
                HttpMethod::Post,
                "/api/v1/follow_requests/"@,
                Some(a.id),
                "/authorize"@,
                BEARER,
                Method::FollowRequests,
                Expected::Nothing,
            ),
            APIEndpoint::RejectFollowRequest(a) => route_view(
                HttpMethod::Post,
                "/api/v1/follow_requests/"@,
                Some(a.id),
                "/reject"@,
                BEARER,
                Method::FollowRequests,
                Expected::Nothing,
            ),
            APIEndpoint::FollowRemoteUser(_) => route_view(
                HttpMethod::Post,
                "/api/v1/follows"@,
                None,
                ""@,
                BEARER,
                Method::Follows,
                Expected::One(Entity::Account),
            ),
            APIEndpoint::GetInstance => route_view(
                HttpMethod::Get,
                "/api/v1/instance"@,
                None,
                ""@,
                ANONYMOUS,
                Method::Instances,
                Expected::One(Entity::Instance),
            ),
            APIEndpoint::UploadMedia(_) => route_view(
                HttpMethod::Post,
                "/api/v1/media"@,
                None,
                ""@,
                BEARER,
                Method::Media,
                Expected::One(Entity::Attachment),
            ),
            APIEndpoint::FetchMutes(_) => route_view(
                HttpMethod::Get,
                "/api/v1/mutes"@,
                None,
                ""@,
                BEARER,
                Method::Mutes,
                Expected::Many(Entity::Account),
            ),
            APIEndpoint::FetchNotifications(_) => route_view(
                HttpMethod::Get,
                "/api/v1/notifications"@,
                None,
                ""@,
                BEARER,
                Method::Notifications,
                Expected::Many(Entity::Notification),
            ),
            APIEndpoint::GetNotification(n) => route_view(
                HttpMethod::Get,
                "/api/v1/notifications/"@,
                Some(n.id),
                ""@,
                BEARER,
                Method::Notifications,
                Expected::One(Entity::Notification),
            ),
            APIEndpoint::ClearNotifications => route_view(
                HttpMethod::Post,
                "/api/v1/notifications/clear"@,
                None,
                ""@,
                BEARER,
                Method::Notifications,
                Expected::Nothing,
            ),
            APIEndpoint::FetchingReports => route_view(
                HttpMethod::Get,
                "/api/v1/reports"@,
                None,
                ""@,
                BEARER,
                Method::Reports,
                Expected::Many(Entity::Report),
            ),
            APIEndpoint::ReportingUser(_) => route_view(
                HttpMethod::Post,
                "/api/v1/reports"@,
                None,
                ""@,
                BEARER,
                Method::Reports,
                Expected::One(Entity::Report),
            ),
            APIEndpoint::SearchContent(_) => route_view(
                HttpMethod::Get,
                "/api/v1/search"@,
                None,
                ""@,
                ANONYMOUS,
                Method::Search,
                Expected::One(Entity::Results),
            ),
            APIEndpoint::FetchStatus(s) => route_view(
                HttpMethod::Get,
                "/api/v1/statuses/"@,
                Some(s.id),
                ""@,
                ANONYMOUS,
                Method::Statuses,
                Expected::One(Entity::Status),
            ),
            APIEndpoint::GetStatusContext(s) => route_view(
                HttpMethod::Get,
                "/api/v1/statuses/"@,
                Some(s.id),
                "/context"@,
                ANONYMOUS,
                Method::Statuses,
                Expected::One(Entity::Context),
            ),
            APIEndpoint::GetStatusCard(s) => route_view(
                HttpMethod::Get,
                "/api/v1/statuses/"@,
                Some(s.id),
                "/card"@,
                ANONYMOUS,
                Method::Statuses,
                Expected::One(Entity::Card),
            ),
            APIEndpoint::RebloggedBy(s) => route_view(
                HttpMethod::Get,
                "/api/v1/statuses/"@,
                Some(s.id),
                "/reblogged_by"@,
                ANONYMOUS,
                Method::Statuses,
                Expected::Many(Entity::Account),
            ),
            APIEndpoint::FavouritedBy(s) => route_view(
                HttpMethod::Get,
                "/api/v1/statuses/"@,
                Some(s.id),
                "/favourited_by"@,
                ANONYMOUS,
                Method::Statuses,
                Expected::Many(Entity::Account),
            ),
            APIEndpoint::PostStatus(_) => route_view(
                HttpMethod::Post,
                "/api/v1/statuses"@,
                None,
                ""@,
                BEARER,
                Method::Statuses,
                Expected::One(Entity::Status),
            ),
            APIEndpoint::DeleteStatus(s) => route_view(
                HttpMethod::Delete,
                "/api/v1/statuses/"@,
                Some(s.id),
                ""@,
                BEARER,
                Method::Statuses,
                Expected::Nothing,
            ),
            APIEndpoint::ReblogStatus(s) => route_view(
                HttpMethod::Post,
                "/api/v1/statuses/"@,
                Some(s.id),
                "/reblog"@,
                BEARER,
                Method::Statuses,
                Expected::One(Entity::Status),
            ),
            APIEndpoint::UnreblogStatus(s) => route_view(
                HttpMethod::Post,
                "/api/v1/statuses/"@,
                Some(s.id),
                "/unreblog"@,
                BEARER,
                Method::Statuses,
                Expected::One(Entity::Status),
            ),
            APIEndpoint::FavouriteStatus(s) => route_view(
                HttpMethod::Post,
                "/api/v1/statuses/"@,
                Some(s.id),
                "/favourite"@,
                BEARER,
                Method::Statuses,
                Expected::One(Entity::Status),
            ),
            APIEndpoint::UnfavouriteStatus(s) => route_view(
                HttpMethod::Post,
                "/api/v1/statuses/"@,
                Some(s.id),
                "/unfavourite"@,
                BEARER,
                Method::Statuses,
                Expected::One(Entity::Status),
            ),
            APIEndpoint::HomeTimeline(_) => route_view(
                HttpMethod::Get,
                "/api/v1/timelines/home"@,
                None,
                ""@,
                BEARER,
                Method::Timelines,
                Expected::Many(Entity::Status),
            ),
            APIEndpoint::PublicTimeline(_) => route_view(
                HttpMethod::Get,
                "/api/v1/timelines/public"@,
                None,
                ""@,
                ANONYMOUS,
                Method::Timelines,
                Expected::Many(Entity::Status),
            ),
            APIEndpoint::TagTimeline(t, _) => route_view(
                HttpMethod::Get,
                "/api/v1/timelines/tag/"@,
                Some(t.id),
                ""@,
                ANONYMOUS,
                Method::Timelines,
                Expected::Many(Entity::Status),
            ),
        }
    }

    /// The route of this method.
    pub fn route(&self) -> (r: Route)
        ensures
            r@ == self.spec_route(),
    {
        match self {
            APIEndpoint::FetchAccount(a) => Route::new(
                HttpMethod::Get,
                "/api/v1/accounts/",
                Some(a.id),
                "",
                BEARER,
                Method::Accounts,
                Expected::One(Entity::Account),
            ),
            APIEndpoint::GetCurrentUser => Route::new(
                HttpMethod::Get,
                "/api/v1/accounts/verify_credentials",
                None,
                "",
                BEARER,
                Method::Accounts,
                Expected::One(Entity::Account),
            ),
            APIEndpoint::UpdateCurrentUser(_) => Route::new(
                HttpMethod::Patch,
                "/api/v1/accounts/update_credentials",
                None,
                "",
                BEARER,
                Method::Accounts,
                Expected::One(Entity::Account),
            ),
            APIEndpoint::GetAccountFollowers(a) => Route::new(
                HttpMethod::Get,
                "/api/v1/accounts/",
                Some(a.id),
                "/followers",
                BEARER,
                Method::Accounts,
                Expected::Many(Entity::Account),
            ),
            APIEndpoint::GetFollowing(a) => Route::new(
                HttpMethod::Get,
                "/api/v1/accounts/",
                Some(a.id),
                "/following",
                BEARER,
                Method::Accounts,
                Expected::Many(Entity::Account),
            ),
            APIEndpoint::GetAccountStatuses(a) => Route::new(
                HttpMethod::Get,
                "/api/v1/accounts/",
                Some(a.id),
                "/statuses",
                BEARER,
                Method::Accounts,
                Expected::Many(Entity::Status),
            ),
            APIEndpoint::FollowAccount(a) => Route::new(
                HttpMethod::Post,
                "/api/v1/accounts/",
                Some(a.id),
                "/follow",
                BEARER,
                Method::Accounts,
                Expected::One(Entity::Relationship),
            ),
            APIEndpoint::UnfollowAccount(a) => Route::new(
                HttpMethod::Post,
                "/api/v1/accounts/",
                Some(a.id),
                "/unfollow",
                BEARER,
                Method::Accounts,
                Expected::One(Entity::Relationship),
            ),
            APIEndpoint::BlockAccount(a) => Route::new(
                HttpMethod::Post,
                "/api/v1/accounts/",
                Some(a.id),
                "/block",
                BEARER,
                Method::Accounts,
                Expected::One(Entity::Relationship),
            ),
            APIEndpoint::UnblockAccount(a) => Route::new(
                HttpMethod::Post,
                "/api/v1/accounts/",
                Some(a.id),
                "/unblock",
                BEARER,
                Method::Accounts,
                Expected::One(Entity::Relationship),
            ),
            APIEndpoint::MuteAccount(a) => Route::new(
                HttpMethod::Post,
                "/api/v1/accounts/",
                Some(a.id),
                "/mute",
                BEARER,
                Method::Accounts,
                Expected::One(Entity::Relationship),
            ),
            APIEndpoint::UnmuteAccount(a) => Route::new(
                HttpMethod::Post,
                "/api/v1/accounts/",
                Some(a.id),
                "/unmute",
                BEARER,
                Method::Accounts,
                Expected::One(Entity::Relationship),
            ),
            APIEndpoint::GetAccountRelationships(_) => Route::new(
                HttpMethod::Get,
                "/api/v1/accounts/relationships",
                None,
                "",
                BEARER,
                Method::Accounts,
                Expected::Many(Entity::Relationship),
            ),
            APIEndpoint::SearchAccounts(_) => Route::new(
                HttpMethod::Get,
                "/api/v1/accounts/search",
                None,
                "",
                BEARER,
                Method::Accounts,
                Expected::Many(Entity::Account),
            ),
            APIEndpoint::FetchBlocks(_) => Route::new(
                HttpMethod::Get,
                "/api/v1/blocks",
                None,
                "",
                BEARER,
                Method::Blocks,
                Expected::Many(Entity::Account),
            ),
            APIEndpoint::FetchFavourites(_) => Route::new(
                HttpMethod::Get,
                "/api/v1/favourites",
                None,
                "",
                BEARER,
                Method::Favorites,
                Expected::Many(Entity::Account),
            ),
            APIEndpoint::FetchFollowRequests(_) => Route::new(
                HttpMethod::Get,
                "/api/v1/follow_requests",
                None,
                "",
                BEARER,
                Method::FollowRequests,
                Expected::Many(Entity::Account),
            ),
            APIEndpoint::AuthorizeFollowRequest(a) => Route::new(
                HttpMethod::Post,
                "/api/v1/follow_requests/",
                Some(a.id),
                "/authorize",
                BEARER,
                Method::FollowRequests,
                Expected::Nothing,
            ),
            APIEndpoint::RejectFollowRequest(a) => Route::new(
                HttpMethod::Post,
                "/api/v1/follow_requests/",
                Some(a.id),
                "/reject",
                BEARER,
                Method::FollowRequests,
                Expected::Nothing,
            ),
            APIEndpoint::FollowRemoteUser(_) => Route::new(
                HttpMethod::Post,
                "/api/v1/follows",
                None,
                "",
                BEARER,
                Method::Follows,
                Expected::One(Entity::Account),
            ),
            APIEndpoint::GetInstance => Route::new(
                HttpMethod::Get,
                "/api/v1/instance",
                None,
                "",
                ANONYMOUS,
                Method::Instances,
                Expected::One(Entity::Instance),
            ),
            APIEndpoint::UploadMedia(_) => Route::new(
                HttpMethod::Post,
                "/api/v1/media",
                None,
                "",
                BEARER,
                Method::Media,
                Expected::One(Entity::Attachment),
            ),
            APIEndpoint::FetchMutes(_) => Route::new(
                HttpMethod::Get,
                "/api/v1/mutes",
                None,
                "",
                BEARER,
                Method::Mutes,
                Expected::Many(Entity::Account),
            ),
            APIEndpoint::FetchNotifications(_) => Route::new(
                HttpMethod::Get,
                "/api/v1/notifications",
                None,
                "",
                BEARER,
                Method::Notifications,
                Expected::Many(Entity::Notification),
            ),
            APIEndpoint::GetNotification(n) => Route::new(
                HttpMethod::Get,
                "/api/v1/notifications/",
                Some(n.id),
                "",
                BEARER,
                Method::Notifications,
                Expected::One(Entity::Notification),
            ),
            APIEndpoint::ClearNotifications => Route::new(
                HttpMethod::Post,
                "/api/v1/notifications/clear",
                None,
                "",
                BEARER,
                Method::Notifications,
                Expected::Nothing,
            ),
            APIEndpoint::FetchingReports => Route::new(
                HttpMethod::Get,
                "/api/v1/reports",
                None,
                "",
                BEARER,
                Method::Reports,
                Expected::Many(Entity::Report),
            ),
            APIEndpoint::ReportingUser(_) => Route::new(
                HttpMethod::Post,
                "/api/v1/reports",
                None,
                "",
                BEARER,
                Method::Reports,
                Expected::One(Entity::Report),
            ),
            APIEndpoint::SearchContent(_) => Route::new(
                HttpMethod::Get,
                "/api/v1/search",
                None,
                "",
                ANONYMOUS,
                Method::Search,
                Expected::One(Entity::Results),
            ),
            APIEndpoint::FetchStatus(s) => Route::new(
                HttpMethod::Get,
                "/api/v1/statuses/",
                Some(s.id),
                "",
                ANONYMOUS,
                Method::Statuses,
                Expected::One(Entity::Status),
            ),
            APIEndpoint::GetStatusContext(s) => Route::new(
                HttpMethod::Get,
                "/api/v1/statuses/",
                Some(s.id),
                "/context",
                ANONYMOUS,
                Method::Statuses,
                Expected::One(Entity::Context),
            ),
            APIEndpoint::GetStatusCard(s) => Route::new(
                HttpMethod::Get,
                "/api/v1/statuses/",
                Some(s.id),
                "/card",
                ANONYMOUS,
                Method::Statuses,
                Expected::One(Entity::Card),
            ),
            APIEndpoint::RebloggedBy(s) => Route::new(
                HttpMethod::Get,
                "/api/v1/statuses/",
                Some(s.id),
                "/reblogged_by",
                ANONYMOUS,
                Method::Statuses,
                Expected::Many(Entity::Account),
            ),
            APIEndpoint::FavouritedBy(s) => Route::new(
                HttpMethod::Get,
                "/api/v1/statuses/",
                Some(s.id),
                "/favourited_by",
                ANONYMOUS,
                Method::Statuses,
                Expected::Many(Entity::Account),
            ),
            APIEndpoint::PostStatus(_) => Route::new(
                HttpMethod::Post,
                "/api/v1/statuses",
                None,
                "",
                BEARER,
                Method::Statuses,
                Expected::One(Entity::Status),
            ),
            APIEndpoint::DeleteStatus(s) => Route::new(
                HttpMethod::Delete,
                "/api/v1/statuses/",
                Some(s.id),
                "",
                BEARER,
                Method::Statuses,
                Expected::Nothing,
            ),
            APIEndpoint::ReblogStatus(s) => Route::new(
                HttpMethod::Post,
                "/api/v1/statuses/",
                Some(s.id),
                "/reblog",
                BEARER,
                Method::Statuses,
                Expected::One(Entity::Status),
            ),
            APIEndpoint::UnreblogStatus(s) => Route::new(
                HttpMethod::Post,
                "/api/v1/statuses/",
                Some(s.id),
                "/unreblog",
                BEARER,
                Method::Statuses,
                Expected::One(Entity::Status),
            ),
            APIEndpoint::FavouriteStatus(s) => Route::new(
                HttpMethod::Post,
                "/api/v1/statuses/",
                Some(s.id),
                "/favourite",
                BEARER,
                Method::Statuses,
                Expected::One(Entity::Status),
            ),
            APIEndpoint::UnfavouriteStatus(s) => Route::new(
                HttpMethod::Post,
                "/api/v1/statuses/",
                Some(s.id),
                "/unfavourite",
                BEARER,
                Method::Statuses,
                Expected::One(Entity::Status),
            ),
            APIEndpoint::HomeTimeline(_) => Route::new(
                HttpMethod::Get,
                "/api/v1/timelines/home",
                None,
                "",
                BEARER,
                Method::Timelines,
                Expected::Many(Entity::Status),
            ),
            APIEndpoint::PublicTimeline(_) => Route::new(
                HttpMethod::Get,
                "/api/v1/timelines/public",
                None,
                "",
                ANONYMOUS,
                Method::Timelines,
                Expected::Many(Entity::Status),
            ),
            APIEndpoint::TagTimeline(t, _) => Route::new(
                HttpMethod::Get,
                "/api/v1/timelines/tag/",
                Some(t.id),
                "",
                ANONYMOUS,
                Method::Timelines,
                Expected::Many(Entity::Status),
            ),
        }
    }

    /// The query as the method's arguments give it, empty where they give
    /// none.
    pub open spec fn spec_query_text(&self) -> Seq<char> {
        match self {
            APIEndpoint::GetAccountRelationships(q) => q.spec_query(),
            APIEndpoint::SearchAccounts(q) => q.spec_query(),
            APIEndpoint::SearchContent(q) => q.spec_query(),
            APIEndpoint::HomeTimeline(q) => q.spec_query(),
            APIEndpoint::PublicTimeline(q) => q.spec_query(),
            APIEndpoint::TagTimeline(_, q) => q.spec_query(),
            APIEndpoint::FetchBlocks(q) => q@,
            APIEndpoint::FetchFavourites(q) => q@,
            APIEndpoint::FetchFollowRequests(q) => q@,
            APIEndpoint::FetchMutes(q) => q@,
            APIEndpoint::FetchNotifications(q) => q@,
            _ => Seq::empty(),
        }
    }

    /// The query of the request, without its leading `?`; `None` where the
    /// arguments give no parameter.
    pub open spec fn spec_query(&self) -> Option<Seq<char>> {
        if self.spec_query_text().len() == 0 {
            None
        } else {
            Some(self.spec_query_text())
        }
    }

    /// The path of the request.
    pub open spec fn spec_path(&self) -> Seq<char> {
        self.spec_route().path()
    }

    /// What the request asks the server for: the path, and after `?` the
    /// query where there is one.
    pub open spec fn spec_target(&self) -> Seq<char> {
        match self.spec_query() {
            Some(q) => self.spec_path() + seq!['?'] + q,
            None => self.spec_path(),
        }
    }

    /// The HTTP verb of this method.
    pub fn method(&self) -> (m: HttpMethod)
        ensures
            m == self.spec_route().method,
    {
        self.route().method
    }

    /// The path of this method's request.
    pub fn path(&self) -> (p: String)
        ensures
            p@ == self.spec_path(),
    {
        self.route().path()
    }

    /// Whether this method's request carries the bearer token.
    pub fn requires_auth(&self) -> (bearer: bool)
        ensures
            bearer == self.spec_route().bearer,
    {
        self.route().bearer
    }

    /// The family of this method.
    pub fn family(&self) -> (f: Method)
        ensures
            f == self.spec_route().family,
    {
        self.route().family
    }

    /// What the body of this method's answer holds.
    pub fn expected(&self) -> (e: Expected)
        ensures
            e == self.spec_route().expected,
    {
        self.route().expected
    }

    /// The query of this method's request.
    pub fn query(&self) -> (q: Option<String>)
        ensures
            crate::text::opt_text(q) == self.spec_query(),
    {
        let text = match self {
            APIEndpoint::GetAccountRelationships(q) => q.query(),
            APIEndpoint::SearchAccounts(q) => q.query(),
            APIEndpoint::SearchContent(q) => q.query(),
            APIEndpoint::HomeTimeline(q) => q.query(),
            APIEndpoint::PublicTimeline(q) => q.query(),
            APIEndpoint::TagTimeline(_, q) => q.query(),
            APIEndpoint::FetchBlocks(q) => q.clone(),
            APIEndpoint::FetchFavourites(q) => q.clone(),
            APIEndpoint::FetchFollowRequests(q) => q.clone(),
            APIEndpoint::FetchMutes(q) => q.clone(),
            APIEndpoint::FetchNotifications(q) => q.clone(),
            _ => String::new(),
        };
        if text.as_str().is_empty() {
            None
        } else {
            Some(text)
        }
    }

    /// What this method's request asks the server for.
    pub fn target(&self) -> (t: String)
        ensures
            t@ == self.spec_target(),
    {
        let mut t = self.path();
        match self.query() {
            Some(q) => {
                proof {
                    reveal_strlit("?");
                }
                t.append("?");
                t.append(q.as_str());
                assert(t@ =~= self.spec_target());
            },
            None => {},
        }
        t
    }
}

/// The members of an object with one more text at their end, where the text
/// is given.
pub open spec fn with_text(
    members: Seq<(Seq<char>, JsonView)>,
    name: Seq<char>,
    value: Option<Seq<char>>,
) -> Seq<(Seq<char>, JsonView)> {
    match value {
        Some(v) => members.push((name, JsonView::Str(v))),
        None => members,
    }
}

fn push_text(members: &mut Vec<(String, Json)>, name: &str, value: &Option<String>)
    ensures
        member_views(final(members)@) == with_text(
            member_views(old(members)@),
            name@,
            crate::text::opt_text(*value),
        ),
{
    match value {
        Some(v) => {
            crate::api::v1::fields::push_member(members, name, Json::Str(v.clone()));
        },
        None => {},
    }
}

impl UserFormView {
    /// The JSON object of the form: the fields that are set, in the order
    /// `display_name`, `note`, `avatar`, `header`.
    pub open spec fn to_json(self) -> JsonView {
        JsonView::Object(
            with_text(
                with_text(
                    with_text(
                        with_text(Seq::empty(), "display_name"@, self.display_name),
                        "note"@,
                        self.note,
                    ),
                    "avatar"@,
                    self.avatar,
                ),
                "header"@,
                self.header,
            ),
        )
    }
}

impl UserFormData {
    /// Writes the form as a JSON value.
    pub fn to_json(&self) -> (j: Json)
        ensures
            j@ == self@.to_json(),
    {
        let mut members: Vec<(String, Json)> = Vec::new();
        proof {
            assert(member_views(members@) =~= Seq::empty());
        }
        push_text(&mut members, "display_name", &self.display_name);
        push_text(&mut members, "note", &self.note);
        push_text(&mut members, "avatar", &self.avatar);
        push_text(&mut members, "header", &self.header);
        proof {
            lemma_object_view(members);
        }
        Json::Object(members)
    }
}

impl APIEndpoint {
    /// The body of the request: the form as JSON text for an update of the
    /// current user, the given text for the methods that are called with
    /// their body, and none for the others.
    pub open spec fn spec_body(&self) -> Option<Seq<char>> {
        match self {
            APIEndpoint::UpdateCurrentUser(form) => Some(text_of(form@.to_json())),
            APIEndpoint::FollowRemoteUser(body) => Some(body@),
            APIEndpoint::UploadMedia(body) => Some(body@),
            APIEndpoint::ReportingUser(body) => Some(body@),
            APIEndpoint::PostStatus(body) => Some(body@),
            _ => None,
        }
    }

    /// The content type of the body: a form for the posting of a status, JSON
    /// for every other method that has a body.
    pub open spec fn spec_content_type(&self) -> Option<Seq<char>> {
        match self {
            APIEndpoint::UpdateCurrentUser(_) => Some("application/json"@),
            APIEndpoint::FollowRemoteUser(_) => Some("application/json"@),
            APIEndpoint::UploadMedia(_) => Some("application/json"@),
            APIEndpoint::ReportingUser(_) => Some("application/json"@),
            APIEndpoint::PostStatus(_) => Some("application/x-www-form-urlencoded"@),
            _ => None,
        }
    }

    /// The body of this method's request.
    pub fn body(&self) -> (b: Option<String>)
        ensures
            crate::text::opt_text(b) == self.spec_body(),
    {
        match self {
            APIEndpoint::UpdateCurrentUser(form) => Some(form.to_json().to_text()),
            APIEndpoint::FollowRemoteUser(body) => Some(body.clone()),
            APIEndpoint::UploadMedia(body) => Some(body.clone()),
            APIEndpoint::ReportingUser(body) => Some(body.clone()),
            APIEndpoint::PostStatus(body) => Some(body.clone()),
            _ => None,
        }
    }

    /// The content type of this method's body.
    pub fn content_type(&self) -> (t: Option<&'static str>)
        ensures
            match self.spec_content_type() {
                Some(v) => t matches Some(x) && x@ == v,
                None => t is None,
            },
    {
        match self {
            APIEndpoint::UpdateCurrentUser(_) => Some("application/json"),
            APIEndpoint::FollowRemoteUser(_) => Some("application/json"),
            APIEndpoint::UploadMedia(_) => Some("application/json"),
            APIEndpoint::ReportingUser(_) => Some("application/json"),
            APIEndpoint::PostStatus(_) => Some("application/x-www-form-urlencoded"),
            _ => None,
        }
    }
}

/// The query for several accounts names them in the order they are given:
/// the query for two runs of accounts, one after the other, is the query
/// for the first, `&`, and the query for the second.
pub proof fn lemma_ids_query_in_order(first: Seq<AccountID>, second: Seq<AccountID>)
    ensures
        ids_query(first + second) == if first.len() == 0 {
            ids_query(second)
        } else if second.len() == 0 {
            ids_query(first)
        } else {
            ids_query(first) + seq!['&'] + ids_query(second)
        },
    decreases second.len(),
{
    if first.len() == 0 {
        assert(first + second =~= second);
    } else if second.len() == 0 {
        assert(first + second =~= first);
    } else {
        let all = first + second;
        assert(all.drop_last() =~= first + second.drop_last());
        assert(all.last() == second.last());
        lemma_ids_query_in_order(first, second.drop_last());
        lemma_ids_query_nonempty(first);
        if second.len() == 1 {
            assert(second.drop_last() =~= Seq::<AccountID>::empty());
            assert(ids_query(second.drop_last()).len() == 0);
            assert(ids_query(all) =~= ids_query(first) + seq!['&'] + ids_query(second));
        } else {
            lemma_ids_query_nonempty(second.drop_last());
            assert(ids_query(all) =~= ids_query(first) + seq!['&'] + ids_query(second));
        }
    }
}

/// The query for at least one account is not empty.
pub proof fn lemma_ids_query_nonempty(ids: Seq<AccountID>)
    requires
        ids.len() > 0,
    ensures
        ids_query(ids).len() > 0,
{
    reveal_strlit("id[]");
}

/// A single account is asked for as `id=` and its number; the first of
/// several as `id[]=` and its number.
pub proof fn lemma_id_queries(account: AccountID)
    ensures
        RelationshipsQuery::SingleAccount(account).spec_query() == "id="@ + digits_of(
            account.id as nat,
        ),
        ids_query(seq![account]) == "id[]="@ + digits_of(account.id as nat),
{
    reveal_strlit("id");
    reveal_strlit("id=");
    reveal_strlit("id[]");
    reveal_strlit("id[]=");
    let one = seq![account];
    assert(one.drop_last() =~= Seq::<AccountID>::empty());
    assert(ids_query(one.drop_last()).len() == 0);
    assert(with_param(Seq::empty(), "id"@, digits_of(account.id as nat)) =~= "id="@ + digits_of(
        account.id as nat,
    ));
    assert(ids_query(one) =~= "id[]="@ + digits_of(account.id as nat));
}

/// A search sends what is searched for as `q=` and the text in form syntax;
/// a limit follows as `&limit=` and its number.
pub proof fn lemma_search_query(query: SearchAccountsQuery)
    ensures
        query.spec_query() == "q="@ + form_escaped(vstd::utf8::encode_utf8(query.q@)) + match query.limit {
            Some(n) => "&limit="@ + digits_of(n as nat),
            None => Seq::empty(),
        },
{
    reveal_strlit("q");
    assert forall|i: int| 0 <= i < "q"@.len() implies form_char_kept(
        #[trigger] "q"@[i],
    ) by {
        if i == 0 {
            assert("q"@[0] == 'q');
        }
    }
    lemma_kept_text_is_unchanged("q"@);
    reveal_strlit("q=");
    reveal_strlit("limit");
    reveal_strlit("&limit=");
    let escaped = form_escaped(vstd::utf8::encode_utf8(query.q@));
    let first = form_with_pair(Seq::empty(), "q"@, query.q@);
    assert(first =~= "q="@ + escaped);
    match query.limit {
        Some(n) => {
            assert(query.spec_query() =~= "q="@ + escaped + ("&limit="@ + digits_of(n as nat)));
        },
        None => {
            assert(query.spec_query() =~= "q="@ + escaped + Seq::<char>::empty());
        },
    }
}

/// The number in a path needs no escape: its numeral, escaped, is the same
/// numeral.
pub proof fn lemma_id_needs_no_escape(id: usize)
    ensures
        form_escaped(vstd::utf8::encode_utf8(digits_of(id as nat))) == digits_of(id as nat),
{
    let numeral = digits_of(id as nat);
    lemma_digits_of(id as nat);
    assert forall|i: int| 0 <= i < numeral.len() implies form_char_kept(#[trigger] numeral[i]) by {
        assert(is_digit(numeral[i]));
    }
    lemma_kept_text_is_unchanged(numeral);
}

} // verus!
