//! The Mastodon API under `/api/v1`: its entities and its methods.
pub mod client;
pub mod entities;
pub mod fields;
pub mod methods;
pub mod record;
pub mod response;
pub mod wire;

pub use self::entities::{
    Account, Application, Attachment, Card, Context, Error, Instance, Mention, Notification,
    Relationship, Report, Results, Status, Tag, Visibility,
};

use vstd::prelude::*;
use vstd::string::*;

verus! {

/// The kinds of entity that the API returns.
#[derive(Clone, Copy, Debug, PartialEq, Eq, Structural)]
pub enum Entity {
    Account,
    Application,
    Attachment,
    Card,
    Context,
    Error,
    Instance,
    Mention,
    Notification,
    OAuthApp,
    Relationship,
    Report,
    Results,
    Status,
    Tag,
}

/// The families that the API sorts its methods into.
#[derive(Clone, Copy, Debug, PartialEq, Eq, Structural)]
pub enum Method {
    Accounts,
    Apps,
    Blocks,
    Favorites,
    FollowRequests,
    Follows,
    Instances,
    Media,
    Mutes,
    Notifications,
    Reports,
    Search,
    Statuses,
    Timelines,
}

impl Entity {
    /// The name of the kind.
    pub open spec fn spec_name(self) -> Seq<char> {
        match self {
            Entity::Account => "Account"@,
            Entity::Application => "Application"@,
            Entity::Attachment => "Attachment"@,
            Entity::Card => "Card"@,
            Entity::Context => "Context"@,
            Entity::Error => "Error"@,
            Entity::Instance => "Instance"@,
            Entity::Mention => "Mention"@,
            Entity::Notification => "Notification"@,
            Entity::OAuthApp => "OAuthApp"@,
            Entity::Relationship => "Relationship"@,
            Entity::Report => "Report"@,
            Entity::Results => "Results"@,
            Entity::Status => "Status"@,
            Entity::Tag => "Tag"@,
        }
    }

    /// The name of the kind.
    pub fn name(&self) -> (n: &'static str)
        ensures
            n@ == self.spec_name(),
    {
        match self {
            Entity::Account => "Account",
            Entity::Application => "Application",
            Entity::Attachment => "Attachment",
            Entity::Card => "Card",
            Entity::Context => "Context",
            Entity::Error => "Error",
            Entity::Instance => "Instance",
            Entity::Mention => "Mention",
            Entity::Notification => "Notification",
            Entity::OAuthApp => "OAuthApp",
            Entity::Relationship => "Relationship",
            Entity::Report => "Report",
            Entity::Results => "Results",
            Entity::Status => "Status",
            Entity::Tag => "Tag",
        }
    }
}

} // verus!
