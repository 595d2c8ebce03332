//! Any entity of the API, for the places that learn only as they run which
//! kind they deal with.
use crate::api::oauth::{OAuthApp, OAuthAppView};
use crate::api::v1::entities::{
    Account, AccountView, Application, ApplicationView, Attachment, AttachmentView, Card,
    CardView, Context, ContextView, Error, ErrorView, Instance, InstanceView, Mention,
    MentionView, Notification, NotificationView, Relationship, RelationshipView, Report,
    ReportView, Results, ResultsView, Status, StatusView, Tag, TagView,
};
use crate::api::v1::fields::{agrees, lemma_list_of_prefix, list_of, views};
use crate::api::v1::wire::Wire;
use crate::api::v1::Entity;
use crate::errors::{fault_under, Fault, FaultView};
use crate::json::{item_views, Json, JsonView};
use crate::text::{decimal, digits_of};
use vstd::prelude::*;
use vstd::string::*;

verus! {

/// An entity of any kind.
#[derive(Debug, PartialEq)]
pub enum Record {
    Account(Account),
    Application(Application),
    Attachment(Attachment),
    Card(Card),
    Context(Context),
    Error(Error),
    Instance(Instance),
    Mention(Mention),
    Notification(Notification),
    OAuthApp(OAuthApp),
    Relationship(Relationship),
    Report(Report),
    Results(Results),
    Status(Status),
    Tag(Tag),
}

/// A `Record` as mathematical values.
pub ghost enum RecordView {
    Account(AccountView),
    Application(ApplicationView),
    Attachment(AttachmentView),
    Card(CardView),
    Context(ContextView),
    Error(ErrorView),
    Instance(InstanceView),
    Mention(MentionView),
    Notification(NotificationView),
    OAuthApp(OAuthAppView),
    Relationship(RelationshipView),
    Report(ReportView),
    Results(ResultsView),
    Status(StatusView),
    Tag(TagView),
}

impl View for Record {
    type V = RecordView;

    open spec fn view(&self) -> RecordView {
        match self {
            Record::Account(v) => RecordView::Account(v@),
            Record::Application(v) => RecordView::Application(v@),
            Record::Attachment(v) => RecordView::Attachment(v@),
            Record::Card(v) => RecordView::Card(v@),
            Record::Context(v) => RecordView::Context(v@),
            Record::Error(v) => RecordView::Error(v@),
            Record::Instance(v) => RecordView::Instance(v@),
            Record::Mention(v) => RecordView::Mention(v@),
            Record::Notification(v) => RecordView::Notification(v@),
            Record::OAuthApp(v) => RecordView::OAuthApp(v@),
            Record::Relationship(v) => RecordView::Relationship(v@),
            Record::Report(v) => RecordView::Report(v@),
            Record::Results(v) => RecordView::Results(v@),
            Record::Status(v) => RecordView::Status(v@),
            Record::Tag(v) => RecordView::Tag(v@),
        }
    }
}

impl RecordView {
    /// The kind of the entity.
    pub open spec fn kind(self) -> Entity {
        match self {
            RecordView::Account(_) => Entity::Account,
            RecordView::Application(_) => Entity::Application,
            RecordView::Attachment(_) => Entity::Attachment,
            RecordView::Card(_) => Entity::Card,
            RecordView::Context(_) => Entity::Context,
            RecordView::Error(_) => Entity::Error,
            RecordView::Instance(_) => Entity::Instance,
            RecordView::Mention(_) => Entity::Mention,
            RecordView::Notification(_) => Entity::Notification,
            RecordView::OAuthApp(_) => Entity::OAuthApp,
            RecordView::Relationship(_) => Entity::Relationship,
            RecordView::Report(_) => Entity::Report,
            RecordView::Results(_) => Entity::Results,
            RecordView::Status(_) => Entity::Status,
            RecordView::Tag(_) => Entity::Tag,
        }
    }

    /// The JSON object of the entity.
    pub open spec fn to_json(self) -> JsonView {
        match self {
            RecordView::Account(v) => v.to_json(),
            RecordView::Application(v) => v.to_json(),
            RecordView::Attachment(v) => v.to_json(),
            RecordView::Card(v) => v.to_json(),
            RecordView::Context(v) => v.to_json(),
            RecordView::Error(v) => v.to_json(),
            RecordView::Instance(v) => v.to_json(),
            RecordView::Mention(v) => v.to_json(),
            RecordView::Notification(v) => v.to_json(),
            RecordView::OAuthApp(v) => v.to_json(),
            RecordView::Relationship(v) => v.to_json(),
            RecordView::Report(v) => v.to_json(),
            RecordView::Results(v) => v.to_json(),
            RecordView::Status(v) => v.to_json(),
            RecordView::Tag(v) => v.to_json(),
        }
    }
}

/// The names on the wire of the fields that an entity of the kind must have.
pub open spec fn required_fields(kind: Entity) -> Seq<Seq<char>> {
    match kind {
        Entity::Account => Account::spec_required(),
        Entity::Application => Application::spec_required(),
        Entity::Attachment => Attachment::spec_required(),
        Entity::Card => Card::spec_required(),
        Entity::Context => Context::spec_required(),
        Entity::Error => Error::spec_required(),
        Entity::Instance => Instance::spec_required(),
        Entity::Mention => Mention::spec_required(),
        Entity::Notification => Notification::spec_required(),
        Entity::OAuthApp => OAuthApp::spec_required(),
        Entity::Relationship => Relationship::spec_required(),
        Entity::Report => Report::spec_required(),
        Entity::Results => Results::spec_required(),
        Entity::Status => Status::spec_required(),
        Entity::Tag => Tag::spec_required(),
    }
}

/// The entity of the kind that a JSON value holds.
pub open spec fn decoded(kind: Entity, j: JsonView) -> Result<RecordView, FaultView> {
    match kind {
        Entity::Account => match Account::spec_from_json(j) {
            Ok(v) => Ok(RecordView::Account(v)),
            Err(f) => Err(f),
        },
        Entity::Application => match Application::spec_from_json(j) {
            Ok(v) => Ok(RecordView::Application(v)),
            Err(f) => Err(f),
        },
        Entity::Attachment => match Attachment::spec_from_json(j) {
            Ok(v) => Ok(RecordView::Attachment(v)),
            Err(f) => Err(f),
        },
        Entity::Card => match Card::spec_from_json(j) {
            Ok(v) => Ok(RecordView::Card(v)),
            Err(f) => Err(f),
        },
        Entity::Context => match Context::spec_from_json(j) {
            Ok(v) => Ok(RecordView::Context(v)),
            Err(f) => Err(f),
        },
        Entity::Error => match Error::spec_from_json(j) {
            Ok(v) => Ok(RecordView::Error(v)),
            Err(f) => Err(f),
        },
        Entity::Instance => match Instance::spec_from_json(j) {
            Ok(v) => Ok(RecordView::Instance(v)),
            Err(f) => Err(f),
        },
        Entity::Mention => match Mention::spec_from_json(j) {
            Ok(v) => Ok(RecordView::Mention(v)),
            Err(f) => Err(f),
        },
        Entity::Notification => match Notification::spec_from_json(j) {
            Ok(v) => Ok(RecordView::Notification(v)),
            Err(f) => Err(f),
        },
        Entity::OAuthApp => match OAuthApp::spec_from_json(j) {
            Ok(v) => Ok(RecordView::OAuthApp(v)),
            Err(f) => Err(f),
        },
        Entity::Relationship => match Relationship::spec_from_json(j) {
            Ok(v) => Ok(RecordView::Relationship(v)),
            Err(f) => Err(f),
        },
        Entity::Report => match Report::spec_from_json(j) {
            Ok(v) => Ok(RecordView::Report(v)),
            Err(f) => Err(f),
        },
        Entity::Results => match Results::spec_from_json(j) {
            Ok(v) => Ok(RecordView::Results(v)),
            Err(f) => Err(f),
        },
        Entity::Status => match Status::spec_from_json(j) {
            Ok(v) => Ok(RecordView::Status(v)),
            Err(f) => Err(f),
        },
        Entity::Tag => match Tag::spec_from_json(j) {
            Ok(v) => Ok(RecordView::Tag(v)),
            Err(f) => Err(f),
        },
    }
}

/// `decoded` for a kind, as a function.
pub open spec fn record_reader(kind: Entity) -> spec_fn(JsonView) -> Result<RecordView, FaultView> {
    |j: JsonView| decoded(kind, j)
}

impl Record {
    /// The kind of the entity.
    pub fn kind(&self) -> (k: Entity)
        ensures
            k == self@.kind(),
    {
        match self {
            Record::Account(_) => Entity::Account,
            Record::Application(_) => Entity::Application,
            Record::Attachment(_) => Entity::Attachment,
            Record::Card(_) => Entity::Card,
            Record::Context(_) => Entity::Context,
            Record::Error(_) => Entity::Error,
            Record::Instance(_) => Entity::Instance,
            Record::Mention(_) => Entity::Mention,
            Record::Notification(_) => Entity::Notification,
            Record::OAuthApp(_) => Entity::OAuthApp,
            Record::Relationship(_) => Entity::Relationship,
            Record::Report(_) => Entity::Report,
            Record::Results(_) => Entity::Results,
            Record::Status(_) => Entity::Status,
            Record::Tag(_) => Entity::Tag,
        }
    }

    /// Reads an entity of the kind from a JSON value.
    pub fn from_json(kind: Entity, j: &Json) -> (r: Result<Record, Fault>)
        ensures
            agrees(r, decoded(kind, j@)),
    {
        match kind {
            Entity::Account => match Account::from_json(j) {
                Ok(v) => Ok(Record::Account(v)),
                Err(f) => Err(f),
            },
            Entity::Application => match Application::from_json(j) {
                Ok(v) => Ok(Record::Application(v)),
                Err(f) => Err(f),
            },
            Entity::Attachment => match Attachment::from_json(j) {
                Ok(v) => Ok(Record::Attachment(v)),
                Err(f) => Err(f),
            },
            Entity::Card => match Card::from_json(j) {
                Ok(v) => Ok(Record::Card(v)),
                Err(f) => Err(f),
            },
            Entity::Context => match Context::from_json(j) {
                Ok(v) => Ok(Record::Context(v)),
                Err(f) => Err(f),
            },
            Entity::Error => match Error::from_json(j) {
                Ok(v) => Ok(Record::Error(v)),
                Err(f) => Err(f),
            },
            Entity::Instance => match Instance::from_json(j) {
                Ok(v) => Ok(Record::Instance(v)),
                Err(f) => Err(f),
            },
            Entity::Mention => match Mention::from_json(j) {
                Ok(v) => Ok(Record::Mention(v)),
                Err(f) => Err(f),
            },
            Entity::Notification => match Notification::from_json(j) {
                Ok(v) => Ok(Record::Notification(v)),
                Err(f) => Err(f),
            },
            Entity::OAuthApp => match OAuthApp::from_json(j) {
                Ok(v) => Ok(Record::OAuthApp(v)),
                Err(f) => Err(f),
            },
            Entity::Relationship => match Relationship::from_json(j) {
                Ok(v) => Ok(Record::Relationship(v)),
                Err(f) => Err(f),
            },
            Entity::Report => match Report::from_json(j) {
                Ok(v) => Ok(Record::Report(v)),
                Err(f) => Err(f),
            },
            Entity::Results => match Results::from_json(j) {
                Ok(v) => Ok(Record::Results(v)),
                Err(f) => Err(f),
            },
            Entity::Status => match Status::from_json(j) {
                Ok(v) => Ok(Record::Status(v)),
                Err(f) => Err(f),
            },
            Entity::Tag => match Tag::from_json(j) {
                Ok(v) => Ok(Record::Tag(v)),
                Err(f) => Err(f),
            },
        }
    }

    /// Writes the entity as a JSON value.
    pub fn to_json(&self) -> (j: Json)
        ensures
            j@ == self@.to_json(),
    {
        match self {
            Record::Account(v) => v.to_json(),
            Record::Application(v) => v.to_json(),
            Record::Attachment(v) => v.to_json(),
            Record::Card(v) => v.to_json(),
            Record::Context(v) => v.to_json(),
            Record::Error(v) => v.to_json(),
            Record::Instance(v) => v.to_json(),
            Record::Mention(v) => v.to_json(),
            Record::Notification(v) => v.to_json(),
            Record::OAuthApp(v) => v.to_json(),
            Record::Relationship(v) => v.to_json(),
            Record::Report(v) => v.to_json(),
            Record::Results(v) => v.to_json(),
            Record::Status(v) => v.to_json(),
            Record::Tag(v) => v.to_json(),
        }
    }

    /// Reads the entities of the kind that the items of an array hold. The
    /// first item that does not fit gives the fault, under its index.
    pub fn read_items(kind: Entity, items: &Vec<Json>) -> (r: Result<Vec<Record>, Fault>)
        ensures
            match list_of(item_views(items@), record_reader(kind)) {
                Ok(v) => r matches Ok(x) && views(x@) == v,
                Err(f) => r matches Err(e) && e@ == f,
            },
    {
        let ghost all = item_views(items@);
        let mut out: Vec<Record> = Vec::new();
        let mut i: usize = 0;
        proof {
            assert(views(out@) =~= Seq::<RecordView>::empty());
        }
        while i < items.len()
            invariant
                0 <= i <= items.len(),
                all == item_views(items@),
                list_of(all.take(i as int), record_reader(kind)) == Ok::<Seq<RecordView>, FaultView>(
                    views(out@),
                ),
            decreases items.len() - i,
        {
            let ghost next = all.take(i as int + 1);
            proof {
                assert(next.drop_last() =~= all.take(i as int));
                assert(next.last() == items[i as int]@);
            }
            match Record::from_json(kind, &items[i]) {
                Ok(v) => {
                    let ghost before = views(out@);
                    out.push(v);
                    proof {
                        assert(views(out@) =~= before.push(v@));
                    }
                },
                Err(f) => {
                    let index = decimal(i as u64);
                    proof {
                        assert(list_of(next, record_reader(kind)) == Err::<Seq<RecordView>, FaultView>(
                            fault_under(digits_of(i as nat), f@),
                        ));
                        lemma_list_of_prefix(all, record_reader(kind), i as int + 1);
                    }
                    return Err(f.under(index.as_str()));
                },
            }
            i = i + 1;
        }
        proof {
            assert(all.take(i as int) =~= all);
        }
        Ok(out)
    }
}

/// What is read as an entity of a kind is of that kind.
pub proof fn lemma_decoded_kind(kind: Entity, j: JsonView)
    ensures
        decoded(kind, j) matches Ok(v) ==> v.kind() == kind,
{
    match kind {
        Entity::Account => {
            let r = Account::spec_from_json(j);
            assert(decoded(kind, j) == match r {
                Ok(v) => Ok::<RecordView, FaultView>(RecordView::Account(v)),
                Err(f) => Err::<RecordView, FaultView>(f),
            });
        },
        Entity::Application => {
            let r = Application::spec_from_json(j);
            assert(decoded(kind, j) == match r {
                Ok(v) => Ok::<RecordView, FaultView>(RecordView::Application(v)),
                Err(f) => Err::<RecordView, FaultView>(f),
            });
        },
        Entity::Attachment => {
            let r = Attachment::spec_from_json(j);
            assert(decoded(kind, j) == match r {
                Ok(v) => Ok::<RecordView, FaultView>(RecordView::Attachment(v)),
                Err(f) => Err::<RecordView, FaultView>(f),
            });
        },
        Entity::Card => {
            let r = Card::spec_from_json(j);
            assert(decoded(kind, j) == match r {
                Ok(v) => Ok::<RecordView, FaultView>(RecordView::Card(v)),
                Err(f) => Err::<RecordView, FaultView>(f),
            });
        },
        Entity::Context => {
            let r = Context::spec_from_json(j);
            assert(decoded(kind, j) == match r {
                Ok(v) => Ok::<RecordView, FaultView>(RecordView::Context(v)),
                Err(f) => Err::<RecordView, FaultView>(f),
            });
        },
        Entity::Error => {
            let r = Error::spec_from_json(j);
            assert(decoded(kind, j) == match r {
                Ok(v) => Ok::<RecordView, FaultView>(RecordView::Error(v)),
                Err(f) => Err::<RecordView, FaultView>(f),
            });
        },
        Entity::Instance => {
            let r = Instance::spec_from_json(j);
            assert(decoded(kind, j) == match r {
                Ok(v) => Ok::<RecordView, FaultView>(RecordView::Instance(v)),
                Err(f) => Err::<RecordView, FaultView>(f),
            });
        },
        Entity::Mention => {
            let r = Mention::spec_from_json(j);
            assert(decoded(kind, j) == match r {
                Ok(v) => Ok::<RecordView, FaultView>(RecordView::Mention(v)),
                Err(f) => Err::<RecordView, FaultView>(f),
            });
        },
        Entity::Notification => {
            let r = Notification::spec_from_json(j);
            assert(decoded(kind, j) == match r {
                Ok(v) => Ok::<RecordView, FaultView>(RecordView::Notification(v)),
                Err(f) => Err::<RecordView, FaultView>(f),
            });
        },
        Entity::OAuthApp => {
            let r = OAuthApp::spec_from_json(j);
            assert(decoded(kind, j) == match r {
                Ok(v) => Ok::<RecordView, FaultView>(RecordView::OAuthApp(v)),
                Err(f) => Err::<RecordView, FaultView>(f),
            });
        },
        Entity::Relationship => {
            let r = Relationship::spec_from_json(j);
            assert(decoded(kind, j) == match r {
                Ok(v) => Ok::<RecordView, FaultView>(RecordView::Relationship(v)),
                Err(f) => Err::<RecordView, FaultView>(f),
            });
        },
        Entity::Report => {
            let r = Report::spec_from_json(j);
            assert(decoded(kind, j) == match r {
                Ok(v) => Ok::<RecordView, FaultView>(RecordView::Report(v)),
                Err(f) => Err::<RecordView, FaultView>(f),
            });
        },
        Entity::Results => {
            let r = Results::spec_from_json(j);
            assert(decoded(kind, j) == match r {
                Ok(v) => Ok::<RecordView, FaultView>(RecordView::Results(v)),
                Err(f) => Err::<RecordView, FaultView>(f),
            });
        },
        Entity::Status => {
            let r = Status::spec_from_json(j);
            assert(decoded(kind, j) == match r {
                Ok(v) => Ok::<RecordView, FaultView>(RecordView::Status(v)),
                Err(f) => Err::<RecordView, FaultView>(f),
            });
        },
        Entity::Tag => {
            let r = Tag::spec_from_json(j);
            assert(decoded(kind, j) == match r {
                Ok(v) => Ok::<RecordView, FaultView>(RecordView::Tag(v)),
                Err(f) => Err::<RecordView, FaultView>(f),
            });
        },
    }
}

/// Round trip: reading back what was written of an entity gives the same
/// entity, whatever its kind and whatever it holds.
pub proof fn lemma_record_round_trip(v: RecordView)
    ensures
        decoded(v.kind(), v.to_json()) == Ok::<RecordView, FaultView>(v),
{
    match v {
        RecordView::Account(e) => Account::lemma_round_trip(e),
        RecordView::Application(e) => Application::lemma_round_trip(e),
        RecordView::Attachment(e) => Attachment::lemma_round_trip(e),
        RecordView::Card(e) => Card::lemma_round_trip(e),
        RecordView::Context(e) => Context::lemma_round_trip(e),
        RecordView::Error(e) => Error::lemma_round_trip(e),
        RecordView::Instance(e) => Instance::lemma_round_trip(e),
        RecordView::Mention(e) => Mention::lemma_round_trip(e),
        RecordView::Notification(e) => Notification::lemma_round_trip(e),
        RecordView::OAuthApp(e) => OAuthApp::lemma_round_trip(e),
        RecordView::Relationship(e) => Relationship::lemma_round_trip(e),
        RecordView::Report(e) => Report::lemma_round_trip(e),
        RecordView::Results(e) => Results::lemma_round_trip(e),
        RecordView::Status(e) => Status::lemma_round_trip(e),
        RecordView::Tag(e) => Tag::lemma_round_trip(e),
    }
}

/// A JSON value that lacks a field that the kind must have holds no entity
/// of the kind: reading it fails, and nothing stands in for the field.
pub proof fn lemma_missing_field_fails(kind: Entity, j: JsonView, k: int)
    requires
        0 <= k < required_fields(kind).len(),
        j.get(required_fields(kind)[k]) is None,
    ensures
        decoded(kind, j) is Err,
{
    match kind {
        Entity::Account => Account::lemma_needs_fields(j, k),
        Entity::Application => Application::lemma_needs_fields(j, k),
        Entity::Attachment => Attachment::lemma_needs_fields(j, k),
        Entity::Card => Card::lemma_needs_fields(j, k),
        Entity::Context => Context::lemma_needs_fields(j, k),
        Entity::Error => Error::lemma_needs_fields(j, k),
        Entity::Instance => Instance::lemma_needs_fields(j, k),
        Entity::Mention => Mention::lemma_needs_fields(j, k),
        Entity::Notification => Notification::lemma_needs_fields(j, k),
        Entity::OAuthApp => OAuthApp::lemma_needs_fields(j, k),
        Entity::Relationship => Relationship::lemma_needs_fields(j, k),
        Entity::Report => Report::lemma_needs_fields(j, k),
        Entity::Results => Results::lemma_needs_fields(j, k),
        Entity::Status => Status::lemma_needs_fields(j, k),
        Entity::Tag => Tag::lemma_needs_fields(j, k),
    }
}

} // verus!
