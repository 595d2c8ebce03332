//! Entities on the wire: what it takes to be read from JSON and written as
//! JSON, and what then holds of every entity alike.
use crate::api::v1::fields::{
    agrees, json_opt, lemma_list_of_prefix, list_of, opt_view, read_array, read_optional,
    read_required, spec_list, spec_nested, spec_opt_nested, views,
};
use crate::api::v1::Entity;
use crate::errors::{
    decode_error, fault_at, fault_under, DecodeError, DecodeErrorView, DecodeReason, Fault,
    FaultView,
};
use crate::json::{item_views, lemma_array_view, text_of, tree_of, Json, JsonView, MAX_DEPTH};
use crate::text::{decimal, digits_of};
use vstd::prelude::*;
use vstd::string::*;

verus! {

/// An entity that travels as a JSON object.
pub trait Wire: View + Sized {
    /// The kind of the entity.
    spec fn spec_kind() -> Entity;

    /// The names on the wire of the fields that must be there.
    spec fn spec_required() -> Seq<Seq<char>>;

    /// The entity that a JSON value holds. The value must be an object; its
    /// fields are read in the order of their declaration and the first that
    /// does not fit gives the fault. Members that the entity does not model
    /// are passed over.
    spec fn spec_from_json(j: JsonView) -> Result<Self::V, FaultView>;

    /// The JSON object of the entity: every field under its name on the
    /// wire, an absent one as `null`.
    spec fn spec_to_json(v: Self::V) -> JsonView;

    /// The kind of the entity.
    fn kind() -> (k: Entity)
        ensures
            k == Self::spec_kind(),
    ;

    /// Reads the entity from a JSON value.
    fn from_json(j: &Json) -> (r: Result<Self, Fault>)
        ensures
            agrees(r, Self::spec_from_json(j@)),
    ;

    /// Writes the entity as a JSON value.
    fn to_json(&self) -> (j: Json)
        ensures
            j@ == Self::spec_to_json(self@),
    ;

    /// Round trip: reading back what was written gives the same entity,
    /// whatever it holds.
    proof fn lemma_round_trip(v: Self::V)
        ensures
            Self::spec_from_json(Self::spec_to_json(v)) == Ok::<Self::V, FaultView>(v),
    ;

    /// A JSON value that lacks a field that must be there holds no entity:
    /// reading it fails, and nothing stands in for the field.
    proof fn lemma_needs_fields(j: JsonView, k: int)
        requires
            0 <= k < Self::spec_required().len(),
            j.get(Self::spec_required()[k]) is None,
        ensures
            Self::spec_from_json(j) is Err,
    ;
}

/// `spec_from_json` of an entity, as a function.
pub open spec fn reader<T: Wire>() -> spec_fn(JsonView) -> Result<T::V, FaultView> {
    |j: JsonView| T::spec_from_json(j)
}

/// `spec_to_json` of an entity, as a function.
pub open spec fn writer<T: Wire>() -> spec_fn(T::V) -> JsonView {
    |v: T::V| T::spec_to_json(v)
}

/// The entity that a JSON text holds. An empty text, a text that is no JSON
/// and a value that does not fit are told apart by the reason of the error.
pub open spec fn spec_decode<T: Wire>(text: Seq<char>) -> Result<T::V, DecodeErrorView> {
    if text.len() == 0 {
        Err(decode_error(T::spec_kind(), fault_at(Seq::empty(), DecodeReason::Empty)))
    } else {
        match tree_of(text, MAX_DEPTH as nat) {
            None => Err(
                decode_error(T::spec_kind(), fault_at(Seq::empty(), DecodeReason::Syntax)),
            ),
            Some(j) => match T::spec_from_json(j) {
                Ok(v) => Ok(v),
                Err(f) => Err(decode_error(T::spec_kind(), f)),
            },
        }
    }
}

/// Reads an entity from a JSON text.
pub fn decode<T: Wire>(text: &str) -> (r: Result<T, DecodeError>)
    ensures
        match spec_decode::<T>(text@) {
            Ok(v) => r matches Ok(x) && x@ == v,
            Err(f) => r matches Err(e) && e@ == f,
        },
{
    proof {
        reveal_strlit("");
        assert(""@ =~= Seq::<char>::empty());
    }
    if text.is_empty() {
        return Err(DecodeError::new(T::kind(), Fault::at("", DecodeReason::Empty)));
    }
    match Json::parse(text) {
        None => Err(DecodeError::new(T::kind(), Fault::at("", DecodeReason::Syntax))),
        Some(j) => match T::from_json(&j) {
            Ok(v) => Ok(v),
            Err(f) => Err(DecodeError::new(T::kind(), f)),
        },
    }
}

/// Writes an entity as JSON text.
pub fn encode<T: Wire>(value: &T) -> (text: String)
    ensures
        text@ == text_of(T::spec_to_json(value@)),
{
    value.to_json().to_text()
}

/// Reads an entity from the field `name` of an object.
pub fn read_nested<T: Wire>(j: &Json, name: &str) -> (r: Result<T, Fault>)
    ensures
        agrees(r, spec_nested(j@, name@, reader::<T>())),
{
    let inner = read_required(j, name)?;
    match T::from_json(inner) {
        Ok(v) => Ok(v),
        Err(f) => Err(f.under(name)),
    }
}

/// Reads an entity from the field `name` of an object, where the field is
/// there and not `null`.
pub fn read_opt_nested<T: Wire>(j: &Json, name: &str) -> (r: Result<Option<T>, Fault>)
    ensures
        match spec_opt_nested(j@, name@, reader::<T>()) {
            Ok(v) => r matches Ok(x) && opt_view(x) == v,
            Err(f) => r matches Err(e) && e@ == f,
        },
{
    match read_optional(j, name) {
        None => Ok(None),
        Some(inner) => match T::from_json(inner) {
            Ok(v) => Ok(Some(v)),
            Err(f) => Err(f.under(name)),
        },
    }
}

/// Writes an entity, or `null` where there is none.
pub fn write_opt<T: Wire>(value: &Option<T>) -> (j: Json)
    ensures
        j@ == json_opt(opt_view(*value), writer::<T>()),
{
    match value {
        Some(e) => e.to_json(),
        None => Json::Null,
    }
}

/// Reads the entities that the items of an array hold. The first item that
/// does not fit gives the fault, under its index.
pub fn read_items<T: Wire>(items: &Vec<Json>) -> (r: Result<Vec<T>, Fault>)
    ensures
        match list_of(item_views(items@), reader::<T>()) {
            Ok(v) => r matches Ok(x) && views(x@) == v,
            Err(f) => r matches Err(e) && e@ == f,
        },
{
    let ghost all = item_views(items@);
    let mut out: Vec<T> = Vec::new();
    let mut i: usize = 0;
    proof {
        assert(views(out@) =~= Seq::<T::V>::empty());
    }
    while i < items.len()
        invariant
            0 <= i <= items.len(),
            all == item_views(items@),
            list_of(all.take(i as int), reader::<T>()) == Ok::<Seq<T::V>, FaultView>(views(out@)),
        decreases items.len() - i,
    {
        let ghost next = all.take(i as int + 1);
        proof {
            assert(next.drop_last() =~= all.take(i as int));
            assert(next.last() == items[i as int]@);
        }
        match T::from_json(&items[i]) {
            Ok(v) => {
                let ghost before = views(out@);
                out.push(v);
                proof {
                    assert(views(out@) =~= before.push(v@));
                }
            },
            Err(f) => {
                let index = decimal(i as u64);
                proof {
                    assert(list_of(next, reader::<T>()) == Err::<Seq<T::V>, FaultView>(
                        fault_under(digits_of(i as nat), f@),
                    ));
                    lemma_list_of_prefix(all, reader::<T>(), i as int + 1);
                }
                return Err(f.under(index.as_str()));
            },
        }
        i = i + 1;
    }
    proof {
        assert(all.take(i as int) =~= all);
    }
    Ok(out)
}

/// Reads the entities that the array in the field `name` of an object holds.
pub fn read_list<T: Wire>(j: &Json, name: &str) -> (r: Result<Vec<T>, Fault>)
    ensures
        match spec_list(j@, name@, reader::<T>()) {
            Ok(v) => r matches Ok(x) && views(x@) == v,
            Err(f) => r matches Err(e) && e@ == f,
        },
{
    let items = read_array(j, name)?;
    match read_items::<T>(items) {
        Ok(v) => Ok(v),
        Err(f) => Err(f.under(name)),
    }
}

/// Writes entities as an array.
pub fn write_list<T: Wire>(values: &Vec<T>) -> (j: Json)
    ensures
        j@ == JsonView::Array(views(values@).map_values(writer::<T>())),
{
    let ghost all = views(values@).map_values(writer::<T>());
    let mut items: Vec<Json> = Vec::new();
    let mut i: usize = 0;
    while i < values.len()
        invariant
            0 <= i <= values.len(),
            all == views(values@).map_values(writer::<T>()),
            item_views(items@) =~= all.take(i as int),
        decreases values.len() - i,
    {
        let ghost before = item_views(items@);
        let item = values[i].to_json();
        items.push(item);
        proof {
            assert(item_views(items@) =~= before.push(item@));
            assert(all[i as int] == T::spec_to_json(values[i as int]@));
        }
        i = i + 1;
    }
    proof {
        assert(all.take(i as int) =~= all);
        lemma_array_view(items);
    }
    Json::Array(items)
}

/// Reading, writing and reading again gives what was read the first time:
/// writing loses nothing of what an entity models.
pub proof fn lemma_decode_encode_decode<T: Wire>(j: JsonView)
    requires
        T::spec_from_json(j) is Ok,
    ensures
        T::spec_from_json(T::spec_to_json(T::spec_from_json(j)->Ok_0)) == T::spec_from_json(j),
{
    T::lemma_round_trip(T::spec_from_json(j)->Ok_0);
}

/// A JSON text whose object lacks a field that must be there is refused
/// with an error that names the entity.
pub proof fn lemma_decode_needs_fields<T: Wire>(text: Seq<char>, k: int)
    requires
        0 <= k < T::spec_required().len(),
        tree_of(text, MAX_DEPTH as nat) matches Some(j) && j.get(T::spec_required()[k]) is None,
    ensures
        spec_decode::<T>(text) matches Err(e) && e.entity == T::spec_kind(),
{
    T::lemma_needs_fields(tree_of(text, MAX_DEPTH as nat)->Some_0, k);
}

} // verus!
