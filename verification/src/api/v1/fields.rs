//! The fields of an entity: how each kind of field is read from a JSON
//! object and written into one.
use crate::errors::{fault_at, fault_under, DecodeReason, Fault, FaultView};
use crate::json::{item_views, lemma_array_view, member_views, Json, JsonView};
use crate::text::{int_text, parse_i64, parse_u64, signed_decimal, decimal, text_int_within};
use vstd::prelude::*;
use vstd::string::*;

verus! {

/// Whether what was read is what was to be read: the same value, by its
/// view, or the same fault.
pub open spec fn agrees<T: View>(got: Result<T, Fault>, due: Result<T::V, FaultView>) -> bool {
    match due {
        Ok(v) => got matches Ok(x) && x@ == v,
        Err(f) => got matches Err(e) && e@ == f,
    }
}

/// The views of a run of values.
pub open spec fn views<T: View>(s: Seq<T>) -> Seq<T::V> {
    Seq::new(s.len(), |i: int| s[i]@)
}

/// A text field that must be there.
pub open spec fn spec_text(j: JsonView, name: Seq<char>) -> Result<Seq<char>, FaultView> {
    match j.get(name) {
        None => Err(fault_at(name, DecodeReason::Missing)),
        Some(JsonView::Str(s)) => Ok(s),
        Some(_) => Err(fault_at(name, DecodeReason::Mismatch)),
    }
}

/// A field that must be there and hold `true` or `false`.
pub open spec fn spec_bool(j: JsonView, name: Seq<char>) -> Result<bool, FaultView> {
    match j.get(name) {
        None => Err(fault_at(name, DecodeReason::Missing)),
        Some(JsonView::Bool(b)) => Ok(b),
        Some(_) => Err(fault_at(name, DecodeReason::Mismatch)),
    }
}

/// A field that must be there and hold a whole number that fits an `i32`.
pub open spec fn spec_i32(j: JsonView, name: Seq<char>) -> Result<i32, FaultView> {
    match j.get(name) {
        None => Err(fault_at(name, DecodeReason::Missing)),
        Some(JsonView::Number(n)) => match text_int_within(n, i32::MIN as int, i32::MAX as int) {
            Some(v) => Ok(v as i32),
            None => Err(fault_at(name, DecodeReason::Mismatch)),
        },
        Some(_) => Err(fault_at(name, DecodeReason::Mismatch)),
    }
}

/// A text field that may be absent or `null`.
pub open spec fn spec_opt_text(j: JsonView, name: Seq<char>) -> Result<
    Option<Seq<char>>,
    FaultView,
> {
    match j.get(name) {
        None => Ok(None),
        Some(JsonView::Null) => Ok(None),
        Some(JsonView::Str(s)) => Ok(Some(s)),
        Some(_) => Err(fault_at(name, DecodeReason::Mismatch)),
    }
}

/// A field that may be absent or `null`, and else holds a whole number that
/// fits an `i32`.
pub open spec fn spec_opt_i32(j: JsonView, name: Seq<char>) -> Result<Option<i32>, FaultView> {
    match j.get(name) {
        None => Ok(None),
        Some(JsonView::Null) => Ok(None),
        Some(JsonView::Number(n)) => match text_int_within(n, i32::MIN as int, i32::MAX as int) {
            Some(v) => Ok(Some(v as i32)),
            None => Err(fault_at(name, DecodeReason::Mismatch)),
        },
        Some(_) => Err(fault_at(name, DecodeReason::Mismatch)),
    }
}

/// A field that may be absent or `null`, and else holds a whole number that
/// fits a `u64`.
pub open spec fn spec_opt_u64(j: JsonView, name: Seq<char>) -> Result<Option<u64>, FaultView> {
    match j.get(name) {
        None => Ok(None),
        Some(JsonView::Null) => Ok(None),
        Some(JsonView::Number(n)) => match text_int_within(n, 0, u64::MAX as int) {
            Some(v) => Ok(Some(v as u64)),
            None => Err(fault_at(name, DecodeReason::Mismatch)),
        },
        Some(_) => Err(fault_at(name, DecodeReason::Mismatch)),
    }
}

/// A field that must be there, whatever it holds.
pub open spec fn spec_required(j: JsonView, name: Seq<char>) -> Result<JsonView, FaultView> {
    match j.get(name) {
        None => Err(fault_at(name, DecodeReason::Missing)),
        Some(v) => Ok(v),
    }
}

/// A field that may be absent or `null`: what it holds where it is neither.
pub open spec fn spec_optional(j: JsonView, name: Seq<char>) -> Option<JsonView> {
    match j.get(name) {
        None => None,
        Some(JsonView::Null) => None,
        Some(v) => Some(v),
    }
}

/// A field that must be there and hold an array: its items.
pub open spec fn spec_array(j: JsonView, name: Seq<char>) -> Result<Seq<JsonView>, FaultView> {
    match j.get(name) {
        None => Err(fault_at(name, DecodeReason::Missing)),
        Some(JsonView::Array(items)) => Ok(items),
        Some(_) => Err(fault_at(name, DecodeReason::Mismatch)),
    }
}

/// The fault of a value that should be an object and is none.
pub open spec fn not_an_object() -> FaultView {
    FaultView { path: Seq::empty(), reason: DecodeReason::Mismatch }
}

/// The items of an array, each read by `read`. The first item that does not
/// fit gives the fault, under its index.
pub open spec fn list_of<T>(
    items: Seq<JsonView>,
    read: spec_fn(JsonView) -> Result<T, FaultView>,
) -> Result<Seq<T>, FaultView>
    decreases items.len(),
{
    if items.len() == 0 {
        Ok(Seq::empty())
    } else {
        match list_of(items.drop_last(), read) {
            Err(f) => Err(f),
            Ok(before) => match read(items.last()) {
                Ok(v) => Ok(before.push(v)),
                Err(f) => Err(
                    fault_under(crate::text::digits_of((items.len() - 1) as nat), f),
                ),
            },
        }
    }
}

/// A fault among the first items of an array is the fault of the array.
pub proof fn lemma_list_of_prefix<T>(
    items: Seq<JsonView>,
    read: spec_fn(JsonView) -> Result<T, FaultView>,
    k: int,
)
    requires
        0 <= k <= items.len(),
        list_of(items.take(k), read) is Err,
    ensures
        list_of(items, read) == list_of(items.take(k), read),
    decreases items.len() - k,
{
    if k == items.len() {
        assert(items.take(k) =~= items);
    } else {
        assert(items.take(k + 1).drop_last() =~= items.take(k));
        lemma_list_of_prefix(items, read, k + 1);
    }
}

/// Reading what was written gives it back, item by item.
pub proof fn lemma_list_round_trip<T>(
    values: Seq<T>,
    write: spec_fn(T) -> JsonView,
    read: spec_fn(JsonView) -> Result<T, FaultView>,
)
    requires
        forall|v: T| #[trigger] read(write(v)) == Ok::<T, FaultView>(v),
    ensures
        list_of(values.map_values(write), read) == Ok::<Seq<T>, FaultView>(values),
    decreases values.len(),
{
    let items = values.map_values(write);
    if values.len() == 0 {
        assert(values =~= Seq::empty());
    } else {
        lemma_list_round_trip(values.drop_last(), write, read);
        assert(items.drop_last() =~= values.drop_last().map_values(write));
        assert(items.last() == write(values.last()));
        assert(values.drop_last().push(values.last()) =~= values);
    }
}

/// Reads a text field that must be there.
pub fn read_text(j: &Json, name: &str) -> (r: Result<String, Fault>)
    ensures
        agrees(r, spec_text(j@, name@)),
{
    match j.get(name) {
        None => Err(Fault::at(name, DecodeReason::Missing)),
        Some(Json::Str(s)) => Ok(s.clone()),
        Some(_) => Err(Fault::at(name, DecodeReason::Mismatch)),
    }
}

/// Reads a field that must be there and hold `true` or `false`.
pub fn read_bool(j: &Json, name: &str) -> (r: Result<bool, Fault>)
    ensures
        agrees(r, spec_bool(j@, name@)),
{
    match j.get(name) {
        None => Err(Fault::at(name, DecodeReason::Missing)),
        Some(Json::Bool(b)) => Ok(*b),
        Some(_) => Err(Fault::at(name, DecodeReason::Mismatch)),
    }
}

fn numeral_i32(n: &str) -> (r: Option<i32>)
    ensures
        match text_int_within(n@, i32::MIN as int, i32::MAX as int) {
            Some(v) => r == Some(v as i32),
            None => r is None,
        },
{
    match parse_i64(n) {
        Some(v) => if -0x8000_0000 <= v && v <= 0x7fff_ffff {
            Some(v as i32)
        } else {
            None
        },
        None => None,
    }
}

/// Reads a field that must be there and hold a whole number that fits an
/// `i32`.
pub fn read_i32(j: &Json, name: &str) -> (r: Result<i32, Fault>)
    ensures
        agrees(r, spec_i32(j@, name@)),
{
    match j.get(name) {
        None => Err(Fault::at(name, DecodeReason::Missing)),
        Some(Json::Number(n)) => match numeral_i32(n.as_str()) {
            Some(v) => Ok(v),
            None => Err(Fault::at(name, DecodeReason::Mismatch)),
        },
        Some(_) => Err(Fault::at(name, DecodeReason::Mismatch)),
    }
}

/// Reads a text field that may be absent or `null`.
pub fn read_opt_text(j: &Json, name: &str) -> (r: Result<Option<String>, Fault>)
    ensures
        match spec_opt_text(j@, name@) {
            Ok(v) => r matches Ok(x) && crate::text::opt_text(x) == v,
            Err(f) => r matches Err(e) && e@ == f,
        },
{
    match j.get(name) {
        None => Ok(None),
        Some(Json::Null) => Ok(None),
        Some(Json::Str(s)) => Ok(Some(s.clone())),
        Some(_) => Err(Fault::at(name, DecodeReason::Mismatch)),
    }
}

/// Reads a field that may be absent or `null`, and else holds a whole number
/// that fits an `i32`.
pub fn read_opt_i32(j: &Json, name: &str) -> (r: Result<Option<i32>, Fault>)
    ensures
        match spec_opt_i32(j@, name@) {
            Ok(v) => r == Ok::<Option<i32>, Fault>(v),
            Err(f) => r matches Err(e) && e@ == f,
        },
{
    match j.get(name) {
        None => Ok(None),
        Some(Json::Null) => Ok(None),
        Some(Json::Number(n)) => match numeral_i32(n.as_str()) {
            Some(v) => Ok(Some(v)),
            None => Err(Fault::at(name, DecodeReason::Mismatch)),
        },
        Some(_) => Err(Fault::at(name, DecodeReason::Mismatch)),
    }
}

/// Reads a field that may be absent or `null`, and else holds a whole number
/// that fits a `u64`.
pub fn read_opt_u64(j: &Json, name: &str) -> (r: Result<Option<u64>, Fault>)
    ensures
        match spec_opt_u64(j@, name@) {
            Ok(v) => r == Ok::<Option<u64>, Fault>(v),
            Err(f) => r matches Err(e) && e@ == f,
        },
{
    match j.get(name) {
        None => Ok(None),
        Some(Json::Null) => Ok(None),
        Some(Json::Number(n)) => match parse_u64(n.as_str()) {
            Some(v) => Ok(Some(v)),
            None => Err(Fault::at(name, DecodeReason::Mismatch)),
        },
        Some(_) => Err(Fault::at(name, DecodeReason::Mismatch)),
    }
}

/// Reads a field that must be there, whatever it holds.
pub fn read_required<'a>(j: &'a Json, name: &str) -> (r: Result<&'a Json, Fault>)
    ensures
        match spec_required(j@, name@) {
            Ok(v) => r matches Ok(x) && x@ == v,
            Err(f) => r matches Err(e) && e@ == f,
        },
{
    match j.get(name) {
        None => Err(Fault::at(name, DecodeReason::Missing)),
        Some(v) => Ok(v),
    }
}

/// Reads a field that may be absent or `null`.
pub fn read_optional<'a>(j: &'a Json, name: &str) -> (r: Option<&'a Json>)
    ensures
        crate::json::opt_tree(r) == spec_optional(j@, name@),
{
    match j.get(name) {
        None => None,
        Some(Json::Null) => None,
        Some(v) => Some(v),
    }
}

/// Reads a field that must be there and hold an array.
pub fn read_array<'a>(j: &'a Json, name: &str) -> (r: Result<&'a Vec<Json>, Fault>)
    ensures
        match spec_array(j@, name@) {
            Ok(items) => r matches Ok(x) && item_views(x@) == items,
            Err(f) => r matches Err(e) && e@ == f,
        },
{
    match j.get(name) {
        None => Err(Fault::at(name, DecodeReason::Missing)),
        Some(Json::Array(items)) => {
            proof {
                lemma_array_view(*items);
            }
            Ok(items)
        },
        Some(_) => Err(Fault::at(name, DecodeReason::Mismatch)),
    }
}

/// Whether a value is an object.
pub fn is_object(j: &Json) -> (r: bool)
    ensures
        r == (j@ is Object),
{
    match j {
        Json::Object(_) => true,
        _ => false,
    }
}

/// The fault of a value that should be an object and is none.
pub fn fault_not_an_object() -> (f: Fault)
    ensures
        f@ == not_an_object(),
{
    Fault { path: String::new(), reason: DecodeReason::Mismatch }
}

/// A text as a JSON value.
pub open spec fn json_text(s: Seq<char>) -> JsonView {
    JsonView::Str(s)
}

/// A whole number as a JSON value.
pub open spec fn json_int(i: int) -> JsonView {
    JsonView::Number(int_text(i))
}

/// A text that may be absent as a JSON value: `null` where it is.
pub open spec fn json_opt_text(s: Option<Seq<char>>) -> JsonView {
    match s {
        Some(t) => JsonView::Str(t),
        None => JsonView::Null,
    }
}

/// A number that may be absent as a JSON value: `null` where it is.
pub open spec fn json_opt_i32(n: Option<i32>) -> JsonView {
    match n {
        Some(v) => json_int(v as int),
        None => JsonView::Null,
    }
}

/// A number that may be absent as a JSON value: `null` where it is.
pub open spec fn json_opt_u64(n: Option<u64>) -> JsonView {
    match n {
        Some(v) => json_int(v as int),
        None => JsonView::Null,
    }
}

/// Writes a member at the end of an object's members.
pub fn push_member(members: &mut Vec<(String, Json)>, name: &str, value: Json)
    ensures
        member_views(final(members)@) == member_views(old(members)@).push((name@, value@)),
{
    let ghost before = member_views(members@);
    members.push((String::from_str(name), value));
    assert(member_views(members@) =~= before.push((name@, value@)));
}

/// A text as a JSON value.
pub fn write_text(s: &String) -> (j: Json)
    ensures
        j@ == json_text(s@),
{
    Json::Str(s.clone())
}

/// A number as a JSON value.
pub fn write_i32(n: i32) -> (j: Json)
    ensures
        j@ == json_int(n as int),
{
    Json::Number(signed_decimal(n as i64))
}

/// A text that may be absent as a JSON value.
pub fn write_opt_text(s: &Option<String>) -> (j: Json)
    ensures
        j@ == json_opt_text(crate::text::opt_text(*s)),
{
    match s {
        Some(t) => Json::Str(t.clone()),
        None => Json::Null,
    }
}

/// A number that may be absent as a JSON value.
pub fn write_opt_i32(n: Option<i32>) -> (j: Json)
    ensures
        j@ == json_opt_i32(n),
{
    match n {
        Some(v) => write_i32(v),
        None => Json::Null,
    }
}

/// A number that may be absent as a JSON value.
pub fn write_opt_u64(n: Option<u64>) -> (j: Json)
    ensures
        j@ == json_opt_u64(n),
{
    match n {
        Some(v) => {
            let j = Json::Number(decimal(v));
            assert(int_text(v as int) == crate::text::digits_of(v as nat));
            j
        },
        None => Json::Null,
    }
}

/// The entity in a field that must be there, read by `read`; a fault inside
/// it is given under the name of the field.
pub open spec fn spec_nested<T>(
    j: JsonView,
    name: Seq<char>,
    read: spec_fn(JsonView) -> Result<T, FaultView>,
) -> Result<T, FaultView> {
    match spec_required(j, name) {
        Err(f) => Err(f),
        Ok(inner) => match read(inner) {
            Ok(v) => Ok(v),
            Err(f) => Err(fault_under(name, f)),
        },
    }
}

/// The entity in a field that may be absent or `null`, read by `read`.
pub open spec fn spec_opt_nested<T>(
    j: JsonView,
    name: Seq<char>,
    read: spec_fn(JsonView) -> Result<T, FaultView>,
) -> Result<Option<T>, FaultView> {
    match spec_optional(j, name) {
        None => Ok(None),
        Some(inner) => match read(inner) {
            Ok(v) => Ok(Some(v)),
            Err(f) => Err(fault_under(name, f)),
        },
    }
}

/// The entities in a field that must be there and hold an array, each read
/// by `read`; a fault inside is given under the name of the field.
pub open spec fn spec_list<T>(
    j: JsonView,
    name: Seq<char>,
    read: spec_fn(JsonView) -> Result<T, FaultView>,
) -> Result<Seq<T>, FaultView> {
    match spec_array(j, name) {
        Err(f) => Err(f),
        Ok(items) => match list_of(items, read) {
            Ok(v) => Ok(v),
            Err(f) => Err(fault_under(name, f)),
        },
    }
}

/// The view of an entity that may be absent.
pub open spec fn opt_view<T: View>(v: Option<T>) -> Option<T::V> {
    match v {
        Some(e) => Some(e@),
        None => None,
    }
}

/// An entity that may be absent as a JSON value: `null` where it is.
pub open spec fn json_opt<T>(v: Option<T>, write: spec_fn(T) -> JsonView) -> JsonView {
    match v {
        Some(e) => write(e),
        None => JsonView::Null,
    }
}

/// The text that a JSON value holds.
pub open spec fn spec_text_item(j: JsonView) -> Result<Seq<char>, FaultView> {
    match j {
        JsonView::Str(s) => Ok(s),
        _ => Err(FaultView { path: Seq::empty(), reason: DecodeReason::Mismatch }),
    }
}

/// `spec_text_item` as a function.
pub open spec fn text_reader() -> spec_fn(JsonView) -> Result<Seq<char>, FaultView> {
    |j: JsonView| spec_text_item(j)
}

/// `json_text` as a function.
pub open spec fn text_writer() -> spec_fn(Seq<char>) -> JsonView {
    |s: Seq<char>| json_text(s)
}

/// Reads the texts that the array in the field `name` of an object holds.
pub fn read_text_list(j: &Json, name: &str) -> (r: Result<Vec<String>, Fault>)
    ensures
        match spec_list(j@, name@, text_reader()) {
            Ok(v) => r matches Ok(x) && views(x@) == v,
            Err(f) => r matches Err(e) && e@ == f,
        },
{
    let items = read_array(j, name)?;
    let ghost all = item_views(items@);
    let mut out: Vec<String> = Vec::new();
    let mut i: usize = 0;
    proof {
        assert(views(out@) =~= Seq::<Seq<char>>::empty());
    }
    while i < items.len()
        invariant
            0 <= i <= items.len(),
            all == item_views(items@),
            spec_array(j@, name@) == Ok::<Seq<JsonView>, FaultView>(all),
            list_of(all.take(i as int), text_reader()) == Ok::<Seq<Seq<char>>, FaultView>(
                views(out@),
            ),
        decreases items.len() - i,
    {
        let ghost next = all.take(i as int + 1);
        proof {
            assert(next.drop_last() =~= all.take(i as int));
            assert(next.last() == items[i as int]@);
        }
        match &items[i] {
            Json::Str(s) => {
                let ghost before = views(out@);
                out.push(s.clone());
                proof {
                    assert(views(out@) =~= before.push(s@));
                }
            },
            _ => {
                let index = decimal(i as u64);
                let f = Fault { path: String::new(), reason: DecodeReason::Mismatch };
                proof {
                    assert(list_of(next, text_reader()) == Err::<Seq<Seq<char>>, FaultView>(
                        fault_under(crate::text::digits_of(i as nat), f@),
                    ));
                    lemma_list_of_prefix(all, text_reader(), i as int + 1);
                }
                return Err(f.under(index.as_str()).under(name));
            },
        }
        i = i + 1;
    }
    proof {
        assert(all.take(i as int) =~= all);
    }
    Ok(out)
}

/// Writes texts as an array.
pub fn write_text_list(values: &Vec<String>) -> (j: Json)
    ensures
        j@ == JsonView::Array(views(values@).map_values(text_writer())),
{
    let ghost all = views(values@).map_values(text_writer());
    let mut items: Vec<Json> = Vec::new();
    let mut i: usize = 0;
    while i < values.len()
        invariant
            0 <= i <= values.len(),
            all == views(values@).map_values(text_writer()),
            item_views(items@) =~= all.take(i as int),
        decreases values.len() - i,
    {
        let ghost before = item_views(items@);
        let item = write_text(&values[i]);
        items.push(item);
        proof {
            assert(item_views(items@) =~= before.push(item@));
            assert(all[i as int] == json_text(values[i as int]@));
        }
        i = i + 1;
    }
    proof {
        assert(all.take(i as int) =~= all);
        lemma_array_view(items);
    }
    Json::Array(items)
}

} // verus!
