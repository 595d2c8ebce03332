//! The answers of the server: what the body of each holds, and what is
//! made of a status that tells of a failure.
use crate::api::v1::entities::Error as ServerError;
use crate::api::v1::fields::{list_of, views};
use crate::api::v1::methods::Expected;
use crate::api::v1::record::{decoded, record_reader, Record, RecordView};
use crate::api::v1::wire::{decode, spec_decode};
use crate::api::v1::Entity;
use crate::errors::{
    decode_error, fault_at, DecodeError, DecodeReason, Error, ErrorView, Fault, FaultView,
};
use crate::json::{lemma_array_view, tree_of, Json, JsonView, MAX_DEPTH};
use vstd::prelude::*;
use vstd::string::*;

verus! {

/// What the server says of its refusal, where the body is an `Error` entity.
pub open spec fn server_message(body: Seq<char>) -> Option<Seq<char>> {
    match spec_decode::<ServerError>(body) {
        Ok(e) => Some(e.error),
        Err(_) => None,
    }
}

/// Reads what the server says of its refusal.
pub fn read_server_message(body: &str) -> (m: Option<String>)
    ensures
        crate::text::opt_text(m) == server_message(body@),
{
    match decode::<ServerError>(body) {
        Ok(e) => Some(e.error),
        Err(_) => None,
    }
}

/// What a method answered.
#[derive(Debug, PartialEq)]
pub enum Answer {
    /// One entity.
    One(Record),
    /// The entities of an array, in its order.
    Many(Vec<Record>),
    /// Nothing that the library reads.
    Nothing,
}

/// An `Answer` as mathematical values.
pub ghost enum AnswerView {
    One(RecordView),
    Many(Seq<RecordView>),
    Nothing,
}

impl View for Answer {
    type V = AnswerView;

    open spec fn view(&self) -> AnswerView {
        match self {
            Answer::One(r) => AnswerView::One(r@),
            Answer::Many(rs) => AnswerView::Many(views(rs@)),
            Answer::Nothing => AnswerView::Nothing,
        }
    }
}

/// The entity kind that a body is expected to hold.
pub open spec fn expected_kind(expected: Expected) -> Entity {
    match expected {
        Expected::One(k) => k,
        Expected::Many(k) => k,
        Expected::Nothing => Entity::Error,
    }
}

/// The answer that a JSON value holds.
pub open spec fn answer_of(expected: Expected, j: JsonView) -> Result<AnswerView, FaultView> {
    match expected {
        Expected::Nothing => Ok(AnswerView::Nothing),
        Expected::One(kind) => match decoded(kind, j) {
            Ok(r) => Ok(AnswerView::One(r)),
            Err(f) => Err(f),
        },
        Expected::Many(kind) => match j {
            JsonView::Array(items) => match list_of(items, record_reader(kind)) {
                Ok(rs) => Ok(AnswerView::Many(rs)),
                Err(f) => Err(f),
            },
            _ => Err(fault_at(Seq::empty(), DecodeReason::Mismatch)),
        },
    }
}

/// What is made of an answer with the given status and body.
///
/// A status outside 200 to 299 is the server's error, with its message where
/// the body gives one. A method that answers nothing succeeds whatever the
/// body holds. For the others an empty body is an error, as is a body that
/// is no JSON text, and one that does not hold what the method answers.
pub open spec fn spec_response(expected: Expected, status: u16, body: Seq<char>) -> Result<
    AnswerView,
    ErrorView,
> {
    if !(200 <= status <= 299) {
        Err(ErrorView::Api { status, message: server_message(body) })
    } else if expected is Nothing {
        Ok(AnswerView::Nothing)
    } else if body.len() == 0 {
        Err(
            ErrorView::Decode(
                decode_error(expected_kind(expected), fault_at(Seq::empty(), DecodeReason::Empty)),
            ),
        )
    } else {
        match tree_of(body, MAX_DEPTH as nat) {
            None => Err(
                ErrorView::Decode(
                    decode_error(
                        expected_kind(expected),
                        fault_at(Seq::empty(), DecodeReason::Syntax),
                    ),
                ),
            ),
            Some(j) => match answer_of(expected, j) {
                Ok(a) => Ok(a),
                Err(f) => Err(ErrorView::Decode(decode_error(expected_kind(expected), f))),
            },
        }
    }
}

fn kind_of(expected: Expected) -> (k: Entity)
    ensures
        k == expected_kind(expected),
{
    match expected {
        Expected::One(k) => k,
        Expected::Many(k) => k,
        Expected::Nothing => Entity::Error,
    }
}

/// Reads the answer that a JSON value holds.
pub fn read_answer(expected: Expected, j: &Json) -> (r: Result<Answer, Fault>)
    ensures
        match answer_of(expected, j@) {
            Ok(v) => r matches Ok(x) && x@ == v,
            Err(f) => r matches Err(e) && e@ == f,
        },
{
    proof {
        reveal_strlit("");
        assert(""@ =~= Seq::<char>::empty());
    }
    match expected {
        Expected::Nothing => Ok(Answer::Nothing),
        Expected::One(kind) => match Record::from_json(kind, j) {
            Ok(r) => Ok(Answer::One(r)),
            Err(f) => Err(f),
        },
        Expected::Many(kind) => match j {
            Json::Array(items) => {
                proof {
                    lemma_array_view(*items);
                }
                match Record::read_items(kind, items) {
                    Ok(rs) => Ok(Answer::Many(rs)),
                    Err(f) => Err(f),
                }
            },
            _ => Err(Fault::at("", DecodeReason::Mismatch)),
        },
    }
}

/// Makes of the status and the body of an answer what the method that was
/// called is to return.
pub fn read_response(expected: Expected, status: u16, body: &str) -> (r: Result<Answer, Error>)
    ensures
        match spec_response(expected, status, body@) {
            Ok(v) => r matches Ok(x) && x@ == v,
            Err(f) => r matches Err(e) && e@ == f,
        },
{
    proof {
        reveal_strlit("");
        assert(""@ =~= Seq::<char>::empty());
    }
    if !(200 <= status && status <= 299) {
        return Err(Error::Api { status, message: read_server_message(body) });
    }
    match expected {
        Expected::Nothing => {
            return Ok(Answer::Nothing);
        },
        _ => {},
    }
    let kind = kind_of(expected);
    if body.is_empty() {
        return Err(Error::Decode(DecodeError::new(kind, Fault::at("", DecodeReason::Empty))));
    }
    match Json::parse(body) {
        None => Err(Error::Decode(DecodeError::new(kind, Fault::at("", DecodeReason::Syntax)))),
        Some(j) => match read_answer(expected, &j) {
            Ok(a) => Ok(a),
            Err(f) => Err(Error::Decode(DecodeError::new(kind, f))),
        },
    }
}

} // verus!
