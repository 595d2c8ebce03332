//! What can go wrong between a method and its answer.
use crate::api::v1::Entity;
use vstd::prelude::*;
use vstd::string::*;

verus! {

/// Why a body could not be read as an entity.
#[derive(Clone, Copy, Debug, PartialEq, Eq, Structural)]
pub enum DecodeReason {
    /// The body is empty.
    Empty,
    /// The body is no JSON text.
    Syntax,
    /// A field that the entity needs is not there.
    Missing,
    /// A value has another type than the entity gives it.
    Mismatch,
}

/// A place in a JSON value that does not fit, and why.
#[derive(Debug, PartialEq, Eq)]
pub struct Fault {
    /// The names of the fields that lead to the place, joined by `.`; an
    /// element of an array is named by its index.
    pub path: String,
    pub reason: DecodeReason,
}

/// What a `Fault` holds, as mathematical values.
pub ghost struct FaultView {
    pub path: Seq<char>,
    pub reason: DecodeReason,
}

impl View for Fault {
    type V = FaultView;

    open spec fn view(&self) -> FaultView {
        FaultView { path: self.path@, reason: self.reason }
    }
}

/// The fault `reason` at the field `name`.
pub open spec fn fault_at(name: Seq<char>, reason: DecodeReason) -> FaultView {
    FaultView { path: name, reason }
}

/// A fault inside the field or element `name`, seen from outside it.
pub open spec fn fault_under(name: Seq<char>, inner: FaultView) -> FaultView {
    if inner.path.len() == 0 {
        FaultView { path: name, reason: inner.reason }
    } else {
        FaultView { path: name + seq!['.'] + inner.path, reason: inner.reason }
    }
}

impl Fault {
    /// The fault `reason` at the field `name`.
    pub fn at(name: &str, reason: DecodeReason) -> (f: Fault)
        ensures
            f@ == fault_at(name@, reason),
    {
        Fault { path: String::from_str(name), reason }
    }

    /// This fault, seen from outside the field or element `name`.
    pub fn under(self, name: &str) -> (f: Fault)
        ensures
            f@ == fault_under(name@, self@),
    {
        let mut path = String::from_str(name);
        if !self.path.as_str().is_empty() {
            proof {
                reveal_strlit(".");
            }
            path.append(".");
            path.append(self.path.as_str());
            assert(path@ =~= name@ + seq!['.'] + self.path@);
        }
        Fault { path, reason: self.reason }
    }
}

/// A body that does not hold the entity it should.
#[derive(Debug, PartialEq, Eq)]
pub struct DecodeError {
    /// The entity that was expected.
    pub entity: Entity,
    /// The path of the offending field, empty for the body as a whole.
    pub path: String,
    pub reason: DecodeReason,
}

/// What a `DecodeError` holds, as mathematical values.
pub ghost struct DecodeErrorView {
    pub entity: Entity,
    pub path: Seq<char>,
    pub reason: DecodeReason,
}

impl View for DecodeError {
    type V = DecodeErrorView;

    open spec fn view(&self) -> DecodeErrorView {
        DecodeErrorView { entity: self.entity, path: self.path@, reason: self.reason }
    }
}

/// The error that `fault` is for an expected `entity`.
pub open spec fn decode_error(entity: Entity, fault: FaultView) -> DecodeErrorView {
    DecodeErrorView { entity, path: fault.path, reason: fault.reason }
}

impl DecodeError {
    /// The error that `fault` is for an expected `entity`.
    pub fn new(entity: Entity, fault: Fault) -> (e: DecodeError)
        ensures
            e@ == decode_error(entity, fault@),
    {
        DecodeError { entity, path: fault.path, reason: fault.reason }
    }
}

/// The errors of the library.
#[derive(Debug, PartialEq, Eq)]
pub enum Error {
    /// The transport could not complete the exchange; the text says why.
    Transport(String),
    /// The server answered with a status outside 200 to 299.
    Api { status: u16, message: Option<String> },
    /// The body of the answer does not hold what the method answers.
    Decode(DecodeError),
    /// The base URL or the address of the endpoint is malformed; the text
    /// says how.
    Url(String),
    /// The method needs a bearer token and the client holds none.
    AuthRequired,
}

/// An `Error` as mathematical values.
pub ghost enum ErrorView {
    Transport(Seq<char>),
    Api { status: u16, message: Option<Seq<char>> },
    Decode(DecodeErrorView),
    Url(Seq<char>),
    AuthRequired,
}

impl View for Error {
    type V = ErrorView;

    open spec fn view(&self) -> ErrorView {
        match self {
            Error::Transport(m) => ErrorView::Transport(m@),
            Error::Api { status, message } => ErrorView::Api {
                status: *status,
                message: crate::text::opt_text(*message),
            },
            Error::Decode(e) => ErrorView::Decode(e@),
            Error::Url(m) => ErrorView::Url(m@),
            Error::AuthRequired => ErrorView::AuthRequired,
        }
    }
}

impl DecodeReason {
    /// The reason in words.
    pub open spec fn spec_words(self) -> Seq<char> {
        match self {
            DecodeReason::Empty => "the body is empty"@,
            DecodeReason::Syntax => "the body is no JSON text"@,
            DecodeReason::Missing => "a required field is missing"@,
            DecodeReason::Mismatch => "a value has the wrong type"@,
        }
    }

    /// The reason in words.
    pub fn words(&self) -> (w: &'static str)
        ensures
            w@ == self.spec_words(),
    {
        match self {
            DecodeReason::Empty => "the body is empty",
            DecodeReason::Syntax => "the body is no JSON text",
            DecodeReason::Missing => "a required field is missing",
            DecodeReason::Mismatch => "a value has the wrong type",
        }
    }
}

impl DecodeErrorView {
    /// The error as a line of text: the entity, the path of the field where
    /// there is one, and the reason.
    pub open spec fn message(self) -> Seq<char> {
        if self.path.len() == 0 {
            "cannot read "@ + self.entity.spec_name() + ": "@ + self.reason.spec_words()
        } else {
            "cannot read "@ + self.entity.spec_name() + " at "@ + self.path + ": "@
                + self.reason.spec_words()
        }
    }
}

impl DecodeError {
    /// The error as a line of text.
    pub fn message(&self) -> (m: String)
        ensures
            m@ == self@.message(),
    {
        let mut m = String::from_str("cannot read ");
        m.append(self.entity.name());
        if !self.path.as_str().is_empty() {
            m.append(" at ");
            m.append(self.path.as_str());
        }
        m.append(": ");
        m.append(self.reason.words());
        assert(m@ =~= self@.message());
        m
    }
}

impl ErrorView {
    /// The error as a line of text.
    pub open spec fn message(self) -> Seq<char> {
        match self {
            ErrorView::Transport(m) => "transport: "@ + m,
            ErrorView::Api { status, message } => match message {
                Some(m) => "the server answered "@ + crate::text::digits_of(status as nat) + ": "@
                    + m,
                None => "the server answered "@ + crate::text::digits_of(status as nat),
            },
            ErrorView::Decode(e) => e.message(),
            ErrorView::Url(m) => "malformed address: "@ + m,
            ErrorView::AuthRequired => "the method needs a bearer token"@,
        }
    }
}

impl Error {
    /// The error as a line of text.
    pub fn message(&self) -> (m: String)
        ensures
            m@ == self@.message(),
    {
        match self {
            Error::Transport(t) => {
                let mut m = String::from_str("transport: ");
                m.append(t.as_str());
                m
            },
            Error::Api { status, message } => {
                let mut m = String::from_str("the server answered ");
                crate::text::append_decimal(&mut m, *status as u64);
                match message {
                    Some(t) => {
                        m.append(": ");
                        m.append(t.as_str());
                        assert(m@ =~= self@.message());
                    },
                    None => {},
                }
                m
            },
            Error::Decode(e) => e.message(),
            Error::Url(t) => {
                let mut m = String::from_str("malformed address: ");
                m.append(t.as_str());
                m
            },
            Error::AuthRequired => String::from_str("the method needs a bearer token"),
        }
    }
}

} // verus!
