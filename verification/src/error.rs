//! What can go wrong with a search, and how it is described.

use vstd::prelude::*;
use crate::json::Kind;

verus! {

/// Why a place in a document is not what the response model expects there.
#[derive(Debug, Clone, Copy, PartialEq, Eq, Structural)]
pub enum Cause {
    /// A member that must be there is not.
    Missing,
    /// The value is of another kind than the one expected.
    Mismatch { expected: Kind, found: Kind },
}

/// The first place at which a document departs from the response model.
#[derive(Debug, PartialEq, Eq)]
pub struct Malformed {
    /// Where in the document: `$` for the document itself, then `.name` for each
    /// member and `[index]` for each item on the way down.
    pub path: String,
    pub cause: Cause,
}

pub struct MalformedModel {
    pub path: Seq<char>,
    pub cause: Cause,
}

impl View for Malformed {
    type V = MalformedModel;

    open spec fn view(&self) -> MalformedModel {
        MalformedModel { path: self.path@, cause: self.cause }
    }
}

/// The two ways in which a search fails.
#[derive(Debug, PartialEq, Eq)]
pub enum SearchError {
    /// The request did not complete; the text says why.
    Transport(String),
    /// The body of the response does not fit the response model.
    MalformedResponse(Malformed),
}

pub enum SearchErrorModel {
    Transport(Seq<char>),
    MalformedResponse(MalformedModel),
}

impl View for SearchError {
    type V = SearchErrorModel;

    open spec fn view(&self) -> SearchErrorModel {
        match self {
            SearchError::Transport(reason) => SearchErrorModel::Transport(reason@),
            SearchError::MalformedResponse(malformed) => SearchErrorModel::MalformedResponse(
                malformed@,
            ),
        }
    }
}

/// The word for a kind of JSON value.
pub open spec fn kind_name(kind: Kind) -> Seq<char> {
    match kind {
        Kind::Null => "null"@,
        Kind::Bool => "boolean"@,
        Kind::Number => "number"@,
        Kind::Text => "string"@,
        Kind::Array => "array"@,
        Kind::Object => "object"@,
    }
}

/// The words for a cause.
pub open spec fn cause_text(cause: Cause) -> Seq<char> {
    match cause {
        Cause::Missing => "missing field"@,
        Cause::Mismatch { expected, found } => "expected "@ + kind_name(expected) + ", found "@
            + kind_name(found),
    }
}

/// The description of a malformed place: its path, a colon, and the cause.
pub open spec fn malformed_text(malformed: MalformedModel) -> Seq<char> {
    malformed.path + ": "@ + cause_text(malformed.cause)
}

/// The description of an error.
pub open spec fn error_text(error: SearchErrorModel) -> Seq<char> {
    match error {
        SearchErrorModel::Transport(reason) => "transport error: "@ + reason,
        SearchErrorModel::MalformedResponse(malformed) => "malformed response: "@ + malformed_text(
            malformed,
        ),
    }
}

impl Kind {
    /// The word for this kind.
    pub fn name(&self) -> (word: &'static str)
        ensures
            word@ == kind_name(*self),
    {
        match self {
            Kind::Null => "null",
            Kind::Bool => "boolean",
            Kind::Number => "number",
            Kind::Text => "string",
            Kind::Array => "array",
            Kind::Object => "object",
        }
    }
}

impl Cause {
    /// The words for this cause.
    pub fn message(&self) -> (text: String)
        ensures
            text@ == cause_text(*self),
    {
        match self {
            Cause::Missing => "missing field".to_owned(),
            Cause::Mismatch { expected, found } => {
                let mut text = "expected ".to_owned();
                text.append(expected.name());
                text.append(", found ");
                text.append(found.name());
                text
            },
        }
    }
}

impl Malformed {
    /// The description of the malformed place.
    pub fn message(&self) -> (text: String)
        ensures
            text@ == malformed_text(self@),
    {
        let mut text = self.path.clone();
        text.append(": ");
        let cause = self.cause.message();
        text.append(cause.as_str());
        assert(text@ =~= malformed_text(self@));
        text
    }
}

impl SearchError {
    /// The description of the error.
    pub fn message(&self) -> (text: String)
        ensures
            text@ == error_text(self@),
    {
        match self {
            SearchError::Transport(reason) => {
                let mut text = "transport error: ".to_owned();
                text.append(reason.as_str());
                text
            },
            SearchError::MalformedResponse(malformed) => {
                let mut text = "malformed response: ".to_owned();
                let detail = malformed.message();
                text.append(detail.as_str());
                text
            },
        }
    }
}

} // verus!
