//! From a document to the text that is shown for it.

use vstd::prelude::*;
use crate::decode::{decode, decoded};
use crate::error::{SearchError, SearchErrorModel};
use crate::json::{Json, JsonValue};
use crate::render::rendered;

verus! {

/// The text for a document: that of the response it stands for, or the error
/// that decoding ends in. Nothing of a malformed document is rendered.
pub open spec fn report_text(document: JsonValue) -> Result<Seq<char>, SearchErrorModel> {
    match decoded(document) {
        Ok(response) => Ok(rendered(response)),
        Err(error) => Err(error),
    }
}

/// Decodes a document and renders the response.
///
/// The outcome is a function of the document's value: the same document gives the
/// same text, character for character. The only error is a malformed response.
pub fn report(document: &Json) -> (outcome: Result<String, SearchError>)
    ensures
        match outcome {
            Ok(text) => report_text(document@) == Ok::<Seq<char>, SearchErrorModel>(text@),
            Err(e) => report_text(document@) == Err::<Seq<char>, SearchErrorModel>(e@) && e@
                is MalformedResponse,
        },
{
    match decode(document) {
        Ok(response) => Ok(response.render()),
        Err(e) => Err(e),
    }
}

} // verus!
