//! The entry point for a URI-scheme handler, which is handed the link as a
//! borrowed string.
use crate::parser::link_of_text;
use crate::types::OcsParsingErrorView;
use crate::types::ParsedOcsUrlView;
use vstd::prelude::*;

pub use crate::types::OcsParsingError;
pub use crate::types::ParsedOcsUrl;

verus! {

/// Reads an OCS link from text, as [`crate::parser::check_url`] does.
pub fn check_url(url: &str) -> (outcome: Result<ParsedOcsUrl, OcsParsingError>)
    ensures
        match outcome {
            Ok(link) => {
                &&& link_of_text(url@) == Ok::<ParsedOcsUrlView, OcsParsingErrorView>(link@)
                &&& link.wf()
            },
            Err(error) => link_of_text(url@) == Err::<ParsedOcsUrlView, OcsParsingErrorView>(
                error@,
            ),
        },
{
    crate::parser::check_url(url.to_owned())
}

} // verus!
