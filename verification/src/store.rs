//! Loading the content: from what obtaining and decoding the document came to,
//! to the content or to the reason why there is none.
//!
//! Obtaining the text and decoding it against the schema are left to the caller,
//! who hands over what came of each. A load either yields the whole document or
//! fails; it never yields part of one.

use vstd::prelude::*;
use crate::content::Content;

verus! {

/// Why a load yielded no content.
#[derive(Clone, Copy, Debug, PartialEq, Eq, Structural)]
pub enum ContentError {
    /// The text of the document could not be obtained.
    Unavailable,
    /// The text was obtained but did not decode against the schema.
    Malformed,
}

impl ContentError {
    /// A short description of the error for diagnostics.
    pub open spec fn spec_message(self) -> Seq<char> {
        match self {
            ContentError::Unavailable => "content is unavailable"@,
            ContentError::Malformed => "content is malformed"@,
        }
    }

    /// A short description of the error for diagnostics.
    pub fn message(self) -> (r: &'static str)
        ensures
            r@ == self.spec_message(),
    {
        match self {
            ContentError::Unavailable => "content is unavailable",
            ContentError::Malformed => "content is malformed",
        }
    }
}

/// What a load yields. The outer level of `source` says whether the text was
/// obtained, the inner level whether it decoded: no text is `Unavailable`, a
/// text that did not decode is `Malformed`, and a decoded text yields its
/// content, whole and unchanged.
pub open spec fn load_outcome(source: Option<Option<Content>>) -> Result<Content, ContentError> {
    match source {
        None => Err(ContentError::Unavailable),
        Some(None) => Err(ContentError::Malformed),
        Some(Some(content)) => Ok(content),
    }
}

/// Loads the content from what obtaining and decoding the document came to:
/// `None` where the text could not be had, `Some(None)` where it was had and did
/// not decode, `Some(Some(content))` where it decoded to `content`.
pub fn load(source: Option<Option<Content>>) -> (r: Result<Content, ContentError>)
    ensures
        r == load_outcome(source),
{
    match source {
        None => Err(ContentError::Unavailable),
        Some(None) => Err(ContentError::Malformed),
        Some(Some(content)) => Ok(content),
    }
}

/// Each error names one stage and no other: a load is `Unavailable` exactly
/// where no text was obtained, `Malformed` exactly where an obtained text did not
/// decode, and succeeds exactly where the text decoded, with the decoded content.
pub proof fn lemma_errors_tell_the_stage(source: Option<Option<Content>>)
    ensures
        load_outcome(source) == Err::<Content, _>(ContentError::Unavailable) <==> source is None,
        load_outcome(source) == Err::<Content, _>(ContentError::Malformed) <==> source == Some(
            None::<Content>,
        ),
        load_outcome(source) is Ok <==> source matches Some(Some(_)),
        source matches Some(Some(content)) ==> load_outcome(source) == Ok::<_, ContentError>(
            content,
        ),
{
}

} // verus!
