//! What the about section displays: the about content of the language, as it
//! is, with the skills and the work history in the order of the content.

use vstd::prelude::*;
use crate::content::{get_about_content, resolved, AboutContent, Content};

verus! {

/// What the section is given: the code of the language to display.
#[derive(Clone, Debug, PartialEq, Eq)]
pub struct Props {
    pub language: String,
}

/// What the about section displays for the language of `props`.
pub fn about_section<'a>(props: &Props, content: &'a Content) -> (r: &'a AboutContent)
    ensures
        *r == resolved(*content, props.language@).about,
{
    get_about_content(content, props.language.as_str())
}

} // verus!
