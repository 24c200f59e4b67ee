//! What the footer displays: the footer content of the language, as it is.

use vstd::prelude::*;
use crate::content::{get_footer_content, resolved, Content, FooterContent};

verus! {

/// What the footer is given: the code of the language to display.
#[derive(Clone, Debug, PartialEq, Eq)]
pub struct Props {
    pub language: String,
}

/// What the footer displays for the language of `props`.
pub fn footer_section<'a>(props: &Props, content: &'a Content) -> (r: &'a FooterContent)
    ensures
        *r == resolved(*content, props.language@).footer,
{
    get_footer_content(content, props.language.as_str())
}

} // verus!
