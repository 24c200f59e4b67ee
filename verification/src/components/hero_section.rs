//! What the hero section displays: the hero content of the language, as it is.

use vstd::prelude::*;
use crate::content::{get_hero_content, resolved, Content, HeroContent};

verus! {

/// What the section is given: the code of the language to display.
#[derive(Clone, Debug, PartialEq, Eq)]
pub struct Props {
    pub language: String,
}

/// What the hero section displays for the language of `props`.
pub fn hero_section<'a>(props: &Props, content: &'a Content) -> (r: &'a HeroContent)
    ensures
        *r == resolved(*content, props.language@).hero,
{
    get_hero_content(content, props.language.as_str())
}

} // verus!
