//! The home page: the language switcher and the five sections, all in one
//! language.

use vstd::prelude::*;
use crate::components::{
    about_section, contact_section, footer_section, hero_section, language_switcher,
    portfolio_section,
};

verus! {

/// What the page is given: the code of the language to display.
#[derive(Clone, Debug, PartialEq, Eq)]
pub struct HomeProps {
    pub lang: String,
}

/// What the page hands to each of its parts, from top to bottom.
#[derive(Clone, Debug, PartialEq, Eq)]
pub struct HomeParts {
    pub switcher: language_switcher::Props,
    pub hero: hero_section::Props,
    pub about: about_section::Props,
    pub portfolio: portfolio_section::Props,
    pub contact: contact_section::Props,
    pub footer: footer_section::Props,
}

impl HomeParts {
    /// Whether every part is given the language code `lang`.
    pub open spec fn all_in(self, lang: Seq<char>) -> bool {
        &&& self.switcher.current_lang@ == lang
        &&& self.hero.language@ == lang
        &&& self.about.language@ == lang
        &&& self.portfolio.language@ == lang
        &&& self.contact.language@ == lang
        &&& self.footer.language@ == lang
    }
}

/// Lays out the home page: every part is given the language code of the page.
pub fn home(props: &HomeProps) -> (r: HomeParts)
    ensures
        r.all_in(props.lang@),
{
    HomeParts {
        switcher: language_switcher::Props { current_lang: props.lang.clone() },
        hero: hero_section::Props { language: props.lang.clone() },
        about: about_section::Props { language: props.lang.clone() },
        portfolio: portfolio_section::Props { language: props.lang.clone() },
        contact: contact_section::Props { language: props.lang.clone() },
        footer: footer_section::Props { language: props.lang.clone() },
    }
}

} // verus!
