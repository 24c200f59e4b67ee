//! The routes of the site and where each of them leads.

use vstd::prelude::*;
use vstd::string::*;
use crate::pages::home::HomeProps;

verus! {

/// A route of the site: one for each language, and the bare root.
#[derive(Clone, Copy, Debug, PartialEq, Eq, Structural)]
pub enum Route {
    Ru,
    En,
    Root,
}

/// Where a route leads.
#[derive(Clone, Debug, PartialEq, Eq)]
pub enum Target {
    /// To the home page with these properties.
    Home(HomeProps),
    /// On to another route.
    Redirect(Route),
}

/// The language of the home page that a route leads to, or the route it
/// redirects to.
pub enum TargetModel {
    Home(Seq<char>),
    Redirect(Route),
}

impl DeepView for Target {
    type V = TargetModel;

    open spec fn deep_view(&self) -> TargetModel {
        match self {
            Target::Home(props) => TargetModel::Home(props.lang@),
            Target::Redirect(route) => TargetModel::Redirect(*route),
        }
    }
}

/// Where a route leads: the route of a language to the home page in that
/// language, the root on to the route of Russian, the primary language.
pub open spec fn target_of(route: Route) -> TargetModel {
    match route {
        Route::Ru => TargetModel::Home("ru"@),
        Route::En => TargetModel::Home("en"@),
        Route::Root => TargetModel::Redirect(Route::Ru),
    }
}

/// Decides where a route leads.
pub fn switch(route: Route) -> (r: Target)
    ensures
        r.deep_view() == target_of(route),
{
    match route {
        Route::Ru => Target::Home(HomeProps { lang: String::from_str("ru") }),
        Route::En => Target::Home(HomeProps { lang: String::from_str("en") }),
        Route::Root => Target::Redirect(Route::Ru),
    }
}

/// A redirect leads to a page at once, never to another redirect, and the page
/// it leads to is the Russian one.
pub proof fn lemma_redirects_reach_a_page(route: Route)
    ensures
        target_of(route) matches TargetModel::Redirect(next) ==> target_of(next)
            == TargetModel::Home("ru"@),
{
}

} // verus!
