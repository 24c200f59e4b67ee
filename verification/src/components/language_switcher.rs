//! The language switcher: a button that shows the current language and opens a
//! list with one option for each supported language.

use vstd::prelude::*;
use vstd::string::*;
use crate::language::Language;
use crate::text::{join, same_text};

verus! {

/// What the switcher is given: the code of the language on display.
#[derive(Clone, Debug, PartialEq, Eq)]
pub struct Props {
    pub current_lang: String,
}

/// The upper-case form that `str::to_uppercase` gives a text.
pub uninterp spec fn uppercase_of(text: Seq<char>) -> Seq<char>;

/// Calls `str::to_uppercase`.
///
/// Trusted: the result is the upper-case form of the text by the Unicode case
/// mapping, which depends on the text alone; `uppercase_of` names it.
#[verifier::external_body]
pub(crate) fn uppercase(text: &str) -> (r: String)
    ensures
        r@ == uppercase_of(text@),
{
    text.to_uppercase()
}

/// The switcher as displayed.
#[derive(Clone, Debug, PartialEq, Eq)]
pub struct SwitcherView {
    /// The text on the button.
    pub label: String,
    /// Whether the list of options is shown.
    pub is_open: bool,
    /// Whether the Russian option is marked as the current one.
    pub ru_selected: bool,
    /// Whether the English option is marked as the current one.
    pub en_selected: bool,
}

pub struct SwitcherViewModel {
    pub label: Seq<char>,
    pub is_open: bool,
    pub ru_selected: bool,
    pub en_selected: bool,
}

impl DeepView for SwitcherView {
    type V = SwitcherViewModel;

    open spec fn deep_view(&self) -> SwitcherViewModel {
        SwitcherViewModel {
            label: self.label@,
            is_open: self.is_open,
            ru_selected: self.ru_selected,
            en_selected: self.en_selected,
        }
    }
}

/// The switcher as displayed for a button text, a current language code and a
/// state of the list: an option is marked exactly where its code is the current
/// code, letter for letter.
pub open spec fn switcher_view_of(
    label: Seq<char>,
    current_lang: Seq<char>,
    is_open: bool,
) -> SwitcherViewModel {
    SwitcherViewModel {
        label,
        is_open,
        ru_selected: current_lang == "ru"@,
        en_selected: current_lang == "en"@,
    }
}

/// Lays out the switcher for a given button text.
pub fn switcher_view(label: String, current_lang: &str, is_open: bool) -> (r: SwitcherView)
    ensures
        r.deep_view() == switcher_view_of(label@, current_lang@, is_open),
{
    SwitcherView {
        label,
        is_open,
        ru_selected: same_text(current_lang, "ru"),
        en_selected: same_text(current_lang, "en"),
    }
}

/// What the switcher displays: the current code in upper case on the button, and
/// the option of the current code marked.
pub fn language_switcher(props: &Props, is_open: bool) -> (r: SwitcherView)
    ensures
        r.deep_view() == switcher_view_of(
            uppercase_of(props.current_lang@),
            props.current_lang@,
            is_open,
        ),
{
    let label = uppercase(props.current_lang.as_str());
    switcher_view(label, props.current_lang.as_str(), is_open)
}

/// The style classes of an option: the common ones, then those that mark the
/// option as the current one or as one to choose.
pub open spec fn option_class_of(selected: bool) -> Seq<char> {
    "px-4 py-2 rounded font-semibold transition-colors "@ + if selected {
        "bg-green-300 text-gray-800"@
    } else {
        "bg-gray-700 text-green-300 hover:bg-gray-600"@
    }
}

/// The style classes of an option.
pub fn option_class(selected: bool) -> (r: String)
    ensures
        r@ == option_class_of(selected),
{
    let marks = if selected {
        "bg-green-300 text-gray-800"
    } else {
        "bg-gray-700 text-green-300 hover:bg-gray-600"
    };
    join("px-4 py-2 rounded font-semibold transition-colors ", marks)
}

/// What the reader can press on the switcher.
#[derive(Clone, Copy, Debug, PartialEq, Eq, Structural)]
pub enum Press {
    /// The button.
    Toggle,
    /// The option of a language.
    Choose(Language),
}

/// What follows a press: the new state of the list, and the language code to
/// announce as chosen, if any.
#[derive(Clone, Debug, PartialEq, Eq)]
pub struct Step {
    pub is_open: bool,
    pub announced: Option<String>,
}

pub struct StepModel {
    pub is_open: bool,
    pub announced: Option<Seq<char>>,
}

impl DeepView for Step {
    type V = StepModel;

    open spec fn deep_view(&self) -> StepModel {
        StepModel { is_open: self.is_open, announced: self.announced.deep_view() }
    }
}

/// What follows a press: the button opens a closed list and closes an open one
/// and announces nothing; an option announces the code of its language and
/// closes the list.
pub open spec fn step_of(is_open: bool, pressed: Press) -> StepModel {
    match pressed {
        Press::Toggle => StepModel { is_open: !is_open, announced: None },
        Press::Choose(language) => StepModel {
            is_open: false,
            announced: Some(language.spec_code()),
        },
    }
}

/// Decides what follows a press.
pub fn press(is_open: bool, pressed: Press) -> (r: Step)
    ensures
        r.deep_view() == step_of(is_open, pressed),
{
    match pressed {
        Press::Toggle => Step { is_open: !is_open, announced: None },
        Press::Choose(language) => Step {
            is_open: false,
            announced: Some(String::from_str(language.code())),
        },
    }
}

/// Pressing the button twice leaves the list as it was.
pub proof fn lemma_toggle_twice(is_open: bool)
    ensures
        step_of(step_of(is_open, Press::Toggle).is_open, Press::Toggle).is_open == is_open,
{
}

/// A chosen language is announced by a code that selects it again, and the
/// switcher then marks the option of that language and no other.
pub proof fn lemma_choice_is_marked(is_open: bool, language: Language, label: Seq<char>)
    ensures
        step_of(is_open, Press::Choose(language)).announced matches Some(code)
            && crate::language::language_of(code) == language && ({
            let view = switcher_view_of(label, code, false);
            &&& view.ru_selected == (language == Language::Ru)
            &&& view.en_selected == (language == Language::En)
        }),
{
    crate::language::lemma_code_round_trip(language);
    crate::language::lemma_code_round_trip(Language::Ru);
    crate::language::lemma_code_round_trip(Language::En);
}

} // verus!
