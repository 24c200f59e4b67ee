//! The closed set of supported languages and the fallback rule for language codes.

use vstd::prelude::*;
use crate::text::same_text;

verus! {

/// A language the site is written in.
#[derive(Clone, Copy, Debug, PartialEq, Eq, Structural)]
pub enum Language {
    Ru,
    En,
}

/// The language a code selects: `"en"` selects English, and every other code,
/// known or not, selects Russian, the primary language.
pub open spec fn language_of(code: Seq<char>) -> Language {
    if code == "en"@ {
        Language::En
    } else {
        Language::Ru
    }
}

impl Language {
    /// The code of this language, as it appears in documents and URLs.
    pub open spec fn spec_code(self) -> Seq<char> {
        match self {
            Language::Ru => "ru"@,
            Language::En => "en"@,
        }
    }

    /// The code of this language.
    pub fn code(self) -> (r: &'static str)
        ensures
            r@ == self.spec_code(),
    {
        match self {
            Language::Ru => "ru",
            Language::En => "en",
        }
    }

    /// Resolves a language code, falling back to Russian for anything
    /// that is not the English code.
    pub fn from_code(code: &str) -> (r: Language)
        ensures
            r == language_of(code@),
    {
        if same_text(code, "en") {
            Language::En
        } else {
            Language::Ru
        }
    }
}

/// Resolving the code of a language gives that language back.
pub proof fn lemma_code_round_trip(language: Language)
    ensures
        language_of(language.spec_code()) == language,
{
    reveal_strlit("ru");
    reveal_strlit("en");
    if language == Language::Ru {
        assert("ru"@[0] != "en"@[0]);
    }
}

} // verus!
