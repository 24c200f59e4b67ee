use portfolio_content::components::language_switcher::{
    language_switcher, option_class, press, switcher_view, Press, Props, Step,
};
use portfolio_content::language::Language;
use portfolio_content::pages::home::{home, HomeProps};
use portfolio_content::route::{switch, Route, Target};

#[test]
fn language_codes_select_languages() {
    assert_eq!(Language::from_code("en"), Language::En);
    assert_eq!(Language::from_code("ru"), Language::Ru);
    for code in ["", "de", "EN", "en-US", " en", "ру"] {
        assert_eq!(Language::from_code(code), Language::Ru, "code {code:?}");
    }
    assert_eq!(Language::Ru.code(), "ru");
    assert_eq!(Language::En.code(), "en");
    for language in [Language::Ru, Language::En] {
        assert_eq!(Language::from_code(language.code()), language);
    }
}

#[test]
fn switcher_shows_the_current_code_in_upper_case() {
    let view = language_switcher(&Props { current_lang: "ru".to_string() }, false);
    assert_eq!(view.label, "RU");
    assert!(view.ru_selected);
    assert!(!view.en_selected);
    assert!(!view.is_open);
    let view = language_switcher(&Props { current_lang: "en".to_string() }, true);
    assert_eq!(view.label, "EN");
    assert!(!view.ru_selected);
    assert!(view.en_selected);
    assert!(view.is_open);
    let view = language_switcher(&Props { current_lang: "de".to_string() }, true);
    assert_eq!(view.label, "DE");
    assert!(!view.ru_selected);
    assert!(!view.en_selected);
    let view = language_switcher(&Props { current_lang: "straße".to_string() }, false);
    assert_eq!(view.label, "STRASSE");
}

#[test]
fn switcher_marks_options_by_exact_code() {
    let view = switcher_view("label".to_string(), "EN", true);
    assert_eq!(view.label, "label");
    assert!(view.is_open);
    assert!(!view.en_selected);
    assert!(!view.ru_selected);
    let view = switcher_view(String::new(), "ru", false);
    assert!(view.ru_selected);
    assert!(!view.en_selected);
}

#[test]
fn options_are_styled_by_whether_they_are_current() {
    assert_eq!(
        option_class(true),
        "px-4 py-2 rounded font-semibold transition-colors bg-green-300 text-gray-800"
    );
    assert_eq!(
        option_class(false),
        "px-4 py-2 rounded font-semibold transition-colors bg-gray-700 text-green-300 hover:bg-gray-600"
    );
}

#[test]
fn pressing_the_button_opens_and_closes_the_list() {
    assert_eq!(press(false, Press::Toggle), Step { is_open: true, announced: None });
    assert_eq!(press(true, Press::Toggle), Step { is_open: false, announced: None });
    for start in [false, true] {
        let once = press(start, Press::Toggle);
        let twice = press(once.is_open, Press::Toggle);
        assert_eq!(twice.is_open, start);
    }
}

#[test]
fn choosing_an_option_announces_its_code_and_closes_the_list() {
    for start in [false, true] {
        let step = press(start, Press::Choose(Language::Ru));
        assert_eq!(step, Step { is_open: false, announced: Some("ru".to_string()) });
        let step = press(start, Press::Choose(Language::En));
        assert_eq!(step, Step { is_open: false, announced: Some("en".to_string()) });
    }
}

#[test]
fn routes_lead_to_the_home_page_of_their_language() {
    assert_eq!(switch(Route::Ru), Target::Home(HomeProps { lang: "ru".to_string() }));
    assert_eq!(switch(Route::En), Target::Home(HomeProps { lang: "en".to_string() }));
    assert_eq!(switch(Route::Root), Target::Redirect(Route::Ru));
    match switch(Route::Root) {
        Target::Redirect(next) => assert!(matches!(switch(next), Target::Home(_))),
        Target::Home(_) => panic!("the root redirects"),
    }
}

#[test]
fn home_hands_its_language_to_every_part() {
    for code in ["ru", "en", "de", ""] {
        let parts = home(&HomeProps { lang: code.to_string() });
        assert_eq!(parts.switcher.current_lang, code);
        assert_eq!(parts.hero.language, code);
        assert_eq!(parts.about.language, code);
        assert_eq!(parts.portfolio.language, code);
        assert_eq!(parts.contact.language, code);
        assert_eq!(parts.footer.language, code);
    }
}
