use portfolio_content::content::{
    get_about_content, get_contact_content, get_content, get_footer_content, get_hero_content,
    get_portfolio_content, AboutContent, ContactContent, Content, FooterContent, HeroContent,
    LangContent, PortfolioContent, Project, Skill, SocialNetwork, WorkExperience,
};
use portfolio_content::store::{load, ContentError};

fn locale(tag: &str, year: &str, link: Option<&str>) -> LangContent {
    LangContent {
        hero: HeroContent {
            title: format!("Hero {tag}"),
            subtitle: format!("Tagline {tag}"),
            logo: "/static/logo.png".to_string(),
        },
        about: AboutContent {
            photo: "/static/photo.jpg".to_string(),
            title: format!("About {tag}"),
            description: format!("Text {tag}"),
            skills: vec![format!("First {tag}"), format!("Second {tag}"), format!("First {tag}")],
            work_experience_title: format!("Work {tag}"),
            work_experience: vec![WorkExperience {
                year: year.to_string(),
                position: format!("Engineer {tag}"),
                company: format!("Acme {tag}"),
                description: vec![format!("Built {tag}"), format!("Shipped {tag}")],
            }],
        },
        portfolio: PortfolioContent {
            title: format!("Portfolio {tag}"),
            projects_title: format!("Projects {tag}"),
            skills_title: format!("Skills {tag}"),
            projects: vec![Project {
                name: format!("Project {tag}"),
                description: vec![format!("Does things {tag}")],
                link: link.map(str::to_string),
                technologies: vec!["Rust".to_string(), "Yew".to_string()],
            }],
            skills: vec![Skill { name: "Rust".to_string(), level: 73 }],
        },
        contact: ContactContent {
            title: format!("Contact {tag}"),
            phone: "89991234567".to_string(),
            phone_label: format!("Phone {tag}"),
            email: "me@example.com".to_string(),
            email_label: format!("Email {tag}"),
            social_title: format!("Social {tag}"),
            social_networks: vec![SocialNetwork {
                name: "GitHub".to_string(),
                url: "https://github.com/example".to_string(),
                icon: "fab fa-github".to_string(),
            }],
        },
        footer: FooterContent {
            copyright: format!("Copyright {tag}"),
            credits: format!("Credits {tag}"),
        },
    }
}

fn document() -> Content {
    Content {
        ru: locale("ru", "2018", None),
        en: locale("en", "2021 - 2024", Some("https://example.com/project")),
    }
}

#[test]
fn load_without_text_is_unavailable() {
    assert_eq!(load(None), Err(ContentError::Unavailable));
}

#[test]
fn load_of_undecodable_text_is_malformed() {
    assert_eq!(load(Some(None)), Err(ContentError::Malformed));
}

#[test]
fn load_of_decoded_text_yields_the_whole_content_unchanged() {
    let content = document();
    let loaded = load(Some(Some(content.clone()))).expect("decoded content loads");
    assert_eq!(loaded, content);
    assert_eq!(loaded.ru.about.work_experience[0].year, "2018");
    assert_eq!(loaded.ru.contact.phone, "89991234567");
    assert_eq!(loaded.ru.portfolio.projects[0].link, None);
    assert_eq!(
        loaded.en.portfolio.projects[0].link,
        Some("https://example.com/project".to_string())
    );
    let skills = &loaded.ru.about.skills;
    assert_eq!(skills, &vec!["First ru".to_string(), "Second ru".to_string(), "First ru".to_string()]);
}

#[test]
fn loading_twice_gives_equal_content() {
    let first = load(Some(Some(document())));
    let second = load(Some(Some(document())));
    assert!(first.is_ok());
    assert_eq!(first, second);
    assert_eq!(load(Some(None)), load(Some(None)));
    assert_eq!(load(None), load(None));
    assert_ne!(load(None), load(Some(None)));
}

#[test]
fn errors_describe_themselves() {
    assert_eq!(ContentError::Unavailable.message(), "content is unavailable");
    assert_eq!(ContentError::Malformed.message(), "content is malformed");
    assert_ne!(ContentError::Unavailable, ContentError::Malformed);
}

#[test]
fn supported_codes_resolve_to_their_content() {
    let content = document();
    assert_eq!(get_content(&content, "ru"), &content.ru);
    assert_eq!(get_content(&content, "en"), &content.en);
    assert_ne!(get_content(&content, "ru"), get_content(&content, "en"));
    for code in ["ru", "en"] {
        let locale = get_content(&content, code);
        assert_eq!(locale.hero.title, format!("Hero {code}"));
        assert_eq!(locale.about.title, format!("About {code}"));
        assert_eq!(locale.portfolio.title, format!("Portfolio {code}"));
        assert_eq!(locale.contact.title, format!("Contact {code}"));
        assert_eq!(locale.footer.copyright, format!("Copyright {code}"));
    }
}

#[test]
fn unknown_codes_resolve_as_ru() {
    let content = document();
    for code in ["de", "", "EN", "En", "english", "ru ", "рус"] {
        assert_eq!(get_content(&content, code), get_content(&content, "ru"), "code {code:?}");
    }
}

#[test]
fn section_accessors_project_the_resolved_content() {
    let content = document();
    for code in ["ru", "en", "xx"] {
        let locale = get_content(&content, code);
        assert_eq!(get_hero_content(&content, code), &locale.hero);
        assert_eq!(get_about_content(&content, code), &locale.about);
        assert_eq!(get_portfolio_content(&content, code), &locale.portfolio);
        assert_eq!(get_contact_content(&content, code), &locale.contact);
        assert_eq!(get_footer_content(&content, code), &locale.footer);
    }
    assert_eq!(get_hero_content(&content, "en").title, "Hero en");
    assert_eq!(get_footer_content(&content, "fr").copyright, "Copyright ru");
}
