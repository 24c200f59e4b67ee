//! The content document: one complete set of page sections per supported language,
//! and the lookups that project a section out of it.
//!
//! Every type here has a mathematical model (its `deep_view`) in which strings are
//! sequences of characters and vectors are sequences; contracts speak of the models.

use vstd::prelude::*;
use crate::language::{language_of, Language};

verus! {

/// The banner at the top of the page.
#[derive(Clone, Debug, PartialEq, Eq)]
pub struct HeroContent {
    /// Display headline.
    pub title: String,
    /// Tagline shown under the headline.
    pub subtitle: String,
    /// Path of the logo asset.
    pub logo: String,
}

pub struct HeroModel {
    pub title: Seq<char>,
    pub subtitle: Seq<char>,
    pub logo: Seq<char>,
}

impl DeepView for HeroContent {
    type V = HeroModel;

    open spec fn deep_view(&self) -> HeroModel {
        HeroModel { title: self.title@, subtitle: self.subtitle@, logo: self.logo@ }
    }
}

/// One position in the work history.
#[derive(Clone, Debug, PartialEq, Eq)]
pub struct WorkExperience {
    /// Free-form label of the period: a year or a range of years.
    pub year: String,
    pub position: String,
    pub company: String,
    /// Bullet points, in display order. Each is trusted rich text: the page
    /// inserts it as markup.
    pub description: Vec<String>,
}

pub struct WorkExperienceModel {
    pub year: Seq<char>,
    pub position: Seq<char>,
    pub company: Seq<char>,
    pub description: Seq<Seq<char>>,
}

impl DeepView for WorkExperience {
    type V = WorkExperienceModel;

    open spec fn deep_view(&self) -> WorkExperienceModel {
        WorkExperienceModel {
            year: self.year@,
            position: self.position@,
            company: self.company@,
            description: self.description.deep_view(),
        }
    }
}

/// The "about me" section with the work history.
#[derive(Clone, Debug, PartialEq, Eq)]
pub struct AboutContent {
    /// Path of the portrait asset.
    pub photo: String,
    pub title: String,
    pub description: String,
    /// Skill labels, in display order.
    pub skills: Vec<String>,
    /// Heading of the work history.
    pub work_experience_title: String,
    /// Work history, in display order.
    pub work_experience: Vec<WorkExperience>,
}

pub struct AboutModel {
    pub photo: Seq<char>,
    pub title: Seq<char>,
    pub description: Seq<char>,
    pub skills: Seq<Seq<char>>,
    pub work_experience_title: Seq<char>,
    pub work_experience: Seq<WorkExperienceModel>,
}

impl DeepView for AboutContent {
    type V = AboutModel;

    open spec fn deep_view(&self) -> AboutModel {
        AboutModel {
            photo: self.photo@,
            title: self.title@,
            description: self.description@,
            skills: self.skills.deep_view(),
            work_experience_title: self.work_experience_title@,
            work_experience: self.work_experience.deep_view(),
        }
    }
}

/// One project of the portfolio.
#[derive(Clone, Debug, PartialEq, Eq)]
pub struct Project {
    pub name: String,
    /// Bullet points, in display order. Each is trusted rich text: the page
    /// inserts it as markup.
    pub description: Vec<String>,
    /// Address of the project, where it has one to show.
    pub link: Option<String>,
    /// Technology tags, in display order.
    pub technologies: Vec<String>,
}

pub struct ProjectModel {
    pub name: Seq<char>,
    pub description: Seq<Seq<char>>,
    pub link: Option<Seq<char>>,
    pub technologies: Seq<Seq<char>>,
}

impl DeepView for Project {
    type V = ProjectModel;

    open spec fn deep_view(&self) -> ProjectModel {
        ProjectModel {
            name: self.name@,
            description: self.description.deep_view(),
            link: self.link.deep_view(),
            technologies: self.technologies.deep_view(),
        }
    }
}

/// A skill with its proficiency.
#[derive(Clone, Debug, PartialEq, Eq)]
pub struct Skill {
    pub name: String,
    /// Proficiency as a percentage. Values above 100 are accepted as they are.
    pub level: u8,
}

pub struct SkillModel {
    pub name: Seq<char>,
    pub level: u8,
}

impl DeepView for Skill {
    type V = SkillModel;

    open spec fn deep_view(&self) -> SkillModel {
        SkillModel { name: self.name@, level: self.level }
    }
}

/// The portfolio section: projects and skills.
#[derive(Clone, Debug, PartialEq, Eq)]
pub struct PortfolioContent {
    pub title: String,
    pub projects_title: String,
    pub skills_title: String,
    pub projects: Vec<Project>,
    pub skills: Vec<Skill>,
}

pub struct PortfolioModel {
    pub title: Seq<char>,
    pub projects_title: Seq<char>,
    pub skills_title: Seq<char>,
    pub projects: Seq<ProjectModel>,
    pub skills: Seq<SkillModel>,
}

impl DeepView for PortfolioContent {
    type V = PortfolioModel;

    open spec fn deep_view(&self) -> PortfolioModel {
        PortfolioModel {
            title: self.title@,
            projects_title: self.projects_title@,
            skills_title: self.skills_title@,
            projects: self.projects.deep_view(),
            skills: self.skills.deep_view(),
        }
    }
}

/// A profile on a social network.
#[derive(Clone, Debug, PartialEq, Eq)]
pub struct SocialNetwork {
    pub name: String,
    pub url: String,
    /// Symbolic name of the icon in the page's icon set.
    pub icon: String,
}

pub struct SocialNetworkModel {
    pub name: Seq<char>,
    pub url: Seq<char>,
    pub icon: Seq<char>,
}

impl DeepView for SocialNetwork {
    type V = SocialNetworkModel;

    open spec fn deep_view(&self) -> SocialNetworkModel {
        SocialNetworkModel { name: self.name@, url: self.url@, icon: self.icon@ }
    }
}

/// The contact section.
#[derive(Clone, Debug, PartialEq, Eq)]
pub struct ContactContent {
    pub title: String,
    /// Phone number as displayed.
    pub phone: String,
    pub phone_label: String,
    pub email: String,
    pub email_label: String,
    pub social_title: String,
    pub social_networks: Vec<SocialNetwork>,
}

pub struct ContactModel {
    pub title: Seq<char>,
    pub phone: Seq<char>,
    pub phone_label: Seq<char>,
    pub email: Seq<char>,
    pub email_label: Seq<char>,
    pub social_title: Seq<char>,
    pub social_networks: Seq<SocialNetworkModel>,
}

impl DeepView for ContactContent {
    type V = ContactModel;

    open spec fn deep_view(&self) -> ContactModel {
        ContactModel {
            title: self.title@,
            phone: self.phone@,
            phone_label: self.phone_label@,
            email: self.email@,
            email_label: self.email_label@,
            social_title: self.social_title@,
            social_networks: self.social_networks.deep_view(),
        }
    }
}

/// The page footer.
#[derive(Clone, Debug, PartialEq, Eq)]
pub struct FooterContent {
    pub copyright: String,
    pub credits: String,
}

pub struct FooterModel {
    pub copyright: Seq<char>,
    pub credits: Seq<char>,
}

impl DeepView for FooterContent {
    type V = FooterModel;

    open spec fn deep_view(&self) -> FooterModel {
        FooterModel { copyright: self.copyright@, credits: self.credits@ }
    }
}

/// Everything the page shows in one language: all five sections.
#[derive(Clone, Debug, PartialEq, Eq)]
pub struct LangContent {
    pub hero: HeroContent,
    pub about: AboutContent,
    pub portfolio: PortfolioContent,
    pub contact: ContactContent,
    pub footer: FooterContent,
}

pub struct LangModel {
    pub hero: HeroModel,
    pub about: AboutModel,
    pub portfolio: PortfolioModel,
    pub contact: ContactModel,
    pub footer: FooterModel,
}

impl DeepView for LangContent {
    type V = LangModel;

    open spec fn deep_view(&self) -> LangModel {
        LangModel {
            hero: self.hero.deep_view(),
            about: self.about.deep_view(),
            portfolio: self.portfolio.deep_view(),
            contact: self.contact.deep_view(),
            footer: self.footer.deep_view(),
        }
    }
}

/// The whole document: the content in each supported language.
#[derive(Clone, Debug, PartialEq, Eq)]
pub struct Content {
    pub ru: LangContent,
    pub en: LangContent,
}

pub struct ContentModel {
    pub ru: LangModel,
    pub en: LangModel,
}

impl DeepView for Content {
    type V = ContentModel;

    open spec fn deep_view(&self) -> ContentModel {
        ContentModel { ru: self.ru.deep_view(), en: self.en.deep_view() }
    }
}

impl Content {
    /// The content in `language`.
    pub open spec fn spec_locale(self, language: Language) -> LangContent {
        match language {
            Language::Ru => self.ru,
            Language::En => self.en,
        }
    }

    /// The content in `language`.
    pub fn locale(&self, language: Language) -> (r: &LangContent)
        ensures
            *r == self.spec_locale(language),
    {
        match language {
            Language::Ru => &self.ru,
            Language::En => &self.en,
        }
    }
}

/// The content that a language code selects from a document: the English content
/// for `"en"`, the Russian content for every other code.
pub open spec fn resolved(content: Content, lang: Seq<char>) -> LangContent {
    content.spec_locale(language_of(lang))
}

/// The content for the language code `lang`. A code that names no supported
/// language selects the Russian content.
pub fn get_content<'a>(content: &'a Content, lang: &str) -> (r: &'a LangContent)
    ensures
        *r == resolved(*content, lang@),
{
    content.locale(Language::from_code(lang))
}

/// The hero section for the language code `lang`.
pub fn get_hero_content<'a>(content: &'a Content, lang: &str) -> (r: &'a HeroContent)
    ensures
        *r == resolved(*content, lang@).hero,
{
    &get_content(content, lang).hero
}

/// The about section for the language code `lang`.
pub fn get_about_content<'a>(content: &'a Content, lang: &str) -> (r: &'a AboutContent)
    ensures
        *r == resolved(*content, lang@).about,
{
    &get_content(content, lang).about
}

/// The portfolio section for the language code `lang`.
pub fn get_portfolio_content<'a>(content: &'a Content, lang: &str) -> (r: &'a PortfolioContent)
    ensures
        *r == resolved(*content, lang@).portfolio,
{
    &get_content(content, lang).portfolio
}

/// The contact section for the language code `lang`.
pub fn get_contact_content<'a>(content: &'a Content, lang: &str) -> (r: &'a ContactContent)
    ensures
        *r == resolved(*content, lang@).contact,
{
    &get_content(content, lang).contact
}

/// The footer for the language code `lang`.
pub fn get_footer_content<'a>(content: &'a Content, lang: &str) -> (r: &'a FooterContent)
    ensures
        *r == resolved(*content, lang@).footer,
{
    &get_content(content, lang).footer
}

/// The code of each supported language selects that language's content.
pub proof fn lemma_supported_codes_resolve(content: Content)
    ensures
        resolved(content, "ru"@) == content.ru,
        resolved(content, "en"@) == content.en,
{
    crate::language::lemma_code_round_trip(Language::Ru);
    crate::language::lemma_code_round_trip(Language::En);
}

/// Every supported language resolves, by its code, to its own content with all
/// five sections: what the accessors give for that code are the sections of that
/// language.
pub proof fn lemma_every_language_resolves(content: Content, language: Language)
    ensures
        resolved(content, language.spec_code()) == content.spec_locale(language),
        resolved(content, language.spec_code()).hero == content.spec_locale(language).hero,
        resolved(content, language.spec_code()).about == content.spec_locale(language).about,
        resolved(content, language.spec_code()).portfolio == content.spec_locale(
            language,
        ).portfolio,
        resolved(content, language.spec_code()).contact == content.spec_locale(language).contact,
        resolved(content, language.spec_code()).footer == content.spec_locale(language).footer,
{
    crate::language::lemma_code_round_trip(language);
}

/// A code that names no supported language selects what `"ru"` selects.
pub proof fn lemma_unknown_code_falls_back(content: Content, lang: Seq<char>)
    requires
        lang != "ru"@,
        lang != "en"@,
    ensures
        resolved(content, lang) == resolved(content, "ru"@),
{
    lemma_supported_codes_resolve(content);
}

} // verus!
