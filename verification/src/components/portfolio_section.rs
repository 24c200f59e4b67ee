//! What the portfolio section displays: a card for each project and a bar for
//! each skill.

use vstd::prelude::*;
use vstd::string::*;
use crate::content::{
    get_portfolio_content, resolved, Content, PortfolioContent, PortfolioModel, Project,
    ProjectModel, Skill, SkillModel,
};
use crate::text::{copy_all, decimal, join, numeral, push_char};

verus! {

/// What the section is given: the code of the language to display.
#[derive(Clone, Debug, PartialEq, Eq)]
pub struct Props {
    pub language: String,
}

/// The link that invites the reader to open a project.
#[derive(Clone, Debug, PartialEq, Eq)]
pub struct CallToAction {
    /// Where the link points.
    pub href: String,
    /// The text of the link.
    pub label: String,
}

pub struct CallToActionModel {
    pub href: Seq<char>,
    pub label: Seq<char>,
}

impl DeepView for CallToAction {
    type V = CallToActionModel;

    open spec fn deep_view(&self) -> CallToActionModel {
        CallToActionModel { href: self.href@, label: self.label@ }
    }
}

/// A project as displayed.
#[derive(Clone, Debug, PartialEq, Eq)]
pub struct ProjectCard {
    pub name: String,
    /// The link to the project, where there is one to show.
    pub call_to_action: Option<CallToAction>,
    pub description: Vec<String>,
    pub technologies: Vec<String>,
}

pub struct ProjectCardModel {
    pub name: Seq<char>,
    pub call_to_action: Option<CallToActionModel>,
    pub description: Seq<Seq<char>>,
    pub technologies: Seq<Seq<char>>,
}

impl DeepView for ProjectCard {
    type V = ProjectCardModel;

    open spec fn deep_view(&self) -> ProjectCardModel {
        ProjectCardModel {
            name: self.name@,
            call_to_action: self.call_to_action.deep_view(),
            description: self.description.deep_view(),
            technologies: self.technologies.deep_view(),
        }
    }
}

/// A skill as displayed: its name, its level as a label, and the style that
/// fills the bar to that level.
#[derive(Clone, Debug, PartialEq, Eq)]
pub struct SkillBar {
    pub name: String,
    pub label: String,
    pub style: String,
}

pub struct SkillBarModel {
    pub name: Seq<char>,
    pub label: Seq<char>,
    pub style: Seq<char>,
}

impl DeepView for SkillBar {
    type V = SkillBarModel;

    open spec fn deep_view(&self) -> SkillBarModel {
        SkillBarModel { name: self.name@, label: self.label@, style: self.style@ }
    }
}

/// The portfolio section as displayed.
#[derive(Clone, Debug, PartialEq, Eq)]
pub struct PortfolioView {
    pub title: String,
    pub projects_title: String,
    pub projects: Vec<ProjectCard>,
    pub skills_title: String,
    pub skills: Vec<SkillBar>,
}

pub struct PortfolioViewModel {
    pub title: Seq<char>,
    pub projects_title: Seq<char>,
    pub projects: Seq<ProjectCardModel>,
    pub skills_title: Seq<char>,
    pub skills: Seq<SkillBarModel>,
}

impl DeepView for PortfolioView {
    type V = PortfolioViewModel;

    open spec fn deep_view(&self) -> PortfolioViewModel {
        PortfolioViewModel {
            title: self.title@,
            projects_title: self.projects_title@,
            projects: self.projects.deep_view(),
            skills_title: self.skills_title@,
            skills: self.skills.deep_view(),
        }
    }
}

/// The call to action of a project: none for a project without a link, and for a
/// project with a link exactly one, which points at the link.
pub open spec fn call_to_action_of(link: Option<Seq<char>>) -> Option<CallToActionModel> {
    match link {
        Some(url) => Some(CallToActionModel { href: url, label: "View Project"@ }),
        None => None,
    }
}

/// The label of a level: its decimal numeral and a percent sign.
pub open spec fn level_label_of(level: u8) -> Seq<char> {
    numeral(level as nat).push('%')
}

/// The style that fills a bar to a level: the width as a percentage.
pub open spec fn level_style_of(level: u8) -> Seq<char> {
    "width: "@ + level_label_of(level)
}

/// A project as displayed.
pub open spec fn project_card_of(project: ProjectModel) -> ProjectCardModel {
    ProjectCardModel {
        name: project.name,
        call_to_action: call_to_action_of(project.link),
        description: project.description,
        technologies: project.technologies,
    }
}

/// A skill as displayed.
pub open spec fn skill_bar_of(skill: SkillModel) -> SkillBarModel {
    SkillBarModel {
        name: skill.name,
        label: level_label_of(skill.level),
        style: level_style_of(skill.level),
    }
}

/// The portfolio section as displayed: the headings as they are, a card for each
/// project and a bar for each skill, in the order of the content.
pub open spec fn portfolio_view_of(portfolio: PortfolioModel) -> PortfolioViewModel {
    PortfolioViewModel {
        title: portfolio.title,
        projects_title: portfolio.projects_title,
        projects: Seq::new(portfolio.projects.len(), |i: int| project_card_of(portfolio.projects[i])),
        skills_title: portfolio.skills_title,
        skills: Seq::new(portfolio.skills.len(), |i: int| skill_bar_of(portfolio.skills[i])),
    }
}

/// The call to action for a project's link.
pub fn call_to_action(link: &Option<String>) -> (r: Option<CallToAction>)
    ensures
        r.deep_view() == call_to_action_of(link.deep_view()),
{
    match link {
        Some(url) => Some(
            CallToAction { href: url.clone(), label: String::from_str("View Project") },
        ),
        None => None,
    }
}

/// The label of a level, such as `73%`.
pub fn level_label(level: u8) -> (r: String)
    ensures
        r@ == level_label_of(level),
{
    let mut label = decimal(level);
    push_char(&mut label, '%');
    label
}

/// The style that fills a bar to a level, such as `width: 73%`.
pub fn level_style(level: u8) -> (r: String)
    ensures
        r@ == level_style_of(level),
{
    let label = level_label(level);
    join("width: ", label.as_str())
}

/// Lays out one project.
pub fn project_card(project: &Project) -> (r: ProjectCard)
    ensures
        r.deep_view() == project_card_of(project.deep_view()),
{
    ProjectCard {
        name: project.name.clone(),
        call_to_action: call_to_action(&project.link),
        description: copy_all(&project.description),
        technologies: copy_all(&project.technologies),
    }
}

/// Lays out one skill.
pub fn skill_bar(skill: &Skill) -> (r: SkillBar)
    ensures
        r.deep_view() == skill_bar_of(skill.deep_view()),
{
    SkillBar {
        name: skill.name.clone(),
        label: level_label(skill.level),
        style: level_style(skill.level),
    }
}

/// Lays out a portfolio section.
pub fn portfolio_view(portfolio: &PortfolioContent) -> (r: PortfolioView)
    ensures
        r.deep_view() == portfolio_view_of(portfolio.deep_view()),
{
    let mut projects: Vec<ProjectCard> = Vec::new();
    let mut i: usize = 0;
    while i < portfolio.projects.len()
        invariant
            i <= portfolio.projects.len(),
            projects.len() == i,
            forall|j: int|
                0 <= j < i ==> (#[trigger] projects@[j]).deep_view() == project_card_of(
                    portfolio.projects@[j].deep_view(),
                ),
        decreases portfolio.projects.len() - i,
    {
        projects.push(project_card(&portfolio.projects[i]));
        i += 1;
    }
    let mut skills: Vec<SkillBar> = Vec::new();
    let mut k: usize = 0;
    while k < portfolio.skills.len()
        invariant
            k <= portfolio.skills.len(),
            skills.len() == k,
            forall|j: int|
                0 <= j < k ==> (#[trigger] skills@[j]).deep_view() == skill_bar_of(
                    portfolio.skills@[j].deep_view(),
                ),
        decreases portfolio.skills.len() - k,
    {
        skills.push(skill_bar(&portfolio.skills[k]));
        k += 1;
    }
    let view = PortfolioView {
        title: portfolio.title.clone(),
        projects_title: portfolio.projects_title.clone(),
        projects,
        skills_title: portfolio.skills_title.clone(),
        skills,
    };
    proof {
        let expected = portfolio_view_of(portfolio.deep_view());
        assert(view.projects.deep_view() =~= expected.projects);
        assert(view.skills.deep_view() =~= expected.skills);
    }
    view
}

/// What the portfolio section displays for the language of `props`.
pub fn portfolio_section(props: &Props, content: &Content) -> (r: PortfolioView)
    ensures
        r.deep_view() == portfolio_view_of(
            resolved(*content, props.language@).portfolio.deep_view(),
        ),
{
    portfolio_view(get_portfolio_content(content, props.language.as_str()))
}

} // verus!
