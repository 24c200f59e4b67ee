//! What each part of the page displays, computed from the content.

pub mod about_section;
pub mod contact_section;
pub mod footer_section;
pub mod hero_section;
pub mod language_switcher;
pub mod portfolio_section;
