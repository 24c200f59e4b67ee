//! The pages of the site.

pub mod home;
