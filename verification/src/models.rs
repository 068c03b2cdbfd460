//! Typed response records of the game API.

pub mod badge_urls;
pub mod clan;
