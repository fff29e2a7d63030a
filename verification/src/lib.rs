//! Previews of Hacker News links for a chat channel: finding the links in a
//! message, telling which of them name an item, walking from a comment up to
//! its story, and turning an HTML body into flat formatted text.

pub mod bot;
pub mod decimal;
pub mod hacker_news;
pub mod link;
pub mod preview;
pub mod text;
pub mod util;
