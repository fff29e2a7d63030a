//! Helpers that do not depend on any one content source.

pub mod html_to_markdown;
