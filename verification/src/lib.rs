//! Directory bookmarks: the bookmark collection, user settings, their
//! validation, lookup and table rendering.

pub mod cache;
pub mod codec;
pub mod command;
pub mod error;
pub mod pattern;
pub mod prompt;
pub mod record;
pub mod settings;
pub mod startup;
pub mod table;
