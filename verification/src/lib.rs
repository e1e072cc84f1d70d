//! A shared shopping-list service: the verified core.
//!
//! Everything that decides something (which cookie carries the session, which
//! language a visitor gets, who may see a list, which change notifications reach
//! which socket) lives here with a contract. The HTTP server, the database and
//! the template engine live in the application crate around it.

pub mod text;
pub mod headers;
pub mod cookie_tools;
pub mod i18n;
pub mod localize;
pub mod json;
pub mod auth;
pub mod sql;
pub mod users;
pub mod families;
pub mod lists;
pub mod images;
pub mod flows;
pub mod passkeys;
