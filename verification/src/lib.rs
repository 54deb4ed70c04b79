//! The identity and access-control core of a translation-management
//! service, with the few pure decisions of its HTTP surface.
//!
//! - `role`: the two-valued permission tag and its canonical text.
//! - `credentials`: salted one-way password hashes and their check.
//! - `token`: signed session tokens that assert a user name.
//! - `user`: the identity record and its session lifecycle.
//! - `gate`: resolution of the caller and the role check every operation
//!   passes through.
//! - `cors`, `export`, `command`: the response policy, the export formats
//!   and the flat shape of a command's answer.
//! - `error`: the closed set of failures.
//! - `text`, `json`, `clock`: comparison of text, JSON values, the wall
//!   clock.

pub mod clock;
pub mod command;
pub mod cors;
pub mod credentials;
pub mod error;
pub mod export;
pub mod gate;
pub mod json;
pub mod role;
pub mod text;
pub mod token;
pub mod user;
