//! Authentication and authorization core of a list-sharing service: parsing of
//! HTTP Basic credentials, the decisions of the authentication guard, and the
//! rules that say who may see or change an entry.

pub mod access;
pub mod credentials;
pub mod endpoints;
pub mod guard;
pub mod password;
pub mod text;
