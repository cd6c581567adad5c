//! Verified core of the GitReal backend: the decisions and data shaping that
//! sit between the HTTP handlers and the database queries.

pub mod api;
pub mod commit;
pub mod decimal;
pub mod reactions;
pub mod user;
