//! A verified users CRUD resource: the persistence-mapping rules by which
//! requests are turned into document-store operations and store results are
//! turned back into HTTP-style outcomes, together with an in-memory document
//! store against which the whole pipeline is proved.

pub mod laws;
pub mod object_id;
pub mod outcome;
pub mod service;
pub mod store;
pub mod user;
