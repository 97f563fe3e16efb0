//! Core logic of a portfolio asset service: the point-record alignment codec,
//! the streaming contract for stored assets, and the decisions behind the
//! upload, listing, catalogue and login endpoints.

pub mod codec;
pub mod text;
pub mod stream;
pub mod stats;
pub mod status;
pub mod ids;
pub mod records;
pub mod catalog;
pub mod auth;
pub mod uploads;
pub mod listing;
pub mod files;
pub mod removal;
