//! Session tokens, e-mail verification codes and per-user request quotas
//! for a web service where students comment on and rate courses, with their rules proved.

pub mod store;
pub mod crypto;
pub mod ambient;
pub mod rate;
pub mod session;
pub mod register;
pub mod config;
pub mod response;
pub mod comment;
