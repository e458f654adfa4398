//! Validated subscriber data and the construction of transactional e-mail
//! requests for a mailing-list service.

pub mod configuration;
pub mod domain;
pub mod email;
pub mod json;
pub mod routes;
pub mod secret;
pub mod text;
