//! The verified core of a small blogging back end: error values, user and
//! post models, account validation, token issue and check, and the decision
//! steps of the request handlers and message consumers.
pub mod clock;
pub mod errors;
pub mod ids;
pub mod user_status;
pub mod token;
pub mod user;
pub mod pagination;
pub mod tags;
pub mod guards;
pub mod post;
pub mod consumer;
pub mod routes;
