//! A stand-in for an email-sending and email-validation service.
//!
//! The crate holds the decisions of the service as plain functions from
//! values to values: what each endpoint answers, which routes exist, which
//! origins may call them, and when the server starts to drain. Sockets,
//! signals and the encoding of bodies are left to the program around it.

pub mod handlers;
pub mod model;
pub mod reply;
pub mod service;
pub mod shutdown;

pub use model::Checks;
pub use model::EmailAddressInfo;
pub use model::EmailRequest;
