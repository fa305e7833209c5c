//! The decision core of a small read-only book catalogue service.
//!
//! The service answers two requests: a liveness probe and a listing of every
//! row of the `books` table. Everything that touches the network, the
//! database or the process environment is left to the program around this
//! library; what is verified here is what that program is told to do next and
//! what it finally answers, for every outcome of the outside work.

pub mod book;
pub mod http;
pub mod listing;
pub mod routes;
pub mod startup;
