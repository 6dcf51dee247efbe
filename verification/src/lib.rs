//! A validating gateway for chess-opening recommendations: the decisions of the
//! request/response relay, stated and proved over plain values.

pub mod config;
pub mod exchange;
pub mod handlers;
pub mod models;
pub mod text;
pub mod upstream;
pub mod validation;
