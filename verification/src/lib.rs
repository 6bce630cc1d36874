//! A small vehicle-record service: routing of requests, lookup in a fixed
//! set of records, creation of a record from a JSON body, and the encoding
//! of each outcome as a response. Every function is a function of its
//! arguments; the one exception draws a random identifier.

pub mod create;
pub mod decimal;
pub mod encode;
pub mod handler;
pub mod json;
pub mod record;
pub mod response;
pub mod route;
pub mod text;
