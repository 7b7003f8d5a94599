//! Client-side logic for a postal-code lookup service.
//!
//! Given a postal code, the service is queried over HTTPS with a single GET
//! request and answers with a JSON payload holding zero or more address
//! records.  This crate holds the verified part of that pipeline: building
//! the request URI, classifying the HTTP status, and turning a decoded
//! payload into the caller-facing outcome (the first record, or a confirmed
//! absence).  The transport and the JSON decoder are outside collaborators;
//! the surrounding binary drives them and feeds their results to the
//! functions here.

pub mod client;
pub mod error;
pub mod laws;
pub mod model;
