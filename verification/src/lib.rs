//! Delivery of failure reports.
//!
//! A client sends a report of a failure. The report is rendered as the text
//! of an issue and filed with an issue tracker; where that cannot be done,
//! one line is written to the local log instead, for somebody to file by
//! hand. Either way the client gets an answer.
//!
//! This crate decides and renders; it does not send, read the environment
//! or log. The caller makes the one call to the tracker and writes the one
//! line, as `submit::begin` and `submit::conclude` tell it to.
//!
//! - `report`: the report and the answer.
//! - `render`: the body of the issue.
//! - `tracker`: the call that files an issue, and the verdict on the reply.
//! - `fallback`: the line that is logged in place of an issue.
//! - `submit`: the delivery from first step to answer.
//! - `text`: the text operations and facts the others rest on.

pub mod fallback;
pub mod render;
pub mod report;
pub mod submit;
pub mod text;
pub mod tracker;
