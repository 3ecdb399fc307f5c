//! A music bot's command core: slash-style commands are looked up in a
//! registry, their loosely typed options are decoded against a declared
//! schema, a handler says which call on the remote music service comes next
//! or how the invocation ends, and every failure is rendered as one text.
//!
//! Nothing in this crate performs input or output. The program around it
//! delivers invocations, makes the remote calls that the handlers name and
//! sends the texts.

pub mod commands;
pub mod dispatch;
pub mod error;
pub mod link;
pub mod listing;
pub mod options;
pub mod registry;
pub mod schema;
pub mod service;
pub mod spotify;
pub mod text;
