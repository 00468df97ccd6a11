//! Typed HTTP body extraction and response encoding over a reflection-driven
//! codec.
//!
//! Two extractor/responder pairs share one shape: a content-type guard that
//! runs once per request, a resumable extraction state machine that waits for
//! the body and then decodes it, and a rejection type per wire format that
//! maps every failure onto an HTTP status code and a message. The JSON format
//! additionally encodes outbound values into response parts.

pub mod bytes;
pub mod form;
pub mod json;
pub mod media;
pub mod outside;
pub mod request;
