//! A minimal, composable request-dispatch core for an HTTP application.
//!
//! The crate provides the pieces that sit between a transport (which
//! delivers a method, a path, headers and a body) and the business logic
//! bound to each route: an [`HttpMethod`](method::HttpMethod) vocabulary,
//! compiled path patterns with named parameter segments, a
//! [`Router`](router::Router) that resolves `(method, path)` to a handler
//! and its extracted parameters, response conversion, a route-descriptor
//! table for introspection, and the consuming application builder that
//! accumulates all of it and finalizes into a servable application.
//!
//! Transport I/O, configuration loading and the command-line surface are
//! deliberately outside this crate's scope: the core consumes and produces
//! plain values only.

pub mod app;
pub mod cli;
pub mod descriptor;
pub mod dispatch;
pub mod method;
pub mod pattern;
pub mod response;
pub mod router;
pub mod strutil;
