//! Core logic of a small static web site server: the route table, the
//! selection of a page template for each page route, the construction of
//! HTTP responses from handler outcomes, and the parsing of the listening
//! port from the process configuration.
//!
//! The surrounding program wires these decisions to an HTTP server, a
//! template renderer and a static file server; everything the server
//! decides on its own is here, with contracts.

pub mod laws;
pub mod response;
pub mod routing;
pub mod startup;
pub mod text;
