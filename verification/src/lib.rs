//! Build-time synthesis of web-route registrations from annotated function
//! declarations. The signature analyzer parses a declaration's parameter
//! list and classifies every typed parameter into one of four extraction
//! categories by the first path segment of its declared type; the handler
//! synthesizer turns the classified signature, the HTTP method keyword and
//! the annotated path into a route entry that extracts each parameter in a
//! fixed block order and calls the original function in declaration order.
//! A small helper builds the two address constants a service embeds.

pub mod addr;
pub mod analyze;
pub mod laws;
pub mod model;
pub mod parse;
pub mod synth;
