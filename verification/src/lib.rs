//! An HTTP/1.1 request and response engine for a small inventory service,
//! with every function proved against its contract.
//!
//! The engine reads the head of a request line by line ([`request`]),
//! decodes a form-encoded body ([`form`]), finds the handler for the path
//! ([`route`]), lets the handler decide what to ask of the store and what
//! to reply ([`store`] and the controllers) and frames the response
//! ([`response`]). [`connection`] ties these together for one connection.
//! The library does no input or output: its caller reads and writes,
//! queries the store and renders the pages ([`pages`]).

pub mod connection;
pub mod controller;
pub mod date;
pub mod employee_controller;
pub mod form;
pub mod model;
pub mod number;
pub mod pages;
pub mod request;
pub mod response;
pub mod store;
pub mod tech_controller;
pub mod unit_controller;
pub mod route;
pub mod text;
