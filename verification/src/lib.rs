//! A schema-driven codec for the wire format of a bot-API service.
//!
//! The heart of the crate is a small, closed set of field [`shape::Shape`]s
//! and one generic engine ([`codec`]) that decodes, encodes, renders and
//! defaults whole records against an ordered field schema.  The record
//! catalogue ([`catalog`]) composes those shapes into the concrete record
//! types of the service, and [`bot`] builds the request strings of the
//! service's remote procedures from typed arguments.

pub mod value;
pub mod num;
pub mod text;
pub mod shape;
pub mod codec;
pub mod laws;
pub mod catalog;
pub mod entity;
pub mod bot;
