//! A connector that exposes a mail-delivery API through a declarative
//! query/mutation protocol. The heart of the library is the field
//! projection engine in [`fields`]: given a client's selection tree and a
//! JSON-shaped row, it returns exactly the requested shape, recursing into
//! nested object and array selections, or fails naming the field at fault.
//! Around it stand the value model ([`values`]), the request parsers
//! ([`query`], [`mutation`]), the wire types of the mail-delivery service
//! ([`sendgrid_api`], [`schema`]) and the configuration ([`configuration`]).
//!
//! Every function carries a contract that pins its result down to a
//! specification-level model; the transport around the library performs
//! the HTTP calls and hands rows in and out as plain values.

pub mod configuration;
pub mod connector;
pub mod fields;
pub mod mutation;
pub mod query;
pub mod schema;
pub mod sendgrid_api;
pub mod values;
