//! Value codecs and typed expression binding for SQL column types.
//!
//! A host value travels to the database as the payload bytes of a bound
//! parameter and comes back as the payload bytes of a result column. The
//! traits in [`types`] say how each host type is written and read for a given
//! SQL type tag, [`sink`] describes where payload bytes are written, and
//! [`expression`] lifts host values into expressions that carry their tag.

pub mod expression;
pub mod laws;
pub mod nullable;
pub mod pairs;
pub mod primitives;
pub mod row;
pub mod sink;
pub mod types;
