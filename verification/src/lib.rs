//! Staged builders: a record's required fields are supplied one stage at a
//! time, in declaration order, before the optional ones and the final `build`.
//!
//! The library reads what is written for a record and its fields into
//! option sets ([`grammar`], [`overrides`], [`options`]), resolves the
//! declared fields into a schema ([`resolve`], [`schema`]), orders the
//! stages ([`stages`], [`terminal`]) and lays out what is to be written for
//! the record ([`expand`]). It also states the protocol that every builder
//! follows ([`protocol`]) and runs builders of a resolved schema
//! ([`instance`]). [`example_person`] holds a builder written out in full.

pub mod __private;
pub mod convert;
pub mod error;
pub mod example_person;
pub mod expand;
mod filter;
pub mod grammar;
pub mod instance;
pub mod lookup;
pub mod names;
pub mod options;
pub mod overrides;
pub mod protocol;
pub mod resolve;
pub mod schema;
pub mod stages;
pub mod terminal;
pub mod text;
pub mod validate;

pub use example_person::ExamplePerson;
pub use overrides::{CustomOverrides, FieldOverrides, MapOverrides, ParamOverrides, SeqOverrides};
pub use validate::Validate;
