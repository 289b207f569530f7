//! The verified core of a model code generator.
//!
//! A model annotation turns one struct declaration into an augmented model
//! type: a constructor, structural comparison, a recursive conversion to a
//! dynamic key/value mapping, JSON encode and decode, schema export and a
//! validator hook. This crate holds the two stages of the generator and the
//! rules the emitted behaviour follows:
//!
//! * [`shape`] and [`syntax`]: the declaration model, its classification
//!   into named or positional fields, and reading it from source text;
//! * [`emit`]: the source text emitted for a classified declaration;
//! * [`convert`], [`emitted`], [`codec`], [`schema`], [`validators`]: the
//!   conversion capability, models as run-time values, and the outcome of
//!   the JSON, schema and validator accessors;
//! * [`error`]: the one error kind of all of them.
//!
//! Binding the emitted types to a foreign runtime is left to the crate
//! that embeds them.

pub mod error;
pub mod shape;
pub mod text;
pub mod syntax;
pub mod emit;
pub mod validators;
pub mod convert;
pub mod emitted;
pub mod codec;
pub mod schema;

pub use crate::convert::ToModelDict;
pub use crate::emit::model;
pub use crate::error::OrdanticError;
pub use crate::validators::ValidatorIterator;
