//! The core of a derive macro that gives a record type a builder.
//!
//! Generation has two parts. The classifier ([`classify`]) decides for each
//! field whether its declared type is `Option<T>`, which makes the field
//! optional, or anything else, which makes it required. The synthesizer
//! ([`synth`]) turns the classified fields into the definitions of the
//! builder: its slots, its setters, its finalizer and the factory on the
//! record type. [`render`] writes those definitions out as source text.
//!
//! [`runtime`] says what the generated definitions do when they run, and
//! [`laws`] proves what holds of every builder.

pub mod classify;
pub mod error;
pub mod laws;
pub mod record;
pub mod render;
pub mod runtime;
pub mod synth;
pub mod type_expr;
