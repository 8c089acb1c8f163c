//! A binding generator for graphics API registries.
//!
//! A raw [`registry::Registry`] lists every constant, function and type
//! alias that a registry document declares, together with the version,
//! profile and extension annotations that gate each definition.  The
//! [`resolve`] module computes the subset that applies to one request (an
//! API family, a version, a profile and a list of extensions), and the
//! generator modules turn that resolved subset into source fragments in
//! one of several binding layouts.

#![verifier::loop_isolation(false)]

pub mod emit;
pub mod gen_global;
pub mod gen_static;
pub mod gen_struct;
pub mod gen_static_struct;
pub mod error;
pub mod registry;
pub mod resolve;
pub mod selection;
pub mod text;
pub mod types;
