//! A compile-time structural transformer for record-like type definitions.
//!
//! Given the structural description of a named-field record, the pipeline
//! validates its shape, appends a synthetic optional-text cache field under a
//! name guaranteed not to collide with the existing fields, and synthesizes
//! the description of the code to be emitted: an implementation of the
//! signing-capability interface backed by the cache field, a constructor over
//! the real fields, and one getter/setter pair per real field.
//!
//! The pipeline is a pure function from an input descriptor to either a
//! generated artifact or a validation error; no partial artifact is ever
//! produced. Parsing a language-level definition into a descriptor and
//! rendering the artifact back into source tokens are left to the host.

pub mod augment;
pub mod model;
pub mod names;
pub mod pipeline;
pub mod synth;
