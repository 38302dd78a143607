//! Compiles a data-model description (objects with typed attributes, and closed
//! enumerations) into a description of the types to generate: field shapes,
//! accessors, builder settings, serialization hints and enum variants.

pub mod codec;
pub mod enums;
pub mod field;
pub mod model;
pub mod names;

pub use names::is_reserved;
