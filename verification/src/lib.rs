//! Small, self-contained lessons on traits, generics, conversions and
//! platform-dependent configuration, each with a machine-checked contract.

pub mod adapters;
pub mod associated_type;
pub mod associated_type_restriction;
pub mod closures;
pub mod conversion;
pub mod copy;
pub mod dispatch;
pub mod generics;
pub mod hello_macro;
pub mod operators;
pub mod platform;
pub mod text;
pub mod trait_objects;
pub mod vehicle;
