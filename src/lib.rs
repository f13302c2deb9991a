//! Typed bridging between handles of a managed runtime and validated Cedar values.
pub mod error;
pub mod names;
pub mod cedar;
pub mod classes;
pub mod qualified;
pub mod entity;
pub mod objects;
