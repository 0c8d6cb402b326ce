//! Typed attribute flags for terminal text styling.
//!
//! A terminal cell's style is a packed bitmask: one bit per stylistic
//! attribute (bold, blink, underline, ...) together with a colour-pair
//! field. [`Attributes`] wraps that bitmask, [`Attribute`] names a single
//! style, and the `|` operator composes them exactly as the packed
//! encoding does.
#![allow(non_camel_case_types)]

pub mod attributes;

pub use attributes::chtype;
pub use attributes::Attribute;
pub use attributes::Attributes;
