//! Attribute rules that append conventional binding methods to impl blocks,
//! and by-name conversions between two enums with the same variants.
//!
//! Each rule is a pure function from the text of an annotated item to the
//! text of the expanded item. The methods a rule adds are described by a
//! small model (`Method`), rendered to Rust source, and appended after the
//! items the block already holds.
pub mod text;
pub mod method;
pub mod syntax;
pub mod rules;
pub mod mapping;
pub mod dispatch;
