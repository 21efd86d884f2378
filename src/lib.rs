//! Deterministic, human-readable text renderings of values.
//!
//! The [`SporePrint`] trait renders a value as text. Its contract ties every
//! rendering to a mathematical model (`rendered`), so the shape of the output
//! for primitives, containers, tuples, ranges and user-defined aggregates is
//! fixed and proved, not merely tested.
//!
//! - [`render`]: the trait, primitives, strings, references, `Option`, `Result`.
//! - [`compound`]: slices, vectors, arrays, tuples and ranges.
//! - [`hashed`]: `HashSet` and `HashMap`, in their walk order.
//! - [`shape`]: structs and enums, from their declared field shape.
//! - [`text`]: decimal numbers and separator-joined lists.
pub mod compound;
pub mod hashed;
pub mod render;
pub mod shape;
pub mod text;

pub use compound::format_items;
pub use render::{render_to_text, SporePrint};
pub use shape::{
    render_fields, render_shape, render_struct, render_variant, FieldList, TypeShape, VariantShape,
};
