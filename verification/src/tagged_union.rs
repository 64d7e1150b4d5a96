//! Discriminated unions written out by hand along the container-generation
//! scheme.
//!
//! Given an ordered list of variant declarations, the scheme produces, for
//! each union: the ordinal table ([`crate::taggable::VariantOrdinal`]), the
//! union type with the declared variant shapes, its
//! [`crate::taggable::TaggableInner`] implementation whose encoder and
//! decoders all branch over that one table, and a zero-overhead container
//! type holding one [`crate::tagged_box::TaggedBox`] of the union, with
//! conversions in from each single-field payload, from each multi-field
//! tuple, and from the union itself. What a macro or a build step would
//! emit, this module spells out, one union per shape mix the crate
//! exercises, so that every emitted arm is verified against the table
//! instead of trusted to match it.

pub mod choice;
pub mod item;
pub mod mixed;
pub mod quad;

pub use choice::Choice;
pub use choice::ChoiceContainer;
pub use item::Container;
pub use item::Item;
pub use mixed::Mixed;
pub use mixed::MixedContainer;
pub use quad::Quad;
pub use quad::QuadContainer;
