//! Tagged pointers and tagged boxes: a small integer discriminant is kept in
//! the otherwise-unused high bits of a 64-bit machine word, so that a
//! discriminated-union value costs one word instead of a word plus a tag.
//!
//! The crate is organised bottom-up:
//!
//! - [`discriminant`] fixes the bit-width policy: how many low bits of a word
//!   address memory and how many high bits carry the discriminant.
//! - [`tagged_pointer`] packs and unpacks a discriminant and an address into
//!   one word; every operation is a handful of proved bitwise steps.
//! - [`tagged_box`] wraps one word together with an owned payload and keeps
//!   the invariant that the word's discriminant names the payload's variant.
//! - [`taggable`] states the capability contract a discriminated-union type
//!   must meet to live inside a tagged box.
//! - [`tagged_union`] holds discriminated unions written out by hand along
//!   the generation scheme: one ordinal table per union, consumed identically
//!   by encoding and both decoding operations.

pub mod discriminant;
pub mod taggable;
pub mod tagged_box;
pub mod tagged_pointer;
pub mod tagged_union;

pub use discriminant::Discriminant;
pub use taggable::TaggableContainer;
pub use taggable::TaggableInner;
pub use tagged_box::TaggedBox;
pub use tagged_pointer::TaggedPointer;
