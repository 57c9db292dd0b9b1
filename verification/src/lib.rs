//! Incremental composition of Hangul syllable blocks from a stream of jamo,
//! and conversion of finished blocks to and from their composed characters.
//!
//! - [`chars`]: the jamo classes, the classifier, and the fusion tables.
//! - [`block`]: finished blocks and the codec between a block and its
//!   composed character.
//! - [`compose`]: the block composition state machine and the word composer.
//! - [`std_specs`]: what is taken from `std` without proof.

pub mod block;
pub mod chars;
pub mod compose;
pub mod std_specs;
