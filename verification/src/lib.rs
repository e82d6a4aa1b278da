//! Conversion of CAD drawing text and entity tallies into the canonical
//! schematic-symbol model: the rich-text normalizer, the inline format
//! extractor, the text object builder and the entity statistics.

pub mod dynamictext;
pub mod format;
pub mod normalize;
pub mod number;
pub mod objects;
pub mod stats;
pub mod text;
pub mod xml;
