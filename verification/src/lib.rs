//! Decoder for the layer mask / adjustment layer data sub-section of a
//! layered image document: a variable-length, self-describing binary blob
//! holding up to two mask descriptors and an optional parameter block.

pub mod cursor;
pub mod mask;
