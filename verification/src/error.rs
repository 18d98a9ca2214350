//! The failure classes of a map load.
//!
//! A load either produces a whole `Map` or fails with one of these values;
//! no partial document is ever returned.  The four data-decoding variants
//! carry the name of the tile layer whose payload was bad, so that authors
//! can find the offending layer in the editor.

use vstd::prelude::*;

verus! {

/// Why a map failed to load.
#[derive(Debug, Clone, PartialEq)]
pub enum LoadError {
    /// The document is not shaped like a map: a structurally required field
    /// is missing or has the wrong JSON type.
    MalformedDocument,
    /// A layer record declared a `type` string that is none of the four
    /// known layer shapes.  Such a layer is never silently coerced into a
    /// default shape.
    UnknownLayerType { declared_type: String, id: Option<u32>, name: String },
    /// The `data` string of a tile layer is not valid base64.
    InvalidEncoding { layer_name: String },
    /// The `compression` name of a tile layer is neither "zlib" nor "gzip".
    UnsupportedCompression { layer_name: String, scheme: String },
    /// The compressed payload of a tile layer is truncated or corrupt.
    CorruptData { layer_name: String },
    /// The decoded byte count of a tile layer is neither zero nor exactly
    /// four bytes per expected tile.
    SizeMismatch { layer_name: String },
}

} // verus!
