//! A read-only loader for maps exported by the Tiled editor in its JSON
//! format.
//!
//! The loader turns a generic JSON document into a tree of `TileMap`,
//! `Layer`, `Tileset`, `Tile`, `Object` and `Property` values.  A caller
//! reads and tokenizes the file with any JSON reader (see
//! `load_map_from_json`).  Tile-grid layers may
//! carry their data as a plain integer array or as a base64 string that is
//! optionally zlib- or gzip-compressed; the decoder turns either form into a
//! sequence of 32-bit global tile identifiers (gids) and reports malformed
//! payloads precisely instead of panicking.
//!
//! The top three bits of a gid are flip flags (horizontal, vertical,
//! diagonal); the helpers below test and strip them.

pub mod color;
pub mod error;
pub mod json;
pub mod layer;
pub mod layerreader;
pub mod map;
pub mod object;
pub mod property;
pub mod tileset;

use vstd::prelude::*;

verus! {

pub const HORZ_FLIP_FLAG: u32 = 0x8000_0000;
pub const VERT_FLIP_FLAG: u32 = 0x4000_0000;
pub const DIAG_FLIP_FLAG: u32 = 0x2000_0000;

/// The three flag bits of a gid, taken together.
pub open spec fn spec_gid_flags(gid: u32) -> u32 {
    gid & (HORZ_FLIP_FLAG | VERT_FLIP_FLAG | DIAG_FLIP_FLAG)
}

/// A gid with the three flag bits cleared: the value that indexes tilesets.
pub open spec fn spec_gid_without_flags(gid: u32) -> u32 {
    gid & !(HORZ_FLIP_FLAG | VERT_FLIP_FLAG | DIAG_FLIP_FLAG)
}

/// Does the gid mark the tile as flipped on the horizontal axis?
pub fn gid_flipped_horizontally(gid: u32) -> (r: bool)
    ensures
        r == (gid & HORZ_FLIP_FLAG > 0),
{
    gid & HORZ_FLIP_FLAG > 0
}

/// Does the gid mark the tile as flipped on the vertical axis?
pub fn gid_flipped_vertically(gid: u32) -> (r: bool)
    ensures
        r == (gid & VERT_FLIP_FLAG > 0),
{
    gid & VERT_FLIP_FLAG > 0
}

/// Does the gid mark the tile as flipped over the x=y diagonal?
pub fn gid_flipped_diagonally(gid: u32) -> (r: bool)
    ensures
        r == (gid & DIAG_FLIP_FLAG > 0),
{
    gid & DIAG_FLIP_FLAG > 0
}

/// All three flip flags of a gid at once:
/// (horizontal flip, vertical flip, diagonal flip).
pub fn gid_flipped_hvd(gid: u32) -> (r: (bool, bool, bool))
    ensures
        r.0 == (gid & HORZ_FLIP_FLAG > 0),
        r.1 == (gid & VERT_FLIP_FLAG > 0),
        r.2 == (gid & DIAG_FLIP_FLAG > 0),
{
    (gid & HORZ_FLIP_FLAG > 0,
     gid & VERT_FLIP_FLAG > 0,
     gid & DIAG_FLIP_FLAG > 0)
}

/// A copy of the gid with the flip flags removed.
pub fn gid_without_flags(gid: u32) -> (r: u32)
    ensures
        r == spec_gid_without_flags(gid),
{
    gid & !(HORZ_FLIP_FLAG | VERT_FLIP_FLAG | DIAG_FLIP_FLAG)
}

/// Loads a whole map from a generic JSON document.  This is the loader's
/// entry point: a caller reads and tokenizes the file with any JSON
/// reader, rebuilds it as a `JsonValue`, and gets back either a whole
/// `TileMap` or the first failure — never a partial document.  It
/// succeeds exactly on documents that conform to the map schema
/// (`spec_map_json_ok`), with every layer type recognized and every tile
/// payload decoding cleanly.
pub fn load_map_from_json(doc: &json::JsonValue) -> (r: Result<map::TileMap, error::LoadError>)
    ensures
        r matches Ok(m) ==> (*doc matches json::JsonValue::Obj(f) && map::spec_map_matches(m, f@)),
        !(*doc is Obj) ==> (r matches Err(e) && e is MalformedDocument),
        (r is Ok) == map::spec_map_json_ok(*doc),
{
    map::TileMap::from_json(doc)
}

/// Flag stripping and flag testing are mutually consistent: putting the
/// three top bits back onto a stripped gid restores the original value,
/// for every gid.
pub proof fn lemma_gid_flags_partition(gid: u32)
    ensures
        spec_gid_without_flags(gid) | spec_gid_flags(gid) == gid,
        spec_gid_without_flags(gid) & spec_gid_flags(gid) == 0,
{
    assert((gid & !(0x8000_0000u32 | 0x4000_0000u32 | 0x2000_0000u32))
            | (gid & (0x8000_0000u32 | 0x4000_0000u32 | 0x2000_0000u32)) == gid)
        by (bit_vector);
    assert((gid & !(0x8000_0000u32 | 0x4000_0000u32 | 0x2000_0000u32))
            & (gid & (0x8000_0000u32 | 0x4000_0000u32 | 0x2000_0000u32)) == 0)
        by (bit_vector);
}

/// Stripping flags never invents low bits: the stripped gid keeps the low
/// 29 bits of the original exactly, so tileset lookup is unaffected by flips.
pub proof fn lemma_gid_without_flags_clears_only_flags(gid: u32)
    ensures
        spec_gid_without_flags(gid) < 0x2000_0000,
        spec_gid_flags(spec_gid_without_flags(gid)) == 0,
{
    assert((gid & !(0x8000_0000u32 | 0x4000_0000u32 | 0x2000_0000u32)) < 0x2000_0000u32)
        by (bit_vector);
    assert((gid & !(0x8000_0000u32 | 0x4000_0000u32 | 0x2000_0000u32))
            & (0x8000_0000u32 | 0x4000_0000u32 | 0x2000_0000u32) == 0)
        by (bit_vector);
}

} // verus!

