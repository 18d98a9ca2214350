//! Tilesets: the tile definitions a map's gids point into.
//!
//! A tileset owns a strip of the gid space starting at `firstgid`; a gid's
//! local id (lid) is the gid, flags stripped, minus that base.  Tiles with
//! editor overrides (animations, collision shapes, properties) appear in
//! the `tiles` list under their lid.

use vstd::prelude::*;
use crate::color::Color;
use crate::error::LoadError;
use crate::json::JsonField;
use crate::json::JsonValue;
use crate::json::spec_field;
use crate::json::spec_maybe_str;
use crate::json::spec_opt_nat;
use crate::json::spec_opt_str;
use crate::json::spec_req_nat;
use crate::json::spec_req_str;
use crate::json::str_eq;
use crate::layer::Layer;
use crate::layerreader::spec_layer_matches;
use crate::property::HasProperty;
use crate::property::Property;
use crate::property::spec_properties_field;

verus! {

/// The primary means of capturing image data.
#[derive(Debug)]
pub struct Tileset {
    pub tiledversion: String,
    pub image: String,
    pub firstgid: u32,
    pub imageheight: u16,
    pub imagewidth: u16,
    pub tileheight: u16,
    pub tilewidth: u16,
    pub tilecount: u32,
    pub columns: u16,
    pub margin: u16,
    pub spacing: u16,
    pub name: String,
    pub backgroundcolor: Option<Color>,
    pub transparentcolor: Option<Color>,
    pub grid: Option<Grid>,
    pub tiles: Vec<Tile>,
    pub tileoffset: Option<TileOffset>,
    pub properties: Vec<Property>,
}

/// Editor overrides for one tile of a tileset.
#[derive(Debug)]
pub struct Tile {
    pub id: u16,
    pub image: Option<String>,
    pub imageheight: u16,
    pub imagewidth: u16,
    pub ttype: Option<String>,
    pub objectgroup: Option<Layer>,
    pub animation: Vec<Frame>,
    pub properties: Vec<Property>,
}

/// One moment of a tile animation: a lid and how long it shows.
#[derive(Debug, Clone, Copy, PartialEq, Eq, Structural)]
pub struct Frame {
    pub duration: u16,
    pub tileid: u16,
}

/// The drawing offset of a tileset, in pixels; positive y is down.
#[derive(Debug, Clone, Copy, PartialEq, Eq, Structural)]
pub struct TileOffset {
    pub x: i32,
    pub y: i32,
}

/// A custom grid within a tileset.
#[derive(Debug, Clone, Copy, PartialEq, Eq, Structural)]
pub struct Grid {
    pub height: u16,
    pub width: u16,
    pub orientation: GridOrientation,
}

/// The orientation of a tileset grid.
#[derive(Debug, Clone, Copy, PartialEq, Eq, Structural)]
pub enum GridOrientation {
    Orthogonal,
    Isometric,
}

/// The orientation a string names; anything unknown means orthogonal.
pub open spec fn spec_grid_orientation_from(s: Seq<char>) -> GridOrientation {
    if s == "isometric"@ {
        GridOrientation::Isometric
    } else {
        GridOrientation::Orthogonal
    }
}

impl GridOrientation {
    /// The orientation named by a string; anything unknown means
    /// orthogonal.
    pub fn from_string(s: &str) -> (r: GridOrientation)
        ensures
            r == spec_grid_orientation_from(s@),
    {
        if str_eq(s, "isometric") {
            GridOrientation::Isometric
        } else {
            GridOrientation::Orthogonal
        }
    }

    /// The string that names this orientation.
    pub fn as_str(&self) -> (s: &'static str)
        ensures
            match *self {
                GridOrientation::Orthogonal => s@ == "orthogonal"@,
                GridOrientation::Isometric => s@ == "isometric"@,
            },
    {
        match self {
            GridOrientation::Orthogonal => "orthogonal",
            GridOrientation::Isometric => "isometric",
        }
    }
}

/// The editor default for a tileset grid's orientation.
pub fn default_to_orthogonal() -> (r: GridOrientation)
    ensures
        r == GridOrientation::Orthogonal,
{
    GridOrientation::Orthogonal
}

/// The first tile override carrying the given lid, if any.
pub open spec fn spec_find_tile(tiles: Seq<Tile>, lid: u16) -> Option<Tile>
    decreases tiles.len(),
{
    if tiles.len() == 0 {
        None
    } else if tiles[0].id == lid {
        Some(tiles[0])
    } else {
        spec_find_tile(tiles.drop_first(), lid)
    }
}

/// The total length of an animation, in milliseconds.
pub open spec fn spec_anim_sum(frames: Seq<Frame>) -> int
    decreases frames.len(),
{
    if frames.len() == 0 {
        0
    } else {
        frames[0].duration + spec_anim_sum(frames.drop_first())
    }
}

/// The frame showing `m` milliseconds into an animation cycle: the first
/// frame whose span covers `m`.
pub open spec fn spec_frame_at(frames: Seq<Frame>, m: int) -> (bool, u16)
    decreases frames.len(),
{
    if frames.len() == 0 {
        (false, 0)
    } else if m < frames[0].duration {
        (true, frames[0].tileid)
    } else {
        spec_frame_at(frames.drop_first(), m - frames[0].duration)
    }
}

/// What `Tile::get_anim` answers: nothing for a tile without animation,
/// else the frame that `msecs` (wrapped around the total) falls into.
pub open spec fn spec_get_anim(frames: Seq<Frame>, msecs: u32) -> (bool, u16) {
    if frames.len() == 0 {
        (false, 0)
    } else {
        spec_frame_at(frames, msecs as int % spec_anim_sum(frames))
    }
}

impl Tileset {
    /// The lid a gid refers to inside this tileset: flags stripped, offset
    /// by `firstgid`, truncated to 16 bits as stored tile ids are.
    pub open spec fn spec_local_id(&self, gid: u32) -> u16 {
        (crate::spec_gid_without_flags(gid) - self.firstgid) as u16
    }

    fn as_local_id(&self, gid: u32) -> (r: u16)
        requires
            self.firstgid <= crate::spec_gid_without_flags(gid),
        ensures
            r == self.spec_local_id(gid),
    {
        #[verifier::truncate] ((crate::gid_without_flags(gid) - self.firstgid) as u16)
    }

    /// The pixel coordinates, inside the tileset image, of the tile a gid
    /// names.  The gid should belong to this tileset; animation overrides
    /// are not consulted (see `anim_by_gid`).
    pub fn coord_by_gid(&self, gid: u32) -> (r: (u16, u16))
        requires
            self.firstgid <= crate::spec_gid_without_flags(gid),
            self.columns > 0,
            self.tilewidth + self.spacing <= 0xffff,
            self.tileheight + self.spacing <= 0xffff,
            (self.tilewidth + self.spacing) * (self.spec_local_id(gid) % self.columns)
                + self.margin <= 0xffff,
            (self.tileheight + self.spacing) * (self.spec_local_id(gid) / self.columns)
                + self.margin <= 0xffff,
        ensures
            r.0 == (self.tilewidth + self.spacing) * (self.spec_local_id(gid) % self.columns)
                + self.margin,
            r.1 == (self.tileheight + self.spacing) * (self.spec_local_id(gid) / self.columns)
                + self.margin,
    {
        let lid = self.as_local_id(gid);
        let x: u16 = (self.tilewidth + self.spacing) * (lid % self.columns) + self.margin;
        let y: u16 = (self.tileheight + self.spacing) * (lid / self.columns) + self.margin;
        (x, y)
    }

    /// The pixel coordinates of the tile a gid names at `milliseconds`
    /// since creation, following the tile's animation when it has one.
    pub fn anim_by_gid(&self, gid: u32, milliseconds: u32) -> (r: (u16, u16))
        requires
            self.firstgid <= crate::spec_gid_without_flags(gid),
            self.columns > 0,
            self.tilewidth + self.spacing <= 0xffff,
            self.tileheight + self.spacing <= 0xffff,
            (match spec_find_tile(self.tiles@, self.spec_local_id(gid)) {
                Some(t) => t.animation@.len() > 0 ==> (0 < spec_anim_sum(t.animation@) <= 0xffff),
                None => true,
            }),
            (self.tilewidth + self.spacing) * (self.spec_anim_lid(gid, milliseconds)
                % self.columns) + self.margin <= 0xffff,
            (self.tileheight + self.spacing) * (self.spec_anim_lid(gid, milliseconds)
                / self.columns) + self.margin <= 0xffff,
        ensures
            r.0 == (self.tilewidth + self.spacing) * (self.spec_anim_lid(gid, milliseconds)
                % self.columns) + self.margin,
            r.1 == (self.tileheight + self.spacing) * (self.spec_anim_lid(gid, milliseconds)
                / self.columns) + self.margin,
    {
        let mut lid = self.as_local_id(gid);
        match self.find_tile(lid) {
            Some(tile) => {
                let anim = tile.get_anim(milliseconds);
                if anim.0 {
                    lid = anim.1;
                }
            },
            None => {},
        }
        let x: u16 = (self.tilewidth + self.spacing) * (lid % self.columns) + self.margin;
        let y: u16 = (self.tileheight + self.spacing) * (lid / self.columns) + self.margin;
        (x, y)
    }

    /// The lid that `anim_by_gid` draws: the animation frame's lid when
    /// the tile is animated, else the gid's own lid.
    pub open spec fn spec_anim_lid(&self, gid: u32, milliseconds: u32) -> u16 {
        let lid = self.spec_local_id(gid);
        match spec_find_tile(self.tiles@, lid) {
            Some(t) => {
                let a = spec_get_anim(t.animation@, milliseconds);
                if a.0 {
                    a.1
                } else {
                    lid
                }
            },
            None => lid,
        }
    }

    /// The first tile override with the given lid, if any.
    fn find_tile(&self, lid: u16) -> (r: Option<&Tile>)
        ensures
            match r {
                Some(t) => spec_find_tile(self.tiles@, lid) == Some(*t),
                None => spec_find_tile(self.tiles@, lid) is None,
            },
    {
        let n = self.tiles.len();
        let mut i: usize = 0;
        proof {
            assert(self.tiles@.skip(0) =~= self.tiles@);
        }
        while i < n
            invariant
                n == self.tiles@.len(),
                i <= n,
                spec_find_tile(self.tiles@, lid) == spec_find_tile(self.tiles@.skip(i as int), lid),
            decreases n - i,
        {
            proof {
                assert(self.tiles@.skip(i as int)[0] == self.tiles@[i as int]);
            }
            if self.tiles[i].id == lid {
                return Some(&self.tiles[i]);
            }
            proof {
                assert(self.tiles@.skip(i as int).drop_first() =~= self.tiles@.skip(i as int + 1));
            }
            i += 1;
        }
        proof {
            assert(self.tiles@.skip(n as int) =~= Seq::<Tile>::empty());
        }
        None
    }

    /// The collision layer of the tile a gid names, when that tile defines
    /// one.
    pub fn collision_by_gid(&self, gid: u32) -> (r: Option<&Layer>)
        requires
            self.firstgid <= crate::spec_gid_without_flags(gid),
        ensures
            match spec_find_tile(self.tiles@, self.spec_local_id(gid)) {
                Some(t) => match t.objectgroup {
                    Some(l) => r matches Some(rl) && *rl == l,
                    None => r is None,
                },
                None => r is None,
            },
    {
        let lid = self.as_local_id(gid);
        match self.find_tile(lid) {
            Some(tile) => tile.objectgroup.as_ref(),
            None => None,
        }
    }

    /// The user-defined type of the tile a gid names, when that tile
    /// defines one.
    pub fn type_by_gid(&self, gid: u32) -> (r: Option<&String>)
        requires
            self.firstgid <= crate::spec_gid_without_flags(gid),
        ensures
            match spec_find_tile(self.tiles@, self.spec_local_id(gid)) {
                Some(t) => match t.ttype {
                    Some(s) => r matches Some(rs) && *rs == s,
                    None => r is None,
                },
                None => r is None,
            },
    {
        let lid = self.as_local_id(gid);
        match self.find_tile(lid) {
            Some(tile) => tile.ttype.as_ref(),
            None => None,
        }
    }

    /// The tile override a gid names, if the tileset carries one for it.
    pub fn tile_by_gid(&self, gid: u32) -> (r: Option<&Tile>)
        requires
            self.firstgid <= crate::spec_gid_without_flags(gid),
        ensures
            match r {
                Some(t) => spec_find_tile(self.tiles@, self.spec_local_id(gid)) == Some(*t),
                None => spec_find_tile(self.tiles@, self.spec_local_id(gid)) is None,
            },
    {
        let lid = self.as_local_id(gid);
        self.find_tile(lid)
    }

    /// The property list of the tile a gid names, when the tileset carries
    /// an override for it.
    pub fn properties_by_gid(&self, gid: u32) -> (r: Option<&Vec<Property>>)
        requires
            self.firstgid <= crate::spec_gid_without_flags(gid),
        ensures
            match spec_find_tile(self.tiles@, self.spec_local_id(gid)) {
                Some(t) => r matches Some(ps) && ps@ == t.properties@,
                None => r is None,
            },
    {
        let lid = self.as_local_id(gid);
        match self.find_tile(lid) {
            Some(tile) => Some(&tile.properties),
            None => None,
        }
    }

    /// Get the firstgid of the tileset.
    pub fn first_gid(&self) -> (r: u32)
        ensures
            r == self.firstgid,
    {
        self.firstgid
    }

    /// Get the image of the tileset as a string.
    pub fn image(&self) -> (r: &String)
        ensures
            r == &self.image,
    {
        &self.image
    }

    /// Image height of the tileset in pixels.
    pub fn image_height(&self) -> (r: u16)
        ensures
            r == self.imageheight,
    {
        self.imageheight
    }

    /// Image width of the tileset in pixels.
    pub fn image_width(&self) -> (r: u16)
        ensures
            r == self.imagewidth,
    {
        self.imagewidth
    }

    /// Get the height of each tile in pixels.
    pub fn tile_height(&self) -> (r: u16)
        ensures
            r == self.tileheight,
    {
        self.tileheight
    }

    /// Get the width of each tile in pixels.
    pub fn tile_width(&self) -> (r: u16)
        ensures
            r == self.tilewidth,
    {
        self.tilewidth
    }

    /// The number of tiles in this tileset, blank spots included.
    pub fn tile_count(&self) -> (r: u32)
        ensures
            r == self.tilecount,
    {
        self.tilecount
    }

    /// Columns: the width of the tileset in tile units.
    pub fn columns(&self) -> (r: u16)
        ensures
            r == self.columns,
    {
        self.columns
    }

    /// Rows: the height of the tileset in tile units; zero when the
    /// tileset declares no columns, rather than a division failure.
    pub fn rows(&self) -> (r: u16)
        ensures
            self.columns == 0 ==> r == 0,
            self.columns > 0 ==> r == (self.tilecount as int / self.columns as int) as u16,
    {
        if self.columns == 0 {
            return 0;
        }
        #[verifier::truncate] ((self.tilecount / self.columns as u32) as u16)
    }

    /// The margin in pixels from the image edge to the first tile.
    pub fn margin(&self) -> (r: u16)
        ensures
            r == self.margin,
    {
        self.margin
    }

    /// The spacing in pixels between tiles in the image.
    pub fn spacing(&self) -> (r: u16)
        ensures
            r == self.spacing,
    {
        self.spacing
    }

    /// The user-defined name of the tileset.
    pub fn name(&self) -> (r: &String)
        ensures
            r == &self.name,
    {
        &self.name
    }

    /// The optional background color of the tileset.
    pub fn bg_color(&self) -> (r: Option<Color>)
        ensures
            r == self.backgroundcolor,
    {
        self.backgroundcolor
    }

    /// The optional transparent color of the tileset.
    pub fn tp_color(&self) -> (r: Option<Color>)
        ensures
            r == self.transparentcolor,
    {
        self.transparentcolor
    }

    /// The optional custom grid of the tileset.
    pub fn grid(&self) -> (r: Option<Grid>)
        ensures
            r == self.grid,
    {
        self.grid
    }

    /// The tiles with editor overrides: animations, collisions, special
    /// properties.
    pub fn tiles(&self) -> (r: &Vec<Tile>)
        ensures
            r == &self.tiles,
    {
        &self.tiles
    }

    /// Get the tileoffset: an object with an x and a y.
    pub fn tile_offset(&self) -> (r: Option<TileOffset>)
        ensures
            r == self.tileoffset,
    {
        self.tileoffset
    }

    /// The version of the editor the tileset was written with.
    pub fn tiled_version(&self) -> (r: &String)
        ensures
            r == &self.tiledversion,
    {
        &self.tiledversion
    }
}

impl HasProperty for Tileset {
    open spec fn spec_properties(&self) -> Seq<Property> {
        self.properties@
    }

    fn get_property_vector(&self) -> (r: &Vec<Property>) {
        &self.properties
    }

    fn get_property(&self, name: &str) -> (r: Option<&Property>) {
        crate::property::find_property(&self.properties, name)
    }

    fn get_property_value(&self, name: &str) -> (r: Option<&crate::property::PropertyValue>) {
        match crate::property::find_property(&self.properties, name) {
            Some(p) => Some(&p.value),
            None => None,
        }
    }
}

impl Tile {
    /// The animation frame showing at `msecs` milliseconds since creation:
    /// whether the tile is animated at all, and if so the lid of the frame
    /// that `msecs` (wrapped around the animation's total length) falls
    /// into.
    pub fn get_anim(&self, msecs: u32) -> (r: (bool, u16))
        requires
            self.animation@.len() > 0 ==> 0 < spec_anim_sum(self.animation@) <= 0xffff,
        ensures
            r == spec_get_anim(self.animation@, msecs),
    {
        if !self.animation.is_empty() {
            let total = self.get_anim_total() as u32;
            let mut m: u16 = (msecs % total) as u16;
            let ghost target = spec_frame_at(self.animation@, (msecs % total) as int);
            let n = self.animation.len();
            let mut i: usize = 0;
            proof {
                assert(self.animation@.skip(0) =~= self.animation@);
            }
            while i < n
                invariant
                    n == self.animation@.len(),
                    i <= n,
                    m < spec_anim_sum(self.animation@.skip(i as int)),
                    spec_frame_at(self.animation@.skip(i as int), m as int) == target,
                    spec_get_anim(self.animation@, msecs) == target,
                decreases n - i,
            {
                proof {
                    assert(self.animation@.skip(i as int)[0] == self.animation@[i as int]);
                    assert(self.animation@.skip(i as int).drop_first() =~= self.animation@.skip(
                        i as int + 1,
                    ));
                }
                let f = &self.animation[i];
                if m < f.duration {
                    return (true, f.tileid);
                }
                m = m - f.duration;
                i += 1;
            }
            proof {
                assert(self.animation@.skip(n as int) =~= Seq::<Frame>::empty());
                assert(false);
            }
        }
        (false, 0)
    }

    /// lid of the tile in the tileset; not a gid.
    pub fn id(&self) -> (r: u16)
        ensures
            r == self.id,
    {
        self.id
    }

    /// The image height in pixels; 0 when unspecified.
    pub fn image_height(&self) -> (r: u16)
        ensures
            r == self.imageheight,
    {
        self.imageheight
    }

    /// The image width in pixels; 0 when unspecified.
    pub fn image_width(&self) -> (r: u16)
        ensures
            r == self.imagewidth,
    {
        self.imagewidth
    }

    /// The animation data; may be empty.
    pub fn animation(&self) -> (r: &Vec<Frame>)
        ensures
            r == &self.animation,
    {
        &self.animation
    }

    /// The filename of the image this tile refers to.
    pub fn image(&self) -> (r: Option<&String>)
        ensures
            match self.image {
                Some(s) => r matches Some(rs) && *rs == s,
                None => r is None,
            },
    {
        self.image.as_ref()
    }

    /// The user-specified type of the tile.
    pub fn get_type(&self) -> (r: Option<&String>)
        ensures
            match self.ttype {
                Some(s) => r matches Some(rs) && *rs == s,
                None => r is None,
            },
    {
        self.ttype.as_ref()
    }

    /// The collision object-group layer of the tile, when defined.
    pub fn object_group(&self) -> (r: Option<&Layer>)
        ensures
            match self.objectgroup {
                Some(l) => r matches Some(rl) && *rl == l,
                None => r is None,
            },
    {
        self.objectgroup.as_ref()
    }

    /// The total length of the animation in milliseconds.
    fn get_anim_total(&self) -> (r: u16)
        requires
            spec_anim_sum(self.animation@) <= 0xffff,
        ensures
            r == spec_anim_sum(self.animation@),
    {
        let n = self.animation.len();
        let mut total: u16 = 0;
        let mut i: usize = 0;
        proof {
            assert(self.animation@.skip(0) =~= self.animation@);
        }
        while i < n
            invariant
                n == self.animation@.len(),
                i <= n,
                total + spec_anim_sum(self.animation@.skip(i as int)) == spec_anim_sum(
                    self.animation@,
                ),
                spec_anim_sum(self.animation@) <= 0xffff,
                total <= 0xffff,
            decreases n - i,
        {
            proof {
                assert(self.animation@.skip(i as int)[0] == self.animation@[i as int]);
                assert(self.animation@.skip(i as int).drop_first() =~= self.animation@.skip(
                    i as int + 1,
                ));
                lemma_anim_sum_bounds(self.animation@.skip(i as int));
                lemma_anim_sum_bounds(self.animation@.skip(i as int + 1));
            }
            total = total + self.animation[i].duration;
            i += 1;
        }
        proof {
            assert(self.animation@.skip(n as int) =~= Seq::<Frame>::empty());
        }
        total
    }
}

impl HasProperty for Tile {
    open spec fn spec_properties(&self) -> Seq<Property> {
        self.properties@
    }

    fn get_property_vector(&self) -> (r: &Vec<Property>) {
        &self.properties
    }

    fn get_property(&self, name: &str) -> (r: Option<&Property>) {
        crate::property::find_property(&self.properties, name)
    }

    fn get_property_value(&self, name: &str) -> (r: Option<&crate::property::PropertyValue>) {
        match crate::property::find_property(&self.properties, name) {
            Some(p) => Some(&p.value),
            None => None,
        }
    }
}

/// Every tail of an animation weighs no more than the whole: durations
/// are nonnegative.
proof fn lemma_anim_sum_bounds(frames: Seq<Frame>)
    ensures
        spec_anim_sum(frames) >= 0,
        frames.len() > 0 ==> spec_anim_sum(frames.drop_first()) <= spec_anim_sum(frames),
    decreases frames.len(),
{
    if frames.len() > 0 {
        lemma_anim_sum_bounds(frames.drop_first());
    }
}

impl Frame {
    /// Get the duration of this frame.
    pub fn duration(&self) -> (r: u16)
        ensures
            r == self.duration,
    {
        self.duration
    }

    /// The lid this frame shows; not a gid.
    pub fn tileid(&self) -> (r: u16)
        ensures
            r == self.tileid,
    {
        self.tileid
    }
}

/// What a frame record resolves to, or `None` when it is not an object
/// with `duration` and `tileid` fitting 16 bits.
pub open spec fn spec_frame_of(v: JsonValue) -> Option<Frame> {
    match v {
        JsonValue::Obj(f) => match (
            spec_req_nat(f@, "duration"@, 0xffff),
            spec_req_nat(f@, "tileid"@, 0xffff),
        ) {
            (Some(d), Some(t)) => Some(Frame { duration: d as u16, tileid: t as u16 }),
            _ => None,
        },
        _ => None,
    }
}

/// What a list of frame records resolves to, or `None` when any is bad.
pub open spec fn spec_frames_of(items: Seq<JsonValue>) -> Option<Seq<Frame>> {
    if forall|i: int| 0 <= i < items.len() ==> (#[trigger] spec_frame_of(items[i])) is Some {
        Some(Seq::new(items.len(), |i: int| spec_frame_of(items[i])->0))
    } else {
        None
    }
}

/// Mirror of the `animation` member: absent means no animation.
pub open spec fn spec_animation_field(fs: Seq<JsonField>) -> Option<Seq<Frame>> {
    match spec_field(fs, "animation"@) {
        None => Some(Seq::empty()),
        Some(JsonValue::Arr(items)) => spec_frames_of(items@),
        Some(_) => None,
    }
}

/// What a tile-offset record resolves to.
pub open spec fn spec_tileoffset_of(v: JsonValue) -> Option<TileOffset> {
    match v {
        JsonValue::Obj(f) => match (
            crate::json::spec_req_int(f@, "x"@, -0x8000_0000i64, 0x7fff_ffff),
            crate::json::spec_req_int(f@, "y"@, -0x8000_0000i64, 0x7fff_ffff),
        ) {
            (Some(x), Some(y)) => Some(TileOffset { x: x as i32, y: y as i32 }),
            _ => None,
        },
        _ => None,
    }
}

/// What a grid record resolves to.
pub open spec fn spec_grid_of(v: JsonValue) -> Option<Grid> {
    match v {
        JsonValue::Obj(f) => match (
            spec_req_nat(f@, "height"@, 0xffff),
            spec_req_nat(f@, "width"@, 0xffff),
        ) {
            (Some(h), Some(w)) => match spec_field(f@, "orientation"@) {
                None => Some(
                    Grid {
                        height: h as u16,
                        width: w as u16,
                        orientation: GridOrientation::Orthogonal,
                    },
                ),
                Some(JsonValue::Str(s)) => Some(
                    Grid {
                        height: h as u16,
                        width: w as u16,
                        orientation: spec_grid_orientation_from(s@),
                    },
                ),
                Some(_) => None,
            },
            _ => None,
        },
        _ => None,
    }
}

impl Frame {
    /// Reads one frame record: an object with 16-bit `duration` and
    /// `tileid`.
    pub fn from_json(v: &JsonValue) -> (r: Result<Frame, LoadError>)
        ensures
            match spec_frame_of(*v) {
                Some(fr) => r matches Ok(rf) && rf == fr,
                None => r matches Err(e) && e is MalformedDocument,
            },
    {
        let f = match v {
            JsonValue::Obj(f) => f,
            _ => { return Err(LoadError::MalformedDocument); },
        };
        let duration = match crate::json::req_nat_field(f, "duration", 0xffff) {
            Ok(x) => x as u16,
            Err(e) => { return Err(e); },
        };
        let tileid = match crate::json::req_nat_field(f, "tileid", 0xffff) {
            Ok(x) => x as u16,
            Err(e) => { return Err(e); },
        };
        Ok(Frame { duration, tileid })
    }
}

impl TileOffset {
    /// Reads one tile-offset record: an object with 32-bit signed `x` and
    /// `y`.
    pub fn from_json(v: &JsonValue) -> (r: Result<TileOffset, LoadError>)
        ensures
            match spec_tileoffset_of(*v) {
                Some(o) => r matches Ok(ro) && ro == o,
                None => r matches Err(e) && e is MalformedDocument,
            },
    {
        let f = match v {
            JsonValue::Obj(f) => f,
            _ => { return Err(LoadError::MalformedDocument); },
        };
        let x = match crate::json::req_int_field(f, "x", -0x8000_0000, 0x7fff_ffff) {
            Ok(x) => x as i32,
            Err(e) => { return Err(e); },
        };
        let y = match crate::json::req_int_field(f, "y", -0x8000_0000, 0x7fff_ffff) {
            Ok(y) => y as i32,
            Err(e) => { return Err(e); },
        };
        Ok(TileOffset { x, y })
    }
}

impl Grid {
    /// Reads one grid record: 16-bit `height` and `width`, with an
    /// optional `orientation` string defaulting to orthogonal.
    pub fn from_json(v: &JsonValue) -> (r: Result<Grid, LoadError>)
        ensures
            match spec_grid_of(*v) {
                Some(g) => r matches Ok(rg) && rg == g,
                None => r matches Err(e) && e is MalformedDocument,
            },
    {
        let f = match v {
            JsonValue::Obj(f) => f,
            _ => { return Err(LoadError::MalformedDocument); },
        };
        let height = match crate::json::req_nat_field(f, "height", 0xffff) {
            Ok(x) => x as u16,
            Err(e) => { return Err(e); },
        };
        let width = match crate::json::req_nat_field(f, "width", 0xffff) {
            Ok(x) => x as u16,
            Err(e) => { return Err(e); },
        };
        let orientation = match crate::json::json_field(f, "orientation") {
            None => GridOrientation::Orthogonal,
            Some(JsonValue::Str(s)) => GridOrientation::from_string(s.as_str()),
            Some(_) => { return Err(LoadError::MalformedDocument); },
        };
        Ok(Grid { height, width, orientation })
    }
}

/// Reads an array of frame records.
fn frames_from_array(items: &Vec<JsonValue>) -> (r: Result<Vec<Frame>, LoadError>)
    ensures
        match spec_frames_of(items@) {
            Some(fr) => r matches Ok(v) && v@ == fr,
            None => r matches Err(e) && e is MalformedDocument,
        },
{
    let n = items.len();
    let mut out: Vec<Frame> = Vec::new();
    let mut i: usize = 0;
    while i < n
        invariant
            n == items@.len(),
            i <= n,
            out@.len() == i,
            forall|j: int|
                0 <= j < i ==> (#[trigger] spec_frame_of(items@[j])) is Some && out@[j]
                    == spec_frame_of(items@[j])->0,
        decreases n - i,
    {
        match Frame::from_json(&items[i]) {
            Ok(fr) => { out.push(fr); },
            Err(_) => {
                proof {
                    assert(spec_frame_of(items@[i as int]) is None);
                    assert(spec_frames_of(items@) is None);
                }
                return Err(LoadError::MalformedDocument);
            },
        }
        i += 1;
    }
    proof {
        assert(out@ =~= Seq::new(items@.len(), |k: int| spec_frame_of(items@[k])->0));
    }
    Ok(out)
}

/// Do the scalar members of a tile record read cleanly?
pub open spec fn spec_tile_scalars_ok(f: Seq<JsonField>) -> bool {
    &&& spec_req_nat(f, "id"@, 0xffff) is Some
    &&& spec_maybe_str(f, "image"@) is Some
    &&& spec_opt_nat(f, "imageheight"@, 0, 0xffff) is Some
    &&& spec_opt_nat(f, "imagewidth"@, 0, 0xffff) is Some
    &&& spec_maybe_str(f, "type"@) is Some
    &&& spec_animation_field(f) is Some
    &&& spec_properties_field(f) is Some
}

/// Does a resolved tile carry exactly what its record says?
pub open spec fn spec_tile_matches(t: Tile, f: Seq<JsonField>) -> bool {
    &&& Some(t.id as u64) == spec_req_nat(f, "id"@, 0xffff)
    &&& (match spec_maybe_str(f, "image"@) {
        Some(Some(cs)) => t.image matches Some(s) && s@ == cs,
        Some(None) => t.image is None,
        None => false,
    })
    &&& Some(t.imageheight as u64) == spec_opt_nat(f, "imageheight"@, 0, 0xffff)
    &&& Some(t.imagewidth as u64) == spec_opt_nat(f, "imagewidth"@, 0, 0xffff)
    &&& (match spec_maybe_str(f, "type"@) {
        Some(Some(cs)) => t.ttype matches Some(s) && s@ == cs,
        Some(None) => t.ttype is None,
        None => false,
    })
    &&& (match spec_field(f, "objectgroup"@) {
        None => t.objectgroup is None,
        Some(x) => t.objectgroup matches Some(l) && spec_layer_matches(l, x),
    })
    &&& (match spec_animation_field(f) {
        Some(fr) => t.animation@ == fr,
        None => false,
    })
    &&& (match spec_properties_field(f) {
        Some(ps) => t.properties@ == ps,
        None => false,
    })
}

impl Tile {
    /// Reads one tile-override record.  Only `id` is required; a nested
    /// `objectgroup` collision layer is resolved through the layer
    /// pipeline.  It succeeds exactly on conforming records
    /// (`spec_tile_json_ok`).
    pub fn from_json(v: &JsonValue) -> (r: Result<Tile, LoadError>)
        ensures
            r matches Ok(t) ==> (*v matches JsonValue::Obj(f) && spec_tile_matches(t, f@)),
            !(*v is Obj) ==> (r matches Err(e) && e is MalformedDocument),
            (r is Ok) == spec_tile_json_ok(*v),
    {
        let f = match v {
            JsonValue::Obj(f) => f,
            _ => { return Err(LoadError::MalformedDocument); },
        };
        let id = match crate::json::req_nat_field(f, "id", 0xffff) {
            Ok(x) => x as u16,
            Err(e) => { return Err(e); },
        };
        let image = match crate::json::maybe_str_field(f, "image") {
            Ok(o) => o,
            Err(e) => { return Err(e); },
        };
        let imageheight = match crate::json::opt_nat_field(f, "imageheight", 0, 0xffff) {
            Ok(x) => x as u16,
            Err(e) => { return Err(e); },
        };
        let imagewidth = match crate::json::opt_nat_field(f, "imagewidth", 0, 0xffff) {
            Ok(x) => x as u16,
            Err(e) => { return Err(e); },
        };
        let ttype = match crate::json::maybe_str_field(f, "type") {
            Ok(o) => o,
            Err(e) => { return Err(e); },
        };
        let objectgroup = match crate::json::json_field(f, "objectgroup") {
            None => None,
            Some(lv) => match crate::layerreader::layer_from_json(lv) {
                Ok(l) => Some(l),
                Err(e) => { return Err(e); },
            },
        };
        let animation = match crate::json::json_field(f, "animation") {
            None => Vec::new(),
            Some(av) => match av {
                JsonValue::Arr(items) => match frames_from_array(items) {
                    Ok(fr) => fr,
                    Err(e) => { return Err(e); },
                },
                _ => { return Err(LoadError::MalformedDocument); },
            },
        };
        let properties = match crate::property::properties_field(f) {
            Ok(ps) => ps,
            Err(e) => { return Err(e); },
        };
        Ok(Tile { id, image, imageheight, imagewidth, ttype, objectgroup, animation, properties })
    }
}

/// Is a JSON value a tile-override record that resolves, its collision
/// layer included?
pub open spec fn spec_tile_json_ok(v: JsonValue) -> bool {
    match v {
        JsonValue::Obj(f) => spec_tile_scalars_ok(f@) && (match spec_field(f@, "objectgroup"@) {
            None => true,
            Some(x) => crate::layerreader::spec_layer_json_ok(x),
        }),
        _ => false,
    }
}

/// Does every record of a tile array conform?
pub open spec fn spec_tiles_json_ok(items: Seq<JsonValue>) -> bool
    decreases items.len(),
{
    items.len() == 0 || (spec_tile_json_ok(items[0]) && spec_tiles_json_ok(items.drop_first()))
}

/// A tile array conforms exactly when each of its records does.
pub proof fn lemma_tiles_json_ok_iff(items: Seq<JsonValue>)
    ensures
        spec_tiles_json_ok(items) == (forall|i: int|
            0 <= i < items.len() ==> #[trigger] spec_tile_json_ok(items[i])),
    decreases items.len(),
{
    if items.len() > 0 {
        lemma_tiles_json_ok_iff(items.drop_first());
        assert(forall|i: int|
            1 <= i < items.len() ==> #[trigger] items[i] == items.drop_first()[i - 1]);
        if spec_tiles_json_ok(items) {
            assert forall|i: int| 0 <= i < items.len() implies #[trigger] spec_tile_json_ok(
                items[i],
            ) by {
                if i > 0 {
                    assert(spec_tile_json_ok(items.drop_first()[i - 1]));
                }
            }
        }
        if forall|i: int| 0 <= i < items.len() ==> #[trigger] spec_tile_json_ok(items[i]) {
            assert forall|i: int|
                0 <= i < items.drop_first().len() implies #[trigger] spec_tile_json_ok(
                items.drop_first()[i],
            ) by {
                assert(items.drop_first()[i] == items[i + 1]);
            }
            assert(spec_tile_json_ok(items[0]));
            assert(spec_tiles_json_ok(items.drop_first()));
            assert(spec_tiles_json_ok(items));
        }
    }
}

/// Does each resolved tile carry what its record says?
pub open spec fn spec_tiles_match(ts: Seq<Tile>, items: Seq<JsonValue>) -> bool {
    ts.len() == items.len() && forall|i: int|
        0 <= i < items.len() ==> ((#[trigger] items[i]) matches JsonValue::Obj(f)
            && spec_tile_matches(ts[i], f@))
}

/// Reads an array of tile-override records: it succeeds exactly when
/// every record conforms.
fn tiles_from_array(items: &Vec<JsonValue>) -> (r: Result<Vec<Tile>, LoadError>)
    ensures
        r matches Ok(ts) ==> spec_tiles_match(ts@, items@),
        (r is Ok) == spec_tiles_json_ok(items@),
{
    let n = items.len();
    let mut out: Vec<Tile> = Vec::new();
    let mut i: usize = 0;
    while i < n
        invariant
            n == items@.len(),
            i <= n,
            out@.len() == i,
            forall|j: int|
                0 <= j < i ==> ((#[trigger] items@[j]) matches JsonValue::Obj(f)
                    && spec_tile_matches(out@[j], f@)),
            forall|j: int| 0 <= j < i ==> #[trigger] spec_tile_json_ok(items@[j]),
        decreases n - i,
    {
        match Tile::from_json(&items[i]) {
            Ok(t) => { out.push(t); },
            Err(e) => {
                proof {
                    assert(!spec_tile_json_ok(items@[i as int]));
                    lemma_tiles_json_ok_iff(items@);
                }
                return Err(e);
            },
        }
        i += 1;
    }
    proof {
        lemma_tiles_json_ok_iff(items@);
    }
    Ok(out)
}

/// Do the scalar members of a tileset record read cleanly?
pub open spec fn spec_tileset_scalars_ok(f: Seq<JsonField>) -> bool {
    &&& spec_req_str(f, "image"@) is Some
    &&& spec_req_nat(f, "firstgid"@, 0xffff_ffff) is Some
    &&& spec_req_nat(f, "imageheight"@, 0xffff) is Some
    &&& spec_req_nat(f, "imagewidth"@, 0xffff) is Some
    &&& spec_req_nat(f, "tileheight"@, 0xffff) is Some
    &&& spec_req_nat(f, "tilewidth"@, 0xffff) is Some
    &&& spec_req_nat(f, "tilecount"@, 0xffff_ffff) is Some
    &&& spec_req_nat(f, "columns"@, 0xffff) is Some
}

/// Does a resolved tileset carry exactly what its record says?
pub open spec fn spec_tileset_matches(t: Tileset, f: Seq<JsonField>) -> bool {
    &&& Some(t.image@) == spec_req_str(f, "image"@)
    &&& Some(t.firstgid as u64) == spec_req_nat(f, "firstgid"@, 0xffff_ffff)
    &&& Some(t.imageheight as u64) == spec_req_nat(f, "imageheight"@, 0xffff)
    &&& Some(t.imagewidth as u64) == spec_req_nat(f, "imagewidth"@, 0xffff)
    &&& Some(t.tileheight as u64) == spec_req_nat(f, "tileheight"@, 0xffff)
    &&& Some(t.tilewidth as u64) == spec_req_nat(f, "tilewidth"@, 0xffff)
    &&& Some(t.tilecount as u64) == spec_req_nat(f, "tilecount"@, 0xffff_ffff)
    &&& Some(t.columns as u64) == spec_req_nat(f, "columns"@, 0xffff)
    &&& Some(t.margin as u64) == spec_opt_nat(f, "margin"@, 0, 0xffff)
    &&& Some(t.spacing as u64) == spec_opt_nat(f, "spacing"@, 0, 0xffff)
    &&& Some(t.name@) == spec_opt_str(f, "name"@, ""@)
    &&& Some(t.tiledversion@) == spec_opt_str(f, "tiledversion"@, ""@)
    &&& (match crate::color::spec_maybe_color(f, "backgroundcolor"@) {
        Some(oc) => t.backgroundcolor == oc,
        None => false,
    })
    &&& (match crate::color::spec_maybe_color(f, "transparentcolor"@) {
        Some(oc) => t.transparentcolor == oc,
        None => false,
    })
    &&& (match spec_field(f, "grid"@) {
        None => t.grid is None,
        Some(gv) => spec_grid_of(gv) matches Some(g) && t.grid == Some(g),
    })
    &&& (match spec_field(f, "tiles"@) {
        None => t.tiles@.len() == 0,
        Some(JsonValue::Arr(items)) => spec_tiles_match(t.tiles@, items@),
        Some(_) => false,
    })
    &&& (match spec_field(f, "tileoffset"@) {
        None => t.tileoffset is None,
        Some(ov) => spec_tileoffset_of(ov) matches Some(o) && t.tileoffset == Some(o),
    })
    &&& (match spec_properties_field(f) {
        Some(ps) => t.properties@ == ps,
        None => false,
    })
}

/// Do the flat members of a tileset record all read cleanly?  This is
/// every condition on a tileset record except the one on each of its tile
/// overrides.
pub open spec fn spec_tileset_fields_ok(f: Seq<JsonField>) -> bool {
    &&& spec_tileset_scalars_ok(f)
    &&& spec_opt_nat(f, "margin"@, 0, 0xffff) is Some
    &&& spec_opt_nat(f, "spacing"@, 0, 0xffff) is Some
    &&& spec_opt_str(f, "name"@, ""@) is Some
    &&& spec_opt_str(f, "tiledversion"@, ""@) is Some
    &&& crate::color::spec_maybe_color(f, "backgroundcolor"@) is Some
    &&& crate::color::spec_maybe_color(f, "transparentcolor"@) is Some
    &&& (match spec_field(f, "grid"@) {
        None => true,
        Some(gv) => spec_grid_of(gv) is Some,
    })
    &&& (match spec_field(f, "tileoffset"@) {
        None => true,
        Some(ov) => spec_tileoffset_of(ov) is Some,
    })
    &&& spec_properties_field(f) is Some
}

/// Is a JSON value a tileset record that resolves, tile overrides and
/// all?
pub open spec fn spec_tileset_json_ok(v: JsonValue) -> bool {
    match v {
        JsonValue::Obj(f) => spec_tileset_fields_ok(f@) && (match spec_field(f@, "tiles"@) {
            None => true,
            Some(JsonValue::Arr(items)) => spec_tiles_json_ok(items@),
            Some(_) => false,
        }),
        _ => false,
    }
}

impl Tileset {
    /// Reads one tileset record.  The image geometry, `firstgid`,
    /// `tilecount` and `columns` are required; tiles with overrides, the
    /// grid and the offset are optional.  It succeeds exactly on
    /// conforming records (`spec_tileset_json_ok`).
    pub fn from_json(v: &JsonValue) -> (r: Result<Tileset, LoadError>)
        ensures
            r matches Ok(t) ==> (*v matches JsonValue::Obj(f) && spec_tileset_matches(t, f@)),
            !(*v is Obj) ==> (r matches Err(e) && e is MalformedDocument),
            (r is Ok) == spec_tileset_json_ok(*v),
    {
        let f = match v {
            JsonValue::Obj(f) => f,
            _ => { return Err(LoadError::MalformedDocument); },
        };
        let image = match crate::json::req_str_field(f, "image") {
            Ok(s) => s,
            Err(e) => { return Err(e); },
        };
        let firstgid = match crate::json::req_nat_field(f, "firstgid", 0xffff_ffff) {
            Ok(x) => x as u32,
            Err(e) => { return Err(e); },
        };
        let imageheight = match crate::json::req_nat_field(f, "imageheight", 0xffff) {
            Ok(x) => x as u16,
            Err(e) => { return Err(e); },
        };
        let imagewidth = match crate::json::req_nat_field(f, "imagewidth", 0xffff) {
            Ok(x) => x as u16,
            Err(e) => { return Err(e); },
        };
        let tileheight = match crate::json::req_nat_field(f, "tileheight", 0xffff) {
            Ok(x) => x as u16,
            Err(e) => { return Err(e); },
        };
        let tilewidth = match crate::json::req_nat_field(f, "tilewidth", 0xffff) {
            Ok(x) => x as u16,
            Err(e) => { return Err(e); },
        };
        let tilecount = match crate::json::req_nat_field(f, "tilecount", 0xffff_ffff) {
            Ok(x) => x as u32,
            Err(e) => { return Err(e); },
        };
        let columns = match crate::json::req_nat_field(f, "columns", 0xffff) {
            Ok(x) => x as u16,
            Err(e) => { return Err(e); },
        };
        let margin = match crate::json::opt_nat_field(f, "margin", 0, 0xffff) {
            Ok(x) => x as u16,
            Err(e) => { return Err(e); },
        };
        let spacing = match crate::json::opt_nat_field(f, "spacing", 0, 0xffff) {
            Ok(x) => x as u16,
            Err(e) => { return Err(e); },
        };
        let name = match crate::json::opt_str_field(f, "name", "") {
            Ok(s) => s,
            Err(e) => { return Err(e); },
        };
        let tiledversion = match crate::json::opt_str_field(f, "tiledversion", "") {
            Ok(s) => s,
            Err(e) => { return Err(e); },
        };
        let backgroundcolor = match crate::color::maybe_color_field(f, "backgroundcolor") {
            Ok(o) => o,
            Err(e) => { return Err(e); },
        };
        let transparentcolor = match crate::color::maybe_color_field(f, "transparentcolor") {
            Ok(o) => o,
            Err(e) => { return Err(e); },
        };
        let grid = match crate::json::json_field(f, "grid") {
            None => None,
            Some(gv) => match Grid::from_json(gv) {
                Ok(g) => Some(g),
                Err(e) => { return Err(e); },
            },
        };
        let tiles = match crate::json::json_field(f, "tiles") {
            None => Vec::new(),
            Some(tv) => match tv {
                JsonValue::Arr(items) => match tiles_from_array(items) {
                    Ok(ts) => ts,
                    Err(e) => { return Err(e); },
                },
                _ => { return Err(LoadError::MalformedDocument); },
            },
        };
        let tileoffset = match crate::json::json_field(f, "tileoffset") {
            None => None,
            Some(ov) => match TileOffset::from_json(ov) {
                Ok(o) => Some(o),
                Err(e) => { return Err(e); },
            },
        };
        let properties = match crate::property::properties_field(f) {
            Ok(ps) => ps,
            Err(e) => { return Err(e); },
        };
        Ok(
            Tileset {
                tiledversion,
                image,
                firstgid,
                imageheight,
                imagewidth,
                tileheight,
                tilewidth,
                tilecount,
                columns,
                margin,
                spacing,
                name,
                backgroundcolor,
                transparentcolor,
                grid,
                tiles,
                tileoffset,
                properties,
            },
        )
    }
}

impl Grid {
    /// Get grid width.
    pub fn width(self) -> (r: u16)
        ensures
            r == self.width,
    {
        self.width
    }

    /// Get grid height.
    pub fn height(self) -> (r: u16)
        ensures
            r == self.height,
    {
        self.height
    }

    /// Get grid orientation.
    pub fn orientation(self) -> (r: GridOrientation)
        ensures
            r == self.orientation,
    {
        self.orientation
    }
}

} // verus!
