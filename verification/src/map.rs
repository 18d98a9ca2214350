//! The map: the root of a loaded document.
//!
//! A map owns its tilesets and its top-level layers; gid-to-tileset lookup
//! scans the tilesets in descending position and returns the first whose
//! `firstgid` is at or below the stripped gid — deliberately without any
//! upper-bound check, so an oversized gid still lands in the last tileset.

use vstd::prelude::*;
use crate::color::Color;
use crate::color::spec_maybe_color;
use crate::error::LoadError;
use crate::json::JsonField;
use crate::json::JsonValue;
use crate::json::spec_field;
use crate::json::spec_opt_nat;
use crate::json::spec_opt_str;
use crate::json::spec_req_nat;
use crate::json::str_eq;
use crate::layer::Layer;
use crate::layerreader::spec_layer_matches;
use crate::property::HasProperty;
use crate::property::Property;
use crate::property::spec_properties_field;
use crate::tileset::Tileset;

verus! {

/// How the map's tiles are laid out.
#[derive(Debug, Clone, Copy, PartialEq, Eq, Structural)]
pub enum MapOrientation {
    Orthogonal,
    Isometric,
    Staggered,
    Hexagonal,
}

/// The order tiles of an orthogonal map are rendered in.
#[derive(Debug, Clone, Copy, PartialEq, Eq, Structural)]
pub enum RenderOrder {
    RightDown,
    RightUp,
    LeftDown,
    LeftUp,
}

/// Whether the even or the odd rows/columns are staggered.
#[derive(Debug, Clone, Copy, PartialEq, Eq, Structural)]
pub enum StaggerIndex {
    Even,
    Odd,
}

/// Which axis a staggered or hexagonal map staggers along.
#[derive(Debug, Clone, Copy, PartialEq, Eq, Structural)]
pub enum StaggerAxis {
    StaggerX,
    StaggerY,
}

/// The orientation a string names; anything unknown means orthogonal.
pub open spec fn spec_map_orientation_from(s: Seq<char>) -> MapOrientation {
    if s == "orthogonal"@ {
        MapOrientation::Orthogonal
    } else if s == "isometric"@ {
        MapOrientation::Isometric
    } else if s == "staggered"@ {
        MapOrientation::Staggered
    } else if s == "hexagonal"@ {
        MapOrientation::Hexagonal
    } else {
        MapOrientation::Orthogonal
    }
}

/// The render order a string names; anything unknown means right-down.
pub open spec fn spec_render_order_from(s: Seq<char>) -> RenderOrder {
    if s == "right-down"@ {
        RenderOrder::RightDown
    } else if s == "right-up"@ {
        RenderOrder::RightUp
    } else if s == "left-down"@ {
        RenderOrder::LeftDown
    } else if s == "left-up"@ {
        RenderOrder::LeftUp
    } else {
        RenderOrder::RightDown
    }
}

/// The stagger index a string names; anything unknown means even.
pub open spec fn spec_stagger_index_from(s: Seq<char>) -> StaggerIndex {
    if s == "even"@ {
        StaggerIndex::Even
    } else if s == "odd"@ {
        StaggerIndex::Odd
    } else {
        StaggerIndex::Even
    }
}

/// The stagger axis a string names; anything unknown means the x axis.
pub open spec fn spec_stagger_axis_from(s: Seq<char>) -> StaggerAxis {
    if s == "x"@ {
        StaggerAxis::StaggerX
    } else if s == "y"@ {
        StaggerAxis::StaggerY
    } else {
        StaggerAxis::StaggerX
    }
}

impl MapOrientation {
    /// The orientation named by a string; anything unknown means
    /// orthogonal.
    pub fn from_string(s: &str) -> (r: MapOrientation)
        ensures
            r == spec_map_orientation_from(s@),
    {
        if str_eq(s, "orthogonal") {
            MapOrientation::Orthogonal
        } else if str_eq(s, "isometric") {
            MapOrientation::Isometric
        } else if str_eq(s, "staggered") {
            MapOrientation::Staggered
        } else if str_eq(s, "hexagonal") {
            MapOrientation::Hexagonal
        } else {
            MapOrientation::Orthogonal
        }
    }

    /// The string that names this orientation.
    pub fn as_str(&self) -> (s: &'static str)
        ensures
            match *self {
                MapOrientation::Orthogonal => s@ == "orthogonal"@,
                MapOrientation::Isometric => s@ == "isometric"@,
                MapOrientation::Staggered => s@ == "staggered"@,
                MapOrientation::Hexagonal => s@ == "hexagonal"@,
            },
    {
        match self {
            MapOrientation::Orthogonal => "orthogonal",
            MapOrientation::Isometric => "isometric",
            MapOrientation::Staggered => "staggered",
            MapOrientation::Hexagonal => "hexagonal",
        }
    }
}

impl RenderOrder {
    /// The render order named by a string; anything unknown means
    /// right-down.
    pub fn from_string(s: &str) -> (r: RenderOrder)
        ensures
            r == spec_render_order_from(s@),
    {
        if str_eq(s, "right-down") {
            RenderOrder::RightDown
        } else if str_eq(s, "right-up") {
            RenderOrder::RightUp
        } else if str_eq(s, "left-down") {
            RenderOrder::LeftDown
        } else if str_eq(s, "left-up") {
            RenderOrder::LeftUp
        } else {
            RenderOrder::RightDown
        }
    }

    /// The string that names this render order.
    pub fn as_str(&self) -> (s: &'static str)
        ensures
            match *self {
                RenderOrder::RightDown => s@ == "right-down"@,
                RenderOrder::RightUp => s@ == "right-up"@,
                RenderOrder::LeftDown => s@ == "left-down"@,
                RenderOrder::LeftUp => s@ == "left-up"@,
            },
    {
        match self {
            RenderOrder::RightDown => "right-down",
            RenderOrder::RightUp => "right-up",
            RenderOrder::LeftDown => "left-down",
            RenderOrder::LeftUp => "left-up",
        }
    }
}

impl StaggerIndex {
    /// The stagger index named by a string; anything unknown means even.
    pub fn from_string(s: &str) -> (r: StaggerIndex)
        ensures
            r == spec_stagger_index_from(s@),
    {
        if str_eq(s, "even") {
            StaggerIndex::Even
        } else if str_eq(s, "odd") {
            StaggerIndex::Odd
        } else {
            StaggerIndex::Even
        }
    }

    /// The string that names this stagger index.
    pub fn as_str(&self) -> (s: &'static str)
        ensures
            match *self {
                StaggerIndex::Even => s@ == "even"@,
                StaggerIndex::Odd => s@ == "odd"@,
            },
    {
        match self {
            StaggerIndex::Even => "even",
            StaggerIndex::Odd => "odd",
        }
    }
}

impl StaggerAxis {
    /// The stagger axis named by a string; anything unknown means the x
    /// axis.
    pub fn from_string(s: &str) -> (r: StaggerAxis)
        ensures
            r == spec_stagger_axis_from(s@),
    {
        if str_eq(s, "x") {
            StaggerAxis::StaggerX
        } else if str_eq(s, "y") {
            StaggerAxis::StaggerY
        } else {
            StaggerAxis::StaggerX
        }
    }

    /// The string that names this stagger axis.
    pub fn as_str(&self) -> (s: &'static str)
        ensures
            match *self {
                StaggerAxis::StaggerX => s@ == "x"@,
                StaggerAxis::StaggerY => s@ == "y"@,
            },
    {
        match self {
            StaggerAxis::StaggerX => "x",
            StaggerAxis::StaggerY => "y",
        }
    }
}

/// The editor default for a map's render order.
pub fn default_to_right_down() -> (r: RenderOrder)
    ensures
        r == RenderOrder::RightDown,
{
    RenderOrder::RightDown
}

/// The primary structure of all modules.
#[derive(Debug)]
pub struct TileMap {
    pub orientation: MapOrientation,
    pub height: u16,
    pub width: u16,
    pub nextobjectid: u32,
    pub nextlayerid: u16,
    pub tileheight: u16,
    pub tilewidth: u16,
    pub tiledversion: String,
    pub backgroundcolor: Option<Color>,
    pub renderorder: RenderOrder,
    pub hexsidelength: u16,
    pub staggeraxis: Option<StaggerAxis>,
    pub staggerindex: Option<StaggerIndex>,
    pub tilesets: Vec<Tileset>,
    pub layers: Vec<Layer>,
    pub properties: Vec<Property>,
}

/// The first layer with the given name, if any.
pub open spec fn spec_layer_by_name(layers: Seq<Layer>, name: Seq<char>) -> Option<Layer>
    decreases layers.len(),
{
    if layers.len() == 0 {
        None
    } else if layers[0].name@ == name {
        Some(layers[0])
    } else {
        spec_layer_by_name(layers.drop_first(), name)
    }
}

/// The index the gid lookup lands on: scanning from the back, the first
/// tileset whose `firstgid` is at or below the stripped gid.
pub open spec fn spec_tileset_index_for(tilesets: Seq<Tileset>, cf: u32) -> Option<int>
    decreases tilesets.len(),
{
    if tilesets.len() == 0 {
        None
    } else if tilesets.last().firstgid <= cf {
        Some(tilesets.len() - 1)
    } else {
        spec_tileset_index_for(tilesets.drop_last(), cf)
    }
}

/// The lookup finds a tileset as soon as any qualifies: it comes back
/// empty only when no tileset's `firstgid` is at or below the stripped
/// gid — in particular never for a gid at or past the first `firstgid`,
/// however far beyond the last tileset's range it points.
pub proof fn lemma_tileset_index_some(tilesets: Seq<Tileset>, cf: u32)
    requires
        exists|i: int| 0 <= i < tilesets.len() && (#[trigger] tilesets[i]).firstgid <= cf,
    ensures
        spec_tileset_index_for(tilesets, cf) is Some,
    decreases tilesets.len(),
{
    if tilesets.last().firstgid <= cf {
    } else {
        let i = choose|i: int| 0 <= i < tilesets.len() && (#[trigger] tilesets[i]).firstgid <= cf;
        assert(i < tilesets.len() - 1);
        assert(tilesets.drop_last()[i] == tilesets[i]);
        lemma_tileset_index_some(tilesets.drop_last(), cf);
    }
}

/// What the descending scan finds is the last qualifying tileset: its
/// `firstgid` is at or below the stripped gid and every tileset after it
/// starts above.  It comes back empty exactly when no tileset qualifies.
pub proof fn lemma_tileset_index_characterizes(tilesets: Seq<Tileset>, cf: u32)
    ensures
        match spec_tileset_index_for(tilesets, cf) {
            Some(ix) => 0 <= ix < tilesets.len() && tilesets[ix].firstgid <= cf && (forall|j: int|
                ix < j < tilesets.len() ==> (#[trigger] tilesets[j]).firstgid > cf),
            None => forall|j: int|
                0 <= j < tilesets.len() ==> (#[trigger] tilesets[j]).firstgid > cf,
        },
    decreases tilesets.len(),
{
    if tilesets.len() > 0 {
        if tilesets.last().firstgid <= cf {
        } else {
            lemma_tileset_index_characterizes(tilesets.drop_last(), cf);
            assert(forall|j: int|
                0 <= j < tilesets.len() - 1 ==> tilesets.drop_last()[j] == #[trigger] tilesets[j]);
        }
    }
}

/// Does each resolved tileset carry what its record says?
pub open spec fn spec_tilesets_match(ts: Seq<Tileset>, items: Seq<JsonValue>) -> bool {
    ts.len() == items.len() && forall|i: int|
        0 <= i < items.len() ==> ((#[trigger] items[i]) matches JsonValue::Obj(f)
            && crate::tileset::spec_tileset_matches(ts[i], f@))
}

/// Does every record of a tileset array conform?
pub open spec fn spec_tilesets_json_ok(items: Seq<JsonValue>) -> bool
    decreases items.len(),
{
    items.len() == 0 || (crate::tileset::spec_tileset_json_ok(items[0]) && spec_tilesets_json_ok(
        items.drop_first(),
    ))
}

/// A tileset array conforms exactly when each of its records does.
pub proof fn lemma_tilesets_json_ok_iff(items: Seq<JsonValue>)
    ensures
        spec_tilesets_json_ok(items) == (forall|i: int|
            0 <= i < items.len() ==> #[trigger] crate::tileset::spec_tileset_json_ok(items[i])),
    decreases items.len(),
{
    if items.len() > 0 {
        lemma_tilesets_json_ok_iff(items.drop_first());
        assert(forall|i: int|
            1 <= i < items.len() ==> #[trigger] items[i] == items.drop_first()[i - 1]);
        if spec_tilesets_json_ok(items) {
            assert forall|i: int|
                0 <= i < items.len() implies #[trigger] crate::tileset::spec_tileset_json_ok(
                items[i],
            ) by {
                if i > 0 {
                    assert(crate::tileset::spec_tileset_json_ok(items.drop_first()[i - 1]));
                }
            }
        }
        if forall|i: int|
            0 <= i < items.len() ==> #[trigger] crate::tileset::spec_tileset_json_ok(items[i]) {
            assert forall|i: int|
                0 <= i < items.drop_first().len() implies #[trigger] crate::tileset::spec_tileset_json_ok(
                items.drop_first()[i],
            ) by {
                assert(items.drop_first()[i] == items[i + 1]);
            }
            assert(crate::tileset::spec_tileset_json_ok(items[0]));
            assert(spec_tilesets_json_ok(items.drop_first()));
            assert(spec_tilesets_json_ok(items));
        }
    }
}

/// Reads an array of tileset records: it succeeds exactly when every
/// record conforms.
fn tilesets_from_array(items: &Vec<JsonValue>) -> (r: Result<Vec<Tileset>, LoadError>)
    ensures
        r matches Ok(ts) ==> spec_tilesets_match(ts@, items@),
        (r is Ok) == spec_tilesets_json_ok(items@),
{
    let n = items.len();
    let mut out: Vec<Tileset> = Vec::new();
    let mut i: usize = 0;
    while i < n
        invariant
            n == items@.len(),
            i <= n,
            out@.len() == i,
            forall|j: int|
                0 <= j < i ==> ((#[trigger] items@[j]) matches JsonValue::Obj(f)
                    && crate::tileset::spec_tileset_matches(out@[j], f@)),
            forall|j: int|
                0 <= j < i ==> #[trigger] crate::tileset::spec_tileset_json_ok(items@[j]),
        decreases n - i,
    {
        match Tileset::from_json(&items[i]) {
            Ok(t) => { out.push(t); },
            Err(e) => {
                proof {
                    assert(!crate::tileset::spec_tileset_json_ok(items@[i as int]));
                    lemma_tilesets_json_ok_iff(items@);
                }
                return Err(e);
            },
        }
        i += 1;
    }
    proof {
        lemma_tilesets_json_ok_iff(items@);
    }
    Ok(out)
}

/// Do the scalar members of a map record read cleanly?
pub open spec fn spec_map_scalars_ok(f: Seq<JsonField>) -> bool {
    &&& spec_field(f, "orientation"@) matches Some(JsonValue::Str(_))
    &&& spec_req_nat(f, "height"@, 0xffff) is Some
    &&& spec_req_nat(f, "width"@, 0xffff) is Some
    &&& spec_req_nat(f, "nextobjectid"@, 0xffff_ffff) is Some
    &&& spec_req_nat(f, "nextlayerid"@, 0xffff) is Some
    &&& spec_req_nat(f, "tileheight"@, 0xffff) is Some
    &&& spec_req_nat(f, "tilewidth"@, 0xffff) is Some
}

/// Does a resolved map carry exactly what its record says?
pub open spec fn spec_map_matches(m: TileMap, f: Seq<JsonField>) -> bool {
    &&& (match spec_field(f, "orientation"@) {
        Some(JsonValue::Str(s)) => m.orientation == spec_map_orientation_from(s@),
        _ => false,
    })
    &&& Some(m.height as u64) == spec_req_nat(f, "height"@, 0xffff)
    &&& Some(m.width as u64) == spec_req_nat(f, "width"@, 0xffff)
    &&& Some(m.nextobjectid as u64) == spec_req_nat(f, "nextobjectid"@, 0xffff_ffff)
    &&& Some(m.nextlayerid as u64) == spec_req_nat(f, "nextlayerid"@, 0xffff)
    &&& Some(m.tileheight as u64) == spec_req_nat(f, "tileheight"@, 0xffff)
    &&& Some(m.tilewidth as u64) == spec_req_nat(f, "tilewidth"@, 0xffff)
    &&& Some(m.tiledversion@) == spec_opt_str(f, "tiledversion"@, ""@)
    &&& (match spec_maybe_color(f, "backgroundcolor"@) {
        Some(oc) => m.backgroundcolor == oc,
        None => false,
    })
    &&& (match spec_field(f, "renderorder"@) {
        None => m.renderorder == RenderOrder::RightDown,
        Some(JsonValue::Str(s)) => m.renderorder == spec_render_order_from(s@),
        Some(_) => false,
    })
    &&& Some(m.hexsidelength as u64) == spec_opt_nat(f, "hexsidelength"@, 0, 0xffff)
    &&& (match spec_field(f, "staggeraxis"@) {
        None => m.staggeraxis is None,
        Some(JsonValue::Str(s)) => m.staggeraxis == Some(spec_stagger_axis_from(s@)),
        Some(_) => false,
    })
    &&& (match spec_field(f, "staggerindex"@) {
        None => m.staggerindex is None,
        Some(JsonValue::Str(s)) => m.staggerindex == Some(spec_stagger_index_from(s@)),
        Some(_) => false,
    })
    &&& (match spec_field(f, "tilesets"@) {
        None => m.tilesets@.len() == 0,
        Some(JsonValue::Arr(items)) => spec_tilesets_match(m.tilesets@, items@),
        Some(_) => false,
    })
    &&& (match spec_field(f, "layers"@) {
        None => m.layers@.len() == 0,
        Some(JsonValue::Arr(items)) => m.layers@.len() == items@.len() && (forall|i: int|
            0 <= i < items@.len() ==> spec_layer_matches(#[trigger] m.layers@[i], items@[i])),
        Some(_) => false,
    })
    &&& (match spec_properties_field(f) {
        Some(ps) => m.properties@ == ps,
        None => false,
    })
}

/// Do the flat members of a map record all read cleanly?  This is every
/// condition on a map document except the ones on its tileset and layer
/// records.
pub open spec fn spec_map_fields_ok(f: Seq<JsonField>) -> bool {
    &&& spec_map_scalars_ok(f)
    &&& spec_opt_str(f, "tiledversion"@, ""@) is Some
    &&& spec_maybe_color(f, "backgroundcolor"@) is Some
    &&& (match spec_field(f, "renderorder"@) {
        None => true,
        Some(JsonValue::Str(_)) => true,
        Some(_) => false,
    })
    &&& spec_opt_nat(f, "hexsidelength"@, 0, 0xffff) is Some
    &&& (match spec_field(f, "staggeraxis"@) {
        None => true,
        Some(JsonValue::Str(_)) => true,
        Some(_) => false,
    })
    &&& (match spec_field(f, "staggerindex"@) {
        None => true,
        Some(JsonValue::Str(_)) => true,
        Some(_) => false,
    })
    &&& spec_properties_field(f) is Some
}

/// Does a whole document conform to the map schema?  Its flat members
/// read cleanly, every tileset record conforms, and every layer record —
/// nested group children included — conforms with a recognized type and a
/// tile payload that decodes.  The load succeeds on exactly these
/// documents.
pub open spec fn spec_map_json_ok(v: JsonValue) -> bool {
    match v {
        JsonValue::Obj(f) => spec_map_fields_ok(f@) && (match spec_field(f@, "tilesets"@) {
            None => true,
            Some(JsonValue::Arr(items)) => spec_tilesets_json_ok(items@),
            Some(_) => false,
        }) && (match spec_field(f@, "layers"@) {
            None => true,
            Some(JsonValue::Arr(items)) => crate::layerreader::spec_layers_json_ok(items@),
            Some(_) => false,
        }),
        _ => false,
    }
}

impl TileMap {
    /// Reads a whole map document.  The orientation, the map and tile
    /// geometry and the id counters are required; tilesets, layers and
    /// properties default to empty lists.  It succeeds exactly on
    /// conforming documents (`spec_map_json_ok`), and all-or-nothing: any
    /// bad layer, tileset or property fails the whole load.
    pub fn from_json(v: &JsonValue) -> (r: Result<TileMap, LoadError>)
        ensures
            r matches Ok(m) ==> (*v matches JsonValue::Obj(f) && spec_map_matches(m, f@)),
            !(*v is Obj) ==> (r matches Err(e) && e is MalformedDocument),
            (r is Ok) == spec_map_json_ok(*v),
    {
        let f = match v {
            JsonValue::Obj(f) => f,
            _ => { return Err(LoadError::MalformedDocument); },
        };
        let orientation = match crate::json::json_field(f, "orientation") {
            Some(JsonValue::Str(s)) => MapOrientation::from_string(s.as_str()),
            _ => { return Err(LoadError::MalformedDocument); },
        };
        let height = match crate::json::req_nat_field(f, "height", 0xffff) {
            Ok(x) => x as u16,
            Err(e) => { return Err(e); },
        };
        let width = match crate::json::req_nat_field(f, "width", 0xffff) {
            Ok(x) => x as u16,
            Err(e) => { return Err(e); },
        };
        let nextobjectid = match crate::json::req_nat_field(f, "nextobjectid", 0xffff_ffff) {
            Ok(x) => x as u32,
            Err(e) => { return Err(e); },
        };
        let nextlayerid = match crate::json::req_nat_field(f, "nextlayerid", 0xffff) {
            Ok(x) => x as u16,
            Err(e) => { return Err(e); },
        };
        let tileheight = match crate::json::req_nat_field(f, "tileheight", 0xffff) {
            Ok(x) => x as u16,
            Err(e) => { return Err(e); },
        };
        let tilewidth = match crate::json::req_nat_field(f, "tilewidth", 0xffff) {
            Ok(x) => x as u16,
            Err(e) => { return Err(e); },
        };
        let tiledversion = match crate::json::opt_str_field(f, "tiledversion", "") {
            Ok(s) => s,
            Err(e) => { return Err(e); },
        };
        let backgroundcolor = match crate::color::maybe_color_field(f, "backgroundcolor") {
            Ok(o) => o,
            Err(e) => { return Err(e); },
        };
        let renderorder = match crate::json::json_field(f, "renderorder") {
            None => RenderOrder::RightDown,
            Some(JsonValue::Str(s)) => RenderOrder::from_string(s.as_str()),
            Some(_) => { return Err(LoadError::MalformedDocument); },
        };
        let hexsidelength = match crate::json::opt_nat_field(f, "hexsidelength", 0, 0xffff) {
            Ok(x) => x as u16,
            Err(e) => { return Err(e); },
        };
        let staggeraxis = match crate::json::json_field(f, "staggeraxis") {
            None => None,
            Some(JsonValue::Str(s)) => Some(StaggerAxis::from_string(s.as_str())),
            Some(_) => { return Err(LoadError::MalformedDocument); },
        };
        let staggerindex = match crate::json::json_field(f, "staggerindex") {
            None => None,
            Some(JsonValue::Str(s)) => Some(StaggerIndex::from_string(s.as_str())),
            Some(_) => { return Err(LoadError::MalformedDocument); },
        };
        let tilesets = match crate::json::json_field(f, "tilesets") {
            None => Vec::new(),
            Some(tv) => match tv {
                JsonValue::Arr(items) => match tilesets_from_array(items) {
                    Ok(ts) => ts,
                    Err(e) => { return Err(e); },
                },
                _ => { return Err(LoadError::MalformedDocument); },
            },
        };
        let layers = match crate::json::json_field(f, "layers") {
            None => Vec::new(),
            Some(lv) => match lv {
                JsonValue::Arr(items) => match crate::layerreader::layers_from_json(items) {
                    Ok(ls) => ls,
                    Err(e) => { return Err(e); },
                },
                _ => { return Err(LoadError::MalformedDocument); },
            },
        };
        let properties = match crate::property::properties_field(f) {
            Ok(ps) => ps,
            Err(e) => { return Err(e); },
        };
        Ok(
            TileMap {
                orientation,
                height,
                width,
                nextobjectid,
                nextlayerid,
                tileheight,
                tilewidth,
                tiledversion,
                backgroundcolor,
                renderorder,
                hexsidelength,
                staggeraxis,
                staggerindex,
                tilesets,
                layers,
                properties,
            },
        )
    }

    /// Borrow the layers vector.
    pub fn layers(&self) -> (r: &Vec<Layer>)
        ensures
            r == &self.layers,
    {
        &self.layers
    }

    /// The first layer with the given name, if any.
    pub fn layer_by_name(&self, name: &str) -> (r: Option<&Layer>)
        ensures
            match r {
                Some(l) => spec_layer_by_name(self.layers@, name@) == Some(*l),
                None => spec_layer_by_name(self.layers@, name@) is None,
            },
    {
        let n = self.layers.len();
        let mut i: usize = 0;
        proof {
            assert(self.layers@.skip(0) =~= self.layers@);
        }
        while i < n
            invariant
                n == self.layers@.len(),
                i <= n,
                spec_layer_by_name(self.layers@, name@) == spec_layer_by_name(
                    self.layers@.skip(i as int),
                    name@,
                ),
            decreases n - i,
        {
            proof {
                assert(self.layers@.skip(i as int)[0] == self.layers@[i as int]);
            }
            if str_eq(self.layers[i].name.as_str(), name) {
                return Some(&self.layers[i]);
            }
            proof {
                assert(self.layers@.skip(i as int).drop_first() =~= self.layers@.skip(i as int + 1));
            }
            i += 1;
        }
        proof {
            assert(self.layers@.skip(n as int) =~= Seq::<Layer>::empty());
        }
        None
    }

    /// Borrow the tileset vector.
    pub fn tilesets(&self) -> (r: &Vec<Tileset>)
        ensures
            r == &self.tilesets,
    {
        &self.tilesets
    }

    /// The tileset the gid points into: flags are stripped, and the
    /// tilesets are scanned from the back for the first whose `firstgid`
    /// is at or below the stripped gid.  No upper bound is checked: a gid
    /// past every tileset's range still lands in the tileset with the
    /// highest position.  `None` only when no tileset qualifies.
    pub fn tileset_by_gid(&self, gid: u32) -> (r: Option<&Tileset>)
        ensures
            match spec_tileset_index_for(self.tilesets@, crate::spec_gid_without_flags(gid)) {
                Some(ix) => r matches Some(ts) && 0 <= ix < self.tilesets@.len() && *ts
                    == self.tilesets@[ix],
                None => r is None,
            },
    {
        let cf = crate::gid_without_flags(gid);
        let mut i = self.tilesets.len();
        proof {
            assert(self.tilesets@.take(i as int) =~= self.tilesets@);
        }
        while i > 0
            invariant
                i <= self.tilesets@.len(),
                spec_tileset_index_for(self.tilesets@, crate::spec_gid_without_flags(gid))
                    == spec_tileset_index_for(
                    self.tilesets@.take(i as int),
                    crate::spec_gid_without_flags(gid),
                ),
                cf == crate::spec_gid_without_flags(gid),
            decreases i,
        {
            i = i - 1;
            proof {
                assert(self.tilesets@.take(i as int + 1).last() == self.tilesets@[i as int]);
            }
            if self.tilesets[i].firstgid <= cf {
                return Some(&self.tilesets[i]);
            }
            proof {
                assert(self.tilesets@.take(i as int + 1).drop_last() =~= self.tilesets@.take(
                    i as int,
                ));
            }
        }
        proof {
            assert(self.tilesets@.take(0) =~= Seq::<Tileset>::empty());
        }
        None
    }

    /// Get the map width in tiles.
    pub fn width(&self) -> (r: u16)
        ensures
            r == self.width,
    {
        self.width
    }

    /// Get the map height in tiles.
    pub fn height(&self) -> (r: u16)
        ensures
            r == self.height,
    {
        self.height
    }

    /// Get the width of a tile in the map.
    pub fn tile_width(&self) -> (r: u16)
        ensures
            r == self.tilewidth,
    {
        self.tilewidth
    }

    /// Get the height of a tile in the map.
    pub fn tile_height(&self) -> (r: u16)
        ensures
            r == self.tileheight,
    {
        self.tileheight
    }

    /// Get the background color of the map if specified.
    pub fn bg_color(&self) -> (r: Option<Color>)
        ensures
            r == self.backgroundcolor,
    {
        self.backgroundcolor
    }

    /// Retrieve the orientation of the map.
    pub fn orientation(&self) -> (r: MapOrientation)
        ensures
            r == self.orientation,
    {
        self.orientation
    }

    /// The render order; meaningful for orthogonal maps, defaulted
    /// otherwise.
    pub fn render_order(&self) -> (r: RenderOrder)
        ensures
            r == self.renderorder,
    {
        self.renderorder
    }

    /// Get the hex side length.  Hex maps only.
    pub fn hex_side_length(&self) -> (r: u16)
        ensures
            r == self.hexsidelength,
    {
        self.hexsidelength
    }

    /// The stagger axis; staggered and hexagonal maps only.
    pub fn stagger_axis(&self) -> (r: Option<StaggerAxis>)
        ensures
            r == self.staggeraxis,
    {
        self.staggeraxis
    }

    /// The stagger index; staggered and hexagonal maps only.
    pub fn stagger_index(&self) -> (r: Option<StaggerIndex>)
        ensures
            r == self.staggerindex,
    {
        self.staggerindex
    }

    /// The version of the editor the map was written with.
    pub fn tiled_version(&self) -> (r: &String)
        ensures
            r == &self.tiledversion,
    {
        &self.tiledversion
    }
}

impl HasProperty for TileMap {
    open spec fn spec_properties(&self) -> Seq<Property> {
        self.properties@
    }

    fn get_property_vector(&self) -> (r: &Vec<Property>) {
        &self.properties
    }

    fn get_property(&self, name: &str) -> (r: Option<&Property>) {
        crate::property::find_property(&self.properties, name)
    }

    fn get_property_value(&self, name: &str) -> (r: Option<&crate::property::PropertyValue>) {
        match crate::property::find_property(&self.properties, name) {
            Some(p) => Some(&p.value),
            None => None,
        }
    }
}

} // verus!
