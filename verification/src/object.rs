//! Objects, as carried by object-group layers.
//!
//! An object can stand for a rectangle, an ellipse, a point, a polygon, a
//! polyline or a block of text; tile definitions also use object groups for
//! collision shapes.  Geometry is carried as IEEE-754 bit patterns
//! (`Real`), untouched by the loader.

use vstd::prelude::*;
use crate::color::Color;
use crate::color::spec_opt_color;
use crate::error::LoadError;
use crate::json::JsonField;
use crate::json::JsonValue;
use crate::json::Real;
use crate::json::spec_field;
use crate::json::spec_maybe_nat;
use crate::json::spec_opt_bool;
use crate::json::spec_opt_nat;
use crate::json::spec_opt_real;
use crate::json::spec_opt_str;
use crate::json::spec_req_nat;
use crate::json::spec_req_real;
use crate::json::spec_req_str;
use crate::json::str_eq;
use crate::property::HasProperty;
use crate::property::Property;
use crate::property::spec_properties_field;

verus! {

/// A node of an object-group layer.
#[derive(Debug)]
pub struct Object {
    pub id: u32,
    pub x: Real,
    pub y: Real,
    /// Set only when the object stands for a tile.
    pub gid: Option<u32>,
    pub name: String,
    pub otype: String,
    pub height: Real,
    pub width: Real,
    pub rotation: Real,
    pub visible: bool,
    pub ellipse: bool,
    pub point: bool,
    pub polygon: Option<Vec<Point>>,
    pub polyline: Option<Vec<Point>>,
    pub text: Option<Text>,
    pub properties: Vec<Property>,
}

/// A single position, used by polygons and polylines.
#[derive(Debug, Clone, Copy, PartialEq, Eq, Structural)]
pub struct Point {
    pub x: Real,
    pub y: Real,
}

/// The text payload of a text object.
#[derive(Debug, Clone)]
pub struct Text {
    pub text: String,
    pub bold: bool,
    pub italic: bool,
    pub strikeout: bool,
    pub underline: bool,
    pub kerning: bool,
    pub wrap: bool,
    pub pixelsize: u16,
    pub color: Color,
    pub fontfamily: String,
    pub halign: HAlign,
    pub valign: VAlign,
}

/// Horizontal alignment of a text object.
#[derive(Debug, Clone, Copy, PartialEq, Eq, Structural)]
pub enum HAlign {
    Center,
    Right,
    Justify,
    Left,
}

/// Vertical alignment of a text object.
#[derive(Debug, Clone, Copy, PartialEq, Eq, Structural)]
pub enum VAlign {
    Center,
    Bottom,
    Top,
}

/// The alignment an `halign` string names; anything unknown means `Left`.
pub open spec fn spec_halign_from(s: Seq<char>) -> HAlign {
    if s == "left"@ {
        HAlign::Left
    } else if s == "right"@ {
        HAlign::Right
    } else if s == "justify"@ {
        HAlign::Justify
    } else if s == "center"@ {
        HAlign::Center
    } else {
        HAlign::Left
    }
}

/// The alignment a `valign` string names; anything unknown means `Top`.
pub open spec fn spec_valign_from(s: Seq<char>) -> VAlign {
    if s == "top"@ {
        VAlign::Top
    } else if s == "bottom"@ {
        VAlign::Bottom
    } else if s == "center"@ {
        VAlign::Center
    } else {
        VAlign::Top
    }
}

impl HAlign {
    /// The alignment named by a string; anything unknown means `Left`.
    pub fn from_string(s: &str) -> (r: HAlign)
        ensures
            r == spec_halign_from(s@),
    {
        if str_eq(s, "left") {
            HAlign::Left
        } else if str_eq(s, "right") {
            HAlign::Right
        } else if str_eq(s, "justify") {
            HAlign::Justify
        } else if str_eq(s, "center") {
            HAlign::Center
        } else {
            HAlign::Left
        }
    }

    /// The string that names this alignment.
    pub fn as_str(&self) -> (s: &'static str)
        ensures
            match *self {
                HAlign::Center => s@ == "center"@,
                HAlign::Right => s@ == "right"@,
                HAlign::Justify => s@ == "justify"@,
                HAlign::Left => s@ == "left"@,
            },
    {
        match self {
            HAlign::Center => "center",
            HAlign::Right => "right",
            HAlign::Justify => "justify",
            HAlign::Left => "left",
        }
    }
}

impl VAlign {
    /// The alignment named by a string; anything unknown means `Top`.
    pub fn from_string(s: &str) -> (r: VAlign)
        ensures
            r == spec_valign_from(s@),
    {
        if str_eq(s, "top") {
            VAlign::Top
        } else if str_eq(s, "bottom") {
            VAlign::Bottom
        } else if str_eq(s, "center") {
            VAlign::Center
        } else {
            VAlign::Top
        }
    }

    /// The string that names this alignment.
    pub fn as_str(&self) -> (s: &'static str)
        ensures
            match *self {
                VAlign::Center => s@ == "center"@,
                VAlign::Bottom => s@ == "bottom"@,
                VAlign::Top => s@ == "top"@,
            },
    {
        match self {
            VAlign::Center => "center",
            VAlign::Bottom => "bottom",
            VAlign::Top => "top",
        }
    }
}

/// What a point record resolves to, or `None` when it is not an object
/// with numeric `x` and `y`.
pub open spec fn spec_point_of(v: JsonValue) -> Option<Point> {
    match v {
        JsonValue::Obj(f) => match (spec_req_real(f@, "x"@), spec_req_real(f@, "y"@)) {
            (Some(x), Some(y)) => Some(Point { x, y }),
            _ => None,
        },
        _ => None,
    }
}

/// What a list of point records resolves to, or `None` when any is bad.
pub open spec fn spec_points_of(items: Seq<JsonValue>) -> Option<Seq<Point>> {
    if forall|i: int| 0 <= i < items.len() ==> (#[trigger] spec_point_of(items[i])) is Some {
        Some(Seq::new(items.len(), |i: int| spec_point_of(items[i])->0))
    } else {
        None
    }
}

/// Mirror of `maybe_points_field`.
pub open spec fn spec_maybe_points(fields: Seq<JsonField>, key: Seq<char>) -> Option<
    Option<Seq<Point>>,
> {
    match spec_field(fields, key) {
        None => Some(None),
        Some(JsonValue::Arr(items)) => match spec_points_of(items@) {
            Some(ps) => Some(Some(ps)),
            None => None,
        },
        Some(_) => None,
    }
}

impl Point {
    /// Reads one point record: an object with numeric `x` and `y`.
    pub fn from_json(v: &JsonValue) -> (r: Result<Point, LoadError>)
        ensures
            match spec_point_of(*v) {
                Some(p) => r matches Ok(rp) && rp == p,
                None => r matches Err(e) && e is MalformedDocument,
            },
    {
        let f = match v {
            JsonValue::Obj(f) => f,
            _ => { return Err(LoadError::MalformedDocument); },
        };
        let x = match crate::json::req_real_field(f, "x") {
            Ok(x) => x,
            Err(e) => { return Err(e); },
        };
        let y = match crate::json::req_real_field(f, "y") {
            Ok(y) => y,
            Err(e) => { return Err(e); },
        };
        Ok(Point { x, y })
    }

    /// Get the x value of the point.
    pub fn x(&self) -> (r: Real)
        ensures
            r == self.x,
    {
        self.x
    }

    /// Get the y value of the point.
    pub fn y(&self) -> (r: Real)
        ensures
            r == self.y,
    {
        self.y
    }
}

/// An optional array-of-points member: absent stays `None`.
pub fn maybe_points_field(fields: &Vec<JsonField>, key: &str) -> (r: Result<
    Option<Vec<Point>>,
    LoadError,
>)
    ensures
        match spec_maybe_points(fields@, key@) {
            Some(Some(ps)) => r matches Ok(o) && o matches Some(v) && v@ == ps,
            Some(None) => r matches Ok(o) && o is None,
            None => r matches Err(e) && e is MalformedDocument,
        },
{
    let fv = match crate::json::json_field(fields, key) {
        None => { return Ok(None); },
        Some(fv) => fv,
    };
    let items = match fv {
        JsonValue::Arr(items) => items,
        _ => { return Err(LoadError::MalformedDocument); },
    };
    let n = items.len();
    let mut out: Vec<Point> = Vec::new();
    let mut i: usize = 0;
    while i < n
        invariant
            n == items@.len(),
            i <= n,
            out@.len() == i,
            spec_field(fields@, key@) == Some(JsonValue::Arr(*items)),
            forall|j: int|
                0 <= j < i ==> (#[trigger] spec_point_of(items@[j])) is Some && out@[j]
                    == spec_point_of(items@[j])->0,
        decreases n - i,
    {
        match Point::from_json(&items[i]) {
            Ok(p) => { out.push(p); },
            Err(_) => {
                proof {
                    assert(spec_point_of(items@[i as int]) is None);
                    assert(spec_points_of(items@) is None);
                }
                return Err(LoadError::MalformedDocument);
            },
        }
        i += 1;
    }
    proof {
        assert(out@ =~= Seq::new(items@.len(), |k: int| spec_point_of(items@[k])->0));
    }
    Ok(Some(out))
}

/// Do all the members of a text record read cleanly?
pub open spec fn spec_text_ok(f: Seq<JsonField>) -> bool {
    &&& spec_req_str(f, "text"@) is Some
    &&& spec_opt_bool(f, "bold"@, false) is Some
    &&& spec_opt_bool(f, "italic"@, false) is Some
    &&& spec_opt_bool(f, "strikeout"@, false) is Some
    &&& spec_opt_bool(f, "underline"@, false) is Some
    &&& spec_opt_bool(f, "kerning"@, true) is Some
    &&& spec_opt_bool(f, "wrap"@, false) is Some
    &&& spec_opt_nat(f, "pixelsize"@, 16, 0xffff) is Some
    &&& spec_opt_color(f, "color"@, Color { r: 0, g: 0, b: 0, a: 255 }) is Some
    &&& spec_opt_str(f, "fontfamily"@, "sans-serif"@) is Some
    &&& spec_opt_str(f, "halign"@, ""@) is Some
    &&& spec_opt_str(f, "valign"@, ""@) is Some
}

/// Does a resolved `Text` carry exactly what the record's members say?
pub open spec fn spec_text_matches(t: Text, f: Seq<JsonField>) -> bool {
    &&& Some(t.text@) == spec_req_str(f, "text"@)
    &&& Some(t.bold) == spec_opt_bool(f, "bold"@, false)
    &&& Some(t.italic) == spec_opt_bool(f, "italic"@, false)
    &&& Some(t.strikeout) == spec_opt_bool(f, "strikeout"@, false)
    &&& Some(t.underline) == spec_opt_bool(f, "underline"@, false)
    &&& Some(t.kerning) == spec_opt_bool(f, "kerning"@, true)
    &&& Some(t.wrap) == spec_opt_bool(f, "wrap"@, false)
    &&& Some(t.pixelsize as u64) == spec_opt_nat(f, "pixelsize"@, 16, 0xffff)
    &&& Some(t.color) == spec_opt_color(f, "color"@, Color { r: 0, g: 0, b: 0, a: 255 })
    &&& Some(t.fontfamily@) == spec_opt_str(f, "fontfamily"@, "sans-serif"@)
    &&& match spec_field(f, "halign"@) {
        None => t.halign == HAlign::Left,
        Some(JsonValue::Str(s)) => t.halign == spec_halign_from(s@),
        Some(_) => false,
    }
    &&& match spec_field(f, "valign"@) {
        None => t.valign == VAlign::Top,
        Some(JsonValue::Str(s)) => t.valign == spec_valign_from(s@),
        Some(_) => false,
    }
}

impl Text {
    /// Reads one text record.  Only `text` itself is required; every other
    /// member has an editor default.
    pub fn from_json(v: &JsonValue) -> (r: Result<Text, LoadError>)
        ensures
            match *v {
                JsonValue::Obj(f) => if spec_text_ok(f@) {
                    r matches Ok(t) && spec_text_matches(t, f@)
                } else {
                    r matches Err(e) && e is MalformedDocument
                },
                _ => r matches Err(e) && e is MalformedDocument,
            },
    {
        let f = match v {
            JsonValue::Obj(f) => f,
            _ => { return Err(LoadError::MalformedDocument); },
        };
        let text = match crate::json::req_str_field(f, "text") {
            Ok(s) => s,
            Err(e) => { return Err(e); },
        };
        let bold = match crate::json::opt_bool_field(f, "bold", false) {
            Ok(b) => b,
            Err(e) => { return Err(e); },
        };
        let italic = match crate::json::opt_bool_field(f, "italic", false) {
            Ok(b) => b,
            Err(e) => { return Err(e); },
        };
        let strikeout = match crate::json::opt_bool_field(f, "strikeout", false) {
            Ok(b) => b,
            Err(e) => { return Err(e); },
        };
        let underline = match crate::json::opt_bool_field(f, "underline", false) {
            Ok(b) => b,
            Err(e) => { return Err(e); },
        };
        let kerning = match crate::json::opt_bool_field(f, "kerning", true) {
            Ok(b) => b,
            Err(e) => { return Err(e); },
        };
        let wrap = match crate::json::opt_bool_field(f, "wrap", false) {
            Ok(b) => b,
            Err(e) => { return Err(e); },
        };
        let pixelsize = match crate::json::opt_nat_field(f, "pixelsize", 16, 0xffff) {
            Ok(x) => x as u16,
            Err(e) => { return Err(e); },
        };
        let color = match crate::color::opt_color_field(f, "color", default_to_black()) {
            Ok(c) => c,
            Err(e) => { return Err(e); },
        };
        let fontfamily = match crate::json::opt_str_field(f, "fontfamily", "sans-serif") {
            Ok(s) => s,
            Err(e) => { return Err(e); },
        };
        let halign = match crate::json::json_field(f, "halign") {
            None => HAlign::Left,
            Some(JsonValue::Str(s)) => HAlign::from_string(s.as_str()),
            Some(_) => { return Err(LoadError::MalformedDocument); },
        };
        let valign = match crate::json::json_field(f, "valign") {
            None => VAlign::Top,
            Some(JsonValue::Str(s)) => VAlign::from_string(s.as_str()),
            Some(_) => { return Err(LoadError::MalformedDocument); },
        };
        Ok(
            Text {
                text,
                bold,
                italic,
                strikeout,
                underline,
                kerning,
                wrap,
                pixelsize,
                color,
                fontfamily,
                halign,
                valign,
            },
        )
    }

    /// Get the string of text needing displayed.
    pub fn text(&self) -> (r: &String)
        ensures
            r == &self.text,
    {
        &self.text
    }

    /// Is the text supposed to be bold?
    pub fn is_bold(&self) -> (r: bool)
        ensures
            r == self.bold,
    {
        self.bold
    }

    /// Is the text supposed to be italic?
    pub fn is_italic(&self) -> (r: bool)
        ensures
            r == self.italic,
    {
        self.italic
    }

    /// Does the text have a strikeout?
    pub fn is_strikeout(&self) -> (r: bool)
        ensures
            r == self.strikeout,
    {
        self.strikeout
    }

    /// Is the text supposed to be underlined?
    pub fn is_underline(&self) -> (r: bool)
        ensures
            r == self.underline,
    {
        self.underline
    }

    /// Does the text use kerning for display?
    pub fn is_kerning(&self) -> (r: bool)
        ensures
            r == self.kerning,
    {
        self.kerning
    }

    /// Does the text wrap around?
    pub fn is_wrap(&self) -> (r: bool)
        ensures
            r == self.wrap,
    {
        self.wrap
    }

    /// Describe the size in pixels of the text.
    pub fn pixel_size(&self) -> (r: u16)
        ensures
            r == self.pixelsize,
    {
        self.pixelsize
    }

    /// Retrieve the color the text is supposed to be.
    pub fn color(&self) -> (r: Color)
        ensures
            r == self.color,
    {
        self.color
    }

    /// Get the font-family of the text.
    pub fn font_family(&self) -> (r: &String)
        ensures
            r == &self.fontfamily,
    {
        &self.fontfamily
    }

    /// Get the horizontal alignment in the form of an HAlign enum.
    pub fn horizontal_alignment(&self) -> (r: HAlign)
        ensures
            r == self.halign,
    {
        self.halign
    }

    /// Get the horizontal alignment of the text as a string.
    pub fn halign_as_string(&self) -> (s: String)
        ensures
            match self.halign {
                HAlign::Center => s@ == "center"@,
                HAlign::Right => s@ == "right"@,
                HAlign::Justify => s@ == "justify"@,
                HAlign::Left => s@ == "left"@,
            },
    {
        self.halign.as_str().to_owned()
    }

    /// Get the vertical alignment in the form of a VAlign enum.
    pub fn vertical_alignment(&self) -> (r: VAlign)
        ensures
            r == self.valign,
    {
        self.valign
    }

    /// Get the vertical alignment of the text as a string.
    pub fn valign_as_string(&self) -> (s: String)
        ensures
            match self.valign {
                VAlign::Center => s@ == "center"@,
                VAlign::Bottom => s@ == "bottom"@,
                VAlign::Top => s@ == "top"@,
            },
    {
        self.valign.as_str().to_owned()
    }
}

/// Is the `text` member of an object record, if any, a good text record?
pub open spec fn spec_object_text_ok(f: Seq<JsonField>) -> bool {
    match spec_field(f, "text"@) {
        None => true,
        Some(JsonValue::Obj(tf)) => spec_text_ok(tf@),
        Some(_) => false,
    }
}

/// Do all the members of an object record read cleanly?
pub open spec fn spec_object_ok(f: Seq<JsonField>) -> bool {
    &&& spec_req_nat(f, "id"@, 0xffff_ffff) is Some
    &&& spec_req_real(f, "x"@) is Some
    &&& spec_req_real(f, "y"@) is Some
    &&& spec_maybe_nat(f, "gid"@, 0xffff_ffff) is Some
    &&& spec_opt_str(f, "name"@, ""@) is Some
    &&& spec_opt_str(f, "type"@, ""@) is Some
    &&& spec_opt_real(f, "height"@, Real::spec_zero()) is Some
    &&& spec_opt_real(f, "width"@, Real::spec_zero()) is Some
    &&& spec_opt_real(f, "rotation"@, Real::spec_zero()) is Some
    &&& spec_opt_bool(f, "visible"@, true) is Some
    &&& spec_opt_bool(f, "ellipse"@, false) is Some
    &&& spec_opt_bool(f, "point"@, false) is Some
    &&& spec_maybe_points(f, "polygon"@) is Some
    &&& spec_maybe_points(f, "polyline"@) is Some
    &&& spec_object_text_ok(f)
    &&& spec_properties_field(f) is Some
}

/// Does a resolved `Object` carry exactly what the record's members say?
pub open spec fn spec_object_matches(o: Object, f: Seq<JsonField>) -> bool {
    &&& Some(o.id as u64) == spec_req_nat(f, "id"@, 0xffff_ffff)
    &&& Some(o.x) == spec_req_real(f, "x"@)
    &&& Some(o.y) == spec_req_real(f, "y"@)
    &&& match spec_maybe_nat(f, "gid"@, 0xffff_ffff) {
        Some(Some(g)) => o.gid == Some(g as u32),
        Some(None) => o.gid is None,
        None => false,
    }
    &&& Some(o.name@) == spec_opt_str(f, "name"@, ""@)
    &&& Some(o.otype@) == spec_opt_str(f, "type"@, ""@)
    &&& Some(o.height) == spec_opt_real(f, "height"@, Real::spec_zero())
    &&& Some(o.width) == spec_opt_real(f, "width"@, Real::spec_zero())
    &&& Some(o.rotation) == spec_opt_real(f, "rotation"@, Real::spec_zero())
    &&& Some(o.visible) == spec_opt_bool(f, "visible"@, true)
    &&& Some(o.ellipse) == spec_opt_bool(f, "ellipse"@, false)
    &&& Some(o.point) == spec_opt_bool(f, "point"@, false)
    &&& match spec_maybe_points(f, "polygon"@) {
        Some(Some(ps)) => o.polygon matches Some(v) && v@ == ps,
        Some(None) => o.polygon is None,
        None => false,
    }
    &&& match spec_maybe_points(f, "polyline"@) {
        Some(Some(ps)) => o.polyline matches Some(v) && v@ == ps,
        Some(None) => o.polyline is None,
        None => false,
    }
    &&& match spec_field(f, "text"@) {
        None => o.text is None,
        Some(JsonValue::Obj(tf)) => o.text matches Some(t) && spec_text_matches(t, tf@),
        Some(_) => false,
    }
    &&& match spec_properties_field(f) {
        Some(ps) => o.properties@ == ps,
        None => false,
    }
}

impl Object {
    /// Reads one object record.  `id`, `x` and `y` are required; every
    /// other member has an editor default or stays absent.
    pub fn from_json(v: &JsonValue) -> (r: Result<Object, LoadError>)
        ensures
            match *v {
                JsonValue::Obj(f) => if spec_object_ok(f@) {
                    r matches Ok(o) && spec_object_matches(o, f@)
                } else {
                    r matches Err(e) && e is MalformedDocument
                },
                _ => r matches Err(e) && e is MalformedDocument,
            },
    {
        let f = match v {
            JsonValue::Obj(f) => f,
            _ => { return Err(LoadError::MalformedDocument); },
        };
        let id = match crate::json::req_nat_field(f, "id", 0xffff_ffff) {
            Ok(x) => x as u32,
            Err(e) => { return Err(e); },
        };
        let x = match crate::json::req_real_field(f, "x") {
            Ok(x) => x,
            Err(e) => { return Err(e); },
        };
        let y = match crate::json::req_real_field(f, "y") {
            Ok(y) => y,
            Err(e) => { return Err(e); },
        };
        let gid = match crate::json::maybe_nat_field(f, "gid", 0xffff_ffff) {
            Ok(Some(g)) => Some(g as u32),
            Ok(None) => None,
            Err(e) => { return Err(e); },
        };
        let name = match crate::json::opt_str_field(f, "name", "") {
            Ok(s) => s,
            Err(e) => { return Err(e); },
        };
        let otype = match crate::json::opt_str_field(f, "type", "") {
            Ok(s) => s,
            Err(e) => { return Err(e); },
        };
        let height = match crate::json::opt_real_field(f, "height", Real::zero()) {
            Ok(x) => x,
            Err(e) => { return Err(e); },
        };
        let width = match crate::json::opt_real_field(f, "width", Real::zero()) {
            Ok(x) => x,
            Err(e) => { return Err(e); },
        };
        let rotation = match crate::json::opt_real_field(f, "rotation", Real::zero()) {
            Ok(x) => x,
            Err(e) => { return Err(e); },
        };
        let visible = match crate::json::opt_bool_field(f, "visible", true) {
            Ok(b) => b,
            Err(e) => { return Err(e); },
        };
        let ellipse = match crate::json::opt_bool_field(f, "ellipse", false) {
            Ok(b) => b,
            Err(e) => { return Err(e); },
        };
        let point = match crate::json::opt_bool_field(f, "point", false) {
            Ok(b) => b,
            Err(e) => { return Err(e); },
        };
        let polygon = match maybe_points_field(f, "polygon") {
            Ok(o) => o,
            Err(e) => { return Err(e); },
        };
        let polyline = match maybe_points_field(f, "polyline") {
            Ok(o) => o,
            Err(e) => { return Err(e); },
        };
        let text = match crate::json::json_field(f, "text") {
            None => None,
            Some(tv) => match Text::from_json(tv) {
                Ok(t) => Some(t),
                Err(_) => { return Err(LoadError::MalformedDocument); },
            },
        };
        let properties = match crate::property::properties_field(f) {
            Ok(ps) => ps,
            Err(e) => { return Err(e); },
        };
        Ok(
            Object {
                id,
                x,
                y,
                gid,
                name,
                otype,
                height,
                width,
                rotation,
                visible,
                ellipse,
                point,
                polygon,
                polyline,
                text,
                properties,
            },
        )
    }

    /// Get the object id, unique across all objects.
    pub fn id(&self) -> (r: u32)
        ensures
            r == self.id,
    {
        self.id
    }

    /// Horizontal position.
    pub fn x(&self) -> (r: Real)
        ensures
            r == self.x,
    {
        self.x
    }

    /// Vertical position.
    pub fn y(&self) -> (r: Real)
        ensures
            r == self.y,
    {
        self.y
    }

    /// Get object gid if it represents a tile.
    pub fn gid(&self) -> (r: Option<u32>)
        ensures
            r == self.gid,
    {
        self.gid
    }

    /// Get the name of the object.
    pub fn name(&self) -> (r: &String)
        ensures
            r == &self.name,
    {
        &self.name
    }

    /// Get the user-defined type of the object.
    pub fn obj_type(&self) -> (r: &String)
        ensures
            r == &self.otype,
    {
        &self.otype
    }

    /// Height of the object.
    pub fn height(&self) -> (r: Real)
        ensures
            r == self.height,
    {
        self.height
    }

    /// Width of the object.
    pub fn width(&self) -> (r: Real)
        ensures
            r == self.width,
    {
        self.width
    }

    /// Get the rotation of the object.
    pub fn rotation(&self) -> (r: Real)
        ensures
            r == self.rotation,
    {
        self.rotation
    }

    /// Is the object visible in the editor?
    pub fn visible(&self) -> (r: bool)
        ensures
            r == self.visible,
    {
        self.visible
    }

    /// Does the object describe an ellipse?
    pub fn is_ellipse(&self) -> (r: bool)
        ensures
            r == self.ellipse,
    {
        self.ellipse
    }

    /// Does the object describe a point?
    pub fn is_point(&self) -> (r: bool)
        ensures
            r == self.point,
    {
        self.point
    }

    /// Does the object describe a polygon?
    pub fn is_polygon(&self) -> (r: bool)
        ensures
            r == (self.polygon is Some),
    {
        self.polygon.is_some()
    }

    /// Does the object describe a polyline?
    pub fn is_polyline(&self) -> (r: bool)
        ensures
            r == (self.polyline is Some),
    {
        self.polyline.is_some()
    }

    /// Does the object describe text?
    pub fn is_text(&self) -> (r: bool)
        ensures
            r == (self.text is Some),
    {
        self.text.is_some()
    }

    /// Get a reference to the polygon vector of points.
    pub fn polygon(&self) -> (r: Option<&Vec<Point>>)
        ensures
            match self.polygon {
                Some(ps) => r matches Some(v) && *v == ps,
                None => r is None,
            },
    {
        self.polygon.as_ref()
    }

    /// Gets a reference to the polyline vector of points.
    pub fn polyline(&self) -> (r: Option<&Vec<Point>>)
        ensures
            match self.polyline {
                Some(ps) => r matches Some(v) && *v == ps,
                None => r is None,
            },
    {
        self.polyline.as_ref()
    }

    /// Gets a reference to the text data of the object.
    pub fn text(&self) -> (r: Option<&Text>)
        ensures
            match self.text {
                Some(t) => r matches Some(v) && *v == t,
                None => r is None,
            },
    {
        self.text.as_ref()
    }
}

impl HasProperty for Object {
    open spec fn spec_properties(&self) -> Seq<Property> {
        self.properties@
    }

    fn get_property_vector(&self) -> (r: &Vec<Property>) {
        &self.properties
    }

    fn get_property(&self, name: &str) -> (r: Option<&Property>) {
        crate::property::find_property(&self.properties, name)
    }

    fn get_property_value(&self, name: &str) -> (r: Option<&crate::property::PropertyValue>) {
        match crate::property::find_property(&self.properties, name) {
            Some(p) => Some(&p.value),
            None => None,
        }
    }
}

/// The editor default for flags that start switched on.
pub fn default_to_true() -> (r: bool)
    ensures
        r == true,
{
    true
}

/// The editor default for flags that start switched off.
pub fn default_to_false() -> (r: bool)
    ensures
        r == false,
{
    false
}

/// The editor default for text pixel size.
pub fn default_to_16() -> (r: u16)
    ensures
        r == 16,
{
    16
}

/// The editor default for text color.
pub fn default_to_black() -> (r: Color)
    ensures
        r == (Color { r: 0, g: 0, b: 0, a: 255 }),
{
    Color { r: 0, g: 0, b: 0, a: 255 }
}

/// The editor default for text font family.
pub fn default_to_sansserif() -> (r: String)
    ensures
        r@ == "sans-serif"@,
{
    "sans-serif".to_owned()
}

/// The editor default for horizontal text alignment.
pub fn default_to_halign_left() -> (r: HAlign)
    ensures
        r == HAlign::Left,
{
    HAlign::Left
}

/// The editor default for vertical text alignment.
pub fn default_to_valign_top() -> (r: VAlign)
    ensures
        r == VAlign::Top,
{
    VAlign::Top
}

} // verus!
