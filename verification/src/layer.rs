//! Layers: the nodes of a map.
//!
//! A layer is structurally one of four unrelated shapes — a tile grid, an
//! object group, an image, or a group of nested layers — discriminated in
//! the document by a `type` string rather than a structural tag.  Here the
//! shape is a proper tagged union (`LayerDataContainer`), and the `ltype`
//! tag always agrees with the active variant.

use vstd::prelude::*;
use crate::color::Color;
use crate::object::Object;
use crate::property::HasProperty;
use crate::property::Property;
use crate::json::Real;

verus! {

/// The shape-specific payload of a layer.
#[derive(Debug)]
pub enum LayerDataContainer {
    TileLayer { data: Vec<u32> },
    ObjectGroup { draworder: DrawOrder, objects: Vec<Object> },
    ImageLayer { image: String, transparentcolor: Option<Color> },
    Group { layers: Vec<Layer> },
}

/// Which of the four shapes a layer has.
#[derive(Debug, Clone, Copy, PartialEq, Eq, Structural)]
pub enum LayerType {
    TileLayer,
    ObjectGroup,
    ImageLayer,
    Group,
}

/// Rendering order of the objects inside an object-group layer.
#[derive(Debug, Clone, Copy, PartialEq, Eq, Structural)]
pub enum DrawOrder {
    TopDown,
    Index,
}

/// A map node of any of the four shapes.
#[derive(Debug)]
pub struct Layer {
    /// Nested collision layers inside tiles carry no identifier.
    pub id: Option<u32>,
    pub name: String,
    pub opacity: Real,
    pub visible: bool,
    pub width: u32,
    pub height: u32,
    pub offsetx: Real,
    pub offsety: Real,
    pub ltype: LayerType,
    pub layerdata: LayerDataContainer,
    pub properties: Vec<Property>,
}

/// The tag always agrees with the active variant.
pub open spec fn spec_layer_wf(l: Layer) -> bool {
    match l.layerdata {
        LayerDataContainer::TileLayer { .. } => l.ltype == LayerType::TileLayer,
        LayerDataContainer::ObjectGroup { .. } => l.ltype == LayerType::ObjectGroup,
        LayerDataContainer::ImageLayer { .. } => l.ltype == LayerType::ImageLayer,
        LayerDataContainer::Group { .. } => l.ltype == LayerType::Group,
    }
}

impl Layer {
    /// Is the tile at `pos` flipped along the horizontal axis?  `false` for
    /// non-tile layers and for positions outside the data.
    pub fn is_flipped_horizontally(&self, pos: usize) -> (r: bool)
        ensures
            r == (self.layerdata matches LayerDataContainer::TileLayer { data } && pos
                < data@.len() && data@[pos as int] & crate::HORZ_FLIP_FLAG > 0),
    {
        if let LayerDataContainer::TileLayer { ref data } = self.layerdata {
            if pos < data.len() {
                return crate::gid_flipped_horizontally(data[pos]);
            }
        }
        false
    }

    /// Is the tile at `pos` flipped along the vertical axis?  `false` for
    /// non-tile layers and for positions outside the data.
    pub fn is_flipped_vertically(&self, pos: usize) -> (r: bool)
        ensures
            r == (self.layerdata matches LayerDataContainer::TileLayer { data } && pos
                < data@.len() && data@[pos as int] & crate::VERT_FLIP_FLAG > 0),
    {
        if let LayerDataContainer::TileLayer { ref data } = self.layerdata {
            if pos < data.len() {
                return crate::gid_flipped_vertically(data[pos]);
            }
        }
        false
    }

    /// Is the tile at `pos` flipped over the diagonal?  `false` for
    /// non-tile layers and for positions outside the data.
    pub fn is_flipped_diagonally(&self, pos: usize) -> (r: bool)
        ensures
            r == (self.layerdata matches LayerDataContainer::TileLayer { data } && pos
                < data@.len() && data@[pos as int] & crate::DIAG_FLIP_FLAG > 0),
    {
        if let LayerDataContainer::TileLayer { ref data } = self.layerdata {
            if pos < data.len() {
                return crate::gid_flipped_diagonally(data[pos]);
            }
        }
        false
    }

    /// All three flip flags of the tile at `pos` at once:
    /// (horizontal, vertical, diagonal).  All `false` for non-tile layers
    /// and for positions outside the data.
    pub fn is_flipped_hvd(&self, pos: usize) -> (r: (bool, bool, bool))
        ensures
            r.0 == (self.layerdata matches LayerDataContainer::TileLayer { data } && pos
                < data@.len() && data@[pos as int] & crate::HORZ_FLIP_FLAG > 0),
            r.1 == (self.layerdata matches LayerDataContainer::TileLayer { data } && pos
                < data@.len() && data@[pos as int] & crate::VERT_FLIP_FLAG > 0),
            r.2 == (self.layerdata matches LayerDataContainer::TileLayer { data } && pos
                < data@.len() && data@[pos as int] & crate::DIAG_FLIP_FLAG > 0),
    {
        if let LayerDataContainer::TileLayer { ref data } = self.layerdata {
            if pos < data.len() {
                return crate::gid_flipped_hvd(data[pos]);
            }
        }
        (false, false, false)
    }

    /// The gid at `pos` with the flip flags removed; 0 for non-tile layers
    /// and for positions outside the data.
    pub fn get_gid_without_flags(&self, pos: usize) -> (r: u32)
        ensures
            self.layerdata matches LayerDataContainer::TileLayer { data } ==> r == (
            if pos < data@.len() {
                crate::spec_gid_without_flags(data@[pos as int])
            } else {
                0u32
            }),
            !(self.layerdata is TileLayer) ==> r == 0,
    {
        if let LayerDataContainer::TileLayer { ref data } = self.layerdata {
            if pos < data.len() {
                return crate::gid_without_flags(data[pos]);
            }
        }
        0
    }

    /// See if the layer is a tile layer.
    pub fn is_tile_layer(&self) -> (r: bool)
        ensures
            r == (self.ltype is TileLayer),
    {
        match self.ltype {
            LayerType::TileLayer => true,
            _ => false,
        }
    }

    /// See if the layer is an object group.
    pub fn is_object_group(&self) -> (r: bool)
        ensures
            r == (self.ltype is ObjectGroup),
    {
        match self.ltype {
            LayerType::ObjectGroup => true,
            _ => false,
        }
    }

    /// See if the layer is an image layer.
    pub fn is_image_layer(&self) -> (r: bool)
        ensures
            r == (self.ltype is ImageLayer),
    {
        match self.ltype {
            LayerType::ImageLayer => true,
            _ => false,
        }
    }

    /// See if the layer is a group of layers.
    pub fn is_group(&self) -> (r: bool)
        ensures
            r == (self.ltype is Group),
    {
        match self.ltype {
            LayerType::Group => true,
            _ => false,
        }
    }

    /// The tile data of a tile layer, or `None` for any other shape.
    pub fn get_data(&self) -> (r: Option<&Vec<u32>>)
        ensures
            match self.layerdata {
                LayerDataContainer::TileLayer { data } => r matches Some(v) && v@ == data@,
                _ => r is None,
            },
    {
        if let LayerDataContainer::TileLayer { data: ref x } = self.layerdata {
            Some(x)
        } else {
            None
        }
    }

    /// The draw order of an object-group layer, or `None` for any other
    /// shape.
    pub fn get_draworder(&self) -> (r: Option<DrawOrder>)
        ensures
            match self.layerdata {
                LayerDataContainer::ObjectGroup { draworder, .. } => r == Some(draworder),
                _ => r is None,
            },
    {
        if let LayerDataContainer::ObjectGroup { draworder: order, .. } = self.layerdata {
            Some(order)
        } else {
            None
        }
    }

    /// The objects of an object-group layer, or `None` for any other shape.
    pub fn get_objects_vector(&self) -> (r: Option<&Vec<Object>>)
        ensures
            match self.layerdata {
                LayerDataContainer::ObjectGroup { objects, .. } => r matches Some(v) && v@
                    == objects@,
                _ => r is None,
            },
    {
        if let LayerDataContainer::ObjectGroup { objects: ref obj, .. } = self.layerdata {
            Some(obj)
        } else {
            None
        }
    }

    /// The image path of an image layer, or `None` for any other shape.
    pub fn get_image(&self) -> (r: Option<&String>)
        ensures
            match self.layerdata {
                LayerDataContainer::ImageLayer { image, .. } => r matches Some(v) && v@ == image@,
                _ => r is None,
            },
    {
        if let LayerDataContainer::ImageLayer { image: ref im, .. } = self.layerdata {
            Some(im)
        } else {
            None
        }
    }

    /// The transparent color of an image layer, or `None` for any other
    /// shape (and for an image layer without one).
    pub fn get_transparentcolor(&self) -> (r: Option<Color>)
        ensures
            match self.layerdata {
                LayerDataContainer::ImageLayer { transparentcolor, .. } => r == transparentcolor,
                _ => r is None,
            },
    {
        if let LayerDataContainer::ImageLayer { transparentcolor: tc, .. } = self.layerdata {
            tc
        } else {
            None
        }
    }

    /// The children of a group layer, or `None` for any other shape; a
    /// group's vector may well be empty.
    pub fn get_layers(&self) -> (r: Option<&Vec<Layer>>)
        ensures
            match self.layerdata {
                LayerDataContainer::Group { layers } => r matches Some(v) && v@ == layers@,
                _ => r is None,
            },
    {
        if let LayerDataContainer::Group { layers: ref lays } = self.layerdata {
            Some(lays)
        } else {
            None
        }
    }

    /// Get the x value of the layer (always 0).
    pub fn x(&self) -> (r: u32)
        ensures
            r == 0,
    {
        0
    }

    /// Get the y value of the layer (always 0).
    pub fn y(&self) -> (r: u32)
        ensures
            r == 0,
    {
        0
    }

    /// Not all layers have unique ids: the collision layers nested in tiles
    /// lack one.
    pub fn id(&self) -> (r: Option<u32>)
        ensures
            r == self.id,
    {
        self.id
    }

    /// The name of the layer; empty unless set in the editor.
    pub fn name(&self) -> (r: &String)
        ensures
            r == &self.name,
    {
        &self.name
    }

    /// The opacity; 1.0 if the document gave none.
    pub fn opacity(&self) -> (r: Real)
        ensures
            r == self.opacity,
    {
        self.opacity
    }

    /// Is this visible in the editor?
    pub fn visible(&self) -> (r: bool)
        ensures
            r == self.visible,
    {
        self.visible
    }

    /// Width in tiles.
    pub fn width(&self) -> (r: u32)
        ensures
            r == self.width,
    {
        self.width
    }

    /// Height in tiles.
    pub fn height(&self) -> (r: u32)
        ensures
            r == self.height,
    {
        self.height
    }

    /// Horizontal layer offset in pixels.
    pub fn offset_x(&self) -> (r: Real)
        ensures
            r == self.offsetx,
    {
        self.offsetx
    }

    /// Vertical layer offset in pixels.
    pub fn offset_y(&self) -> (r: Real)
        ensures
            r == self.offsety,
    {
        self.offsety
    }

    /// Which of the four shapes the layer has.
    pub fn layer_type(&self) -> (r: LayerType)
        ensures
            r == self.ltype,
    {
        self.ltype
    }
}

impl HasProperty for Layer {
    open spec fn spec_properties(&self) -> Seq<Property> {
        self.properties@
    }

    fn get_property_vector(&self) -> (r: &Vec<Property>) {
        &self.properties
    }

    fn get_property(&self, name: &str) -> (r: Option<&Property>) {
        crate::property::find_property(&self.properties, name)
    }

    fn get_property_value(&self, name: &str) -> (r: Option<&crate::property::PropertyValue>) {
        match crate::property::find_property(&self.properties, name) {
            Some(p) => Some(&p.value),
            None => None,
        }
    }
}

impl LayerType {
    /// The discriminator string that names this shape in a document.
    pub fn as_str(&self) -> (s: &'static str)
        ensures
            match *self {
                LayerType::TileLayer => s@ == "tilelayer"@,
                LayerType::ObjectGroup => s@ == "objectgroup"@,
                LayerType::ImageLayer => s@ == "imagelayer"@,
                LayerType::Group => s@ == "group"@,
            },
    {
        match self {
            LayerType::TileLayer => "tilelayer",
            LayerType::ObjectGroup => "objectgroup",
            LayerType::ImageLayer => "imagelayer",
            LayerType::Group => "group",
        }
    }
}

impl DrawOrder {
    /// The string that names this draw order in a document.
    pub fn as_str(&self) -> (s: &'static str)
        ensures
            match *self {
                DrawOrder::TopDown => s@ == "topdown"@,
                DrawOrder::Index => s@ == "index"@,
            },
    {
        match self {
            DrawOrder::TopDown => "topdown",
            DrawOrder::Index => "index",
        }
    }
}

} // verus!
