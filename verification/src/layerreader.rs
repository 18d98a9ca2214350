//! The layer decoding pipeline.
//!
//! A raw layer record is an all-optional projection of every member any of
//! the four layer shapes may carry (`LayerReader`); it exists only to be
//! consumed by `layer_from_reader`, which dispatches on the declared
//! `type` string and builds exactly one tagged `Layer`.
//!
//! A tile-grid layer's `data` is either a plain integer array or a base64
//! string whose decoded bytes are optionally zlib- or gzip-compressed and
//! must spell exactly width x height little-endian 32-bit words.  The
//! decoder keeps four failure classes apart: bad base64, an unknown
//! compression name, a corrupt stream, and a wrong byte count.  An absent
//! or explicitly empty payload is an empty tile grid, not an error.

use vstd::prelude::*;
use crate::color::Color;
use crate::color::spec_maybe_color;
use crate::error::LoadError;
use crate::json::JsonField;
use crate::json::JsonValue;
use crate::json::Real;
use crate::json::spec_field;
use crate::json::spec_int_in;
use crate::json::spec_maybe_nat;
use crate::json::spec_maybe_str;
use crate::json::spec_opt_bool;
use crate::json::spec_opt_nat;
use crate::json::spec_opt_real;
use crate::json::spec_opt_str;
use crate::json::spec_req_str;
use crate::json::str_eq;
use crate::layer::DrawOrder;
use crate::layer::Layer;
use crate::layer::LayerDataContainer;
use crate::layer::LayerType;
use crate::layer::spec_layer_wf;
use crate::object::Object;
use crate::object::spec_object_matches;
use crate::object::spec_object_ok;
use crate::property::Property;
use crate::property::spec_properties_field;
use std::io::Read;

verus! {

/// What `base64::decode` returns for a string: the decoded bytes, or
/// nothing when the string is not valid standard base64.
pub uninterp spec fn base64_decode_of(s: Seq<char>) -> Option<Seq<u8>>;

/// What a zlib stream inflates to: the decompressed bytes, or nothing when
/// the stream is truncated or corrupt.
pub uninterp spec fn zlib_inflate_of(b: Seq<u8>) -> Option<Seq<u8>>;

/// What a gzip stream inflates to: the decompressed bytes, or nothing when
/// the stream is truncated or corrupt.
pub uninterp spec fn gzip_inflate_of(b: Seq<u8>) -> Option<Seq<u8>>;

/// Relies on base64::decode (standard alphabet, with padding): the result
/// depends on the characters alone.
#[verifier::external_body]
fn base64_decode(s: &str) -> (r: Option<Vec<u8>>)
    ensures
        r matches Some(v) ==> base64_decode_of(s@) == Some(v@),
        r is None ==> base64_decode_of(s@) is None,
{
    match base64::decode(s) {
        Ok(v) => Some(v),
        Err(_) => None,
    }
}

/// Relies on flate2's bufread::ZlibDecoder with Read::read_to_end: the
/// result depends on the input bytes alone.
#[verifier::external_body]
fn zlib_inflate(data: &Vec<u8>) -> (r: Option<Vec<u8>>)
    ensures
        r matches Some(v) ==> zlib_inflate_of(data@) == Some(v@),
        r is None ==> zlib_inflate_of(data@) is None,
{
    let mut out: Vec<u8> = Vec::new();
    let mut dec = flate2::bufread::ZlibDecoder::new(data.as_slice());
    match dec.read_to_end(&mut out) {
        Ok(_) => Some(out),
        Err(_) => None,
    }
}

/// Relies on flate2's bufread::GzDecoder with Read::read_to_end: the
/// result depends on the input bytes alone.
#[verifier::external_body]
fn gzip_inflate(data: &Vec<u8>) -> (r: Option<Vec<u8>>)
    ensures
        r matches Some(v) ==> gzip_inflate_of(data@) == Some(v@),
        r is None ==> gzip_inflate_of(data@) is None,
{
    let mut out: Vec<u8> = Vec::new();
    let mut dec = flate2::bufread::GzDecoder::new(data.as_slice());
    match dec.read_to_end(&mut out) {
        Ok(_) => Some(out),
        Err(_) => None,
    }
}

/// The 32-bit word spelled by bytes 4i..4i+4, least significant first.
pub open spec fn spec_le_word(b: Seq<u8>, i: int) -> u32 {
    (b[4 * i] as u32) | ((b[4 * i + 1] as u32) << 8) | ((b[4 * i + 2] as u32) << 16) | ((b[4 * i
        + 3] as u32) << 24)
}

/// A byte buffer read as little-endian 32-bit words, in order; a trailing
/// fragment shorter than a word is ignored.
pub open spec fn spec_words(b: Seq<u8>) -> Seq<u32> {
    Seq::new((b.len() / 4) as nat, |i: int| spec_le_word(b, i))
}

/// Byte `k` (0..4) of a word, least significant first.
pub open spec fn spec_le_byte(w: u32, k: int) -> u8 {
    if k == 0 {
        (w & 0xff) as u8
    } else if k == 1 {
        ((w >> 8) & 0xff) as u8
    } else if k == 2 {
        ((w >> 16) & 0xff) as u8
    } else {
        ((w >> 24) & 0xff) as u8
    }
}

/// A word sequence spelled out as little-endian bytes.
pub open spec fn spec_le_bytes(ws: Seq<u32>) -> Seq<u8> {
    Seq::new(ws.len() * 4, |i: int| spec_le_byte(ws[i / 4], i % 4))
}

/// The four failure classes of the tile-data decoder.
#[derive(Debug, Clone, Copy, PartialEq, Eq, Structural)]
pub enum DecodeFailure {
    InvalidEncoding,
    UnsupportedCompression,
    CorruptData,
    SizeMismatch,
}

/// The last stage of the decoder, applied to the (possibly decompressed)
/// byte buffer: empty means an empty grid, exactly `size * 4` bytes spell
/// `size` words, and any other length is a hard mismatch — trailing bytes
/// are never truncated or zero-padded.
pub open spec fn spec_finish(b: Seq<u8>, size: nat) -> Result<Option<Seq<u32>>, DecodeFailure> {
    if b.len() == 0 {
        Ok(None)
    } else if b.len() == size * 4 {
        Ok(Some(spec_words(b)))
    } else {
        Err(DecodeFailure::SizeMismatch)
    }
}

/// The compression scheme that is actually in force: an absent or empty
/// name means none.
pub open spec fn spec_active_scheme(c: Option<Seq<char>>) -> Option<Seq<char>> {
    match c {
        Some(s) => if s.len() > 0 {
            Some(s)
        } else {
            None
        },
        None => None,
    }
}

/// The view of an optional owned string.
pub open spec fn spec_opt_string_view(c: Option<String>) -> Option<Seq<char>> {
    match c {
        Some(s) => Some(s@),
        None => None,
    }
}

/// The whole base64 branch of the decoder: decode, then inflate under the
/// active scheme ("zlib" or "gzip" only), then read words.
pub open spec fn spec_decode_tile_data(s: Seq<char>, size: nat, scheme: Option<Seq<char>>) -> Result<
    Option<Seq<u32>>,
    DecodeFailure,
> {
    match base64_decode_of(s) {
        None => Err(DecodeFailure::InvalidEncoding),
        Some(b) => match scheme {
            None => spec_finish(b, size),
            Some(cs) => if cs == "zlib"@ {
                match zlib_inflate_of(b) {
                    None => Err(DecodeFailure::CorruptData),
                    Some(d) => spec_finish(d, size),
                }
            } else if cs == "gzip"@ {
                match gzip_inflate_of(b) {
                    None => Err(DecodeFailure::CorruptData),
                    Some(d) => spec_finish(d, size),
                }
            } else {
                Err(DecodeFailure::UnsupportedCompression)
            },
        },
    }
}

/// The tile data a raw layer record carries: a literal array, a base64
/// string, or nothing.
#[derive(Debug)]
pub enum TileLayerDataReader {
    Vector(Vec<u32>),
    Base64(String),
}

/// What the decoder makes of a whole source: an absent source and an
/// explicitly empty payload are both an empty grid, and a literal array
/// passes through unchanged.
pub open spec fn spec_tile_result(
    data: Option<TileLayerDataReader>,
    size: nat,
    scheme: Option<Seq<char>>,
) -> Result<Seq<u32>, DecodeFailure> {
    match data {
        None => Ok(Seq::empty()),
        Some(TileLayerDataReader::Vector(v)) => Ok(v@),
        Some(TileLayerDataReader::Base64(s)) => match spec_decode_tile_data(s@, size, scheme) {
            Ok(Some(ws)) => Ok(ws),
            Ok(None) => Ok(Seq::empty()),
            Err(k) => Err(k),
        },
    }
}

/// Does the error value carry the right class, layer name and scheme?
pub open spec fn spec_decode_error_matches(
    e: LoadError,
    k: DecodeFailure,
    name: Seq<char>,
    scheme: Option<Seq<char>>,
) -> bool {
    match k {
        DecodeFailure::InvalidEncoding => e matches LoadError::InvalidEncoding { layer_name }
            && layer_name@ == name,
        DecodeFailure::UnsupportedCompression => e matches LoadError::UnsupportedCompression {
            layer_name,
            scheme: sch,
        } && layer_name@ == name && Some(sch@) == scheme,
        DecodeFailure::CorruptData => e matches LoadError::CorruptData { layer_name }
            && layer_name@ == name,
        DecodeFailure::SizeMismatch => e matches LoadError::SizeMismatch { layer_name }
            && layer_name@ == name,
    }
}

/// Reads a whole byte buffer as little-endian 32-bit words.
fn words_from_bytes(bytes: &Vec<u8>) -> (r: Vec<u32>)
    requires
        bytes@.len() % 4 == 0,
    ensures
        r@ == spec_words(bytes@),
{
    let len = bytes.len();
    let count = len / 4;
    let mut out: Vec<u32> = Vec::new();
    let mut i: usize = 0;
    while i < count
        invariant
            len == bytes@.len(),
            count == len / 4,
            len % 4 == 0,
            i <= count,
            out@.len() == i,
            forall|j: int| 0 <= j < i ==> out@[j] == spec_le_word(bytes@, j),
        decreases count - i,
    {
        proof {
            assert(len == 4 * count);
            assert(4 * i + 3 < len);
        }
        let w = (bytes[4 * i] as u32) | ((bytes[4 * i + 1] as u32) << 8) | ((bytes[4 * i + 2]
            as u32) << 16) | ((bytes[4 * i + 3] as u32) << 24);
        out.push(w);
        i += 1;
    }
    proof {
        assert(out@ =~= spec_words(bytes@));
    }
    out
}

/// Decodes the base64 form of a tile layer's data: base64, then the
/// optional decompression, then exactly `size` little-endian words (or an
/// explicitly empty payload, which gives `None`).
pub fn decode_tile_layer_data(
    string_data: &str,
    size: u64,
    name: &str,
    compression: &Option<String>,
) -> (r: Result<Option<Vec<u32>>, LoadError>)
    ensures
        match spec_decode_tile_data(
            string_data@,
            size as nat,
            spec_active_scheme(spec_opt_string_view(*compression)),
        ) {
            Ok(Some(ws)) => r matches Ok(o) && o matches Some(v) && v@ == ws,
            Ok(None) => r matches Ok(o) && o is None,
            Err(k) => r matches Err(e) && spec_decode_error_matches(
                e,
                k,
                name@,
                spec_active_scheme(spec_opt_string_view(*compression)),
            ),
        },
{
    let decoded = match base64_decode(string_data) {
        Some(v) => v,
        None => { return Err(LoadError::InvalidEncoding { layer_name: name.to_owned() }); },
    };

    let buffer: Vec<u8>;
    match compression {
        Some(c) => {
            if c.as_str().is_empty() {
                buffer = decoded;
            } else if str_eq(c.as_str(), "zlib") {
                match zlib_inflate(&decoded) {
                    Some(d) => { buffer = d; },
                    None => {
                        return Err(LoadError::CorruptData { layer_name: name.to_owned() });
                    },
                }
            } else if str_eq(c.as_str(), "gzip") {
                match gzip_inflate(&decoded) {
                    Some(d) => { buffer = d; },
                    None => {
                        return Err(LoadError::CorruptData { layer_name: name.to_owned() });
                    },
                }
            } else {
                return Err(
                    LoadError::UnsupportedCompression {
                        layer_name: name.to_owned(),
                        scheme: c.clone(),
                    },
                );
            }
        },
        None => { buffer = decoded; },
    }

    if buffer.len() == 0 {
        return Ok(None);
    }
    if size > 0x3fff_ffff_ffff_ffff || (buffer.len() as u64) != 4 * size {
        return Err(LoadError::SizeMismatch { layer_name: name.to_owned() });
    }
    let words = words_from_bytes(&buffer);
    Ok(Some(words))
}

/// Decodes whatever tile data a layer record carried.  An absent source is
/// an empty grid; a literal array passes through unchanged; a base64
/// string runs through the full decode pipeline.
pub fn get_tile_layer_data(
    data: Option<TileLayerDataReader>,
    size: u64,
    name: &str,
    compression: &Option<String>,
) -> (r: Result<Vec<u32>, LoadError>)
    ensures
        match spec_tile_result(
            data,
            size as nat,
            spec_active_scheme(spec_opt_string_view(*compression)),
        ) {
            Ok(ws) => r matches Ok(v) && v@ == ws,
            Err(k) => r matches Err(e) && spec_decode_error_matches(
                e,
                k,
                name@,
                spec_active_scheme(spec_opt_string_view(*compression)),
            ),
        },
{
    match data {
        Some(TileLayerDataReader::Vector(v)) => Ok(v),
        None => Ok(Vec::new()),
        Some(TileLayerDataReader::Base64(s)) => match decode_tile_layer_data(
            s.as_str(),
            size,
            name,
            compression,
        ) {
            Ok(Some(v)) => Ok(v),
            Ok(None) => Ok(Vec::new()),
            Err(e) => Err(e),
        },
    }
}

/// Reading a buffer of little-endian words back gives the words: the
/// decoder is the inverse of little-endian encoding.
pub proof fn lemma_words_of_le_bytes(ws: Seq<u32>)
    ensures
        spec_words(spec_le_bytes(ws)) == ws,
{
    let b = spec_le_bytes(ws);
    assert(b.len() == 4 * ws.len());
    assert forall|j: int| 0 <= j < ws.len() implies spec_words(b)[j] == ws[j] by {
        assert((4 * j) / 4 == j && (4 * j) % 4 == 0);
        assert((4 * j + 1) / 4 == j && (4 * j + 1) % 4 == 1);
        assert((4 * j + 2) / 4 == j && (4 * j + 2) % 4 == 2);
        assert((4 * j + 3) / 4 == j && (4 * j + 3) % 4 == 3);
        let w = ws[j];
        assert((((w & 0xff) as u8) as u32) | (((((w >> 8) & 0xff) as u8) as u32) << 8) | (((((w
            >> 16) & 0xff) as u8) as u32) << 16) | (((((w >> 24) & 0xff) as u8) as u32) << 24)
            == w) by (bit_vector);
    }
    assert(spec_words(b) =~= ws);
}

/// Decoding a base64 payload of `N` little-endian words with no
/// compression in force yields exactly those `N` words, in order.
pub proof fn lemma_decode_uncompressed(s: Seq<char>, ws: Seq<u32>)
    requires
        base64_decode_of(s) == Some(spec_le_bytes(ws)),
        ws.len() > 0,
    ensures
        spec_decode_tile_data(s, ws.len() as nat, None) == Ok::<Option<Seq<u32>>, DecodeFailure>(
            Some(ws),
        ),
{
    lemma_words_of_le_bytes(ws);
    assert(spec_le_bytes(ws).len() == ws.len() * 4);
}

/// Decoding a zlib round trip: when the base64 payload inflates to the
/// little-endian bytes of `N` words, decoding under "zlib" yields exactly
/// those words.
pub proof fn lemma_decode_zlib(s: Seq<char>, b: Seq<u8>, ws: Seq<u32>)
    requires
        base64_decode_of(s) == Some(b),
        zlib_inflate_of(b) == Some(spec_le_bytes(ws)),
        ws.len() > 0,
    ensures
        spec_decode_tile_data(s, ws.len() as nat, Some("zlib"@)) == Ok::<
            Option<Seq<u32>>,
            DecodeFailure,
        >(Some(ws)),
{
    lemma_words_of_le_bytes(ws);
    assert(spec_le_bytes(ws).len() == ws.len() * 4);
}

/// A byte buffer that is neither empty nor exactly `size * 4` bytes long
/// never decodes: it fails with a size mismatch rather than being
/// truncated or padded.
pub proof fn lemma_size_mismatch(b: Seq<u8>, size: nat)
    requires
        b.len() != 0,
        b.len() != size * 4,
    ensures
        spec_finish(b, size) == Err::<Option<Seq<u32>>, DecodeFailure>(DecodeFailure::SizeMismatch),
{
}

/// The flattened, all-optional projection of a layer record.  It exists
/// only to be consumed by `layer_from_reader`; nothing retains one.
#[derive(Debug)]
pub struct LayerReader {
    pub height: u32,
    pub width: u32,
    pub ltype: String,
    pub id: Option<u32>,
    pub name: String,
    pub compression: Option<String>,
    pub offsetx: Real,
    pub offsety: Real,
    pub opacity: Real,
    pub visible: bool,
    pub transparentcolor: Option<Color>,
    pub draworder: Option<String>,
    pub image: Option<String>,
    pub data: Option<TileLayerDataReader>,
    pub layers: Option<Vec<Layer>>,
    pub objects: Option<Vec<Object>>,
    pub properties: Option<Vec<Property>>,
}

/// The draw order a record names: "index" means index order, anything
/// else — "topdown" included — means top-down.
pub open spec fn spec_draworder_of(d: Option<String>) -> DrawOrder {
    match d {
        Some(s) => if s@ == "index"@ {
            DrawOrder::Index
        } else {
            DrawOrder::TopDown
        },
        None => DrawOrder::TopDown,
    }
}

/// The layer shape a discriminator string names, if any.
pub open spec fn spec_known_layer_type(ts: Seq<char>) -> Option<LayerType> {
    if ts == "tilelayer"@ {
        Some(LayerType::TileLayer)
    } else if ts == "objectgroup"@ {
        Some(LayerType::ObjectGroup)
    } else if ts == "imagelayer"@ {
        Some(LayerType::ImageLayer)
    } else if ts == "group"@ {
        Some(LayerType::Group)
    } else {
        None
    }
}

/// The common fields of a resolved layer are the record's, with absent
/// lists resolved to empty ones.
pub open spec fn spec_common_matches(l: Layer, lr: LayerReader) -> bool {
    &&& l.id == lr.id
    &&& l.name@ == lr.name@
    &&& l.opacity == lr.opacity
    &&& l.visible == lr.visible
    &&& l.width == lr.width
    &&& l.height == lr.height
    &&& l.offsetx == lr.offsetx
    &&& l.offsety == lr.offsety
    &&& match lr.properties {
        Some(ps) => l.properties@ == ps@,
        None => l.properties@.len() == 0,
    }
}

/// Turns a raw record into exactly one tagged layer, dispatching on the
/// declared `type` string; an unrecognized string is a hard failure, never
/// a silent default.
pub fn layer_from_reader(lr: LayerReader) -> (r: Result<Layer, LoadError>)
    ensures
        lr.ltype@ == "tilelayer"@ ==> (match spec_tile_result(
            lr.data,
            (lr.width as nat) * (lr.height as nat),
            spec_active_scheme(spec_opt_string_view(lr.compression)),
        ) {
            Ok(ws) => r matches Ok(l) && spec_common_matches(l, lr) && l.ltype
                == LayerType::TileLayer && (l.layerdata matches LayerDataContainer::TileLayer {
                data,
            } && data@ == ws),
            Err(k) => r matches Err(e) && spec_decode_error_matches(
                e,
                k,
                lr.name@,
                spec_active_scheme(spec_opt_string_view(lr.compression)),
            ),
        }),
        lr.ltype@ == "objectgroup"@ ==> (r matches Ok(l) && spec_common_matches(l, lr) && l.ltype
            == LayerType::ObjectGroup && (l.layerdata
            matches LayerDataContainer::ObjectGroup { draworder, objects } && draworder
            == spec_draworder_of(lr.draworder) && (match lr.objects {
            Some(os) => objects@ == os@,
            None => objects@.len() == 0,
        }))),
        lr.ltype@ == "imagelayer"@ ==> (r matches Ok(l) && spec_common_matches(l, lr) && l.ltype
            == LayerType::ImageLayer && (l.layerdata matches LayerDataContainer::ImageLayer {
            image,
            transparentcolor,
        } && transparentcolor == lr.transparentcolor && (match lr.image {
            Some(s) => image@ == s@,
            None => image@.len() == 0,
        }))),
        lr.ltype@ == "group"@ ==> (r matches Ok(l) && spec_common_matches(l, lr) && l.ltype
            == LayerType::Group && (l.layerdata matches LayerDataContainer::Group { layers }
            && (match lr.layers {
            Some(ls) => layers@ == ls@,
            None => layers@.len() == 0,
        }))),
        spec_known_layer_type(lr.ltype@) is None ==> (r matches Err(e) && (e
            matches LoadError::UnknownLayerType { declared_type, id, name } && declared_type@
            == lr.ltype@ && id == lr.id && name@ == lr.name@)),
        r matches Ok(l) ==> spec_layer_wf(l) && spec_known_layer_type(lr.ltype@) == Some(l.ltype),
{
    let LayerReader {
        height,
        width,
        ltype,
        id,
        name,
        compression,
        offsetx,
        offsety,
        opacity,
        visible,
        transparentcolor,
        draworder,
        image,
        data,
        layers,
        objects,
        properties,
    } = lr;

    proof {
        reveal_strlit("tilelayer");
        reveal_strlit("objectgroup");
        reveal_strlit("imagelayer");
        reveal_strlit("group");
        assert("tilelayer"@.len() == 9);
        assert("objectgroup"@.len() == 11);
        assert("imagelayer"@.len() == 10);
        assert("group"@.len() == 5);
    }
    let resolved_type: LayerType;
    let layerdata: LayerDataContainer;

    if str_eq(ltype.as_str(), "tilelayer") {
        resolved_type = LayerType::TileLayer;
        proof {
            assert((width as int) * (height as int) <= 0xffff_ffff * 0xffff_ffff)
                by (nonlinear_arith)
                requires
                    width <= 0xffff_ffffu32,
                    height <= 0xffff_ffffu32,
            ;
        }
        let size = (width as u64) * (height as u64);
        let grid = match get_tile_layer_data(data, size, name.as_str(), &compression) {
            Ok(d) => d,
            Err(e) => { return Err(e); },
        };
        layerdata = LayerDataContainer::TileLayer { data: grid };
    } else if str_eq(ltype.as_str(), "objectgroup") {
        resolved_type = LayerType::ObjectGroup;
        let order = match &draworder {
            Some(s) => if str_eq(s.as_str(), "index") {
                DrawOrder::Index
            } else {
                DrawOrder::TopDown
            },
            None => DrawOrder::TopDown,
        };
        let objs = match objects {
            Some(os) => os,
            None => Vec::new(),
        };
        layerdata = LayerDataContainer::ObjectGroup { draworder: order, objects: objs };
    } else if str_eq(ltype.as_str(), "imagelayer") {
        resolved_type = LayerType::ImageLayer;
        let img = match image {
            Some(s) => s,
            None => String::new(),
        };
        layerdata = LayerDataContainer::ImageLayer { image: img, transparentcolor };
    } else if str_eq(ltype.as_str(), "group") {
        resolved_type = LayerType::Group;
        let lays = match layers {
            Some(ls) => ls,
            None => Vec::new(),
        };
        layerdata = LayerDataContainer::Group { layers: lays };
    } else {
        return Err(LoadError::UnknownLayerType { declared_type: ltype, id, name });
    }

    let props = match properties {
        Some(ps) => ps,
        None => Vec::new(),
    };
    Ok(
        Layer {
            id,
            name,
            opacity,
            visible,
            width,
            height,
            offsetx,
            offsety,
            ltype: resolved_type,
            layerdata,
            properties: props,
        },
    )
}

/// What an array of tile-data literals resolves to, or `None` when any
/// element is not an integer that fits 32 unsigned bits.
pub open spec fn spec_u32s_of(items: Seq<JsonValue>) -> Option<Seq<u32>> {
    if forall|i: int|
        0 <= i < items.len() ==> (#[trigger] spec_int_in(items[i], 0, 0xffff_ffff)) is Some {
        Some(Seq::new(items.len(), |i: int| spec_int_in(items[i], 0, 0xffff_ffff)->0 as u32))
    } else {
        None
    }
}

/// Reads a literal tile-data array of 32-bit values.
fn u32s_from_array(items: &Vec<JsonValue>) -> (r: Result<Vec<u32>, LoadError>)
    ensures
        match spec_u32s_of(items@) {
            Some(ws) => r matches Ok(v) && v@ == ws,
            None => r matches Err(e) && e is MalformedDocument,
        },
{
    let n = items.len();
    let mut out: Vec<u32> = Vec::new();
    let mut i: usize = 0;
    while i < n
        invariant
            n == items@.len(),
            i <= n,
            out@.len() == i,
            forall|j: int|
                0 <= j < i ==> (#[trigger] spec_int_in(items@[j], 0, 0xffff_ffff)) is Some
                    && out@[j] == spec_int_in(items@[j], 0, 0xffff_ffff)->0 as u32,
        decreases n - i,
    {
        let x: i64 = match &items[i] {
            JsonValue::Num(nm) => match nm.int {
                Some(x) => x,
                None => {
                    proof {
                        assert(spec_int_in(items@[i as int], 0, 0xffff_ffff) is None);
                        assert(spec_u32s_of(items@) is None);
                    }
                    return Err(LoadError::MalformedDocument);
                },
            },
            _ => {
                proof {
                    assert(spec_int_in(items@[i as int], 0, 0xffff_ffff) is None);
                    assert(spec_u32s_of(items@) is None);
                }
                return Err(LoadError::MalformedDocument);
            },
        };
        if x < 0 || x > 0xffff_ffff {
            proof {
                assert(spec_int_in(items@[i as int], 0, 0xffff_ffff) is None);
                assert(spec_u32s_of(items@) is None);
            }
            return Err(LoadError::MalformedDocument);
        }
        out.push(x as u32);
        i += 1;
    }
    proof {
        assert(out@ =~= Seq::new(items@.len(), |k: int| spec_int_in(items@[k], 0, 0xffff_ffff)->0
            as u32));
    }
    Ok(out)
}

/// Is every element of the array a good object record?
pub open spec fn spec_objects_ok(items: Seq<JsonValue>) -> bool {
    forall|i: int|
        0 <= i < items.len() ==> ((#[trigger] items[i]) matches JsonValue::Obj(f)
            && spec_object_ok(f@))
}

/// Does each resolved object carry what its record says?
pub open spec fn spec_objects_match(os: Seq<Object>, items: Seq<JsonValue>) -> bool {
    os.len() == items.len() && forall|i: int|
        0 <= i < items.len() ==> ((#[trigger] items[i]) matches JsonValue::Obj(f)
            && spec_object_matches(os[i], f@))
}

/// Reads an array of object records.
fn objects_from_array(items: &Vec<JsonValue>) -> (r: Result<Vec<Object>, LoadError>)
    ensures
        spec_objects_ok(items@) ==> (r matches Ok(os) && spec_objects_match(os@, items@)),
        !spec_objects_ok(items@) ==> (r matches Err(e) && e is MalformedDocument),
{
    let n = items.len();
    let mut out: Vec<Object> = Vec::new();
    let mut i: usize = 0;
    while i < n
        invariant
            n == items@.len(),
            i <= n,
            out@.len() == i,
            forall|j: int|
                0 <= j < i ==> ((#[trigger] items@[j]) matches JsonValue::Obj(f) && spec_object_ok(
                    f@,
                ) && spec_object_matches(out@[j], f@)),
        decreases n - i,
    {
        match Object::from_json(&items[i]) {
            Ok(o) => { out.push(o); },
            Err(_) => {
                proof {
                    assert(!(items@[i as int] matches JsonValue::Obj(f) && spec_object_ok(f@)));
                    assert(!spec_objects_ok(items@));
                }
                return Err(LoadError::MalformedDocument);
            },
        }
        i += 1;
    }
    Ok(out)
}

/// The words a tile-grid layer record decodes to, computed from the
/// record's own members; `None` when the members themselves are malformed.
pub open spec fn spec_json_tile_words(fs: Seq<JsonField>) -> Option<
    Result<Seq<u32>, DecodeFailure>,
> {
    if spec_opt_nat(fs, "width"@, 0, 0xffff_ffff) is Some && spec_opt_nat(
        fs,
        "height"@,
        0,
        0xffff_ffff,
    ) is Some && spec_maybe_str(fs, "compression"@) is Some {
        let size = (spec_opt_nat(fs, "width"@, 0, 0xffff_ffff)->0 as nat) * (spec_opt_nat(
            fs,
            "height"@,
            0,
            0xffff_ffff,
        )->0 as nat);
        let scheme = spec_active_scheme(spec_maybe_str(fs, "compression"@)->0);
        match spec_field(fs, "data"@) {
            None => Some(Ok(Seq::empty())),
            Some(JsonValue::Arr(items)) => match spec_u32s_of(items@) {
                Some(ws) => Some(Ok(ws)),
                None => None,
            },
            Some(JsonValue::Str(s)) => Some(
                match spec_decode_tile_data(s@, size, scheme) {
                    Ok(Some(ws)) => Ok(ws),
                    Ok(None) => Ok(Seq::empty()),
                    Err(k) => Err(k),
                },
            ),
            Some(_) => None,
        }
    } else {
        None
    }
}

/// The common members of a resolved layer are exactly what the record
/// says, with the editor defaults for absent ones.
pub open spec fn spec_layer_scalars_match(l: Layer, fs: Seq<JsonField>) -> bool {
    &&& (match spec_maybe_nat(fs, "id"@, 0xffff_ffff) {
        Some(Some(x)) => l.id == Some(x as u32),
        Some(None) => l.id is None,
        None => false,
    })
    &&& Some(l.name@) == spec_opt_str(fs, "name"@, ""@)
    &&& Some(l.opacity) == spec_opt_real(fs, "opacity"@, Real::spec_one())
    &&& Some(l.visible) == spec_opt_bool(fs, "visible"@, true)
    &&& Some(l.width as u64) == spec_opt_nat(fs, "width"@, 0, 0xffff_ffff)
    &&& Some(l.height as u64) == spec_opt_nat(fs, "height"@, 0, 0xffff_ffff)
    &&& Some(l.offsetx) == spec_opt_real(fs, "offsetx"@, Real::spec_zero())
    &&& Some(l.offsety) == spec_opt_real(fs, "offsety"@, Real::spec_zero())
    &&& (match spec_properties_field(fs) {
        Some(ps) => l.properties@ == ps,
        None => false,
    })
}

/// A resolved tile-grid layer holds exactly the words its record decodes
/// to.
pub open spec fn spec_layer_tile_matches(l: Layer, fs: Seq<JsonField>) -> bool {
    l.ltype == LayerType::TileLayer ==> (spec_json_tile_words(fs) matches Some(Ok(ws))
        && (l.layerdata matches LayerDataContainer::TileLayer { data } && data@ == ws))
}

/// A resolved object-group layer holds exactly the record's objects and
/// draw order.
pub open spec fn spec_layer_objects_match(l: Layer, fs: Seq<JsonField>) -> bool {
    l.ltype == LayerType::ObjectGroup ==> (l.layerdata
        matches LayerDataContainer::ObjectGroup { draworder, objects } && (match spec_maybe_str(
        fs,
        "draworder"@,
    ) {
        Some(Some(ds)) => draworder == (if ds == "index"@ {
            DrawOrder::Index
        } else {
            DrawOrder::TopDown
        }),
        Some(None) => draworder == DrawOrder::TopDown,
        None => false,
    }) && (match spec_field(fs, "objects"@) {
        None => objects@.len() == 0,
        Some(JsonValue::Arr(items)) => spec_objects_match(objects@, items@),
        Some(_) => false,
    }))
}

/// A resolved image layer holds exactly the record's image path and
/// transparent color.
pub open spec fn spec_layer_image_matches(l: Layer, fs: Seq<JsonField>) -> bool {
    l.ltype == LayerType::ImageLayer ==> (l.layerdata
        matches LayerDataContainer::ImageLayer { image, transparentcolor } && (match spec_maybe_str(
        fs,
        "image"@,
    ) {
        Some(Some(cs)) => image@ == cs,
        Some(None) => image@.len() == 0,
        None => false,
    }) && (match spec_maybe_color(fs, "transparentcolor"@) {
        Some(oc) => transparentcolor == oc,
        None => false,
    }))
}

/// Everything a resolved layer promises about its record: the tag agrees
/// with the declared `type` string and with the active variant, the common
/// members carry over, and the shape-specific payload is the record's.
/// (The children of a group layer are each resolved by the same pipeline.)
pub open spec fn spec_layer_matches(l: Layer, v: JsonValue) -> bool {
    v matches JsonValue::Obj(f) && ({
        let fs = f@;
        &&& spec_layer_wf(l)
        &&& spec_layer_scalars_match(l, fs)
        &&& (spec_req_str(fs, "type"@) matches Some(ts) && spec_known_layer_type(ts) == Some(
            l.ltype,
        ))
        &&& spec_layer_tile_matches(l, fs)
        &&& spec_layer_objects_match(l, fs)
        &&& spec_layer_image_matches(l, fs)
    })
}

/// Is the `data` member, if any, shaped like tile data at all?
pub open spec fn spec_tile_source_ok(fs: Seq<JsonField>) -> bool {
    match spec_field(fs, "data"@) {
        None => true,
        Some(JsonValue::Arr(items)) => spec_u32s_of(items@) is Some,
        Some(JsonValue::Str(_)) => true,
        Some(_) => false,
    }
}

/// Is the `objects` member, if any, an array of good object records?
pub open spec fn spec_objects_field_ok(fs: Seq<JsonField>) -> bool {
    match spec_field(fs, "objects"@) {
        None => true,
        Some(JsonValue::Arr(items)) => spec_objects_ok(items@),
        Some(_) => false,
    }
}

/// Do the flat members of a layer record all read cleanly, with a known
/// shape and (for a tile grid) a payload that decodes?  This is every
/// condition on a layer record except the recursive one on nested group
/// children.
pub open spec fn spec_layer_fields_ok(fs: Seq<JsonField>) -> bool {
    &&& (spec_req_str(fs, "type"@) matches Some(ts) && spec_known_layer_type(ts) is Some)
    &&& spec_maybe_nat(fs, "id"@, 0xffff_ffff) is Some
    &&& spec_opt_str(fs, "name"@, ""@) is Some
    &&& spec_opt_nat(fs, "width"@, 0, 0xffff_ffff) is Some
    &&& spec_opt_nat(fs, "height"@, 0, 0xffff_ffff) is Some
    &&& spec_maybe_str(fs, "compression"@) is Some
    &&& spec_opt_real(fs, "opacity"@, Real::spec_one()) is Some
    &&& spec_opt_bool(fs, "visible"@, true) is Some
    &&& spec_opt_real(fs, "offsetx"@, Real::spec_zero()) is Some
    &&& spec_opt_real(fs, "offsety"@, Real::spec_zero()) is Some
    &&& spec_maybe_color(fs, "transparentcolor"@) is Some
    &&& spec_maybe_str(fs, "draworder"@) is Some
    &&& spec_maybe_str(fs, "image"@) is Some
    &&& spec_tile_source_ok(fs)
    &&& spec_objects_field_ok(fs)
    &&& spec_properties_field(fs) is Some
    &&& (spec_known_layer_type(spec_req_str(fs, "type"@)->0) == Some(LayerType::TileLayer)
        ==> spec_json_tile_words(fs) matches Some(Ok(_)))
}

/// Is a JSON value a layer record that resolves, children and all?  A
/// record conforms exactly when its flat members read cleanly and every
/// nested layer record conforms in turn; `layer_from_json` succeeds on
/// exactly these values.
pub open spec fn spec_layer_json_ok(v: JsonValue) -> bool
    decreases v, 1int,
    via spec_layer_json_ok_dec
{
    match v {
        JsonValue::Obj(f) => spec_layer_fields_ok(f@) && (match spec_field(f@, "layers"@) {
            None => true,
            Some(JsonValue::Arr(items)) => spec_layers_json_ok(items@),
            Some(_) => false,
        }),
        _ => false,
    }
}

/// Does every record of a layer array conform?
pub open spec fn spec_layers_json_ok(items: Seq<JsonValue>) -> bool
    decreases items, 0int,
{
    items.len() == 0 || (spec_layer_json_ok(items[0]) && spec_layers_json_ok(items.drop_first()))
}

#[via_fn]
proof fn spec_layer_json_ok_dec(v: JsonValue) {
    match v {
        JsonValue::Obj(f) => {
            match spec_field(f@, "layers"@) {
                Some(JsonValue::Arr(items)) => {
                    crate::json::lemma_spec_field_is_member(f@, "layers"@);
                    let k = choose|k: int|
                        0 <= k < f@.len() && #[trigger] f@[k].value == spec_field(
                            f@,
                            "layers"@,
                        )->0;
                    assert(decreases_to!(v => f));
                    assert(decreases_to!(f => f@));
                    assert(decreases_to!(f@ => f@[k]));
                    assert(decreases_to!(f@[k] => f@[k].value));
                    assert(decreases_to!(JsonValue::Arr(items) => items));
                    assert(decreases_to!(items => items@));
                },
                _ => {},
            }
        },
        _ => {},
    }
}

/// A layer array conforms exactly when each of its records does.
pub proof fn lemma_layers_json_ok_iff(items: Seq<JsonValue>)
    ensures
        spec_layers_json_ok(items) == (forall|i: int|
            0 <= i < items.len() ==> #[trigger] spec_layer_json_ok(items[i])),
    decreases items.len(),
{
    if items.len() > 0 {
        lemma_layers_json_ok_iff(items.drop_first());
        assert(forall|i: int|
            1 <= i < items.len() ==> #[trigger] items[i] == items.drop_first()[i - 1]);
        if spec_layers_json_ok(items) {
            assert forall|i: int| 0 <= i < items.len() implies #[trigger] spec_layer_json_ok(
                items[i],
            ) by {
                if i > 0 {
                    assert(spec_layer_json_ok(items.drop_first()[i - 1]));
                }
            }
        }
        if forall|i: int| 0 <= i < items.len() ==> #[trigger] spec_layer_json_ok(items[i]) {
            assert forall|i: int|
                0 <= i < items.drop_first().len() implies #[trigger] spec_layer_json_ok(
                items.drop_first()[i],
            ) by {
                assert(items.drop_first()[i] == items[i + 1]);
            }
            assert(spec_layer_json_ok(items[0]));
            assert(spec_layers_json_ok(items.drop_first()));
            assert(spec_layers_json_ok(items));
        }
    }
}

/// Reads one layer record, resolving nested group layers recursively.
/// It succeeds exactly on conforming records (`spec_layer_json_ok`).  A
/// record without a `type` string is malformed; one whose `type` names
/// none of the four shapes fails with `UnknownLayerType`, never with a
/// silently chosen default shape.
#[verifier::loop_isolation(false)]
pub fn layer_from_json(v: &JsonValue) -> (r: Result<Layer, LoadError>)
    ensures
        r matches Ok(l) ==> spec_layer_matches(l, *v),
        (r is Ok) == spec_layer_json_ok(*v),
        !(*v is Obj) ==> (r matches Err(e) && e is MalformedDocument),
        *v matches JsonValue::Obj(f) ==> (spec_req_str(f@, "type"@) is None ==> (r matches Err(e)
            && e is MalformedDocument)),
        *v matches JsonValue::Obj(f) ==> (spec_req_str(f@, "type"@) matches Some(ts) ==> ((
        spec_known_layer_type(ts) is None && spec_maybe_nat(f@, "id"@, 0xffff_ffff) is Some
            && spec_opt_str(f@, "name"@, ""@) is Some) ==> (r matches Err(e) && e
            matches LoadError::UnknownLayerType { declared_type, id, name } && declared_type@ == ts
            && (match spec_maybe_nat(f@, "id"@, 0xffff_ffff) {
            Some(Some(x)) => id == Some(x as u32),
            Some(None) => id is None,
            None => false,
        }) && Some(name@) == spec_opt_str(f@, "name"@, ""@)))),
    decreases v,
{
    let f = match v {
        JsonValue::Obj(f) => f,
        _ => { return Err(LoadError::MalformedDocument); },
    };
    let ltype = match crate::json::req_str_field(f, "type") {
        Ok(s) => s,
        Err(e) => { return Err(e); },
    };
    let id = match crate::json::maybe_nat_field(f, "id", 0xffff_ffff) {
        Ok(Some(x)) => Some(x as u32),
        Ok(None) => None,
        Err(e) => { return Err(e); },
    };
    let name = match crate::json::opt_str_field(f, "name", "") {
        Ok(s) => s,
        Err(e) => { return Err(e); },
    };
    if !(str_eq(ltype.as_str(), "tilelayer") || str_eq(ltype.as_str(), "objectgroup") || str_eq(
        ltype.as_str(),
        "imagelayer",
    ) || str_eq(ltype.as_str(), "group")) {
        return Err(LoadError::UnknownLayerType { declared_type: ltype, id, name });
    }

    let width = match crate::json::opt_nat_field(f, "width", 0, 0xffff_ffff) {
        Ok(x) => x as u32,
        Err(e) => { return Err(e); },
    };
    let height = match crate::json::opt_nat_field(f, "height", 0, 0xffff_ffff) {
        Ok(x) => x as u32,
        Err(e) => { return Err(e); },
    };
    let compression = match crate::json::maybe_str_field(f, "compression") {
        Ok(o) => o,
        Err(e) => { return Err(e); },
    };
    let opacity = match crate::json::opt_real_field(f, "opacity", Real::one()) {
        Ok(x) => x,
        Err(e) => { return Err(e); },
    };
    let visible = match crate::json::opt_bool_field(f, "visible", true) {
        Ok(b) => b,
        Err(e) => { return Err(e); },
    };
    let offsetx = match crate::json::opt_real_field(f, "offsetx", Real::zero()) {
        Ok(x) => x,
        Err(e) => { return Err(e); },
    };
    let offsety = match crate::json::opt_real_field(f, "offsety", Real::zero()) {
        Ok(x) => x,
        Err(e) => { return Err(e); },
    };
    let transparentcolor = match crate::color::maybe_color_field(f, "transparentcolor") {
        Ok(o) => o,
        Err(e) => { return Err(e); },
    };
    let draworder = match crate::json::maybe_str_field(f, "draworder") {
        Ok(o) => o,
        Err(e) => { return Err(e); },
    };
    let image = match crate::json::maybe_str_field(f, "image") {
        Ok(o) => o,
        Err(e) => { return Err(e); },
    };

    let data: Option<TileLayerDataReader> = match crate::json::json_field(f, "data") {
        None => None,
        Some(dv) => match dv {
            JsonValue::Arr(items) => match u32s_from_array(items) {
                Ok(ws) => Some(TileLayerDataReader::Vector(ws)),
                Err(e) => { return Err(e); },
            },
            JsonValue::Str(s) => Some(TileLayerDataReader::Base64(s.clone())),
            _ => { return Err(LoadError::MalformedDocument); },
        },
    };

    let objects: Option<Vec<Object>> = match crate::json::json_field(f, "objects") {
        None => None,
        Some(ov) => match ov {
            JsonValue::Arr(items) => match objects_from_array(items) {
                Ok(os) => Some(os),
                Err(e) => { return Err(e); },
            },
            _ => { return Err(LoadError::MalformedDocument); },
        },
    };

    let layers: Option<Vec<Layer>> = match crate::json::json_field(f, "layers") {
        None => None,
        Some(lv) => match lv {
            JsonValue::Arr(items) => {
                proof {
                    let k = choose|k: int|
                        0 <= k < f@.len() && #[trigger] f@[k].value == JsonValue::Arr(*items);
                    assert(decreases_to!(*v => *f));
                    assert(decreases_to!(*f => f@));
                    assert(decreases_to!(f@ => f@[k]));
                    assert(decreases_to!(f@[k] => f@[k].value));
                    assert(decreases_to!(JsonValue::Arr(*items) => *items));
                    assert(decreases_to!(*items => items@));
                }
                let n = items.len();
                let mut children: Vec<Layer> = Vec::new();
                let mut i: usize = 0;
                while i < n
                    invariant
                        n == items@.len(),
                        i <= n,
                        forall|j: int| 0 <= j < i ==> #[trigger] spec_layer_json_ok(items@[j]),
                    decreases n - i,
                {
                    proof {
                        assert(decreases_to!(items@ => items@[i as int]));
                    }
                    match layer_from_json(&items[i]) {
                        Ok(l) => { children.push(l); },
                        Err(e) => {
                            proof {
                                assert(!spec_layer_json_ok(items@[i as int]));
                                lemma_layers_json_ok_iff(items@);
                                assert(!spec_layers_json_ok(items@));
                            }
                            return Err(e);
                        },
                    }
                    i += 1;
                }
                proof {
                    lemma_layers_json_ok_iff(items@);
                    assert(spec_layers_json_ok(items@));
                }
                Some(children)
            },
            _ => { return Err(LoadError::MalformedDocument); },
        },
    };

    let properties = match crate::property::properties_field(f) {
        Ok(ps) => Some(ps),
        Err(e) => { return Err(e); },
    };

    let lr = LayerReader {
        height,
        width,
        ltype,
        id,
        name,
        compression,
        offsetx,
        offsety,
        opacity,
        visible,
        transparentcolor,
        draworder,
        image,
        data,
        layers,
        objects,
        properties,
    };
    layer_from_reader(lr)
}

/// Reads a whole array of layer records.  It succeeds exactly when every
/// record conforms; any child failure fails the array with the first bad
/// record's own error — no partial list is ever returned.
pub fn layers_from_json(items: &Vec<JsonValue>) -> (r: Result<Vec<Layer>, LoadError>)
    ensures
        r matches Ok(ls) ==> ls@.len() == items@.len() && (forall|i: int|
            0 <= i < items@.len() ==> spec_layer_matches(#[trigger] ls@[i], items@[i])),
        (r is Ok) == spec_layers_json_ok(items@),
        r matches Err(_) ==> (exists|i: int|
            {
                &&& 0 <= i < items@.len()
                &&& !spec_layer_json_ok(#[trigger] items@[i])
                &&& forall|j: int| 0 <= j < i ==> #[trigger] spec_layer_json_ok(items@[j])
            }),
{
    let n = items.len();
    let mut out: Vec<Layer> = Vec::new();
    let mut i: usize = 0;
    while i < n
        invariant
            n == items@.len(),
            i <= n,
            out@.len() == i,
            forall|j: int| 0 <= j < i ==> spec_layer_matches(#[trigger] out@[j], items@[j]),
            forall|j: int| 0 <= j < i ==> #[trigger] spec_layer_json_ok(items@[j]),
        decreases n - i,
    {
        match layer_from_json(&items[i]) {
            Ok(l) => { out.push(l); },
            Err(e) => {
                proof {
                    assert(!spec_layer_json_ok(items@[i as int]));
                    lemma_layers_json_ok_iff(items@);
                }
                return Err(e);
            },
        }
        i += 1;
    }
    proof {
        lemma_layers_json_ok_iff(items@);
    }
    Ok(out)
}

} // verus!
