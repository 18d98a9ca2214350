use tiled_json::color::Color;
use tiled_json::error::LoadError;
use tiled_json::json::JsonField;
use tiled_json::json::JsonNum;
use tiled_json::json::JsonValue;
use tiled_json::json::Real;
use tiled_json::layer::DrawOrder;
use tiled_json::layer::LayerType;
use tiled_json::load_map_from_json;
use tiled_json::map::MapOrientation;
use tiled_json::map::RenderOrder;
use tiled_json::property::HasProperty;
use tiled_json::property::PropertyValue;

fn num(i: i64) -> JsonValue {
    JsonValue::Num(JsonNum { int: Some(i), bits: (i as f64).to_bits() })
}

fn fnum(x: f64) -> JsonValue {
    JsonValue::Num(JsonNum { int: None, bits: x.to_bits() })
}

fn st(v: &str) -> JsonValue {
    JsonValue::Str(v.to_string())
}

fn fld(k: &str, v: JsonValue) -> JsonField {
    JsonField { key: k.to_string(), value: v }
}

fn map_skeleton(extra: Vec<JsonField>) -> JsonValue {
    let mut fields = vec![
        fld("orientation", st("orthogonal")),
        fld("height", num(2)),
        fld("width", num(3)),
        fld("nextobjectid", num(1)),
        fld("nextlayerid", num(5)),
        fld("tileheight", num(16)),
        fld("tilewidth", num(16)),
    ];
    fields.extend(extra);
    JsonValue::Obj(fields)
}

fn tileset_record(firstgid: i64, name: &str) -> JsonValue {
    JsonValue::Obj(vec![
        fld("image", st("tiles.png")),
        fld("firstgid", num(firstgid)),
        fld("imageheight", num(128)),
        fld("imagewidth", num(256)),
        fld("tileheight", num(16)),
        fld("tilewidth", num(16)),
        fld("tilecount", num(128)),
        fld("columns", num(16)),
        fld("name", st(name)),
    ])
}

#[test]
fn minimal_map_loads() {
    let m = load_map_from_json(&map_skeleton(vec![])).unwrap();
    assert_eq!(m.width(), 3);
    assert_eq!(m.height(), 2);
    assert_eq!(m.tile_width(), 16);
    assert_eq!(m.tile_height(), 16);
    assert_eq!(m.orientation(), MapOrientation::Orthogonal);
    assert_eq!(m.render_order(), RenderOrder::RightDown);
    assert_eq!(m.layers().len(), 0);
    assert_eq!(m.tilesets().len(), 0);
    assert!(m.bg_color().is_none());
    assert_eq!(m.tiled_version(), "");
}

#[test]
fn missing_required_field_is_malformed() {
    let doc = JsonValue::Obj(vec![fld("orientation", st("orthogonal"))]);
    assert!(matches!(load_map_from_json(&doc), Err(LoadError::MalformedDocument)));
}

#[test]
fn non_object_document_is_malformed() {
    assert!(matches!(load_map_from_json(&num(4)), Err(LoadError::MalformedDocument)));
}

#[test]
fn csv_tile_layer_loads_with_exact_data() {
    let layer = JsonValue::Obj(vec![
        fld("type", st("tilelayer")),
        fld("name", st("ground")),
        fld("width", num(3)),
        fld("height", num(2)),
        fld("id", num(1)),
        fld("data", JsonValue::Arr(vec![num(1), num(2), num(3), num(4), num(5), num(6)])),
    ]);
    let doc = map_skeleton(vec![fld("layers", JsonValue::Arr(vec![layer]))]);
    let m = load_map_from_json(&doc).unwrap();
    let l = &m.layers()[0];
    assert!(l.is_tile_layer());
    assert_eq!(l.layer_type(), LayerType::TileLayer);
    assert_eq!(l.get_data().unwrap(), &vec![1u32, 2, 3, 4, 5, 6]);
    assert_eq!(l.name(), "ground");
    assert_eq!(l.id(), Some(1));
    assert!(l.visible());
    assert_eq!(l.opacity(), Real::from_bits(1.0f64.to_bits()));
    assert_eq!(m.layer_by_name("ground").unwrap().width(), 3);
    assert!(m.layer_by_name("sky").is_none());
}

#[test]
fn absent_data_on_ten_by_ten_layer_is_empty() {
    let layer = JsonValue::Obj(vec![
        fld("type", st("tilelayer")),
        fld("name", st("ground")),
        fld("width", num(10)),
        fld("height", num(10)),
    ]);
    let doc = map_skeleton(vec![fld("layers", JsonValue::Arr(vec![layer]))]);
    let m = load_map_from_json(&doc).unwrap();
    let data = m.layers()[0].get_data().unwrap();
    assert_eq!(data.len(), 0);
}

#[test]
fn bogus_layer_type_fails_whole_load() {
    let good = JsonValue::Obj(vec![fld("type", st("tilelayer")), fld("name", st("ok"))]);
    let bad = JsonValue::Obj(vec![
        fld("type", st("bogus")),
        fld("name", st("oops")),
        fld("id", num(7)),
    ]);
    let doc = map_skeleton(vec![fld("layers", JsonValue::Arr(vec![good, bad]))]);
    match load_map_from_json(&doc) {
        Err(LoadError::UnknownLayerType { declared_type, id, name }) => {
            assert_eq!(declared_type, "bogus");
            assert_eq!(id, Some(7));
            assert_eq!(name, "oops");
        },
        other => panic!("expected UnknownLayerType, got {:?}", other),
    }
}

#[test]
fn object_group_layer_loads() {
    let object = JsonValue::Obj(vec![
        fld("id", num(11)),
        fld("x", fnum(4.5)),
        fld("y", num(8)),
        fld("name", st("spawn")),
        fld("point", JsonValue::Bool(true)),
    ]);
    let layer = JsonValue::Obj(vec![
        fld("type", st("objectgroup")),
        fld("name", st("things")),
        fld("draworder", st("index")),
        fld("objects", JsonValue::Arr(vec![object])),
    ]);
    let doc = map_skeleton(vec![fld("layers", JsonValue::Arr(vec![layer]))]);
    let m = load_map_from_json(&doc).unwrap();
    let l = &m.layers()[0];
    assert!(l.is_object_group());
    assert_eq!(l.get_draworder(), Some(DrawOrder::Index));
    let objs = l.get_objects_vector().unwrap();
    assert_eq!(objs.len(), 1);
    assert_eq!(objs[0].id(), 11);
    assert_eq!(objs[0].x(), Real::from_bits(4.5f64.to_bits()));
    assert_eq!(objs[0].y(), Real::from_bits(8.0f64.to_bits()));
    assert_eq!(objs[0].name(), "spawn");
    assert!(objs[0].is_point());
    assert!(!objs[0].is_ellipse());
    assert!(objs[0].visible());
}

#[test]
fn unknown_draworder_defaults_to_topdown() {
    let layer = JsonValue::Obj(vec![
        fld("type", st("objectgroup")),
        fld("draworder", st("sideways")),
    ]);
    let doc = map_skeleton(vec![fld("layers", JsonValue::Arr(vec![layer]))]);
    let m = load_map_from_json(&doc).unwrap();
    assert_eq!(m.layers()[0].get_draworder(), Some(DrawOrder::TopDown));
    assert_eq!(m.layers()[0].get_objects_vector().unwrap().len(), 0);
}

#[test]
fn image_layer_loads() {
    let layer = JsonValue::Obj(vec![
        fld("type", st("imagelayer")),
        fld("name", st("backdrop")),
        fld("image", st("sky.png")),
        fld("transparentcolor", st("#ff00ff")),
    ]);
    let doc = map_skeleton(vec![fld("layers", JsonValue::Arr(vec![layer]))]);
    let m = load_map_from_json(&doc).unwrap();
    let l = &m.layers()[0];
    assert!(l.is_image_layer());
    assert_eq!(l.get_image().unwrap(), "sky.png");
    assert_eq!(l.get_transparentcolor(), Some(Color { r: 255, g: 0, b: 255, a: 255 }));
    assert!(l.get_data().is_none());
    assert!(l.get_layers().is_none());
}

#[test]
fn group_layer_nests_and_child_failure_propagates() {
    let child = JsonValue::Obj(vec![fld("type", st("imagelayer")), fld("name", st("inner"))]);
    let group = JsonValue::Obj(vec![
        fld("type", st("group")),
        fld("name", st("outer")),
        fld("layers", JsonValue::Arr(vec![child])),
    ]);
    let doc = map_skeleton(vec![fld("layers", JsonValue::Arr(vec![group]))]);
    let m = load_map_from_json(&doc).unwrap();
    let l = &m.layers()[0];
    assert!(l.is_group());
    let kids = l.get_layers().unwrap();
    assert_eq!(kids.len(), 1);
    assert_eq!(kids[0].name(), "inner");
    assert!(kids[0].is_image_layer());

    let bad_child = JsonValue::Obj(vec![fld("type", st("nonsense"))]);
    let bad_group = JsonValue::Obj(vec![
        fld("type", st("group")),
        fld("layers", JsonValue::Arr(vec![bad_child])),
    ]);
    let bad_doc = map_skeleton(vec![fld("layers", JsonValue::Arr(vec![bad_group]))]);
    assert!(matches!(load_map_from_json(&bad_doc), Err(LoadError::UnknownLayerType { .. })));
}

#[test]
fn float_declared_integer_literal_resolves_to_float() {
    let prop = JsonValue::Obj(vec![
        fld("name", st("speed")),
        fld("type", st("float")),
        fld("value", num(5)),
    ]);
    let layer = JsonValue::Obj(vec![
        fld("type", st("tilelayer")),
        fld("properties", JsonValue::Arr(vec![prop])),
    ]);
    let doc = map_skeleton(vec![fld("layers", JsonValue::Arr(vec![layer]))]);
    let m = load_map_from_json(&doc).unwrap();
    let l = &m.layers()[0];
    let p = l.get_property("speed").unwrap();
    assert_eq!(p.get_float(), Some(Real::from_bits(5.0f64.to_bits())));
    assert_eq!(p.get_int(), None);
    assert_eq!(p.type_as_string(), "float");
}

#[test]
fn integer_literal_under_other_type_stays_integer() {
    let prop = JsonValue::Obj(vec![
        fld("name", st("lives")),
        fld("type", st("int")),
        fld("value", num(3)),
    ]);
    let doc = map_skeleton(vec![fld("properties", JsonValue::Arr(vec![prop]))]);
    let m = load_map_from_json(&doc).unwrap();
    let p = m.get_property("lives").unwrap();
    assert_eq!(p.get_int(), Some(3));
    assert_eq!(p.get_float(), None);
}

#[test]
fn bad_color_property_falls_back_and_load_succeeds() {
    let prop = JsonValue::Obj(vec![
        fld("name", st("tint")),
        fld("type", st("color")),
        fld("value", st("notahexcolor")),
    ]);
    let doc = map_skeleton(vec![fld("properties", JsonValue::Arr(vec![prop]))]);
    let m = load_map_from_json(&doc).unwrap();
    let p = m.get_property("tint").unwrap();
    assert_eq!(p.get_color(), Some(Color::default_color()));
    assert_eq!(p.get_color(), Some(Color { r: 255, g: 0, b: 255, a: 255 }));
}

#[test]
fn string_and_file_and_bool_properties_resolve() {
    let props = JsonValue::Arr(vec![
        JsonValue::Obj(vec![
            fld("name", st("title")),
            fld("type", st("string")),
            fld("value", st("cave")),
        ]),
        JsonValue::Obj(vec![
            fld("name", st("script")),
            fld("type", st("file")),
            fld("value", st("a.lua")),
        ]),
        JsonValue::Obj(vec![
            fld("name", st("dark")),
            fld("type", st("bool")),
            fld("value", JsonValue::Bool(true)),
        ]),
    ]);
    let doc = map_skeleton(vec![fld("properties", props)]);
    let m = load_map_from_json(&doc).unwrap();
    assert_eq!(m.get_property("title").unwrap().get_string().unwrap(), "cave");
    assert_eq!(m.get_property("script").unwrap().get_file().unwrap(), "a.lua");
    assert_eq!(m.get_property("dark").unwrap().get_bool(), Some(true));
    assert!(m.get_property("absent").is_none());
    assert!(matches!(
        m.get_property_value("dark"),
        Some(PropertyValue::Bool(true))
    ));
}

#[test]
fn null_property_value_is_malformed() {
    let prop = JsonValue::Obj(vec![
        fld("name", st("oops")),
        fld("type", st("string")),
        fld("value", JsonValue::Null),
    ]);
    let doc = map_skeleton(vec![fld("properties", JsonValue::Arr(vec![prop]))]);
    assert!(matches!(load_map_from_json(&doc), Err(LoadError::MalformedDocument)));
}

#[test]
fn tileset_by_gid_scans_descending() {
    let doc = map_skeleton(vec![fld(
        "tilesets",
        JsonValue::Arr(vec![
            tileset_record(1, "a"),
            tileset_record(50, "b"),
            tileset_record(200, "c"),
        ]),
    )]);
    let m = load_map_from_json(&doc).unwrap();
    assert_eq!(m.tilesets().len(), 3);
    // gid 75 lands in the tileset starting at 50.
    assert_eq!(m.tileset_by_gid(75).unwrap().name(), "b");
    // An out-of-range gid still lands in the highest tileset.
    assert_eq!(m.tileset_by_gid(5000).unwrap().name(), "c");
    // Boundaries land exactly.
    assert_eq!(m.tileset_by_gid(1).unwrap().name(), "a");
    assert_eq!(m.tileset_by_gid(49).unwrap().name(), "a");
    assert_eq!(m.tileset_by_gid(50).unwrap().name(), "b");
    assert_eq!(m.tileset_by_gid(200).unwrap().name(), "c");
    // Flip flags do not change the lookup.
    assert_eq!(m.tileset_by_gid(75 | 0x8000_0000).unwrap().name(), "b");
}

#[test]
fn tileset_by_gid_none_on_empty_list() {
    let m = load_map_from_json(&map_skeleton(vec![])).unwrap();
    assert!(m.tileset_by_gid(75).is_none());
}

#[test]
fn tileset_fields_carry_over() {
    let doc = map_skeleton(vec![fld("tilesets", JsonValue::Arr(vec![tileset_record(1, "a")]))]);
    let m = load_map_from_json(&doc).unwrap();
    let ts = &m.tilesets()[0];
    assert_eq!(ts.first_gid(), 1);
    assert_eq!(ts.image(), "tiles.png");
    assert_eq!(ts.image_height(), 128);
    assert_eq!(ts.image_width(), 256);
    assert_eq!(ts.tile_count(), 128);
    assert_eq!(ts.columns(), 16);
    assert_eq!(ts.rows(), 8);
    assert_eq!(ts.margin(), 0);
    assert_eq!(ts.spacing(), 0);
    assert!(ts.grid().is_none());
    assert!(ts.tile_offset().is_none());
    assert_eq!(ts.tiles().len(), 0);
}

#[test]
fn tile_override_with_collision_layer_loads() {
    let collision = JsonValue::Obj(vec![
        fld("type", st("objectgroup")),
        fld("objects", JsonValue::Arr(vec![JsonValue::Obj(vec![
            fld("id", num(1)),
            fld("x", num(0)),
            fld("y", num(0)),
            fld("width", num(16)),
            fld("height", num(16)),
        ])])),
    ]);
    let tile = JsonValue::Obj(vec![
        fld("id", num(3)),
        fld("type", st("wall")),
        fld("objectgroup", collision),
        fld("animation", JsonValue::Arr(vec![
            JsonValue::Obj(vec![fld("duration", num(100)), fld("tileid", num(3))]),
            JsonValue::Obj(vec![fld("duration", num(100)), fld("tileid", num(4))]),
        ])),
    ]);
    let mut ts_fields = match tileset_record(1, "a") {
        JsonValue::Obj(f) => f,
        _ => unreachable!(),
    };
    ts_fields.push(fld("tiles", JsonValue::Arr(vec![tile])));
    let doc = map_skeleton(vec![fld("tilesets", JsonValue::Arr(vec![JsonValue::Obj(ts_fields)]))]);
    let m = load_map_from_json(&doc).unwrap();
    let ts = &m.tilesets()[0];
    // gid 4 = firstgid 1 + lid 3.
    let tile = ts.tile_by_gid(4).unwrap();
    assert_eq!(tile.id(), 3);
    assert_eq!(ts.type_by_gid(4).unwrap(), "wall");
    assert!(ts.collision_by_gid(4).unwrap().is_object_group());
    assert!(ts.collision_by_gid(5).is_none());
    assert!(ts.tile_by_gid(5).is_none());
    // The first frame shows for the first 100 ms, the second for the next.
    assert_eq!(tile.get_anim(0), (true, 3));
    assert_eq!(tile.get_anim(99), (true, 3));
    assert_eq!(tile.get_anim(100), (true, 4));
    assert_eq!(tile.get_anim(250), (true, 3));
}

#[test]
fn text_object_loads_with_defaults() {
    let object = JsonValue::Obj(vec![
        fld("id", num(1)),
        fld("x", num(0)),
        fld("y", num(0)),
        fld("text", JsonValue::Obj(vec![
            fld("text", st("hello")),
            fld("bold", JsonValue::Bool(true)),
            fld("halign", st("center")),
        ])),
    ]);
    let layer = JsonValue::Obj(vec![
        fld("type", st("objectgroup")),
        fld("objects", JsonValue::Arr(vec![object])),
    ]);
    let doc = map_skeleton(vec![fld("layers", JsonValue::Arr(vec![layer]))]);
    let m = load_map_from_json(&doc).unwrap();
    let objs = m.layers()[0].get_objects_vector().unwrap();
    assert!(objs[0].is_text());
    let t = objs[0].text().unwrap();
    assert_eq!(t.text(), "hello");
    assert!(t.is_bold());
    assert!(!t.is_italic());
    assert!(t.is_kerning());
    assert_eq!(t.pixel_size(), 16);
    assert_eq!(t.color(), Color { r: 0, g: 0, b: 0, a: 255 });
    assert_eq!(t.font_family(), "sans-serif");
    assert_eq!(t.halign_as_string(), "center");
    assert_eq!(t.valign_as_string(), "top");
}

#[test]
fn polygon_object_loads() {
    let object = JsonValue::Obj(vec![
        fld("id", num(1)),
        fld("x", num(0)),
        fld("y", num(0)),
        fld("polygon", JsonValue::Arr(vec![
            JsonValue::Obj(vec![fld("x", num(0)), fld("y", num(0))]),
            JsonValue::Obj(vec![fld("x", num(8)), fld("y", fnum(2.5))]),
        ])),
    ]);
    let layer = JsonValue::Obj(vec![
        fld("type", st("objectgroup")),
        fld("objects", JsonValue::Arr(vec![object])),
    ]);
    let doc = map_skeleton(vec![fld("layers", JsonValue::Arr(vec![layer]))]);
    let m = load_map_from_json(&doc).unwrap();
    let objs = m.layers()[0].get_objects_vector().unwrap();
    assert!(objs[0].is_polygon());
    assert!(!objs[0].is_polyline());
    let poly = objs[0].polygon().unwrap();
    assert_eq!(poly.len(), 2);
    assert_eq!(poly[1].x(), Real::from_bits(8.0f64.to_bits()));
    assert_eq!(poly[1].y(), Real::from_bits(2.5f64.to_bits()));
}

#[test]
fn base64_layer_inside_full_map() {
    let ws: Vec<u32> = vec![1, 0x80000002, 3, 4, 5, 6];
    let mut bytes = Vec::new();
    for w in &ws {
        bytes.extend_from_slice(&w.to_le_bytes());
    }
    let layer = JsonValue::Obj(vec![
        fld("type", st("tilelayer")),
        fld("name", st("ground")),
        fld("width", num(3)),
        fld("height", num(2)),
        fld("data", st(&base64::encode(bytes))),
    ]);
    let doc = map_skeleton(vec![fld("layers", JsonValue::Arr(vec![layer]))]);
    let m = load_map_from_json(&doc).unwrap();
    let l = &m.layers()[0];
    assert_eq!(l.get_data().unwrap(), &ws);
    assert!(l.is_flipped_horizontally(1));
    assert!(!l.is_flipped_horizontally(0));
    assert!(!l.is_flipped_horizontally(99));
    assert_eq!(l.is_flipped_hvd(1), (true, false, false));
    assert_eq!(l.get_gid_without_flags(1), 2);
    assert_eq!(l.get_gid_without_flags(99), 0);
}

#[test]
fn map_enums_parse_from_strings() {
    let doc = map_skeleton(vec![
        fld("renderorder", st("left-up")),
        fld("staggeraxis", st("y")),
        fld("staggerindex", st("odd")),
        fld("backgroundcolor", st("#010203")),
        fld("tiledversion", st("1.4.3")),
        fld("hexsidelength", num(9)),
    ]);
    let m = load_map_from_json(&doc).unwrap();
    assert_eq!(m.render_order(), RenderOrder::LeftUp);
    assert_eq!(m.stagger_axis(), Some(tiled_json::map::StaggerAxis::StaggerY));
    assert_eq!(m.stagger_index(), Some(tiled_json::map::StaggerIndex::Odd));
    assert_eq!(m.bg_color(), Some(Color { r: 1, g: 2, b: 3, a: 255 }));
    assert_eq!(m.tiled_version(), "1.4.3");
    assert_eq!(m.hex_side_length(), 9);
}

#[test]
fn float_literal_declared_int_stays_float() {
    // The declared type cannot turn a fractional literal into an integer.
    let prop = JsonValue::Obj(vec![
        fld("name", st("speed")),
        fld("type", st("int")),
        fld("value", fnum(5.5)),
    ]);
    let doc = map_skeleton(vec![fld("properties", JsonValue::Arr(vec![prop]))]);
    let m = load_map_from_json(&doc).unwrap();
    let p = m.get_property("speed").unwrap();
    assert_eq!(p.get_float(), Some(Real::from_bits(5.5f64.to_bits())));
    assert_eq!(p.get_int(), None);
}

#[test]
fn coord_by_gid_formula() {
    let doc = map_skeleton(vec![fld("tilesets", JsonValue::Arr(vec![tileset_record(1, "a")]))]);
    let m = load_map_from_json(&doc).unwrap();
    let ts = &m.tilesets()[0];
    // 16 columns of 16x16 tiles, no margin or spacing, firstgid 1.
    assert_eq!(ts.coord_by_gid(1), (0, 0));
    assert_eq!(ts.coord_by_gid(2), (16, 0));
    assert_eq!(ts.coord_by_gid(18), (16, 16));
    // Flip flags on the gid do not move the tile.
    assert_eq!(ts.coord_by_gid(18 | 0x8000_0000), (16, 16));
}

#[test]
fn anim_by_gid_follows_the_animation() {
    let tile = JsonValue::Obj(vec![
        fld("id", num(0)),
        fld("animation", JsonValue::Arr(vec![
            JsonValue::Obj(vec![fld("duration", num(50)), fld("tileid", num(1))]),
            JsonValue::Obj(vec![fld("duration", num(50)), fld("tileid", num(2))]),
        ])),
    ]);
    let mut ts_fields = match tileset_record(1, "a") {
        JsonValue::Obj(f) => f,
        _ => unreachable!(),
    };
    ts_fields.push(fld("tiles", JsonValue::Arr(vec![tile])));
    let doc = map_skeleton(vec![fld("tilesets", JsonValue::Arr(vec![JsonValue::Obj(ts_fields)]))]);
    let m = load_map_from_json(&doc).unwrap();
    let ts = &m.tilesets()[0];
    // gid 1 is lid 0, the animated tile: frame 1 first, frame 2 after 50 ms.
    assert_eq!(ts.anim_by_gid(1, 0), (16, 0));
    assert_eq!(ts.anim_by_gid(1, 60), (32, 0));
    // gid 2 is lid 1, not animated: its own cell.
    assert_eq!(ts.anim_by_gid(2, 60), (16, 0));
}

#[test]
fn rows_is_zero_when_columns_is_zero() {
    let mut ts_fields = match tileset_record(1, "a") {
        JsonValue::Obj(f) => f,
        _ => unreachable!(),
    };
    ts_fields.retain(|f| f.key != "columns");
    ts_fields.push(fld("columns", num(0)));
    let doc = map_skeleton(vec![fld("tilesets", JsonValue::Arr(vec![JsonValue::Obj(ts_fields)]))]);
    let m = load_map_from_json(&doc).unwrap();
    assert_eq!(m.tilesets()[0].rows(), 0);
}
