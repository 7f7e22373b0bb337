use martin::format_detector::{DetectStep, FormatDetector, TileQuery, TileRow};
use martin::mbtiles::Mbtiles;
use martin::metadata::{known_name, parse_metadata, Metadata, MetadataFields};
use martin::string_map::StringMap;
use martin::tile_info::{Encoding, Format, TileInfo};
use martin::tile_json::{Bounds, Center, LayerParts, TileJson, VectorLayer};

fn rows(pairs: &[(&str, &str)]) -> Vec<(String, String)> {
    pairs.iter().map(|(n, v)| (n.to_string(), v.to_string())).collect()
}

fn pairs(list: &[(&str, &str)]) -> StringMap {
    StringMap::from_pairs(&rows(list))
}

fn sidecar(json: &Option<String>) -> serde_json::Value {
    serde_json::from_str(json.as_ref().unwrap()).unwrap()
}

/// What the tiles of an archive hold, where every tile starts with `tile`.
fn detect(tilejson: &TileJson, tile: &[u8]) -> TileInfo {
    let mut detector = FormatDetector::new(tilejson);
    loop {
        match detector.next() {
            DetectStep::Ask(query) => detector.record(Some(TileRow {
                zoom_level: match query {
                    TileQuery::AnyTile => Some(0),
                    TileQuery::AtZoom(_) => None,
                },
                tile_column: Some(0),
                tile_row: Some(0),
                tile_data: Some(tile.to_vec()),
            })),
            DetectStep::Done(detection) => return detection.result.unwrap(),
        }
    }
}

fn world_cities_rows() -> Vec<(String, String)> {
    rows(&[
        ("name", "Major cities from Natural Earth data"),
        ("format", "pbf"),
        ("bounds", "-123.123590,-37.818085,174.763027,59.352706"),
        ("center", "-75.937500,38.788894,6"),
        ("minzoom", "0"),
        ("maxzoom", "6"),
        ("attribution", ""),
        ("description", "Major cities from Natural Earth data"),
        ("type", "overlay"),
        ("version", "2"),
        (
            "json",
            "{\"vector_layers\":[{\"id\":\"cities\",\"description\":\"\",\"minzoom\":0,\"maxzoom\":6,\"fields\":{\"name\":\"String\"}}],\"tilestats\":{\"layerCount\":1}}",
        ),
    ])
}

fn bounds(left: f64, bottom: f64, right: f64, top: f64) -> Bounds {
    Bounds {
        left: left.to_bits(),
        bottom: bottom.to_bits(),
        right: right.to_bits(),
        top: top.to_bits(),
    }
}

#[test]
fn metadata_mvt() {
    let mbt = Mbtiles::new("../tests/fixtures/files/world_cities.mbtiles");
    let (tilejson, layer_type, json) = parse_metadata(&world_cities_rows());
    let tile_info = detect(&tilejson, &[0x1F, 0x8B, 0x08, 0x00]);
    let metadata = Metadata::of(&mbt, tilejson, layer_type, json, tile_info);
    let tj = metadata.tilejson;

    assert_eq!(tj.maxzoom.unwrap(), 6);
    assert_eq!(tj.minzoom.unwrap(), 0);
    assert_eq!(tj.name.unwrap(), "Major cities from Natural Earth data");
    assert_eq!(tj.version.unwrap(), "2");
    assert_eq!(
        tj.vector_layers,
        Some(vec![VectorLayer {
            id: "cities".to_string(),
            fields: pairs(&[("name", "String")]),
            description: Some(String::new()),
            minzoom: Some(0),
            maxzoom: Some(6),
            other: StringMap::new(),
        }])
    );
    assert_eq!(metadata.id, "world_cities");
    assert_eq!(metadata.tile_info, TileInfo::new(Format::Mvt, Encoding::Gzip));
    assert_eq!(metadata.layer_type, Some("overlay".to_string()));
    assert_eq!(tj.attribution, None);
    assert_eq!(tj.bounds, Some(bounds(-123.123590, -37.818085, 174.763027, 59.352706)));
    assert_eq!(
        tj.center,
        Some(Center {
            longitude: (-75.9375f64).to_bits(),
            latitude: 38.788894f64.to_bits(),
            zoom: 6
        })
    );
    assert_eq!(tj.other.get("format"), Some(&"pbf".to_string()));
    assert_eq!(tj.other.len(), 1);
    assert_eq!(metadata.json, Some("{\"tilestats\":{\"layerCount\":1}}".to_string()));
}

#[test]
fn metadata_jpeg() {
    let mbt = Mbtiles::new("../tests/fixtures/files/geography-class-jpg.mbtiles");
    let (tilejson, layer_type, json) = parse_metadata(&rows(&[
        ("bounds", "-180,-85.0511,180,85.0511"),
        ("center", "0,20,0"),
        ("description", "One of the example maps that comes with TileMill - a bright & colorful world map that blends retro and high-tech with its folded paper texture and interactive flag tooltips. "),
        ("legend", "<div style=\"text-align:center;\">\n</div>"),
        ("maxzoom", "1"),
        ("minzoom", "0"),
        ("name", "Geography Class"),
        ("template", "{{#__location__}}{{/__location__}}{{#__teaser__}}<div style=\"text-align:center;\">\n\n<img src=\"data:image/png;base64,{{flag_png}}\" style=\"-moz-box-shadow:0px 1px 3px #222;-webkit-box-shadow:0px 1px 5px #222;box-shadow:0px 1px 3px #222;\"><br>\n<strong>{{admin}}</strong>\n\n</div>{{/__teaser__}}{{#__full__}}{{/__full__}}"),
        ("version", "1.0.0"),
    ]));
    let tile_info = detect(&tilejson, &[0xFF, 0xD8, 0xFF, 0xE0]);
    let metadata = Metadata::of(&mbt, tilejson, layer_type, json, tile_info);
    let tj = metadata.tilejson;

    assert_eq!(tj.description.unwrap(), "One of the example maps that comes with TileMill - a bright & colorful world map that blends retro and high-tech with its folded paper texture and interactive flag tooltips. ");
    assert!(tj.legend.unwrap().starts_with("<div style="));
    assert_eq!(tj.maxzoom.unwrap(), 1);
    assert_eq!(tj.minzoom.unwrap(), 0);
    assert_eq!(tj.name.unwrap(), "Geography Class");
    assert_eq!(tj.template.unwrap(),"{{#__location__}}{{/__location__}}{{#__teaser__}}<div style=\"text-align:center;\">\n\n<img src=\"data:image/png;base64,{{flag_png}}\" style=\"-moz-box-shadow:0px 1px 3px #222;-webkit-box-shadow:0px 1px 5px #222;box-shadow:0px 1px 3px #222;\"><br>\n<strong>{{admin}}</strong>\n\n</div>{{/__teaser__}}{{#__full__}}{{/__full__}}");
    assert_eq!(tj.version.unwrap(), "1.0.0");
    assert_eq!(metadata.id, "geography-class-jpg");
    assert_eq!(metadata.tile_info, Format::Jpeg.into());
    assert_eq!(tj.bounds, Some(bounds(-180.0, -85.0511, 180.0, 85.0511)));
    assert_eq!(tj.vector_layers, None);
    assert_eq!(metadata.layer_type, None);
    assert!(metadata.json.is_none());
}

#[test]
fn metadata_read_twice_is_equal() {
    let many_fields = rows(&[
        ("name", "n"),
        ("json", "{\"b\":[1,2.5,null],\"vector_layers\":[{\"id\":\"l\",\"fields\":{\"f\":\"String\",\"a\":\"Number\",\"z\":\"Boolean\",\"m\":\"String\",\"q\":\"Number\"},\"source\":\"x\",\"extra\":{\"k\":[true]}}],\"a\":\"s\"}"),
        ("custom", "1"),
    ]);
    let mbt = Mbtiles::new("a.mbtiles");
    let tile_info = TileInfo::new(Format::Mvt, Encoding::Gzip);
    let read = || {
        let (tilejson, layer_type, json) = parse_metadata(&many_fields);
        Metadata::of(&mbt, tilejson, layer_type, json, tile_info)
    };
    let first = read();
    for _ in 0..20 {
        assert_eq!(read(), first);
    }
    let layers = first.tilejson.vector_layers.unwrap();
    assert_eq!(layers.len(), 1);
    assert_eq!(layers[0].fields.len(), 5);
    assert_eq!(layers[0].fields.get("q"), Some(&"Number".to_string()));
    assert_eq!(layers[0].other.get("source"), Some(&"\"x\"".to_string()));
    assert_eq!(layers[0].other.get("extra"), Some(&"{\"k\":[true]}".to_string()));
    assert_eq!(layers[0].other.len(), 2);
    assert_eq!(first.json, Some("{\"a\":\"s\",\"b\":[1,2.5,null]}".to_string()));
}

#[test]
fn layers_from_parts() {
    let parts = LayerParts {
        id: "l".to_string(),
        fields: rows(&[("b", "Number"), ("a", "String")]),
        description: Some("d".to_string()),
        maxzoom: Some(9),
        minzoom: None,
        other: rows(&[("k", "1")]),
    };
    let layer = VectorLayer::from_parts(parts.clone());
    assert_eq!(layer.id, "l");
    assert_eq!(layer.fields, pairs(&[("a", "String"), ("b", "Number")]));
    assert_eq!(layer.description, Some("d".to_string()));
    assert_eq!((layer.minzoom, layer.maxzoom), (None, Some(9)));
    assert_eq!(layer.other, pairs(&[("k", "1")]));
    let list = VectorLayer::from_parts_list(vec![parts.clone(), parts]);
    assert_eq!(list, vec![layer.clone(), layer]);
    assert!(VectorLayer::from_parts_list(Vec::new()).is_empty());
}

#[test]
fn metadata_of_no_rows() {
    let (tj, layer_type, json) = parse_metadata(&Vec::new());
    assert_eq!(tj.tilejson, "3.0.0");
    assert!(tj.tiles.is_empty());
    assert_eq!(tj.name, None);
    assert_eq!(tj.minzoom, None);
    assert_eq!(tj.other.len(), 0);
    assert_eq!(layer_type, None);
    assert!(json.is_none());
    let fresh = TileJson::new();
    assert_eq!(fresh.tilejson, "3.0.0");
    assert!(fresh.has_valid_zooms());
}

#[test]
fn metadata_ignores_empty_values() {
    let fields = MetadataFields::from_rows(&rows(&[("name", "a"), ("name", ""), ("x", "")]));
    assert_eq!(fields.tilejson.name, Some("a".to_string()));
    assert_eq!(fields.tilejson.other.len(), 0);
}

#[test]
fn metadata_last_row_wins() {
    let fields = MetadataFields::from_rows(&rows(&[
        ("name", "first"),
        ("maxzoom", "3"),
        ("name", "second"),
        ("maxzoom", "9"),
        ("custom", "1"),
        ("custom", "2"),
    ]));
    assert_eq!(fields.tilejson.name, Some("second".to_string()));
    assert_eq!(fields.tilejson.maxzoom, Some(9));
    assert_eq!(fields.tilejson.other.get("custom"), Some(&"2".to_string()));
    assert_eq!(fields.tilejson.other.len(), 1);
}

#[test]
fn metadata_drops_values_that_do_not_parse() {
    let fields = MetadataFields::from_rows(&rows(&[
        ("minzoom", "2"),
        ("minzoom", "two"),
        ("maxzoom", "256"),
        ("bounds", "1,2,3"),
        ("center", "1,2,3,4"),
    ]));
    assert_eq!(fields.tilejson.minzoom, None);
    assert_eq!(fields.tilejson.maxzoom, None);
    assert_eq!(fields.tilejson.bounds, None);
    assert_eq!(fields.tilejson.center, None);
}

#[test]
fn metadata_number_forms() {
    let fields = MetadataFields::from_rows(&rows(&[
        ("minzoom", "+7"),
        ("maxzoom", "007"),
        ("bounds", " 1 ,2.0, 3.0,  4.0 "),
        ("center", "  1 ,2.0, 3 "),
    ]));
    assert_eq!(fields.tilejson.minzoom, Some(7));
    assert_eq!(fields.tilejson.maxzoom, Some(7));
    assert_eq!(fields.tilejson.bounds, Some(bounds(1.0, 2.0, 3.0, 4.0)));
    assert_eq!(
        fields.tilejson.center,
        Some(Center { longitude: 1.0f64.to_bits(), latitude: 2.0f64.to_bits(), zoom: 3 })
    );
}

#[test]
fn metadata_keeps_other_rows() {
    let fields = MetadataFields::from_rows(&rows(&[
        ("format", "png"),
        ("generator", "tippecanoe v1"),
        ("scheme", "tms"),
        ("type", "baselayer"),
        ("json", "{}"),
    ]));
    assert_eq!(fields.tilejson.other.get("format"), Some(&"png".to_string()));
    assert_eq!(fields.tilejson.other.get("generator"), Some(&"tippecanoe v1".to_string()));
    assert_eq!(fields.tilejson.other.get("scheme"), Some(&"tms".to_string()));
    assert_eq!(fields.tilejson.other.get("type"), None);
    assert_eq!(fields.tilejson.other.get("json"), None);
    assert_eq!(fields.layer_type, Some("baselayer".to_string()));
    assert_eq!(fields.json_text, Some("{}".to_string()));
}

#[test]
fn metadata_json_that_does_not_parse() {
    let (tj, _, json) = parse_metadata(&rows(&[("json", "{\"vector_layers\": [")]));
    assert!(json.is_none());
    assert_eq!(tj.vector_layers, None);
}

#[test]
fn metadata_json_without_layers() {
    let (tj, _, json) = parse_metadata(&rows(&[("json", "{\"a\": 1}")]));
    assert_eq!(json, Some("{\"a\":1}".to_string()));
    assert_eq!(tj.vector_layers, None);
    let (tj, _, json) = parse_metadata(&rows(&[("json", "[1, 2]")]));
    assert!(sidecar(&json).is_array());
    assert_eq!(json, Some("[1,2]".to_string()));
    assert_eq!(tj.vector_layers, None);
    let (tj, _, json) = parse_metadata(&rows(&[("json", "[{\"vector_layers\": []}]")]));
    assert_eq!(json, Some("[{\"vector_layers\":[]}]".to_string()));
    assert_eq!(tj.vector_layers, None);
    let (tj, _, json) = parse_metadata(&rows(&[("json", "{\"vector_layers\": []}")]));
    assert_eq!(json, Some("{}".to_string()));
    assert_eq!(tj.vector_layers, Some(Vec::new()));
}

#[test]
fn metadata_layers_that_do_not_parse() {
    let (tj, _, json) = parse_metadata(&rows(&[("json", "{\"vector_layers\": 3, \"b\": true}")]));
    let json = sidecar(&json);
    assert!(json.get("vector_layers").is_none());
    assert_eq!(json.get("b").unwrap().as_bool(), Some(true));
    assert_eq!(tj.vector_layers, None);
}

#[test]
fn known_names() {
    for name in [
        "name", "version", "bounds", "center", "minzoom", "maxzoom", "description",
        "attribution", "type", "legend", "template", "json", "format", "generator",
    ] {
        assert!(known_name(name));
    }
    assert!(!known_name("scheme"));
    assert!(!known_name("Name"));
    assert!(!known_name(""));
}

#[test]
fn tilejson_zoom_ranges() {
    let mut tj = TileJson::new();
    tj.minzoom = Some(3);
    tj.maxzoom = Some(30);
    assert!(tj.has_valid_zooms());
    tj.maxzoom = Some(31);
    assert!(!tj.has_valid_zooms());
    tj.maxzoom = Some(2);
    assert!(!tj.has_valid_zooms());
    tj.minzoom = None;
    assert!(tj.has_valid_zooms());
}

#[test]
fn vector_layer_duplicate() {
    let mut layer = VectorLayer::new("l".to_string(), vec![("a".to_string(), "b".to_string())]);
    layer.description = Some("d".to_string());
    layer.minzoom = Some(1);
    assert_eq!(layer.duplicate(), layer);
}
