use martin::discovery::{table_info, GeometryColumn};
use martin::request::{find_source, select, select_sources, split_ids, tile_address, tiles_path};
use martin::source::{CompositeSource, TableSource};
use martin::text::{push_quoted, push_signed_decimal};

fn source(id: &str, minzoom: Option<u8>, maxzoom: Option<u8>) -> TableSource {
    let column = GeometryColumn {
        schema: "public".to_string(),
        table: id.to_string(),
        geometry_column: "geom".to_string(),
        srid: 4326,
        geometry_type: None,
        properties: Vec::new(),
    };
    let mut info = table_info(column, None).unwrap();
    info.minzoom = minzoom;
    info.maxzoom = maxzoom;
    TableSource::new(id.to_string(), info)
}

fn table_sql(layer: &str, table: &str, properties: &str, extent: u32, buffer: u32, clip: bool, srid: i32) -> String {
    format!(
        "SELECT ST_AsMVT(tile, '{layer}', {extent}, 'g') FROM (SELECT ST_AsMVTGeom(ST_Transform(\"geom\", 3857), ST_TileEnvelope($1::integer, $2::integer, $3::integer), {extent}, {buffer}, {clip}) AS g{properties} FROM \"public\".\"{table}\" WHERE \"geom\" && ST_Transform(ST_TileEnvelope($1::integer, $2::integer, $3::integer, margin => {buffer}::float8 / {extent}), {srid})) AS tile"
    )
}

#[test]
fn split_ids_at_commas() {
    assert_eq!(split_ids("a"), vec!["a"]);
    assert_eq!(split_ids("points1,points2"), vec!["points1", "points2"]);
    assert_eq!(split_ids(""), vec![""]);
    assert_eq!(split_ids(","), vec!["", ""]);
    assert_eq!(split_ids("a,,b,"), vec!["a", "", "b", ""]);
    assert_eq!(split_ids("a.1,ü"), vec!["a.1", "ü"]);
}

#[test]
fn tiles_path_drops_json_extensions() {
    assert_eq!(tiles_path("/points.json"), "/points");
    assert_eq!(tiles_path("/points"), "/points");
    assert_eq!(tiles_path("/a,b.json.json"), "/a,b");
    assert_eq!(tiles_path(".json"), "");
    assert_eq!(tiles_path("/points.jso"), "/points.jso");
    assert_eq!(tiles_path("/points.json/"), "/points.json/");
    assert_eq!(tiles_path("/pöints.JSON"), "/pöints.JSON");
    assert_eq!(tiles_path("json"), "json");
    assert_eq!(tiles_path(""), "");
}

#[test]
fn tile_address_keeps_query() {
    assert_eq!(tile_address("/points", ""), "/points/{z}/{x}/{y}.pbf");
    assert_eq!(tile_address("/tiles/points", "token=1&a=b"), "/tiles/points/{z}/{x}/{y}.pbf?token=1&a=b");
    assert_eq!(tile_address("", "q"), "/{z}/{x}/{y}.pbf?q");
}

#[test]
fn sources_are_selected_in_the_order_asked() {
    let sources = vec![source("a", None, None), source("b", None, None), source("a", None, None)];
    assert_eq!(find_source(&sources, "a"), Some(0));
    assert_eq!(find_source(&sources, "b"), Some(1));
    assert_eq!(find_source(&sources, "c"), None);
    assert_eq!(find_source(&Vec::new(), "a"), None);
    assert_eq!(select_sources(&sources, &split_ids("b,a")), vec![1, 0]);
    assert_eq!(select_sources(&sources, &split_ids("b,x,b,")), vec![1, 1]);
    assert!(select_sources(&sources, &split_ids("x,y")).is_empty());
}

#[test]
fn quoting() {
    for (text, quote, expected) in [
        ("geom", '"', "\"geom\""),
        ("", '"', "\"\""),
        ("a\"b", '"', "\"a\"\"b\""),
        ("\"\"", '"', "\"\"\"\"\"\""),
        ("it's", '\'', "'it''s'"),
        ("it's", '"', "\"it's\""),
    ] {
        let mut out = String::from(">");
        push_quoted(&mut out, text, quote);
        assert_eq!(out, format!(">{expected}"));
    }
}

#[test]
fn signed_decimal_notation() {
    for n in [0i64, 7, -7, 4326, -4326, i64::MAX, i64::MIN] {
        let mut out = String::new();
        push_signed_decimal(&mut out, n);
        assert_eq!(out, n.to_string());
    }
}

#[test]
fn table_tile_query() {
    let plain = source("points", Some(2), Some(4));
    assert_eq!(plain.tile_sql(1), None);
    assert_eq!(plain.tile_sql(5), None);
    assert_eq!(plain.tile_sql(3).unwrap(), table_sql("points", "points", "", 4096, 64, true, 4326));

    let mut odd = source("points", None, None);
    odd.id = "o'hara".to_string();
    odd.info.extent = Some(512);
    odd.info.buffer = None;
    odd.info.clip_geom = Some(false);
    odd.info.srid = -1;
    odd.info.properties = vec![
        ("gid".to_string(), "int4".to_string()),
        ("na\"me".to_string(), "text".to_string()),
    ];
    assert_eq!(
        odd.tile_sql(0).unwrap(),
        table_sql("o''hara", "points", ", \"gid\", \"na\"\"me\"", 512, 64, false, -1)
    );
}

#[test]
fn composite_tile_query() {
    let composite = CompositeSource {
        id: "a,b,c".to_string(),
        table_sources: vec![source("a", Some(0), Some(5)), source("b", Some(4), None), source("c", None, Some(3))],
    };
    let a = table_sql("a", "a", "", 4096, 64, true, 4326);
    let b = table_sql("b", "b", "", 4096, 64, true, 4326);
    let c = table_sql("c", "c", "", 4096, 64, true, 4326);
    assert_eq!(composite.tile_sql(0).unwrap(), format!("SELECT ({a}) || ({c})"));
    assert_eq!(composite.tile_sql(4).unwrap(), format!("SELECT ({a}) || ({b})"));
    assert_eq!(composite.tile_sql(9).unwrap(), format!("SELECT ({b})"));
    assert_eq!(composite.tile_sql(-1).unwrap(), format!("SELECT ({c})"));
    let narrow = CompositeSource { id: "a".to_string(), table_sources: vec![source("a", Some(2), Some(3))] };
    assert_eq!(narrow.tile_sql(4), None);
    let none = CompositeSource { id: String::new(), table_sources: Vec::new() };
    assert_eq!(none.tile_sql(0), None);
}

#[test]
fn composite_of_the_sources_that_a_request_names() {
    let sources = vec![source("a", Some(1), None), source("b", None, Some(7)), source("c", None, None)];
    let composite = select(&sources, "c,a").unwrap();
    assert_eq!(composite.id, "c,a");
    assert_eq!(composite.table_sources.len(), 2);
    assert_eq!(composite.table_sources[0].id, "c");
    assert_eq!(composite.table_sources[1].id, "a");
    assert_eq!(composite.table_sources[1].info, sources[0].info);
    assert_eq!(composite.table_sources[1].tilejson, sources[0].tilejson);
    assert_eq!(composite.zoom_envelope(), (None, None));

    let composite = select(&sources, "b,nothing,b").unwrap();
    assert_eq!(composite.id, "b,nothing,b");
    assert_eq!(composite.table_sources.len(), 2);
    assert!(select(&sources, "nothing").is_none());
    assert!(select(&sources, "").is_none());
    assert!(select(&sources, ",").is_none());
    assert!(select(&Vec::new(), "a").is_none());
    assert_eq!(sources[0].duplicate().info, sources[0].info);
}
