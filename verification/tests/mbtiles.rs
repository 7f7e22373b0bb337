use martin::mbtiles::{detect_type as layout_of, MbtError, MbtType, Mbtiles, TableSchema};
use martin::metadata::Metadata;
use martin::tile_json::TileJson;
use martin::tile_info::{Encoding, Format, TileInfo};

fn relation(name: &str, is_view: bool, columns: &[&str]) -> TableSchema {
    TableSchema {
        name: name.to_string(),
        is_view,
        columns: columns.iter().map(|c| c.to_string()).collect(),
    }
}

fn world_cities() -> Vec<TableSchema> {
    vec![
        relation("metadata", false, &["name", "value"]),
        relation("tiles", false, &["zoom_level", "tile_column", "tile_row", "tile_data"]),
    ]
}

fn geography_class() -> Vec<TableSchema> {
    vec![
        relation("map", false, &["zoom_level", "tile_column", "tile_row", "tile_id", "grid_id"]),
        relation("images", false, &["tile_data", "tile_id"]),
        relation("metadata", false, &["name", "value"]),
        relation("tiles", true, &["zoom_level", "tile_column", "tile_row", "tile_data"]),
    ]
}

#[test]
fn mbtiles_meta() {
    let filepath = "../tests/fixtures/files/geography-class-jpg.mbtiles";
    let mbt = Mbtiles::new(filepath);
    assert_eq!(mbt.filepath(), filepath);
    assert_eq!(mbt.filename(), "geography-class-jpg");
}

#[test]
fn mbtiles_without_file_name() {
    let mbt = Mbtiles::new("..");
    assert_eq!(mbt.filepath(), "..");
    assert_eq!(mbt.filename(), "unknown");
    let mbt = Mbtiles::with_stem("/a/b.mbtiles", None);
    assert_eq!(mbt.filename(), "unknown");
    let mbt = Mbtiles::with_stem("/a/b.mbtiles", Some("b".to_string()));
    assert_eq!(mbt.filename(), "b");
    assert_eq!(mbt.duplicate(), mbt);
}

#[test]
fn detect_type() {
    let mbt = Mbtiles::new("world_cities.mbtiles");
    assert_eq!(mbt.detect_type(&world_cities()).unwrap(), MbtType::TileTables);

    let mbt = Mbtiles::new("geography-class-jpg.mbtiles");
    assert_eq!(mbt.detect_type(&geography_class()).unwrap(), MbtType::DeDuplicated);

    let mbt = Mbtiles::new(":memory:");
    let res = mbt.detect_type(&Vec::new());
    assert!(matches!(res, Err(MbtError::InvalidDataFormat(_))));
    assert_eq!(res, Err(MbtError::InvalidDataFormat(":memory:".to_string())));
}

#[test]
fn detect_type_needs_every_column() {
    let schema = vec![relation("tiles", false, &["zoom_level", "tile_column", "tile_row"])];
    assert_eq!(layout_of(&schema), None);
    let schema = vec![
        relation("map", false, &["zoom_level", "tile_column", "tile_row", "tile_id"]),
        relation("images", false, &["tile_id"]),
    ];
    assert_eq!(layout_of(&schema), None);
}

#[test]
fn detect_type_views() {
    let schema = vec![relation("tiles", true, &["zoom_level", "tile_column", "tile_row", "tile_data"])];
    assert_eq!(layout_of(&schema), Some(MbtType::TileTables));
    let schema = vec![
        relation("map", true, &["zoom_level", "tile_column", "tile_row", "tile_id"]),
        relation("images", false, &["tile_id", "tile_data"]),
    ];
    assert_eq!(layout_of(&schema), None);
    let schema = vec![
        relation("map", true, &["zoom_level", "tile_column", "tile_row", "tile_id"]),
        relation("images", false, &["tile_id", "tile_data"]),
        relation("tiles", false, &["tile_data", "tile_row", "tile_column", "zoom_level"]),
    ];
    assert_eq!(layout_of(&schema), Some(MbtType::TileTables));
}

#[test]
fn detect_type_later_relation_of_same_name() {
    let schema = vec![
        relation("tiles", false, &["a"]),
        relation("Tiles", false, &["zoom_level", "tile_column", "tile_row", "tile_data"]),
        relation("tiles", true, &["zoom_level", "tile_column", "tile_row", "tile_data"]),
    ];
    assert_eq!(layout_of(&schema), Some(MbtType::TileTables));
}

#[test]
fn parse_tile_rows() {
    let mbt = Mbtiles::new("a.mbtiles");
    let gzip = vec![0x1Fu8, 0x8B, 0x08];
    assert_eq!(
        mbt.parse_tile(Some(0), Some(0), Some(0), Some(gzip.clone())),
        Some(TileInfo::new(Format::Mvt, Encoding::Gzip))
    );
    assert_eq!(mbt.parse_tile(None, Some(0), Some(0), Some(gzip.clone())), None);
    assert_eq!(mbt.parse_tile(Some(0), None, Some(0), Some(gzip.clone())), None);
    assert_eq!(mbt.parse_tile(Some(0), Some(0), None, Some(gzip.clone())), None);
    assert_eq!(mbt.parse_tile(Some(0), Some(0), Some(0), None), None);
    assert_eq!(mbt.parse_tile(Some(0), Some(0), Some(0), Some(Vec::new())), None);
}

#[test]
fn metadata_is_named_after_the_archive() {
    let mbt = Mbtiles::new("../tests/fixtures/files/world_cities.mbtiles");
    let info = TileInfo::new(Format::Mvt, Encoding::Gzip);
    let metadata = Metadata::of(&mbt, TileJson::new(), Some("overlay".to_string()), None, info);
    assert_eq!(metadata.id, "world_cities");
    assert_eq!(metadata.tile_info, info);
    assert_eq!(metadata.layer_type, Some("overlay".to_string()));
    assert!(metadata.json.is_none());
}
