use martin::format_detector::{
    resolve_format, DetectStep, Detection, FormatDetector, FormatNote, TileQuery, TileRow,
};
use martin::mbtiles::MbtError;
use martin::tile_info::{Encoding, Format, TileInfo};
use martin::tile_json::{TileJson, VectorLayer};

const GZIP: [u8; 3] = [0x1F, 0x8B, 0x08];
const JPEG: [u8; 4] = [0xFF, 0xD8, 0xFF, 0xE0];
const PLAIN: [u8; 2] = [0x1A, 0x00];

fn row(zoom: Option<i64>, data: &[u8]) -> Option<TileRow> {
    Some(TileRow {
        zoom_level: zoom,
        tile_column: Some(0),
        tile_row: Some(0),
        tile_data: Some(data.to_vec()),
    })
}

fn tilejson(minzoom: Option<u8>, maxzoom: Option<u8>, format: Option<&str>) -> TileJson {
    let mut tj = TileJson::new();
    tj.minzoom = minzoom;
    tj.maxzoom = maxzoom;
    if let Some(f) = format {
        tj.other.insert("format".to_string(), f.to_string());
    }
    tj
}

/// Runs a detection on an archive that holds `tiles`, one at most for each zoom level.
fn run(tj: &TileJson, tiles: &[(u8, &[u8])]) -> (Detection, Vec<TileQuery>) {
    let mut detector = FormatDetector::new(tj);
    let mut asked = Vec::new();
    loop {
        match detector.next() {
            DetectStep::Ask(query) => {
                asked.push(query);
                assert!(asked.len() <= 257);
                let answer = match query {
                    TileQuery::AnyTile => tiles.first().and_then(|(z, d)| row(Some(*z as i64), d)),
                    TileQuery::AtZoom(z) => {
                        tiles.iter().find(|(tz, _)| *tz == z).and_then(|(_, d)| row(None, d))
                    }
                };
                detector.record(answer);
            }
            DetectStep::Done(detection) => return (detection, asked),
        }
    }
}

#[test]
fn detect_world_cities() {
    let tj = tilejson(Some(0), Some(6), Some("pbf"));
    let tiles: Vec<(u8, &[u8])> = (0u8..=6).map(|z| (z, &GZIP[..])).collect();
    let (detection, asked) = run(&tj, &tiles);
    assert_eq!(detection.result, Ok(TileInfo::new(Format::Mvt, Encoding::Gzip)));
    assert_eq!(detection.note, FormatNote::Confirmed);
    assert!(!detection.layers_without_vectors);
    let mut expected = vec![TileQuery::AnyTile];
    expected.extend((1u8..=6).map(TileQuery::AtZoom));
    assert_eq!(asked, expected);
}

#[test]
fn detect_geography_class_jpg() {
    let tj = tilejson(Some(0), Some(1), None);
    let (detection, asked) = run(&tj, &[(1, &JPEG), (0, &JPEG)]);
    assert_eq!(detection.result, Ok(Format::Jpeg.into()));
    assert_eq!(detection.note, FormatNote::Undeclared);
    assert_eq!(asked, vec![TileQuery::AnyTile, TileQuery::AtZoom(0)]);
}

#[test]
fn detect_default_zoom_range() {
    let tj = tilejson(None, None, None);
    let (detection, asked) = run(&tj, &[(3, &PLAIN)]);
    assert_eq!(detection.result, Ok(TileInfo::new(Format::Mvt, Encoding::Identity)));
    assert_eq!(asked.len(), 19);
    assert_eq!(asked[0], TileQuery::AnyTile);
    assert_eq!(asked[1], TileQuery::AtZoom(0));
    assert!(!asked.contains(&TileQuery::AtZoom(3)));
    assert_eq!(asked[18], TileQuery::AtZoom(18));
}

#[test]
fn detect_inconsistent_tiles() {
    let tj = tilejson(Some(0), Some(5), Some("jpg"));
    let (detection, asked) = run(&tj, &[(0, &JPEG), (2, &GZIP), (3, &JPEG)]);
    assert_eq!(
        detection.result,
        Err(MbtError::InconsistentMetadata(
            Format::Jpeg.into(),
            TileInfo::new(Format::Mvt, Encoding::Gzip)
        ))
    );
    assert_eq!(asked, vec![TileQuery::AnyTile, TileQuery::AtZoom(1), TileQuery::AtZoom(2)]);
}

#[test]
fn detect_no_tiles() {
    let tj = tilejson(Some(0), Some(2), None);
    let (detection, asked) = run(&tj, &[]);
    assert_eq!(detection.result, Err(MbtError::NoTilesFound));
    assert_eq!(asked.len(), 4);
    let tj = tilejson(Some(0), Some(2), Some("tiff"));
    let (detection, _) = run(&tj, &[]);
    assert_eq!(detection.result, Err(MbtError::NoTilesFound));
    assert_eq!(detection.note, FormatNote::UnknownDeclared);
}

#[test]
fn detect_format_from_metadata_only() {
    let tj = tilejson(Some(0), Some(2), Some("pbf"));
    let (detection, _) = run(&tj, &[]);
    assert_eq!(detection.result, Ok(TileInfo::new(Format::Mvt, Encoding::Identity)));
    assert_eq!(detection.note, FormatNote::TakenFromMetadata);
    let tj = tilejson(Some(0), Some(2), Some("png"));
    let (detection, _) = run(&tj, &[]);
    assert_eq!(detection.result, Ok(Format::Png.into()));
    assert_eq!(detection.note, FormatNote::Unverified);
}

#[test]
fn detect_format_that_differs_from_metadata() {
    let tj = tilejson(Some(0), Some(0), Some("png"));
    let (detection, _) = run(&tj, &[(0, &JPEG)]);
    assert_eq!(detection.result, Ok(Format::Jpeg.into()));
    assert_eq!(detection.note, FormatNote::Mismatch);
}

#[test]
fn detect_images_with_vector_layers() {
    let mut tj = tilejson(Some(0), Some(0), None);
    tj.vector_layers = Some(vec![VectorLayer::new("l".to_string(), Vec::new())]);
    let (detection, _) = run(&tj, &[(0, &JPEG)]);
    assert_eq!(detection.result, Ok(Format::Jpeg.into()));
    assert!(detection.layers_without_vectors);
    let (detection, _) = run(&tj, &[(0, &GZIP)]);
    assert!(!detection.layers_without_vectors);
}

#[test]
fn detect_empty_and_full_zoom_ranges() {
    let tj = tilejson(Some(5), Some(4), None);
    let (detection, asked) = run(&tj, &[(7, &GZIP)]);
    assert_eq!(detection.result, Ok(TileInfo::new(Format::Mvt, Encoding::Gzip)));
    assert_eq!(asked, vec![TileQuery::AnyTile]);
    let tj = tilejson(Some(0), Some(255), None);
    let (_, asked) = run(&tj, &[(255, &GZIP)]);
    assert_eq!(asked.len(), 256);
    assert_eq!(asked[255], TileQuery::AtZoom(254));
    let (_, asked) = run(&tj, &[]);
    assert_eq!(asked.len(), 257);
    assert_eq!(asked[256], TileQuery::AtZoom(255));
}

#[test]
fn detect_first_tile_without_content() {
    let tj = tilejson(Some(0), Some(1), None);
    let mut detector = FormatDetector::new(&tj);
    detector.record(Some(TileRow {
        zoom_level: Some(1),
        tile_column: Some(0),
        tile_row: Some(0),
        tile_data: None,
    }));
    assert_eq!(detector.tile_info, None);
    assert_eq!(detector.tested_zoom, 1);
    assert_eq!(detector.next(), DetectStep::Ask(TileQuery::AtZoom(0)));
    detector.record(row(None, &JPEG));
    assert_eq!(detector.tile_info, Some(Format::Jpeg.into()));
    assert_eq!(detector.pending, None);
    let finished = detector;
    detector.record(row(Some(0), &GZIP));
    assert_eq!(detector, finished);
}

#[test]
fn resolve_format_cases() {
    let jpeg: TileInfo = Format::Jpeg.into();
    assert_eq!(resolve_format(None, None), (None, FormatNote::Undeclared));
    assert_eq!(resolve_format(Some(jpeg), None), (Some(jpeg), FormatNote::Undeclared));
    assert_eq!(resolve_format(Some(jpeg), Some(None)), (Some(jpeg), FormatNote::UnknownDeclared));
    assert_eq!(
        resolve_format(Some(jpeg), Some(Some(Format::Jpeg))),
        (Some(jpeg), FormatNote::Confirmed)
    );
    assert_eq!(
        resolve_format(Some(jpeg), Some(Some(Format::Mvt))),
        (Some(jpeg), FormatNote::Mismatch)
    );
    let gz = TileInfo::new(Format::Mvt, Encoding::Gzip);
    assert_eq!(resolve_format(Some(gz), Some(Some(Format::Mvt))), (Some(gz), FormatNote::Confirmed));
}
