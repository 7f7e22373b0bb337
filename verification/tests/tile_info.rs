use martin::tile_info::{Encoding, Format, TileInfo};

fn info(format: Format, encoding: Encoding) -> Option<TileInfo> {
    Some(TileInfo::new(format, encoding))
}

#[test]
fn detect_png() {
    let bytes = [0x89u8, 0x50, 0x4E, 0x47, 0x0D, 0x0A, 0x1A, 0x0A];
    assert_eq!(TileInfo::detect(&bytes), info(Format::Png, Encoding::Identity));
    assert_eq!(TileInfo::detect(&bytes[..4]), info(Format::Png, Encoding::Identity));
}

#[test]
fn detect_jpeg() {
    assert_eq!(
        TileInfo::detect(&[0xFF, 0xD8, 0xFF, 0xE0, 0x00]),
        info(Format::Jpeg, Encoding::Identity)
    );
    assert_eq!(TileInfo::detect(&[0xFF, 0xD8, 0xFF]), info(Format::Jpeg, Encoding::Identity));
}

#[test]
fn detect_gif() {
    assert_eq!(TileInfo::detect(b"GIF89a...."), info(Format::Gif, Encoding::Identity));
    assert_eq!(TileInfo::detect(b"GIF87a"), info(Format::Gif, Encoding::Identity));
}

#[test]
fn detect_webp() {
    assert_eq!(
        TileInfo::detect(b"RIFF\x10\x00\x00\x00WEBPVP8 "),
        info(Format::Webp, Encoding::Identity)
    );
}

#[test]
fn detect_riff_that_is_no_webp() {
    assert_eq!(
        TileInfo::detect(b"RIFF\x10\x00\x00\x00WAVEfmt "),
        info(Format::Mvt, Encoding::Identity)
    );
    assert_eq!(TileInfo::detect(b"RIFF\x10\x00\x00\x00WEB"), info(Format::Mvt, Encoding::Identity));
}

#[test]
fn detect_compressed_vector_tiles() {
    assert_eq!(TileInfo::detect(&[0x1F, 0x8B, 0x08, 0x00]), info(Format::Mvt, Encoding::Gzip));
    assert_eq!(TileInfo::detect(&[0x28, 0xB5, 0x2F, 0xFD, 0x00]), info(Format::Mvt, Encoding::Zstd));
}

#[test]
fn detect_falls_back_to_vector_tile() {
    assert_eq!(TileInfo::detect(&[0x1A, 0x02]), info(Format::Mvt, Encoding::Identity));
    assert_eq!(TileInfo::detect(&[0x89]), info(Format::Mvt, Encoding::Identity));
    assert_eq!(TileInfo::detect(&[0x28, 0xB5, 0x2F]), info(Format::Mvt, Encoding::Identity));
}

#[test]
fn detect_empty_is_none() {
    assert_eq!(TileInfo::detect(&[]), None);
}

#[test]
fn image_signature_wins_whatever_follows() {
    let tails: [&[u8]; 3] = [&[], &[0x1F, 0x8B], &[0x28, 0xB5, 0x2F, 0xFD, 0, 0, 0, 0, 0, 0]];
    for tail in tails {
        let mut png = vec![0x89u8, 0x50, 0x4E, 0x47];
        png.extend_from_slice(tail);
        assert_eq!(TileInfo::detect(&png), info(Format::Png, Encoding::Identity));
        let mut jpeg = vec![0xFFu8, 0xD8, 0xFF];
        jpeg.extend_from_slice(tail);
        assert_eq!(TileInfo::detect(&jpeg), info(Format::Jpeg, Encoding::Identity));
        let mut gif = vec![0x47u8, 0x49, 0x46, 0x38];
        gif.extend_from_slice(tail);
        assert_eq!(TileInfo::detect(&gif), info(Format::Gif, Encoding::Identity));
    }
}

#[test]
fn format_parse_names() {
    assert_eq!(Format::parse("gif"), Some(Format::Gif));
    assert_eq!(Format::parse("jpg"), Some(Format::Jpeg));
    assert_eq!(Format::parse("jpeg"), Some(Format::Jpeg));
    assert_eq!(Format::parse("pbf"), Some(Format::Mvt));
    assert_eq!(Format::parse("mvt"), Some(Format::Mvt));
    assert_eq!(Format::parse("png"), Some(Format::Png));
    assert_eq!(Format::parse("webp"), Some(Format::Webp));
}

#[test]
fn format_parse_ignores_case() {
    assert_eq!(Format::parse("PNG"), Some(Format::Png));
    assert_eq!(Format::parse("JpEg"), Some(Format::Jpeg));
    assert_eq!(Format::parse("WebP"), Some(Format::Webp));
}

#[test]
fn format_parse_rejects_other_names() {
    assert_eq!(Format::parse(""), None);
    assert_eq!(Format::parse("pn"), None);
    assert_eq!(Format::parse("pngs"), None);
    assert_eq!(Format::parse("json"), None);
    assert_eq!(Format::parse("tiff"), None);
    assert_eq!(Format::parse(" png"), None);
    assert_eq!(Format::parse("pñg"), None);
}

#[test]
fn detectable_formats() {
    assert!(Format::Png.is_detectable());
    assert!(Format::Jpeg.is_detectable());
    assert!(Format::Gif.is_detectable());
    assert!(Format::Webp.is_detectable());
    assert!(!Format::Mvt.is_detectable());
}

#[test]
fn tile_info_from_format() {
    assert_eq!(TileInfo::from(Format::Jpeg), TileInfo::new(Format::Jpeg, Encoding::Identity));
    let info: TileInfo = Format::Mvt.into();
    assert_eq!(info, TileInfo::new(Format::Mvt, Encoding::Identity));
}
