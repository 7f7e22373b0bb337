//! Tile formats, transport encodings and detection of both from the first
//! bytes of a tile.

use vstd::prelude::*;
use vstd::string::*;
use crate::text::{ascii_lowercase, lower_char};

verus! {

/// Content format of a tile.
#[derive(Clone, Copy, Debug, PartialEq, Eq, Hash, Structural)]
pub enum Format {
    Gif,
    Jpeg,
    Mvt,
    Png,
    Webp,
}

/// Transport encoding applied to the content of a tile.
#[derive(Clone, Copy, Debug, PartialEq, Eq, Hash, Structural)]
pub enum Encoding {
    Identity,
    Gzip,
    Zstd,
}

/// Format and encoding of a tile.
#[derive(Clone, Copy, Debug, PartialEq, Eq, Hash, Structural)]
pub struct TileInfo {
    pub format: Format,
    pub encoding: Encoding,
}

/// Leading bytes of a PNG image.
pub open spec fn png_magic() -> Seq<u8> {
    seq![0x89u8, 0x50u8, 0x4Eu8, 0x47u8]
}

/// Leading bytes of a JPEG image.
pub open spec fn jpeg_magic() -> Seq<u8> {
    seq![0xFFu8, 0xD8u8, 0xFFu8]
}

/// Leading bytes of a GIF image.
pub open spec fn gif_magic() -> Seq<u8> {
    seq![0x47u8, 0x49u8, 0x46u8, 0x38u8]
}

/// Leading bytes of a RIFF container.
pub open spec fn riff_magic() -> Seq<u8> {
    seq![0x52u8, 0x49u8, 0x46u8, 0x46u8]
}

/// Form type of a RIFF container that holds a WebP image.
pub open spec fn webp_tag() -> Seq<u8> {
    seq![0x57u8, 0x45u8, 0x42u8, 0x50u8]
}

/// Leading bytes of a gzip stream.
pub open spec fn gzip_magic() -> Seq<u8> {
    seq![0x1Fu8, 0x8Bu8]
}

/// Leading bytes of a zstd frame.
pub open spec fn zstd_magic() -> Seq<u8> {
    seq![0x28u8, 0xB5u8, 0x2Fu8, 0xFDu8]
}

/// `pattern` occurs in `bytes` at offset `at`.
pub open spec fn has_bytes_at(bytes: Seq<u8>, at: int, pattern: Seq<u8>) -> bool {
    &&& 0 <= at
    &&& at + pattern.len() <= bytes.len()
    &&& bytes.subrange(at, at + pattern.len()) == pattern
}

/// `bytes` is a WebP image: a RIFF container whose form type is `WEBP`.
pub open spec fn has_webp_magic(bytes: Seq<u8>) -> bool {
    has_bytes_at(bytes, 0, riff_magic()) && has_bytes_at(bytes, 8, webp_tag())
}

/// What the first bytes of a tile say about it. The signatures are tried in
/// this order and the first match wins; any other non-empty tile is taken
/// for an uncompressed vector tile.
pub open spec fn spec_detect(bytes: Seq<u8>) -> Option<TileInfo> {
    if has_bytes_at(bytes, 0, png_magic()) {
        Some(TileInfo { format: Format::Png, encoding: Encoding::Identity })
    } else if has_bytes_at(bytes, 0, jpeg_magic()) {
        Some(TileInfo { format: Format::Jpeg, encoding: Encoding::Identity })
    } else if has_bytes_at(bytes, 0, gif_magic()) {
        Some(TileInfo { format: Format::Gif, encoding: Encoding::Identity })
    } else if has_webp_magic(bytes) {
        Some(TileInfo { format: Format::Webp, encoding: Encoding::Identity })
    } else if has_bytes_at(bytes, 0, gzip_magic()) {
        Some(TileInfo { format: Format::Mvt, encoding: Encoding::Gzip })
    } else if has_bytes_at(bytes, 0, zstd_magic()) {
        Some(TileInfo { format: Format::Mvt, encoding: Encoding::Zstd })
    } else if bytes.len() > 0 {
        Some(TileInfo { format: Format::Mvt, encoding: Encoding::Identity })
    } else {
        None
    }
}

/// Tests whether `pattern` occurs in `bytes` at offset `at`.
fn bytes_at(bytes: &[u8], at: usize, pattern: &[u8]) -> (found: bool)
    requires
        at + pattern@.len() <= usize::MAX,
    ensures
        found == has_bytes_at(bytes@, at as int, pattern@),
{
    let n: usize = bytes.len();
    if n < at + pattern.len() {
        return false;
    }
    let mut i: usize = 0;
    while i < pattern.len()
        invariant
            i <= pattern@.len(),
            at + pattern@.len() <= bytes@.len() == n,
            forall|j: int| 0 <= j < i ==> bytes@[at + j] == pattern@[j],
        decreases pattern@.len() - i,
    {
        if bytes[at + i] != pattern[i] {
            assert(bytes@.subrange(at as int, at + pattern@.len())[i as int] != pattern@[i as int]);
            return false;
        }
        i += 1;
    }
    assert(bytes@.subrange(at as int, at + pattern@.len()) =~= pattern@);
    true
}

/// The format that a name stands for, whatever the case of its letters.
pub open spec fn spec_parse_format(value: Seq<char>) -> Option<Format> {
    let name = ascii_lowercase(value);
    if name == seq!['g', 'i', 'f'] {
        Some(Format::Gif)
    } else if name == seq!['j', 'p', 'g'] || name == seq!['j', 'p', 'e', 'g'] {
        Some(Format::Jpeg)
    } else if name == seq!['p', 'b', 'f'] || name == seq!['m', 'v', 't'] {
        Some(Format::Mvt)
    } else if name == seq!['p', 'n', 'g'] {
        Some(Format::Png)
    } else if name == seq!['w', 'e', 'b', 'p'] {
        Some(Format::Webp)
    } else {
        None
    }
}

impl Format {
    /// Reads a format from its name: `gif`, `jpg` or `jpeg`, `pbf` or `mvt`,
    /// `png`, `webp`, in any case.
    pub fn parse(value: &str) -> (format: Option<Format>)
        ensures
            format == spec_parse_format(value@),
    {
        let n: usize = value.unicode_len();
        if n < 3 || n > 4 {
            assert(ascii_lowercase(value@).len() == n);
            return None;
        }
        let a: char = lower_char(value.get_char(0));
        let b: char = lower_char(value.get_char(1));
        let c: char = lower_char(value.get_char(2));
        let ghost name = ascii_lowercase(value@);
        if n == 3 {
            assert(name =~= seq![a, b, c]);
            if a == 'g' && b == 'i' && c == 'f' {
                Some(Format::Gif)
            } else if a == 'j' && b == 'p' && c == 'g' {
                Some(Format::Jpeg)
            } else if (a == 'p' && b == 'b' && c == 'f') || (a == 'm' && b == 'v' && c == 't') {
                Some(Format::Mvt)
            } else if a == 'p' && b == 'n' && c == 'g' {
                Some(Format::Png)
            } else {
                assert(name[0] == a && name[1] == b && name[2] == c);
                None
            }
        } else {
            let d: char = lower_char(value.get_char(3));
            assert(name =~= seq![a, b, c, d]);
            if a == 'j' && b == 'p' && c == 'e' && d == 'g' {
                Some(Format::Jpeg)
            } else if a == 'w' && b == 'e' && c == 'b' && d == 'p' {
                Some(Format::Webp)
            } else {
                assert(name[0] == a && name[1] == b && name[2] == c && name[3] == d);
                None
            }
        }
    }

    /// A format is detectable when its signature is unambiguous. Vector
    /// tiles are what is assumed of content without a signature, so they are
    /// not.
    pub open spec fn spec_is_detectable(self) -> bool {
        self != Format::Mvt
    }

    /// Whether tiles of this format can be told from their first bytes.
    pub fn is_detectable(self) -> (detectable: bool)
        ensures
            detectable == self.spec_is_detectable(),
    {
        match self {
            Format::Mvt => false,
            _ => true,
        }
    }
}

impl From<Format> for TileInfo {
    /// A tile of the given format without transport encoding.
    fn from(format: Format) -> (info: TileInfo) {
        TileInfo { format, encoding: Encoding::Identity }
    }
}

impl vstd::std_specs::convert::FromSpecImpl<Format> for TileInfo {
    open spec fn obeys_from_spec() -> bool {
        true
    }

    open spec fn from_spec(format: Format) -> TileInfo {
        TileInfo { format, encoding: Encoding::Identity }
    }
}

/// A tile that starts with the signature of an image format is detected as
/// that format, without transport encoding, whatever follows the signature.
pub proof fn lemma_image_signature_detected(bytes: Seq<u8>)
    ensures
        has_bytes_at(bytes, 0, png_magic()) ==> spec_detect(bytes) == Some(
            TileInfo { format: Format::Png, encoding: Encoding::Identity },
        ),
        has_bytes_at(bytes, 0, jpeg_magic()) ==> spec_detect(bytes) == Some(
            TileInfo { format: Format::Jpeg, encoding: Encoding::Identity },
        ),
        has_bytes_at(bytes, 0, gif_magic()) ==> spec_detect(bytes) == Some(
            TileInfo { format: Format::Gif, encoding: Encoding::Identity },
        ),
        has_webp_magic(bytes) ==> spec_detect(bytes) == Some(
            TileInfo { format: Format::Webp, encoding: Encoding::Identity },
        ),
{
    if has_bytes_at(bytes, 0, jpeg_magic()) {
        assert(bytes.subrange(0, 3)[0] == bytes[0]);
        if has_bytes_at(bytes, 0, png_magic()) {
            assert(bytes.subrange(0, 4)[0] == bytes[0]);
        }
    }
    if has_bytes_at(bytes, 0, gif_magic()) {
        assert(bytes.subrange(0, 4)[0] == bytes[0]);
        if has_bytes_at(bytes, 0, jpeg_magic()) {
            assert(bytes.subrange(0, 3)[0] == bytes[0]);
        }
    }
    if has_webp_magic(bytes) {
        assert(bytes.subrange(0, 4)[0] == bytes[0]);
        if has_bytes_at(bytes, 0, jpeg_magic()) {
            assert(bytes.subrange(0, 3)[0] == bytes[0]);
        }
    }
}

impl TileInfo {
    /// A vector tile may be compressed; an image carries no transport encoding.
    pub open spec fn wf(self) -> bool {
        self.format != Format::Mvt ==> self.encoding == Encoding::Identity
    }

    pub fn new(format: Format, encoding: Encoding) -> (info: TileInfo)
        ensures
            info == (TileInfo { format, encoding }),
    {
        TileInfo { format, encoding }
    }

    /// Classifies a tile by its leading bytes. An empty tile has no class.
    pub fn detect(value: &[u8]) -> (info: Option<TileInfo>)
        ensures
            info == spec_detect(value@),
            info is Some <==> value@.len() > 0,
            info matches Some(i) ==> i.wf(),
    {
        let png: [u8; 4] = [0x89, 0x50, 0x4E, 0x47];
        let jpeg: [u8; 3] = [0xFF, 0xD8, 0xFF];
        let gif: [u8; 4] = [0x47, 0x49, 0x46, 0x38];
        let riff: [u8; 4] = [0x52, 0x49, 0x46, 0x46];
        let webp: [u8; 4] = [0x57, 0x45, 0x42, 0x50];
        let gzip: [u8; 2] = [0x1F, 0x8B];
        let zstd: [u8; 4] = [0x28, 0xB5, 0x2F, 0xFD];
        assert(png@ =~= png_magic());
        assert(jpeg@ =~= jpeg_magic());
        assert(gif@ =~= gif_magic());
        assert(riff@ =~= riff_magic());
        assert(webp@ =~= webp_tag());
        assert(gzip@ =~= gzip_magic());
        assert(zstd@ =~= zstd_magic());
        if bytes_at(value, 0, png.as_slice()) {
            Some(TileInfo::new(Format::Png, Encoding::Identity))
        } else if bytes_at(value, 0, jpeg.as_slice()) {
            Some(TileInfo::new(Format::Jpeg, Encoding::Identity))
        } else if bytes_at(value, 0, gif.as_slice()) {
            Some(TileInfo::new(Format::Gif, Encoding::Identity))
        } else if bytes_at(value, 0, riff.as_slice()) && bytes_at(value, 8, webp.as_slice()) {
            Some(TileInfo::new(Format::Webp, Encoding::Identity))
        } else if bytes_at(value, 0, gzip.as_slice()) {
            Some(TileInfo::new(Format::Mvt, Encoding::Gzip))
        } else if bytes_at(value, 0, zstd.as_slice()) {
            Some(TileInfo::new(Format::Mvt, Encoding::Zstd))
        } else if value.len() > 0 {
            Some(TileInfo::new(Format::Mvt, Encoding::Identity))
        } else {
            None
        }
    }
}

} // verus!
