//! Finds out what the tiles of an archive hold. The archive is asked for one
//! tile of any zoom level, then for one tile of each zoom level that the
//! metadata allows; the detector says which tile to ask for next, takes the
//! answer, and in the end weighs what was detected against the format that
//! the metadata declares.

use vstd::prelude::*;
use vstd::string::*;
use crate::mbtiles::{spec_parse_tile, MbtError, MbtResult};
use crate::tile_info::{spec_parse_format, Encoding, Format, TileInfo};
use crate::tile_json::{TileJson, TileJsonView};

verus! {

/// Least zoom level that is sampled where the metadata names none.
pub const DEFAULT_MIN_ZOOM: u8 = 0;

/// Largest zoom level that is sampled where the metadata names none.
pub const DEFAULT_MAX_ZOOM: u8 = 18;

/// A tile to ask the archive for.
#[derive(Clone, Copy, Debug, PartialEq, Eq, Hash, Structural)]
pub enum TileQuery {
    /// One tile of any zoom level from 0 up.
    AnyTile,
    /// One tile of this zoom level.
    AtZoom(u8),
}

/// One row of a tile relation, as the archive answers a query. A column
/// that holds no value is `None`.
#[derive(Clone, Debug, PartialEq, Eq)]
pub struct TileRow {
    pub zoom_level: Option<i64>,
    pub tile_column: Option<i64>,
    pub tile_row: Option<i64>,
    pub tile_data: Option<Vec<u8>>,
}

/// A row of a tile relation as a mathematical value.
pub struct TileRowView {
    pub zoom_level: Option<i64>,
    pub tile_column: Option<i64>,
    pub tile_row: Option<i64>,
    pub tile_data: Option<Seq<u8>>,
}

impl View for TileRow {
    type V = TileRowView;

    open spec fn view(&self) -> TileRowView {
        TileRowView {
            zoom_level: self.zoom_level,
            tile_column: self.tile_column,
            tile_row: self.tile_row,
            tile_data: match self.tile_data {
                Some(data) => Some(data@),
                None => None,
            },
        }
    }
}

/// The answer to a query as a mathematical value.
pub open spec fn answer_view(answer: Option<TileRow>) -> Option<TileRowView> {
    match answer {
        Some(row) => Some(row@),
        None => None,
    }
}

/// How the format that the metadata declares bears on the result.
#[derive(Clone, Copy, Debug, PartialEq, Eq, Hash, Structural)]
pub enum FormatNote {
    /// The metadata declares no format.
    Undeclared,
    /// The metadata declares a format that is not known; it is ignored.
    UnknownDeclared,
    /// No tile told its format, so the declared format is used. It is one
    /// that tiles do not show.
    TakenFromMetadata,
    /// No tile told its format, so the declared format is used, although
    /// tiles of that format would have shown it.
    Unverified,
    /// The tiles are of the declared format.
    Confirmed,
    /// The tiles are of another format than the declared one; the detected
    /// format is used.
    Mismatch,
}

/// Outcome of a detection.
#[derive(Debug, PartialEq, Eq)]
pub struct Detection {
    /// What the tiles hold, or why that cannot be told.
    pub result: MbtResult<TileInfo>,
    pub note: FormatNote,
    /// The tiles are images, yet the metadata lists vector layers.
    pub layers_without_vectors: bool,
}

/// What the detector asks for next.
#[derive(Debug, PartialEq, Eq)]
pub enum DetectStep {
    /// An answer to this query.
    Ask(TileQuery),
    /// Nothing: this is the outcome.
    Done(Detection),
}

/// The format that the metadata declares: `None` where it declares none,
/// `Some(None)` where what it declares is not the name of a format.
pub open spec fn spec_declared_format(tilejson: TileJsonView) -> Option<Option<Format>> {
    if tilejson.other.contains_key("format"@) {
        Some(spec_parse_format(tilejson.other["format"@]))
    } else {
        None
    }
}

/// The next zoom level to sample from `from` up: the least level in
/// `from..=max_zoom` other than the level that the first tile had.
pub open spec fn spec_next_zoom(from: int, max_zoom: u8, tested_zoom: i64) -> Option<TileQuery> {
    if from <= max_zoom && from != tested_zoom {
        Some(TileQuery::AtZoom(from as u8))
    } else if from + 1 <= max_zoom && from == tested_zoom {
        Some(TileQuery::AtZoom((from + 1) as u8))
    } else {
        None
    }
}

/// Weighs the detected format against the declared one. A detected format
/// always wins; the declared one stands in where nothing was detected.
pub open spec fn spec_resolve_format(detected: Option<TileInfo>, declared: Option<Option<Format>>) -> (
    Option<TileInfo>,
    FormatNote,
) {
    match declared {
        None => (detected, FormatNote::Undeclared),
        Some(None) => (detected, FormatNote::UnknownDeclared),
        Some(Some(format)) => match detected {
            None => (
                Some(TileInfo { format, encoding: Encoding::Identity }),
                if format.spec_is_detectable() {
                    FormatNote::Unverified
                } else {
                    FormatNote::TakenFromMetadata
                },
            ),
            Some(info) => (
                Some(info),
                if info.format == format {
                    FormatNote::Confirmed
                } else {
                    FormatNote::Mismatch
                },
            ),
        },
    }
}

/// Weighs the detected format against the declared one.
pub fn resolve_format(detected: Option<TileInfo>, declared: Option<Option<Format>>) -> (resolved: (
    Option<TileInfo>,
    FormatNote,
))
    ensures
        resolved == spec_resolve_format(detected, declared),
{
    match declared {
        None => (detected, FormatNote::Undeclared),
        Some(None) => (detected, FormatNote::UnknownDeclared),
        Some(Some(format)) => match detected {
            None => {
                let note = if format.is_detectable() {
                    FormatNote::Unverified
                } else {
                    FormatNote::TakenFromMetadata
                };
                (Some(TileInfo::new(format, Encoding::Identity)), note)
            },
            Some(info) => {
                let note = if info.format == format {
                    FormatNote::Confirmed
                } else {
                    FormatNote::Mismatch
                };
                (Some(info), note)
            },
        },
    }
}

/// Two formats that were both detected in one archive.
#[derive(Clone, Copy, Debug, PartialEq, Eq, Hash, Structural)]
pub struct Conflict {
    /// The format known first.
    pub old: TileInfo,
    /// The format of a later tile.
    pub new: TileInfo,
}

/// State of a detection.
#[derive(Clone, Copy, Debug, PartialEq, Eq, Hash, Structural)]
pub struct FormatDetector {
    /// What the tiles seen so far were detected as.
    pub tile_info: Option<TileInfo>,
    /// Zoom level of the first tile, or -1 where it is not known.
    pub tested_zoom: i64,
    /// The query whose answer is awaited.
    pub pending: Option<TileQuery>,
    /// Least zoom level to sample.
    pub min_zoom: u8,
    /// Largest zoom level to sample.
    pub max_zoom: u8,
    /// Two formats that were both detected.
    pub conflict: Option<Conflict>,
    /// The format that the metadata declares.
    pub declared: Option<Option<Format>>,
    /// Whether the metadata lists vector layers.
    pub has_vector_layers: bool,
}

impl FormatDetector {
    /// The detector for an archive with the given metadata, before any query.
    pub open spec fn spec_new(tilejson: TileJsonView) -> FormatDetector {
        FormatDetector {
            tile_info: None,
            tested_zoom: -1i64,
            pending: Some(TileQuery::AnyTile),
            min_zoom: match tilejson.minzoom {
                Some(z) => z,
                None => DEFAULT_MIN_ZOOM,
            },
            max_zoom: match tilejson.maxzoom {
                Some(z) => z,
                None => DEFAULT_MAX_ZOOM,
            },
            conflict: None,
            declared: spec_declared_format(tilejson),
            has_vector_layers: tilejson.vector_layers is Some,
        }
    }

    /// The detector after the answer to its pending query. The first tile
    /// sets the format and the zoom level that needs no second look. A later
    /// tile sets the format where none is known, and ends the detection
    /// where it shows another format than the one known. An answer without a
    /// tile, or with a tile that tells nothing, changes nothing.
    pub open spec fn spec_record(self, answer: Option<TileRowView>) -> FormatDetector {
        match self.pending {
            None => self,
            Some(TileQuery::AnyTile) => {
                let info = match answer {
                    Some(row) => spec_parse_tile(
                        row.zoom_level,
                        row.tile_column,
                        row.tile_row,
                        row.tile_data,
                    ),
                    None => None,
                };
                let tested: i64 = match answer {
                    Some(row) => match row.zoom_level {
                        Some(z) => z,
                        None => -1i64,
                    },
                    None => -1i64,
                };
                FormatDetector {
                    tile_info: info,
                    tested_zoom: tested,
                    pending: spec_next_zoom(self.min_zoom as int, self.max_zoom, tested),
                    ..self
                }
            },
            Some(TileQuery::AtZoom(z)) => {
                let info = match answer {
                    Some(row) => spec_parse_tile(
                        Some(z as i64),
                        row.tile_column,
                        row.tile_row,
                        row.tile_data,
                    ),
                    None => None,
                };
                let next = spec_next_zoom(z + 1, self.max_zoom, self.tested_zoom);
                match (self.tile_info, info) {
                    (_, None) => FormatDetector { pending: next, ..self },
                    (None, Some(new)) => FormatDetector { tile_info: Some(new), pending: next, ..self },
                    (Some(old), Some(new)) => if old == new {
                        FormatDetector { pending: next, ..self }
                    } else {
                        FormatDetector { conflict: Some(Conflict { old, new }), pending: None, ..self }
                    },
                }
            },
        }
    }

    /// The detector at the end of the detection on an archive that answers
    /// each query as `archive` says.
    pub open spec fn spec_run(self, archive: spec_fn(TileQuery) -> Option<TileRowView>) -> FormatDetector
        decreases self.queries_left(),
    {
        match self.pending {
            None => self,
            Some(query) => self.spec_record(archive(query)).spec_run(archive),
        }
    }

    /// The format that the detection settles on, once no query is pending.
    pub open spec fn spec_resolved(self) -> Option<TileInfo> {
        spec_resolve_format(self.tile_info, self.declared).0
    }

    /// Largest number of queries that the detection may still make.
    pub open spec fn queries_left(self) -> nat {
        match self.pending {
            None => 0,
            Some(TileQuery::AnyTile) => 257,
            Some(TileQuery::AtZoom(z)) => if z <= self.max_zoom {
                (self.max_zoom - z + 1) as nat
            } else {
                1
            },
        }
    }

    /// The detector for an archive with the given metadata.
    pub fn new(tilejson: &TileJson) -> (detector: FormatDetector)
        ensures
            detector == FormatDetector::spec_new(tilejson@),
    {
        let declared: Option<Option<Format>> = match tilejson.other.get("format") {
            Some(name) => Some(Format::parse(name.as_str())),
            None => None,
        };
        FormatDetector {
            tile_info: None,
            tested_zoom: -1,
            pending: Some(TileQuery::AnyTile),
            min_zoom: match tilejson.minzoom {
                Some(z) => z,
                None => DEFAULT_MIN_ZOOM,
            },
            max_zoom: match tilejson.maxzoom {
                Some(z) => z,
                None => DEFAULT_MAX_ZOOM,
            },
            conflict: None,
            declared,
            has_vector_layers: tilejson.vector_layers.is_some(),
        }
    }

    /// The next zoom level to sample from `from` up.
    fn next_zoom(&self, from: u16) -> (next: Option<TileQuery>)
        requires
            from <= 256,
        ensures
            next == spec_next_zoom(from as int, self.max_zoom, self.tested_zoom),
    {
        let max: u16 = self.max_zoom as u16;
        if from <= max && from as i64 != self.tested_zoom {
            Some(TileQuery::AtZoom(from as u8))
        } else if from + 1 <= max && from as i64 == self.tested_zoom {
            Some(TileQuery::AtZoom((from + 1) as u8))
        } else {
            None
        }
    }

    /// Takes the answer to the pending query. Where no query is pending the
    /// answer is ignored.
    pub fn record(&mut self, answer: Option<TileRow>)
        ensures
            *final(self) == old(self).spec_record(answer_view(answer)),
            old(self).pending is Some ==> final(self).queries_left() < old(self).queries_left(),
    {
        match self.pending {
            None => {},
            Some(TileQuery::AnyTile) => {
                let tested: i64 = match &answer {
                    Some(row) => match row.zoom_level {
                        Some(z) => z,
                        None => -1,
                    },
                    None => -1,
                };
                self.tile_info = match answer {
                    Some(row) => detect_row(row.zoom_level, row),
                    None => None,
                };
                self.tested_zoom = tested;
                self.pending = self.next_zoom(self.min_zoom as u16);
            },
            Some(TileQuery::AtZoom(z)) => {
                let info: Option<TileInfo> = match answer {
                    Some(row) => detect_row(Some(z as i64), row),
                    None => None,
                };
                let next = self.next_zoom(z as u16 + 1);
                match (self.tile_info, info) {
                    (_, None) => {
                        self.pending = next;
                    },
                    (None, Some(new)) => {
                        self.tile_info = Some(new);
                        self.pending = next;
                    },
                    (Some(old), Some(new)) => {
                        if old == new {
                            self.pending = next;
                        } else {
                            self.conflict = Some(Conflict { old, new });
                            self.pending = None;
                        }
                    },
                }
            },
        }
    }

    /// The query to answer next, or the outcome where the detection has
    /// ended. It fails where two tiles showed different formats, and where
    /// neither a tile nor the metadata tells a format.
    pub fn next(&self) -> (step: DetectStep)
        ensures
            match self.pending {
                Some(query) => step matches DetectStep::Ask(q) && q == query,
                None => step matches DetectStep::Done(detection) && match self.conflict {
                    Some(conflict) => {
                        &&& detection.result matches Err(MbtError::InconsistentMetadata(a, b))
                        &&& a == conflict.old
                        &&& b == conflict.new
                        &&& detection.note == FormatNote::Undeclared
                        &&& !detection.layers_without_vectors
                    },
                    None => {
                        &&& detection.note == spec_resolve_format(self.tile_info, self.declared).1
                        &&& match self.spec_resolved() {
                            Some(info) => {
                                &&& detection.result matches Ok(i)
                                &&& i == info
                                &&& detection.layers_without_vectors == (info.format != Format::Mvt
                                    && self.has_vector_layers)
                            },
                            None => {
                                &&& detection.result matches Err(MbtError::NoTilesFound)
                                &&& !detection.layers_without_vectors
                            },
                        }
                    },
                },
            },
    {
        if let Some(query) = self.pending {
            return DetectStep::Ask(query);
        }
        if let Some(conflict) = self.conflict {
            return DetectStep::Done(
                Detection {
                    result: Err(MbtError::InconsistentMetadata(conflict.old, conflict.new)),
                    note: FormatNote::Undeclared,
                    layers_without_vectors: false,
                },
            );
        }
        let (resolved, note) = resolve_format(self.tile_info, self.declared);
        match resolved {
            Some(info) => DetectStep::Done(
                Detection {
                    result: Ok(info),
                    note,
                    layers_without_vectors: info.format != Format::Mvt && self.has_vector_layers,
                },
            ),
            None => DetectStep::Done(
                Detection { result: Err(MbtError::NoTilesFound), note, layers_without_vectors: false },
            ),
        }
    }
}

/// What the answer to a query tells of the format of the tiles.
pub open spec fn spec_told(query: TileQuery, answer: Option<TileRowView>) -> Option<TileInfo> {
    match answer {
        None => None,
        Some(row) => spec_parse_tile(
            match query {
                TileQuery::AnyTile => row.zoom_level,
                TileQuery::AtZoom(z) => Some(z as i64),
            },
            row.tile_column,
            row.tile_row,
            row.tile_data,
        ),
    }
}

/// A detection ends, and an archive whose tiles all tell the same format
/// is never found inconsistent: the detection ends with that format, or
/// with none where no tile told any.
pub proof fn lemma_uniform_archive_is_consistent(
    detector: FormatDetector,
    archive: spec_fn(TileQuery) -> Option<TileRowView>,
    info: TileInfo,
)
    requires
        detector.conflict is None,
        detector.tile_info is None || detector.tile_info == Some(info),
        forall|query: TileQuery|
            (#[trigger] spec_told(query, archive(query))) is None || spec_told(query, archive(query))
                == Some(info),
    ensures
        detector.spec_run(archive).pending is None,
        detector.spec_run(archive).conflict is None,
        detector.spec_run(archive).tile_info is None || detector.spec_run(archive).tile_info == Some(
            info,
        ),
        detector.spec_run(archive).declared == detector.declared,
        detector.spec_run(archive).has_vector_layers == detector.has_vector_layers,
    decreases detector.queries_left(),
{
    if let Some(query) = detector.pending {
        let told = spec_told(query, archive(query));
        assert(told is None || told == Some(info));
        lemma_uniform_archive_is_consistent(detector.spec_record(archive(query)), archive, info);
    }
}

/// Some answer of the archive tells the format `info`.
pub open spec fn archive_tells(archive: spec_fn(TileQuery) -> Option<TileRowView>, info: TileInfo) -> bool {
    exists|query: TileQuery| #[trigger] spec_told(query, archive(query)) == Some(info)
}

/// Two formats that a detection holds against each other differ, and each
/// was told by a tile of the archive.
pub proof fn lemma_conflict_is_real(
    detector: FormatDetector,
    archive: spec_fn(TileQuery) -> Option<TileRowView>,
)
    requires
        detector.conflict is None,
        detector.tile_info matches Some(known) ==> archive_tells(archive, known),
    ensures
        detector.spec_run(archive).pending is None,
        detector.spec_run(archive).conflict matches Some(conflict) ==> {
            &&& conflict.old != conflict.new
            &&& archive_tells(archive, conflict.old)
            &&& archive_tells(archive, conflict.new)
        },
    decreases detector.queries_left(),
{
    if let Some(query) = detector.pending {
        let next = detector.spec_record(archive(query));
        let told = spec_told(query, archive(query));
        if next.conflict is None {
            if let Some(known) = next.tile_info {
                if detector.tile_info != Some(known) {
                    assert(told == Some(known));
                }
            }
            lemma_conflict_is_real(next, archive);
        } else {
            assert(next.pending is None);
            assert(next.spec_run(archive) == next);
            assert(told == Some(next.conflict->0.new));
        }
    }
}

/// What a row says about the format of the tiles, read as a row of the
/// given zoom level.
fn detect_row(zoom_level: Option<i64>, row: TileRow) -> (info: Option<TileInfo>)
    ensures
        info == spec_parse_tile(zoom_level, row@.tile_column, row@.tile_row, row@.tile_data),
{
    match (zoom_level, row.tile_column, row.tile_row, row.tile_data) {
        (Some(_), Some(_), Some(_), Some(data)) => TileInfo::detect(data.as_slice()),
        _ => None,
    }
}

} // verus!
