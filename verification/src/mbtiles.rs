//! A tile archive: its name, its physical layout and the rules that tell
//! what its tiles hold.

use vstd::prelude::*;
use vstd::string::*;
use crate::text::{contains_str, views};
use crate::tile_info::{spec_detect, TileInfo};

verus! {

/// Physical layout of a tile archive.
#[derive(Clone, Copy, Debug, PartialEq, Eq, Hash, Structural)]
pub enum MbtType {
    /// One relation `tiles` holds position and content of every tile.
    TileTables,
    /// A table `map` gives each position the identifier of a content, and a
    /// table `images` holds each content once.
    DeDuplicated,
}

/// What can be wrong with a tile archive.
#[derive(Clone, Debug, PartialEq, Eq)]
pub enum MbtError {
    /// The archive at this path has neither of the two layouts.
    InvalidDataFormat(String),
    /// Two tiles of the archive were detected as different formats.
    InconsistentMetadata(TileInfo, TileInfo),
    /// Neither a tile nor the metadata says what the tiles hold.
    NoTilesFound,
    /// The file at this path, meant to receive a copy, is not empty.
    NonEmptyTargetFile(String),
}

pub type MbtResult<T> = Result<T, MbtError>;

/// An error as a mathematical value.
pub enum MbtErrorView {
    InvalidDataFormat(Seq<char>),
    InconsistentMetadata(TileInfo, TileInfo),
    NoTilesFound,
    NonEmptyTargetFile(Seq<char>),
}

impl View for MbtError {
    type V = MbtErrorView;

    open spec fn view(&self) -> MbtErrorView {
        match self {
            MbtError::InvalidDataFormat(path) => MbtErrorView::InvalidDataFormat(path@),
            MbtError::InconsistentMetadata(old, new) => MbtErrorView::InconsistentMetadata(*old, *new),
            MbtError::NoTilesFound => MbtErrorView::NoTilesFound,
            MbtError::NonEmptyTargetFile(path) => MbtErrorView::NonEmptyTargetFile(path@),
        }
    }
}

/// A table or view of a database, with the names of its columns.
#[derive(Clone, Debug, PartialEq, Eq)]
pub struct TableSchema {
    pub name: String,
    pub is_view: bool,
    pub columns: Vec<String>,
}

/// A table or view as a mathematical value.
pub struct TableSchemaView {
    pub name: Seq<char>,
    pub is_view: bool,
    pub columns: Seq<Seq<char>>,
}

impl View for TableSchema {
    type V = TableSchemaView;

    open spec fn view(&self) -> TableSchemaView {
        TableSchemaView { name: self.name@, is_view: self.is_view, columns: views(self.columns@) }
    }
}

/// The relations of a schema as mathematical values.
pub open spec fn schema_view(schema: Seq<TableSchema>) -> Seq<TableSchemaView> {
    schema.map_values(|t: TableSchema| t@)
}

/// The characters of each of a sequence of string slices.
pub open spec fn slice_views(names: Seq<&str>) -> Seq<Seq<char>> {
    names.map_values(|s: &str| s@)
}

/// The relation has the given name and each of the given columns. A view
/// counts only where `views_too` says so.
pub open spec fn is_relation(
    relation: TableSchemaView,
    name: Seq<char>,
    views_too: bool,
    columns: Seq<Seq<char>>,
) -> bool {
    &&& relation.name == name
    &&& views_too || !relation.is_view
    &&& forall|i: int| 0 <= i < columns.len() ==> relation.columns.contains(#[trigger] columns[i])
}

/// The schema holds a relation with the given name and columns.
pub open spec fn has_relation(
    schema: Seq<TableSchemaView>,
    name: Seq<char>,
    views_too: bool,
    columns: Seq<Seq<char>>,
) -> bool {
    exists|i: int| 0 <= i < schema.len() && is_relation(#[trigger] schema[i], name, views_too, columns)
}

/// Columns of the relation `tiles`.
pub open spec fn tiles_columns() -> Seq<Seq<char>> {
    seq!["zoom_level"@, "tile_column"@, "tile_row"@, "tile_data"@]
}

/// Columns of the table `map`.
pub open spec fn map_columns() -> Seq<Seq<char>> {
    seq!["zoom_level"@, "tile_column"@, "tile_row"@, "tile_id"@]
}

/// Columns of the table `images`.
pub open spec fn images_columns() -> Seq<Seq<char>> {
    seq!["tile_id"@, "tile_data"@]
}

/// The layout that a schema shows. A schema with the tables `map` and
/// `images` is deduplicated, also where a view `tiles` joins the two; one
/// with a table or view `tiles` holds its tiles directly; any other schema
/// is no tile archive.
pub open spec fn spec_detect_type(schema: Seq<TableSchemaView>) -> Option<MbtType> {
    if has_relation(schema, "map"@, false, map_columns()) && has_relation(
        schema,
        "images"@,
        false,
        images_columns(),
    ) {
        Some(MbtType::DeDuplicated)
    } else if has_relation(schema, "tiles"@, true, tiles_columns()) {
        Some(MbtType::TileTables)
    } else {
        None
    }
}

/// Tests whether a relation has the given name and columns.
fn relation_matches(relation: &TableSchema, name: &str, views_too: bool, columns: &[&str]) -> (found:
    bool)
    ensures
        found == is_relation(relation@, name@, views_too, slice_views(columns@)),
{
    if !relation.name.as_str().eq(name) {
        return false;
    }
    if relation.is_view && !views_too {
        return false;
    }
    let ghost wanted = slice_views(columns@);
    let mut i: usize = 0;
    while i < columns.len()
        invariant
            i <= columns.len(),
            wanted == slice_views(columns@),
            forall|j: int| 0 <= j < i ==> relation@.columns.contains(#[trigger] wanted[j]),
        decreases columns.len() - i,
    {
        if !contains_str(&relation.columns, columns[i]) {
            assert(!relation@.columns.contains(wanted[i as int]));
            return false;
        }
        i += 1;
    }
    true
}

/// Tests whether a schema holds a relation with the given name and columns.
fn schema_has(schema: &Vec<TableSchema>, name: &str, views_too: bool, columns: &[&str]) -> (found:
    bool)
    ensures
        found == has_relation(schema_view(schema@), name@, views_too, slice_views(columns@)),
{
    let ghost all = schema_view(schema@);
    let mut i: usize = 0;
    while i < schema.len()
        invariant
            i <= schema.len(),
            all == schema_view(schema@),
            forall|j: int|
                0 <= j < i ==> !is_relation(#[trigger] all[j], name@, views_too, slice_views(columns@)),
        decreases schema.len() - i,
    {
        if relation_matches(&schema[i], name, views_too, columns) {
            assert(is_relation(all[i as int], name@, views_too, slice_views(columns@)));
            return true;
        }
        i += 1;
    }
    false
}

/// Tells the layout of a tile archive from the relations of its schema.
pub fn detect_type(schema: &Vec<TableSchema>) -> (layout: Option<MbtType>)
    ensures
        layout == spec_detect_type(schema_view(schema@)),
{
    let tiles: [&str; 4] = ["zoom_level", "tile_column", "tile_row", "tile_data"];
    let map: [&str; 4] = ["zoom_level", "tile_column", "tile_row", "tile_id"];
    let images: [&str; 2] = ["tile_id", "tile_data"];
    assert(slice_views(tiles@) =~= tiles_columns());
    assert(slice_views(map@) =~= map_columns());
    assert(slice_views(images@) =~= images_columns());
    if schema_has(schema, "map", false, map.as_slice()) && schema_has(
        schema,
        "images",
        false,
        images.as_slice(),
    ) {
        Some(MbtType::DeDuplicated)
    } else if schema_has(schema, "tiles", true, tiles.as_slice()) {
        Some(MbtType::TileTables)
    } else {
        None
    }
}

/// What one row of a tile relation says about the format of the tiles: what
/// its content is detected as, where the row is complete.
pub open spec fn spec_parse_tile(
    z: Option<i64>,
    x: Option<i64>,
    y: Option<i64>,
    tile: Option<Seq<u8>>,
) -> Option<TileInfo> {
    if z is Some && x is Some && y is Some && tile is Some {
        spec_detect(tile->0)
    } else {
        None
    }
}

/// A tile archive, known by the path of its file.
#[derive(Clone, Debug, PartialEq, Eq)]
pub struct Mbtiles {
    filepath: String,
    filename: String,
}

/// Calls `Path::file_stem` of the standard library: the last component of
/// the path without its extension, where the path has one. What a component
/// is depends on the platform, so nothing is claimed of the result.
#[verifier::external_body]
fn file_stem(path: &str) -> (stem: Option<String>)
{
    std::path::Path::new(path).file_stem().map(|stem| stem.to_string_lossy().into_owned())
}

impl Mbtiles {
    /// Path of the archive's file.
    pub closed spec fn spec_filepath(&self) -> Seq<char> {
        self.filepath@
    }

    /// Name of the archive.
    pub closed spec fn spec_filename(&self) -> Seq<char> {
        self.filename@
    }

    /// The archive at `filepath`, named after the stem of its file name, or
    /// `unknown` where the path has no file name.
    pub fn new(filepath: &str) -> (mbt: Mbtiles)
        ensures
            mbt.spec_filepath() == filepath@,
    {
        Mbtiles::with_stem(filepath, file_stem(filepath))
    }

    /// The archive at `filepath`, named `stem`, or `unknown` where there is
    /// no stem.
    pub fn with_stem(filepath: &str, stem: Option<String>) -> (mbt: Mbtiles)
        ensures
            mbt.spec_filepath() == filepath@,
            mbt.spec_filename() == match stem {
                Some(s) => s@,
                None => "unknown"@,
            },
    {
        let filename: String = match stem {
            Some(s) => s,
            None => "unknown".to_owned(),
        };
        Mbtiles { filepath: filepath.to_owned(), filename }
    }

    pub fn filepath(&self) -> (path: &str)
        ensures
            path@ == self.spec_filepath(),
    {
        self.filepath.as_str()
    }

    pub fn filename(&self) -> (name: &str)
        ensures
            name@ == self.spec_filename(),
    {
        self.filename.as_str()
    }

    /// A copy of the archive's description.
    pub fn duplicate(&self) -> (copy: Mbtiles)
        ensures
            copy.spec_filepath() == self.spec_filepath(),
            copy.spec_filename() == self.spec_filename(),
    {
        Mbtiles { filepath: self.filepath.clone(), filename: self.filename.clone() }
    }

    /// Tells the layout of the archive from the relations of its schema,
    /// and fails where the schema shows neither layout.
    pub fn detect_type(&self, schema: &Vec<TableSchema>) -> (layout: MbtResult<MbtType>)
        ensures
            match spec_detect_type(schema_view(schema@)) {
                Some(t) => layout == Ok::<MbtType, MbtError>(t),
                None => layout matches Err(MbtError::InvalidDataFormat(path)) && path@
                    == self.spec_filepath(),
            },
    {
        match detect_type(schema) {
            Some(t) => Ok(t),
            None => Err(MbtError::InvalidDataFormat(self.filepath.clone())),
        }
    }

    /// What one row of a tile relation says about the format of the tiles.
    /// A row with a missing column says nothing.
    pub fn parse_tile(
        &self,
        z: Option<i64>,
        x: Option<i64>,
        y: Option<i64>,
        tile: Option<Vec<u8>>,
    ) -> (info: Option<TileInfo>)
        ensures
            info == spec_parse_tile(
                z,
                x,
                y,
                match tile {
                    Some(t) => Some(t@),
                    None => None,
                },
            ),
    {
        match (z, x, y, tile) {
            (Some(_), Some(_), Some(_), Some(tile)) => TileInfo::detect(tile.as_slice()),
            _ => None,
        }
    }
}

} // verus!
