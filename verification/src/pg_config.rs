//! Configuration of one spatial database: how to reach it and which of its
//! tables and functions to publish.

use vstd::prelude::*;
use vstd::string::*;
use crate::config::set_option;
use crate::text::{
    all_distinct, distinct_keys, has_prefix, keys_of_pairs, opt_view, pair_views, starts_with, views,
};
use crate::tile_json::{clone_opt, clone_pairs, empty_tilejson, Bounds, TileJson, TileJsonView};

verus! {

/// What can be wrong with the configuration of a database.
#[derive(Clone, Copy, Debug, PartialEq, Eq, Hash, Structural)]
pub enum PgError {
    /// Nothing says how to reach the database.
    NoConnectionString,
}

/// Number of connections that a pool holds where nothing else is asked for.
pub const DEFAULT_POOL_SIZE: u32 = 20;

/// The schemas to search for sources: all or none of them, or the listed
/// ones.
#[derive(Clone, Debug, PartialEq, Eq)]
pub enum Schemas {
    Bool(bool),
    List(Vec<String>),
}

/// A table with a geometry column, published as a source.
#[derive(Clone, Debug, PartialEq, Eq)]
pub struct TableInfo {
    pub schema: String,
    pub table: String,
    /// Identifier of the spatial reference system of the geometry.
    pub srid: i32,
    pub geometry_column: String,
    pub id_column: Option<String>,
    pub minzoom: Option<u8>,
    pub maxzoom: Option<u8>,
    pub bounds: Option<Bounds>,
    /// Width and height of a tile in its own units.
    pub extent: Option<u32>,
    /// Width of the margin round a tile, in the tile's units.
    pub buffer: Option<u32>,
    /// Whether geometries are cut at the margin.
    pub clip_geom: Option<bool>,
    pub geometry_type: Option<String>,
    /// Name and SQL type of each column that is published as a property.
    pub properties: Vec<(String, String)>,
    /// Keys of the entry that mean nothing.
    pub unrecognized: Vec<String>,
}

/// A table source as a mathematical value.
pub struct TableInfoView {
    pub schema: Seq<char>,
    pub table: Seq<char>,
    pub srid: i32,
    pub geometry_column: Seq<char>,
    pub id_column: Option<Seq<char>>,
    pub minzoom: Option<u8>,
    pub maxzoom: Option<u8>,
    pub bounds: Option<Bounds>,
    pub extent: Option<u32>,
    pub buffer: Option<u32>,
    pub clip_geom: Option<bool>,
    pub geometry_type: Option<Seq<char>>,
    pub properties: Seq<(Seq<char>, Seq<char>)>,
    pub unrecognized: Seq<Seq<char>>,
}

impl View for TableInfo {
    type V = TableInfoView;

    open spec fn view(&self) -> TableInfoView {
        TableInfoView {
            schema: self.schema@,
            table: self.table@,
            srid: self.srid,
            geometry_column: self.geometry_column@,
            id_column: opt_view(self.id_column),
            minzoom: self.minzoom,
            maxzoom: self.maxzoom,
            bounds: self.bounds,
            extent: self.extent,
            buffer: self.buffer,
            clip_geom: self.clip_geom,
            geometry_type: opt_view(self.geometry_type),
            properties: pair_views(self.properties@),
            unrecognized: views(self.unrecognized@),
        }
    }
}

/// Copies a list of strings.
pub fn clone_strings(strings: &Vec<String>) -> (copy: Vec<String>)
    ensures
        views(copy@) == views(strings@),
{
    let mut copy: Vec<String> = Vec::new();
    let mut i: usize = 0;
    while i < strings.len()
        invariant
            i <= strings.len(),
            copy@.len() == i,
            forall|j: int| 0 <= j < i ==> (#[trigger] copy@[j])@ == strings@[j]@,
        decreases strings.len() - i,
    {
        copy.push(strings[i].clone());
        i += 1;
    }
    assert(views(copy@) =~= views(strings@));
    copy
}

impl TableInfo {
    /// No property is named twice, and no key that means nothing is listed
    /// twice.
    pub open spec fn wf(&self) -> bool {
        keys_of_pairs(self.properties@).no_duplicates() && views(self.unrecognized@).no_duplicates()
    }

    /// Tests whether no property is named twice and no key that means
    /// nothing is listed twice.
    pub fn is_wf(&self) -> (wf: bool)
        ensures
            wf == self.wf(),
    {
        distinct_keys(&self.properties) && all_distinct(&self.unrecognized)
    }

    /// A copy of the table source.
    pub fn duplicate(&self) -> (copy: TableInfo)
        ensures
            copy@ == self@,
    {
        TableInfo {
            schema: self.schema.clone(),
            table: self.table.clone(),
            srid: self.srid,
            geometry_column: self.geometry_column.clone(),
            id_column: clone_opt(&self.id_column),
            minzoom: self.minzoom,
            maxzoom: self.maxzoom,
            bounds: self.bounds,
            extent: self.extent,
            buffer: self.buffer,
            clip_geom: self.clip_geom,
            geometry_type: clone_opt(&self.geometry_type),
            properties: clone_pairs(&self.properties),
            unrecognized: clone_strings(&self.unrecognized),
        }
    }
}

/// A function that returns tiles, published as a source.
#[derive(Clone, Debug, PartialEq, Eq)]
pub struct FunctionInfo {
    pub schema: String,
    pub function: String,
    pub minzoom: Option<u8>,
    pub maxzoom: Option<u8>,
    pub bounds: Option<Bounds>,
    /// Keys of the entry that mean nothing.
    pub unrecognized: Vec<String>,
}

impl FunctionInfo {
    /// No key that means nothing is listed twice.
    pub open spec fn wf(&self) -> bool {
        views(self.unrecognized@).no_duplicates()
    }

    /// Tests whether no key that means nothing is listed twice.
    pub fn is_wf(&self) -> (wf: bool)
        ensures
            wf == self.wf(),
    {
        all_distinct(&self.unrecognized)
    }
}

/// No two declared tables have the same identifier, and each is well
/// formed.
pub open spec fn tables_wf(tables: Option<Vec<(String, TableInfo)>>) -> bool {
    match tables {
        None => true,
        Some(list) => keys_of_pairs(list@).no_duplicates() && forall|i: int|
            0 <= i < list@.len() ==> (#[trigger] list@[i]).1.wf(),
    }
}

/// No two declared functions have the same identifier, and each is well
/// formed.
pub open spec fn functions_wf(functions: Option<Vec<(String, FunctionInfo)>>) -> bool {
    match functions {
        None => true,
        Some(list) => keys_of_pairs(list@).no_duplicates() && forall|i: int|
            0 <= i < list@.len() ==> (#[trigger] list@[i]).1.wf(),
    }
}

/// What every source of a database tells of itself.
pub trait PgInfo {
    /// The name of the source in full.
    spec fn spec_format_id(&self) -> Seq<char>;

    /// The zoom levels and the extent that the source declares.
    spec fn spec_envelope(&self) -> (Option<u8>, Option<u8>, Option<Bounds>);

    /// The name of the source in full: schema and name, with dots between.
    fn format_id(&self) -> (id: String)
        ensures
            id@ == self.spec_format_id(),
    ;

    /// The TileJSON document of the source: its full name, and the zoom
    /// levels and the extent that it declares.
    fn to_tilejson(&self) -> (tilejson: TileJson)
        ensures
            tilejson@ == (TileJsonView {
                name: Some(self.spec_format_id()),
                minzoom: self.spec_envelope().0,
                maxzoom: self.spec_envelope().1,
                bounds: self.spec_envelope().2,
                ..empty_tilejson()
            }),
    ;
}

impl PgInfo for TableInfo {
    open spec fn spec_format_id(&self) -> Seq<char> {
        self.schema@ + "."@ + self.table@ + "."@ + self.geometry_column@
    }

    open spec fn spec_envelope(&self) -> (Option<u8>, Option<u8>, Option<Bounds>) {
        (self.minzoom, self.maxzoom, self.bounds)
    }

    fn format_id(&self) -> (id: String) {
        let mut id: String = self.schema.clone();
        id.append(".");
        id.append(self.table.as_str());
        id.append(".");
        id.append(self.geometry_column.as_str());
        id
    }

    fn to_tilejson(&self) -> (tilejson: TileJson) {
        let mut tilejson = TileJson::new();
        tilejson.name = Some(self.format_id());
        tilejson.minzoom = self.minzoom;
        tilejson.maxzoom = self.maxzoom;
        tilejson.bounds = self.bounds;
        tilejson
    }
}

impl PgInfo for FunctionInfo {
    open spec fn spec_format_id(&self) -> Seq<char> {
        self.schema@ + "."@ + self.function@
    }

    open spec fn spec_envelope(&self) -> (Option<u8>, Option<u8>, Option<Bounds>) {
        (self.minzoom, self.maxzoom, self.bounds)
    }

    fn format_id(&self) -> (id: String) {
        let mut id: String = self.schema.clone();
        id.append(".");
        id.append(self.function.as_str());
        id
    }

    fn to_tilejson(&self) -> (tilejson: TileJson) {
        let mut tilejson = TileJson::new();
        tilejson.name = Some(self.format_id());
        tilejson.minzoom = self.minzoom;
        tilejson.maxzoom = self.maxzoom;
        tilejson.bounds = self.bounds;
        tilejson
    }
}

/// Configuration of one database.
#[derive(Clone, Debug, PartialEq, Eq)]
pub struct PgConfig {
    pub connection_string: Option<String>,
    /// File with the certificates to trust.
    pub ca_root_file: Option<String>,
    pub danger_accept_invalid_certs: bool,
    /// Reference system to assume of a geometry that names none.
    pub default_srid: Option<i32>,
    pub pool_size: Option<u32>,
    pub auto_tables: Option<Schemas>,
    pub auto_functions: Option<Schemas>,
    /// The declared table sources, each under its identifier.
    pub tables: Option<Vec<(String, TableInfo)>>,
    /// The declared function sources, each under its identifier.
    pub functions: Option<Vec<(String, FunctionInfo)>>,
    /// Whether the database is searched for sources.
    pub run_autodiscovery: bool,
}

impl Default for PgConfig {
    fn default() -> (config: PgConfig)
        ensures
            config == (PgConfig {
                connection_string: None,
                ca_root_file: None,
                danger_accept_invalid_certs: false,
                default_srid: None,
                pool_size: None,
                auto_tables: None,
                auto_functions: None,
                tables: None,
                functions: None,
                run_autodiscovery: false,
            }),
    {
        PgConfig::new()
    }
}

/// `first` where it is set, else `second`.
pub open spec fn or_else<T>(first: Option<T>, second: Option<T>) -> Option<T> {
    if first is None {
        second
    } else {
        first
    }
}

/// The text names a PostgreSQL database.
pub open spec fn spec_is_postgresql_string(s: Seq<char>) -> bool {
    has_prefix(s, "postgresql://"@) || has_prefix(s, "postgres://"@)
}

/// Tests whether a text names a PostgreSQL database: whether it starts with
/// `postgresql://` or `postgres://`.
pub fn is_postgresql_string(s: &str) -> (is_pg: bool)
    ensures
        is_pg == spec_is_postgresql_string(s@),
{
    starts_with(s, "postgresql://") || starts_with(s, "postgres://")
}

/// `prefix` put before each of `keys`.
pub open spec fn prefixed(prefix: Seq<char>, keys: Seq<Seq<char>>) -> Seq<Seq<char>> {
    keys.map_values(|key: Seq<char>| prefix + key)
}

/// Puts `prefix` before each of `keys` and appends the results to `paths`.
pub fn push_prefixed(paths: &mut Vec<String>, prefix: &str, keys: &Vec<String>)
    ensures
        views(final(paths)@) == views(old(paths)@) + prefixed(prefix@, views(keys@)),
{
    let ghost before = views(paths@);
    let ghost added = prefixed(prefix@, views(keys@));
    let mut i: usize = 0;
    while i < keys.len()
        invariant
            i <= keys.len(),
            added == prefixed(prefix@, views(keys@)),
            views(paths@) == before + added.take(i as int),
        decreases keys.len() - i,
    {
        let mut path: String = prefix.to_owned();
        path.append(keys[i].as_str());
        let ghost so_far = views(paths@);
        paths.push(path);
        assert(views(paths@) =~= so_far.push(prefix@ + keys@[i as int]@));
        assert(added.take(i + 1) =~= added.take(i as int).push(added[i as int]));
        assert(before + added.take(i + 1) =~= (before + added.take(i as int)).push(added[i as int]));
        i += 1;
    }
    assert(added.take(keys.len() as int) =~= added);
}

/// The path of each key that means nothing in the entries of the declared
/// tables: `tables.`, the identifier of the entry, a dot and the key.
pub open spec fn table_paths(tables: Seq<(String, TableInfo)>) -> Seq<Seq<char>>
    decreases tables.len(),
{
    if tables.len() == 0 {
        Seq::empty()
    } else {
        table_paths(tables.drop_last()) + prefixed(
            "tables."@ + tables.last().0@ + "."@,
            views(tables.last().1.unrecognized@),
        )
    }
}

/// The path of each key that means nothing in the entries of the declared
/// functions: `functions.`, the identifier of the entry, a dot and the key.
pub open spec fn function_paths(functions: Seq<(String, FunctionInfo)>) -> Seq<Seq<char>>
    decreases functions.len(),
{
    if functions.len() == 0 {
        Seq::empty()
    } else {
        function_paths(functions.drop_last()) + prefixed(
            "functions."@ + functions.last().0@ + "."@,
            views(functions.last().1.unrecognized@),
        )
    }
}

impl PgConfig {
    /// The configuration that has of each setting what `self` has, and what
    /// `other` has where `self` has nothing. Invalid certificates are
    /// accepted where either says so.
    pub open spec fn spec_merge(self, other: PgConfig) -> PgConfig {
        PgConfig {
            connection_string: or_else(self.connection_string, other.connection_string),
            ca_root_file: or_else(self.ca_root_file, other.ca_root_file),
            danger_accept_invalid_certs: self.danger_accept_invalid_certs
                || other.danger_accept_invalid_certs,
            default_srid: or_else(self.default_srid, other.default_srid),
            pool_size: or_else(self.pool_size, other.pool_size),
            auto_tables: or_else(self.auto_tables, other.auto_tables),
            auto_functions: or_else(self.auto_functions, other.auto_functions),
            tables: or_else(self.tables, other.tables),
            functions: or_else(self.functions, other.functions),
            run_autodiscovery: self.run_autodiscovery,
        }
    }

    /// The configuration with its defaults filled in: a pool of
    /// `DEFAULT_POOL_SIZE` connections where no size is set, and a search
    /// for sources exactly where neither tables nor functions are declared.
    pub open spec fn spec_finalize(self) -> PgConfig {
        PgConfig {
            pool_size: match self.pool_size {
                Some(n) => Some(n),
                None => Some(DEFAULT_POOL_SIZE),
            },
            run_autodiscovery: self.tables is None && self.functions is None,
            ..self
        }
    }

    /// The path of each key that means nothing, first of the tables, then of
    /// the functions.
    pub open spec fn spec_unrecognized_paths(self) -> Seq<Seq<char>> {
        (match self.tables {
            Some(tables) => table_paths(tables@),
            None => Seq::empty(),
        }) + (match self.functions {
            Some(functions) => function_paths(functions@),
            None => Seq::empty(),
        })
    }

    /// The declared sources are maps from identifiers: no identifier is
    /// declared twice, and each source is well formed.
    pub open spec fn wf(&self) -> bool {
        tables_wf(self.tables) && functions_wf(self.functions)
    }

    /// Tests whether no identifier is declared twice and each declared
    /// source is well formed.
    #[verifier::loop_isolation(false)]
    pub fn is_wf(&self) -> (wf: bool)
        ensures
            wf == self.wf(),
    {
        if let Some(tables) = &self.tables {
            if !distinct_keys(tables) {
                return false;
            }
            let mut i: usize = 0;
            while i < tables.len()
                invariant
                    i <= tables.len(),
                    forall|k: int| 0 <= k < i ==> (#[trigger] tables@[k]).1.wf(),
                decreases tables.len() - i,
            {
                if !tables[i].1.is_wf() {
                    assert(!tables@[i as int].1.wf());
                    return false;
                }
                i += 1;
            }
        }
        if let Some(functions) = &self.functions {
            if !distinct_keys(functions) {
                return false;
            }
            let mut i: usize = 0;
            while i < functions.len()
                invariant
                    i <= functions.len(),
                    forall|k: int| 0 <= k < i ==> (#[trigger] functions@[k]).1.wf(),
                decreases functions.len() - i,
            {
                if !functions[i].1.is_wf() {
                    assert(!functions@[i as int].1.wf());
                    return false;
                }
                i += 1;
            }
        }
        true
    }

    /// A configuration with nothing set.
    pub fn new() -> (config: PgConfig)
        ensures
            config == (PgConfig {
                connection_string: None,
                ca_root_file: None,
                danger_accept_invalid_certs: false,
                default_srid: None,
                pool_size: None,
                auto_tables: None,
                auto_functions: None,
                tables: None,
                functions: None,
                run_autodiscovery: false,
            }),
    {
        PgConfig {
            connection_string: None,
            ca_root_file: None,
            danger_accept_invalid_certs: false,
            default_srid: None,
            pool_size: None,
            auto_tables: None,
            auto_functions: None,
            tables: None,
            functions: None,
            run_autodiscovery: false,
        }
    }

    /// Takes from `other` each setting that `self` lacks, and hands the
    /// configuration on for more.
    pub fn merge(&mut self, other: PgConfig) -> (merged: &mut PgConfig)
        ensures
            *merged == old(self).spec_merge(other),
            *final(self) == *final(merged),
            old(self).wf() && other.wf() ==> merged.wf(),
    {
        set_option(&mut self.connection_string, other.connection_string);
        set_option(&mut self.ca_root_file, other.ca_root_file);
        self.danger_accept_invalid_certs = self.danger_accept_invalid_certs
            || other.danger_accept_invalid_certs;
        set_option(&mut self.default_srid, other.default_srid);
        set_option(&mut self.pool_size, other.pool_size);
        set_option(&mut self.auto_tables, other.auto_tables);
        set_option(&mut self.auto_functions, other.auto_functions);
        set_option(&mut self.tables, other.tables);
        set_option(&mut self.functions, other.functions);
        self
    }

    /// Fills in the defaults. A configuration that does not say how to
    /// reach the database is refused.
    pub fn finalize(self) -> (finalized: Result<PgConfig, PgError>)
        ensures
            self.connection_string is Some ==> finalized == Ok::<PgConfig, PgError>(
                self.spec_finalize(),
            ),
            self.connection_string is None ==> finalized == Err::<PgConfig, PgError>(
                PgError::NoConnectionString,
            ),
            self.wf() ==> (finalized matches Ok(config) ==> config.wf()),
    {
        if self.connection_string.is_none() {
            return Err(PgError::NoConnectionString);
        }
        let run_autodiscovery: bool = self.tables.is_none() && self.functions.is_none();
        let pool_size: Option<u32> = match self.pool_size {
            Some(n) => Some(n),
            None => Some(DEFAULT_POOL_SIZE),
        };
        let mut config = self;
        config.run_autodiscovery = run_autodiscovery;
        config.pool_size = pool_size;
        Ok(config)
    }

    /// Whether the database is searched for sources.
    pub fn is_autodetect(&self) -> (autodetect: bool)
        ensures
            autodetect == self.run_autodiscovery,
    {
        self.run_autodiscovery
    }

    /// The path of each key that means nothing in the entries of the
    /// declared tables and functions, each worth a warning.
    pub fn unrecognized_paths(&self) -> (paths: Vec<String>)
        ensures
            views(paths@) == self.spec_unrecognized_paths(),
    {
        let mut paths: Vec<String> = Vec::new();
        assert(views(paths@) =~= Seq::<Seq<char>>::empty());
        if let Some(tables) = &self.tables {
            let mut i: usize = 0;
            while i < tables.len()
                invariant
                    i <= tables.len(),
                    views(paths@) == table_paths(tables@.take(i as int)),
                decreases tables.len() - i,
            {
                let mut prefix: String = "tables.".to_owned();
                prefix.append(tables[i].0.as_str());
                prefix.append(".");
                push_prefixed(&mut paths, prefix.as_str(), &tables[i].1.unrecognized);
                proof {
                    let next = tables@.take(i + 1);
                    assert(next.drop_last() =~= tables@.take(i as int));
                    assert(next.last() == tables@[i as int]);
                }
                i += 1;
            }
            assert(tables@.take(tables.len() as int) =~= tables@);
        }
        let ghost of_tables = views(paths@);
        if let Some(functions) = &self.functions {
            let mut i: usize = 0;
            while i < functions.len()
                invariant
                    i <= functions.len(),
                    views(paths@) == of_tables + function_paths(functions@.take(i as int)),
                decreases functions.len() - i,
            {
                let mut prefix: String = "functions.".to_owned();
                prefix.append(functions[i].0.as_str());
                prefix.append(".");
                let ghost so_far = function_paths(functions@.take(i as int));
                push_prefixed(&mut paths, prefix.as_str(), &functions[i].1.unrecognized);
                proof {
                    let next = functions@.take(i + 1);
                    assert(next.drop_last() =~= functions@.take(i as int));
                    assert(next.last() == functions@[i as int]);
                    assert(views(paths@) =~= of_tables + function_paths(next));
                }
                i += 1;
            }
            assert(functions@.take(functions.len() as int) =~= functions@);
        }
        assert(views(paths@) =~= self.spec_unrecognized_paths());
        paths
    }
}

} // verus!
