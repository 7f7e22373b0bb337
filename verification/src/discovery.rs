//! Sources found in a spatial database: which geometry columns become table
//! sources, and under which identifiers tables and functions are published.

use vstd::prelude::*;
use vstd::string::*;
use crate::id_resolver::{lemma_resolve_injective, spec_resolve_each, IdResolver};
use crate::pg_config::{FunctionInfo, TableInfo};

verus! {

/// Width and height of a tile, in its own units, where nothing else is set.
pub const DEFAULT_EXTENT: u32 = 4096;

/// Width of the margin round a tile where nothing else is set.
pub const DEFAULT_BUFFER: u32 = 64;

/// Whether geometries are cut at the margin where nothing else is set.
pub const DEFAULT_CLIP_GEOM: bool = true;

/// A geometry column as the catalog of the database lists it.
#[derive(Clone, Debug, PartialEq, Eq)]
pub struct GeometryColumn {
    pub schema: String,
    pub table: String,
    pub geometry_column: String,
    /// Identifier of the reference system, 0 where the catalog knows none.
    pub srid: i32,
    pub geometry_type: Option<String>,
    /// Name and SQL type of each other column of the table.
    pub properties: Vec<(String, String)>,
}

/// The reference system of a geometry column: the one that the catalog
/// lists, or the default where the catalog knows none.
pub open spec fn spec_resolve_srid(srid: i32, default_srid: Option<i32>) -> Option<i32> {
    if srid != 0 {
        Some(srid)
    } else {
        default_srid
    }
}

/// Tells the reference system of a geometry column. `None` means that the
/// column cannot be published.
pub fn resolve_srid(srid: i32, default_srid: Option<i32>) -> (resolved: Option<i32>)
    ensures
        resolved == spec_resolve_srid(srid, default_srid),
{
    if srid != 0 {
        Some(srid)
    } else {
        default_srid
    }
}

/// A table source was made of the geometry column, with the reference
/// system `srid` and the defaults for everything that the catalog does not
/// tell.
pub open spec fn made_of(info: TableInfo, column: GeometryColumn, srid: i32) -> bool {
    &&& info.schema == column.schema
    &&& info.table == column.table
    &&& info.srid == srid
    &&& info.geometry_column == column.geometry_column
    &&& info.id_column is None
    &&& info.minzoom is None
    &&& info.maxzoom is None
    &&& info.bounds is None
    &&& info.extent == Some(DEFAULT_EXTENT)
    &&& info.buffer == Some(DEFAULT_BUFFER)
    &&& info.clip_geom == Some(DEFAULT_CLIP_GEOM)
    &&& info.geometry_type == column.geometry_type
    &&& info.properties == column.properties
    &&& info.unrecognized@.len() == 0
}

/// The table source that a geometry column makes, or `None` where neither
/// the catalog nor the configuration tells its reference system.
pub fn table_info(column: GeometryColumn, default_srid: Option<i32>) -> (info: Option<TableInfo>)
    ensures
        info is Some == spec_resolve_srid(column.srid, default_srid) is Some,
        info matches Some(i) ==> made_of(i, column, spec_resolve_srid(column.srid, default_srid)->0),
{
    match resolve_srid(column.srid, default_srid) {
        Some(srid) => Some(
            TableInfo {
                schema: column.schema,
                table: column.table,
                srid,
                geometry_column: column.geometry_column,
                id_column: None,
                minzoom: None,
                maxzoom: None,
                bounds: None,
                extent: Some(DEFAULT_EXTENT),
                buffer: Some(DEFAULT_BUFFER),
                clip_geom: Some(DEFAULT_CLIP_GEOM),
                geometry_type: column.geometry_type,
                properties: column.properties,
                unrecognized: Vec::new(),
            },
        ),
        None => None,
    }
}

/// The geometry columns that can be published: those whose reference
/// system is known, in their order.
pub open spec fn publishable(columns: Seq<GeometryColumn>, default_srid: Option<i32>) -> Seq<
    GeometryColumn,
> {
    columns.filter(|c: GeometryColumn| spec_resolve_srid(c.srid, default_srid) is Some)
}

/// The geometry columns that cannot be published, in their order.
pub open spec fn unpublishable(columns: Seq<GeometryColumn>, default_srid: Option<i32>) -> Seq<
    GeometryColumn,
> {
    columns.filter(|c: GeometryColumn| spec_resolve_srid(c.srid, default_srid) is None)
}

/// Makes a table source of each geometry column whose reference system is
/// known. The other columns are handed back, each worth a warning.
pub fn discover_tables(columns: Vec<GeometryColumn>, default_srid: Option<i32>) -> (found: (
    Vec<TableInfo>,
    Vec<GeometryColumn>,
))
    ensures
        found.0@.len() == publishable(columns@, default_srid).len(),
        forall|i: int|
            0 <= i < found.0@.len() ==> made_of(
                #[trigger] found.0@[i],
                publishable(columns@, default_srid)[i],
                spec_resolve_srid(publishable(columns@, default_srid)[i].srid, default_srid)->0,
            ),
        found.1@ == unpublishable(columns@, default_srid),
{
    let mut tables: Vec<TableInfo> = Vec::new();
    let mut dropped: Vec<GeometryColumn> = Vec::new();
    let ghost all = columns@;
    let ghost known = |c: GeometryColumn| spec_resolve_srid(c.srid, default_srid) is Some;
    let ghost unknown = |c: GeometryColumn| spec_resolve_srid(c.srid, default_srid) is None;
    let mut rest = columns;
    let total: usize = rest.len();
    let mut n: usize = 0;
    proof {
        reveal(Seq::filter);
        assert(all.take(0) =~= Seq::<GeometryColumn>::empty());
    }
    while rest.len() > 0
        invariant
            n + rest@.len() == all.len() == total,
            rest@ == all.skip(n as int),
            tables@.len() == all.take(n as int).filter(known).len(),
            forall|i: int|
                0 <= i < tables@.len() ==> made_of(
                    #[trigger] tables@[i],
                    all.take(n as int).filter(known)[i],
                    spec_resolve_srid(all.take(n as int).filter(known)[i].srid, default_srid)->0,
                ),
            dropped@ == all.take(n as int).filter(unknown),
            known == |c: GeometryColumn| spec_resolve_srid(c.srid, default_srid) is Some,
            unknown == |c: GeometryColumn| spec_resolve_srid(c.srid, default_srid) is None,
        decreases rest@.len(),
    {
        let column = rest.remove(0);
        proof {
            reveal(Seq::filter);
            assert(column == all[n as int]);
            assert(rest@ =~= all.skip(n + 1));
            let next = all.take(n + 1);
            assert(next.drop_last() =~= all.take(n as int));
            assert(next.last() == column);
        }
        if resolve_srid(column.srid, default_srid).is_some() {
            match table_info(column, default_srid) {
                Some(info) => {
                    tables.push(info);
                },
                None => {},
            }
        } else {
            dropped.push(column);
        }
        n += 1;
    }
    assert(all.take(all.len() as int) =~= all);
    (tables, dropped)
}

/// The identifier that a table source asks for: the name of its table, and
/// where the table has several geometry columns, a dot and the name of the
/// column after it.
pub open spec fn spec_table_id(info: TableInfo, several: bool) -> Seq<char> {
    if several {
        info.table@ + "."@ + info.geometry_column@
    } else {
        info.table@
    }
}

/// Another table source than the one at position `i` reads the same table.
pub open spec fn shares_table(tables: Seq<TableInfo>, i: int) -> bool {
    exists|j: int|
        0 <= j < tables.len() && j != i && (#[trigger] tables[j]).schema@ == tables[i].schema@
            && tables[j].table@ == tables[i].table@
}

/// The identifiers that the table sources ask for, in their order.
pub open spec fn spec_table_ids(tables: Seq<TableInfo>) -> Seq<Seq<char>> {
    Seq::new(tables.len(), |i: int| spec_table_id(tables[i], shares_table(tables, i)))
}

/// The identifiers that the function sources ask for, in their order: the
/// names of the functions.
pub open spec fn spec_function_ids(functions: Seq<FunctionInfo>) -> Seq<Seq<char>> {
    Seq::new(functions.len(), |i: int| functions[i].function@)
}

/// Tests whether another table source than the one at position `i` reads
/// the same table.
fn has_sibling(tables: &Vec<TableInfo>, i: usize) -> (several: bool)
    requires
        i < tables.len(),
    ensures
        several == shares_table(tables@, i as int),
{
    let mut j: usize = 0;
    while j < tables.len()
        invariant
            j <= tables.len(),
            i < tables.len(),
            forall|k: int|
                0 <= k < j && k != i ==> !((#[trigger] tables@[k]).schema@ == tables@[i as int].schema@
                    && tables@[k].table@ == tables@[i as int].table@),
        decreases tables.len() - j,
    {
        if j != i && tables[j].schema.as_str().eq(tables[i].schema.as_str()) && tables[j].table.as_str().eq(
            tables[i].table.as_str(),
        ) {
            return true;
        }
        j += 1;
    }
    false
}

/// The identifier that the table source at position `i` asks for.
fn table_id(tables: &Vec<TableInfo>, i: usize) -> (id: String)
    requires
        i < tables.len(),
    ensures
        id@ == spec_table_ids(tables@)[i as int],
{
    let mut id: String = tables[i].table.clone();
    if has_sibling(tables, i) {
        id.append(".");
        id.append(tables[i].geometry_column.as_str());
    }
    id
}

/// Claims an identifier for each table source, in order, and gives each
/// source with its identifier.
pub fn register_tables(resolver: &mut IdResolver, tables: Vec<TableInfo>) -> (registered: Vec<
    (String, TableInfo),
>)
    ensures
        registered@.len() == tables@.len(),
        forall|i: int| 0 <= i < tables@.len() ==> (#[trigger] registered@[i]).1 == tables@[i],
        Seq::new(registered@.len(), |i: int| registered@[i].0@) == spec_resolve_each(
            old(resolver).reserved_ids(),
            old(resolver).claimed_ids(),
            spec_table_ids(tables@),
        ),
        Seq::new(registered@.len(), |i: int| registered@[i].0@).no_duplicates(),
        final(resolver).reserved_ids() == old(resolver).reserved_ids(),
        final(resolver).claimed_ids() == old(resolver).claimed_ids() + spec_resolve_each(
            old(resolver).reserved_ids(),
            old(resolver).claimed_ids(),
            spec_table_ids(tables@),
        ),
{
    let mut desired: Vec<String> = Vec::new();
    let mut i: usize = 0;
    while i < tables.len()
        invariant
            i <= tables.len(),
            desired@.len() == i,
            forall|k: int| 0 <= k < i ==> (#[trigger] desired@[k])@ == spec_table_ids(tables@)[k],
        decreases tables.len() - i,
    {
        desired.push(table_id(&tables, i));
        i += 1;
    }
    assert(Seq::new(desired@.len(), |i: int| desired@[i]@) =~= spec_table_ids(tables@));
    register(resolver, desired, tables)
}

/// Claims an identifier for each function source, in order, and gives each
/// source with its identifier.
pub fn register_functions(resolver: &mut IdResolver, functions: Vec<FunctionInfo>) -> (registered: Vec<
    (String, FunctionInfo),
>)
    ensures
        registered@.len() == functions@.len(),
        forall|i: int| 0 <= i < functions@.len() ==> (#[trigger] registered@[i]).1 == functions@[i],
        Seq::new(registered@.len(), |i: int| registered@[i].0@) == spec_resolve_each(
            old(resolver).reserved_ids(),
            old(resolver).claimed_ids(),
            spec_function_ids(functions@),
        ),
        Seq::new(registered@.len(), |i: int| registered@[i].0@).no_duplicates(),
        final(resolver).reserved_ids() == old(resolver).reserved_ids(),
        final(resolver).claimed_ids() == old(resolver).claimed_ids() + spec_resolve_each(
            old(resolver).reserved_ids(),
            old(resolver).claimed_ids(),
            spec_function_ids(functions@),
        ),
{
    let mut desired: Vec<String> = Vec::new();
    let mut i: usize = 0;
    while i < functions.len()
        invariant
            i <= functions.len(),
            desired@.len() == i,
            forall|k: int| 0 <= k < i ==> (#[trigger] desired@[k])@ == functions@[k].function@,
        decreases functions.len() - i,
    {
        desired.push(functions[i].function.clone());
        i += 1;
    }
    assert(Seq::new(desired@.len(), |i: int| desired@[i]@) =~= spec_function_ids(functions@));
    register(resolver, desired, functions)
}

/// The identifiers under which sources are declared, in their order.
pub open spec fn spec_declared_ids<T>(declared: Seq<(String, T)>) -> Seq<Seq<char>> {
    Seq::new(declared.len(), |i: int| declared[i].0@)
}

/// Claims an identifier for each declared source, in order, and gives each
/// source with its identifier. Each source asks for the identifier under
/// which it is declared.
pub fn register_declared<T>(resolver: &mut IdResolver, declared: Vec<(String, T)>) -> (registered: Vec<
    (String, T),
>)
    ensures
        registered@.len() == declared@.len(),
        forall|i: int| 0 <= i < declared@.len() ==> (#[trigger] registered@[i]).1 == declared@[i].1,
        Seq::new(registered@.len(), |i: int| registered@[i].0@) == spec_resolve_each(
            old(resolver).reserved_ids(),
            old(resolver).claimed_ids(),
            spec_declared_ids(declared@),
        ),
        Seq::new(registered@.len(), |i: int| registered@[i].0@).no_duplicates(),
        final(resolver).reserved_ids() == old(resolver).reserved_ids(),
        final(resolver).claimed_ids() == old(resolver).claimed_ids() + spec_resolve_each(
            old(resolver).reserved_ids(),
            old(resolver).claimed_ids(),
            spec_declared_ids(declared@),
        ),
{
    let mut desired: Vec<String> = Vec::new();
    let mut sources: Vec<T> = Vec::new();
    let ghost all = declared@;
    let mut rest = declared;
    let total: usize = rest.len();
    let mut n: usize = 0;
    while rest.len() > 0
        invariant
            n + rest@.len() == all.len() == total,
            rest@ == all.skip(n as int),
            desired@.len() == n,
            sources@.len() == n,
            forall|k: int| 0 <= k < n ==> (#[trigger] desired@[k])@ == all[k].0@,
            forall|k: int| 0 <= k < n ==> (#[trigger] sources@[k]) == all[k].1,
        decreases rest@.len(),
    {
        let entry = rest.remove(0);
        assert(entry == all[n as int]);
        assert(rest@ =~= all.skip(n + 1));
        desired.push(entry.0);
        sources.push(entry.1);
        n += 1;
    }
    assert(Seq::new(desired@.len(), |i: int| desired@[i]@) =~= spec_declared_ids(all));
    register(resolver, desired, sources)
}

/// The database has the function of the entry, and the function takes the
/// query of the request besides the position of the tile.
pub open spec fn spec_takes_query(info: FunctionInfo, found: Seq<(FunctionInfo, bool)>) -> bool {
    exists|j: int|
        0 <= j < found.len() && (#[trigger] found[j]).1 && found[j].0.schema@ == info.schema@
            && found[j].0.function@ == info.function@
}

/// Tests whether the function of the entry takes the query of the request.
/// `found` lists the functions of the database, each with whether it does.
pub fn takes_query(info: &FunctionInfo, found: &Vec<(FunctionInfo, bool)>) -> (with_query: bool)
    ensures
        with_query == spec_takes_query(*info, found@),
{
    let mut j: usize = 0;
    while j < found.len()
        invariant
            j <= found.len(),
            forall|k: int|
                0 <= k < j ==> !((#[trigger] found@[k]).1 && found@[k].0.schema@ == info.schema@
                    && found@[k].0.function@ == info.function@),
        decreases found.len() - j,
    {
        if found[j].1 && found[j].0.schema.as_str().eq(info.schema.as_str())
            && found[j].0.function.as_str().eq(info.function.as_str()) {
            return true;
        }
        j += 1;
    }
    false
}

/// Claims an identifier for each source, in order: the source at position
/// `i` asks for `desired[i]`.
fn register<T>(resolver: &mut IdResolver, desired: Vec<String>, sources: Vec<T>) -> (registered: Vec<
    (String, T),
>)
    requires
        desired@.len() == sources@.len(),
    ensures
        registered@.len() == sources@.len(),
        forall|i: int| 0 <= i < sources@.len() ==> (#[trigger] registered@[i]).1 == sources@[i],
        Seq::new(registered@.len(), |i: int| registered@[i].0@) == spec_resolve_each(
            old(resolver).reserved_ids(),
            old(resolver).claimed_ids(),
            Seq::new(desired@.len(), |i: int| desired@[i]@),
        ),
        Seq::new(registered@.len(), |i: int| registered@[i].0@).no_duplicates(),
        final(resolver).reserved_ids() == old(resolver).reserved_ids(),
        final(resolver).claimed_ids() == old(resolver).claimed_ids() + spec_resolve_each(
            old(resolver).reserved_ids(),
            old(resolver).claimed_ids(),
            Seq::new(desired@.len(), |i: int| desired@[i]@),
        ),
{
    let ghost reserved = resolver.reserved_ids();
    let ghost claimed = resolver.claimed_ids();
    let ghost asked = Seq::new(desired@.len(), |i: int| desired@[i]@);
    let ghost all = sources@;
    let mut registered: Vec<(String, T)> = Vec::new();
    let mut rest = sources;
    let total: usize = rest.len();
    let mut n: usize = 0;
    assert(asked.skip(0) =~= asked);
    while rest.len() > 0
        invariant
            n + rest@.len() == all.len() == total,
            all.len() == asked.len(),
            rest@ == all.skip(n as int),
            asked == Seq::new(desired@.len(), |i: int| desired@[i]@),
            registered@.len() == n,
            forall|i: int| 0 <= i < n ==> (#[trigger] registered@[i]).1 == all[i],
            resolver.reserved_ids() == reserved,
            resolver.claimed_ids() == claimed + Seq::new(n as nat, |i: int| registered@[i].0@),
            Seq::new(n as nat, |i: int| registered@[i].0@) + spec_resolve_each(
                reserved,
                resolver.claimed_ids(),
                asked.skip(n as int),
            ) == spec_resolve_each(reserved, claimed, asked),
        decreases rest@.len(),
    {
        let ghost ids = Seq::new(n as nat, |i: int| registered@[i].0@);
        let ghost before = resolver.claimed_ids();
        let source = rest.remove(0);
        let id = resolver.resolve(desired[n].as_str());
        proof {
            let left = asked.skip(n as int);
            assert(left[0] == desired@[n as int]@);
            assert(left.drop_first() =~= asked.skip(n + 1));
            assert(rest@ =~= all.skip(n + 1));
            assert(spec_resolve_each(reserved, before, left) == seq![id@] + spec_resolve_each(
                reserved,
                before.push(id@),
                left.drop_first(),
            ));
        }
        registered.push((id, source));
        n += 1;
        proof {
            let now = Seq::new(n as nat, |i: int| registered@[i].0@);
            assert(now =~= ids.push(registered@[n - 1].0@));
            assert(resolver.claimed_ids() =~= claimed + now);
            assert(now + spec_resolve_each(reserved, resolver.claimed_ids(), asked.skip(n as int))
                =~= ids + (seq![registered@[n - 1].0@] + spec_resolve_each(
                reserved,
                resolver.claimed_ids(),
                asked.skip(n as int),
            )));
        }
    }
    proof {
        let ids = Seq::new(n as nat, |i: int| registered@[i].0@);
        assert(asked.skip(n as int) =~= Seq::<Seq<char>>::empty());
        assert(ids + Seq::<Seq<char>>::empty() =~= ids);
        assert(Seq::new(registered@.len(), |i: int| registered@[i].0@) =~= ids);
        lemma_resolve_injective(reserved, claimed, asked);
    }
    registered
}

/// Why a declared source cannot be published. Each names the entry by its
/// identifier.
#[derive(Clone, Debug, PartialEq, Eq)]
pub enum DeclarationError {
    /// The database has no such table with a geometry column.
    UnknownTable(String),
    /// The table has no such geometry column.
    UnknownGeometryColumn(String),
    /// The table has no column for a property of the entry.
    UnknownProperty(String),
    /// The geometry column has another reference system than the entry says.
    WrongSrid(String),
    /// The database has no such function.
    UnknownFunction(String),
}

/// Kinds of `DeclarationError`, without the entry.
#[derive(Clone, Copy, Debug, PartialEq, Eq, Hash, Structural)]
pub enum Defect {
    UnknownTable,
    UnknownGeometryColumn,
    UnknownProperty,
    WrongSrid,
    UnknownFunction,
}

impl DeclarationError {
    /// What is wrong.
    pub open spec fn defect(self) -> Defect {
        match self {
            DeclarationError::UnknownTable(_) => Defect::UnknownTable,
            DeclarationError::UnknownGeometryColumn(_) => Defect::UnknownGeometryColumn,
            DeclarationError::UnknownProperty(_) => Defect::UnknownProperty,
            DeclarationError::WrongSrid(_) => Defect::WrongSrid,
            DeclarationError::UnknownFunction(_) => Defect::UnknownFunction,
        }
    }

    /// Identifier of the entry that is wrong.
    pub open spec fn entry(self) -> Seq<char> {
        match self {
            DeclarationError::UnknownTable(id) => id@,
            DeclarationError::UnknownGeometryColumn(id) => id@,
            DeclarationError::UnknownProperty(id) => id@,
            DeclarationError::WrongSrid(id) => id@,
            DeclarationError::UnknownFunction(id) => id@,
        }
    }
}

/// The catalog lists a geometry column of the table of the entry.
pub open spec fn table_known(info: TableInfo, catalog: Seq<GeometryColumn>) -> bool {
    exists|i: int|
        0 <= i < catalog.len() && (#[trigger] catalog[i]).schema@ == info.schema@ && catalog[i].table@
            == info.table@
}

/// The geometry column at position `i` of the catalog is that of the entry.
pub open spec fn is_column_of(info: TableInfo, catalog: Seq<GeometryColumn>, i: int) -> bool {
    &&& 0 <= i < catalog.len()
    &&& catalog[i].schema@ == info.schema@
    &&& catalog[i].table@ == info.table@
    &&& catalog[i].geometry_column@ == info.geometry_column@
}

/// Position of the geometry column of the entry in the catalog: the first
/// that fits, or the length of the catalog where none does.
pub open spec fn column_position(info: TableInfo, catalog: Seq<GeometryColumn>) -> int
    decreases catalog.len(),
{
    if catalog.len() == 0 {
        0
    } else if is_column_of(info, catalog, 0) {
        0
    } else {
        1 + column_position(info, catalog.drop_first())
    }
}

/// The table has a column with the name `name`, besides its geometry.
pub open spec fn has_column(column: GeometryColumn, name: Seq<char>) -> bool {
    exists|j: int| 0 <= j < column.properties@.len() && (#[trigger] column.properties@[j]).0@ == name
}

/// Every property of the entry is a column of the table.
pub open spec fn properties_known(info: TableInfo, column: GeometryColumn) -> bool {
    forall|k: int|
        0 <= k < info.properties@.len() ==> has_column(column, (#[trigger] info.properties@[k]).0@)
}

/// What is wrong with a declared table, if anything. The table must be in
/// the catalog, with the geometry column and the properties of the entry;
/// and where the catalog knows the reference system of the column, the
/// entry must name the same.
pub open spec fn spec_table_defect(info: TableInfo, catalog: Seq<GeometryColumn>) -> Option<Defect> {
    let at = column_position(info, catalog);
    if !table_known(info, catalog) {
        Some(Defect::UnknownTable)
    } else if at >= catalog.len() {
        Some(Defect::UnknownGeometryColumn)
    } else if !properties_known(info, catalog[at]) {
        Some(Defect::UnknownProperty)
    } else if catalog[at].srid != 0 && catalog[at].srid != info.srid {
        Some(Defect::WrongSrid)
    } else {
        None
    }
}

/// `column_position` finds the first geometry column that fits the entry.
pub proof fn lemma_column_position(info: TableInfo, catalog: Seq<GeometryColumn>)
    ensures
        0 <= column_position(info, catalog) <= catalog.len(),
        column_position(info, catalog) < catalog.len() ==> is_column_of(
            info,
            catalog,
            column_position(info, catalog),
        ),
        forall|i: int| 0 <= i < column_position(info, catalog) ==> !is_column_of(info, catalog, i),
    decreases catalog.len(),
{
    if catalog.len() > 0 && !is_column_of(info, catalog, 0) {
        let rest = catalog.drop_first();
        lemma_column_position(info, rest);
        assert forall|i: int| 0 <= i < column_position(info, catalog) implies !is_column_of(
            info,
            catalog,
            i,
        ) by {
            if i > 0 {
                assert(catalog[i] == rest[i - 1]);
                assert(!is_column_of(info, rest, i - 1));
            }
        }
        let at = column_position(info, rest);
        if at < rest.len() {
            assert(catalog[at + 1] == rest[at]);
        }
    }
}

/// Tests whether a table has a column with the name `name`.
fn has_property(column: &GeometryColumn, name: &str) -> (found: bool)
    ensures
        found == has_column(*column, name@),
{
    let mut j: usize = 0;
    while j < column.properties.len()
        invariant
            j <= column.properties.len(),
            forall|k: int| 0 <= k < j ==> (#[trigger] column.properties@[k]).0@ != name@,
        decreases column.properties.len() - j,
    {
        if column.properties[j].0.as_str().eq(name) {
            return true;
        }
        j += 1;
    }
    false
}

/// Tests whether every property of the entry is a column of the table.
fn has_properties(info: &TableInfo, column: &GeometryColumn) -> (known: bool)
    ensures
        known == properties_known(*info, *column),
{
    let mut k: usize = 0;
    while k < info.properties.len()
        invariant
            k <= info.properties.len(),
            forall|n: int| 0 <= n < k ==> has_column(*column, (#[trigger] info.properties@[n]).0@),
        decreases info.properties.len() - k,
    {
        if !has_property(column, info.properties[k].0.as_str()) {
            assert(!has_column(*column, info.properties@[k as int].0@));
            return false;
        }
        k += 1;
    }
    true
}

/// Tells what is wrong with a declared table, if anything.
pub fn table_defect(info: &TableInfo, catalog: &Vec<GeometryColumn>) -> (defect: Option<Defect>)
    ensures
        defect == spec_table_defect(*info, catalog@),
{
    let mut known: bool = false;
    let mut found: Option<usize> = None;
    let mut i: usize = 0;
    while i < catalog.len() && found.is_none()
        invariant
            i <= catalog.len(),
            known == exists|j: int|
                0 <= j < i && (#[trigger] catalog@[j]).schema@ == info.schema@ && catalog@[j].table@
                    == info.table@,
            found matches Some(at) ==> at < i && is_column_of(*info, catalog@, at as int),
            forall|j: int|
                0 <= j < (match found {
                    Some(at) => at as int,
                    None => i as int,
                }) ==> !is_column_of(*info, catalog@, j),
        decreases catalog.len() - i,
    {
        if catalog[i].schema.as_str().eq(info.schema.as_str()) && catalog[i].table.as_str().eq(
            info.table.as_str(),
        ) {
            known = true;
            if catalog[i].geometry_column.as_str().eq(info.geometry_column.as_str()) {
                found = Some(i);
            }
        }
        i += 1;
    }
    proof {
        lemma_column_position(*info, catalog@);
        let at = column_position(*info, catalog@);
        match found {
            Some(f) => {
                assert(at == f) by {
                    if at < f {
                        assert(is_column_of(*info, catalog@, at));
                    }
                }
                assert(table_known(*info, catalog@));
            },
            None => {
                assert(i == catalog.len());
                if at < catalog@.len() {
                    assert(is_column_of(*info, catalog@, at));
                }
                if table_known(*info, catalog@) {
                    let w = choose|w: int|
                        0 <= w < catalog@.len() && (#[trigger] catalog@[w]).schema@ == info.schema@
                            && catalog@[w].table@ == info.table@;
                    assert(known);
                }
            },
        }
    }
    match found {
        None => if known {
            Some(Defect::UnknownGeometryColumn)
        } else {
            Some(Defect::UnknownTable)
        },
        Some(at) => {
            if !has_properties(info, &catalog[at]) {
                Some(Defect::UnknownProperty)
            } else if catalog[at].srid != 0 && catalog[at].srid != info.srid {
                Some(Defect::WrongSrid)
            } else {
                None
            }
        },
    }
}

/// The declared tables are all right up to position `n`.
pub open spec fn tables_sound(
    tables: Seq<(String, TableInfo)>,
    catalog: Seq<GeometryColumn>,
    n: int,
) -> bool {
    forall|i: int| 0 <= i < n ==> spec_table_defect((#[trigger] tables[i]).1, catalog) is None
}

/// Tests the declared tables against the catalog, in order. The first entry
/// that is wrong is refused, with what is wrong with it.
pub fn check_tables(tables: &Vec<(String, TableInfo)>, catalog: &Vec<GeometryColumn>) -> (checked:
    Result<(), DeclarationError>)
    ensures
        checked is Ok <==> tables_sound(tables@, catalog@, tables@.len() as int),
        checked matches Err(error) ==> exists|i: int|
            0 <= i < tables@.len() && tables_sound(tables@, catalog@, i) && error.entry()
                == tables@[i].0@ && Some(error.defect()) == spec_table_defect(tables@[i].1, catalog@),
{
    let mut i: usize = 0;
    while i < tables.len()
        invariant
            i <= tables.len(),
            tables_sound(tables@, catalog@, i as int),
        decreases tables.len() - i,
    {
        match table_defect(&tables[i].1, catalog) {
            None => {},
            Some(defect) => {
                let id: String = tables[i].0.clone();
                let error = match defect {
                    Defect::UnknownTable => DeclarationError::UnknownTable(id),
                    Defect::UnknownGeometryColumn => DeclarationError::UnknownGeometryColumn(id),
                    Defect::UnknownProperty => DeclarationError::UnknownProperty(id),
                    Defect::WrongSrid => DeclarationError::WrongSrid(id),
                    Defect::UnknownFunction => DeclarationError::UnknownFunction(id),
                };
                assert(!tables_sound(tables@, catalog@, tables@.len() as int)) by {
                    assert(spec_table_defect(tables@[i as int].1, catalog@) is Some);
                }
                return Err(error);
            },
        }
        i += 1;
    }
    Ok(())
}

/// The database has the function of the entry.
pub open spec fn function_known(info: FunctionInfo, found: Seq<FunctionInfo>) -> bool {
    exists|j: int|
        0 <= j < found.len() && (#[trigger] found[j]).schema@ == info.schema@ && found[j].function@
            == info.function@
}

/// The declared functions are all in the database up to position `n`.
pub open spec fn functions_sound(
    functions: Seq<(String, FunctionInfo)>,
    found: Seq<FunctionInfo>,
    n: int,
) -> bool {
    forall|i: int| 0 <= i < n ==> function_known((#[trigger] functions[i]).1, found)
}

/// Tests whether the database has the function of the entry.
fn has_function(info: &FunctionInfo, found: &Vec<FunctionInfo>) -> (known: bool)
    ensures
        known == function_known(*info, found@),
{
    let mut j: usize = 0;
    while j < found.len()
        invariant
            j <= found.len(),
            forall|k: int|
                0 <= k < j ==> !((#[trigger] found@[k]).schema@ == info.schema@ && found@[k].function@
                    == info.function@),
        decreases found.len() - j,
    {
        if found[j].schema.as_str().eq(info.schema.as_str()) && found[j].function.as_str().eq(
            info.function.as_str(),
        ) {
            return true;
        }
        j += 1;
    }
    false
}

/// Tests the declared functions against those that the database has, in
/// order. The first entry whose function the database lacks is refused.
pub fn check_functions(functions: &Vec<(String, FunctionInfo)>, found: &Vec<FunctionInfo>) -> (checked:
    Result<(), DeclarationError>)
    ensures
        checked is Ok <==> functions_sound(functions@, found@, functions@.len() as int),
        checked matches Err(error) ==> error.defect() == Defect::UnknownFunction && exists|i: int|
            0 <= i < functions@.len() && functions_sound(functions@, found@, i) && error.entry()
                == functions@[i].0@ && !function_known(functions@[i].1, found@),
{
    let mut i: usize = 0;
    while i < functions.len()
        invariant
            i <= functions.len(),
            functions_sound(functions@, found@, i as int),
        decreases functions.len() - i,
    {
        if !has_function(&functions[i].1, found) {
            assert(!functions_sound(functions@, found@, functions@.len() as int)) by {
                assert(!function_known(functions@[i as int].1, found@));
            }
            return Err(DeclarationError::UnknownFunction(functions[i].0.clone()));
        }
        i += 1;
    }
    Ok(())
}

} // verus!
