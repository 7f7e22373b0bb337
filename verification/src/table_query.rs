//! The SQL text that asks a spatial database for a vector tile of a table,
//! or of several tables at once. Zoom level, column and row of the tile are
//! the parameters `$1`, `$2` and `$3` of the query; names and texts are
//! quoted.

use vstd::prelude::*;
use vstd::string::*;
use crate::discovery::{DEFAULT_BUFFER, DEFAULT_CLIP_GEOM, DEFAULT_EXTENT};
use crate::pg_config::{FunctionInfo, TableInfo};
use crate::source::{spec_covering, CompositeSource, TableSource};
use crate::source::lemma_covering;
use crate::text::{decimal, push_decimal, push_quoted, push_signed_decimal, quoted, signed_decimal};

verus! {

/// The envelope of the tile that is asked for.
pub open spec fn envelope_sql() -> Seq<char> {
    "ST_TileEnvelope($1::integer, $2::integer, $3::integer"@
}

/// `sql` followed by the names of the properties as the columns of a
/// query, each after a comma.
pub open spec fn with_properties(sql: Seq<char>, properties: Seq<(String, String)>) -> Seq<char>
    decreases properties.len(),
{
    if properties.len() == 0 {
        sql
    } else {
        with_properties(sql, properties.drop_last()) + ", "@ + quoted(properties.last().0@, '"')
    }
}

/// Width and height of the tiles of a table, in their own units.
pub open spec fn extent_of(info: TableInfo) -> u32 {
    match info.extent {
        Some(extent) => extent,
        None => DEFAULT_EXTENT,
    }
}

/// Width of the margin round the tiles of a table.
pub open spec fn buffer_of(info: TableInfo) -> u32 {
    match info.buffer {
        Some(buffer) => buffer,
        None => DEFAULT_BUFFER,
    }
}

/// Whether the geometries of a table are cut at the margin.
pub open spec fn clip_of(info: TableInfo) -> bool {
    match info.clip_geom {
        Some(clip) => clip,
        None => DEFAULT_CLIP_GEOM,
    }
}

/// `sql` followed by the start of the query for a tile of a table: what is
/// selected, up to the properties. The geometries are cut to the tile and
/// brought into its units.
pub open spec fn with_selection(sql: Seq<char>, info: TableInfo, layer: Seq<char>) -> Seq<char> {
    sql + "SELECT ST_AsMVT(tile, "@ + quoted(layer, '\'') + ", "@ + decimal(extent_of(info) as nat)
        + ", 'g') FROM (SELECT ST_AsMVTGeom(ST_Transform("@ + quoted(info.geometry_column@, '"')
        + ", 3857), "@ + envelope_sql() + "), "@ + decimal(extent_of(info) as nat) + ", "@
        + decimal(buffer_of(info) as nat) + ", "@ + (if clip_of(info) {
        "true"@
    } else {
        "false"@
    }) + ") AS g"@
}

/// `sql` followed by the end of the query for a tile of a table: the table,
/// and the condition that a geometry meets the envelope of the tile,
/// widened by the margin of `buffer / extent` of its width.
pub open spec fn with_condition(sql: Seq<char>, info: TableInfo) -> Seq<char> {
    sql + " FROM "@ + quoted(info.schema@, '"') + "."@ + quoted(info.table@, '"') + " WHERE "@
        + quoted(info.geometry_column@, '"') + " && ST_Transform("@ + envelope_sql()
        + ", margin => "@ + decimal(buffer_of(info) as nat) + "::float8 / "@ + decimal(
        extent_of(info) as nat,
    ) + "), "@ + signed_decimal(info.srid as int) + ")) AS tile"@
}

/// `sql` followed by the query for one tile of a table, as the layer
/// `layer`: the geometries that meet the tile and their properties.
pub open spec fn with_table_sql(sql: Seq<char>, info: TableInfo, layer: Seq<char>) -> Seq<char> {
    with_condition(with_properties(with_selection(sql, info, layer), info.properties@), info)
}

/// The query for one tile of a table, as the layer `layer`.
pub open spec fn spec_table_sql(info: TableInfo, layer: Seq<char>) -> Seq<char> {
    with_table_sql(Seq::empty(), info, layer)
}

/// `sql` followed by the queries of the sources at the given positions,
/// each in brackets, joined by `||`.
pub open spec fn with_joined_sql(sql: Seq<char>, sources: Seq<TableSource>, picked: Seq<int>) -> Seq<
    char,
>
    decreases picked.len(),
{
    if picked.len() == 0 {
        sql
    } else {
        let source = sources[picked.last()];
        with_table_sql(
            with_joined_sql(sql, sources, picked.drop_last()) + (if picked.len() > 1 {
                " || ("@
            } else {
                "("@
            }),
            source.info,
            source.id@,
        ) + ")"@
    }
}

/// The query for one tile of several tables: one query that joins the
/// tiles of the tables that have tiles at `zoom`, in their order. `None`
/// where no table has tiles there.
pub open spec fn spec_composite_sql(sources: Seq<TableSource>, zoom: i32) -> Option<Seq<char>> {
    let picked = spec_covering(sources, zoom);
    if picked.len() == 0 {
        None
    } else {
        Some(with_joined_sql("SELECT "@, sources, picked))
    }
}

/// The query for one tile of a function. The function takes zoom level,
/// column and row of the tile, and with `with_query` the query of the
/// request as the parameter `$4`, a JSON object.
pub open spec fn spec_function_sql(info: FunctionInfo, with_query: bool) -> Seq<char> {
    "SELECT "@ + quoted(info.schema@, '"') + "."@ + quoted(info.function@, '"')
        + "($1::integer, $2::integer, $3::integer"@ + (if with_query {
        ", $4::json)"@
    } else {
        ")"@
    })
}

/// The query for one tile of a function.
pub fn function_sql(info: &FunctionInfo, with_query: bool) -> (sql: String)
    ensures
        sql@ == spec_function_sql(*info, with_query),
{
    let mut sql: String = "SELECT ".to_owned();
    push_quoted(&mut sql, info.schema.as_str(), '"');
    sql.append(".");
    push_quoted(&mut sql, info.function.as_str(), '"');
    sql.append("($1::integer, $2::integer, $3::integer");
    if with_query {
        sql.append(", $4::json)");
    } else {
        sql.append(")");
    }
    sql
}

/// Appends the start of the query for a tile of a table.
fn push_selection(sql: &mut String, info: &TableInfo, layer: &str)
    ensures
        final(sql)@ == with_selection(old(sql)@, *info, layer@),
{
    let extent: u32 = match info.extent {
        Some(extent) => extent,
        None => DEFAULT_EXTENT,
    };
    let buffer: u32 = match info.buffer {
        Some(buffer) => buffer,
        None => DEFAULT_BUFFER,
    };
    let clip: bool = match info.clip_geom {
        Some(clip) => clip,
        None => DEFAULT_CLIP_GEOM,
    };
    sql.append("SELECT ST_AsMVT(tile, ");
    push_quoted(sql, layer, '\'');
    sql.append(", ");
    push_decimal(sql, extent as u128);
    sql.append(", 'g') FROM (SELECT ST_AsMVTGeom(ST_Transform(");
    push_quoted(sql, info.geometry_column.as_str(), '"');
    sql.append(", 3857), ");
    sql.append("ST_TileEnvelope($1::integer, $2::integer, $3::integer");
    sql.append("), ");
    push_decimal(sql, extent as u128);
    sql.append(", ");
    push_decimal(sql, buffer as u128);
    sql.append(", ");
    if clip {
        sql.append("true");
    } else {
        sql.append("false");
    }
    sql.append(") AS g");
}

/// Appends the names of the properties, each after a comma.
fn push_properties(sql: &mut String, properties: &Vec<(String, String)>)
    ensures
        final(sql)@ == with_properties(old(sql)@, properties@),
{
    let ghost before = sql@;
    let mut i: usize = 0;
    assert(properties@.take(0) =~= Seq::<(String, String)>::empty());
    while i < properties.len()
        invariant
            i <= properties.len(),
            sql@ == with_properties(before, properties@.take(i as int)),
        decreases properties.len() - i,
    {
        sql.append(", ");
        push_quoted(sql, properties[i].0.as_str(), '"');
        proof {
            let next = properties@.take(i + 1);
            assert(next.drop_last() =~= properties@.take(i as int));
            assert(next.last() == properties@[i as int]);
        }
        i += 1;
    }
    assert(properties@.take(properties.len() as int) =~= properties@);
}

/// Appends the end of the query for a tile of a table.
fn push_condition(sql: &mut String, info: &TableInfo)
    ensures
        final(sql)@ == with_condition(old(sql)@, *info),
{
    let extent: u32 = match info.extent {
        Some(extent) => extent,
        None => DEFAULT_EXTENT,
    };
    let buffer: u32 = match info.buffer {
        Some(buffer) => buffer,
        None => DEFAULT_BUFFER,
    };
    sql.append(" FROM ");
    push_quoted(sql, info.schema.as_str(), '"');
    sql.append(".");
    push_quoted(sql, info.table.as_str(), '"');
    sql.append(" WHERE ");
    push_quoted(sql, info.geometry_column.as_str(), '"');
    sql.append(" && ST_Transform(");
    sql.append("ST_TileEnvelope($1::integer, $2::integer, $3::integer");
    sql.append(", margin => ");
    push_decimal(sql, buffer as u128);
    sql.append("::float8 / ");
    push_decimal(sql, extent as u128);
    sql.append("), ");
    push_signed_decimal(sql, info.srid as i64);
    sql.append(")) AS tile");
}

/// Appends the query for one tile of a table to `sql`.
fn push_table_sql(sql: &mut String, info: &TableInfo, layer: &str)
    ensures
        final(sql)@ == with_table_sql(old(sql)@, *info, layer@),
{
    push_selection(sql, info, layer);
    push_properties(sql, &info.properties);
    push_condition(sql, info);
}

impl TableSource {
    /// The query for one tile of the table at zoom level `zoom`, or `None`
    /// where the table has no tiles at that zoom level.
    pub fn tile_sql(&self, zoom: i32) -> (sql: Option<String>)
        ensures
            sql is Some == self.spec_covers(zoom),
            sql matches Some(text) ==> text@ == spec_table_sql(self.info, self.id@),
    {
        if !self.covers(zoom) {
            return None;
        }
        let mut sql = String::new();
        push_table_sql(&mut sql, &self.info, self.id.as_str());
        Some(sql)
    }
}

impl CompositeSource {
    /// The query for one tile of the tables at zoom level `zoom`: one query
    /// for all the tables that have tiles there. `None` where none has.
    pub fn tile_sql(&self, zoom: i32) -> (sql: Option<String>)
        ensures
            match spec_composite_sql(self.table_sources@, zoom) {
                Some(text) => sql is Some && sql->0@ == text,
                None => sql is None,
            },
    {
        let picked = self.covering(zoom);
        if picked.len() == 0 {
            return None;
        }
        let ghost wanted = spec_covering(self.table_sources@, zoom);
        proof {
            lemma_covering(self.table_sources@, zoom);
        }
        let mut sql: String = "SELECT ".to_owned();
        let ghost head = sql@;
        let mut k: usize = 0;
        assert(wanted.take(0) =~= Seq::<int>::empty());
        while k < picked.len()
            invariant
                k <= picked.len(),
                wanted == picked@.map_values(|i: usize| i as int),
                forall|j: int| 0 <= j < wanted.len() ==> 0 <= #[trigger] wanted[j] < self.table_sources@.len(),
                sql@ == with_joined_sql(head, self.table_sources@, wanted.take(k as int)),
            decreases picked.len() - k,
        {
            assert(wanted[k as int] == picked@[k as int] as int);
            let source = &self.table_sources[picked[k]];
            if k > 0 {
                sql.append(" || (");
            } else {
                sql.append("(");
            }
            push_table_sql(&mut sql, &source.info, source.id.as_str());
            sql.append(")");
            proof {
                let next = wanted.take(k + 1);
                assert(next.drop_last() =~= wanted.take(k as int));
                assert(next.last() == wanted[k as int]);
            }
            k += 1;
        }
        assert(wanted.take(picked.len() as int) =~= wanted);
        Some(sql)
    }
}

} // verus!
