//! Sources of tiles as the server publishes them: a table of a database, and
//! several tables served as one source.

use vstd::prelude::*;
use vstd::string::*;
use crate::pg_config::{PgInfo, TableInfo, TableInfoView};
use crate::string_map::map_of_pairs;
use crate::text::pair_views;
use crate::tile_json::{empty_tilejson, layer_views, TileJson, TileJsonView, VectorLayer, VectorLayerView};

verus! {

/// Whether a source with the given zoom range has tiles at `zoom`. A side
/// of the range that is not set is open.
pub open spec fn spec_is_valid_zoom(zoom: i32, minzoom: Option<u8>, maxzoom: Option<u8>) -> bool {
    &&& minzoom matches Some(min) ==> zoom >= min
    &&& maxzoom matches Some(max) ==> zoom <= max
}

/// Tests whether a source with the given zoom range has tiles at `zoom`.
pub fn is_valid_zoom(zoom: i32, minzoom: Option<u8>, maxzoom: Option<u8>) -> (valid: bool)
    ensures
        valid == spec_is_valid_zoom(zoom, minzoom, maxzoom),
{
    let gte_minzoom: bool = match minzoom {
        Some(min) => zoom >= min as i32,
        None => true,
    };
    let lte_maxzoom: bool = match maxzoom {
        Some(max) => zoom <= max as i32,
        None => true,
    };
    gte_minzoom && lte_maxzoom
}

/// Status of the answer to a request for a tile: 204 for a tile without
/// content, which is how a source says that it has no tile, else 200.
pub fn tile_status(tile: &Vec<u8>) -> (status: u16)
    ensures
        status == (if tile@.len() == 0 { 204u16 } else { 200u16 }),
{
    if tile.len() == 0 {
        204
    } else {
        200
    }
}

/// The content of a tile that may be missing: nothing where it is missing.
pub fn tile_or_empty(tile: Option<Vec<u8>>) -> (content: Vec<u8>)
    ensures
        content@ == match tile {
            Some(t) => t@,
            None => Seq::<u8>::empty(),
        },
{
    match tile {
        Some(t) => t,
        None => Vec::new(),
    }
}

/// A table of a database, published as a source.
#[derive(Clone, Debug)]
pub struct TableSource {
    pub id: String,
    pub info: TableInfo,
    pub tilejson: TileJson,
}

/// A table published as a source, as a mathematical value.
pub struct TableSourceView {
    pub id: Seq<char>,
    pub info: TableInfoView,
    pub tilejson: TileJsonView,
}

impl View for TableSource {
    type V = TableSourceView;

    open spec fn view(&self) -> TableSourceView {
        TableSourceView { id: self.id@, info: self.info@, tilejson: self.tilejson@ }
    }
}

/// The sources of a sequence as mathematical values.
pub open spec fn source_views(sources: Seq<TableSource>) -> Seq<TableSourceView> {
    sources.map_values(|s: TableSource| s@)
}

impl TableSource {
    /// A copy of the source.
    pub fn duplicate(&self) -> (copy: TableSource)
        ensures
            copy@ == self@,
    {
        TableSource {
            id: self.id.clone(),
            info: self.info.duplicate(),
            tilejson: self.tilejson.duplicate(),
        }
    }

    /// The source that publishes a table under the identifier `id`. Its
    /// tiles hold one layer, named like the source, with the properties of
    /// the table.
    pub fn new(id: String, info: TableInfo) -> (source: TableSource)
        ensures
            source.id == id,
            source.info == info,
            source.tilejson@ == (TileJsonView {
                name: Some(info.spec_format_id()),
                minzoom: info.minzoom,
                maxzoom: info.maxzoom,
                bounds: info.bounds,
                vector_layers: Some(
                    seq![
                        VectorLayerView {
                            id: id@,
                            fields: map_of_pairs(pair_views(info.properties@)),
                            description: None,
                            maxzoom: None,
                            minzoom: None,
                            other: Map::empty(),
                        },
                    ],
                ),
                ..empty_tilejson()
            }),
    {
        let mut tilejson = info.to_tilejson();
        let layer = VectorLayer::new(id.clone(), crate::tile_json::clone_pairs(&info.properties));
        let mut layers: Vec<VectorLayer> = Vec::new();
        layers.push(layer);
        assert(layer_views(layers@) =~= seq![layer@]);
        tilejson.vector_layers = Some(layers);
        TableSource { id, info, tilejson }
    }

    /// The vector layers that the source declares.
    pub open spec fn spec_layers(&self) -> Seq<VectorLayerView> {
        match self.tilejson.vector_layers {
            Some(layers) => layer_views(layers@),
            None => Seq::empty(),
        }
    }

    /// Whether the source has tiles at `zoom`.
    pub open spec fn spec_covers(&self, zoom: i32) -> bool {
        spec_is_valid_zoom(zoom, self.info.minzoom, self.info.maxzoom)
    }

    /// Tests whether the source has tiles at `zoom`.
    pub fn covers(&self, zoom: i32) -> (covered: bool)
        ensures
            covered == self.spec_covers(zoom),
    {
        is_valid_zoom(zoom, self.info.minzoom, self.info.maxzoom)
    }
}

/// The vector layers of the sources, one source after the other, each
/// source's layers in their order.
pub open spec fn spec_all_layers(sources: Seq<TableSource>) -> Seq<VectorLayerView>
    decreases sources.len(),
{
    if sources.len() == 0 {
        Seq::empty()
    } else {
        spec_all_layers(sources.drop_last()) + sources.last().spec_layers()
    }
}

/// The positions of the sources that have tiles at `zoom`, in order.
pub open spec fn spec_covering(sources: Seq<TableSource>, zoom: i32) -> Seq<int>
    decreases sources.len(),
{
    if sources.len() == 0 {
        Seq::empty()
    } else if sources.last().spec_covers(zoom) {
        spec_covering(sources.drop_last(), zoom).push(sources.len() - 1)
    } else {
        spec_covering(sources.drop_last(), zoom)
    }
}

/// The least zoom level at which one of the sources has tiles, or `None`
/// where one of them has tiles at every zoom level down to 0, or where
/// there are no sources.
pub open spec fn spec_union_minzoom(sources: Seq<TableSource>) -> Option<u8>
    decreases sources.len(),
{
    if sources.len() == 0 {
        None
    } else if sources.len() == 1 {
        sources[0].info.minzoom
    } else {
        match (spec_union_minzoom(sources.drop_last()), sources.last().info.minzoom) {
            (Some(a), Some(b)) => Some(if a <= b { a } else { b }),
            _ => None,
        }
    }
}

/// The largest zoom level at which one of the sources has tiles, or `None`
/// where one of them has tiles at every zoom level up, or where there are
/// no sources.
pub open spec fn spec_union_maxzoom(sources: Seq<TableSource>) -> Option<u8>
    decreases sources.len(),
{
    if sources.len() == 0 {
        None
    } else if sources.len() == 1 {
        sources[0].info.maxzoom
    } else {
        match (spec_union_maxzoom(sources.drop_last()), sources.last().info.maxzoom) {
            (Some(a), Some(b)) => Some(if a >= b { a } else { b }),
            _ => None,
        }
    }
}

/// The layers of two lists of sources, one after the other, are the layers
/// of the first list followed by those of the second.
pub proof fn lemma_layers_concatenate(first: Seq<TableSource>, second: Seq<TableSource>)
    ensures
        spec_all_layers(first + second) == spec_all_layers(first) + spec_all_layers(second),
    decreases second.len(),
{
    if second.len() == 0 {
        assert(first + second =~= first);
        assert(spec_all_layers(first) + spec_all_layers(second) =~= spec_all_layers(first));
    } else {
        let all = first + second;
        assert(all.drop_last() =~= first + second.drop_last());
        assert(all.last() == second.last());
        lemma_layers_concatenate(first, second.drop_last());
        assert(spec_all_layers(all) =~= spec_all_layers(first) + spec_all_layers(second));
    }
}

/// The layers of one source are the layers that it declares.
pub proof fn lemma_layers_of_one(source: TableSource)
    ensures
        spec_all_layers(seq![source]) == source.spec_layers(),
{
    let one = seq![source];
    assert(one.drop_last() =~= Seq::<TableSource>::empty());
    assert(spec_all_layers(one.drop_last()) =~= Seq::<VectorLayerView>::empty());
    assert(one.last() == source);
    assert(spec_all_layers(one) =~= source.spec_layers());
}

/// Every position that is picked for a zoom level is the position of a
/// source that has tiles there, and every such source is picked.
pub proof fn lemma_covering(sources: Seq<TableSource>, zoom: i32)
    ensures
        forall|k: int|
            0 <= k < spec_covering(sources, zoom).len() ==> {
                &&& 0 <= (#[trigger] spec_covering(sources, zoom)[k]) < sources.len()
                &&& sources[spec_covering(sources, zoom)[k]].spec_covers(zoom)
            },
        forall|i: int|
            0 <= i < sources.len() && (#[trigger] sources[i]).spec_covers(zoom) ==> spec_covering(
                sources,
                zoom,
            ).contains(i),
    decreases sources.len(),
{
    if sources.len() > 0 {
        let rest = sources.drop_last();
        lemma_covering(rest, zoom);
        let picked = spec_covering(sources, zoom);
        let before = spec_covering(rest, zoom);
        assert forall|i: int| 0 <= i < sources.len() && (#[trigger] sources[i]).spec_covers(
            zoom,
        ) implies picked.contains(i) by {
            if i < sources.len() - 1 {
                assert(rest[i].spec_covers(zoom));
                let at = choose|at: int| 0 <= at < before.len() && before[at] == i;
                assert(picked[at] == i);
            } else {
                assert(picked[picked.len() - 1] == i);
            }
        }
        assert forall|k: int| 0 <= k < picked.len() implies 0 <= (#[trigger] picked[k]) < sources.len()
            && sources[picked[k]].spec_covers(zoom) by {
            if k < before.len() {
                assert(picked[k] == before[k]);
                assert(rest[before[k]] == sources[before[k]]);
            }
        }
    }
}

/// Several tables served as one source. A tile of it holds the layers of
/// all its tables.
#[derive(Clone, Debug)]
pub struct CompositeSource {
    pub id: String,
    pub table_sources: Vec<TableSource>,
}

impl CompositeSource {
    /// The vector layers of the source: those of its tables, in the order
    /// of the tables.
    pub fn vector_layers(&self) -> (layers: Vec<VectorLayer>)
        ensures
            layer_views(layers@) == spec_all_layers(self.table_sources@),
    {
        let mut layers: Vec<VectorLayer> = Vec::new();
        assert(layer_views(layers@) =~= Seq::<VectorLayerView>::empty());
        let mut i: usize = 0;
        while i < self.table_sources.len()
            invariant
                i <= self.table_sources.len(),
                layer_views(layers@) == spec_all_layers(self.table_sources@.take(i as int)),
            decreases self.table_sources.len() - i,
        {
            let ghost done = layer_views(layers@);
            let ghost own = self.table_sources@[i as int].spec_layers();
            if let Some(declared) = &self.table_sources[i].tilejson.vector_layers {
                let mut j: usize = 0;
                while j < declared.len()
                    invariant
                        j <= declared.len(),
                        own == layer_views(declared@),
                        layer_views(layers@) == done + own.take(j as int),
                    decreases declared.len() - j,
                {
                    let ghost so_far = layer_views(layers@);
                    layers.push(declared[j].duplicate());
                    assert(layer_views(layers@) =~= so_far.push(declared@[j as int]@));
                    assert(own.take(j + 1) =~= own.take(j as int).push(own[j as int]));
                    assert(done + own.take(j + 1) =~= (done + own.take(j as int)).push(own[j as int]));
                    j += 1;
                }
                assert(own.take(declared.len() as int) =~= own);
            } else {
                assert(done + own =~= done);
            }
            proof {
                let next = self.table_sources@.take(i + 1);
                assert(next.drop_last() =~= self.table_sources@.take(i as int));
                assert(next.last() == self.table_sources@[i as int]);
            }
            i += 1;
        }
        assert(self.table_sources@.take(self.table_sources.len() as int) =~= self.table_sources@);
        layers
    }

    /// The zoom levels at which one of the tables has tiles: the least and
    /// the largest of them.
    pub fn zoom_envelope(&self) -> (envelope: (Option<u8>, Option<u8>))
        ensures
            envelope.0 == spec_union_minzoom(self.table_sources@),
            envelope.1 == spec_union_maxzoom(self.table_sources@),
    {
        if self.table_sources.len() == 0 {
            return (None, None);
        }
        let mut minzoom: Option<u8> = self.table_sources[0].info.minzoom;
        let mut maxzoom: Option<u8> = self.table_sources[0].info.maxzoom;
        let mut i: usize = 1;
        assert(self.table_sources@.take(1)[0] == self.table_sources@[0]);
        while i < self.table_sources.len()
            invariant
                1 <= i <= self.table_sources.len(),
                minzoom == spec_union_minzoom(self.table_sources@.take(i as int)),
                maxzoom == spec_union_maxzoom(self.table_sources@.take(i as int)),
            decreases self.table_sources.len() - i,
        {
            proof {
                let next = self.table_sources@.take(i + 1);
                assert(next.drop_last() =~= self.table_sources@.take(i as int));
                assert(next.last() == self.table_sources@[i as int]);
            }
            minzoom = match (minzoom, self.table_sources[i].info.minzoom) {
                (Some(a), Some(b)) => Some(if a <= b { a } else { b }),
                _ => None,
            };
            maxzoom = match (maxzoom, self.table_sources[i].info.maxzoom) {
                (Some(a), Some(b)) => Some(if a >= b { a } else { b }),
                _ => None,
            };
            i += 1;
        }
        assert(self.table_sources@.take(self.table_sources.len() as int) =~= self.table_sources@);
        (minzoom, maxzoom)
    }

    /// The TileJSON document of the source: its identifier as its name, the
    /// vector layers of its tables in the order of the tables, and the zoom
    /// levels at which one of its tables has tiles.
    pub fn tilejson(&self) -> (tilejson: TileJson)
        ensures
            tilejson@ == (TileJsonView {
                name: Some(self.id@),
                vector_layers: Some(spec_all_layers(self.table_sources@)),
                minzoom: spec_union_minzoom(self.table_sources@),
                maxzoom: spec_union_maxzoom(self.table_sources@),
                ..empty_tilejson()
            }),
    {
        let (minzoom, maxzoom) = self.zoom_envelope();
        let mut tilejson = TileJson::new();
        tilejson.name = Some(self.id.clone());
        tilejson.vector_layers = Some(self.vector_layers());
        tilejson.minzoom = minzoom;
        tilejson.maxzoom = maxzoom;
        tilejson
    }

    /// The positions of the tables that have tiles at `zoom`, in order.
    /// Where there are none the source has no tile at that zoom level.
    pub fn covering(&self, zoom: i32) -> (picked: Vec<usize>)
        ensures
            picked@.map_values(|i: usize| i as int) == spec_covering(self.table_sources@, zoom),
    {
        let mut picked: Vec<usize> = Vec::new();
        assert(picked@.map_values(|i: usize| i as int) =~= Seq::<int>::empty());
        let mut i: usize = 0;
        while i < self.table_sources.len()
            invariant
                i <= self.table_sources.len(),
                picked@.map_values(|i: usize| i as int) == spec_covering(
                    self.table_sources@.take(i as int),
                    zoom,
                ),
            decreases self.table_sources.len() - i,
        {
            let ghost so_far = picked@.map_values(|i: usize| i as int);
            proof {
                let next = self.table_sources@.take(i + 1);
                assert(next.drop_last() =~= self.table_sources@.take(i as int));
                assert(next.last() == self.table_sources@[i as int]);
            }
            if self.table_sources[i].covers(zoom) {
                picked.push(i);
                assert(picked@.map_values(|i: usize| i as int) =~= so_far.push(i as int));
            }
            i += 1;
        }
        assert(self.table_sources@.take(self.table_sources.len() as int) =~= self.table_sources@);
        picked
    }
}

} // verus!
