//! Description of a tile source: the TileJSON document and its parts.

use vstd::prelude::*;
use vstd::string::*;
use crate::string_map::{map_of_pairs, StringMap};
use crate::text::{opt_view, pair_views, views};

verus! {

/// Geographic extent of a source in WGS84 degrees. Each coordinate is held
/// as the bit pattern of an IEEE 754 double: the library carries coordinates
/// and never computes with them.
#[derive(Clone, Copy, Debug, PartialEq, Eq, Hash, Structural)]
pub struct Bounds {
    pub left: u64,
    pub bottom: u64,
    pub right: u64,
    pub top: u64,
}

/// Default position of a map: longitude and latitude, each as the bit
/// pattern of an IEEE 754 double, and a zoom level.
#[derive(Clone, Copy, Debug, PartialEq, Eq, Hash, Structural)]
pub struct Center {
    pub longitude: u64,
    pub latitude: u64,
    pub zoom: u8,
}

/// What `tilejson::Bounds::from_str` makes of a text: the bounds, or `None`
/// where it rejects the text.
pub uninterp spec fn bounds_of_text(text: Seq<char>) -> Option<Bounds>;

/// What `tilejson::Center::from_str` makes of a text: the center, or `None`
/// where it rejects the text.
pub uninterp spec fn center_of_text(text: Seq<char>) -> Option<Center>;

/// Calls `tilejson::Bounds::from_str`, which reads four numbers separated by
/// commas. The contract says only that the result is a function of the text.
/// The four numbers are handed on as their bit patterns.
#[verifier::external_body]
pub(crate) fn parse_bounds(text: &str) -> (bounds: Option<Bounds>)
    ensures
        bounds == bounds_of_text(text@),
{
    match text.parse::<tilejson::Bounds>() {
        Ok(b) => Some(
            Bounds {
                left: b.left.to_bits(),
                bottom: b.bottom.to_bits(),
                right: b.right.to_bits(),
                top: b.top.to_bits(),
            },
        ),
        Err(_) => None,
    }
}

/// Calls `tilejson::Center::from_str`, which reads two numbers and a zoom
/// level separated by commas. The contract says only that the result is a
/// function of the text. The two numbers are handed on as their bit patterns.
#[verifier::external_body]
pub(crate) fn parse_center(text: &str) -> (center: Option<Center>)
    ensures
        center == center_of_text(text@),
{
    match text.parse::<tilejson::Center>() {
        Ok(c) => Some(
            Center {
                longitude: c.longitude.to_bits(),
                latitude: c.latitude.to_bits(),
                zoom: c.zoom,
            },
        ),
        Err(_) => None,
    }
}

/// One layer of a vector tile source.
#[derive(Clone, Debug, PartialEq, Eq)]
pub struct VectorLayer {
    pub id: String,
    /// The type of each property of the layer's features, by its name.
    pub fields: StringMap,
    pub description: Option<String>,
    pub maxzoom: Option<u8>,
    pub minzoom: Option<u8>,
    /// What else the layer says: each value as JSON text, by its key.
    pub other: StringMap,
}

/// A vector layer as a mathematical value.
pub struct VectorLayerView {
    pub id: Seq<char>,
    pub fields: Map<Seq<char>, Seq<char>>,
    pub description: Option<Seq<char>>,
    pub maxzoom: Option<u8>,
    pub minzoom: Option<u8>,
    pub other: Map<Seq<char>, Seq<char>>,
}

impl View for VectorLayer {
    type V = VectorLayerView;

    open spec fn view(&self) -> VectorLayerView {
        VectorLayerView {
            id: self.id@,
            fields: self.fields@,
            description: opt_view(self.description),
            maxzoom: self.maxzoom,
            minzoom: self.minzoom,
            other: self.other@,
        }
    }
}

/// A vector layer as it is read: its maps as lists of pairs, in no order
/// that can be relied on, each key once.
#[derive(Clone, Debug, PartialEq, Eq)]
pub struct LayerParts {
    pub id: String,
    pub fields: Vec<(String, String)>,
    pub description: Option<String>,
    pub maxzoom: Option<u8>,
    pub minzoom: Option<u8>,
    pub other: Vec<(String, String)>,
}

impl View for LayerParts {
    type V = VectorLayerView;

    open spec fn view(&self) -> VectorLayerView {
        VectorLayerView {
            id: self.id@,
            fields: map_of_pairs(pair_views(self.fields@)),
            description: opt_view(self.description),
            maxzoom: self.maxzoom,
            minzoom: self.minzoom,
            other: map_of_pairs(pair_views(self.other@)),
        }
    }
}

/// The layers of a list of parts as mathematical values.
pub open spec fn parts_views(parts: Seq<LayerParts>) -> Seq<VectorLayerView> {
    parts.map_values(|p: LayerParts| p@)
}

/// The layers of a sequence as mathematical values.
pub open spec fn layer_views(layers: Seq<VectorLayer>) -> Seq<VectorLayerView> {
    layers.map_values(|l: VectorLayer| l@)
}

/// The layers of a list that may be absent.
pub open spec fn opt_layer_views(layers: Option<Vec<VectorLayer>>) -> Option<Seq<VectorLayerView>> {
    match layers {
        Some(l) => Some(layer_views(l@)),
        None => None,
    }
}

/// Copies a list of pairs of strings.
pub fn clone_pairs(pairs: &Vec<(String, String)>) -> (copy: Vec<(String, String)>)
    ensures
        pair_views(copy@) == pair_views(pairs@),
{
    let mut copy: Vec<(String, String)> = Vec::new();
    let mut i: usize = 0;
    while i < pairs.len()
        invariant
            i <= pairs.len(),
            copy@.len() == i,
            forall|j: int| 0 <= j < i ==> copy@[j].0@ == pairs@[j].0@ && copy@[j].1@ == pairs@[j].1@,
        decreases pairs.len() - i,
    {
        copy.push((pairs[i].0.clone(), pairs[i].1.clone()));
        i += 1;
    }
    assert(pair_views(copy@) =~= pair_views(pairs@));
    copy
}

/// Copies a string that may be absent.
pub fn clone_opt(s: &Option<String>) -> (copy: Option<String>)
    ensures
        opt_view(copy) == opt_view(*s),
{
    match s {
        Some(s) => Some(s.clone()),
        None => None,
    }
}

impl VectorLayer {
    /// A layer with the given properties and nothing else set.
    pub fn new(id: String, fields: Vec<(String, String)>) -> (layer: VectorLayer)
        ensures
            layer@ == (VectorLayerView {
                id: id@,
                fields: map_of_pairs(pair_views(fields@)),
                description: None,
                maxzoom: None,
                minzoom: None,
                other: Map::empty(),
            }),
    {
        VectorLayer {
            id,
            fields: StringMap::from_pairs(&fields),
            description: None,
            maxzoom: None,
            minzoom: None,
            other: StringMap::new(),
        }
    }

    /// The layer that the parts make.
    pub fn from_parts(parts: LayerParts) -> (layer: VectorLayer)
        ensures
            layer@ == parts@,
    {
        VectorLayer {
            id: parts.id,
            fields: StringMap::from_pairs(&parts.fields),
            description: parts.description,
            maxzoom: parts.maxzoom,
            minzoom: parts.minzoom,
            other: StringMap::from_pairs(&parts.other),
        }
    }

    /// The layers that a list of parts makes, in its order.
    pub fn from_parts_list(parts: Vec<LayerParts>) -> (layers: Vec<VectorLayer>)
        ensures
            layer_views(layers@) == parts_views(parts@),
    {
        let mut layers: Vec<VectorLayer> = Vec::new();
        let ghost all = parts_views(parts@);
        let mut rest = parts;
        let total: usize = rest.len();
        let mut n: usize = 0;
        assert(all.take(0) =~= Seq::<VectorLayerView>::empty());
        assert(layer_views(layers@) =~= all.take(0));
        assert(parts_views(rest@) =~= all.skip(0));
        while rest.len() > 0
            invariant
                n + rest@.len() == all.len() == total,
                parts_views(rest@) == all.skip(n as int),
                layer_views(layers@) == all.take(n as int),
            decreases rest@.len(),
        {
            let ghost left = rest@;
            let ghost done = layer_views(layers@);
            let part = rest.remove(0);
            proof {
                assert(parts_views(left)[0] == part@);
                assert(parts_views(rest@) =~= parts_views(left).drop_first());
                assert(all.skip(n as int).drop_first() =~= all.skip(n + 1));
            }
            layers.push(VectorLayer::from_parts(part));
            proof {
                assert(layer_views(layers@) =~= done.push(part@));
                assert(all.take(n + 1) =~= all.take(n as int).push(all[n as int]));
            }
            n += 1;
        }
        assert(all.take(all.len() as int) =~= all);
        layers
    }

    /// A copy of the layer.
    pub fn duplicate(&self) -> (copy: VectorLayer)
        ensures
            copy@ == self@,
    {
        VectorLayer {
            id: self.id.clone(),
            fields: self.fields.duplicate(),
            description: clone_opt(&self.description),
            maxzoom: self.maxzoom,
            minzoom: self.minzoom,
            other: self.other.duplicate(),
        }
    }
}

/// TileJSON document of a source.
#[derive(Clone, Debug, PartialEq, Eq)]
pub struct TileJson {
    /// Version of the TileJSON format.
    pub tilejson: String,
    /// URL templates of the tiles.
    pub tiles: Vec<String>,
    pub vector_layers: Option<Vec<VectorLayer>>,
    pub attribution: Option<String>,
    pub bounds: Option<Bounds>,
    pub center: Option<Center>,
    pub description: Option<String>,
    pub legend: Option<String>,
    pub maxzoom: Option<u8>,
    pub minzoom: Option<u8>,
    pub name: Option<String>,
    pub template: Option<String>,
    pub version: Option<String>,
    /// Keys that the format does not know.
    pub other: StringMap,
}

/// A TileJSON document as a mathematical value.
pub struct TileJsonView {
    pub tilejson: Seq<char>,
    pub tiles: Seq<Seq<char>>,
    pub vector_layers: Option<Seq<VectorLayerView>>,
    pub attribution: Option<Seq<char>>,
    pub bounds: Option<Bounds>,
    pub center: Option<Center>,
    pub description: Option<Seq<char>>,
    pub legend: Option<Seq<char>>,
    pub maxzoom: Option<u8>,
    pub minzoom: Option<u8>,
    pub name: Option<Seq<char>>,
    pub template: Option<Seq<char>>,
    pub version: Option<Seq<char>>,
    pub other: Map<Seq<char>, Seq<char>>,
}

impl View for TileJson {
    type V = TileJsonView;

    open spec fn view(&self) -> TileJsonView {
        TileJsonView {
            tilejson: self.tilejson@,
            tiles: views(self.tiles@),
            vector_layers: opt_layer_views(self.vector_layers),
            attribution: opt_view(self.attribution),
            bounds: self.bounds,
            center: self.center,
            description: opt_view(self.description),
            legend: opt_view(self.legend),
            maxzoom: self.maxzoom,
            minzoom: self.minzoom,
            name: opt_view(self.name),
            template: opt_view(self.template),
            version: opt_view(self.version),
            other: self.other@,
        }
    }
}

/// Version of the TileJSON format that new documents declare.
pub open spec fn tilejson_version() -> Seq<char> {
    seq!['3', '.', '0', '.', '0']
}

/// The document that declares the format version and nothing else.
pub open spec fn empty_tilejson() -> TileJsonView {
    TileJsonView {
        tilejson: tilejson_version(),
        tiles: Seq::empty(),
        vector_layers: None,
        attribution: None,
        bounds: None,
        center: None,
        description: None,
        legend: None,
        maxzoom: None,
        minzoom: None,
        name: None,
        template: None,
        version: None,
        other: Map::empty(),
    }
}

impl TileJsonView {
    /// Zoom levels lie in `0..=30`, and the largest is not below the least.
    pub open spec fn zooms_valid(self) -> bool {
        &&& self.minzoom matches Some(min) ==> min <= 30
        &&& self.maxzoom matches Some(max) ==> max <= 30
        &&& self.minzoom matches Some(min) ==> (self.maxzoom matches Some(max) ==> min <= max)
    }
}

impl TileJson {
    /// A document without tiles that declares the format version and
    /// nothing else.
    pub fn new() -> (tj: TileJson)
        ensures
            tj@ == empty_tilejson(),
    {
        proof {
            reveal_strlit("3.0.0");
        }
        let tj = TileJson {
            tilejson: "3.0.0".to_owned(),
            tiles: Vec::new(),
            vector_layers: None,
            attribution: None,
            bounds: None,
            center: None,
            description: None,
            legend: None,
            maxzoom: None,
            minzoom: None,
            name: None,
            template: None,
            version: None,
            other: StringMap::new(),
        };
        assert(tj.tilejson@ =~= tilejson_version());
        assert(views(tj.tiles@) =~= Seq::<Seq<char>>::empty());
        tj
    }

    /// A copy of the document.
    pub fn duplicate(&self) -> (copy: TileJson)
        ensures
            copy@ == self@,
    {
        let mut tiles: Vec<String> = Vec::new();
        let mut i: usize = 0;
        while i < self.tiles.len()
            invariant
                i <= self.tiles.len(),
                tiles@.len() == i,
                forall|j: int| 0 <= j < i ==> (#[trigger] tiles@[j])@ == self.tiles@[j]@,
            decreases self.tiles.len() - i,
        {
            tiles.push(self.tiles[i].clone());
            i += 1;
        }
        assert(views(tiles@) =~= views(self.tiles@));
        let vector_layers: Option<Vec<VectorLayer>> = match &self.vector_layers {
            Some(layers) => {
                let mut copies: Vec<VectorLayer> = Vec::new();
                let mut k: usize = 0;
                while k < layers.len()
                    invariant
                        k <= layers.len(),
                        copies@.len() == k,
                        forall|j: int| 0 <= j < k ==> (#[trigger] copies@[j])@ == layers@[j]@,
                    decreases layers.len() - k,
                {
                    copies.push(layers[k].duplicate());
                    k += 1;
                }
                assert(layer_views(copies@) =~= layer_views(layers@));
                Some(copies)
            },
            None => None,
        };
        TileJson {
            tilejson: self.tilejson.clone(),
            tiles,
            vector_layers,
            attribution: clone_opt(&self.attribution),
            bounds: self.bounds,
            center: self.center,
            description: clone_opt(&self.description),
            legend: clone_opt(&self.legend),
            maxzoom: self.maxzoom,
            minzoom: self.minzoom,
            name: clone_opt(&self.name),
            template: clone_opt(&self.template),
            version: clone_opt(&self.version),
            other: self.other.duplicate(),
        }
    }

    /// Tests whether the zoom levels lie in `0..=30`, the largest not below
    /// the least.
    pub fn has_valid_zooms(&self) -> (valid: bool)
        ensures
            valid == self@.zooms_valid(),
    {
        let min_ok: bool = match self.minzoom {
            Some(min) => min <= 30,
            None => true,
        };
        let max_ok: bool = match self.maxzoom {
            Some(max) => max <= 30,
            None => true,
        };
        let order_ok: bool = match (self.minzoom, self.maxzoom) {
            (Some(min), Some(max)) => min <= max,
            _ => true,
        };
        min_ok && max_ok && order_ok
    }
}

} // verus!
