//! Metadata of a tile archive: the rows of its `metadata` table, read into a
//! TileJSON document, a layer type and a JSON sidecar.

use vstd::prelude::*;
use vstd::string::*;
use crate::mbtiles::Mbtiles;
use crate::text::{opt_view, pair_views, parse_u8, u8_of_text};
use crate::tile_info::TileInfo;
use crate::tile_json::{
    bounds_of_text, center_of_text, empty_tilejson, opt_layer_views, parse_bounds, parse_center,
    parts_views, LayerParts, TileJson, TileJsonView, VectorLayer, VectorLayerView,
};

verus! {

/// What `serde_json` makes of a JSON text when the member `key` is taken
/// out of it: the member as JSON text, where the text is an object that has
/// it, and the rest as JSON text. `None` where `serde_json::from_str`
/// rejects the text.
pub uninterp spec fn json_without_member(text: Seq<char>, key: Seq<char>) -> Option<
    (Option<Seq<char>>, Seq<char>),
>;

/// The vector layers that `serde_json::from_str` reads from a JSON text as
/// a list of `tilejson::VectorLayer`, or `None` where it rejects the text.
pub uninterp spec fn layers_of_json_text(text: Seq<char>) -> Option<Seq<VectorLayerView>>;

/// The member and the rest as mathematical values.
pub open spec fn split_view(parts: Option<(Option<String>, String)>) -> Option<
    (Option<Seq<char>>, Seq<char>),
> {
    match parts {
        Some((member, rest)) => Some((opt_view(member), rest@)),
        None => None,
    }
}

/// The layers of a list of parts that may be absent.
pub open spec fn opt_parts_views(parts: Option<Vec<LayerParts>>) -> Option<Seq<VectorLayerView>> {
    match parts {
        Some(list) => Some(parts_views(list@)),
        None => None,
    }
}

/// Calls `serde_json::Map::remove` on the value that `serde_json::from_str`
/// reads from the text: it takes the member with the given key out of a
/// JSON object and returns it; no other kind of value has members. The
/// member and the rest are handed on as the JSON text that
/// `serde_json::to_string` writes. The contract says only that both are
/// functions of text and key.
#[verifier::external_body]
pub(crate) fn take_member(text: &str, key: &str) -> (parts: Option<(Option<String>, String)>)
    ensures
        split_view(parts) == json_without_member(text@, key@),
{
    let mut json: serde_json::Value = serde_json::from_str(text).ok()?;
    let member = match &mut json {
        serde_json::Value::Object(members) => members.remove(key),
        _ => None,
    };
    let member = match member {
        Some(value) => Some(serde_json::to_string(&value).ok()?),
        None => None,
    };
    Some((member, serde_json::to_string(&json).ok()?))
}

/// Calls `serde_json::from_str` for a list of `tilejson::VectorLayer`, and
/// hands each layer on field by field, its other values as the JSON text
/// that `serde_json` writes. The contract says only that the layers, with
/// their maps taken as maps, are a function of the text.
#[verifier::external_body]
pub(crate) fn parse_layers(text: &str) -> (layers: Option<Vec<LayerParts>>)
    ensures
        opt_parts_views(layers) == layers_of_json_text(text@),
{
    let layers: Vec<tilejson::VectorLayer> = serde_json::from_str(text).ok()?;
    let text_of = |value: serde_json::Value| serde_json::to_string(&value).unwrap_or_default();
    Some(layers.into_iter().map(|l| LayerParts {
        id: l.id,
        fields: l.fields.into_iter().collect(),
        description: l.description,
        maxzoom: l.maxzoom,
        minzoom: l.minzoom,
        other: l.other.into_iter().map(|(key, value)| (key, text_of(value))).collect(),
    }).collect())
}

/// What the rows of a metadata table say, before the JSON sidecar is read.
#[derive(Clone, Debug, PartialEq, Eq)]
pub struct MetadataFields {
    pub tilejson: TileJson,
    /// Value of the row `type`: typically `overlay` or `baselayer`.
    pub layer_type: Option<String>,
    /// Value of the row `json`.
    pub json_text: Option<String>,
}

/// `MetadataFields` as a mathematical value.
pub struct MetadataFieldsView {
    pub tilejson: TileJsonView,
    pub layer_type: Option<Seq<char>>,
    pub json_text: Option<Seq<char>>,
}

impl View for MetadataFields {
    type V = MetadataFieldsView;

    open spec fn view(&self) -> MetadataFieldsView {
        MetadataFieldsView {
            tilejson: self.tilejson@,
            layer_type: opt_view(self.layer_type),
            json_text: opt_view(self.json_text),
        }
    }
}

/// What a metadata table without rows says.
pub open spec fn no_fields() -> MetadataFieldsView {
    MetadataFieldsView { tilejson: empty_tilejson(), layer_type: None, json_text: None }
}

/// The fields after one more row. A row with an empty value changes
/// nothing. A row with a well-known name sets the field of that name, also
/// where an earlier row had set it; a value that cannot be read leaves the
/// field unset. Any other row is kept under its name among the other keys.
pub open spec fn spec_apply_row(
    fields: MetadataFieldsView,
    name: Seq<char>,
    value: Seq<char>,
) -> MetadataFieldsView {
    let tj = fields.tilejson;
    if value.len() == 0 {
        fields
    } else if name == "name"@ {
        MetadataFieldsView { tilejson: TileJsonView { name: Some(value), ..tj }, ..fields }
    } else if name == "version"@ {
        MetadataFieldsView { tilejson: TileJsonView { version: Some(value), ..tj }, ..fields }
    } else if name == "bounds"@ {
        MetadataFieldsView { tilejson: TileJsonView { bounds: bounds_of_text(value), ..tj }, ..fields }
    } else if name == "center"@ {
        MetadataFieldsView { tilejson: TileJsonView { center: center_of_text(value), ..tj }, ..fields }
    } else if name == "minzoom"@ {
        MetadataFieldsView { tilejson: TileJsonView { minzoom: u8_of_text(value), ..tj }, ..fields }
    } else if name == "maxzoom"@ {
        MetadataFieldsView { tilejson: TileJsonView { maxzoom: u8_of_text(value), ..tj }, ..fields }
    } else if name == "description"@ {
        MetadataFieldsView { tilejson: TileJsonView { description: Some(value), ..tj }, ..fields }
    } else if name == "attribution"@ {
        MetadataFieldsView { tilejson: TileJsonView { attribution: Some(value), ..tj }, ..fields }
    } else if name == "type"@ {
        MetadataFieldsView { layer_type: Some(value), ..fields }
    } else if name == "legend"@ {
        MetadataFieldsView { tilejson: TileJsonView { legend: Some(value), ..tj }, ..fields }
    } else if name == "template"@ {
        MetadataFieldsView { tilejson: TileJsonView { template: Some(value), ..tj }, ..fields }
    } else if name == "json"@ {
        MetadataFieldsView { json_text: Some(value), ..fields }
    } else {
        MetadataFieldsView {
            tilejson: TileJsonView { other: tj.other.insert(name, value), ..tj },
            ..fields
        }
    }
}

/// The fields that a sequence of rows gives, read in order.
pub open spec fn spec_parse_rows(rows: Seq<(Seq<char>, Seq<char>)>) -> MetadataFieldsView
    decreases rows.len(),
{
    if rows.len() == 0 {
        no_fields()
    } else {
        spec_apply_row(spec_parse_rows(rows.drop_last()), rows.last().0, rows.last().1)
    }
}

/// No row sets the format version, the tile URLs or the vector layers.
pub proof fn lemma_rows_keep_frame(rows: Seq<(Seq<char>, Seq<char>)>)
    ensures
        spec_parse_rows(rows).tilejson.tilejson == empty_tilejson().tilejson,
        spec_parse_rows(rows).tilejson.tiles == empty_tilejson().tiles,
        spec_parse_rows(rows).tilejson.vector_layers is None,
    decreases rows.len(),
{
    if rows.len() > 0 {
        lemma_rows_keep_frame(rows.drop_last());
    }
}

/// Whether a name is one of those that the reader knows. A row with any
/// other name is kept, and worth a warning.
pub open spec fn is_known_name(name: Seq<char>) -> bool {
    ||| name == "name"@
    ||| name == "version"@
    ||| name == "bounds"@
    ||| name == "center"@
    ||| name == "minzoom"@
    ||| name == "maxzoom"@
    ||| name == "description"@
    ||| name == "attribution"@
    ||| name == "type"@
    ||| name == "legend"@
    ||| name == "template"@
    ||| name == "json"@
    ||| name == "format"@
    ||| name == "generator"@
}

/// Tests whether a name is one of those that the reader knows.
pub fn known_name(name: &str) -> (known: bool)
    ensures
        known == is_known_name(name@),
{
    name.eq("name") || name.eq("version") || name.eq("bounds") || name.eq("center") || name.eq(
        "minzoom",
    ) || name.eq("maxzoom") || name.eq("description") || name.eq("attribution") || name.eq("type")
        || name.eq("legend") || name.eq("template") || name.eq("json") || name.eq("format")
        || name.eq("generator")
}

impl MetadataFields {
    /// What a metadata table without rows says.
    pub fn new() -> (fields: MetadataFields)
        ensures
            fields@ == no_fields(),
    {
        MetadataFields { tilejson: TileJson::new(), layer_type: None, json_text: None }
    }

    /// Takes one more row into account.
    pub fn apply_row(&mut self, name: String, value: String)
        ensures
            final(self)@ == spec_apply_row(old(self)@, name@, value@),
    {
        if value.as_str().unicode_len() == 0 {
            return ;
        }
        let key: &str = name.as_str();
        if key.eq("name") {
            self.tilejson.name = Some(value);
        } else if key.eq("version") {
            self.tilejson.version = Some(value);
        } else if key.eq("bounds") {
            self.tilejson.bounds = parse_bounds(value.as_str());
        } else if key.eq("center") {
            self.tilejson.center = parse_center(value.as_str());
        } else if key.eq("minzoom") {
            self.tilejson.minzoom = parse_u8(value.as_str());
        } else if key.eq("maxzoom") {
            self.tilejson.maxzoom = parse_u8(value.as_str());
        } else if key.eq("description") {
            self.tilejson.description = Some(value);
        } else if key.eq("attribution") {
            self.tilejson.attribution = Some(value);
        } else if key.eq("type") {
            self.layer_type = Some(value);
        } else if key.eq("legend") {
            self.tilejson.legend = Some(value);
        } else if key.eq("template") {
            self.tilejson.template = Some(value);
        } else if key.eq("json") {
            self.json_text = Some(value);
        } else {
            self.tilejson.other.insert(name, value);
        }
    }

    /// Reads the rows of a metadata table, in order.
    pub fn from_rows(rows: &Vec<(String, String)>) -> (fields: MetadataFields)
        ensures
            fields@ == spec_parse_rows(pair_views(rows@)),
    {
        let mut fields = MetadataFields::new();
        let ghost all = pair_views(rows@);
        let mut i: usize = 0;
        while i < rows.len()
            invariant
                i <= rows.len(),
                all == pair_views(rows@),
                fields@ == spec_parse_rows(all.take(i as int)),
            decreases rows.len() - i,
        {
            fields.apply_row(rows[i].0.clone(), rows[i].1.clone());
            proof {
                let next = all.take(i + 1);
                assert(next.drop_last() =~= all.take(i as int));
                assert(next.last() == all[i as int]);
            }
            i += 1;
        }
        assert(all.take(rows.len() as int) =~= all);
        fields
    }
}

/// Everything that the metadata table of a tile archive says.
#[derive(Clone, Debug, PartialEq, Eq)]
pub struct Metadata {
    /// Name of the archive.
    pub id: String,
    pub tile_info: TileInfo,
    pub layer_type: Option<String>,
    pub tilejson: TileJson,
    /// The JSON sidecar as JSON text, without its vector layers.
    pub json: Option<String>,
}

/// `Metadata` as a mathematical value.
pub struct MetadataView {
    pub id: Seq<char>,
    pub tile_info: TileInfo,
    pub layer_type: Option<Seq<char>>,
    pub tilejson: TileJsonView,
    pub json: Option<Seq<char>>,
}

impl View for Metadata {
    type V = MetadataView;

    open spec fn view(&self) -> MetadataView {
        MetadataView {
            id: self.id@,
            tile_info: self.tile_info,
            layer_type: opt_view(self.layer_type),
            tilejson: self.tilejson@,
            json: opt_view(self.json),
        }
    }
}

impl Metadata {
    /// The metadata of an archive, known by the name of the archive: what
    /// its metadata table says, and what its tiles were found to hold.
    pub fn of(
        mbt: &Mbtiles,
        tilejson: TileJson,
        layer_type: Option<String>,
        json: Option<String>,
        tile_info: TileInfo,
    ) -> (metadata: Metadata)
        ensures
            metadata@ == (MetadataView {
                id: mbt.spec_filename(),
                tile_info,
                layer_type: opt_view(layer_type),
                tilejson: tilejson@,
                json: opt_view(json),
            }),
    {
        Metadata { id: mbt.filename().to_owned(), tile_info, layer_type, tilejson, json }
    }
}

/// Puts the vector layers that were read from the JSON sidecar into the
/// document. Where none were read the document keeps what it has.
pub fn with_vector_layers(fields: MetadataFields, layers: Option<Vec<VectorLayer>>) -> (parsed: (
    TileJson,
    Option<String>,
))
    ensures
        parsed.0@ == (TileJsonView {
            vector_layers: if layers is Some {
                opt_layer_views(layers)
            } else {
                fields@.tilejson.vector_layers
            },
            ..fields@.tilejson
        }),
        opt_view(parsed.1) == fields@.layer_type,
{
    let mut tilejson = fields.tilejson;
    if layers.is_some() {
        tilejson.vector_layers = layers;
    }
    (tilejson, fields.layer_type)
}

/// What is made of the value of the row `json`: the member
/// `vector_layers` as JSON text, where the value is a JSON object that has
/// it, and the rest as JSON text. `None` where there is no such row or its
/// value is no JSON text.
pub open spec fn spec_split_json(json_text: Option<Seq<char>>) -> Option<
    (Option<Seq<char>>, Seq<char>),
> {
    match json_text {
        Some(text) => json_without_member(text, "vector_layers"@),
        None => None,
    }
}

/// The JSON sidecar: the value of the row `json` without its member
/// `vector_layers`, as JSON text.
pub open spec fn spec_sidecar(json_text: Option<Seq<char>>) -> Option<Seq<char>> {
    match spec_split_json(json_text) {
        Some(parts) => Some(parts.1),
        None => None,
    }
}

/// The vector layers: what the member `vector_layers` of the value of the
/// row `json` lists, where it lists layers.
pub open spec fn spec_json_layers(json_text: Option<Seq<char>>) -> Option<Seq<VectorLayerView>> {
    match spec_split_json(json_text) {
        Some((Some(member), _)) => layers_of_json_text(member),
        _ => None,
    }
}

/// What the rows of a metadata table say in all: the fields of the rows,
/// with the vector layers of the JSON sidecar put into the document.
pub open spec fn spec_parse_metadata(rows: Seq<(Seq<char>, Seq<char>)>) -> (
    TileJsonView,
    Option<Seq<char>>,
    Option<Seq<char>>,
) {
    let fields = spec_parse_rows(rows);
    (
        TileJsonView { vector_layers: spec_json_layers(fields.json_text), ..fields.tilejson },
        fields.layer_type,
        spec_sidecar(fields.json_text),
    )
}

/// Reads the rows of a metadata table into a TileJSON document, a layer
/// type and a JSON sidecar. The vector layers are taken out of the sidecar
/// and put into the document; a sidecar or a list of layers that cannot be
/// read is left out.
pub fn parse_metadata(rows: &Vec<(String, String)>) -> (parsed: (
    TileJson,
    Option<String>,
    Option<String>,
))
    ensures
        (parsed.0@, opt_view(parsed.1), opt_view(parsed.2)) == spec_parse_metadata(pair_views(rows@)),
{
    let fields = MetadataFields::from_rows(rows);
    proof {
        lemma_rows_keep_frame(pair_views(rows@));
    }
    let split: Option<(Option<String>, String)> = match &fields.json_text {
        Some(text) => take_member(text.as_str(), "vector_layers"),
        None => None,
    };
    let (member, json): (Option<String>, Option<String>) = match split {
        Some((member, rest)) => (member, Some(rest)),
        None => (None, None),
    };
    let parts: Option<Vec<LayerParts>> = match &member {
        Some(text) => parse_layers(text.as_str()),
        None => None,
    };
    let layers: Option<Vec<VectorLayer>> = match parts {
        Some(list) => Some(VectorLayer::from_parts_list(list)),
        None => None,
    };
    let (tilejson, layer_type) = with_vector_layers(fields, layers);
    (tilejson, layer_type, json)
}

/// Two readings of the same rows give the same document, the same layer
/// type and the same sidecar.
pub proof fn lemma_metadata_is_a_function_of_rows(
    first: Seq<(Seq<char>, Seq<char>)>,
    second: Seq<(Seq<char>, Seq<char>)>,
)
    requires
        first =~= second,
    ensures
        spec_parse_metadata(first) == spec_parse_metadata(second),
{
}

} // verus!
