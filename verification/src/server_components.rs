//! The components a server keeps that carry numbers with a fraction: its
//! entities, materials and geometries, and the form in which it announces them.
//!
//! Each such number is held as the IEEE-754 bit pattern of a double, the form
//! in which [`CborValue::Float`] carries it.
use vstd::prelude::*;
use crate::nooid::NooID;
use crate::value::{CborValue, ValueModel, pair_models_of, models_of};
use crate::value_tools::CBORTransform;
use crate::table::{push_pair, opt_pair, opt_seq};
use crate::types::Format;
use crate::common::ServerMessages;
use crate::components::{
    AttributeSemantic, PrimitiveType, GeometryIndex, ComponentMessageIDs, DeltaPatch, UpdatableWith, override_with, override_field,
    url_parses, url_serialization, parse_url,
};
use crate::component_codec::{FieldWriter, opt_text, opt_text_pair, push_opt_text};
use crate::message_codec::{opt_id_pair, opt_ids_pair, push_opt_id, push_opt_ids};
use crate::state_codec::{opt_model, push_opt_value, u64_value};

verus! {

/// A list of numbers as CBOR floats.
pub open spec fn floats_model(s: Seq<u64>) -> ValueModel {
    ValueModel::Array(s.map_values(|x: u64| ValueModel::Float(x)))
}

pub(crate) fn floats_value(s: &[u64]) -> (r: CborValue)
    ensures
        r@ == floats_model(s@),
{
    let mut out: Vec<CborValue> = Vec::new();
    let mut i: usize = 0;
    while i < s.len()
        invariant
            i <= s@.len(),
            out@.len() == i,
            forall|j: int| 0 <= j < i ==> (#[trigger] out@[j])@ == ValueModel::Float(s@[j]),
        decreases s.len() - i,
    {
        out.push(CborValue::Float(s[i]));
        i = i + 1;
    }
    proof {
        crate::value::lemma_models_of_ext(out@, s@.map_values(|x: u64| ValueModel::Float(x)));
    }
    CborValue::Array(out)
}

fn opt_floats_value(o: &Option<Vec<u64>>) -> (r: Option<CborValue>)
    ensures
        opt_model(r) == match *o { Some(v) => Some(floats_model(v@)), None => None },
{
    match o {
        Some(v) => Some(floats_value(v.as_slice())),
        None => None,
    }
}

fn opt_float_value(o: Option<u64>) -> (r: Option<CborValue>)
    ensures
        opt_model(r) == match o { Some(x) => Some(ValueModel::Float(x)), None => None },
{
    match o {
        Some(x) => Some(CborValue::Float(x)),
        None => None,
    }
}

fn opt_u32_value(o: Option<u32>) -> (r: Option<CborValue>)
    ensures
        opt_model(r) == match o { Some(x) => Some(ValueModel::Integer(x as int)), None => None },
{
    match o {
        Some(x) => Some(CborValue::Integer(x as i128)),
        None => None,
    }
}

fn opt_bool_value(o: Option<bool>) -> (r: Option<CborValue>)
    ensures
        opt_model(r) == match o { Some(b) => Some(ValueModel::Bool(b)), None => None },
{
    match o {
        Some(b) => Some(CborValue::Bool(b)),
        None => None,
    }
}

/// A list of structures, each written as the map of its fields.
pub open spec fn dicts_model<T: FieldWriter>(s: Seq<T::V>) -> ValueModel {
    ValueModel::Array(s.map_values(|m: T::V| ValueModel::Dict(T::fields_spec(m))))
}

pub(crate) fn dicts_value<T: FieldWriter>(v: &Vec<T>) -> (r: CborValue)
    ensures
        r@ == dicts_model::<T>(v.deep_view()),
{
    let mut out: Vec<CborValue> = Vec::new();
    let mut i: usize = 0;
    while i < v.len()
        invariant
            i <= v@.len(),
            out@.len() == i,
            forall|j: int| 0 <= j < i ==> (#[trigger] out@[j])@ == ValueModel::Dict(T::fields_spec(v@[j].deep_view())),
        decreases v.len() - i,
    {
        let mut fields: Vec<(CborValue, CborValue)> = Vec::new();
        v[i].write_fields(&mut fields);
        assert(pair_models_of(Seq::<(CborValue, CborValue)>::empty()) =~= Seq::<(ValueModel, ValueModel)>::empty());
        assert(pair_models_of(fields@) =~= T::fields_spec(v@[i as int].deep_view()));
        out.push(CborValue::Dict(fields));
        i = i + 1;
    }
    proof {
        let target = v.deep_view().map_values(|m: T::V| ValueModel::Dict(T::fields_spec(m)));
        assert forall|j: int| 0 <= j < out@.len() implies crate::value::model_of(#[trigger] out@[j]) == target[j] by {
            assert(v.deep_view()[j] == v@[j].deep_view());
        }
        crate::value::lemma_models_of_ext(out@, target);
    }
    CborValue::Array(out)
}

// =============================================================================

/// A box in space, by its smallest and largest corner.
#[derive(Debug)]
pub struct BoundingBox {
    pub min: [u64; 3],
    pub max: [u64; 3],
}

/// The model of a [`BoundingBox`].
pub struct BoundingBoxModel {
    pub min: Seq<u64>,
    pub max: Seq<u64>,
}

impl DeepView for BoundingBox {
    type V = BoundingBoxModel;

    open spec fn deep_view(&self) -> BoundingBoxModel {
        BoundingBoxModel { min: self.min@, max: self.max@ }
    }
}

impl FieldWriter for BoundingBox {
    open spec fn fields_spec(m: BoundingBoxModel) -> Seq<(ValueModel, ValueModel)> {
        seq![(ValueModel::Text("min"@), floats_model(m.min)), (ValueModel::Text("max"@), floats_model(m.max))]
    }

    fn write_fields(&self, out: &mut Vec<(CborValue, CborValue)>) {
        let ghost start = pair_models_of(out@);
        push_pair(out, "min", floats_value(&self.min));
        push_pair(out, "max", floats_value(&self.max));
        assert(pair_models_of(out@) =~= start + Self::fields_spec(self.deep_view()));
    }
}

/// The map of an optional structure's fields.
pub open spec fn opt_dict<T: FieldWriter>(o: Option<T::V>) -> Option<ValueModel> {
    match o {
        Some(m) => Some(ValueModel::Dict(T::fields_spec(m))),
        None => None,
    }
}

/// The model of an optional structure.
pub open spec fn opt_deep<T: DeepView>(o: Option<T>) -> Option<T::V> {
    match o {
        Some(x) => Some(x.deep_view()),
        None => None,
    }
}

pub(crate) fn opt_dict_value<T: FieldWriter>(o: &Option<T>) -> (r: Option<CborValue>)
    ensures
        opt_model(r) == opt_dict::<T>(opt_deep(*o)),
{
    match o {
        Some(x) => {
            let mut fields: Vec<(CborValue, CborValue)> = Vec::new();
            x.write_fields(&mut fields);
            assert(pair_models_of(Seq::<(CborValue, CborValue)>::empty()) =~= Seq::<(ValueModel, ValueModel)>::empty());
            assert(pair_models_of(fields@) =~= T::fields_spec(x.deep_view()));
            Some(CborValue::Dict(fields))
        },
        None => None,
    }
}

// =============================================================================

/// An entity shown as text.
#[derive(Debug)]
pub struct TextRepresentation {
    pub txt: String,
    pub font: Option<String>,
    pub height: Option<u64>,
    pub width: Option<u64>,
}

/// The model of a [`TextRepresentation`].
pub struct TextRepresentationModel {
    pub txt: Seq<char>,
    pub font: Option<Seq<char>>,
    pub height: Option<u64>,
    pub width: Option<u64>,
}

impl DeepView for TextRepresentation {
    type V = TextRepresentationModel;

    open spec fn deep_view(&self) -> TextRepresentationModel {
        TextRepresentationModel { txt: self.txt@, font: opt_text(self.font), height: self.height, width: self.width }
    }
}

/// The pair of an optional number with a fraction.
pub open spec fn opt_float_pair(key: Seq<char>, o: Option<u64>) -> Seq<(ValueModel, ValueModel)> {
    opt_pair(key, match o { Some(x) => Some(ValueModel::Float(x)), None => None })
}

impl FieldWriter for TextRepresentation {
    open spec fn fields_spec(m: TextRepresentationModel) -> Seq<(ValueModel, ValueModel)> {
        seq![(ValueModel::Text("txt"@), ValueModel::Text(m.txt))]
        + opt_text_pair("font"@, m.font)
        + opt_float_pair("height"@, m.height)
        + opt_float_pair("width"@, m.width)
    }

    fn write_fields(&self, out: &mut Vec<(CborValue, CborValue)>) {
        let ghost start = pair_models_of(out@);
        push_pair(out, "txt", CborValue::Text(self.txt.clone()));
        push_opt_text(out, "font", &self.font);
        push_opt_value(out, "height", opt_float_value(self.height));
        push_opt_value(out, "width", opt_float_value(self.width));
        assert(pair_models_of(out@) =~= start + Self::fields_spec(self.deep_view()));
    }
}

/// An entity shown as a web page.
#[derive(Debug)]
pub struct WebRepresentation {
    /// The serialization of the page's URL.
    pub source: String,
    pub height: Option<u64>,
    pub width: Option<u64>,
}

/// The model of a [`WebRepresentation`].
pub struct WebRepresentationModel {
    pub source: Seq<char>,
    pub height: Option<u64>,
    pub width: Option<u64>,
}

impl DeepView for WebRepresentation {
    type V = WebRepresentationModel;

    open spec fn deep_view(&self) -> WebRepresentationModel {
        WebRepresentationModel { source: self.source@, height: self.height, width: self.width }
    }
}

impl WebRepresentation {
    /// A page at a URL, with no size given.
    pub fn new(url: &str) -> (r: Self)
        requires
            url_parses(url@),
        ensures
            r.source@ == url_serialization(url@),
            r.height is None,
            r.width is None,
    {
        let u = parse_url(url);
        WebRepresentation { source: u.unwrap(), height: None, width: None }
    }

    /// A page at a URL, with no size given, if the text is an absolute URL.
    pub fn try_new(url: &str) -> (r: Option<Self>)
        ensures
            r is Some == url_parses(url@),
            r matches Some(w) ==> (w.source@ == url_serialization(url@) && w.height is None && w.width is None),
    {
        match parse_url(url) {
            Some(u) => Some(WebRepresentation { source: u, height: None, width: None }),
            None => None,
        }
    }
}

impl FieldWriter for WebRepresentation {
    open spec fn fields_spec(m: WebRepresentationModel) -> Seq<(ValueModel, ValueModel)> {
        seq![(ValueModel::Text("source"@), ValueModel::Text(m.source))]
        + opt_float_pair("height"@, m.height)
        + opt_float_pair("width"@, m.width)
    }

    fn write_fields(&self, out: &mut Vec<(CborValue, CborValue)>) {
        let ghost start = pair_models_of(out@);
        push_pair(out, "source", CborValue::Text(self.source.clone()));
        push_opt_value(out, "height", opt_float_value(self.height));
        push_opt_value(out, "width", opt_float_value(self.width));
        assert(pair_models_of(out@) =~= start + Self::fields_spec(self.deep_view()));
    }
}

/// Where the instances of a rendered entity are read from.
#[derive(Debug)]
pub struct InstanceSource {
    pub view: NooID,
    pub stride: Option<u64>,
    pub bb: Option<BoundingBox>,
}

/// The model of an [`InstanceSource`].
pub struct InstanceSourceModel {
    pub view: NooID,
    pub stride: Option<u64>,
    pub bb: Option<BoundingBoxModel>,
}

impl DeepView for InstanceSource {
    type V = InstanceSourceModel;

    open spec fn deep_view(&self) -> InstanceSourceModel {
        InstanceSourceModel { view: self.view, stride: self.stride, bb: opt_deep(self.bb) }
    }
}

impl FieldWriter for InstanceSource {
    open spec fn fields_spec(m: InstanceSourceModel) -> Seq<(ValueModel, ValueModel)> {
        seq![(ValueModel::Text("view"@), m.view.spec_to_value())]
        + opt_pair("stride"@, match m.stride { Some(x) => Some(ValueModel::Integer(x as int)), None => None })
        + opt_pair("bb"@, opt_dict::<BoundingBox>(m.bb))
    }

    fn write_fields(&self, out: &mut Vec<(CborValue, CborValue)>) {
        let ghost start = pair_models_of(out@);
        push_pair(out, "view", self.view.to_value());
        let stride = match self.stride {
            Some(x) => Some(u64_value(x)),
            None => None,
        };
        push_opt_value(out, "stride", stride);
        push_opt_value(out, "bb", opt_dict_value(&self.bb));
        assert(pair_models_of(out@) =~= start + Self::fields_spec(self.deep_view()));
    }
}

/// An entity shown as a mesh, possibly many times over.
#[derive(Debug)]
pub struct RenderRepresentation {
    pub mesh: NooID,
    pub instances: Option<InstanceSource>,
}

/// The model of a [`RenderRepresentation`].
pub struct RenderRepresentationModel {
    pub mesh: NooID,
    pub instances: Option<InstanceSourceModel>,
}

impl DeepView for RenderRepresentation {
    type V = RenderRepresentationModel;

    open spec fn deep_view(&self) -> RenderRepresentationModel {
        RenderRepresentationModel { mesh: self.mesh, instances: opt_deep(self.instances) }
    }
}

impl FieldWriter for RenderRepresentation {
    open spec fn fields_spec(m: RenderRepresentationModel) -> Seq<(ValueModel, ValueModel)> {
        seq![(ValueModel::Text("mesh"@), m.mesh.spec_to_value())]
        + opt_pair("instances"@, opt_dict::<InstanceSource>(m.instances))
    }

    fn write_fields(&self, out: &mut Vec<(CborValue, CborValue)>) {
        let ghost start = pair_models_of(out@);
        push_pair(out, "mesh", self.mesh.to_value());
        push_opt_value(out, "instances", opt_dict_value(&self.instances));
        assert(pair_models_of(out@) =~= start + Self::fields_spec(self.deep_view()));
    }
}

/// How an entity is shown: nothing, text, a web page or a mesh.
#[derive(Debug)]
pub enum EntityRepresentation {
    Null,
    Text(TextRepresentation),
    Web(WebRepresentation),
    Render(RenderRepresentation),
}

/// The model of an [`EntityRepresentation`].
pub enum EntityRepresentationModel {
    Null,
    Text(TextRepresentationModel),
    Web(WebRepresentationModel),
    Render(RenderRepresentationModel),
}

impl DeepView for EntityRepresentation {
    type V = EntityRepresentationModel;

    open spec fn deep_view(&self) -> EntityRepresentationModel {
        match self {
            EntityRepresentation::Null => EntityRepresentationModel::Null,
            EntityRepresentation::Text(t) => EntityRepresentationModel::Text(t.deep_view()),
            EntityRepresentation::Web(w) => EntityRepresentationModel::Web(w.deep_view()),
            EntityRepresentation::Render(r) => EntityRepresentationModel::Render(r.deep_view()),
        }
    }
}

impl EntityRepresentation {
    /// A representation that shows nothing.
    pub fn new_null() -> (r: Self)
        ensures
            r is Null,
    {
        EntityRepresentation::Null
    }

    /// A representation as text.
    pub fn new_text(t: TextRepresentation) -> (r: Self)
        ensures
            r == EntityRepresentation::Text(t),
    {
        EntityRepresentation::Text(t)
    }

    /// A representation as a web page.
    pub fn new_web(w: WebRepresentation) -> (r: Self)
        ensures
            r == EntityRepresentation::Web(w),
    {
        EntityRepresentation::Web(w)
    }

    /// A representation as a mesh.
    pub fn new_render(r: RenderRepresentation) -> (e: Self)
        ensures
            e == EntityRepresentation::Render(r),
    {
        EntityRepresentation::Render(r)
    }
}

impl FieldWriter for EntityRepresentation {
    /// A representation is written as the one field that names its kind.
    open spec fn fields_spec(m: EntityRepresentationModel) -> Seq<(ValueModel, ValueModel)> {
        match m {
            EntityRepresentationModel::Null => seq![(ValueModel::Text("null_rep"@), ValueModel::Null)],
            EntityRepresentationModel::Text(t) => seq![
                (ValueModel::Text("text_rep"@), ValueModel::Dict(TextRepresentation::fields_spec(t))),
            ],
            EntityRepresentationModel::Web(w) => seq![
                (ValueModel::Text("web_rep"@), ValueModel::Dict(WebRepresentation::fields_spec(w))),
            ],
            EntityRepresentationModel::Render(r) => seq![
                (ValueModel::Text("render_rep"@), ValueModel::Dict(RenderRepresentation::fields_spec(r))),
            ],
        }
    }

    fn write_fields(&self, out: &mut Vec<(CborValue, CborValue)>) {
        let ghost start = pair_models_of(out@);
        let mut inner: Vec<(CborValue, CborValue)> = Vec::new();
        assert(pair_models_of(inner@) =~= Seq::<(ValueModel, ValueModel)>::empty());
        match self {
            EntityRepresentation::Null => push_pair(out, "null_rep", CborValue::Null),
            EntityRepresentation::Text(t) => {
                t.write_fields(&mut inner);
                assert(pair_models_of(inner@) =~= TextRepresentation::fields_spec(t.deep_view()));
                push_pair(out, "text_rep", CborValue::Dict(inner));
            },
            EntityRepresentation::Web(w) => {
                w.write_fields(&mut inner);
                assert(pair_models_of(inner@) =~= WebRepresentation::fields_spec(w.deep_view()));
                push_pair(out, "web_rep", CborValue::Dict(inner));
            },
            EntityRepresentation::Render(r) => {
                r.write_fields(&mut inner);
                assert(pair_models_of(inner@) =~= RenderRepresentation::fields_spec(r.deep_view()));
                push_pair(out, "render_rep", CborValue::Dict(inner));
            },
        }
        assert(pair_models_of(out@) =~= start + Self::fields_spec(self.deep_view()));
    }
}

// =============================================================================

/// The part of an entity that can be updated.
#[derive(Debug, Default)]
pub struct ServerEntityStateUpdatable {
    pub parent: Option<NooID>,
    /// A column-major 4 by 4 matrix.
    pub transform: Option<[u64; 16]>,
    pub representation: Option<EntityRepresentation>,
    pub lights: Option<Vec<NooID>>,
    pub tables: Option<Vec<NooID>>,
    pub plots: Option<Vec<NooID>>,
    pub tags: Option<Vec<String>>,
    pub methods_list: Option<Vec<NooID>>,
    pub signals_list: Option<Vec<NooID>>,
    pub influence: Option<BoundingBox>,
    pub visible: Option<bool>,
}

/// The model of a [`ServerEntityStateUpdatable`].
pub struct ServerEntityStateUpdatableModel {
    pub parent: Option<NooID>,
    pub transform: Option<Seq<u64>>,
    pub representation: Option<EntityRepresentationModel>,
    pub lights: Option<Seq<NooID>>,
    pub tables: Option<Seq<NooID>>,
    pub plots: Option<Seq<NooID>>,
    pub tags: Option<Seq<Seq<char>>>,
    pub methods_list: Option<Seq<NooID>>,
    pub signals_list: Option<Seq<NooID>>,
    pub influence: Option<BoundingBoxModel>,
    pub visible: Option<bool>,
}

impl DeepView for ServerEntityStateUpdatable {
    type V = ServerEntityStateUpdatableModel;

    open spec fn deep_view(&self) -> ServerEntityStateUpdatableModel {
        ServerEntityStateUpdatableModel {
            parent: self.parent,
            transform: match self.transform { Some(t) => Some(t@), None => None },
            representation: opt_deep(self.representation),
            lights: opt_seq(self.lights),
            tables: opt_seq(self.tables),
            plots: opt_seq(self.plots),
            tags: opt_seq(self.tags),
            methods_list: opt_seq(self.methods_list),
            signals_list: opt_seq(self.signals_list),
            influence: opt_deep(self.influence),
            visible: self.visible,
        }
    }
}

/// The fields a representation adds, when there is one.
pub open spec fn opt_fields<T: FieldWriter>(o: Option<T::V>) -> Seq<(ValueModel, ValueModel)> {
    match o {
        Some(m) => T::fields_spec(m),
        None => Seq::empty(),
    }
}

fn push_opt_fields<T: FieldWriter>(out: &mut Vec<(CborValue, CborValue)>, o: &Option<T>)
    ensures
        pair_models_of(final(out)@) == pair_models_of(old(out)@) + opt_fields::<T>(opt_deep(*o)),
{
    match o {
        Some(x) => x.write_fields(out),
        None => {},
    }
    assert(pair_models_of(out@) =~= pair_models_of(old(out)@) + opt_fields::<T>(opt_deep(*o)));
}

fn opt_strings_value(o: &Option<Vec<String>>) -> (r: Option<CborValue>)
    ensures
        opt_model(r) == match opt_seq(*o) { Some(s) => Some(<Vec<String> as CBORTransform>::encode_spec(s)), None => None },
{
    match o {
        Some(v) => Some(v.to_cbor()),
        None => None,
    }
}

impl FieldWriter for ServerEntityStateUpdatable {
    /// The fields in the order they are written; a representation stands
    /// among them as its one field.
    open spec fn fields_spec(m: ServerEntityStateUpdatableModel) -> Seq<(ValueModel, ValueModel)> {
        entity_placement_fields(m) + entity_relation_fields(m)
    }

    fn write_fields(&self, out: &mut Vec<(CborValue, CborValue)>) {
        let ghost start = pair_models_of(out@);
        self.write_placement(out);
        self.write_relations(out);
        proof {
            let m = self.deep_view();
            vstd::seq_lib::lemma_concat_associative(start, entity_placement_fields(m), entity_relation_fields(m));
        }
    }
}

/// The first fields of an entity: where it hangs, where it is and how it is shown.
pub open spec fn entity_placement_fields(m: ServerEntityStateUpdatableModel) -> Seq<(ValueModel, ValueModel)> {
    opt_id_pair("parent"@, m.parent)
    + opt_pair("transform"@, match m.transform { Some(t) => Some(floats_model(t)), None => None })
    + opt_fields::<EntityRepresentation>(m.representation)
}

/// The fields of an entity that name what it refers to, and its tags.
pub open spec fn entity_link_fields(m: ServerEntityStateUpdatableModel) -> Seq<(ValueModel, ValueModel)> {
    opt_ids_pair("lights"@, m.lights)
    + opt_ids_pair("tables"@, m.tables)
    + opt_ids_pair("plots"@, m.plots)
    + opt_pair("tags"@, match m.tags { Some(s) => Some(<Vec<String> as CBORTransform>::encode_spec(s)), None => None })
}

/// The last fields of an entity: its methods and signals, its extent and
/// whether it is visible.
pub open spec fn entity_interface_fields(m: ServerEntityStateUpdatableModel) -> Seq<(ValueModel, ValueModel)> {
    opt_ids_pair("methods_list"@, m.methods_list)
    + opt_ids_pair("signals_list"@, m.signals_list)
    + opt_pair("influence"@, opt_dict::<BoundingBox>(m.influence))
    + opt_pair("visible"@, match m.visible { Some(b) => Some(ValueModel::Bool(b)), None => None })
}

/// The fields of an entity after its placement.
pub open spec fn entity_relation_fields(m: ServerEntityStateUpdatableModel) -> Seq<(ValueModel, ValueModel)> {
    entity_link_fields(m) + entity_interface_fields(m)
}

impl ServerEntityStateUpdatable {
    fn write_placement(&self, out: &mut Vec<(CborValue, CborValue)>)
        ensures
            pair_models_of(final(out)@) == pair_models_of(old(out)@) + entity_placement_fields(self.deep_view()),
    {
        let ghost start = pair_models_of(out@);
        push_opt_id(out, "parent", &self.parent);
        let transform = match &self.transform {
            Some(t) => Some(floats_value(t)),
            None => None,
        };
        push_opt_value(out, "transform", transform);
        push_opt_fields(out, &self.representation);
        assert(pair_models_of(out@) =~= start + entity_placement_fields(self.deep_view()));
    }

    fn write_relations(&self, out: &mut Vec<(CborValue, CborValue)>)
        ensures
            pair_models_of(final(out)@) == pair_models_of(old(out)@) + entity_relation_fields(self.deep_view()),
    {
        let ghost start = pair_models_of(out@);
        self.write_links(out);
        self.write_interface(out);
        assert(pair_models_of(out@) =~= start + entity_relation_fields(self.deep_view()));
    }

    fn write_links(&self, out: &mut Vec<(CborValue, CborValue)>)
        ensures
            pair_models_of(final(out)@) == pair_models_of(old(out)@) + entity_link_fields(self.deep_view()),
    {
        let ghost start = pair_models_of(out@);
        push_opt_ids(out, "lights", &self.lights);
        push_opt_ids(out, "tables", &self.tables);
        push_opt_ids(out, "plots", &self.plots);
        push_opt_value(out, "tags", opt_strings_value(&self.tags));
        assert(pair_models_of(out@) =~= start + entity_link_fields(self.deep_view()));
    }

    fn write_interface(&self, out: &mut Vec<(CborValue, CborValue)>)
        ensures
            pair_models_of(final(out)@) == pair_models_of(old(out)@) + entity_interface_fields(self.deep_view()),
    {
        let ghost start = pair_models_of(out@);
        push_opt_ids(out, "methods_list", &self.methods_list);
        push_opt_ids(out, "signals_list", &self.signals_list);
        push_opt_value(out, "influence", opt_dict_value(&self.influence));
        push_opt_value(out, "visible", opt_bool_value(self.visible));
        assert(pair_models_of(out@) =~= start + entity_interface_fields(self.deep_view()));
    }
}

impl DeltaPatch for ServerEntityStateUpdatable {
    open spec fn patched(self, other: Self) -> Self {
        ServerEntityStateUpdatable {
            parent: override_with(self.parent, other.parent),
            transform: override_with(self.transform, other.transform),
            representation: override_with(self.representation, other.representation),
            lights: override_with(self.lights, other.lights),
            tables: override_with(self.tables, other.tables),
            plots: override_with(self.plots, other.plots),
            tags: override_with(self.tags, other.tags),
            methods_list: override_with(self.methods_list, other.methods_list),
            signals_list: override_with(self.signals_list, other.signals_list),
            influence: override_with(self.influence, other.influence),
            visible: override_with(self.visible, other.visible),
        }
    }

    fn patch(&mut self, other: Self) {
        override_field(&mut self.parent, other.parent);
        override_field(&mut self.transform, other.transform);
        override_field(&mut self.representation, other.representation);
        override_field(&mut self.lights, other.lights);
        override_field(&mut self.tables, other.tables);
        override_field(&mut self.plots, other.plots);
        override_field(&mut self.tags, other.tags);
        override_field(&mut self.methods_list, other.methods_list);
        override_field(&mut self.signals_list, other.signals_list);
        override_field(&mut self.influence, other.influence);
        override_field(&mut self.visible, other.visible);
    }

    proof fn lemma_patch_idempotent(a: Self, b: Self) {
    }
}

/// The state of an entity a server keeps.
#[derive(Debug, Default)]
pub struct ServerEntityState {
    pub name: Option<String>,
    pub mutable: ServerEntityStateUpdatable,
}

/// The model of a [`ServerEntityState`].
pub struct ServerEntityStateModel {
    pub name: Option<Seq<char>>,
    pub mutable: ServerEntityStateUpdatableModel,
}

impl DeepView for ServerEntityState {
    type V = ServerEntityStateModel;

    open spec fn deep_view(&self) -> ServerEntityStateModel {
        ServerEntityStateModel { name: opt_text(self.name), mutable: self.mutable.deep_view() }
    }
}

impl FieldWriter for ServerEntityState {
    open spec fn fields_spec(m: ServerEntityStateModel) -> Seq<(ValueModel, ValueModel)> {
        opt_text_pair("name"@, m.name) + ServerEntityStateUpdatable::fields_spec(m.mutable)
    }

    fn write_fields(&self, out: &mut Vec<(CborValue, CborValue)>) {
        let ghost start = pair_models_of(out@);
        push_opt_text(out, "name", &self.name);
        self.mutable.write_fields(out);
        assert(pair_models_of(out@) =~= start + Self::fields_spec(self.deep_view()));
    }
}

impl UpdatableWith for ServerEntityState {
    type Substate = ServerEntityStateUpdatable;

    open spec fn updated(self, s: ServerEntityStateUpdatable) -> Self {
        ServerEntityState { name: self.name, mutable: self.mutable.patched(s) }
    }

    fn update(&mut self, s: ServerEntityStateUpdatable) {
        self.mutable.patch(s);
    }
}

impl ComponentMessageIDs for ServerEntityState {
    open spec fn spec_create_id() -> ServerMessages {
        ServerMessages::MsgEntityCreate
    }

    open spec fn spec_update_id() -> ServerMessages {
        ServerMessages::MsgEntityUpdate
    }

    open spec fn spec_delete_id() -> ServerMessages {
        ServerMessages::MsgEntityDelete
    }

    fn update_message_id() -> (r: ServerMessages)
        ensures
            r == ServerMessages::MsgEntityUpdate,
    {
        ServerMessages::MsgEntityUpdate
    }

    fn create_message_id() -> (r: ServerMessages)
        ensures
            r == ServerMessages::MsgEntityCreate,
    {
        ServerMessages::MsgEntityCreate
    }

    fn delete_message_id() -> (r: ServerMessages)
        ensures
            r == ServerMessages::MsgEntityDelete,
    {
        ServerMessages::MsgEntityDelete
    }
}

// =============================================================================

/// A texture as a material uses it.
#[derive(Debug)]
pub struct TextureRef {
    pub texture: NooID,
    /// A column-major 3 by 3 matrix applied to texture coordinates.
    pub transform: Option<[u64; 9]>,
    pub texture_coord_slot: Option<u32>,
}

/// The model of a [`TextureRef`].
pub struct TextureRefModel {
    pub texture: NooID,
    pub transform: Option<Seq<u64>>,
    pub texture_coord_slot: Option<u32>,
}

impl DeepView for TextureRef {
    type V = TextureRefModel;

    open spec fn deep_view(&self) -> TextureRefModel {
        TextureRefModel {
            texture: self.texture,
            transform: match self.transform { Some(t) => Some(t@), None => None },
            texture_coord_slot: self.texture_coord_slot,
        }
    }
}

impl FieldWriter for TextureRef {
    open spec fn fields_spec(m: TextureRefModel) -> Seq<(ValueModel, ValueModel)> {
        seq![(ValueModel::Text("texture"@), m.texture.spec_to_value())]
        + opt_pair("transform"@, match m.transform { Some(t) => Some(floats_model(t)), None => None })
        + opt_pair("texture_coord_slot"@, match m.texture_coord_slot { Some(x) => Some(ValueModel::Integer(x as int)), None => None })
    }

    fn write_fields(&self, out: &mut Vec<(CborValue, CborValue)>) {
        let ghost start = pair_models_of(out@);
        push_pair(out, "texture", self.texture.to_value());
        let transform = match &self.transform {
            Some(t) => Some(floats_value(t)),
            None => None,
        };
        push_opt_value(out, "transform", transform);
        push_opt_value(out, "texture_coord_slot", opt_u32_value(self.texture_coord_slot));
        assert(pair_models_of(out@) =~= start + Self::fields_spec(self.deep_view()));
    }
}

/// The physically based look of a material.
#[derive(Debug)]
pub struct PBRInfo {
    /// Red, green, blue and alpha.
    pub base_color: [u64; 4],
    pub base_color_texture: Option<TextureRef>,
    pub metallic: Option<u64>,
    pub roughness: Option<u64>,
    pub metal_rough_texture: Option<TextureRef>,
}

/// The model of a [`PBRInfo`].
pub struct PBRInfoModel {
    pub base_color: Seq<u64>,
    pub base_color_texture: Option<TextureRefModel>,
    pub metallic: Option<u64>,
    pub roughness: Option<u64>,
    pub metal_rough_texture: Option<TextureRefModel>,
}

impl DeepView for PBRInfo {
    type V = PBRInfoModel;

    open spec fn deep_view(&self) -> PBRInfoModel {
        PBRInfoModel {
            base_color: self.base_color@,
            base_color_texture: opt_deep(self.base_color_texture),
            metallic: self.metallic,
            roughness: self.roughness,
            metal_rough_texture: opt_deep(self.metal_rough_texture),
        }
    }
}

impl FieldWriter for PBRInfo {
    open spec fn fields_spec(m: PBRInfoModel) -> Seq<(ValueModel, ValueModel)> {
        seq![(ValueModel::Text("base_color"@), floats_model(m.base_color))]
        + opt_pair("base_color_texture"@, opt_dict::<TextureRef>(m.base_color_texture))
        + opt_float_pair("metallic"@, m.metallic)
        + opt_float_pair("roughness"@, m.roughness)
        + opt_pair("metal_rough_texture"@, opt_dict::<TextureRef>(m.metal_rough_texture))
    }

    fn write_fields(&self, out: &mut Vec<(CborValue, CborValue)>) {
        let ghost start = pair_models_of(out@);
        push_pair(out, "base_color", floats_value(&self.base_color));
        push_opt_value(out, "base_color_texture", opt_dict_value(&self.base_color_texture));
        push_opt_value(out, "metallic", opt_float_value(self.metallic));
        push_opt_value(out, "roughness", opt_float_value(self.roughness));
        push_opt_value(out, "metal_rough_texture", opt_dict_value(&self.metal_rough_texture));
        assert(pair_models_of(out@) =~= start + Self::fields_spec(self.deep_view()));
    }
}

/// The part of a material that can be updated.
#[derive(Debug, Default)]
pub struct ServerMaterialStateUpdatable {
    pub pbr_info: Option<PBRInfo>,
    pub normal_texture: Option<TextureRef>,
    pub occlusion_texture: Option<TextureRef>,
    pub occlusion_texture_factor: Option<u64>,
    pub emissive_texture: Option<TextureRef>,
    /// Red, green and blue.
    pub emissive_factor: Option<[u64; 3]>,
    pub use_alpha: Option<bool>,
    pub alpha_cutoff: Option<u64>,
    pub double_sided: Option<bool>,
}

/// The model of a [`ServerMaterialStateUpdatable`].
pub struct ServerMaterialStateUpdatableModel {
    pub pbr_info: Option<PBRInfoModel>,
    pub normal_texture: Option<TextureRefModel>,
    pub occlusion_texture: Option<TextureRefModel>,
    pub occlusion_texture_factor: Option<u64>,
    pub emissive_texture: Option<TextureRefModel>,
    pub emissive_factor: Option<Seq<u64>>,
    pub use_alpha: Option<bool>,
    pub alpha_cutoff: Option<u64>,
    pub double_sided: Option<bool>,
}

impl DeepView for ServerMaterialStateUpdatable {
    type V = ServerMaterialStateUpdatableModel;

    open spec fn deep_view(&self) -> ServerMaterialStateUpdatableModel {
        ServerMaterialStateUpdatableModel {
            pbr_info: opt_deep(self.pbr_info),
            normal_texture: opt_deep(self.normal_texture),
            occlusion_texture: opt_deep(self.occlusion_texture),
            occlusion_texture_factor: self.occlusion_texture_factor,
            emissive_texture: opt_deep(self.emissive_texture),
            emissive_factor: match self.emissive_factor { Some(f) => Some(f@), None => None },
            use_alpha: self.use_alpha,
            alpha_cutoff: self.alpha_cutoff,
            double_sided: self.double_sided,
        }
    }
}

/// The fields of a material that name its textures.
pub open spec fn material_texture_fields(m: ServerMaterialStateUpdatableModel) -> Seq<(ValueModel, ValueModel)> {
    opt_pair("pbr_info"@, opt_dict::<PBRInfo>(m.pbr_info))
    + opt_pair("normal_texture"@, opt_dict::<TextureRef>(m.normal_texture))
    + opt_pair("occlusion_texture"@, opt_dict::<TextureRef>(m.occlusion_texture))
    + opt_float_pair("occlusion_texture_factor"@, m.occlusion_texture_factor)
}

/// The fields of a material after its textures.
pub open spec fn material_surface_fields(m: ServerMaterialStateUpdatableModel) -> Seq<(ValueModel, ValueModel)> {
    opt_pair("emissive_texture"@, opt_dict::<TextureRef>(m.emissive_texture))
    + opt_pair("emissive_factor"@, match m.emissive_factor { Some(f) => Some(floats_model(f)), None => None })
    + opt_pair("use_alpha"@, match m.use_alpha { Some(b) => Some(ValueModel::Bool(b)), None => None })
    + opt_float_pair("alpha_cutoff"@, m.alpha_cutoff)
    + opt_pair("double_sided"@, match m.double_sided { Some(b) => Some(ValueModel::Bool(b)), None => None })
}

impl ServerMaterialStateUpdatable {
    fn write_textures(&self, out: &mut Vec<(CborValue, CborValue)>)
        ensures
            pair_models_of(final(out)@) == pair_models_of(old(out)@) + material_texture_fields(self.deep_view()),
    {
        let ghost start = pair_models_of(out@);
        push_opt_value(out, "pbr_info", opt_dict_value(&self.pbr_info));
        push_opt_value(out, "normal_texture", opt_dict_value(&self.normal_texture));
        push_opt_value(out, "occlusion_texture", opt_dict_value(&self.occlusion_texture));
        push_opt_value(out, "occlusion_texture_factor", opt_float_value(self.occlusion_texture_factor));
        assert(pair_models_of(out@) =~= start + material_texture_fields(self.deep_view()));
    }

    fn write_surface(&self, out: &mut Vec<(CborValue, CborValue)>)
        ensures
            pair_models_of(final(out)@) == pair_models_of(old(out)@) + material_surface_fields(self.deep_view()),
    {
        let ghost start = pair_models_of(out@);
        push_opt_value(out, "emissive_texture", opt_dict_value(&self.emissive_texture));
        let factor = match &self.emissive_factor {
            Some(f) => Some(floats_value(f)),
            None => None,
        };
        push_opt_value(out, "emissive_factor", factor);
        push_opt_value(out, "use_alpha", opt_bool_value(self.use_alpha));
        push_opt_value(out, "alpha_cutoff", opt_float_value(self.alpha_cutoff));
        push_opt_value(out, "double_sided", opt_bool_value(self.double_sided));
        assert(pair_models_of(out@) =~= start + material_surface_fields(self.deep_view()));
    }
}

impl FieldWriter for ServerMaterialStateUpdatable {
    open spec fn fields_spec(m: ServerMaterialStateUpdatableModel) -> Seq<(ValueModel, ValueModel)> {
        material_texture_fields(m) + material_surface_fields(m)
    }

    fn write_fields(&self, out: &mut Vec<(CborValue, CborValue)>) {
        let ghost start = pair_models_of(out@);
        self.write_textures(out);
        self.write_surface(out);
        assert(pair_models_of(out@) =~= start + Self::fields_spec(self.deep_view()));
    }
}

impl DeltaPatch for ServerMaterialStateUpdatable {
    open spec fn patched(self, other: Self) -> Self {
        ServerMaterialStateUpdatable {
            pbr_info: override_with(self.pbr_info, other.pbr_info),
            normal_texture: override_with(self.normal_texture, other.normal_texture),
            occlusion_texture: override_with(self.occlusion_texture, other.occlusion_texture),
            occlusion_texture_factor: override_with(self.occlusion_texture_factor, other.occlusion_texture_factor),
            emissive_texture: override_with(self.emissive_texture, other.emissive_texture),
            emissive_factor: override_with(self.emissive_factor, other.emissive_factor),
            use_alpha: override_with(self.use_alpha, other.use_alpha),
            alpha_cutoff: override_with(self.alpha_cutoff, other.alpha_cutoff),
            double_sided: override_with(self.double_sided, other.double_sided),
        }
    }

    fn patch(&mut self, other: Self) {
        override_field(&mut self.pbr_info, other.pbr_info);
        override_field(&mut self.normal_texture, other.normal_texture);
        override_field(&mut self.occlusion_texture, other.occlusion_texture);
        override_field(&mut self.occlusion_texture_factor, other.occlusion_texture_factor);
        override_field(&mut self.emissive_texture, other.emissive_texture);
        override_field(&mut self.emissive_factor, other.emissive_factor);
        override_field(&mut self.use_alpha, other.use_alpha);
        override_field(&mut self.alpha_cutoff, other.alpha_cutoff);
        override_field(&mut self.double_sided, other.double_sided);
    }

    proof fn lemma_patch_idempotent(a: Self, b: Self) {
    }
}

/// The state of a material a server keeps.
#[derive(Debug, Default)]
pub struct ServerMaterialState {
    pub name: Option<String>,
    pub mutable: ServerMaterialStateUpdatable,
}

/// The model of a [`ServerMaterialState`].
pub struct ServerMaterialStateModel {
    pub name: Option<Seq<char>>,
    pub mutable: ServerMaterialStateUpdatableModel,
}

impl DeepView for ServerMaterialState {
    type V = ServerMaterialStateModel;

    open spec fn deep_view(&self) -> ServerMaterialStateModel {
        ServerMaterialStateModel { name: opt_text(self.name), mutable: self.mutable.deep_view() }
    }
}

impl FieldWriter for ServerMaterialState {
    open spec fn fields_spec(m: ServerMaterialStateModel) -> Seq<(ValueModel, ValueModel)> {
        opt_text_pair("name"@, m.name) + ServerMaterialStateUpdatable::fields_spec(m.mutable)
    }

    fn write_fields(&self, out: &mut Vec<(CborValue, CborValue)>) {
        let ghost start = pair_models_of(out@);
        push_opt_text(out, "name", &self.name);
        self.mutable.write_fields(out);
        assert(pair_models_of(out@) =~= start + Self::fields_spec(self.deep_view()));
    }
}

impl UpdatableWith for ServerMaterialState {
    type Substate = ServerMaterialStateUpdatable;

    open spec fn updated(self, s: ServerMaterialStateUpdatable) -> Self {
        ServerMaterialState { name: self.name, mutable: self.mutable.patched(s) }
    }

    fn update(&mut self, s: ServerMaterialStateUpdatable) {
        self.mutable.patch(s);
    }
}

impl ComponentMessageIDs for ServerMaterialState {
    open spec fn spec_create_id() -> ServerMessages {
        ServerMessages::MsgMaterialCreate
    }

    open spec fn spec_update_id() -> ServerMessages {
        ServerMessages::MsgMaterialUpdate
    }

    open spec fn spec_delete_id() -> ServerMessages {
        ServerMessages::MsgMaterialDelete
    }

    fn update_message_id() -> (r: ServerMessages)
        ensures
            r == ServerMessages::MsgMaterialUpdate,
    {
        ServerMessages::MsgMaterialUpdate
    }

    fn create_message_id() -> (r: ServerMessages)
        ensures
            r == ServerMessages::MsgMaterialCreate,
    {
        ServerMessages::MsgMaterialCreate
    }

    fn delete_message_id() -> (r: ServerMessages)
        ensures
            r == ServerMessages::MsgMaterialDelete,
    {
        ServerMessages::MsgMaterialDelete
    }
}

// =============================================================================

/// The text a format is written as.
pub open spec fn format_text(f: Format) -> Seq<char> {
    match f {
        Format::U8 => "U8"@,
        Format::U16 => "U16"@,
        Format::U32 => "U32"@,
        Format::U8VEC4 => "U8VEC4"@,
        Format::U16VEC2 => "U16VEC2"@,
        Format::VEC2 => "VEC2"@,
        Format::VEC3 => "VEC3"@,
        Format::VEC4 => "VEC4"@,
        Format::MAT3 => "MAT3"@,
        Format::MAT4 => "MAT4"@,
    }
}

fn format_value(f: Format) -> (r: CborValue)
    ensures
        r@ == ValueModel::Text(format_text(f)),
{
    let t = match f {
        Format::U8 => "U8",
        Format::U16 => "U16",
        Format::U32 => "U32",
        Format::U8VEC4 => "U8VEC4",
        Format::U16VEC2 => "U16VEC2",
        Format::VEC2 => "VEC2",
        Format::VEC3 => "VEC3",
        Format::VEC4 => "VEC4",
        Format::MAT3 => "MAT3",
        Format::MAT4 => "MAT4",
    };
    CborValue::Text(String::from_str(t))
}

/// The text an attribute's meaning is written as.
pub open spec fn semantic_text(s: AttributeSemantic) -> Seq<char> {
    match s {
        AttributeSemantic::Position => "POSITION"@,
        AttributeSemantic::Normal => "NORMAL"@,
        AttributeSemantic::Tangent => "TANGENT"@,
        AttributeSemantic::Texture => "TEXTURE"@,
        AttributeSemantic::Color => "COLOR"@,
    }
}

fn semantic_value(s: AttributeSemantic) -> (r: CborValue)
    ensures
        r@ == ValueModel::Text(semantic_text(s)),
{
    let t = match s {
        AttributeSemantic::Position => "POSITION",
        AttributeSemantic::Normal => "NORMAL",
        AttributeSemantic::Tangent => "TANGENT",
        AttributeSemantic::Texture => "TEXTURE",
        AttributeSemantic::Color => "COLOR",
    };
    CborValue::Text(String::from_str(t))
}

/// The text a primitive type is written as.
pub open spec fn primitive_text(p: PrimitiveType) -> Seq<char> {
    match p {
        PrimitiveType::Points => "POINTS"@,
        PrimitiveType::Lines => "LINES"@,
        PrimitiveType::LineLoop => "LINE_LOOP"@,
        PrimitiveType::LineStrip => "LINE_STRIP"@,
        PrimitiveType::Triangles => "TRIANGLES"@,
        PrimitiveType::TriangleStrip => "TRIANGLE_STRIP"@,
    }
}

fn primitive_value(p: PrimitiveType) -> (r: CborValue)
    ensures
        r@ == ValueModel::Text(primitive_text(p)),
{
    let t = match p {
        PrimitiveType::Points => "POINTS",
        PrimitiveType::Lines => "LINES",
        PrimitiveType::LineLoop => "LINE_LOOP",
        PrimitiveType::LineStrip => "LINE_STRIP",
        PrimitiveType::Triangles => "TRIANGLES",
        PrimitiveType::TriangleStrip => "TRIANGLE_STRIP",
    };
    CborValue::Text(String::from_str(t))
}

/// The pair of an optional count.
pub open spec fn opt_u32_pair(key: Seq<char>, o: Option<u32>) -> Seq<(ValueModel, ValueModel)> {
    opt_pair(key, match o { Some(x) => Some(ValueModel::Integer(x as int)), None => None })
}

/// One attribute of the vertices of a geometry patch.
#[derive(Debug)]
pub struct GeometryAttribute {
    pub view: NooID,
    pub semantic: AttributeSemantic,
    pub channel: Option<u32>,
    pub offset: Option<u32>,
    pub stride: Option<u32>,
    pub format: Format,
    pub minimum_value: Option<Vec<u64>>,
    pub maximum_value: Option<Vec<u64>>,
    pub normalized: Option<bool>,
}

/// The model of a [`GeometryAttribute`].
pub struct GeometryAttributeModel {
    pub view: NooID,
    pub semantic: AttributeSemantic,
    pub channel: Option<u32>,
    pub offset: Option<u32>,
    pub stride: Option<u32>,
    pub format: Format,
    pub minimum_value: Option<Seq<u64>>,
    pub maximum_value: Option<Seq<u64>>,
    pub normalized: Option<bool>,
}

impl DeepView for GeometryAttribute {
    type V = GeometryAttributeModel;

    open spec fn deep_view(&self) -> GeometryAttributeModel {
        GeometryAttributeModel {
            view: self.view,
            semantic: self.semantic,
            channel: self.channel,
            offset: self.offset,
            stride: self.stride,
            format: self.format,
            minimum_value: match self.minimum_value { Some(v) => Some(v@), None => None },
            maximum_value: match self.maximum_value { Some(v) => Some(v@), None => None },
            normalized: self.normalized,
        }
    }
}

/// The fields of an attribute that say where its values are.
pub open spec fn attribute_layout_fields(m: GeometryAttributeModel) -> Seq<(ValueModel, ValueModel)> {
    seq![
        (ValueModel::Text("view"@), m.view.spec_to_value()),
        (ValueModel::Text("semantic"@), ValueModel::Text(semantic_text(m.semantic))),
    ]
    + opt_u32_pair("channel"@, m.channel)
    + opt_u32_pair("offset"@, m.offset)
    + opt_u32_pair("stride"@, m.stride)
}

/// The fields of an attribute that say what its values are.
pub open spec fn attribute_value_fields(m: GeometryAttributeModel) -> Seq<(ValueModel, ValueModel)> {
    seq![(ValueModel::Text("format"@), ValueModel::Text(format_text(m.format)))]
    + opt_pair("minimum_value"@, match m.minimum_value { Some(v) => Some(floats_model(v)), None => None })
    + opt_pair("maximum_value"@, match m.maximum_value { Some(v) => Some(floats_model(v)), None => None })
    + opt_pair("normalized"@, match m.normalized { Some(b) => Some(ValueModel::Bool(b)), None => None })
}

impl GeometryAttribute {
    #[verifier::spinoff_prover]
    #[verifier::rlimit(40)]
    fn write_layout(&self, out: &mut Vec<(CborValue, CborValue)>)
        ensures
            pair_models_of(final(out)@) == pair_models_of(old(out)@) + attribute_layout_fields(self.deep_view()),
    {
        let ghost start = pair_models_of(out@);
        push_pair(out, "view", self.view.to_value());
        push_pair(out, "semantic", semantic_value(self.semantic));
        push_opt_value(out, "channel", opt_u32_value(self.channel));
        push_opt_value(out, "offset", opt_u32_value(self.offset));
        push_opt_value(out, "stride", opt_u32_value(self.stride));
        assert(pair_models_of(out@) =~= start + attribute_layout_fields(self.deep_view()));
    }

    #[verifier::spinoff_prover]
    #[verifier::rlimit(40)]
    fn write_values(&self, out: &mut Vec<(CborValue, CborValue)>)
        ensures
            pair_models_of(final(out)@) == pair_models_of(old(out)@) + attribute_value_fields(self.deep_view()),
    {
        let ghost start = pair_models_of(out@);
        push_pair(out, "format", format_value(self.format));
        push_opt_value(out, "minimum_value", opt_floats_value(&self.minimum_value));
        push_opt_value(out, "maximum_value", opt_floats_value(&self.maximum_value));
        push_opt_value(out, "normalized", opt_bool_value(self.normalized));
        assert(pair_models_of(out@) =~= start + attribute_value_fields(self.deep_view()));
    }
}

impl FieldWriter for GeometryAttribute {
    open spec fn fields_spec(m: GeometryAttributeModel) -> Seq<(ValueModel, ValueModel)> {
        attribute_layout_fields(m) + attribute_value_fields(m)
    }

    fn write_fields(&self, out: &mut Vec<(CborValue, CborValue)>) {
        let ghost start = pair_models_of(out@);
        self.write_layout(out);
        self.write_values(out);
        assert(pair_models_of(out@) =~= start + Self::fields_spec(self.deep_view()));
    }
}

/// The model of a [`GeometryIndex`].
pub struct GeometryIndexModel {
    pub view: NooID,
    pub count: u32,
    pub offset: Option<u32>,
    pub stride: Option<u32>,
    pub format: Format,
}

impl DeepView for GeometryIndex<NooID> {
    type V = GeometryIndexModel;

    open spec fn deep_view(&self) -> GeometryIndexModel {
        GeometryIndexModel { view: self.view, count: self.count, offset: self.offset, stride: self.stride, format: self.format }
    }
}

impl FieldWriter for GeometryIndex<NooID> {
    open spec fn fields_spec(m: GeometryIndexModel) -> Seq<(ValueModel, ValueModel)> {
        seq![
            (ValueModel::Text("view"@), m.view.spec_to_value()),
            (ValueModel::Text("count"@), ValueModel::Integer(m.count as int)),
        ]
        + opt_u32_pair("offset"@, m.offset)
        + opt_u32_pair("stride"@, m.stride)
        + seq![(ValueModel::Text("format"@), ValueModel::Text(format_text(m.format)))]
    }

    fn write_fields(&self, out: &mut Vec<(CborValue, CborValue)>) {
        let ghost start = pair_models_of(out@);
        push_pair(out, "view", self.view.to_value());
        push_pair(out, "count", CborValue::Integer(self.count as i128));
        push_opt_value(out, "offset", opt_u32_value(self.offset));
        push_opt_value(out, "stride", opt_u32_value(self.stride));
        push_pair(out, "format", format_value(self.format));
        assert(pair_models_of(out@) =~= start + Self::fields_spec(self.deep_view()));
    }
}

/// One part of a geometry, drawn with one material.
#[derive(Debug)]
pub struct GeometryPatch {
    pub attributes: Vec<GeometryAttribute>,
    pub vertex_count: u64,
    pub indices: Option<GeometryIndex<NooID>>,
    pub patch_type: PrimitiveType,
    pub material: NooID,
}

/// The model of a [`GeometryPatch`].
pub struct GeometryPatchModel {
    pub attributes: Seq<GeometryAttributeModel>,
    pub vertex_count: u64,
    pub indices: Option<GeometryIndexModel>,
    pub patch_type: PrimitiveType,
    pub material: NooID,
}

impl DeepView for GeometryPatch {
    type V = GeometryPatchModel;

    open spec fn deep_view(&self) -> GeometryPatchModel {
        GeometryPatchModel {
            attributes: self.attributes.deep_view(),
            vertex_count: self.vertex_count,
            indices: opt_deep(self.indices),
            patch_type: self.patch_type,
            material: self.material,
        }
    }
}

impl FieldWriter for GeometryPatch {
    open spec fn fields_spec(m: GeometryPatchModel) -> Seq<(ValueModel, ValueModel)> {
        seq![
            (ValueModel::Text("attributes"@), dicts_model::<GeometryAttribute>(m.attributes)),
            (ValueModel::Text("vertex_count"@), ValueModel::Integer(m.vertex_count as int)),
        ]
        + opt_pair("indices"@, opt_dict::<GeometryIndex<NooID>>(m.indices))
        + seq![
            (ValueModel::Text("type"@), ValueModel::Text(primitive_text(m.patch_type))),
            (ValueModel::Text("material"@), m.material.spec_to_value()),
        ]
    }

    fn write_fields(&self, out: &mut Vec<(CborValue, CborValue)>) {
        let ghost start = pair_models_of(out@);
        push_pair(out, "attributes", dicts_value(&self.attributes));
        push_pair(out, "vertex_count", u64_value(self.vertex_count));
        push_opt_value(out, "indices", opt_dict_value(&self.indices));
        push_pair(out, "type", primitive_value(self.patch_type));
        push_pair(out, "material", self.material.to_value());
        assert(pair_models_of(out@) =~= start + Self::fields_spec(self.deep_view()));
    }
}

/// The state of a geometry a server keeps.
#[derive(Debug, Default)]
pub struct ServerGeometryState {
    pub name: Option<String>,
    pub patches: Vec<GeometryPatch>,
}

/// The model of a [`ServerGeometryState`].
pub struct ServerGeometryStateModel {
    pub name: Option<Seq<char>>,
    pub patches: Seq<GeometryPatchModel>,
}

impl DeepView for ServerGeometryState {
    type V = ServerGeometryStateModel;

    open spec fn deep_view(&self) -> ServerGeometryStateModel {
        ServerGeometryStateModel { name: opt_text(self.name), patches: self.patches.deep_view() }
    }
}

impl FieldWriter for ServerGeometryState {
    open spec fn fields_spec(m: ServerGeometryStateModel) -> Seq<(ValueModel, ValueModel)> {
        opt_text_pair("name"@, m.name) + seq![(ValueModel::Text("patches"@), dicts_model::<GeometryPatch>(m.patches))]
    }

    fn write_fields(&self, out: &mut Vec<(CborValue, CborValue)>) {
        let ghost start = pair_models_of(out@);
        push_opt_text(out, "name", &self.name);
        push_pair(out, "patches", dicts_value(&self.patches));
        assert(pair_models_of(out@) =~= start + Self::fields_spec(self.deep_view()));
    }
}

impl ComponentMessageIDs for ServerGeometryState {
    open spec fn spec_create_id() -> ServerMessages {
        ServerMessages::MsgGeometryCreate
    }

    open spec fn spec_update_id() -> ServerMessages {
        ServerMessages::Unknown
    }

    open spec fn spec_delete_id() -> ServerMessages {
        ServerMessages::MsgGeometryDelete
    }

    fn update_message_id() -> (r: ServerMessages)
        ensures
            r == ServerMessages::Unknown,
    {
        ServerMessages::Unknown
    }

    fn create_message_id() -> (r: ServerMessages)
        ensures
            r == ServerMessages::MsgGeometryCreate,
    {
        ServerMessages::MsgGeometryCreate
    }

    fn delete_message_id() -> (r: ServerMessages)
        ensures
            r == ServerMessages::MsgGeometryDelete,
    {
        ServerMessages::MsgGeometryDelete
    }
}


/// Patching an entity sets each field the patch holds to the patch's value, and
/// leaves every other field as it was.
pub proof fn lemma_entity_patch_sets_fields(a: ServerEntityStateUpdatable, b: ServerEntityStateUpdatable)
    ensures
        b.parent is Some ==> a.patched(b).parent == b.parent,
        b.parent is None ==> a.patched(b).parent == a.parent,
        b.transform is Some ==> a.patched(b).transform == b.transform,
        b.transform is None ==> a.patched(b).transform == a.transform,
        b.representation is Some ==> a.patched(b).representation == b.representation,
        b.representation is None ==> a.patched(b).representation == a.representation,
        b.lights is Some ==> a.patched(b).lights == b.lights,
        b.lights is None ==> a.patched(b).lights == a.lights,
        b.tables is Some ==> a.patched(b).tables == b.tables,
        b.tables is None ==> a.patched(b).tables == a.tables,
        b.plots is Some ==> a.patched(b).plots == b.plots,
        b.plots is None ==> a.patched(b).plots == a.plots,
        b.tags is Some ==> a.patched(b).tags == b.tags,
        b.tags is None ==> a.patched(b).tags == a.tags,
        b.methods_list is Some ==> a.patched(b).methods_list == b.methods_list,
        b.methods_list is None ==> a.patched(b).methods_list == a.methods_list,
        b.signals_list is Some ==> a.patched(b).signals_list == b.signals_list,
        b.signals_list is None ==> a.patched(b).signals_list == a.signals_list,
        b.influence is Some ==> a.patched(b).influence == b.influence,
        b.influence is None ==> a.patched(b).influence == a.influence,
        b.visible is Some ==> a.patched(b).visible == b.visible,
        b.visible is None ==> a.patched(b).visible == a.visible,
{
}

/// Updating an entity keeps its name and patches its changeable part.
pub proof fn lemma_entity_update_keeps_name(a: ServerEntityState, b: ServerEntityStateUpdatable)
    ensures
        a.updated(b).name == a.name,
        b.transform is Some ==> a.updated(b).mutable.transform == b.transform,
        b.transform is None ==> a.updated(b).mutable.transform == a.mutable.transform,
        b.parent is Some ==> a.updated(b).mutable.parent == b.parent,
        b.parent is None ==> a.updated(b).mutable.parent == a.mutable.parent,
        b.representation is Some ==> a.updated(b).mutable.representation == b.representation,
        b.representation is None ==> a.updated(b).mutable.representation == a.mutable.representation,
{
    lemma_entity_patch_sets_fields(a.mutable, b);
}

/// Patching a material sets each field the patch holds to the patch's value,
/// and leaves every other field as it was.
pub proof fn lemma_material_patch_sets_fields(a: ServerMaterialStateUpdatable, b: ServerMaterialStateUpdatable)
    ensures
        b.pbr_info is Some ==> a.patched(b).pbr_info == b.pbr_info,
        b.pbr_info is None ==> a.patched(b).pbr_info == a.pbr_info,
        b.normal_texture is Some ==> a.patched(b).normal_texture == b.normal_texture,
        b.normal_texture is None ==> a.patched(b).normal_texture == a.normal_texture,
        b.occlusion_texture is Some ==> a.patched(b).occlusion_texture == b.occlusion_texture,
        b.occlusion_texture is None ==> a.patched(b).occlusion_texture == a.occlusion_texture,
        b.occlusion_texture_factor is Some ==> a.patched(b).occlusion_texture_factor == b.occlusion_texture_factor,
        b.occlusion_texture_factor is None ==> a.patched(b).occlusion_texture_factor == a.occlusion_texture_factor,
        b.emissive_texture is Some ==> a.patched(b).emissive_texture == b.emissive_texture,
        b.emissive_texture is None ==> a.patched(b).emissive_texture == a.emissive_texture,
        b.emissive_factor is Some ==> a.patched(b).emissive_factor == b.emissive_factor,
        b.emissive_factor is None ==> a.patched(b).emissive_factor == a.emissive_factor,
        b.use_alpha is Some ==> a.patched(b).use_alpha == b.use_alpha,
        b.use_alpha is None ==> a.patched(b).use_alpha == a.use_alpha,
        b.alpha_cutoff is Some ==> a.patched(b).alpha_cutoff == b.alpha_cutoff,
        b.alpha_cutoff is None ==> a.patched(b).alpha_cutoff == a.alpha_cutoff,
        b.double_sided is Some ==> a.patched(b).double_sided == b.double_sided,
        b.double_sided is None ==> a.patched(b).double_sided == a.double_sided,
{
}

} // verus!
