//! The CBOR form in which a server announces its buffers, views, samplers,
//! images, textures, tables and plots: each is a map of its present fields.
use vstd::prelude::*;
use crate::nooid::NooID;
use crate::value::{CborValue, ValueModel, pair_models_of};
use crate::value_tools::{CBORTransform, FromValueError, FromValueErrorModel, TextMap, text_map_of, lemma_text_map_of_push, convert_to_value_map, wrong_type};
use crate::table::{field_required, field_optional, read_required, read_optional};
use crate::table::{push_pair, opt_pair, opt_seq};
use crate::types::ByteBuff;
use crate::components::{
    BufferState, BufferViewState, BufferViewType, SamplerState, MagFilter, MinFilter, SamplerMode,
    TextureState, TableState, TableStateUpdatable, PlotState, PlotStateUpdatable, ImageState, ImageSource,
};
use crate::component_codec::{FieldWriter, MapTransform, opt_text, opt_text_pair, push_opt_text};
use crate::message_codec::{opt_id_pair, opt_ids_pair, push_opt_id, push_opt_ids};
use crate::common::ServerMessages;

verus! {

/// The model of an optional value.
pub open spec fn opt_model(o: Option<CborValue>) -> Option<ValueModel> {
    match o {
        Some(v) => Some(v@),
        None => None,
    }
}

/// Append a field to a map under construction, when it is present.
pub(crate) fn push_opt_value(out: &mut Vec<(CborValue, CborValue)>, key: &str, o: Option<CborValue>)
    ensures
        pair_models_of(final(out)@) == pair_models_of(old(out)@) + opt_pair(key@, opt_model(o)),
{
    let ghost m = opt_model(o);
    match o {
        Some(v) => push_pair(out, key, v),
        None => {},
    }
    assert(pair_models_of(out@) =~= pair_models_of(old(out)@) + opt_pair(key@, m));
}

/// An unsigned number as CBOR.
pub(crate) fn u64_value(x: u64) -> (r: CborValue)
    ensures
        r@ == ValueModel::Integer(x as int),
{
    CborValue::Integer(x as i128)
}

// =============================================================================

/// The model of a [`BufferState`].
pub struct BufferStateModel {
    pub name: Option<Seq<char>>,
    pub size: u64,
    pub inline_bytes: Option<Seq<u8>>,
    pub uri_bytes: Option<Seq<char>>,
}

impl DeepView for BufferState {
    type V = BufferStateModel;

    open spec fn deep_view(&self) -> BufferStateModel {
        BufferStateModel {
            name: opt_text(self.name),
            size: self.size,
            inline_bytes: match self.inline_bytes {
                Some(b) => Some(b@),
                None => None,
            },
            uri_bytes: opt_text(self.uri_bytes),
        }
    }
}

impl FieldWriter for BufferState {
    open spec fn fields_spec(m: BufferStateModel) -> Seq<(ValueModel, ValueModel)> {
        opt_text_pair("name"@, m.name)
        + seq![(ValueModel::Text("size"@), ValueModel::Integer(m.size as int))]
        + opt_pair("inline_bytes"@, match m.inline_bytes { Some(b) => Some(ValueModel::Bytes(b)), None => None })
        + opt_text_pair("uri_bytes"@, m.uri_bytes)
    }

    fn write_fields(&self, out: &mut Vec<(CborValue, CborValue)>) {
        let ghost start = pair_models_of(out@);
        push_opt_text(out, "name", &self.name);
        push_pair(out, "size", u64_value(self.size));
        let bytes = match &self.inline_bytes {
            Some(b) => Some(b.to_cbor()),
            None => None,
        };
        push_opt_value(out, "inline_bytes", bytes);
        push_opt_text(out, "uri_bytes", &self.uri_bytes);
        assert(pair_models_of(out@) =~= start + Self::fields_spec(self.deep_view()));
    }
}

impl MapTransform for BufferState {
    open spec fn from_map_spec(m: Map<Seq<char>, ValueModel>) -> Result<BufferStateModel, FromValueErrorModel> {
        let m1 = m.remove("name"@);
        let m2 = m1.remove("size"@);
        let m3 = m2.remove("inline_bytes"@);
        match field_optional::<String>(m, "name"@) {
            Err(e) => Err(e),
            Ok(name) => match field_required::<u64>(m1, "size"@) {
                Err(e) => Err(e),
                Ok(size) => match field_optional::<ByteBuff>(m2, "inline_bytes"@) {
                    Err(e) => Err(e),
                    Ok(inline_bytes) => match field_optional::<String>(m3, "uri_bytes"@) {
                        Err(e) => Err(e),
                        Ok(uri_bytes) => Ok(BufferStateModel { name, size, inline_bytes, uri_bytes }),
                    },
                },
            },
        }
    }

    proof fn lemma_map_form(m: BufferStateModel) {
        let p0: Seq<(ValueModel, ValueModel)> = Seq::empty();
        let p1 = match m.name {
            Some(d) => p0.push((ValueModel::Text("name"@), ValueModel::Text(d))),
            None => p0,
        };
        if let Some(d) = m.name {
            lemma_text_map_of_push(p0, "name"@, ValueModel::Text(d));
        }
        let p2 = p1.push((ValueModel::Text("size"@), ValueModel::Integer(m.size as int)));
        lemma_text_map_of_push(p1, "size"@, ValueModel::Integer(m.size as int));
        let p3 = match m.inline_bytes {
            Some(b) => p2.push((ValueModel::Text("inline_bytes"@), ValueModel::Bytes(b))),
            None => p2,
        };
        if let Some(b) = m.inline_bytes {
            lemma_text_map_of_push(p2, "inline_bytes"@, ValueModel::Bytes(b));
        }
        let p4 = match m.uri_bytes {
            Some(d) => p3.push((ValueModel::Text("uri_bytes"@), ValueModel::Text(d))),
            None => p3,
        };
        if let Some(d) = m.uri_bytes {
            lemma_text_map_of_push(p3, "uri_bytes"@, ValueModel::Text(d));
        }
        assert(Self::fields_spec(m) =~= p4);
        assert(text_map_of(p0) =~= Map::<Seq<char>, ValueModel>::empty());
        reveal_strlit("name");
        reveal_strlit("size");
        reveal_strlit("inline_bytes");
        reveal_strlit("uri_bytes");
        reveal_strlit("id");
        assert("name"@[0] != "size"@[0]);
        assert("name"@[0] != "inline_bytes"@[0]);
        assert("name"@[0] != "uri_bytes"@[0]);
        assert("size"@[0] != "inline_bytes"@[0]);
        assert("size"@[0] != "uri_bytes"@[0]);
        assert("inline_bytes"@[0] != "uri_bytes"@[0]);
        assert("name"@[0] != "id"@[0]);
        assert("size"@[0] != "id"@[0]);
        assert("inline_bytes"@[1] != "id"@[1]);
        assert("uri_bytes"@[0] != "id"@[0]);
        let tm = text_map_of(p4);
        assert(tm.remove("name"@).contains_key("size"@));
    }

    fn read_from_map(map: &mut TextMap) -> (r: Result<Self, FromValueError>) {
        let name = match read_optional::<String>(map, "name") {
            Ok(x) => x,
            Err(e) => return Err(e),
        };
        let size = match read_required::<u64>(map, "size") {
            Ok(x) => x,
            Err(e) => return Err(e),
        };
        let inline_bytes = match read_optional::<ByteBuff>(map, "inline_bytes") {
            Ok(x) => x,
            Err(e) => return Err(e),
        };
        let uri_bytes = match read_optional::<String>(map, "uri_bytes") {
            Ok(x) => x,
            Err(e) => return Err(e),
        };
        let r = BufferState { name, size, inline_bytes, uri_bytes };
        assert(r.deep_view().name == match name { Some(y) => Some(y.deep_view()), None => None::<Seq<char>> });
        assert(r.deep_view().uri_bytes == match uri_bytes { Some(y) => Some(y.deep_view()), None => None::<Seq<char>> });
        assert(r.deep_view().inline_bytes == match inline_bytes { Some(y) => Some(y.deep_view()), None => None::<Seq<u8>> });
        Ok(r)
    }
}

impl CBORTransform for BufferState {
    open spec fn encode_spec(m: BufferStateModel) -> ValueModel {
        ValueModel::Dict(Self::fields_spec(m))
    }

    open spec fn decode_spec(v: ValueModel) -> Result<BufferStateModel, FromValueErrorModel> {
        match v {
            ValueModel::Dict(p) => Self::from_map_spec(text_map_of(p)),
            _ => Err(wrong_type("Map"@, v)),
        }
    }

    fn try_from_cbor(value: CborValue) -> (r: Result<Self, FromValueError>) {
        match value {
            CborValue::Dict(m) => {
                let mut map = convert_to_value_map(m);
                Self::read_from_map(&mut map)
            },
            _ => Err(FromValueError::WrongType { expected: String::from_str("Map"), found: crate::value::get_value_type(&value) }),
        }
    }

    fn to_cbor(&self) -> (r: CborValue) {
        let mut out: Vec<(CborValue, CborValue)> = Vec::new();
        self.write_fields(&mut out);
        assert(pair_models_of(out@) =~= Self::fields_spec(self.deep_view()));
        CborValue::Dict(out)
    }

    proof fn lemma_round_trip(x: Self) {
        Self::lemma_map_form(x.deep_view());
    }
}

// =============================================================================

/// The text a view's type is written as.
pub open spec fn view_type_text(t: BufferViewType) -> Seq<char> {
    match t {
        BufferViewType::Unknown => "UNK"@,
        BufferViewType::Geometry => "GEOMETRY"@,
        BufferViewType::Image => "IMAGE"@,
    }
}

fn view_type_value(t: BufferViewType) -> (r: CborValue)
    ensures
        r@ == ValueModel::Text(view_type_text(t)),
{
    match t {
        BufferViewType::Unknown => CborValue::Text(String::from_str("UNK")),
        BufferViewType::Geometry => CborValue::Text(String::from_str("GEOMETRY")),
        BufferViewType::Image => CborValue::Text(String::from_str("IMAGE")),
    }
}

/// The model of a [`BufferViewState`].
pub struct BufferViewStateModel {
    pub name: Option<Seq<char>>,
    pub source_buffer: NooID,
    pub view_type: BufferViewType,
    pub offset: u64,
    pub length: u64,
}

impl DeepView for BufferViewState<NooID> {
    type V = BufferViewStateModel;

    open spec fn deep_view(&self) -> BufferViewStateModel {
        BufferViewStateModel {
            name: opt_text(self.name),
            source_buffer: self.source_buffer,
            view_type: self.view_type,
            offset: self.offset,
            length: self.length,
        }
    }
}

impl FieldWriter for BufferViewState<NooID> {
    open spec fn fields_spec(m: BufferViewStateModel) -> Seq<(ValueModel, ValueModel)> {
        opt_text_pair("name"@, m.name)
        + seq![
            (ValueModel::Text("source_buffer"@), m.source_buffer.spec_to_value()),
            (ValueModel::Text("type"@), ValueModel::Text(view_type_text(m.view_type))),
            (ValueModel::Text("offset"@), ValueModel::Integer(m.offset as int)),
            (ValueModel::Text("length"@), ValueModel::Integer(m.length as int)),
        ]
    }

    fn write_fields(&self, out: &mut Vec<(CborValue, CborValue)>) {
        let ghost start = pair_models_of(out@);
        push_opt_text(out, "name", &self.name);
        push_pair(out, "source_buffer", self.source_buffer.to_value());
        push_pair(out, "type", view_type_value(self.view_type));
        push_pair(out, "offset", u64_value(self.offset));
        push_pair(out, "length", u64_value(self.length));
        assert(pair_models_of(out@) =~= start + Self::fields_spec(self.deep_view()));
    }
}

impl DeepView for BufferViewType {
    type V = BufferViewType;

    open spec fn deep_view(&self) -> BufferViewType {
        *self
    }
}

impl CBORTransform for BufferViewType {
    open spec fn encode_spec(m: BufferViewType) -> ValueModel {
        ValueModel::Text(view_type_text(m))
    }

    /// A view's type is one of the texts it is written as.
    open spec fn decode_spec(v: ValueModel) -> Result<BufferViewType, FromValueErrorModel> {
        match v {
            ValueModel::Text(t) => if t == "UNK"@ {
                Ok(BufferViewType::Unknown)
            } else if t == "GEOMETRY"@ {
                Ok(BufferViewType::Geometry)
            } else if t == "IMAGE"@ {
                Ok(BufferViewType::Image)
            } else {
                Err(wrong_type("BufferViewType"@, v))
            },
            _ => Err(wrong_type("BufferViewType"@, v)),
        }
    }

    fn try_from_cbor(value: CborValue) -> (r: Result<Self, FromValueError>) {
        let found = crate::value::get_value_type(&value);
        match value {
            CborValue::Text(t) => if t.eq(&String::from_str("UNK")) {
                Ok(BufferViewType::Unknown)
            } else if t.eq(&String::from_str("GEOMETRY")) {
                Ok(BufferViewType::Geometry)
            } else if t.eq(&String::from_str("IMAGE")) {
                Ok(BufferViewType::Image)
            } else {
                Err(FromValueError::WrongType { expected: String::from_str("BufferViewType"), found })
            },
            _ => Err(FromValueError::WrongType { expected: String::from_str("BufferViewType"), found }),
        }
    }

    fn to_cbor(&self) -> (r: CborValue) {
        view_type_value(*self)
    }

    proof fn lemma_round_trip(x: Self) {
        reveal_strlit("UNK");
        reveal_strlit("GEOMETRY");
        reveal_strlit("IMAGE");
        assert("UNK"@[0] != "GEOMETRY"@[0]);
        assert("UNK"@[0] != "IMAGE"@[0]);
        assert("GEOMETRY"@[0] != "IMAGE"@[0]);
    }
}

impl MapTransform for BufferViewState<NooID> {
    open spec fn from_map_spec(m: Map<Seq<char>, ValueModel>) -> Result<BufferViewStateModel, FromValueErrorModel> {
        let m1 = m.remove("name"@);
        let m2 = m1.remove("source_buffer"@);
        let m3 = m2.remove("type"@);
        let m4 = m3.remove("offset"@);
        match field_optional::<String>(m, "name"@) {
            Err(e) => Err(e),
            Ok(name) => match field_required::<NooID>(m1, "source_buffer"@) {
                Err(e) => Err(e),
                Ok(source_buffer) => match field_required::<BufferViewType>(m2, "type"@) {
                    Err(e) => Err(e),
                    Ok(view_type) => match field_required::<u64>(m3, "offset"@) {
                        Err(e) => Err(e),
                        Ok(offset) => match field_required::<u64>(m4, "length"@) {
                            Err(e) => Err(e),
                            Ok(length) => Ok(BufferViewStateModel { name, source_buffer, view_type, offset, length }),
                        },
                    },
                },
            },
        }
    }

    proof fn lemma_map_form(m: BufferViewStateModel) {
        let p0: Seq<(ValueModel, ValueModel)> = Seq::empty();
        let p1 = match m.name {
            Some(d) => p0.push((ValueModel::Text("name"@), ValueModel::Text(d))),
            None => p0,
        };
        if let Some(d) = m.name {
            lemma_text_map_of_push(p0, "name"@, ValueModel::Text(d));
        }
        let p2 = p1.push((ValueModel::Text("source_buffer"@), m.source_buffer.spec_to_value()));
        lemma_text_map_of_push(p1, "source_buffer"@, m.source_buffer.spec_to_value());
        let p3 = p2.push((ValueModel::Text("type"@), ValueModel::Text(view_type_text(m.view_type))));
        lemma_text_map_of_push(p2, "type"@, ValueModel::Text(view_type_text(m.view_type)));
        let p4 = p3.push((ValueModel::Text("offset"@), ValueModel::Integer(m.offset as int)));
        lemma_text_map_of_push(p3, "offset"@, ValueModel::Integer(m.offset as int));
        let p5 = p4.push((ValueModel::Text("length"@), ValueModel::Integer(m.length as int)));
        lemma_text_map_of_push(p4, "length"@, ValueModel::Integer(m.length as int));
        assert(Self::fields_spec(m) =~= p5);
        assert(text_map_of(p0) =~= Map::<Seq<char>, ValueModel>::empty());
        NooID::lemma_round_trip(m.source_buffer);
        BufferViewType::lemma_round_trip(m.view_type);
        reveal_strlit("name");
        reveal_strlit("source_buffer");
        reveal_strlit("type");
        reveal_strlit("offset");
        reveal_strlit("length");
        reveal_strlit("id");
        assert("name"@[0] != "source_buffer"@[0]);
        assert("name"@[0] != "type"@[0]);
        assert("name"@[0] != "offset"@[0]);
        assert("name"@[0] != "length"@[0]);
        assert("source_buffer"@[0] != "type"@[0]);
        assert("source_buffer"@[0] != "offset"@[0]);
        assert("source_buffer"@[0] != "length"@[0]);
        assert("type"@[0] != "offset"@[0]);
        assert("type"@[0] != "length"@[0]);
        assert("offset"@[0] != "length"@[0]);
        assert("name"@[0] != "id"@[0]);
        assert("source_buffer"@[0] != "id"@[0]);
        assert("type"@[0] != "id"@[0]);
        assert("offset"@[0] != "id"@[0]);
        assert("length"@[0] != "id"@[0]);
        let tm = text_map_of(p5);
        assert(tm.remove("name"@).contains_key("source_buffer"@));
        assert(tm.remove("name"@).remove("source_buffer"@).contains_key("type"@));
        assert(tm.remove("name"@).remove("source_buffer"@).remove("type"@).contains_key("offset"@));
        assert(tm.remove("name"@).remove("source_buffer"@).remove("type"@).remove("offset"@).contains_key("length"@));
    }

    fn read_from_map(map: &mut TextMap) -> (r: Result<Self, FromValueError>) {
        let name = match read_optional::<String>(map, "name") {
            Ok(x) => x,
            Err(e) => return Err(e),
        };
        let source_buffer = match read_required::<NooID>(map, "source_buffer") {
            Ok(x) => x,
            Err(e) => return Err(e),
        };
        let view_type = match read_required::<BufferViewType>(map, "type") {
            Ok(x) => x,
            Err(e) => return Err(e),
        };
        let offset = match read_required::<u64>(map, "offset") {
            Ok(x) => x,
            Err(e) => return Err(e),
        };
        let length = match read_required::<u64>(map, "length") {
            Ok(x) => x,
            Err(e) => return Err(e),
        };
        let r = BufferViewState { name, source_buffer, view_type, offset, length };
        assert(r.deep_view().name == match name { Some(y) => Some(y.deep_view()), None => None::<Seq<char>> });
        Ok(r)
    }
}

impl CBORTransform for BufferViewState<NooID> {
    open spec fn encode_spec(m: BufferViewStateModel) -> ValueModel {
        ValueModel::Dict(Self::fields_spec(m))
    }

    open spec fn decode_spec(v: ValueModel) -> Result<BufferViewStateModel, FromValueErrorModel> {
        match v {
            ValueModel::Dict(p) => Self::from_map_spec(text_map_of(p)),
            _ => Err(wrong_type("Map"@, v)),
        }
    }

    fn try_from_cbor(value: CborValue) -> (r: Result<Self, FromValueError>) {
        match value {
            CborValue::Dict(m) => {
                let mut map = convert_to_value_map(m);
                Self::read_from_map(&mut map)
            },
            _ => Err(FromValueError::WrongType { expected: String::from_str("Map"), found: crate::value::get_value_type(&value) }),
        }
    }

    fn to_cbor(&self) -> (r: CborValue) {
        let mut out: Vec<(CborValue, CborValue)> = Vec::new();
        self.write_fields(&mut out);
        assert(pair_models_of(out@) =~= Self::fields_spec(self.deep_view()));
        CborValue::Dict(out)
    }

    proof fn lemma_round_trip(x: Self) {
        Self::lemma_map_form(x.deep_view());
    }
}

// =============================================================================

/// The text a magnification filter is written as.
pub open spec fn mag_filter_text(f: MagFilter) -> Seq<char> {
    match f {
        MagFilter::Nearest => "NEAREST"@,
        MagFilter::Linear => "LINEAR"@,
    }
}

/// The text a minification filter is written as.
pub open spec fn min_filter_text(f: MinFilter) -> Seq<char> {
    match f {
        MinFilter::Nearest => "NEAREST"@,
        MinFilter::Linear => "LINEAR"@,
        MinFilter::LinearMipmapLinear => "LINEAR_MIPMAP_LINEAR"@,
    }
}

/// The text a wrapping mode is written as.
pub open spec fn sampler_mode_text(m: SamplerMode) -> Seq<char> {
    match m {
        SamplerMode::Clamp => "CLAMP_TO_EDGE"@,
        SamplerMode::MirrorRepeat => "MIRRORED_REPEAT"@,
        SamplerMode::Repeat => "REPEAT"@,
    }
}

fn mag_filter_value(o: Option<MagFilter>) -> (r: Option<CborValue>)
    ensures
        opt_model(r) == match o { Some(f) => Some(ValueModel::Text(mag_filter_text(f))), None => None },
{
    match o {
        Some(MagFilter::Nearest) => Some(CborValue::Text(String::from_str("NEAREST"))),
        Some(MagFilter::Linear) => Some(CborValue::Text(String::from_str("LINEAR"))),
        None => None,
    }
}

fn min_filter_value(o: Option<MinFilter>) -> (r: Option<CborValue>)
    ensures
        opt_model(r) == match o { Some(f) => Some(ValueModel::Text(min_filter_text(f))), None => None },
{
    match o {
        Some(MinFilter::Nearest) => Some(CborValue::Text(String::from_str("NEAREST"))),
        Some(MinFilter::Linear) => Some(CborValue::Text(String::from_str("LINEAR"))),
        Some(MinFilter::LinearMipmapLinear) => Some(CborValue::Text(String::from_str("LINEAR_MIPMAP_LINEAR"))),
        None => None,
    }
}

fn sampler_mode_value(o: Option<SamplerMode>) -> (r: Option<CborValue>)
    ensures
        opt_model(r) == match o { Some(m) => Some(ValueModel::Text(sampler_mode_text(m))), None => None },
{
    match o {
        Some(SamplerMode::Clamp) => Some(CborValue::Text(String::from_str("CLAMP_TO_EDGE"))),
        Some(SamplerMode::MirrorRepeat) => Some(CborValue::Text(String::from_str("MIRRORED_REPEAT"))),
        Some(SamplerMode::Repeat) => Some(CborValue::Text(String::from_str("REPEAT"))),
        None => None,
    }
}

impl DeepView for MagFilter {
    type V = MagFilter;

    open spec fn deep_view(&self) -> MagFilter {
        *self
    }
}

impl CBORTransform for MagFilter {
    open spec fn encode_spec(m: MagFilter) -> ValueModel {
        ValueModel::Text(mag_filter_text(m))
    }

    /// One of the texts it is written as.
    open spec fn decode_spec(v: ValueModel) -> Result<MagFilter, FromValueErrorModel> {
        match v {
            ValueModel::Text(t) => {
                if t == "NEAREST"@ {
                    Ok(MagFilter::Nearest)
                } else if t == "LINEAR"@ {
                    Ok(MagFilter::Linear)
                } else {
                    Err(wrong_type("MagFilter"@, v))
                }
            },
            _ => Err(wrong_type("MagFilter"@, v)),
        }
    }

    fn try_from_cbor(value: CborValue) -> (r: Result<Self, FromValueError>) {
        let found = crate::value::get_value_type(&value);
        match value {
            CborValue::Text(t) => {
                if t.eq(&String::from_str("NEAREST")) {
                    Ok(MagFilter::Nearest)
                } else if t.eq(&String::from_str("LINEAR")) {
                    Ok(MagFilter::Linear)
                } else {
                    Err(FromValueError::WrongType { expected: String::from_str("MagFilter"), found })
                }
            },
            _ => Err(FromValueError::WrongType { expected: String::from_str("MagFilter"), found }),
        }
    }

    fn to_cbor(&self) -> (r: CborValue) {
        proof {
        reveal_strlit("NEAREST");
        reveal_strlit("LINEAR");
        }
        match self {
            MagFilter::Nearest => CborValue::Text(String::from_str("NEAREST")),
            MagFilter::Linear => CborValue::Text(String::from_str("LINEAR")),
        }
    }

    proof fn lemma_round_trip(x: Self) {
        reveal_strlit("NEAREST");
        reveal_strlit("LINEAR");
        assert("NEAREST"@[0] != "LINEAR"@[0]);
    }
}

impl DeepView for MinFilter {
    type V = MinFilter;

    open spec fn deep_view(&self) -> MinFilter {
        *self
    }
}

impl CBORTransform for MinFilter {
    open spec fn encode_spec(m: MinFilter) -> ValueModel {
        ValueModel::Text(min_filter_text(m))
    }

    /// One of the texts it is written as.
    open spec fn decode_spec(v: ValueModel) -> Result<MinFilter, FromValueErrorModel> {
        match v {
            ValueModel::Text(t) => {
                if t == "NEAREST"@ {
                    Ok(MinFilter::Nearest)
                } else if t == "LINEAR"@ {
                    Ok(MinFilter::Linear)
                } else if t == "LINEAR_MIPMAP_LINEAR"@ {
                    Ok(MinFilter::LinearMipmapLinear)
                } else {
                    Err(wrong_type("MinFilter"@, v))
                }
            },
            _ => Err(wrong_type("MinFilter"@, v)),
        }
    }

    fn try_from_cbor(value: CborValue) -> (r: Result<Self, FromValueError>) {
        let found = crate::value::get_value_type(&value);
        match value {
            CborValue::Text(t) => {
                if t.eq(&String::from_str("NEAREST")) {
                    Ok(MinFilter::Nearest)
                } else if t.eq(&String::from_str("LINEAR")) {
                    Ok(MinFilter::Linear)
                } else if t.eq(&String::from_str("LINEAR_MIPMAP_LINEAR")) {
                    Ok(MinFilter::LinearMipmapLinear)
                } else {
                    Err(FromValueError::WrongType { expected: String::from_str("MinFilter"), found })
                }
            },
            _ => Err(FromValueError::WrongType { expected: String::from_str("MinFilter"), found }),
        }
    }

    fn to_cbor(&self) -> (r: CborValue) {
        proof {
        reveal_strlit("NEAREST");
        reveal_strlit("LINEAR");
        reveal_strlit("LINEAR_MIPMAP_LINEAR");
        }
        match self {
            MinFilter::Nearest => CborValue::Text(String::from_str("NEAREST")),
            MinFilter::Linear => CborValue::Text(String::from_str("LINEAR")),
            MinFilter::LinearMipmapLinear => CborValue::Text(String::from_str("LINEAR_MIPMAP_LINEAR")),
        }
    }

    proof fn lemma_round_trip(x: Self) {
        reveal_strlit("NEAREST");
        reveal_strlit("LINEAR");
        reveal_strlit("LINEAR_MIPMAP_LINEAR");
        assert("NEAREST"@[0] != "LINEAR"@[0]);
        assert("NEAREST"@[0] != "LINEAR_MIPMAP_LINEAR"@[0]);
        assert("LINEAR"@.len() != "LINEAR_MIPMAP_LINEAR"@.len());
    }
}

impl DeepView for SamplerMode {
    type V = SamplerMode;

    open spec fn deep_view(&self) -> SamplerMode {
        *self
    }
}

impl CBORTransform for SamplerMode {
    open spec fn encode_spec(m: SamplerMode) -> ValueModel {
        ValueModel::Text(sampler_mode_text(m))
    }

    /// One of the texts it is written as.
    open spec fn decode_spec(v: ValueModel) -> Result<SamplerMode, FromValueErrorModel> {
        match v {
            ValueModel::Text(t) => {
                if t == "CLAMP_TO_EDGE"@ {
                    Ok(SamplerMode::Clamp)
                } else if t == "MIRRORED_REPEAT"@ {
                    Ok(SamplerMode::MirrorRepeat)
                } else if t == "REPEAT"@ {
                    Ok(SamplerMode::Repeat)
                } else {
                    Err(wrong_type("SamplerMode"@, v))
                }
            },
            _ => Err(wrong_type("SamplerMode"@, v)),
        }
    }

    fn try_from_cbor(value: CborValue) -> (r: Result<Self, FromValueError>) {
        let found = crate::value::get_value_type(&value);
        match value {
            CborValue::Text(t) => {
                if t.eq(&String::from_str("CLAMP_TO_EDGE")) {
                    Ok(SamplerMode::Clamp)
                } else if t.eq(&String::from_str("MIRRORED_REPEAT")) {
                    Ok(SamplerMode::MirrorRepeat)
                } else if t.eq(&String::from_str("REPEAT")) {
                    Ok(SamplerMode::Repeat)
                } else {
                    Err(FromValueError::WrongType { expected: String::from_str("SamplerMode"), found })
                }
            },
            _ => Err(FromValueError::WrongType { expected: String::from_str("SamplerMode"), found }),
        }
    }

    fn to_cbor(&self) -> (r: CborValue) {
        proof {
        reveal_strlit("CLAMP_TO_EDGE");
        reveal_strlit("MIRRORED_REPEAT");
        reveal_strlit("REPEAT");
        }
        match self {
            SamplerMode::Clamp => CborValue::Text(String::from_str("CLAMP_TO_EDGE")),
            SamplerMode::MirrorRepeat => CborValue::Text(String::from_str("MIRRORED_REPEAT")),
            SamplerMode::Repeat => CborValue::Text(String::from_str("REPEAT")),
        }
    }

    proof fn lemma_round_trip(x: Self) {
        reveal_strlit("CLAMP_TO_EDGE");
        reveal_strlit("MIRRORED_REPEAT");
        reveal_strlit("REPEAT");
        assert("CLAMP_TO_EDGE"@[0] != "MIRRORED_REPEAT"@[0]);
        assert("CLAMP_TO_EDGE"@[0] != "REPEAT"@[0]);
        assert("MIRRORED_REPEAT"@[0] != "REPEAT"@[0]);
    }
}

/// The model of a [`SamplerState`].
pub struct SamplerStateModel {
    pub name: Option<Seq<char>>,
    pub mag_filter: Option<MagFilter>,
    pub min_filter: Option<MinFilter>,
    pub wrap_s: Option<SamplerMode>,
    pub wrap_t: Option<SamplerMode>,
}

impl DeepView for SamplerState {
    type V = SamplerStateModel;

    open spec fn deep_view(&self) -> SamplerStateModel {
        SamplerStateModel {
            name: opt_text(self.name),
            mag_filter: self.mag_filter,
            min_filter: self.min_filter,
            wrap_s: self.wrap_s,
            wrap_t: self.wrap_t,
        }
    }
}

impl FieldWriter for SamplerState {
    open spec fn fields_spec(m: SamplerStateModel) -> Seq<(ValueModel, ValueModel)> {
        opt_text_pair("name"@, m.name)
        + opt_pair("mag_filter"@, match m.mag_filter { Some(f) => Some(ValueModel::Text(mag_filter_text(f))), None => None })
        + opt_pair("min_filter"@, match m.min_filter { Some(f) => Some(ValueModel::Text(min_filter_text(f))), None => None })
        + opt_pair("wrap_s"@, match m.wrap_s { Some(w) => Some(ValueModel::Text(sampler_mode_text(w))), None => None })
        + opt_pair("wrap_t"@, match m.wrap_t { Some(w) => Some(ValueModel::Text(sampler_mode_text(w))), None => None })
    }

    fn write_fields(&self, out: &mut Vec<(CborValue, CborValue)>) {
        let ghost start = pair_models_of(out@);
        push_opt_text(out, "name", &self.name);
        push_opt_value(out, "mag_filter", mag_filter_value(self.mag_filter));
        push_opt_value(out, "min_filter", min_filter_value(self.min_filter));
        push_opt_value(out, "wrap_s", sampler_mode_value(self.wrap_s));
        push_opt_value(out, "wrap_t", sampler_mode_value(self.wrap_t));
        assert(pair_models_of(out@) =~= start + Self::fields_spec(self.deep_view()));
    }
}

impl MapTransform for SamplerState {
    open spec fn from_map_spec(m: Map<Seq<char>, ValueModel>) -> Result<SamplerStateModel, FromValueErrorModel> {
        let m1 = m.remove("name"@);
        let m2 = m1.remove("mag_filter"@);
        let m3 = m2.remove("min_filter"@);
        let m4 = m3.remove("wrap_s"@);
        match field_optional::<String>(m, "name"@) {
            Err(e) => Err(e),
            Ok(name) =>             match field_optional::<MagFilter>(m1, "mag_filter"@) {
                Err(e) => Err(e),
                Ok(mag_filter) =>                 match field_optional::<MinFilter>(m2, "min_filter"@) {
                    Err(e) => Err(e),
                    Ok(min_filter) =>                     match field_optional::<SamplerMode>(m3, "wrap_s"@) {
                        Err(e) => Err(e),
                        Ok(wrap_s) =>                         match field_optional::<SamplerMode>(m4, "wrap_t"@) {
                            Err(e) => Err(e),
                            Ok(wrap_t) => Ok(SamplerStateModel { name, mag_filter, min_filter, wrap_s, wrap_t }),
                        },
                    },
                },
            },
        }
    }

    proof fn lemma_map_form(m: SamplerStateModel) {
        let p0: Seq<(ValueModel, ValueModel)> = Seq::empty();
        let p1 = match m.name {
            Some(d) => p0.push((ValueModel::Text("name"@), ValueModel::Text(d))),
            None => p0,
        };
        if let Some(d) = m.name {
            lemma_text_map_of_push(p0, "name"@, ValueModel::Text(d));
        }
        let p2 = match m.mag_filter {
            Some(d) => p1.push((ValueModel::Text("mag_filter"@), ValueModel::Text(mag_filter_text(d)))),
            None => p1,
        };
        if let Some(d) = m.mag_filter {
            lemma_text_map_of_push(p1, "mag_filter"@, ValueModel::Text(mag_filter_text(d)));
            MagFilter::lemma_round_trip(d);
        }
        let p3 = match m.min_filter {
            Some(d) => p2.push((ValueModel::Text("min_filter"@), ValueModel::Text(min_filter_text(d)))),
            None => p2,
        };
        if let Some(d) = m.min_filter {
            lemma_text_map_of_push(p2, "min_filter"@, ValueModel::Text(min_filter_text(d)));
            MinFilter::lemma_round_trip(d);
        }
        let p4 = match m.wrap_s {
            Some(d) => p3.push((ValueModel::Text("wrap_s"@), ValueModel::Text(sampler_mode_text(d)))),
            None => p3,
        };
        if let Some(d) = m.wrap_s {
            lemma_text_map_of_push(p3, "wrap_s"@, ValueModel::Text(sampler_mode_text(d)));
            SamplerMode::lemma_round_trip(d);
        }
        let p5 = match m.wrap_t {
            Some(d) => p4.push((ValueModel::Text("wrap_t"@), ValueModel::Text(sampler_mode_text(d)))),
            None => p4,
        };
        if let Some(d) = m.wrap_t {
            lemma_text_map_of_push(p4, "wrap_t"@, ValueModel::Text(sampler_mode_text(d)));
            SamplerMode::lemma_round_trip(d);
        }
        assert(Self::fields_spec(m) =~= p5);
        assert(text_map_of(p0) =~= Map::<Seq<char>, ValueModel>::empty());
        reveal_strlit("name");
        reveal_strlit("mag_filter");
        reveal_strlit("min_filter");
        reveal_strlit("wrap_s");
        reveal_strlit("wrap_t");
        reveal_strlit("id");
        assert("name"@[0] != "mag_filter"@[0]);
        assert("name"@[0] != "min_filter"@[0]);
        assert("name"@[0] != "wrap_s"@[0]);
        assert("name"@[0] != "wrap_t"@[0]);
        assert("mag_filter"@[1] != "min_filter"@[1]);
        assert("mag_filter"@[0] != "wrap_s"@[0]);
        assert("mag_filter"@[0] != "wrap_t"@[0]);
        assert("min_filter"@[0] != "wrap_s"@[0]);
        assert("min_filter"@[0] != "wrap_t"@[0]);
        assert("wrap_s"@[5] != "wrap_t"@[5]);
        assert("name"@[0] != "id"@[0]);
        assert("mag_filter"@[0] != "id"@[0]);
        assert("min_filter"@[0] != "id"@[0]);
        assert("wrap_s"@[0] != "id"@[0]);
        assert("wrap_t"@[0] != "id"@[0]);
    }

    fn read_from_map(map: &mut TextMap) -> (r: Result<Self, FromValueError>) {
        let name = match read_optional::<String>(map, "name") {
            Ok(x) => x,
            Err(e) => return Err(e),
        };
        let mag_filter = match read_optional::<MagFilter>(map, "mag_filter") {
            Ok(x) => x,
            Err(e) => return Err(e),
        };
        let min_filter = match read_optional::<MinFilter>(map, "min_filter") {
            Ok(x) => x,
            Err(e) => return Err(e),
        };
        let wrap_s = match read_optional::<SamplerMode>(map, "wrap_s") {
            Ok(x) => x,
            Err(e) => return Err(e),
        };
        let wrap_t = match read_optional::<SamplerMode>(map, "wrap_t") {
            Ok(x) => x,
            Err(e) => return Err(e),
        };
        let r = SamplerState { name, mag_filter, min_filter, wrap_s, wrap_t };
        assert(r.deep_view().name == match name { Some(y) => Some(y.deep_view()), None => None::<Seq<char>> });
        assert(r.deep_view().mag_filter == match mag_filter { Some(y) => Some(y.deep_view()), None => None::<MagFilter> });
        assert(r.deep_view().min_filter == match min_filter { Some(y) => Some(y.deep_view()), None => None::<MinFilter> });
        assert(r.deep_view().wrap_s == match wrap_s { Some(y) => Some(y.deep_view()), None => None::<SamplerMode> });
        assert(r.deep_view().wrap_t == match wrap_t { Some(y) => Some(y.deep_view()), None => None::<SamplerMode> });
        Ok(r)
    }
}

impl CBORTransform for SamplerState {
    open spec fn encode_spec(m: SamplerStateModel) -> ValueModel {
        ValueModel::Dict(Self::fields_spec(m))
    }

    open spec fn decode_spec(v: ValueModel) -> Result<SamplerStateModel, FromValueErrorModel> {
        match v {
            ValueModel::Dict(p) => Self::from_map_spec(text_map_of(p)),
            _ => Err(wrong_type("Map"@, v)),
        }
    }

    fn try_from_cbor(value: CborValue) -> (r: Result<Self, FromValueError>) {
        match value {
            CborValue::Dict(m) => {
                let mut map = convert_to_value_map(m);
                Self::read_from_map(&mut map)
            },
            _ => Err(FromValueError::WrongType { expected: String::from_str("Map"), found: crate::value::get_value_type(&value) }),
        }
    }

    fn to_cbor(&self) -> (r: CborValue) {
        let mut out: Vec<(CborValue, CborValue)> = Vec::new();
        self.write_fields(&mut out);
        assert(pair_models_of(out@) =~= Self::fields_spec(self.deep_view()));
        CborValue::Dict(out)
    }

    proof fn lemma_round_trip(x: Self) {
        Self::lemma_map_form(x.deep_view());
    }
}

// =============================================================================

/// The model of an [`ImageState`].
pub struct ImageStateModel {
    pub name: Option<Seq<char>>,
    pub buffer_source: Option<NooID>,
    pub uri_source: Option<Seq<char>>,
}

impl DeepView for ImageState<NooID> {
    type V = ImageStateModel;

    open spec fn deep_view(&self) -> ImageStateModel {
        ImageStateModel {
            name: opt_text(self.name),
            buffer_source: self.source.spec_buffer_source(),
            uri_source: opt_text(self.source.spec_uri_source()),
        }
    }
}

impl FieldWriter for ImageState<NooID> {
    open spec fn fields_spec(m: ImageStateModel) -> Seq<(ValueModel, ValueModel)> {
        opt_text_pair("name"@, m.name)
        + opt_id_pair("buffer_source"@, m.buffer_source)
        + opt_text_pair("uri_source"@, m.uri_source)
    }

    fn write_fields(&self, out: &mut Vec<(CborValue, CborValue)>) {
        let ghost start = pair_models_of(out@);
        push_opt_text(out, "name", &self.name);
        push_opt_id(out, "buffer_source", self.source.buffer_source());
        push_opt_text(out, "uri_source", self.source.uri_source());
        assert(pair_models_of(out@) =~= start + Self::fields_spec(self.deep_view()));
    }
}

// =============================================================================

/// The model of a [`TextureState`].
pub struct TextureStateModel {
    pub name: Option<Seq<char>>,
    pub image: NooID,
    pub sampler: Option<NooID>,
}

impl DeepView for TextureState<NooID, NooID> {
    type V = TextureStateModel;

    open spec fn deep_view(&self) -> TextureStateModel {
        TextureStateModel { name: opt_text(self.name), image: self.image, sampler: self.sampler }
    }
}

impl FieldWriter for TextureState<NooID, NooID> {
    open spec fn fields_spec(m: TextureStateModel) -> Seq<(ValueModel, ValueModel)> {
        opt_text_pair("name"@, m.name)
        + seq![(ValueModel::Text("image"@), m.image.spec_to_value())]
        + opt_id_pair("sampler"@, m.sampler)
    }

    fn write_fields(&self, out: &mut Vec<(CborValue, CborValue)>) {
        let ghost start = pair_models_of(out@);
        push_opt_text(out, "name", &self.name);
        push_pair(out, "image", self.image.to_value());
        push_opt_id(out, "sampler", &self.sampler);
        assert(pair_models_of(out@) =~= start + Self::fields_spec(self.deep_view()));
    }
}

impl MapTransform for TextureState<NooID, NooID> {
    open spec fn from_map_spec(m: Map<Seq<char>, ValueModel>) -> Result<TextureStateModel, FromValueErrorModel> {
        let m1 = m.remove("name"@);
        let m2 = m1.remove("image"@);
        match field_optional::<String>(m, "name"@) {
            Err(e) => Err(e),
            Ok(name) => match field_required::<NooID>(m1, "image"@) {
                Err(e) => Err(e),
                Ok(image) => match field_optional::<NooID>(m2, "sampler"@) {
                    Err(e) => Err(e),
                    Ok(sampler) => Ok(TextureStateModel { name, image, sampler }),
                },
            },
        }
    }

    proof fn lemma_map_form(m: TextureStateModel) {
        let p0: Seq<(ValueModel, ValueModel)> = Seq::empty();
        let p1 = match m.name {
            Some(d) => p0.push((ValueModel::Text("name"@), ValueModel::Text(d))),
            None => p0,
        };
        if let Some(d) = m.name {
            lemma_text_map_of_push(p0, "name"@, ValueModel::Text(d));
        }
        let p2 = p1.push((ValueModel::Text("image"@), m.image.spec_to_value()));
        lemma_text_map_of_push(p1, "image"@, m.image.spec_to_value());
        let p3 = match m.sampler {
            Some(x) => p2.push((ValueModel::Text("sampler"@), x.spec_to_value())),
            None => p2,
        };
        if let Some(x) = m.sampler {
            lemma_text_map_of_push(p2, "sampler"@, x.spec_to_value());
            NooID::lemma_round_trip(x);
        }
        assert(Self::fields_spec(m) =~= p3);
        assert(text_map_of(p0) =~= Map::<Seq<char>, ValueModel>::empty());
        NooID::lemma_round_trip(m.image);
        reveal_strlit("name");
        reveal_strlit("image");
        reveal_strlit("sampler");
        reveal_strlit("id");
        assert("name"@[0] != "image"@[0]);
        assert("name"@[0] != "sampler"@[0]);
        assert("image"@[0] != "sampler"@[0]);
        assert("name"@[0] != "id"@[0]);
        assert("image"@[1] != "id"@[1]);
        assert("sampler"@[0] != "id"@[0]);
        let tm = text_map_of(p3);
        assert(tm.remove("name"@).contains_key("image"@));
    }

    fn read_from_map(map: &mut TextMap) -> (r: Result<Self, FromValueError>) {
        let name = match read_optional::<String>(map, "name") {
            Ok(x) => x,
            Err(e) => return Err(e),
        };
        let image = match read_required::<NooID>(map, "image") {
            Ok(x) => x,
            Err(e) => return Err(e),
        };
        let sampler = match read_optional::<NooID>(map, "sampler") {
            Ok(x) => x,
            Err(e) => return Err(e),
        };
        let r = TextureState { name, image, sampler };
        assert(r.deep_view().name == match name { Some(y) => Some(y.deep_view()), None => None::<Seq<char>> });
        assert(r.deep_view().sampler == match sampler { Some(y) => Some(y.deep_view()), None => None::<NooID> });
        Ok(r)
    }
}

impl CBORTransform for TextureState<NooID, NooID> {
    open spec fn encode_spec(m: TextureStateModel) -> ValueModel {
        ValueModel::Dict(Self::fields_spec(m))
    }

    open spec fn decode_spec(v: ValueModel) -> Result<TextureStateModel, FromValueErrorModel> {
        match v {
            ValueModel::Dict(p) => Self::from_map_spec(text_map_of(p)),
            _ => Err(wrong_type("Map"@, v)),
        }
    }

    fn try_from_cbor(value: CborValue) -> (r: Result<Self, FromValueError>) {
        match value {
            CborValue::Dict(m) => {
                let mut map = convert_to_value_map(m);
                Self::read_from_map(&mut map)
            },
            _ => Err(FromValueError::WrongType { expected: String::from_str("Map"), found: crate::value::get_value_type(&value) }),
        }
    }

    fn to_cbor(&self) -> (r: CborValue) {
        let mut out: Vec<(CborValue, CborValue)> = Vec::new();
        self.write_fields(&mut out);
        assert(pair_models_of(out@) =~= Self::fields_spec(self.deep_view()));
        CborValue::Dict(out)
    }

    proof fn lemma_round_trip(x: Self) {
        Self::lemma_map_form(x.deep_view());
    }
}

// =============================================================================

/// The model of the part of a table that can be updated.
pub struct TableStateUpdatableModel {
    pub meta: Option<Seq<char>>,
    pub methods_list: Option<Seq<NooID>>,
    pub signals_list: Option<Seq<NooID>>,
}

impl DeepView for TableStateUpdatable<NooID, NooID> {
    type V = TableStateUpdatableModel;

    open spec fn deep_view(&self) -> TableStateUpdatableModel {
        TableStateUpdatableModel {
            meta: opt_text(self.meta),
            methods_list: opt_seq(self.methods_list),
            signals_list: opt_seq(self.signals_list),
        }
    }
}

impl FieldWriter for TableStateUpdatable<NooID, NooID> {
    open spec fn fields_spec(m: TableStateUpdatableModel) -> Seq<(ValueModel, ValueModel)> {
        opt_text_pair("meta"@, m.meta)
        + opt_ids_pair("methods_list"@, m.methods_list)
        + opt_ids_pair("signals_list"@, m.signals_list)
    }

    fn write_fields(&self, out: &mut Vec<(CborValue, CborValue)>) {
        let ghost start = pair_models_of(out@);
        push_opt_text(out, "meta", &self.meta);
        push_opt_ids(out, "methods_list", &self.methods_list);
        push_opt_ids(out, "signals_list", &self.signals_list);
        assert(pair_models_of(out@) =~= start + Self::fields_spec(self.deep_view()));
    }
}

/// The model of a [`TableState`].
pub struct TableStateModel {
    pub name: Option<Seq<char>>,
    pub mutable: TableStateUpdatableModel,
}

impl DeepView for TableState<NooID, NooID> {
    type V = TableStateModel;

    open spec fn deep_view(&self) -> TableStateModel {
        TableStateModel { name: opt_text(self.name), mutable: self.mutable.deep_view() }
    }
}

impl FieldWriter for TableState<NooID, NooID> {
    open spec fn fields_spec(m: TableStateModel) -> Seq<(ValueModel, ValueModel)> {
        opt_text_pair("name"@, m.name) + TableStateUpdatable::<NooID, NooID>::fields_spec(m.mutable)
    }

    fn write_fields(&self, out: &mut Vec<(CborValue, CborValue)>) {
        let ghost start = pair_models_of(out@);
        push_opt_text(out, "name", &self.name);
        self.mutable.write_fields(out);
        assert(pair_models_of(out@) =~= start + Self::fields_spec(self.deep_view()));
    }
}

// =============================================================================

/// The model of the part of a plot that can be updated.
pub struct PlotStateUpdatableModel {
    pub table: Option<NooID>,
    pub methods_list: Option<Seq<NooID>>,
    pub signals_list: Option<Seq<NooID>>,
}

impl DeepView for PlotStateUpdatable<NooID, NooID, NooID> {
    type V = PlotStateUpdatableModel;

    open spec fn deep_view(&self) -> PlotStateUpdatableModel {
        PlotStateUpdatableModel {
            table: self.table,
            methods_list: opt_seq(self.methods_list),
            signals_list: opt_seq(self.signals_list),
        }
    }
}

impl FieldWriter for PlotStateUpdatable<NooID, NooID, NooID> {
    open spec fn fields_spec(m: PlotStateUpdatableModel) -> Seq<(ValueModel, ValueModel)> {
        opt_id_pair("table"@, m.table)
        + opt_ids_pair("methods_list"@, m.methods_list)
        + opt_ids_pair("signals_list"@, m.signals_list)
    }

    fn write_fields(&self, out: &mut Vec<(CborValue, CborValue)>) {
        let ghost start = pair_models_of(out@);
        push_opt_id(out, "table", &self.table);
        push_opt_ids(out, "methods_list", &self.methods_list);
        push_opt_ids(out, "signals_list", &self.signals_list);
        assert(pair_models_of(out@) =~= start + Self::fields_spec(self.deep_view()));
    }
}

/// The model of a [`PlotState`].
pub struct PlotStateModel {
    pub name: Option<Seq<char>>,
    pub mutable: PlotStateUpdatableModel,
}

impl DeepView for PlotState<NooID, NooID, NooID> {
    type V = PlotStateModel;

    open spec fn deep_view(&self) -> PlotStateModel {
        PlotStateModel { name: opt_text(self.name), mutable: self.mutable.deep_view() }
    }
}

impl FieldWriter for PlotState<NooID, NooID, NooID> {
    open spec fn fields_spec(m: PlotStateModel) -> Seq<(ValueModel, ValueModel)> {
        opt_text_pair("name"@, m.name) + PlotStateUpdatable::<NooID, NooID, NooID>::fields_spec(m.mutable)
    }

    fn write_fields(&self, out: &mut Vec<(CborValue, CborValue)>) {
        let ghost start = pair_models_of(out@);
        push_opt_text(out, "name", &self.name);
        self.mutable.write_fields(out);
        assert(pair_models_of(out@) =~= start + Self::fields_spec(self.deep_view()));
    }
}

} // verus!
