//! The CBOR form of the components a client reads: each is a map of its
//! fields, and a created component's map also carries its identifier.
use vstd::prelude::*;
use crate::nooid::{NooID, lemma_nooid_value_round_trip};
use crate::value::{CborValue, ValueModel, pair_models_of};
use crate::value_tools::{
    CBORTransform, FromValueError, FromValueErrorModel, TextMap, convert_to_value_map, text_map_of, wrong_type,
    lemma_text_map_of_push,
};
use crate::table::{field_required, field_optional, read_required, read_optional, push_pair, opt_pair, opt_seq};
use crate::components::{MethodArg, MethodState, SignalState};
use crate::types::CommonDeleteMessage;
use crate::client_components::ClientCommonTagged;

verus! {

/// A structure written as a CBOR map of its fields.
pub trait FieldWriter: DeepView + Sized {
    /// The fields of a value, in the order they are written.
    spec fn fields_spec(m: Self::V) -> Seq<(ValueModel, ValueModel)>;

    /// Append the fields of a value to a map under construction.
    fn write_fields(&self, out: &mut Vec<(CborValue, CborValue)>)
        ensures
            pair_models_of(final(out)@) == pair_models_of(old(out)@) + Self::fields_spec(self.deep_view()),
    ;
}

/// A structure that is also read back from the map of its fields.
pub trait MapTransform: FieldWriter {
    /// What reading a value from the dictionary of a map gives.
    spec fn from_map_spec(m: Map<Seq<char>, ValueModel>) -> Result<Self::V, FromValueErrorModel>;

    /// The fields hold no identifier field, and reading them back gives the value.
    proof fn lemma_map_form(m: Self::V)
        ensures
            !text_map_of(Self::fields_spec(m)).contains_key("id"@),
            Self::from_map_spec(text_map_of(Self::fields_spec(m))) == Ok::<Self::V, FromValueErrorModel>(m),
    ;

    /// Read a value from the dictionary of a map.
    fn read_from_map(map: &mut TextMap) -> (r: Result<Self, FromValueError>)
        ensures
            match r {
                Ok(x) => Self::from_map_spec(old(map)@) == Ok::<Self::V, FromValueErrorModel>(x.deep_view()),
                Err(e) => Self::from_map_spec(old(map)@) == Err::<Self::V, FromValueErrorModel>(e@),
            },
    ;
}

/// A key-value prefix in front of fields that lack the key: the dictionary is
/// the fields' dictionary with the key added.
pub proof fn lemma_text_map_of_prefix(k: Seq<char>, v: ValueModel, f: Seq<(ValueModel, ValueModel)>)
    requires
        !text_map_of(f).contains_key(k),
    ensures
        text_map_of(seq![(ValueModel::Text(k), v)] + f) == text_map_of(f).insert(k, v),
    decreases f.len(),
{
    let p = seq![(ValueModel::Text(k), v)];
    if f.len() == 0 {
        assert(p + f =~= p);
        assert(p.drop_last() =~= Seq::<(ValueModel, ValueModel)>::empty());
        assert(p.len() == 1);
        assert(p.last() == (ValueModel::Text(k), v));
        assert(text_map_of(p.drop_last()) =~= Map::<Seq<char>, ValueModel>::empty());
        assert(text_map_of(p) =~= Map::<Seq<char>, ValueModel>::empty().insert(k, v));
        assert(text_map_of(f) =~= Map::<Seq<char>, ValueModel>::empty());
    } else {
        let g = f.drop_last();
        assert((p + f).drop_last() =~= p + g);
        assert((p + f).last() == f.last());
        match f.last().0 {
            ValueModel::Text(k2) => {
                assert(k2 != k);
                assert(!text_map_of(g).contains_key(k));
            },
            _ => {},
        }
        lemma_text_map_of_prefix(k, v, g);
        assert(text_map_of(p + f) =~= text_map_of(f).insert(k, v));
    }
}

// =============================================================================

impl DeepView for MethodArg {
    type V = MethodArgModel;

    open spec fn deep_view(&self) -> MethodArgModel {
        MethodArgModel { name: self.name@, doc: opt_text(self.doc) }
    }
}

/// The model of a [`MethodArg`].
pub struct MethodArgModel {
    pub name: Seq<char>,
    pub doc: Option<Seq<char>>,
}

/// The model of an optional text.
pub open spec fn opt_text(o: Option<String>) -> Option<Seq<char>> {
    match o {
        Some(s) => Some(s@),
        None => None,
    }
}

/// The pair of an optional text field.
pub open spec fn opt_text_pair(key: Seq<char>, o: Option<Seq<char>>) -> Seq<(ValueModel, ValueModel)> {
    opt_pair(key, match o { Some(s) => Some(ValueModel::Text(s)), None => None })
}

pub(crate) fn push_opt_text(out: &mut Vec<(CborValue, CborValue)>, key: &str, o: &Option<String>)
    ensures
        pair_models_of(final(out)@) == pair_models_of(old(out)@) + opt_text_pair(key@, opt_text(*o)),
{
    match o {
        Some(s) => push_pair(out, key, CborValue::Text(s.clone())),
        None => {},
    }
    assert(pair_models_of(out@) =~= pair_models_of(old(out)@) + opt_text_pair(key@, opt_text(*o)));
}

impl FieldWriter for MethodArg {
    open spec fn fields_spec(m: MethodArgModel) -> Seq<(ValueModel, ValueModel)> {
        seq![(ValueModel::Text("name"@), ValueModel::Text(m.name))] + opt_text_pair("doc"@, m.doc)
    }

    fn write_fields(&self, out: &mut Vec<(CborValue, CborValue)>) {
        let ghost start = pair_models_of(out@);
        push_pair(out, "name", CborValue::Text(self.name.clone()));
        push_opt_text(out, "doc", &self.doc);
        assert(pair_models_of(out@) =~= start + Self::fields_spec(self.deep_view()));
    }
}

impl MapTransform for MethodArg {
    open spec fn from_map_spec(m: Map<Seq<char>, ValueModel>) -> Result<MethodArgModel, FromValueErrorModel> {
        match field_required::<String>(m, "name"@) {
            Err(e) => Err(e),
            Ok(name) => match field_optional::<String>(m.remove("name"@), "doc"@) {
                Err(e) => Err(e),
                Ok(doc) => Ok(MethodArgModel { name, doc }),
            },
        }
    }

    proof fn lemma_map_form(m: MethodArgModel) {
        let p0: Seq<(ValueModel, ValueModel)> = Seq::empty();
        let p1 = p0.push((ValueModel::Text("name"@), ValueModel::Text(m.name)));
        lemma_text_map_of_push(p0, "name"@, ValueModel::Text(m.name));
        let p2 = match m.doc {
            Some(d) => p1.push((ValueModel::Text("doc"@), ValueModel::Text(d))),
            None => p1,
        };
        if let Some(d) = m.doc {
            lemma_text_map_of_push(p1, "doc"@, ValueModel::Text(d));
        }
        assert(Self::fields_spec(m) =~= p2);
        assert(text_map_of(p0) =~= Map::<Seq<char>, ValueModel>::empty());
        reveal_strlit("name");
        reveal_strlit("doc");
        reveal_strlit("id");
        assert("name"@[0] != "doc"@[0]);
        assert("name"@[0] != "id"@[0]);
        assert("doc"@[0] != "id"@[0]);
    }

    fn read_from_map(map: &mut TextMap) -> (r: Result<Self, FromValueError>) {
        let name = match read_required::<String>(map, "name") {
            Ok(x) => x,
            Err(e) => return Err(e),
        };
        let doc = match read_optional::<String>(map, "doc") {
            Ok(x) => x,
            Err(e) => return Err(e),
        };
        let r = MethodArg { name, doc };
        assert(r.deep_view().doc == match doc { Some(y) => Some(y.deep_view()), None => None::<Seq<char>> });
        Ok(r)
    }
}

impl CBORTransform for MethodArg {
    open spec fn encode_spec(m: MethodArgModel) -> ValueModel {
        ValueModel::Dict(Self::fields_spec(m))
    }

    open spec fn decode_spec(v: ValueModel) -> Result<MethodArgModel, FromValueErrorModel> {
        match v {
            ValueModel::Dict(p) => Self::from_map_spec(text_map_of(p)),
            _ => Err(wrong_type("Map"@, v)),
        }
    }

    fn try_from_cbor(value: CborValue) -> (r: Result<Self, FromValueError>) {
        match value {
            CborValue::Dict(m) => {
                let mut map = convert_to_value_map(m);
                Self::read_from_map(&mut map)
            },
            _ => Err(FromValueError::WrongType { expected: String::from_str("Map"), found: crate::value::get_value_type(&value) }),
        }
    }

    fn to_cbor(&self) -> (r: CborValue) {
        let mut out: Vec<(CborValue, CborValue)> = Vec::new();
        self.write_fields(&mut out);
        assert(pair_models_of(out@) =~= Self::fields_spec(self.deep_view()));
        CborValue::Dict(out)
    }

    proof fn lemma_round_trip(x: Self) {
        Self::lemma_map_form(x.deep_view());
    }
}

// =============================================================================

/// The part of a method that travels: the method's own state stays behind.
pub struct MethodStateModel {
    pub name: Seq<char>,
    pub doc: Option<Seq<char>>,
    pub return_doc: Option<Seq<char>>,
    pub arg_doc: Seq<MethodArgModel>,
}

impl<Extra> DeepView for MethodState<Extra> {
    type V = MethodStateModel;

    open spec fn deep_view(&self) -> MethodStateModel {
        MethodStateModel {
            name: self.name@,
            doc: opt_text(self.doc),
            return_doc: opt_text(self.return_doc),
            arg_doc: self.arg_doc.deep_view(),
        }
    }
}

impl<Extra> FieldWriter for MethodState<Extra> {
    open spec fn fields_spec(m: MethodStateModel) -> Seq<(ValueModel, ValueModel)> {
        seq![(ValueModel::Text("name"@), ValueModel::Text(m.name))]
        + opt_text_pair("doc"@, m.doc)
        + opt_text_pair("return_doc"@, m.return_doc)
        + seq![(ValueModel::Text("arg_doc"@), <Vec<MethodArg> as CBORTransform>::encode_spec(m.arg_doc))]
    }

    fn write_fields(&self, out: &mut Vec<(CborValue, CborValue)>) {
        let ghost start = pair_models_of(out@);
        push_pair(out, "name", CborValue::Text(self.name.clone()));
        push_opt_text(out, "doc", &self.doc);
        push_opt_text(out, "return_doc", &self.return_doc);
        push_pair(out, "arg_doc", self.arg_doc.to_cbor());
        assert(pair_models_of(out@) =~= start + Self::fields_spec(self.deep_view()));
    }
}

impl<Extra: Default> MapTransform for MethodState<Extra> {
    open spec fn from_map_spec(m: Map<Seq<char>, ValueModel>) -> Result<MethodStateModel, FromValueErrorModel> {
        let m1 = m.remove("name"@);
        let m2 = m1.remove("doc"@);
        let m3 = m2.remove("return_doc"@);
        match field_required::<String>(m, "name"@) {
            Err(e) => Err(e),
            Ok(name) => match field_optional::<String>(m1, "doc"@) {
                Err(e) => Err(e),
                Ok(doc) => match field_optional::<String>(m2, "return_doc"@) {
                    Err(e) => Err(e),
                    Ok(return_doc) => match field_required::<Vec<MethodArg>>(m3, "arg_doc"@) {
                        Err(e) => Err(e),
                        Ok(arg_doc) => Ok(MethodStateModel { name, doc, return_doc, arg_doc }),
                    },
                },
            },
        }
    }

    proof fn lemma_map_form(m: MethodStateModel) {
        let ea = <Vec<MethodArg> as CBORTransform>::encode_spec(m.arg_doc);
        let p0: Seq<(ValueModel, ValueModel)> = Seq::empty();
        let p1 = p0.push((ValueModel::Text("name"@), ValueModel::Text(m.name)));
        lemma_text_map_of_push(p0, "name"@, ValueModel::Text(m.name));
        let p2 = match m.doc {
            Some(d) => p1.push((ValueModel::Text("doc"@), ValueModel::Text(d))),
            None => p1,
        };
        if let Some(d) = m.doc {
            lemma_text_map_of_push(p1, "doc"@, ValueModel::Text(d));
        }
        let p3 = match m.return_doc {
            Some(d) => p2.push((ValueModel::Text("return_doc"@), ValueModel::Text(d))),
            None => p2,
        };
        if let Some(d) = m.return_doc {
            lemma_text_map_of_push(p2, "return_doc"@, ValueModel::Text(d));
        }
        let p4 = p3.push((ValueModel::Text("arg_doc"@), ea));
        lemma_text_map_of_push(p3, "arg_doc"@, ea);
        lemma_seq_round_trip_method_args(m.arg_doc);
        assert(Self::fields_spec(m) =~= p4);
        assert(text_map_of(p0) =~= Map::<Seq<char>, ValueModel>::empty());
        reveal_strlit("name");
        reveal_strlit("doc");
        reveal_strlit("return_doc");
        reveal_strlit("arg_doc");
        reveal_strlit("id");
        assert("name"@[0] != "doc"@[0]);
        assert("name"@[0] != "return_doc"@[0]);
        assert("name"@[0] != "arg_doc"@[0]);
        assert("doc"@[0] != "return_doc"@[0]);
        assert("doc"@[0] != "arg_doc"@[0]);
        assert("return_doc"@[0] != "arg_doc"@[0]);
        assert("name"@[0] != "id"@[0]);
        assert("doc"@[0] != "id"@[0]);
        assert("return_doc"@[0] != "id"@[0]);
        assert("arg_doc"@[0] != "id"@[0]);
        let tm = text_map_of(p4);
        assert(tm.contains_key("name"@));
        assert(tm.remove("name"@).remove("doc"@).remove("return_doc"@).contains_key("arg_doc"@));
    }

    fn read_from_map(map: &mut TextMap) -> (r: Result<Self, FromValueError>) {
        let name = match read_required::<String>(map, "name") {
            Ok(x) => x,
            Err(e) => return Err(e),
        };
        let doc = match read_optional::<String>(map, "doc") {
            Ok(x) => x,
            Err(e) => return Err(e),
        };
        let return_doc = match read_optional::<String>(map, "return_doc") {
            Ok(x) => x,
            Err(e) => return Err(e),
        };
        let arg_doc = match read_required::<Vec<MethodArg>>(map, "arg_doc") {
            Ok(x) => x,
            Err(e) => return Err(e),
        };
        let r = MethodState { name, doc, return_doc, arg_doc, state: Extra::default() };
        assert(r.deep_view().doc == match doc { Some(y) => Some(y.deep_view()), None => None::<Seq<char>> });
        assert(r.deep_view().return_doc == match return_doc { Some(y) => Some(y.deep_view()), None => None::<Seq<char>> });
        Ok(r)
    }
}

impl<Extra: Default> CBORTransform for MethodState<Extra> {
    open spec fn encode_spec(m: MethodStateModel) -> ValueModel {
        ValueModel::Dict(Self::fields_spec(m))
    }

    open spec fn decode_spec(v: ValueModel) -> Result<MethodStateModel, FromValueErrorModel> {
        match v {
            ValueModel::Dict(p) => Self::from_map_spec(text_map_of(p)),
            _ => Err(wrong_type("Map"@, v)),
        }
    }

    fn try_from_cbor(value: CborValue) -> (r: Result<Self, FromValueError>) {
        match value {
            CborValue::Dict(m) => {
                let mut map = convert_to_value_map(m);
                Self::read_from_map(&mut map)
            },
            _ => Err(FromValueError::WrongType { expected: String::from_str("Map"), found: crate::value::get_value_type(&value) }),
        }
    }

    fn to_cbor(&self) -> (r: CborValue) {
        let mut out: Vec<(CborValue, CborValue)> = Vec::new();
        self.write_fields(&mut out);
        assert(pair_models_of(out@) =~= Self::fields_spec(self.deep_view()));
        CborValue::Dict(out)
    }

    proof fn lemma_round_trip(x: Self) {
        Self::lemma_map_form(x.deep_view());
    }
}

/// Reading back written method arguments gives them back.
proof fn lemma_seq_round_trip_method_args(s: Seq<MethodArgModel>)
    ensures
        <Vec<MethodArg> as CBORTransform>::decode_spec(<Vec<MethodArg> as CBORTransform>::encode_spec(s))
            == Ok::<Seq<MethodArgModel>, FromValueErrorModel>(s),
    decreases s.len(),
{
    let enc = s.map_values(|e: MethodArgModel| MethodArg::encode_spec(e));
    lemma_decode_method_args(s);
}

proof fn lemma_decode_method_args(s: Seq<MethodArgModel>)
    ensures
        crate::value_tools::decode_seq::<MethodArg>(s.map_values(|e: MethodArgModel| MethodArg::encode_spec(e)))
            == Ok::<Seq<MethodArgModel>, FromValueErrorModel>(s),
    decreases s.len(),
{
    if s.len() > 0 {
        lemma_decode_method_args(s.drop_last());
        MethodArg::lemma_map_form(s.last());
        let enc = s.map_values(|e: MethodArgModel| MethodArg::encode_spec(e));
        assert(enc.drop_last() =~= s.drop_last().map_values(|e: MethodArgModel| MethodArg::encode_spec(e)));
        assert(s.drop_last().push(s.last()) =~= s);
    } else {
        assert(s.map_values(|e: MethodArgModel| MethodArg::encode_spec(e)) =~= Seq::<ValueModel>::empty());
        assert(s =~= Seq::<MethodArgModel>::empty());
    }
}

// =============================================================================

/// The part of a signal that travels: the signal's own state stays behind.
pub struct SignalStateModel {
    pub name: Seq<char>,
    pub doc: Option<Seq<char>>,
    pub arg_doc: Seq<MethodArgModel>,
}

impl<Extra> DeepView for SignalState<Extra> {
    type V = SignalStateModel;

    open spec fn deep_view(&self) -> SignalStateModel {
        SignalStateModel { name: self.name@, doc: opt_text(self.doc), arg_doc: self.arg_doc.deep_view() }
    }
}

impl<Extra> FieldWriter for SignalState<Extra> {
    open spec fn fields_spec(m: SignalStateModel) -> Seq<(ValueModel, ValueModel)> {
        seq![(ValueModel::Text("name"@), ValueModel::Text(m.name))]
        + opt_text_pair("doc"@, m.doc)
        + seq![(ValueModel::Text("arg_doc"@), <Vec<MethodArg> as CBORTransform>::encode_spec(m.arg_doc))]
    }

    fn write_fields(&self, out: &mut Vec<(CborValue, CborValue)>) {
        let ghost start = pair_models_of(out@);
        push_pair(out, "name", CborValue::Text(self.name.clone()));
        push_opt_text(out, "doc", &self.doc);
        push_pair(out, "arg_doc", self.arg_doc.to_cbor());
        assert(pair_models_of(out@) =~= start + Self::fields_spec(self.deep_view()));
    }
}

impl<Extra: Default> MapTransform for SignalState<Extra> {
    open spec fn from_map_spec(m: Map<Seq<char>, ValueModel>) -> Result<SignalStateModel, FromValueErrorModel> {
        let m1 = m.remove("name"@);
        let m2 = m1.remove("doc"@);
        match field_required::<String>(m, "name"@) {
            Err(e) => Err(e),
            Ok(name) => match field_optional::<String>(m1, "doc"@) {
                Err(e) => Err(e),
                Ok(doc) => match field_required::<Vec<MethodArg>>(m2, "arg_doc"@) {
                    Err(e) => Err(e),
                    Ok(arg_doc) => Ok(SignalStateModel { name, doc, arg_doc }),
                },
            },
        }
    }

    proof fn lemma_map_form(m: SignalStateModel) {
        let ea = <Vec<MethodArg> as CBORTransform>::encode_spec(m.arg_doc);
        let p0: Seq<(ValueModel, ValueModel)> = Seq::empty();
        let p1 = p0.push((ValueModel::Text("name"@), ValueModel::Text(m.name)));
        lemma_text_map_of_push(p0, "name"@, ValueModel::Text(m.name));
        let p2 = match m.doc {
            Some(d) => p1.push((ValueModel::Text("doc"@), ValueModel::Text(d))),
            None => p1,
        };
        if let Some(d) = m.doc {
            lemma_text_map_of_push(p1, "doc"@, ValueModel::Text(d));
        }
        let p3 = p2.push((ValueModel::Text("arg_doc"@), ea));
        lemma_text_map_of_push(p2, "arg_doc"@, ea);
        lemma_seq_round_trip_method_args(m.arg_doc);
        assert(Self::fields_spec(m) =~= p3);
        assert(text_map_of(p0) =~= Map::<Seq<char>, ValueModel>::empty());
        reveal_strlit("name");
        reveal_strlit("doc");
        reveal_strlit("arg_doc");
        reveal_strlit("id");
        assert("name"@[0] != "doc"@[0]);
        assert("name"@[0] != "arg_doc"@[0]);
        assert("doc"@[0] != "arg_doc"@[0]);
        assert("name"@[0] != "id"@[0]);
        assert("doc"@[0] != "id"@[0]);
        assert("arg_doc"@[0] != "id"@[0]);
        let tm = text_map_of(p3);
        assert(tm.contains_key("name"@));
        assert(tm.remove("name"@).remove("doc"@).contains_key("arg_doc"@));
    }

    fn read_from_map(map: &mut TextMap) -> (r: Result<Self, FromValueError>) {
        let name = match read_required::<String>(map, "name") {
            Ok(x) => x,
            Err(e) => return Err(e),
        };
        let doc = match read_optional::<String>(map, "doc") {
            Ok(x) => x,
            Err(e) => return Err(e),
        };
        let arg_doc = match read_required::<Vec<MethodArg>>(map, "arg_doc") {
            Ok(x) => x,
            Err(e) => return Err(e),
        };
        let r = SignalState { name, doc, arg_doc, state: Extra::default() };
        assert(r.deep_view().doc == match doc { Some(y) => Some(y.deep_view()), None => None::<Seq<char>> });
        Ok(r)
    }
}

impl<Extra: Default> CBORTransform for SignalState<Extra> {
    open spec fn encode_spec(m: SignalStateModel) -> ValueModel {
        ValueModel::Dict(Self::fields_spec(m))
    }

    open spec fn decode_spec(v: ValueModel) -> Result<SignalStateModel, FromValueErrorModel> {
        match v {
            ValueModel::Dict(p) => Self::from_map_spec(text_map_of(p)),
            _ => Err(wrong_type("Map"@, v)),
        }
    }

    fn try_from_cbor(value: CborValue) -> (r: Result<Self, FromValueError>) {
        match value {
            CborValue::Dict(m) => {
                let mut map = convert_to_value_map(m);
                Self::read_from_map(&mut map)
            },
            _ => Err(FromValueError::WrongType { expected: String::from_str("Map"), found: crate::value::get_value_type(&value) }),
        }
    }

    fn to_cbor(&self) -> (r: CborValue) {
        let mut out: Vec<(CborValue, CborValue)> = Vec::new();
        self.write_fields(&mut out);
        assert(pair_models_of(out@) =~= Self::fields_spec(self.deep_view()));
        CborValue::Dict(out)
    }

    proof fn lemma_round_trip(x: Self) {
        Self::lemma_map_form(x.deep_view());
    }
}

// =============================================================================

impl DeepView for CommonDeleteMessage<NooID> {
    type V = NooID;

    open spec fn deep_view(&self) -> NooID {
        self.id
    }
}

impl CBORTransform for CommonDeleteMessage<NooID> {
    open spec fn encode_spec(m: NooID) -> ValueModel {
        ValueModel::Dict(seq![(ValueModel::Text("id"@), m.spec_to_value())])
    }

    open spec fn decode_spec(v: ValueModel) -> Result<NooID, FromValueErrorModel> {
        match v {
            ValueModel::Dict(p) => field_required::<NooID>(text_map_of(p), "id"@),
            _ => Err(wrong_type("Map"@, v)),
        }
    }

    fn try_from_cbor(value: CborValue) -> (r: Result<Self, FromValueError>) {
        match value {
            CborValue::Dict(m) => {
                let mut map = convert_to_value_map(m);
                match read_required::<NooID>(&mut map, "id") {
                    Ok(id) => Ok(CommonDeleteMessage { id }),
                    Err(e) => Err(e),
                }
            },
            _ => Err(FromValueError::WrongType { expected: String::from_str("Map"), found: crate::value::get_value_type(&value) }),
        }
    }

    fn to_cbor(&self) -> (r: CborValue) {
        let mut out: Vec<(CborValue, CborValue)> = Vec::new();
        push_pair(&mut out, "id", self.id.to_value());
        assert(pair_models_of(out@) =~= seq![(ValueModel::Text("id"@), self.id.spec_to_value())]);
        CborValue::Dict(out)
    }

    proof fn lemma_round_trip(x: Self) {
        lemma_nooid_value_round_trip(x.id);
        let p0: Seq<(ValueModel, ValueModel)> = Seq::empty();
        lemma_text_map_of_push(p0, "id"@, x.id.spec_to_value());
        assert(p0.push((ValueModel::Text("id"@), x.id.spec_to_value())) =~= seq![(ValueModel::Text("id"@), x.id.spec_to_value())]);
        assert(text_map_of(p0) =~= Map::<Seq<char>, ValueModel>::empty());
    }
}

// =============================================================================

impl<N: DeepView> DeepView for ClientCommonTagged<NooID, N> {
    type V = (NooID, N::V);

    open spec fn deep_view(&self) -> (NooID, N::V) {
        (self.id, self.content.deep_view())
    }
}

impl<N: MapTransform> CBORTransform for ClientCommonTagged<NooID, N> {
    /// The identifier, then the fields of the content, in one map.
    open spec fn encode_spec(m: (NooID, N::V)) -> ValueModel {
        ValueModel::Dict(seq![(ValueModel::Text("id"@), m.0.spec_to_value())] + N::fields_spec(m.1))
    }

    open spec fn decode_spec(v: ValueModel) -> Result<(NooID, N::V), FromValueErrorModel> {
        match v {
            ValueModel::Dict(p) => {
                let m = text_map_of(p);
                match field_required::<NooID>(m, "id"@) {
                    Err(e) => Err(e),
                    Ok(id) => match N::from_map_spec(m.remove("id"@)) {
                        Err(e) => Err(e),
                        Ok(c) => Ok((id, c)),
                    },
                }
            },
            _ => Err(wrong_type("Map"@, v)),
        }
    }

    fn try_from_cbor(value: CborValue) -> (r: Result<Self, FromValueError>) {
        match value {
            CborValue::Dict(m) => {
                let mut map = convert_to_value_map(m);
                let id = match read_required::<NooID>(&mut map, "id") {
                    Ok(id) => id,
                    Err(e) => return Err(e),
                };
                match N::read_from_map(&mut map) {
                    Ok(content) => Ok(ClientCommonTagged { id, content }),
                    Err(e) => Err(e),
                }
            },
            _ => Err(FromValueError::WrongType { expected: String::from_str("Map"), found: crate::value::get_value_type(&value) }),
        }
    }

    fn to_cbor(&self) -> (r: CborValue) {
        let mut out: Vec<(CborValue, CborValue)> = Vec::new();
        push_pair(&mut out, "id", self.id.to_value());
        self.content.write_fields(&mut out);
        assert(pair_models_of(out@) =~= seq![(ValueModel::Text("id"@), self.id.spec_to_value())] + N::fields_spec(self.content.deep_view()));
        CborValue::Dict(out)
    }

    proof fn lemma_round_trip(x: Self) {
        let f = N::fields_spec(x.content.deep_view());
        N::lemma_map_form(x.content.deep_view());
        lemma_nooid_value_round_trip(x.id);
        lemma_text_map_of_prefix("id"@, x.id.spec_to_value(), f);
        let m = text_map_of(seq![(ValueModel::Text("id"@), x.id.spec_to_value())] + f);
        assert(m.remove("id"@) =~= text_map_of(f));
    }
}

} // verus!

