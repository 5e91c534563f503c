//! The CBOR form of the document messages a server sends: each is a map of
//! its present fields.
use vstd::prelude::*;
use crate::nooid::NooID;
use crate::value::{CborValue, ValueModel, pair_models_of};
use crate::value_tools::{
    CBORTransform, FromValueError, FromValueErrorModel, convert_to_value_map, text_map_of, wrong_type,
    lemma_text_map_of_push, lemma_value_list_round_trip, lemma_vec_model_round_trip,
};
use crate::table::{field_required, field_optional, read_required, read_optional, push_pair, opt_pair, opt_seq};
use crate::server_communication::{
    SignalInvokeObj, MessageSignalInvoke, MessageMethodReply, MethodException, MethodExceptionModel,
    DocumentUpdate, lemma_exception_round_trip,
};
use crate::component_codec::opt_text;

verus! {

/// The pair of an optional identifier field.
pub open spec fn opt_id_pair(key: Seq<char>, o: Option<NooID>) -> Seq<(ValueModel, ValueModel)> {
    opt_pair(key, match o { Some(id) => Some(id.spec_to_value()), None => None })
}

/// The pair of an optional list of identifiers.
pub open spec fn opt_ids_pair(key: Seq<char>, o: Option<Seq<NooID>>) -> Seq<(ValueModel, ValueModel)> {
    opt_pair(key, match o { Some(s) => Some(<Vec<NooID> as CBORTransform>::encode_spec(s)), None => None })
}

pub(crate) fn push_opt_id(out: &mut Vec<(CborValue, CborValue)>, key: &str, o: &Option<NooID>)
    ensures
        pair_models_of(final(out)@) == pair_models_of(old(out)@) + opt_id_pair(key@, *o),
{
    match o {
        Some(id) => push_pair(out, key, id.to_value()),
        None => {},
    }
    assert(pair_models_of(out@) =~= pair_models_of(old(out)@) + opt_id_pair(key@, *o));
}

pub(crate) fn push_opt_ids(out: &mut Vec<(CborValue, CborValue)>, key: &str, o: &Option<Vec<NooID>>)
    ensures
        pair_models_of(final(out)@) == pair_models_of(old(out)@) + opt_ids_pair(key@, opt_seq(*o)),
{
    match o {
        Some(ids) => push_pair(out, key, ids.to_cbor()),
        None => {},
    }
    assert(pair_models_of(out@) =~= pair_models_of(old(out)@) + opt_ids_pair(key@, opt_seq(*o)));
}

/// Every identifier reads back from the value written for it.
proof fn lemma_ids_round_trip(s: Seq<NooID>)
    ensures
        <Vec<NooID> as CBORTransform>::decode_spec(<Vec<NooID> as CBORTransform>::encode_spec(s)) == Ok::<
            Seq<NooID>,
            FromValueErrorModel,
        >(s),
{
    assert forall|x: NooID| NooID::decode_spec(#[trigger] NooID::encode_spec(x)) == Ok::<NooID, FromValueErrorModel>(x) by {
        NooID::lemma_round_trip(x);
    }
    lemma_vec_model_round_trip::<NooID>(s);
}

// =============================================================================

impl DeepView for SignalInvokeObj<NooID, NooID, NooID> {
    type V = SignalInvokeObj<NooID, NooID, NooID>;

    open spec fn deep_view(&self) -> SignalInvokeObj<NooID, NooID, NooID> {
        *self
    }
}

impl CBORTransform for SignalInvokeObj<NooID, NooID, NooID> {
    open spec fn encode_spec(m: SignalInvokeObj<NooID, NooID, NooID>) -> ValueModel {
        ValueModel::Dict(opt_id_pair("entity"@, m.entity) + opt_id_pair("table"@, m.table) + opt_id_pair("plot"@, m.plot))
    }

    open spec fn decode_spec(v: ValueModel) -> Result<SignalInvokeObj<NooID, NooID, NooID>, FromValueErrorModel> {
        match v {
            ValueModel::Dict(p) => {
                let m0 = text_map_of(p);
                let m1 = m0.remove("entity"@);
                let m2 = m1.remove("table"@);
                match field_optional::<NooID>(m0, "entity"@) {
                    Err(e) => Err(e),
                    Ok(entity) => match field_optional::<NooID>(m1, "table"@) {
                        Err(e) => Err(e),
                        Ok(table) => match field_optional::<NooID>(m2, "plot"@) {
                            Err(e) => Err(e),
                            Ok(plot) => Ok(SignalInvokeObj { entity, table, plot }),
                        },
                    },
                }
            },
            _ => Err(wrong_type("Map"@, v)),
        }
    }

    fn try_from_cbor(value: CborValue) -> (r: Result<Self, FromValueError>) {
        match value {
            CborValue::Dict(m) => {
                let mut map = convert_to_value_map(m);
                let entity = match read_optional::<NooID>(&mut map, "entity") {
                    Ok(x) => x,
                    Err(e) => return Err(e),
                };
                let table = match read_optional::<NooID>(&mut map, "table") {
                    Ok(x) => x,
                    Err(e) => return Err(e),
                };
                let plot = match read_optional::<NooID>(&mut map, "plot") {
                    Ok(x) => x,
                    Err(e) => return Err(e),
                };
                Ok(SignalInvokeObj { entity, table, plot })
            },
            _ => Err(FromValueError::WrongType { expected: String::from_str("Map"), found: crate::value::get_value_type(&value) }),
        }
    }

    fn to_cbor(&self) -> (r: CborValue) {
        let mut out: Vec<(CborValue, CborValue)> = Vec::new();
        push_opt_id(&mut out, "entity", &self.entity);
        push_opt_id(&mut out, "table", &self.table);
        push_opt_id(&mut out, "plot", &self.plot);
        assert(pair_models_of(out@) =~= Self::encode_spec(*self)->Dict_0);
        CborValue::Dict(out)
    }

    proof fn lemma_round_trip(x: Self) {
        let p0: Seq<(ValueModel, ValueModel)> = Seq::empty();
        let p1 = match x.entity {
            Some(id) => p0.push((ValueModel::Text("entity"@), id.spec_to_value())),
            None => p0,
        };
        if let Some(id) = x.entity {
            lemma_text_map_of_push(p0, "entity"@, id.spec_to_value());
            NooID::lemma_round_trip(id);
        }
        let p2 = match x.table {
            Some(id) => p1.push((ValueModel::Text("table"@), id.spec_to_value())),
            None => p1,
        };
        if let Some(id) = x.table {
            lemma_text_map_of_push(p1, "table"@, id.spec_to_value());
            NooID::lemma_round_trip(id);
        }
        let p3 = match x.plot {
            Some(id) => p2.push((ValueModel::Text("plot"@), id.spec_to_value())),
            None => p2,
        };
        if let Some(id) = x.plot {
            lemma_text_map_of_push(p2, "plot"@, id.spec_to_value());
            NooID::lemma_round_trip(id);
        }
        assert(Self::encode_spec(x)->Dict_0 =~= p3);
        assert(text_map_of(p0) =~= Map::<Seq<char>, ValueModel>::empty());
        reveal_strlit("entity");
        reveal_strlit("table");
        reveal_strlit("plot");
        assert("entity"@[0] != "table"@[0]);
        assert("entity"@[0] != "plot"@[0]);
        assert("table"@[0] != "plot"@[0]);
    }
}

// =============================================================================

/// The model of a [`MessageSignalInvoke`].
pub struct MessageSignalInvokeModel {
    pub id: NooID,
    pub context: Option<SignalInvokeObj<NooID, NooID, NooID>>,
    pub signal_data: Seq<ValueModel>,
}

impl DeepView for MessageSignalInvoke<NooID, NooID, NooID> {
    type V = MessageSignalInvokeModel;

    open spec fn deep_view(&self) -> MessageSignalInvokeModel {
        MessageSignalInvokeModel { id: self.id, context: self.context, signal_data: self.signal_data.deep_view() }
    }
}

impl CBORTransform for MessageSignalInvoke<NooID, NooID, NooID> {
    open spec fn encode_spec(m: MessageSignalInvokeModel) -> ValueModel {
        ValueModel::Dict(
            seq![(ValueModel::Text("id"@), m.id.spec_to_value())]
            + opt_pair("context"@, match m.context {
                Some(c) => Some(<SignalInvokeObj<NooID, NooID, NooID> as CBORTransform>::encode_spec(c)),
                None => None,
            })
            + seq![(ValueModel::Text("signal_data"@), <Vec<CborValue> as CBORTransform>::encode_spec(m.signal_data))],
        )
    }

    open spec fn decode_spec(v: ValueModel) -> Result<MessageSignalInvokeModel, FromValueErrorModel> {
        match v {
            ValueModel::Dict(p) => {
                let m0 = text_map_of(p);
                let m1 = m0.remove("id"@);
                let m2 = m1.remove("context"@);
                match field_required::<NooID>(m0, "id"@) {
                    Err(e) => Err(e),
                    Ok(id) => match field_optional::<SignalInvokeObj<NooID, NooID, NooID>>(m1, "context"@) {
                        Err(e) => Err(e),
                        Ok(context) => match field_required::<Vec<CborValue>>(m2, "signal_data"@) {
                            Err(e) => Err(e),
                            Ok(signal_data) => Ok(MessageSignalInvokeModel { id, context, signal_data }),
                        },
                    },
                }
            },
            _ => Err(wrong_type("Map"@, v)),
        }
    }

    fn try_from_cbor(value: CborValue) -> (r: Result<Self, FromValueError>) {
        match value {
            CborValue::Dict(m) => {
                let mut map = convert_to_value_map(m);
                let id = match read_required::<NooID>(&mut map, "id") {
                    Ok(x) => x,
                    Err(e) => return Err(e),
                };
                let context = match read_optional::<SignalInvokeObj<NooID, NooID, NooID>>(&mut map, "context") {
                    Ok(x) => x,
                    Err(e) => return Err(e),
                };
                let signal_data = match read_required::<Vec<CborValue>>(&mut map, "signal_data") {
                    Ok(x) => x,
                    Err(e) => return Err(e),
                };
                Ok(MessageSignalInvoke { id, context, signal_data })
            },
            _ => Err(FromValueError::WrongType { expected: String::from_str("Map"), found: crate::value::get_value_type(&value) }),
        }
    }

    fn to_cbor(&self) -> (r: CborValue) {
        let mut out: Vec<(CborValue, CborValue)> = Vec::new();
        push_pair(&mut out, "id", self.id.to_value());
        match &self.context {
            Some(c) => push_pair(&mut out, "context", c.to_cbor()),
            None => {},
        }
        push_pair(&mut out, "signal_data", self.signal_data.to_cbor());
        assert(pair_models_of(out@) =~= Self::encode_spec(self.deep_view())->Dict_0);
        CborValue::Dict(out)
    }

    proof fn lemma_round_trip(x: Self) {
        let m = x.deep_view();
        let ed = <Vec<CborValue> as CBORTransform>::encode_spec(m.signal_data);
        let p0: Seq<(ValueModel, ValueModel)> = Seq::empty();
        let p1 = p0.push((ValueModel::Text("id"@), m.id.spec_to_value()));
        lemma_text_map_of_push(p0, "id"@, m.id.spec_to_value());
        NooID::lemma_round_trip(m.id);
        let p2 = match m.context {
            Some(c) => p1.push((ValueModel::Text("context"@), <SignalInvokeObj<NooID, NooID, NooID> as CBORTransform>::encode_spec(c))),
            None => p1,
        };
        if let Some(c) = m.context {
            lemma_text_map_of_push(p1, "context"@, <SignalInvokeObj<NooID, NooID, NooID> as CBORTransform>::encode_spec(c));
            <SignalInvokeObj<NooID, NooID, NooID> as CBORTransform>::lemma_round_trip(c);
        }
        let p3 = p2.push((ValueModel::Text("signal_data"@), ed));
        lemma_text_map_of_push(p2, "signal_data"@, ed);
        lemma_value_list_round_trip(m.signal_data);
        assert(Self::encode_spec(m)->Dict_0 =~= p3);
        assert(text_map_of(p0) =~= Map::<Seq<char>, ValueModel>::empty());
        reveal_strlit("id");
        reveal_strlit("context");
        reveal_strlit("signal_data");
        assert("id"@[0] != "context"@[0]);
        assert("id"@[0] != "signal_data"@[0]);
        assert("context"@[0] != "signal_data"@[0]);
        let tm = text_map_of(p3);
        assert(tm.contains_key("id"@));
        assert(tm.remove("id"@).remove("context"@).contains_key("signal_data"@));
    }
}

// =============================================================================

/// The model of a [`MessageMethodReply`].
pub struct MessageMethodReplyModel {
    pub invoke_id: Seq<char>,
    pub result: Option<ValueModel>,
    pub method_exception: Option<MethodExceptionModel>,
}

impl DeepView for MessageMethodReply {
    type V = MessageMethodReplyModel;

    open spec fn deep_view(&self) -> MessageMethodReplyModel {
        MessageMethodReplyModel {
            invoke_id: self.invoke_id@,
            result: match self.result {
                Some(v) => Some(v@),
                None => None,
            },
            method_exception: match self.method_exception {
                Some(e) => Some(e.deep_view()),
                None => None,
            },
        }
    }
}

impl CBORTransform for MessageMethodReply {
    open spec fn encode_spec(m: MessageMethodReplyModel) -> ValueModel {
        ValueModel::Dict(
            seq![(ValueModel::Text("invoke_id"@), ValueModel::Text(m.invoke_id))]
            + opt_pair("result"@, m.result)
            + opt_pair("method_exception"@, match m.method_exception {
                Some(e) => Some(MethodException::encode_spec(e)),
                None => None,
            }),
        )
    }

    open spec fn decode_spec(v: ValueModel) -> Result<MessageMethodReplyModel, FromValueErrorModel> {
        match v {
            ValueModel::Dict(p) => {
                let m0 = text_map_of(p);
                let m1 = m0.remove("invoke_id"@);
                let m2 = m1.remove("result"@);
                match field_required::<String>(m0, "invoke_id"@) {
                    Err(e) => Err(e),
                    Ok(invoke_id) => match field_optional::<CborValue>(m1, "result"@) {
                        Err(e) => Err(e),
                        Ok(result) => match field_optional::<MethodException>(m2, "method_exception"@) {
                            Err(e) => Err(e),
                            Ok(method_exception) => Ok(MessageMethodReplyModel { invoke_id, result, method_exception }),
                        },
                    },
                }
            },
            _ => Err(wrong_type("Map"@, v)),
        }
    }

    fn try_from_cbor(value: CborValue) -> (r: Result<Self, FromValueError>) {
        match value {
            CborValue::Dict(m) => {
                let mut map = convert_to_value_map(m);
                let invoke_id = match read_required::<String>(&mut map, "invoke_id") {
                    Ok(x) => x,
                    Err(e) => return Err(e),
                };
                let result = match read_optional::<CborValue>(&mut map, "result") {
                    Ok(x) => x,
                    Err(e) => return Err(e),
                };
                let method_exception = match read_optional::<MethodException>(&mut map, "method_exception") {
                    Ok(x) => x,
                    Err(e) => return Err(e),
                };
                let r = MessageMethodReply { invoke_id, result, method_exception };
                assert(r.deep_view().result == match result { Some(y) => Some(y.deep_view()), None => None::<ValueModel> });
                Ok(r)
            },
            _ => Err(FromValueError::WrongType { expected: String::from_str("Map"), found: crate::value::get_value_type(&value) }),
        }
    }

    fn to_cbor(&self) -> (r: CborValue) {
        let mut out: Vec<(CborValue, CborValue)> = Vec::new();
        push_pair(&mut out, "invoke_id", CborValue::Text(self.invoke_id.clone()));
        match &self.result {
            Some(v) => push_pair(&mut out, "result", v.deep_clone()),
            None => {},
        }
        match &self.method_exception {
            Some(e) => push_pair(&mut out, "method_exception", e.to_cbor()),
            None => {},
        }
        assert(pair_models_of(out@) =~= Self::encode_spec(self.deep_view())->Dict_0);
        CborValue::Dict(out)
    }

    proof fn lemma_round_trip(x: Self) {
        let m = x.deep_view();
        let p0: Seq<(ValueModel, ValueModel)> = Seq::empty();
        let p1 = p0.push((ValueModel::Text("invoke_id"@), ValueModel::Text(m.invoke_id)));
        lemma_text_map_of_push(p0, "invoke_id"@, ValueModel::Text(m.invoke_id));
        let p2 = match m.result {
            Some(v) => p1.push((ValueModel::Text("result"@), v)),
            None => p1,
        };
        if let Some(v) = m.result {
            lemma_text_map_of_push(p1, "result"@, v);
        }
        let p3 = match m.method_exception {
            Some(e) => p2.push((ValueModel::Text("method_exception"@), MethodException::encode_spec(e))),
            None => p2,
        };
        if let Some(e) = m.method_exception {
            lemma_text_map_of_push(p2, "method_exception"@, MethodException::encode_spec(e));
            lemma_exception_round_trip(e);
        }
        assert(Self::encode_spec(m)->Dict_0 =~= p3);
        assert(text_map_of(p0) =~= Map::<Seq<char>, ValueModel>::empty());
        reveal_strlit("invoke_id");
        reveal_strlit("result");
        reveal_strlit("method_exception");
        assert("invoke_id"@[0] != "result"@[0]);
        assert("invoke_id"@[0] != "method_exception"@[0]);
        assert("result"@[0] != "method_exception"@[0]);
        let tm = text_map_of(p3);
        assert(tm.contains_key("invoke_id"@));
    }
}

// =============================================================================

/// The model of a [`DocumentUpdate`].
pub struct DocumentUpdateModel {
    pub methods_list: Option<Seq<NooID>>,
    pub signals_list: Option<Seq<NooID>>,
}

impl DeepView for DocumentUpdate<NooID, NooID> {
    type V = DocumentUpdateModel;

    open spec fn deep_view(&self) -> DocumentUpdateModel {
        DocumentUpdateModel { methods_list: opt_seq(self.methods_list), signals_list: opt_seq(self.signals_list) }
    }
}

impl CBORTransform for DocumentUpdate<NooID, NooID> {
    open spec fn encode_spec(m: DocumentUpdateModel) -> ValueModel {
        ValueModel::Dict(opt_ids_pair("methods_list"@, m.methods_list) + opt_ids_pair("signals_list"@, m.signals_list))
    }

    open spec fn decode_spec(v: ValueModel) -> Result<DocumentUpdateModel, FromValueErrorModel> {
        match v {
            ValueModel::Dict(p) => {
                let m0 = text_map_of(p);
                match field_optional::<Vec<NooID>>(m0, "methods_list"@) {
                    Err(e) => Err(e),
                    Ok(methods_list) => match field_optional::<Vec<NooID>>(m0.remove("methods_list"@), "signals_list"@) {
                        Err(e) => Err(e),
                        Ok(signals_list) => Ok(DocumentUpdateModel { methods_list, signals_list }),
                    },
                }
            },
            _ => Err(wrong_type("Map"@, v)),
        }
    }

    fn try_from_cbor(value: CborValue) -> (r: Result<Self, FromValueError>) {
        match value {
            CborValue::Dict(m) => {
                let mut map = convert_to_value_map(m);
                let methods_list = match read_optional::<Vec<NooID>>(&mut map, "methods_list") {
                    Ok(x) => x,
                    Err(e) => return Err(e),
                };
                let signals_list = match read_optional::<Vec<NooID>>(&mut map, "signals_list") {
                    Ok(x) => x,
                    Err(e) => return Err(e),
                };
                Ok(DocumentUpdate { methods_list, signals_list })
            },
            _ => Err(FromValueError::WrongType { expected: String::from_str("Map"), found: crate::value::get_value_type(&value) }),
        }
    }

    fn to_cbor(&self) -> (r: CborValue) {
        let mut out: Vec<(CborValue, CborValue)> = Vec::new();
        push_opt_ids(&mut out, "methods_list", &self.methods_list);
        push_opt_ids(&mut out, "signals_list", &self.signals_list);
        assert(pair_models_of(out@) =~= Self::encode_spec(self.deep_view())->Dict_0);
        CborValue::Dict(out)
    }

    proof fn lemma_round_trip(x: Self) {
        let m = x.deep_view();
        let p0: Seq<(ValueModel, ValueModel)> = Seq::empty();
        let p1 = match m.methods_list {
            Some(s) => p0.push((ValueModel::Text("methods_list"@), <Vec<NooID> as CBORTransform>::encode_spec(s))),
            None => p0,
        };
        if let Some(s) = m.methods_list {
            lemma_text_map_of_push(p0, "methods_list"@, <Vec<NooID> as CBORTransform>::encode_spec(s));
            lemma_ids_round_trip(s);
        }
        let p2 = match m.signals_list {
            Some(s) => p1.push((ValueModel::Text("signals_list"@), <Vec<NooID> as CBORTransform>::encode_spec(s))),
            None => p1,
        };
        if let Some(s) = m.signals_list {
            lemma_text_map_of_push(p1, "signals_list"@, <Vec<NooID> as CBORTransform>::encode_spec(s));
            lemma_ids_round_trip(s);
        }
        assert(Self::encode_spec(m)->Dict_0 =~= p2);
        assert(text_map_of(p0) =~= Map::<Seq<char>, ValueModel>::empty());
        reveal_strlit("methods_list");
        reveal_strlit("signals_list");
        assert("methods_list"@[0] != "signals_list"@[0]);
    }
}

} // verus!
