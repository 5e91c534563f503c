//! Messages sent from a client to a server, and their CBOR form.
use vstd::prelude::*;
use crate::nooid::NooID;
use crate::value::{CborValue, ValueModel, pair_models_of, models_of, lemma_models_of};
use crate::value_tools::{
    CBORTransform, FromValueError, FromValueErrorModel, convert_to_value_map, text_map_of, wrong_type,
    lemma_text_map_of_push, decode_integer,
};
use crate::table::{field_required, field_optional, read_required, read_optional, push_pair, opt_pair};

use crate::cbor::{cbor_item, decode_records};

verus! {

/// The number a kind of client message carries on the wire.
pub trait ClientMessageID {
    fn message_id() -> u32;
}

// =============================================================================

/// The first message a client sends.
#[derive(Debug, PartialEq)]
pub struct ClientIntroductionMessage {
    pub client_name: String,
}

impl DeepView for ClientIntroductionMessage {
    type V = Seq<char>;

    open spec fn deep_view(&self) -> Seq<char> {
        self.client_name@
    }
}

impl ClientMessageID for ClientIntroductionMessage {
    fn message_id() -> (r: u32)
        ensures
            r == 0,
    {
        0
    }
}

impl CBORTransform for ClientIntroductionMessage {
    open spec fn encode_spec(m: Seq<char>) -> ValueModel {
        ValueModel::Dict(seq![(ValueModel::Text("client_name"@), ValueModel::Text(m))])
    }

    open spec fn decode_spec(v: ValueModel) -> Result<Seq<char>, FromValueErrorModel> {
        match v {
            ValueModel::Dict(pairs) => field_required::<String>(text_map_of(pairs), "client_name"@),
            _ => Err(wrong_type("Map"@, v)),
        }
    }

    fn try_from_cbor(value: CborValue) -> (r: Result<Self, FromValueError>) {
        match value {
            CborValue::Dict(m) => {
                let mut map = convert_to_value_map(m);
                match read_required::<String>(&mut map, "client_name") {
                    Ok(client_name) => Ok(ClientIntroductionMessage { client_name }),
                    Err(e) => Err(e),
                }
            },
            _ => Err(FromValueError::WrongType { expected: String::from_str("Map"), found: crate::value::get_value_type(&value) }),
        }
    }

    fn to_cbor(&self) -> (r: CborValue) {
        let mut ret: Vec<(CborValue, CborValue)> = Vec::new();
        push_pair(&mut ret, "client_name", self.client_name.to_cbor());
        assert(pair_models_of(ret@) =~= Self::encode_spec(self.deep_view())->Dict_0);
        CborValue::Dict(ret)
    }

    proof fn lemma_round_trip(x: Self) {
        let p0: Seq<(ValueModel, ValueModel)> = Seq::empty();
        lemma_text_map_of_push(p0, "client_name"@, ValueModel::Text(x.client_name@));
        assert(p0.push((ValueModel::Text("client_name"@), ValueModel::Text(x.client_name@))) =~= Self::encode_spec(x.deep_view())->Dict_0);
        assert(text_map_of(p0) =~= Map::<Seq<char>, ValueModel>::empty());
    }
}

// =============================================================================

/// The component a method is invoked on.
#[derive(Debug, Clone, Copy, PartialEq, Eq, Structural)]
pub enum InvokeIDType {
    Entity(NooID),
    Table(NooID),
    Plot(NooID),
}

impl DeepView for InvokeIDType {
    type V = InvokeIDType;

    open spec fn deep_view(&self) -> InvokeIDType {
        *self
    }
}

/// The key under which an invocation target is written.
pub open spec fn target_key(t: InvokeIDType) -> Seq<char> {
    match t {
        InvokeIDType::Entity(_) => "entity"@,
        InvokeIDType::Table(_) => "table"@,
        InvokeIDType::Plot(_) => "plot"@,
    }
}

/// The identifier of an invocation target.
pub open spec fn target_id(t: InvokeIDType) -> NooID {
    match t {
        InvokeIDType::Entity(i) => i,
        InvokeIDType::Table(i) => i,
        InvokeIDType::Plot(i) => i,
    }
}

impl CBORTransform for InvokeIDType {
    open spec fn encode_spec(m: InvokeIDType) -> ValueModel {
        ValueModel::Dict(seq![(ValueModel::Text(target_key(m)), target_id(m).spec_to_value())])
    }

    /// Only the first entry of the map is read: its key names the kind of
    /// target and its value is the identifier.
    open spec fn decode_spec(v: ValueModel) -> Result<InvokeIDType, FromValueErrorModel> {
        match v {
            ValueModel::Dict(pairs) => if pairs.len() == 0 {
                Err(FromValueErrorModel::MissingField("invocation target"@))
            } else {
                match pairs[0].0 {
                    ValueModel::Text(key) => match NooID::decode_spec(pairs[0].1) {
                        Err(e) => Err(e),
                        Ok(id) => if key == "entity"@ {
                            Ok(InvokeIDType::Entity(id))
                        } else if key == "table"@ {
                            Ok(InvokeIDType::Table(id))
                        } else if key == "plot"@ {
                            Ok(InvokeIDType::Plot(id))
                        } else {
                            Err(FromValueErrorModel::MissingField("invocation target"@))
                        },
                    },
                    _ => Err(wrong_type("Text"@, pairs[0].0)),
                }
            },
            _ => Err(wrong_type("Map"@, v)),
        }
    }

    fn try_from_cbor(value: CborValue) -> (r: Result<Self, FromValueError>) {
        match value {
            CborValue::Dict(m) => {
                proof {
                    crate::value::lemma_pair_models_of(m@);
                }
                if m.len() == 0 {
                    return Err(FromValueError::MissingField(String::from_str("invocation target")));
                }
                let key = match &m[0].0 {
                    CborValue::Text(k) => k,
                    _ => return Err(FromValueError::WrongType {
                        expected: String::from_str("Text"),
                        found: crate::value::get_value_type(&m[0].0),
                    }),
                };
                let id = match NooID::try_from_cbor(m[0].1.deep_clone()) {
                    Ok(id) => id,
                    Err(e) => return Err(e),
                };
                if key.eq(&String::from_str("entity")) {
                    Ok(InvokeIDType::Entity(id))
                } else if key.eq(&String::from_str("table")) {
                    Ok(InvokeIDType::Table(id))
                } else if key.eq(&String::from_str("plot")) {
                    Ok(InvokeIDType::Plot(id))
                } else {
                    Err(FromValueError::MissingField(String::from_str("invocation target")))
                }
            },
            _ => Err(FromValueError::WrongType { expected: String::from_str("Map"), found: crate::value::get_value_type(&value) }),
        }
    }

    fn to_cbor(&self) -> (r: CborValue) {
        let mut ret: Vec<(CborValue, CborValue)> = Vec::new();
        match self {
            InvokeIDType::Entity(i) => push_pair(&mut ret, "entity", i.to_value()),
            InvokeIDType::Table(i) => push_pair(&mut ret, "table", i.to_value()),
            InvokeIDType::Plot(i) => push_pair(&mut ret, "plot", i.to_value()),
        }
        assert(pair_models_of(ret@) =~= Self::encode_spec(self.deep_view())->Dict_0);
        CborValue::Dict(ret)
    }

    proof fn lemma_round_trip(x: Self) {
        crate::nooid::lemma_nooid_value_round_trip(target_id(x));
        reveal_strlit("entity");
        reveal_strlit("table");
        reveal_strlit("plot");
        assert("entity"@[0] != "table"@[0]);
        assert("entity"@[0] != "plot"@[0]);
        assert("table"@[0] != "plot"@[0]);
    }
}

// =============================================================================

/// A request to invoke a method.
#[derive(Debug, Default, PartialEq)]
pub struct ClientInvokeMessage {
    pub method: NooID,
    pub context: Option<InvokeIDType>,
    pub invoke_id: Option<String>,
    pub args: Vec<CborValue>,
}

/// The model of a [`ClientInvokeMessage`].
pub struct ClientInvokeMessageModel {
    pub method: NooID,
    pub context: Option<InvokeIDType>,
    pub invoke_id: Option<Seq<char>>,
    pub args: Seq<ValueModel>,
}

impl DeepView for ClientInvokeMessage {
    type V = ClientInvokeMessageModel;

    open spec fn deep_view(&self) -> ClientInvokeMessageModel {
        ClientInvokeMessageModel {
            method: self.method,
            context: self.context,
            invoke_id: match self.invoke_id {
                Some(s) => Some(s@),
                None => None,
            },
            args: self.args.deep_view(),
        }
    }
}

impl ClientMessageID for ClientInvokeMessage {
    fn message_id() -> (r: u32)
        ensures
            r == 1,
    {
        1
    }
}

impl CBORTransform for ClientInvokeMessage {
    open spec fn encode_spec(m: ClientInvokeMessageModel) -> ValueModel {
        ValueModel::Dict(
            seq![(ValueModel::Text("method"@), m.method.spec_to_value())]
            + opt_pair("context"@, match m.context { Some(c) => Some(InvokeIDType::encode_spec(c)), None => None })
            + opt_pair("invoke_id"@, match m.invoke_id { Some(s) => Some(ValueModel::Text(s)), None => None })
            + seq![(ValueModel::Text("args"@), <Vec<CborValue> as CBORTransform>::encode_spec(m.args))],
        )
    }

    open spec fn decode_spec(v: ValueModel) -> Result<ClientInvokeMessageModel, FromValueErrorModel> {
        match v {
            ValueModel::Dict(pairs) => {
                let m0 = text_map_of(pairs);
                let m1 = m0.remove("method"@);
                let m2 = m1.remove("context"@);
                let m3 = m2.remove("invoke_id"@);
                match field_required::<NooID>(m0, "method"@) {
                    Err(e) => Err(e),
                    Ok(method) => match field_optional::<InvokeIDType>(m1, "context"@) {
                        Err(e) => Err(e),
                        Ok(context) => match field_optional::<String>(m2, "invoke_id"@) {
                            Err(e) => Err(e),
                            Ok(invoke_id) => match field_required::<Vec<CborValue>>(m3, "args"@) {
                                Err(e) => Err(e),
                                Ok(args) => Ok(ClientInvokeMessageModel { method, context, invoke_id, args }),
                            },
                        },
                    },
                }
            },
            _ => Err(wrong_type("Map"@, v)),
        }
    }

    fn try_from_cbor(value: CborValue) -> (r: Result<Self, FromValueError>) {
        match value {
            CborValue::Dict(m) => {
                let mut map = convert_to_value_map(m);
                let method = match read_required::<NooID>(&mut map, "method") {
                    Ok(x) => x,
                    Err(e) => return Err(e),
                };
                let context = match read_optional::<InvokeIDType>(&mut map, "context") {
                    Ok(x) => x,
                    Err(e) => return Err(e),
                };
                let invoke_id = match read_optional::<String>(&mut map, "invoke_id") {
                    Ok(x) => x,
                    Err(e) => return Err(e),
                };
                let args = match read_required::<Vec<CborValue>>(&mut map, "args") {
                    Ok(x) => x,
                    Err(e) => return Err(e),
                };
                let r = ClientInvokeMessage { method, context, invoke_id, args };
                Ok(r)
            },
            _ => Err(FromValueError::WrongType { expected: String::from_str("Map"), found: crate::value::get_value_type(&value) }),
        }
    }

    fn to_cbor(&self) -> (r: CborValue) {
        let ghost m = self.deep_view();
        let mut ret: Vec<(CborValue, CborValue)> = Vec::new();
        push_pair(&mut ret, "method", self.method.to_value());
        match &self.context {
            Some(c) => push_pair(&mut ret, "context", c.to_cbor()),
            None => {},
        }
        match &self.invoke_id {
            Some(s) => push_pair(&mut ret, "invoke_id", CborValue::Text(s.clone())),
            None => {},
        }
        push_pair(&mut ret, "args", self.args.to_cbor());
        assert(pair_models_of(ret@) =~= Self::encode_spec(m)->Dict_0);
        CborValue::Dict(ret)
    }

    proof fn lemma_round_trip(x: Self) {
        let m = x.deep_view();
        crate::nooid::lemma_nooid_value_round_trip(m.method);
        let em = m.method.spec_to_value();
        let ea = <Vec<CborValue> as CBORTransform>::encode_spec(m.args);
        let p0: Seq<(ValueModel, ValueModel)> = Seq::empty();
        let p1 = p0.push((ValueModel::Text("method"@), em));
        lemma_text_map_of_push(p0, "method"@, em);
        let p2 = match m.context {
            Some(c) => p1.push((ValueModel::Text("context"@), InvokeIDType::encode_spec(c))),
            None => p1,
        };
        if let Some(c) = m.context {
            lemma_text_map_of_push(p1, "context"@, InvokeIDType::encode_spec(c));
            InvokeIDType::lemma_round_trip(c);
        }
        let p3 = match m.invoke_id {
            Some(s) => p2.push((ValueModel::Text("invoke_id"@), ValueModel::Text(s))),
            None => p2,
        };
        if let Some(s) = m.invoke_id {
            lemma_text_map_of_push(p2, "invoke_id"@, ValueModel::Text(s));
        }
        let p4 = p3.push((ValueModel::Text("args"@), ea));
        lemma_text_map_of_push(p3, "args"@, ea);
        <Vec<CborValue> as CBORTransform>::lemma_round_trip(x.args);
        assert(Self::encode_spec(m)->Dict_0 =~= p4);
        assert(text_map_of(p0) =~= Map::<Seq<char>, ValueModel>::empty());
        reveal_strlit("method");
        reveal_strlit("context");
        reveal_strlit("invoke_id");
        reveal_strlit("args");
        assert("method"@[0] != "context"@[0]);
        assert("method"@[0] != "invoke_id"@[0]);
        assert("method"@[0] != "args"@[0]);
        assert("context"@[0] != "invoke_id"@[0]);
        assert("context"@[0] != "args"@[0]);
        assert("invoke_id"@[0] != "args"@[0]);
        let tm = text_map_of(p4);
        assert(tm.contains_key("method"@));
        assert(tm.remove("method"@).remove("context"@).remove("invoke_id"@).contains_key("args"@));
    }
}

// =============================================================================

/// Any message a client can send.
pub enum AllClientMessages {
    Intro(ClientIntroductionMessage),
    Invoke(ClientInvokeMessage),
}

/// The model of an [`AllClientMessages`].
pub enum AllClientMessagesModel {
    Intro(Seq<char>),
    Invoke(ClientInvokeMessageModel),
}

impl DeepView for AllClientMessages {
    type V = AllClientMessagesModel;

    open spec fn deep_view(&self) -> AllClientMessagesModel {
        match self {
            AllClientMessages::Intro(m) => AllClientMessagesModel::Intro(m.deep_view()),
            AllClientMessages::Invoke(m) => AllClientMessagesModel::Invoke(m.deep_view()),
        }
    }
}

/// A decoded pack of client messages.
pub struct ClientRootMessage {
    pub list: Vec<AllClientMessages>,
}

/// The error for a message number that no client message has.
pub open spec fn unknown_client_message(id: ValueModel) -> FromValueErrorModel {
    wrong_type("An interleaved array of id and content"@, id)
}

/// What reading an interleaved array of message numbers and contents gives.
pub open spec fn decode_client_messages(s: Seq<ValueModel>) -> Result<Seq<AllClientMessagesModel>, FromValueErrorModel>
    decreases s.len(),
{
    if s.len() == 0 {
        Ok(Seq::empty())
    } else {
        match decode_integer(s[0], 0, u32::MAX as int) {
            Err(e) => Err(e),
            Ok(id) => if id != 0 && id != 1 {
                Err(unknown_client_message(s[0]))
            } else if s.len() < 2 {
                Err(FromValueErrorModel::MissingField("Missing content!"@))
            } else {
                let first = if id == 0 {
                    match ClientIntroductionMessage::decode_spec(s[1]) {
                        Ok(m) => Ok(AllClientMessagesModel::Intro(m)),
                        Err(e) => Err(e),
                    }
                } else {
                    match ClientInvokeMessage::decode_spec(s[1]) {
                        Ok(m) => Ok(AllClientMessagesModel::Invoke(m)),
                        Err(e) => Err(e),
                    }
                };
                match first {
                    Err(e) => Err(e),
                    Ok(m) => match decode_client_messages(s.subrange(2, s.len() as int)) {
                        Err(e) => Err(e),
                        Ok(rest) => Ok(seq![m] + rest),
                    },
                }
            },
        }
    }
}

/// The interleaved array of message numbers and contents that stands for a list of messages.
pub open spec fn encode_client_messages(l: Seq<AllClientMessagesModel>) -> Seq<ValueModel>
    decreases l.len(),
{
    if l.len() == 0 {
        Seq::empty()
    } else {
        let head = match l[0] {
            AllClientMessagesModel::Intro(m) => seq![ValueModel::Integer(0), ClientIntroductionMessage::encode_spec(m)],
            AllClientMessagesModel::Invoke(m) => seq![ValueModel::Integer(1), ClientInvokeMessage::encode_spec(m)],
        };
        head + encode_client_messages(l.subrange(1, l.len() as int))
    }
}

fn decode_message_number(v: &CborValue) -> (r: Result<u32, FromValueError>)
    ensures
        match r {
            Ok(n) => decode_integer(v@, 0, u32::MAX as int) == Ok::<int, FromValueErrorModel>(n as int),
            Err(e) => decode_integer(v@, 0, u32::MAX as int) == Err::<int, FromValueErrorModel>(e@),
        },
{
    match v {
        CborValue::Integer(i) => if 0 <= *i && *i <= 0xffff_ffffi128 {
            Ok(*i as u32)
        } else {
            Err(FromValueError::IntegerCast)
        },
        _ => Err(FromValueError::WrongType { expected: String::from_str("Integer"), found: crate::value::get_value_type(v) }),
    }
}

impl ClientRootMessage {
    /// Read a pack of client messages from bytes: one CBOR array of message
    /// numbers and contents. `None` where the bytes are no such array or a
    /// message in it cannot be read.
    pub fn from_bytes(bytes: &[u8]) -> (r: Option<ClientRootMessage>)
        ensures
            match cbor_item(bytes@) {
                Some(ValueModel::Array(items)) => match decode_client_messages(items) {
                    Ok(l) => r matches Some(root) && root.list.deep_view() == l,
                    Err(_) => r is None,
                },
                _ => r is None,
            },
    {
        match decode_records(bytes) {
            Some(values) => match Self::from_values(values) {
                Ok(root) => Some(root),
                Err(_) => None,
            },
            None => None,
        }
    }

    /// Read a pack of client messages from its interleaved array of message
    /// numbers and contents.
    pub fn from_values(values: Vec<CborValue>) -> (r: Result<ClientRootMessage, FromValueError>)
        ensures
            match r {
                Ok(root) => decode_client_messages(models_of(values@)) == Ok::<Seq<AllClientMessagesModel>, FromValueErrorModel>(root.list.deep_view()),
                Err(e) => decode_client_messages(models_of(values@)) == Err::<Seq<AllClientMessagesModel>, FromValueErrorModel>(e@),
            },
    {
        let ghost s = models_of(values@);
        proof {
            lemma_models_of(values@);
        }
        let mut list: Vec<AllClientMessages> = Vec::new();
        let mut i: usize = 0;
        assert(s.subrange(0, s.len() as int) =~= s);
        while i < values.len()
            invariant
                i <= values.len(),
                s == models_of(values@),
                s.len() == values@.len(),
                forall|j: int| 0 <= j < values@.len() ==> #[trigger] s[j] == values@[j]@,
                decode_client_messages(s) == match decode_client_messages(s.subrange(i as int, s.len() as int)) {
                    Ok(rest) => Ok::<Seq<AllClientMessagesModel>, FromValueErrorModel>(list.deep_view() + rest),
                    Err(e) => Err(e),
                },
            decreases values.len() - i,
        {
            let ghost t = s.subrange(i as int, s.len() as int);
            let ghost before = list.deep_view();
            assert(t[0] == s[i as int]);
            let id = match decode_message_number(&values[i]) {
                Ok(n) => n,
                Err(e) => return Err(e),
            };
            if id != 0 && id != 1 {
                return Err(FromValueError::WrongType {
                    expected: String::from_str("An interleaved array of id and content"),
                    found: crate::value::get_value_type(&values[i]),
                });
            }
            if i + 1 >= values.len() {
                return Err(FromValueError::MissingField(String::from_str("Missing content!")));
            }
            assert(t[1] == s[i + 1]);
            let content = values[i + 1].deep_clone();
            let m = if id == 0 {
                match ClientIntroductionMessage::try_from_cbor(content) {
                    Ok(m) => AllClientMessages::Intro(m),
                    Err(e) => return Err(e),
                }
            } else {
                match ClientInvokeMessage::try_from_cbor(content) {
                    Ok(m) => AllClientMessages::Invoke(m),
                    Err(e) => return Err(e),
                }
            };
            list.push(m);
            proof {
                assert(t.subrange(2, t.len() as int) =~= s.subrange(i + 2, s.len() as int));
                assert(list.deep_view() =~= before.push(m.deep_view()));
                match decode_client_messages(s.subrange(i + 2, s.len() as int)) {
                    Ok(rest) => {
                        assert(before + (seq![m.deep_view()] + rest) =~= list.deep_view() + rest);
                    },
                    Err(_) => {},
                }
            }
            i = i + 2;
        }
        proof {
            assert(s.subrange(i as int, s.len() as int) =~= Seq::<ValueModel>::empty());
            assert(list.deep_view() + Seq::<AllClientMessagesModel>::empty() =~= list.deep_view());
        }
        Ok(ClientRootMessage { list })
    }

    /// Write a pack of client messages as an interleaved array of message numbers and contents.
    pub fn to_values(&self) -> (r: Vec<CborValue>)
        ensures
            models_of(r@) == encode_client_messages(self.list.deep_view()),
    {
        let ghost l = self.list.deep_view();
        let mut out: Vec<CborValue> = Vec::new();
        let mut i: usize = 0;
        proof {
            lemma_models_of(out@);
            assert(l.subrange(0, l.len() as int) =~= l);
        }
        while i < self.list.len()
            invariant
                i <= self.list.len(),
                l == self.list.deep_view(),
                l.len() == self.list@.len(),
                encode_client_messages(l) == models_of(out@) + encode_client_messages(l.subrange(i as int, l.len() as int)),
            decreases self.list.len() - i,
        {
            let ghost before = out@;
            let ghost t = l.subrange(i as int, l.len() as int);
            assert(t[0] == l[i as int]);
            match &self.list[i] {
                AllClientMessages::Intro(m) => {
                    out.push(CborValue::Integer(0));
                    out.push(m.to_cbor());
                },
                AllClientMessages::Invoke(m) => {
                    out.push(CborValue::Integer(1));
                    out.push(m.to_cbor());
                },
            }
            proof {
                lemma_models_of(out@);
                lemma_models_of(before);
                assert(t.subrange(1, t.len() as int) =~= l.subrange(i + 1, l.len() as int));
                let head = match t[0] {
                    AllClientMessagesModel::Intro(m) => seq![ValueModel::Integer(0), ClientIntroductionMessage::encode_spec(m)],
                    AllClientMessagesModel::Invoke(m) => seq![ValueModel::Integer(1), ClientInvokeMessage::encode_spec(m)],
                };
                assert(models_of(out@) =~= models_of(before) + head);
            }
            i = i + 1;
        }
        proof {
            assert(l.subrange(i as int, l.len() as int) =~= Seq::<AllClientMessagesModel>::empty());
            assert(models_of(out@) + Seq::<ValueModel>::empty() =~= models_of(out@));
        }
        out
    }
}

/// Reading back the array written for a list of client messages gives the list.
pub proof fn lemma_client_messages_round_trip(l: Seq<AllClientMessagesModel>)
    ensures
        decode_client_messages(encode_client_messages(l)) == Ok::<Seq<AllClientMessagesModel>, FromValueErrorModel>(l),
    decreases l.len(),
{
    if l.len() > 0 {
        let rest = l.subrange(1, l.len() as int);
        lemma_client_messages_round_trip(rest);
        let s = encode_client_messages(l);
        match l[0] {
            AllClientMessagesModel::Intro(m) => {
                lemma_intro_round_trip(m);
            },
            AllClientMessagesModel::Invoke(m) => {
                lemma_invoke_round_trip(m);
            },
        }
        assert(s.subrange(2, s.len() as int) =~= encode_client_messages(rest));
        assert(seq![l[0]] + rest =~= l);
    } else {
        assert(l =~= Seq::<AllClientMessagesModel>::empty());
    }
}

proof fn lemma_intro_round_trip(m: Seq<char>)
    ensures
        ClientIntroductionMessage::decode_spec(ClientIntroductionMessage::encode_spec(m)) == Ok::<Seq<char>, FromValueErrorModel>(m),
{
    let p0: Seq<(ValueModel, ValueModel)> = Seq::empty();
    lemma_text_map_of_push(p0, "client_name"@, ValueModel::Text(m));
    assert(p0.push((ValueModel::Text("client_name"@), ValueModel::Text(m))) =~= ClientIntroductionMessage::encode_spec(m)->Dict_0);
    assert(text_map_of(p0) =~= Map::<Seq<char>, ValueModel>::empty());
}

proof fn lemma_invoke_round_trip(m: ClientInvokeMessageModel)
    ensures
        ClientInvokeMessage::decode_spec(ClientInvokeMessage::encode_spec(m)) == Ok::<ClientInvokeMessageModel, FromValueErrorModel>(m),
{
    crate::nooid::lemma_nooid_value_round_trip(m.method);
    let em = m.method.spec_to_value();
    let ea = <Vec<CborValue> as CBORTransform>::encode_spec(m.args);
    let p0: Seq<(ValueModel, ValueModel)> = Seq::empty();
    let p1 = p0.push((ValueModel::Text("method"@), em));
    lemma_text_map_of_push(p0, "method"@, em);
    let p2 = match m.context {
        Some(c) => p1.push((ValueModel::Text("context"@), InvokeIDType::encode_spec(c))),
        None => p1,
    };
    if let Some(c) = m.context {
        lemma_text_map_of_push(p1, "context"@, InvokeIDType::encode_spec(c));
        InvokeIDType::lemma_round_trip(c);
    }
    let p3 = match m.invoke_id {
        Some(s) => p2.push((ValueModel::Text("invoke_id"@), ValueModel::Text(s))),
        None => p2,
    };
    if let Some(s) = m.invoke_id {
        lemma_text_map_of_push(p2, "invoke_id"@, ValueModel::Text(s));
    }
    let p4 = p3.push((ValueModel::Text("args"@), ea));
    lemma_text_map_of_push(p3, "args"@, ea);
    crate::value_tools::lemma_value_list_round_trip(m.args);
    assert(ClientInvokeMessage::encode_spec(m)->Dict_0 =~= p4);
    assert(text_map_of(p0) =~= Map::<Seq<char>, ValueModel>::empty());
    reveal_strlit("method");
    reveal_strlit("context");
    reveal_strlit("invoke_id");
    reveal_strlit("args");
    assert("method"@[0] != "context"@[0]);
    assert("method"@[0] != "invoke_id"@[0]);
    assert("method"@[0] != "args"@[0]);
    assert("context"@[0] != "invoke_id"@[0]);
    assert("context"@[0] != "args"@[0]);
    assert("invoke_id"@[0] != "args"@[0]);
    let tm = text_map_of(p4);
    assert(tm.contains_key("method"@));
    assert(tm.remove("method"@).remove("context"@).remove("invoke_id"@).contains_key("args"@));
}

} // verus!
