//! Messages sent from a server to its clients.
use vstd::prelude::*;
use crate::components::{DeltaPatch, UpdatableWith, override_with};
use crate::nooid::NooID;
use crate::value::{CborValue, ValueModel, pair_models_of};
use crate::value_tools::{
    CBORTransform, FromValueError, FromValueErrorModel, convert_to_value_map, text_map_of, wrong_type,
    lemma_text_map_of_push,
};
use crate::table::{field_required, field_optional, read_required, read_optional, push_pair, opt_pair};

verus! {

/// The number a kind of server message carries on the wire.
pub trait ServerMessageID {
    fn message_id() -> u32;
}

/// Where a signal is raised: on an entity, a table or a plot.
#[derive(Debug)]
pub struct SignalInvokeObj<EntityRef, TableRef, PlotRef> {
    pub entity: Option<EntityRef>,
    pub table: Option<TableRef>,
    pub plot: Option<PlotRef>,
}

impl<EntityRef, TableRef, PlotRef> Default for SignalInvokeObj<EntityRef, TableRef, PlotRef> {
    fn default() -> (r: Self)
        ensures
            r.entity is None,
            r.table is None,
            r.plot is None,
    {
        Self { entity: None, table: None, plot: None }
    }
}

// =============================================================================

/// An update of the document's methods and signals.
#[derive(Debug)]
pub struct DocumentUpdate<MethodRef, SignalRef> {
    pub methods_list: Option<Vec<MethodRef>>,
    pub signals_list: Option<Vec<SignalRef>>,
}

impl<MethodRef, SignalRef> DeltaPatch for DocumentUpdate<MethodRef, SignalRef> {
    open spec fn patched(self, other: Self) -> Self {
        DocumentUpdate {
            methods_list: override_with(self.methods_list, other.methods_list),
            signals_list: override_with(self.signals_list, other.signals_list),
        }
    }

    fn patch(&mut self, other: Self) {
        if other.methods_list.is_some() {
            self.methods_list = other.methods_list;
        }
        if other.signals_list.is_some() {
            self.signals_list = other.signals_list;
        }
    }

    proof fn lemma_patch_idempotent(a: Self, b: Self) {
    }
}

impl<MethodRef, SignalRef> UpdatableWith for DocumentUpdate<MethodRef, SignalRef> {
    type Substate = DocumentUpdate<MethodRef, SignalRef>;

    open spec fn updated(self, s: Self::Substate) -> Self {
        self.patched(s)
    }

    fn update(&mut self, s: Self::Substate) {
        self.patch(s);
    }
}

impl<MethodRef, SignalRef> Default for DocumentUpdate<MethodRef, SignalRef> {
    fn default() -> (r: Self)
        ensures
            r.methods_list is None,
            r.signals_list is None,
    {
        Self { methods_list: None, signals_list: None }
    }
}

impl<MethodRef, SignalRef> ServerMessageID for DocumentUpdate<MethodRef, SignalRef> {
    fn message_id() -> (r: u32)
        ensures
            r == 31,
    {
        31
    }
}

/// The message that tells clients the document has been reset.
#[derive(Debug)]
pub struct DocumentReset {}

impl ServerMessageID for DocumentReset {
    fn message_id() -> (r: u32)
        ensures
            r == 32,
    {
        32
    }
}

// =============================================================================

/// A signal raised by the server.
#[derive(Debug)]
pub struct MessageSignalInvoke<EntityRef, TableRef, PlotRef> {
    pub id: NooID,
    pub context: Option<SignalInvokeObj<EntityRef, TableRef, PlotRef>>,
    pub signal_data: Vec<CborValue>,
}

impl<EntityRef, TableRef, PlotRef> ServerMessageID for MessageSignalInvoke<EntityRef, TableRef, PlotRef> {
    fn message_id() -> (r: u32)
        ensures
            r == 33,
    {
        33
    }
}

// =============================================================================

/// The standard error codes of a method exception.
#[derive(Debug, Clone, Copy, PartialEq, Eq, Structural)]
pub enum ExceptionCodes {
    ParseError,
    InvalidRequest,
    MethodNotFound,
    InvalidParameters,
    InternalError,
}

impl ExceptionCodes {
    /// The number of an error code.
    pub open spec fn spec_code(self) -> i32 {
        match self {
            ExceptionCodes::ParseError => -32700i32,
            ExceptionCodes::InvalidRequest => -32600i32,
            ExceptionCodes::MethodNotFound => -32601i32,
            ExceptionCodes::InvalidParameters => -32602i32,
            ExceptionCodes::InternalError => -32603i32,
        }
    }

    /// The number of an error code.
    pub fn code(&self) -> (r: i32)
        ensures
            r == self.spec_code(),
    {
        match self {
            ExceptionCodes::ParseError => -32700,
            ExceptionCodes::InvalidRequest => -32600,
            ExceptionCodes::MethodNotFound => -32601,
            ExceptionCodes::InvalidParameters => -32602,
            ExceptionCodes::InternalError => -32603,
        }
    }
}

/// The error a method invocation answers with.
#[derive(Debug, Default)]
pub struct MethodException {
    pub code: i32,
    pub message: Option<String>,
    pub data: Option<CborValue>,
}

/// The model of a [`MethodException`].
pub struct MethodExceptionModel {
    pub code: i32,
    pub message: Option<Seq<char>>,
    pub data: Option<ValueModel>,
}

impl DeepView for MethodException {
    type V = MethodExceptionModel;

    open spec fn deep_view(&self) -> MethodExceptionModel {
        MethodExceptionModel {
            code: self.code,
            message: match self.message {
                Some(s) => Some(s@),
                None => None,
            },
            data: match self.data {
                Some(v) => Some(v@),
                None => None,
            },
        }
    }
}

impl MethodException {
    /// The exception for a method that does not exist.
    pub fn method_not_found(optional_info: Option<String>) -> (r: Self)
        ensures
            r.code == ExceptionCodes::MethodNotFound.spec_code(),
            r.message == optional_info,
            r.data is None,
    {
        Self { code: ExceptionCodes::MethodNotFound.code(), message: optional_info, data: None }
    }

    /// The exception for a failure inside the server.
    pub fn internal_error(optional_info: Option<String>) -> (r: Self)
        ensures
            r.code == ExceptionCodes::InternalError.spec_code(),
            r.message == optional_info,
            r.data is None,
    {
        Self { code: ExceptionCodes::InternalError.code(), message: optional_info, data: None }
    }

    /// The exception for arguments that do not fit the method.
    pub fn invalid_parameters() -> (r: Self)
        ensures
            r.code == ExceptionCodes::InvalidParameters.spec_code(),
            r.message is None,
            r.data is None,
    {
        Self { code: ExceptionCodes::InvalidParameters.code(), message: None, data: None }
    }
}

impl CBORTransform for MethodException {
    open spec fn encode_spec(m: MethodExceptionModel) -> ValueModel {
        ValueModel::Dict(
            seq![(ValueModel::Text("code"@), ValueModel::Integer(m.code as int))]
            + opt_pair("message"@, match m.message { Some(s) => Some(ValueModel::Text(s)), None => None })
            + opt_pair("data"@, m.data),
        )
    }

    open spec fn decode_spec(v: ValueModel) -> Result<MethodExceptionModel, FromValueErrorModel> {
        match v {
            ValueModel::Dict(pairs) => {
                let m0 = text_map_of(pairs);
                let m1 = m0.remove("code"@);
                let m2 = m1.remove("message"@);
                match field_required::<i32>(m0, "code"@) {
                    Err(e) => Err(e),
                    Ok(code) => match field_optional::<String>(m1, "message"@) {
                        Err(e) => Err(e),
                        Ok(message) => match field_optional::<CborValue>(m2, "data"@) {
                            Err(e) => Err(e),
                            Ok(data) => Ok(MethodExceptionModel { code, message, data }),
                        },
                    },
                }
            },
            _ => Err(wrong_type("Map"@, v)),
        }
    }

    fn try_from_cbor(value: CborValue) -> (r: Result<Self, FromValueError>) {
        match value {
            CborValue::Dict(m) => {
                let mut map = convert_to_value_map(m);
                let code = match read_required::<i32>(&mut map, "code") {
                    Ok(x) => x,
                    Err(e) => return Err(e),
                };
                let message = match read_optional::<String>(&mut map, "message") {
                    Ok(x) => x,
                    Err(e) => return Err(e),
                };
                let data = match read_optional::<CborValue>(&mut map, "data") {
                    Ok(x) => x,
                    Err(e) => return Err(e),
                };
                Ok(MethodException { code, message, data })
            },
            _ => Err(FromValueError::WrongType { expected: String::from_str("Map"), found: crate::value::get_value_type(&value) }),
        }
    }

    fn to_cbor(&self) -> (r: CborValue) {
        let ghost m = self.deep_view();
        let mut ret: Vec<(CborValue, CborValue)> = Vec::new();
        push_pair(&mut ret, "code", CborValue::Integer(self.code as i128));
        match &self.message {
            Some(s) => push_pair(&mut ret, "message", CborValue::Text(s.clone())),
            None => {},
        }
        match &self.data {
            Some(d) => push_pair(&mut ret, "data", d.deep_clone()),
            None => {},
        }
        assert(pair_models_of(ret@) =~= Self::encode_spec(m)->Dict_0);
        CborValue::Dict(ret)
    }

    proof fn lemma_round_trip(x: Self) {
        lemma_exception_round_trip(x.deep_view());
    }
}

pub proof fn lemma_exception_round_trip(m: MethodExceptionModel)
    ensures
        MethodException::decode_spec(MethodException::encode_spec(m)) == Ok::<MethodExceptionModel, FromValueErrorModel>(m),
{
    let ec = ValueModel::Integer(m.code as int);
    let p0: Seq<(ValueModel, ValueModel)> = Seq::empty();
    let p1 = p0.push((ValueModel::Text("code"@), ec));
    lemma_text_map_of_push(p0, "code"@, ec);
    let p2 = match m.message {
        Some(s) => p1.push((ValueModel::Text("message"@), ValueModel::Text(s))),
        None => p1,
    };
    if let Some(s) = m.message {
        lemma_text_map_of_push(p1, "message"@, ValueModel::Text(s));
    }
    let p3 = match m.data {
        Some(d) => p2.push((ValueModel::Text("data"@), d)),
        None => p2,
    };
    if let Some(d) = m.data {
        lemma_text_map_of_push(p2, "data"@, d);
    }
    assert(MethodException::encode_spec(m)->Dict_0 =~= p3);
    assert(text_map_of(p0) =~= Map::<Seq<char>, ValueModel>::empty());
    reveal_strlit("code");
    reveal_strlit("message");
    reveal_strlit("data");
    assert("code"@[0] != "message"@[0]);
    assert("code"@[0] != "data"@[0]);
    assert("message"@[0] != "data"@[0]);
    let tm = text_map_of(p3);
    assert(tm.contains_key("code"@));
}

/// The answer to a method invocation.
#[derive(Debug, Default)]
pub struct MessageMethodReply {
    pub invoke_id: String,
    pub result: Option<CborValue>,
    pub method_exception: Option<MethodException>,
}

impl ServerMessageID for MessageMethodReply {
    fn message_id() -> (r: u32)
        ensures
            r == 34,
    {
        34
    }
}

// =============================================================================

/// The message that tells a client the document has been sent in full.
#[derive(Debug)]
pub struct DocumentInit {}

impl ServerMessageID for DocumentInit {
    fn message_id() -> (r: u32)
        ensures
            r == 35,
    {
        35
    }
}

// =============================================================================

/// Why a pack of client messages was refused by the server.
#[derive(Debug)]
pub enum ServerError {
    DecodeError(String),
    InvalidRootMessage(String),
}

/// What the server's state sends to its clients.
#[derive(Debug)]
pub enum Output {
    Broadcast(Vec<u8>),
    Shutdown,
}

/// A command for servers that take none.
#[derive(Debug)]
pub struct DefaultCommand {}

/// A user server that the server machinery drives: it sets up its state,
/// and handles the commands its application sends it.
pub trait AsyncServer {
    type CommandType;

    /// Called once, before any client connects.
    fn initialize_state(&mut self);

    /// Called for each command the application sends.
    fn handle_command(&mut self, command: Self::CommandType);
}

/// An encoded server message, ready to be sent.
#[derive(Debug)]
pub struct Recorder {
    pub data: Vec<u8>,
}

/// An update of a component's mutable state, applied to the component it names.
pub trait UpdatableStateItem {
    type HostState;

    fn patch(self, m: &Self::HostState);
}


/// Patching the document sets each list the patch holds to the patch's list,
/// and leaves the other as it was.
pub proof fn lemma_document_patch_sets_fields<M, S>(a: DocumentUpdate<M, S>, b: DocumentUpdate<M, S>)
    ensures
        b.methods_list is Some ==> a.patched(b).methods_list == b.methods_list,
        b.methods_list is None ==> a.patched(b).methods_list == a.methods_list,
        b.signals_list is Some ==> a.patched(b).signals_list == b.signals_list,
        b.signals_list is None ==> a.patched(b).signals_list == a.signals_list,
{
}

} // verus!
