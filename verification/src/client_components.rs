//! The client's view of components, and the messages a client exchanges.
use vstd::prelude::*;
use crate::nooid::NooID;
use crate::components::{MethodState, SignalState, SamplerState, TextureState, TableState, PlotState, BufferViewState};
use crate::types::CommonDeleteMessage;
use crate::client_messages::ClientInvokeMessage;
use crate::value::CborValue;

verus! {

/// Trait to allow extracting names from certain components
pub trait NamedComponent {
    fn name(&self) -> Option<&String>;
}

impl NamedComponent for MethodState<u64> {
    fn name(&self) -> (r: Option<&String>)
        ensures
            r == Some(&self.name),
    {
        Some(&self.name)
    }
}

impl NamedComponent for SignalState<u64> {
    fn name(&self) -> (r: Option<&String>)
        ensures
            r == Some(&self.name),
    {
        Some(&self.name)
    }
}

impl NamedComponent for SamplerState {
    fn name(&self) -> (r: Option<&String>)
        ensures
            r == match &self.name {
                Some(n) => Some(n),
                None => None,
            },
    {
        self.name.as_ref()
    }
}

impl NamedComponent for BufferViewState<NooID> {
    fn name(&self) -> (r: Option<&String>)
        ensures
            r == match &self.name {
                Some(n) => Some(n),
                None => None,
            },
    {
        self.name.as_ref()
    }
}

impl NamedComponent for TextureState<NooID, NooID> {
    fn name(&self) -> (r: Option<&String>)
        ensures
            r == match &self.name {
                Some(n) => Some(n),
                None => None,
            },
    {
        self.name.as_ref()
    }
}

impl NamedComponent for TableState<NooID, NooID> {
    fn name(&self) -> (r: Option<&String>)
        ensures
            r == match &self.name {
                Some(n) => Some(n),
                None => None,
            },
    {
        self.name.as_ref()
    }
}

impl NamedComponent for PlotState<NooID, NooID, NooID> {
    fn name(&self) -> (r: Option<&String>)
        ensures
            r == match &self.name {
                Some(n) => Some(n),
                None => None,
            },
    {
        self.name.as_ref()
    }
}

/// Trait for components that carry methods and signals.
pub trait CommComponent {
    fn method_list(&self) -> Option<&[NooID]>;

    fn signal_list(&self) -> Option<&[NooID]>;
}

fn list_slice(l: &Option<Vec<NooID>>) -> (r: Option<&[NooID]>)
    ensures
        match r {
            Some(s) => l is Some && s@ == l->Some_0@,
            None => l is None,
        },
{
    match l {
        Some(v) => Some(v.as_slice()),
        None => None,
    }
}

impl CommComponent for PlotState<NooID, NooID, NooID> {
    fn method_list(&self) -> (r: Option<&[NooID]>)
        ensures
            match r {
                Some(s) => self.mutable.methods_list is Some && s@ == self.mutable.methods_list->Some_0@,
                None => self.mutable.methods_list is None,
            },
    {
        list_slice(&self.mutable.methods_list)
    }

    fn signal_list(&self) -> (r: Option<&[NooID]>)
        ensures
            match r {
                Some(s) => self.mutable.signals_list is Some && s@ == self.mutable.signals_list->Some_0@,
                None => self.mutable.signals_list is None,
            },
    {
        list_slice(&self.mutable.signals_list)
    }
}

impl CommComponent for TableState<NooID, NooID> {
    fn method_list(&self) -> (r: Option<&[NooID]>)
        ensures
            match r {
                Some(s) => self.mutable.methods_list is Some && s@ == self.mutable.methods_list->Some_0@,
                None => self.mutable.methods_list is None,
            },
    {
        list_slice(&self.mutable.methods_list)
    }

    fn signal_list(&self) -> (r: Option<&[NooID]>)
        ensures
            match r {
                Some(s) => self.mutable.signals_list is Some && s@ == self.mutable.signals_list->Some_0@,
                None => self.mutable.signals_list is None,
            },
    {
        list_slice(&self.mutable.signals_list)
    }
}

// =============================================================================

/// A message that has an id attached to it
#[derive(Debug, PartialEq, Eq)]
pub struct ClientCommonTagged<IDType, Nested> {
    pub id: IDType,
    pub content: Nested,
}

/// A message that is method oriented
#[derive(Debug)]
pub enum ModMethod {
    Create(ClientCommonTagged<NooID, MethodState<u64>>),
    Delete(CommonDeleteMessage<NooID>),
}

/// A message that is signal oriented
#[derive(Debug)]
pub enum ModSignal {
    Create(ClientCommonTagged<NooID, SignalState<u64>>),
    Delete(CommonDeleteMessage<NooID>),
}

/// A message that is plot oriented
#[derive(Debug)]
pub enum ModPlot {
    Create(ClientCommonTagged<NooID, PlotState<NooID, NooID, NooID>>),
    Update(ClientCommonTagged<NooID, crate::components::PlotStateUpdatable<NooID, NooID, NooID>>),
    Delete(CommonDeleteMessage<NooID>),
}

/// A message that is texture oriented
#[derive(Debug)]
pub enum ModTexture {
    Create(ClientCommonTagged<NooID, TextureState<NooID, NooID>>),
    Delete(CommonDeleteMessage<NooID>),
}

/// A message that is sampler oriented
#[derive(Debug)]
pub enum ModSampler {
    Create(ClientCommonTagged<NooID, SamplerState>),
    Delete(CommonDeleteMessage<NooID>),
}

/// A message that is table oriented
#[derive(Debug)]
pub enum ModTable {
    Create(ClientCommonTagged<NooID, TableState<NooID, NooID>>),
    Update(ClientCommonTagged<NooID, crate::components::TableStateUpdatable<NooID, NooID>>),
    Delete(CommonDeleteMessage<NooID>),
}

/// A message that is physics oriented; the physics state is kept as the
/// CBOR value it came as.
#[derive(Debug)]
pub enum ModPhysics {
    Create(ClientCommonTagged<NooID, CborValue>),
    Delete(CommonDeleteMessage<NooID>),
}

// =============================================================================

/// Why a message from the server could not be handled.
#[derive(Debug)]
pub enum UserClientNext {
    DecodeError(String),
    MethodError,
}

/// Enumeration describing incoming messages to your client.
#[derive(Debug)]
pub enum IncomingMessage {
    /// Message from the server
    NetworkMessage(Vec<u8>),
    /// Socket shutdown from the server
    Closed,
}

/// Enumeration describing outgoing messages
#[derive(Debug)]
pub enum OutgoingMessage {
    /// Instruct client machinery to shut down
    Close,
    /// Invoke a message on the server
    MethodInvoke(ClientInvokeMessage),
}

} // verus!
