//! Message and component kinds of the NOODLES protocol.
use vstd::prelude::*;
use crate::nooid::NooID;
use crate::value::{CborValue, ValueModel};
use crate::value_tools::{lookup, lookup_model};
use crate::value::pair_models_of;

verus! {

/// The type of noodles component being operated on
#[derive(Debug, Clone, Copy, PartialEq, Eq, Structural)]
pub enum ComponentType {
    Entity,
    Table,
    Plot,
    Geometry,
    Material,
    Light,
    Texture,
    Image,
    Sampler,
    BufferView,
    Buffer,
    Method,
    Signal,
    Document,
    NoComponent,
}

impl Default for ComponentType {
    fn default() -> (r: Self)
        ensures
            r == ComponentType::NoComponent,
    {
        ComponentType::NoComponent
    }
}

impl ComponentType {
    /// The position of a component kind in the list of kinds.
    pub open spec fn spec_index(self) -> usize {
        match self {
            ComponentType::Entity => 0,
            ComponentType::Table => 1,
            ComponentType::Plot => 2,
            ComponentType::Geometry => 3,
            ComponentType::Material => 4,
            ComponentType::Light => 5,
            ComponentType::Texture => 6,
            ComponentType::Image => 7,
            ComponentType::Sampler => 8,
            ComponentType::BufferView => 9,
            ComponentType::Buffer => 10,
            ComponentType::Method => 11,
            ComponentType::Signal => 12,
            ComponentType::Document => 13,
            ComponentType::NoComponent => 14,
        }
    }

    /// The position of a component kind in the list of kinds.
    pub fn index(&self) -> (r: usize)
        ensures
            r == self.spec_index(),
            r < 15,
    {
        match self {
            ComponentType::Entity => 0,
            ComponentType::Table => 1,
            ComponentType::Plot => 2,
            ComponentType::Geometry => 3,
            ComponentType::Material => 4,
            ComponentType::Light => 5,
            ComponentType::Texture => 6,
            ComponentType::Image => 7,
            ComponentType::Sampler => 8,
            ComponentType::BufferView => 9,
            ComponentType::Buffer => 10,
            ComponentType::Method => 11,
            ComponentType::Signal => 12,
            ComponentType::Document => 13,
            ComponentType::NoComponent => 14,
        }
    }
}

/// Discriminant for server message types
#[derive(Debug, Clone, Copy, PartialEq, Eq, Structural)]
pub enum ServerMessages {
    MsgMethodCreate,
    MsgMethodDelete,
    MsgSignalCreate,
    MsgSignalDelete,
    MsgEntityCreate,
    MsgEntityUpdate,
    MsgEntityDelete,
    MsgPlotCreate,
    MsgPlotUpdate,
    MsgPlotDelete,
    MsgBufferCreate,
    MsgBufferDelete,
    MsgBufferViewCreate,
    MsgBufferViewDelete,
    MsgMaterialCreate,
    MsgMaterialUpdate,
    MsgMaterialDelete,
    MsgImageCreate,
    MsgImageDelete,
    MsgTextureCreate,
    MsgTextureDelete,
    MsgSamplerCreate,
    MsgSamplerDelete,
    MsgLightCreate,
    MsgLightUpdate,
    MsgLightDelete,
    MsgGeometryCreate,
    MsgGeometryDelete,
    MsgTableCreate,
    MsgTableUpdate,
    MsgTableDelete,
    MsgDocumentUpdate,
    MsgDocumentReset,
    MsgSignalInvoke,
    MsgMethodReply,
    MsgDocumentInitialized,
    Unknown,
}

/// Archetype of server message
#[derive(Debug, Clone, Copy, PartialEq, Eq, Structural)]
pub enum MessageArchType {
    Create,
    Update,
    Delete,
    Other,
}

impl MessageArchType {
    /// The number that stands for an archetype.
    pub fn to_u32(&self) -> (r: u32)
        ensures
            r == match self {
                MessageArchType::Create => 0u32,
                MessageArchType::Update => 1u32,
                MessageArchType::Delete => 2u32,
                MessageArchType::Other => 3u32,
            },
    {
        match self {
            MessageArchType::Create => 0,
            MessageArchType::Update => 1,
            MessageArchType::Delete => 2,
            MessageArchType::Other => 3,
        }
    }
}

impl ServerMessages {
    /// The number that stands for a message on the wire.
    pub open spec fn spec_to_u32(self) -> u32 {
        match self {
            ServerMessages::MsgMethodCreate => 0u32,
            ServerMessages::MsgMethodDelete => 1u32,
            ServerMessages::MsgSignalCreate => 2u32,
            ServerMessages::MsgSignalDelete => 3u32,
            ServerMessages::MsgEntityCreate => 4u32,
            ServerMessages::MsgEntityUpdate => 5u32,
            ServerMessages::MsgEntityDelete => 6u32,
            ServerMessages::MsgPlotCreate => 7u32,
            ServerMessages::MsgPlotUpdate => 8u32,
            ServerMessages::MsgPlotDelete => 9u32,
            ServerMessages::MsgBufferCreate => 10u32,
            ServerMessages::MsgBufferDelete => 11u32,
            ServerMessages::MsgBufferViewCreate => 12u32,
            ServerMessages::MsgBufferViewDelete => 13u32,
            ServerMessages::MsgMaterialCreate => 14u32,
            ServerMessages::MsgMaterialUpdate => 15u32,
            ServerMessages::MsgMaterialDelete => 16u32,
            ServerMessages::MsgImageCreate => 17u32,
            ServerMessages::MsgImageDelete => 18u32,
            ServerMessages::MsgTextureCreate => 19u32,
            ServerMessages::MsgTextureDelete => 20u32,
            ServerMessages::MsgSamplerCreate => 21u32,
            ServerMessages::MsgSamplerDelete => 22u32,
            ServerMessages::MsgLightCreate => 23u32,
            ServerMessages::MsgLightUpdate => 24u32,
            ServerMessages::MsgLightDelete => 25u32,
            ServerMessages::MsgGeometryCreate => 26u32,
            ServerMessages::MsgGeometryDelete => 27u32,
            ServerMessages::MsgTableCreate => 28u32,
            ServerMessages::MsgTableUpdate => 29u32,
            ServerMessages::MsgTableDelete => 30u32,
            ServerMessages::MsgDocumentUpdate => 31u32,
            ServerMessages::MsgDocumentReset => 32u32,
            ServerMessages::MsgSignalInvoke => 33u32,
            ServerMessages::MsgMethodReply => 34u32,
            ServerMessages::MsgDocumentInitialized => 35u32,
            ServerMessages::Unknown => 255u32,
        }
    }

    /// The number that stands for a message on the wire.
    pub fn to_u32(&self) -> (r: u32)
        ensures
            r == self.spec_to_u32(),
    {
        match self {
            ServerMessages::MsgMethodCreate => 0,
            ServerMessages::MsgMethodDelete => 1,
            ServerMessages::MsgSignalCreate => 2,
            ServerMessages::MsgSignalDelete => 3,
            ServerMessages::MsgEntityCreate => 4,
            ServerMessages::MsgEntityUpdate => 5,
            ServerMessages::MsgEntityDelete => 6,
            ServerMessages::MsgPlotCreate => 7,
            ServerMessages::MsgPlotUpdate => 8,
            ServerMessages::MsgPlotDelete => 9,
            ServerMessages::MsgBufferCreate => 10,
            ServerMessages::MsgBufferDelete => 11,
            ServerMessages::MsgBufferViewCreate => 12,
            ServerMessages::MsgBufferViewDelete => 13,
            ServerMessages::MsgMaterialCreate => 14,
            ServerMessages::MsgMaterialUpdate => 15,
            ServerMessages::MsgMaterialDelete => 16,
            ServerMessages::MsgImageCreate => 17,
            ServerMessages::MsgImageDelete => 18,
            ServerMessages::MsgTextureCreate => 19,
            ServerMessages::MsgTextureDelete => 20,
            ServerMessages::MsgSamplerCreate => 21,
            ServerMessages::MsgSamplerDelete => 22,
            ServerMessages::MsgLightCreate => 23,
            ServerMessages::MsgLightUpdate => 24,
            ServerMessages::MsgLightDelete => 25,
            ServerMessages::MsgGeometryCreate => 26,
            ServerMessages::MsgGeometryDelete => 27,
            ServerMessages::MsgTableCreate => 28,
            ServerMessages::MsgTableUpdate => 29,
            ServerMessages::MsgTableDelete => 30,
            ServerMessages::MsgDocumentUpdate => 31,
            ServerMessages::MsgDocumentReset => 32,
            ServerMessages::MsgSignalInvoke => 33,
            ServerMessages::MsgMethodReply => 34,
            ServerMessages::MsgDocumentInitialized => 35,
            ServerMessages::Unknown => 255,
        }
    }

    /// The message a number stands for on the wire, if any.
    pub open spec fn spec_from_u32(n: u32) -> Option<ServerMessages> {
        if n == 0 { Some(ServerMessages::MsgMethodCreate) } else
        if n == 1 { Some(ServerMessages::MsgMethodDelete) } else
        if n == 2 { Some(ServerMessages::MsgSignalCreate) } else
        if n == 3 { Some(ServerMessages::MsgSignalDelete) } else
        if n == 4 { Some(ServerMessages::MsgEntityCreate) } else
        if n == 5 { Some(ServerMessages::MsgEntityUpdate) } else
        if n == 6 { Some(ServerMessages::MsgEntityDelete) } else
        if n == 7 { Some(ServerMessages::MsgPlotCreate) } else
        if n == 8 { Some(ServerMessages::MsgPlotUpdate) } else
        if n == 9 { Some(ServerMessages::MsgPlotDelete) } else
        if n == 10 { Some(ServerMessages::MsgBufferCreate) } else
        if n == 11 { Some(ServerMessages::MsgBufferDelete) } else
        if n == 12 { Some(ServerMessages::MsgBufferViewCreate) } else
        if n == 13 { Some(ServerMessages::MsgBufferViewDelete) } else
        if n == 14 { Some(ServerMessages::MsgMaterialCreate) } else
        if n == 15 { Some(ServerMessages::MsgMaterialUpdate) } else
        if n == 16 { Some(ServerMessages::MsgMaterialDelete) } else
        if n == 17 { Some(ServerMessages::MsgImageCreate) } else
        if n == 18 { Some(ServerMessages::MsgImageDelete) } else
        if n == 19 { Some(ServerMessages::MsgTextureCreate) } else
        if n == 20 { Some(ServerMessages::MsgTextureDelete) } else
        if n == 21 { Some(ServerMessages::MsgSamplerCreate) } else
        if n == 22 { Some(ServerMessages::MsgSamplerDelete) } else
        if n == 23 { Some(ServerMessages::MsgLightCreate) } else
        if n == 24 { Some(ServerMessages::MsgLightUpdate) } else
        if n == 25 { Some(ServerMessages::MsgLightDelete) } else
        if n == 26 { Some(ServerMessages::MsgGeometryCreate) } else
        if n == 27 { Some(ServerMessages::MsgGeometryDelete) } else
        if n == 28 { Some(ServerMessages::MsgTableCreate) } else
        if n == 29 { Some(ServerMessages::MsgTableUpdate) } else
        if n == 30 { Some(ServerMessages::MsgTableDelete) } else
        if n == 31 { Some(ServerMessages::MsgDocumentUpdate) } else
        if n == 32 { Some(ServerMessages::MsgDocumentReset) } else
        if n == 33 { Some(ServerMessages::MsgSignalInvoke) } else
        if n == 34 { Some(ServerMessages::MsgMethodReply) } else
        if n == 35 { Some(ServerMessages::MsgDocumentInitialized) } else
        if n == 255 { Some(ServerMessages::Unknown) } else
        { None }
    }

    /// The message a number stands for on the wire, if any.
    pub fn from_u32(n: u32) -> (r: Option<ServerMessages>)
        ensures
            r == Self::spec_from_u32(n),
    {
        match n {
            0 => Some(ServerMessages::MsgMethodCreate),
            1 => Some(ServerMessages::MsgMethodDelete),
            2 => Some(ServerMessages::MsgSignalCreate),
            3 => Some(ServerMessages::MsgSignalDelete),
            4 => Some(ServerMessages::MsgEntityCreate),
            5 => Some(ServerMessages::MsgEntityUpdate),
            6 => Some(ServerMessages::MsgEntityDelete),
            7 => Some(ServerMessages::MsgPlotCreate),
            8 => Some(ServerMessages::MsgPlotUpdate),
            9 => Some(ServerMessages::MsgPlotDelete),
            10 => Some(ServerMessages::MsgBufferCreate),
            11 => Some(ServerMessages::MsgBufferDelete),
            12 => Some(ServerMessages::MsgBufferViewCreate),
            13 => Some(ServerMessages::MsgBufferViewDelete),
            14 => Some(ServerMessages::MsgMaterialCreate),
            15 => Some(ServerMessages::MsgMaterialUpdate),
            16 => Some(ServerMessages::MsgMaterialDelete),
            17 => Some(ServerMessages::MsgImageCreate),
            18 => Some(ServerMessages::MsgImageDelete),
            19 => Some(ServerMessages::MsgTextureCreate),
            20 => Some(ServerMessages::MsgTextureDelete),
            21 => Some(ServerMessages::MsgSamplerCreate),
            22 => Some(ServerMessages::MsgSamplerDelete),
            23 => Some(ServerMessages::MsgLightCreate),
            24 => Some(ServerMessages::MsgLightUpdate),
            25 => Some(ServerMessages::MsgLightDelete),
            26 => Some(ServerMessages::MsgGeometryCreate),
            27 => Some(ServerMessages::MsgGeometryDelete),
            28 => Some(ServerMessages::MsgTableCreate),
            29 => Some(ServerMessages::MsgTableUpdate),
            30 => Some(ServerMessages::MsgTableDelete),
            31 => Some(ServerMessages::MsgDocumentUpdate),
            32 => Some(ServerMessages::MsgDocumentReset),
            33 => Some(ServerMessages::MsgSignalInvoke),
            34 => Some(ServerMessages::MsgMethodReply),
            35 => Some(ServerMessages::MsgDocumentInitialized),
            255 => Some(ServerMessages::Unknown),
            _ => None,
        }
    }

    /// What Archetype a given message has.
    pub open spec fn spec_arch_type(self) -> MessageArchType {
        match self {
            ServerMessages::MsgMethodCreate => MessageArchType::Create,
            ServerMessages::MsgMethodDelete => MessageArchType::Delete,
            ServerMessages::MsgSignalCreate => MessageArchType::Create,
            ServerMessages::MsgSignalDelete => MessageArchType::Delete,
            ServerMessages::MsgEntityCreate => MessageArchType::Create,
            ServerMessages::MsgEntityUpdate => MessageArchType::Update,
            ServerMessages::MsgEntityDelete => MessageArchType::Delete,
            ServerMessages::MsgPlotCreate => MessageArchType::Create,
            ServerMessages::MsgPlotUpdate => MessageArchType::Update,
            ServerMessages::MsgPlotDelete => MessageArchType::Delete,
            ServerMessages::MsgBufferCreate => MessageArchType::Create,
            ServerMessages::MsgBufferDelete => MessageArchType::Delete,
            ServerMessages::MsgBufferViewCreate => MessageArchType::Create,
            ServerMessages::MsgBufferViewDelete => MessageArchType::Delete,
            ServerMessages::MsgMaterialCreate => MessageArchType::Create,
            ServerMessages::MsgMaterialUpdate => MessageArchType::Update,
            ServerMessages::MsgMaterialDelete => MessageArchType::Delete,
            ServerMessages::MsgImageCreate => MessageArchType::Create,
            ServerMessages::MsgImageDelete => MessageArchType::Delete,
            ServerMessages::MsgTextureCreate => MessageArchType::Create,
            ServerMessages::MsgTextureDelete => MessageArchType::Delete,
            ServerMessages::MsgSamplerCreate => MessageArchType::Create,
            ServerMessages::MsgSamplerDelete => MessageArchType::Delete,
            ServerMessages::MsgLightCreate => MessageArchType::Create,
            ServerMessages::MsgLightUpdate => MessageArchType::Update,
            ServerMessages::MsgLightDelete => MessageArchType::Delete,
            ServerMessages::MsgGeometryCreate => MessageArchType::Create,
            ServerMessages::MsgGeometryDelete => MessageArchType::Delete,
            ServerMessages::MsgTableCreate => MessageArchType::Create,
            ServerMessages::MsgTableUpdate => MessageArchType::Update,
            ServerMessages::MsgTableDelete => MessageArchType::Delete,
            ServerMessages::MsgDocumentUpdate => MessageArchType::Update,
            ServerMessages::MsgDocumentReset => MessageArchType::Delete,
            ServerMessages::MsgSignalInvoke => MessageArchType::Other,
            ServerMessages::MsgMethodReply => MessageArchType::Other,
            ServerMessages::MsgDocumentInitialized => MessageArchType::Other,
            ServerMessages::Unknown => MessageArchType::Other,
        }
    }

    /// Ask what Archetype a given message has
    pub fn arch_type(&self) -> (r: MessageArchType)
        ensures
            r == self.spec_arch_type(),
    {
        match self {
            ServerMessages::MsgMethodCreate => MessageArchType::Create,
            ServerMessages::MsgMethodDelete => MessageArchType::Delete,
            ServerMessages::MsgSignalCreate => MessageArchType::Create,
            ServerMessages::MsgSignalDelete => MessageArchType::Delete,
            ServerMessages::MsgEntityCreate => MessageArchType::Create,
            ServerMessages::MsgEntityUpdate => MessageArchType::Update,
            ServerMessages::MsgEntityDelete => MessageArchType::Delete,
            ServerMessages::MsgPlotCreate => MessageArchType::Create,
            ServerMessages::MsgPlotUpdate => MessageArchType::Update,
            ServerMessages::MsgPlotDelete => MessageArchType::Delete,
            ServerMessages::MsgBufferCreate => MessageArchType::Create,
            ServerMessages::MsgBufferDelete => MessageArchType::Delete,
            ServerMessages::MsgBufferViewCreate => MessageArchType::Create,
            ServerMessages::MsgBufferViewDelete => MessageArchType::Delete,
            ServerMessages::MsgMaterialCreate => MessageArchType::Create,
            ServerMessages::MsgMaterialUpdate => MessageArchType::Update,
            ServerMessages::MsgMaterialDelete => MessageArchType::Delete,
            ServerMessages::MsgImageCreate => MessageArchType::Create,
            ServerMessages::MsgImageDelete => MessageArchType::Delete,
            ServerMessages::MsgTextureCreate => MessageArchType::Create,
            ServerMessages::MsgTextureDelete => MessageArchType::Delete,
            ServerMessages::MsgSamplerCreate => MessageArchType::Create,
            ServerMessages::MsgSamplerDelete => MessageArchType::Delete,
            ServerMessages::MsgLightCreate => MessageArchType::Create,
            ServerMessages::MsgLightUpdate => MessageArchType::Update,
            ServerMessages::MsgLightDelete => MessageArchType::Delete,
            ServerMessages::MsgGeometryCreate => MessageArchType::Create,
            ServerMessages::MsgGeometryDelete => MessageArchType::Delete,
            ServerMessages::MsgTableCreate => MessageArchType::Create,
            ServerMessages::MsgTableUpdate => MessageArchType::Update,
            ServerMessages::MsgTableDelete => MessageArchType::Delete,
            ServerMessages::MsgDocumentUpdate => MessageArchType::Update,
            ServerMessages::MsgDocumentReset => MessageArchType::Delete,
            _ => MessageArchType::Other,
        }
    }

    /// What component a message operates on.
    pub open spec fn spec_component_type(self) -> ComponentType {
        match self {
            ServerMessages::MsgMethodCreate => ComponentType::Method,
            ServerMessages::MsgMethodDelete => ComponentType::Method,
            ServerMessages::MsgSignalCreate => ComponentType::Signal,
            ServerMessages::MsgSignalDelete => ComponentType::Signal,
            ServerMessages::MsgEntityCreate => ComponentType::Entity,
            ServerMessages::MsgEntityUpdate => ComponentType::Entity,
            ServerMessages::MsgEntityDelete => ComponentType::Entity,
            ServerMessages::MsgPlotCreate => ComponentType::Plot,
            ServerMessages::MsgPlotUpdate => ComponentType::Plot,
            ServerMessages::MsgPlotDelete => ComponentType::Plot,
            ServerMessages::MsgBufferCreate => ComponentType::Buffer,
            ServerMessages::MsgBufferDelete => ComponentType::Buffer,
            ServerMessages::MsgBufferViewCreate => ComponentType::BufferView,
            ServerMessages::MsgBufferViewDelete => ComponentType::BufferView,
            ServerMessages::MsgMaterialCreate => ComponentType::Material,
            ServerMessages::MsgMaterialUpdate => ComponentType::Material,
            ServerMessages::MsgMaterialDelete => ComponentType::Material,
            ServerMessages::MsgImageCreate => ComponentType::Image,
            ServerMessages::MsgImageDelete => ComponentType::Image,
            ServerMessages::MsgTextureCreate => ComponentType::Texture,
            ServerMessages::MsgTextureDelete => ComponentType::Texture,
            ServerMessages::MsgSamplerCreate => ComponentType::Sampler,
            ServerMessages::MsgSamplerDelete => ComponentType::Sampler,
            ServerMessages::MsgLightCreate => ComponentType::Light,
            ServerMessages::MsgLightUpdate => ComponentType::Light,
            ServerMessages::MsgLightDelete => ComponentType::Light,
            ServerMessages::MsgGeometryCreate => ComponentType::Geometry,
            ServerMessages::MsgGeometryDelete => ComponentType::Geometry,
            ServerMessages::MsgTableCreate => ComponentType::Table,
            ServerMessages::MsgTableUpdate => ComponentType::Table,
            ServerMessages::MsgTableDelete => ComponentType::Table,
            ServerMessages::MsgDocumentUpdate => ComponentType::Document,
            ServerMessages::MsgDocumentReset => ComponentType::Document,
            ServerMessages::MsgSignalInvoke => ComponentType::NoComponent,
            ServerMessages::MsgMethodReply => ComponentType::NoComponent,
            ServerMessages::MsgDocumentInitialized => ComponentType::NoComponent,
            ServerMessages::Unknown => ComponentType::NoComponent,
        }
    }

    /// Asks what component a message operates on
    pub fn component_type(&self) -> (r: ComponentType)
        ensures
            r == self.spec_component_type(),
    {
        match self {
            ServerMessages::MsgMethodCreate => ComponentType::Method,
            ServerMessages::MsgMethodDelete => ComponentType::Method,
            ServerMessages::MsgSignalCreate => ComponentType::Signal,
            ServerMessages::MsgSignalDelete => ComponentType::Signal,
            ServerMessages::MsgEntityCreate => ComponentType::Entity,
            ServerMessages::MsgEntityUpdate => ComponentType::Entity,
            ServerMessages::MsgEntityDelete => ComponentType::Entity,
            ServerMessages::MsgPlotCreate => ComponentType::Plot,
            ServerMessages::MsgPlotUpdate => ComponentType::Plot,
            ServerMessages::MsgPlotDelete => ComponentType::Plot,
            ServerMessages::MsgBufferCreate => ComponentType::Buffer,
            ServerMessages::MsgBufferDelete => ComponentType::Buffer,
            ServerMessages::MsgBufferViewCreate => ComponentType::BufferView,
            ServerMessages::MsgBufferViewDelete => ComponentType::BufferView,
            ServerMessages::MsgMaterialCreate => ComponentType::Material,
            ServerMessages::MsgMaterialUpdate => ComponentType::Material,
            ServerMessages::MsgMaterialDelete => ComponentType::Material,
            ServerMessages::MsgImageCreate => ComponentType::Image,
            ServerMessages::MsgImageDelete => ComponentType::Image,
            ServerMessages::MsgTextureCreate => ComponentType::Texture,
            ServerMessages::MsgTextureDelete => ComponentType::Texture,
            ServerMessages::MsgSamplerCreate => ComponentType::Sampler,
            ServerMessages::MsgSamplerDelete => ComponentType::Sampler,
            ServerMessages::MsgLightCreate => ComponentType::Light,
            ServerMessages::MsgLightUpdate => ComponentType::Light,
            ServerMessages::MsgLightDelete => ComponentType::Light,
            ServerMessages::MsgGeometryCreate => ComponentType::Geometry,
            ServerMessages::MsgGeometryDelete => ComponentType::Geometry,
            ServerMessages::MsgTableCreate => ComponentType::Table,
            ServerMessages::MsgTableUpdate => ComponentType::Table,
            ServerMessages::MsgTableDelete => ComponentType::Table,
            ServerMessages::MsgDocumentUpdate => ComponentType::Document,
            ServerMessages::MsgDocumentReset => ComponentType::Document,
            _ => ComponentType::NoComponent,
        }
    }
}

/// Every message reads back from its number.
pub proof fn lemma_server_message_number_round_trip(m: ServerMessages)
    ensures
        ServerMessages::spec_from_u32(m.spec_to_u32()) == Some(m),
{
}

/// A number that stands for a message is that message's number.
pub proof fn lemma_server_message_number_unique(n: u32)
    ensures
        ServerMessages::spec_from_u32(n) matches Some(m) ==> m.spec_to_u32() == n,
{
}

/// Messages that create, update or delete something operate on a component or the document;
/// the others operate on none.
pub proof fn lemma_arch_type_matches_component(m: ServerMessages)
    ensures
        (m.spec_arch_type() == MessageArchType::Other) <==> (m.spec_component_type() == ComponentType::NoComponent),
{
}

/// A component message is told apart by the kind of component it names and
/// what it does to it: no two messages name the same kind and archetype.
pub proof fn lemma_component_message_unique(a: ServerMessages, b: ServerMessages)
    requires
        a.spec_component_type() != ComponentType::NoComponent,
        a.spec_component_type() == b.spec_component_type(),
        a.spec_arch_type() == b.spec_arch_type(),
    ensures
        a == b,
{
}

/// Every kind of component has a message that creates it and one that deletes
/// it; entities, plots, materials, lights and tables also have one that
/// updates them.
pub proof fn lemma_component_messages_exist()
    ensures
        exists|m: ServerMessages| #[trigger] m.spec_component_type() == ComponentType::Method && m.spec_arch_type() == MessageArchType::Create,
        exists|m: ServerMessages| #[trigger] m.spec_component_type() == ComponentType::Method && m.spec_arch_type() == MessageArchType::Delete,
        exists|m: ServerMessages| #[trigger] m.spec_component_type() == ComponentType::Signal && m.spec_arch_type() == MessageArchType::Create,
        exists|m: ServerMessages| #[trigger] m.spec_component_type() == ComponentType::Signal && m.spec_arch_type() == MessageArchType::Delete,
        exists|m: ServerMessages| #[trigger] m.spec_component_type() == ComponentType::Entity && m.spec_arch_type() == MessageArchType::Create,
        exists|m: ServerMessages| #[trigger] m.spec_component_type() == ComponentType::Entity && m.spec_arch_type() == MessageArchType::Delete,
        exists|m: ServerMessages| #[trigger] m.spec_component_type() == ComponentType::Plot && m.spec_arch_type() == MessageArchType::Create,
        exists|m: ServerMessages| #[trigger] m.spec_component_type() == ComponentType::Plot && m.spec_arch_type() == MessageArchType::Delete,
        exists|m: ServerMessages| #[trigger] m.spec_component_type() == ComponentType::Buffer && m.spec_arch_type() == MessageArchType::Create,
        exists|m: ServerMessages| #[trigger] m.spec_component_type() == ComponentType::Buffer && m.spec_arch_type() == MessageArchType::Delete,
        exists|m: ServerMessages| #[trigger] m.spec_component_type() == ComponentType::BufferView && m.spec_arch_type() == MessageArchType::Create,
        exists|m: ServerMessages| #[trigger] m.spec_component_type() == ComponentType::BufferView && m.spec_arch_type() == MessageArchType::Delete,
        exists|m: ServerMessages| #[trigger] m.spec_component_type() == ComponentType::Material && m.spec_arch_type() == MessageArchType::Create,
        exists|m: ServerMessages| #[trigger] m.spec_component_type() == ComponentType::Material && m.spec_arch_type() == MessageArchType::Delete,
        exists|m: ServerMessages| #[trigger] m.spec_component_type() == ComponentType::Image && m.spec_arch_type() == MessageArchType::Create,
        exists|m: ServerMessages| #[trigger] m.spec_component_type() == ComponentType::Image && m.spec_arch_type() == MessageArchType::Delete,
        exists|m: ServerMessages| #[trigger] m.spec_component_type() == ComponentType::Texture && m.spec_arch_type() == MessageArchType::Create,
        exists|m: ServerMessages| #[trigger] m.spec_component_type() == ComponentType::Texture && m.spec_arch_type() == MessageArchType::Delete,
        exists|m: ServerMessages| #[trigger] m.spec_component_type() == ComponentType::Sampler && m.spec_arch_type() == MessageArchType::Create,
        exists|m: ServerMessages| #[trigger] m.spec_component_type() == ComponentType::Sampler && m.spec_arch_type() == MessageArchType::Delete,
        exists|m: ServerMessages| #[trigger] m.spec_component_type() == ComponentType::Light && m.spec_arch_type() == MessageArchType::Create,
        exists|m: ServerMessages| #[trigger] m.spec_component_type() == ComponentType::Light && m.spec_arch_type() == MessageArchType::Delete,
        exists|m: ServerMessages| #[trigger] m.spec_component_type() == ComponentType::Geometry && m.spec_arch_type() == MessageArchType::Create,
        exists|m: ServerMessages| #[trigger] m.spec_component_type() == ComponentType::Geometry && m.spec_arch_type() == MessageArchType::Delete,
        exists|m: ServerMessages| #[trigger] m.spec_component_type() == ComponentType::Table && m.spec_arch_type() == MessageArchType::Create,
        exists|m: ServerMessages| #[trigger] m.spec_component_type() == ComponentType::Table && m.spec_arch_type() == MessageArchType::Delete,
        exists|m: ServerMessages| #[trigger] m.spec_component_type() == ComponentType::Entity && m.spec_arch_type() == MessageArchType::Update,
        exists|m: ServerMessages| #[trigger] m.spec_component_type() == ComponentType::Plot && m.spec_arch_type() == MessageArchType::Update,
        exists|m: ServerMessages| #[trigger] m.spec_component_type() == ComponentType::Material && m.spec_arch_type() == MessageArchType::Update,
        exists|m: ServerMessages| #[trigger] m.spec_component_type() == ComponentType::Light && m.spec_arch_type() == MessageArchType::Update,
        exists|m: ServerMessages| #[trigger] m.spec_component_type() == ComponentType::Table && m.spec_arch_type() == MessageArchType::Update,
{
    assert(ServerMessages::MsgMethodCreate.spec_component_type() == ComponentType::Method);
    assert(ServerMessages::MsgMethodDelete.spec_component_type() == ComponentType::Method);
    assert(ServerMessages::MsgSignalCreate.spec_component_type() == ComponentType::Signal);
    assert(ServerMessages::MsgSignalDelete.spec_component_type() == ComponentType::Signal);
    assert(ServerMessages::MsgEntityCreate.spec_component_type() == ComponentType::Entity);
    assert(ServerMessages::MsgEntityDelete.spec_component_type() == ComponentType::Entity);
    assert(ServerMessages::MsgPlotCreate.spec_component_type() == ComponentType::Plot);
    assert(ServerMessages::MsgPlotDelete.spec_component_type() == ComponentType::Plot);
    assert(ServerMessages::MsgBufferCreate.spec_component_type() == ComponentType::Buffer);
    assert(ServerMessages::MsgBufferDelete.spec_component_type() == ComponentType::Buffer);
    assert(ServerMessages::MsgBufferViewCreate.spec_component_type() == ComponentType::BufferView);
    assert(ServerMessages::MsgBufferViewDelete.spec_component_type() == ComponentType::BufferView);
    assert(ServerMessages::MsgMaterialCreate.spec_component_type() == ComponentType::Material);
    assert(ServerMessages::MsgMaterialDelete.spec_component_type() == ComponentType::Material);
    assert(ServerMessages::MsgImageCreate.spec_component_type() == ComponentType::Image);
    assert(ServerMessages::MsgImageDelete.spec_component_type() == ComponentType::Image);
    assert(ServerMessages::MsgTextureCreate.spec_component_type() == ComponentType::Texture);
    assert(ServerMessages::MsgTextureDelete.spec_component_type() == ComponentType::Texture);
    assert(ServerMessages::MsgSamplerCreate.spec_component_type() == ComponentType::Sampler);
    assert(ServerMessages::MsgSamplerDelete.spec_component_type() == ComponentType::Sampler);
    assert(ServerMessages::MsgLightCreate.spec_component_type() == ComponentType::Light);
    assert(ServerMessages::MsgLightDelete.spec_component_type() == ComponentType::Light);
    assert(ServerMessages::MsgGeometryCreate.spec_component_type() == ComponentType::Geometry);
    assert(ServerMessages::MsgGeometryDelete.spec_component_type() == ComponentType::Geometry);
    assert(ServerMessages::MsgTableCreate.spec_component_type() == ComponentType::Table);
    assert(ServerMessages::MsgTableDelete.spec_component_type() == ComponentType::Table);
    assert(ServerMessages::MsgEntityUpdate.spec_component_type() == ComponentType::Entity);
    assert(ServerMessages::MsgPlotUpdate.spec_component_type() == ComponentType::Plot);
    assert(ServerMessages::MsgMaterialUpdate.spec_component_type() == ComponentType::Material);
    assert(ServerMessages::MsgLightUpdate.spec_component_type() == ComponentType::Light);
    assert(ServerMessages::MsgTableUpdate.spec_component_type() == ComponentType::Table);
}

/// Discriminant for client message types
#[derive(Debug, Clone, Copy, PartialEq, Eq, Structural)]
pub enum ClientMessages {
    MsgClientIntro,
    MsgClientInvoke,
    Unknown,
}

impl ClientMessages {
    /// The number that stands for a message on the wire.
    pub fn to_u32(&self) -> (r: u32)
        ensures
            r == match self {
                ClientMessages::MsgClientIntro => 0u32,
                ClientMessages::MsgClientInvoke => 1u32,
                ClientMessages::Unknown => 255u32,
            },
    {
        match self {
            ClientMessages::MsgClientIntro => 0,
            ClientMessages::MsgClientInvoke => 1,
            ClientMessages::Unknown => 255,
        }
    }

    /// The message a number stands for on the wire, if any.
    pub fn from_u32(n: u32) -> (r: Option<ClientMessages>)
        ensures
            r == if n == 0 {
                Some(ClientMessages::MsgClientIntro)
            } else if n == 1 {
                Some(ClientMessages::MsgClientInvoke)
            } else if n == 255 {
                Some(ClientMessages::Unknown)
            } else {
                None
            },
    {
        match n {
            0 => Some(ClientMessages::MsgClientIntro),
            1 => Some(ClientMessages::MsgClientInvoke),
            255 => Some(ClientMessages::Unknown),
            _ => None,
        }
    }
}

/// Error while looking up a field in a message map.
#[derive(Debug)]
pub enum ValueMapLookupError {
    /// ID is missing from message map
    IDMissing,
}

/// Look up a value in a message map, failing when the key is absent.
pub fn lookup_field<'a>(v: &CborValue, map: &'a Vec<(CborValue, CborValue)>) -> (r: Result<
    &'a CborValue,
    ValueMapLookupError,
>)
    ensures
        match r {
            Ok(x) => lookup_model(pair_models_of(map@), v@) == Some(x@),
            Err(_) => lookup_model(pair_models_of(map@), v@) is None,
        },
{
    match lookup(v, map) {
        Some(x) => Ok(x),
        None => Err(ValueMapLookupError::IDMissing),
    }
}

/// The identifier a message map carries under `"id"`, if it carries one.
pub open spec fn spec_id_for_message(map: Seq<(ValueModel, ValueModel)>) -> Option<NooID> {
    match lookup_model(map, ValueModel::Text("id"@)) {
        Some(v) => NooID::spec_from_value(v),
        None => None,
    }
}

/// Find the identifier a message map carries under `"id"`.
pub fn id_for_message(map: &Vec<(CborValue, CborValue)>) -> (r: Option<NooID>)
    ensures
        r == spec_id_for_message(pair_models_of(map@)),
{
    let id_name = CborValue::Text(String::from_str("id"));
    match lookup_field(&id_name, map) {
        Ok(v) => NooID::from_value(v),
        Err(_) => None,
    }
}

} // verus!
