//! The document a server keeps: the components it has announced, the
//! document's own methods and signals, and the messages it owes every client.
//!
//! Every change to a component goes with the message that tells clients of
//! it, appended to the messages for every client.
use vstd::prelude::*;
use crate::nooid::NooID;
use crate::value::{CborValue, ValueModel, models_of};
use crate::value_tools::CBORTransform;
use crate::common::{ServerMessages, ComponentType, MessageArchType};
use crate::components::{
    MethodState, SignalState, BufferState, BufferViewState, SamplerState, ImageState, TextureState, TableState,
    PlotState, ComponentMessageIDs, UpdatableWith,
};
use crate::server_components::{ServerMaterialState, ServerGeometryState, ServerEntityState};
use crate::component_list::{ServerComponentList, ComponentListModel, can_provision, next_id, id_position};
use crate::component_codec::FieldWriter;
use crate::announce::{
    spec_record, spec_created, spec_list_dump, spec_document_tail, create_record, delete_record, update_record,
    document_update_record, signal_record, document_tail,
};
use crate::server_communication::{
    DocumentUpdate, SignalInvokeObj, MessageSignalInvoke, MethodException, MessageMethodReply, ExceptionCodes,
};
use crate::message_codec::{DocumentUpdateModel, MessageSignalInvokeModel, MessageMethodReplyModel};
use crate::client_messages::{AllClientMessages, ClientInvokeMessage, InvokeIDType};
use crate::invoke::{InvokeObj, spec_resolve_context, resolve_context, check_invoke, method_reply};
use crate::table::opt_seq;

verus! {

/// Announce a new component to every client, and store it.
pub fn create_component<T: FieldWriter + ComponentMessageIDs>(
    list: &mut ServerComponentList<T>,
    broadcast: &mut Vec<CborValue>,
    new_t: T,
) -> (r: NooID)
    requires
        old(list).wf(),
        can_provision(old(list).model()),
    ensures
        final(list).wf(),
        r == next_id(old(list).model()),
        !old(list).model().items.contains_key(r),
        final(list).model().order == old(list).model().order.push(r),
        final(list).model().items == old(list).model().items.insert(r, new_t),
        old(list).model().free.len() == 0 ==> final(list).model().free == old(list).model().free,
        old(list).model().free.len() > 0 ==> final(list).model().free == old(list).model().free.drop_last(),
        models_of(final(broadcast)@) == models_of(old(broadcast)@).push(
            spec_record(T::spec_create_id(), spec_created::<T>(r, new_t.deep_view())),
        ),
{
    let id = list.new_component(new_t);
    let rec = create_record(id, list.get_data(id).unwrap());
    let ghost before = broadcast@;
    broadcast.push(rec);
    proof {
        crate::value::lemma_models_of_push(before, rec);
    }
    id
}

/// Tell every client that a live component is gone, and drop it. An
/// identifier that names no live component changes nothing.
pub fn delete_component<T: ComponentMessageIDs>(
    list: &mut ServerComponentList<T>,
    broadcast: &mut Vec<CborValue>,
    id: NooID,
) -> (r: Option<T>)
    requires
        old(list).wf(),
    ensures
        final(list).wf(),
        match r {
            Some(x) => {
                &&& old(list).model().items.contains_key(id)
                &&& x == old(list).model().items[id]
                &&& final(list).model().items == old(list).model().items.remove(id)
                &&& final(list).model().free == old(list).model().free.push(id)
                &&& final(list).model().order == old(list).model().order.remove(id_position(old(list).model().order, id))
                &&& final(list).model().order.len() + 1 == old(list).model().order.len()
                &&& models_of(final(broadcast)@) == models_of(old(broadcast)@).push(
                    spec_record(T::spec_delete_id(), ValueModel::Dict(seq![(ValueModel::Text("id"@), id.spec_to_value())])),
                )
            },
            None => {
                &&& !old(list).model().items.contains_key(id)
                &&& *final(list) == *old(list)
                &&& final(broadcast)@ == old(broadcast)@
            },
        },
{
    if list.resolve(id).is_none() {
        return None;
    }
    let rec = delete_record::<T>(id);
    let ghost before = broadcast@;
    broadcast.push(rec);
    proof {
        crate::value::lemma_models_of_push(before, rec);
        list.lemma_ids();
        assert(list.model().order.contains(id));
    }
    list.return_id(id)
}

/// Tell every client how a live component changes, and change it. An update
/// for an identifier that names no live component changes nothing.
pub fn update_component<T: UpdatableWith + ComponentMessageIDs>(
    list: &mut ServerComponentList<T>,
    broadcast: &mut Vec<CborValue>,
    id: NooID,
    update: T::Substate,
) -> (r: bool)
    where T::Substate: FieldWriter,
    requires
        old(list).wf(),
    ensures
        final(list).wf(),
        final(list).model().order == old(list).model().order,
        final(list).model().free == old(list).model().free,
        r == old(list).model().items.contains_key(id),
        r ==> final(list).model().items == old(list).model().items.insert(id, old(list).model().items[id].updated(update)),
        r ==> models_of(final(broadcast)@) == models_of(old(broadcast)@).push(
            spec_record(T::spec_update_id(), spec_created::<T::Substate>(id, update.deep_view())),
        ),
        !r ==> final(list).model().items == old(list).model().items && final(broadcast)@ == old(broadcast)@,
{
    if list.resolve(id).is_none() {
        return false;
    }
    let rec = update_record::<T, T::Substate>(id, &update);
    let ghost before = broadcast@;
    broadcast.push(rec);
    proof {
        crate::value::lemma_models_of_push(before, rec);
    }
    list.update_data(id, update)
}

/// A view over the whole of a buffer: its length is the buffer's size, or
/// nothing when the buffer is not live.
pub fn new_from_whole_buffer(buffers: &ServerComponentList<BufferState>, buffer: NooID) -> (r: BufferViewState<NooID>)
    requires
        buffers.wf(),
    ensures
        r.name is None,
        r.source_buffer == buffer,
        r.view_type == crate::components::BufferViewType::Unknown,
        r.offset == 0,
        r.length == if buffers.model().items.contains_key(buffer) { buffers.model().items[buffer].size } else { 0 },
{
    let length = match buffers.get_data(buffer) {
        Some(b) => b.size,
        None => 0,
    };
    BufferViewState {
        name: None,
        source_buffer: buffer,
        view_type: crate::components::BufferViewType::Unknown,
        offset: 0,
        length,
    }
}

// =============================================================================

/// The state of a server: every component it has announced, the document's
/// methods and signals, and the messages for every client that are not sent
/// yet, oldest first. `H` is what a method keeps to run its handler.
pub struct ServerState<H> {
    pub methods: ServerComponentList<MethodState<H>>,
    pub signals: ServerComponentList<SignalState<()>>,
    pub buffers: ServerComponentList<BufferState>,
    pub buffer_views: ServerComponentList<BufferViewState<NooID>>,
    pub samplers: ServerComponentList<SamplerState>,
    pub images: ServerComponentList<ImageState<NooID>>,
    pub textures: ServerComponentList<TextureState<NooID, NooID>>,
    pub materials: ServerComponentList<ServerMaterialState>,
    pub geometries: ServerComponentList<ServerGeometryState>,
    pub tables: ServerComponentList<TableState<NooID, NooID>>,
    pub plots: ServerComponentList<PlotState<NooID, NooID, NooID>>,
    pub entities: ServerComponentList<ServerEntityState>,
    pub comm: DocumentUpdate<NooID, NooID>,
    pub broadcast: Vec<CborValue>,
}

/// Whether two states hold the same components.
pub open spec fn same_components<H>(a: ServerState<H>, b: ServerState<H>) -> bool {
    &&& a.methods == b.methods
    &&& a.signals == b.signals
    &&& a.buffers == b.buffers
    &&& a.buffer_views == b.buffer_views
    &&& a.samplers == b.samplers
    &&& a.images == b.images
    &&& a.textures == b.textures
    &&& a.materials == b.materials
    &&& a.geometries == b.geometries
    &&& a.tables == b.tables
    &&& a.plots == b.plots
    &&& a.entities == b.entities
}

/// The entries of the pack that tells a joining client the whole state: every
/// list in an order in which nothing refers to a later component, then the
/// document's methods and signals, then that the document is complete.
pub open spec fn spec_state_dump<H>(s: ServerState<H>) -> Seq<ValueModel> {
    spec_list_dump::<MethodState<H>>(s.methods.model())
    + spec_list_dump::<SignalState<()>>(s.signals.model())
    + spec_list_dump::<BufferState>(s.buffers.model())
    + spec_list_dump::<BufferViewState<NooID>>(s.buffer_views.model())
    + spec_list_dump::<SamplerState>(s.samplers.model())
    + spec_list_dump::<ImageState<NooID>>(s.images.model())
    + spec_list_dump::<TextureState<NooID, NooID>>(s.textures.model())
    + spec_list_dump::<ServerMaterialState>(s.materials.model())
    + spec_list_dump::<ServerGeometryState>(s.geometries.model())
    + spec_list_dump::<TableState<NooID, NooID>>(s.tables.model())
    + spec_list_dump::<PlotState<NooID, NooID, NooID>>(s.plots.model())
    + spec_list_dump::<ServerEntityState>(s.entities.model())
    + spec_document_tail(s.comm.deep_view())
}

/// The messages that announce a kind of component name that kind: a client
/// files what they carry in the list of that kind.
pub proof fn lemma_announcements_name_their_kind<H>()
    ensures
        MethodState::<H>::spec_create_id().spec_component_type() == ComponentType::Method,
        MethodState::<H>::spec_create_id().spec_arch_type() == MessageArchType::Create,
        MethodState::<H>::spec_delete_id().spec_component_type() == ComponentType::Method,
        MethodState::<H>::spec_delete_id().spec_arch_type() == MessageArchType::Delete,
        SignalState::<()>::spec_create_id().spec_component_type() == ComponentType::Signal,
        SignalState::<()>::spec_create_id().spec_arch_type() == MessageArchType::Create,
        SignalState::<()>::spec_delete_id().spec_component_type() == ComponentType::Signal,
        SignalState::<()>::spec_delete_id().spec_arch_type() == MessageArchType::Delete,
        BufferState::spec_create_id().spec_component_type() == ComponentType::Buffer,
        BufferState::spec_create_id().spec_arch_type() == MessageArchType::Create,
        BufferState::spec_delete_id().spec_component_type() == ComponentType::Buffer,
        BufferState::spec_delete_id().spec_arch_type() == MessageArchType::Delete,
        BufferViewState::<NooID>::spec_create_id().spec_component_type() == ComponentType::BufferView,
        BufferViewState::<NooID>::spec_create_id().spec_arch_type() == MessageArchType::Create,
        BufferViewState::<NooID>::spec_delete_id().spec_component_type() == ComponentType::BufferView,
        BufferViewState::<NooID>::spec_delete_id().spec_arch_type() == MessageArchType::Delete,
        SamplerState::spec_create_id().spec_component_type() == ComponentType::Sampler,
        SamplerState::spec_create_id().spec_arch_type() == MessageArchType::Create,
        SamplerState::spec_delete_id().spec_component_type() == ComponentType::Sampler,
        SamplerState::spec_delete_id().spec_arch_type() == MessageArchType::Delete,
        ImageState::<NooID>::spec_create_id().spec_component_type() == ComponentType::Image,
        ImageState::<NooID>::spec_create_id().spec_arch_type() == MessageArchType::Create,
        ImageState::<NooID>::spec_delete_id().spec_component_type() == ComponentType::Image,
        ImageState::<NooID>::spec_delete_id().spec_arch_type() == MessageArchType::Delete,
        TextureState::<NooID, NooID>::spec_create_id().spec_component_type() == ComponentType::Texture,
        TextureState::<NooID, NooID>::spec_create_id().spec_arch_type() == MessageArchType::Create,
        TextureState::<NooID, NooID>::spec_delete_id().spec_component_type() == ComponentType::Texture,
        TextureState::<NooID, NooID>::spec_delete_id().spec_arch_type() == MessageArchType::Delete,
        ServerMaterialState::spec_create_id().spec_component_type() == ComponentType::Material,
        ServerMaterialState::spec_create_id().spec_arch_type() == MessageArchType::Create,
        ServerMaterialState::spec_delete_id().spec_component_type() == ComponentType::Material,
        ServerMaterialState::spec_delete_id().spec_arch_type() == MessageArchType::Delete,
        ServerMaterialState::spec_update_id().spec_component_type() == ComponentType::Material,
        ServerMaterialState::spec_update_id().spec_arch_type() == MessageArchType::Update,
        ServerGeometryState::spec_create_id().spec_component_type() == ComponentType::Geometry,
        ServerGeometryState::spec_create_id().spec_arch_type() == MessageArchType::Create,
        ServerGeometryState::spec_delete_id().spec_component_type() == ComponentType::Geometry,
        ServerGeometryState::spec_delete_id().spec_arch_type() == MessageArchType::Delete,
        TableState::<NooID, NooID>::spec_create_id().spec_component_type() == ComponentType::Table,
        TableState::<NooID, NooID>::spec_create_id().spec_arch_type() == MessageArchType::Create,
        TableState::<NooID, NooID>::spec_delete_id().spec_component_type() == ComponentType::Table,
        TableState::<NooID, NooID>::spec_delete_id().spec_arch_type() == MessageArchType::Delete,
        TableState::<NooID, NooID>::spec_update_id().spec_component_type() == ComponentType::Table,
        TableState::<NooID, NooID>::spec_update_id().spec_arch_type() == MessageArchType::Update,
        PlotState::<NooID, NooID, NooID>::spec_create_id().spec_component_type() == ComponentType::Plot,
        PlotState::<NooID, NooID, NooID>::spec_create_id().spec_arch_type() == MessageArchType::Create,
        PlotState::<NooID, NooID, NooID>::spec_delete_id().spec_component_type() == ComponentType::Plot,
        PlotState::<NooID, NooID, NooID>::spec_delete_id().spec_arch_type() == MessageArchType::Delete,
        PlotState::<NooID, NooID, NooID>::spec_update_id().spec_component_type() == ComponentType::Plot,
        PlotState::<NooID, NooID, NooID>::spec_update_id().spec_arch_type() == MessageArchType::Update,
        ServerEntityState::spec_create_id().spec_component_type() == ComponentType::Entity,
        ServerEntityState::spec_create_id().spec_arch_type() == MessageArchType::Create,
        ServerEntityState::spec_delete_id().spec_component_type() == ComponentType::Entity,
        ServerEntityState::spec_delete_id().spec_arch_type() == MessageArchType::Delete,
        ServerEntityState::spec_update_id().spec_component_type() == ComponentType::Entity,
        ServerEntityState::spec_update_id().spec_arch_type() == MessageArchType::Update,
{
}

/// The announcements of the components of a list stand in `dump` from `at`
/// on: for each component, in the list's order, the number of the message
/// that creates its kind, then its identifier with its fields.
#[verifier::opaque]
pub open spec fn announced_at<T: FieldWriter + ComponentMessageIDs>(dump: Seq<ValueModel>, at: int, m: ComponentListModel<T>) -> bool {
    &&& 0 <= at
    &&& at + 2 * m.order.len() <= dump.len()
    &&& forall|i: int| #![trigger m.order[i]] 0 <= i < m.order.len() ==> {
        &&& dump[at + 2 * i] == ValueModel::Integer(T::spec_create_id().spec_to_u32() as int)
        &&& dump[at + 2 * i + 1] == spec_created::<T>(m.order[i], m.items[m.order[i]].deep_view())
    }
}

proof fn lemma_list_dump_announced<T: FieldWriter + ComponentMessageIDs>(m: ComponentListModel<T>)
    ensures
        spec_list_dump(m).len() == 2 * m.order.len(),
        announced_at(spec_list_dump(m), 0, m),
{
    reveal(announced_at);
    let d = spec_list_dump(m);
    assert forall|i: int| #![trigger m.order[i]] 0 <= i < m.order.len() implies {
        &&& d[2 * i] == ValueModel::Integer(T::spec_create_id().spec_to_u32() as int)
        &&& d[2 * i + 1] == spec_created::<T>(m.order[i], m.items[m.order[i]].deep_view())
    } by {
        assert((2 * i) % 2 == 0);
        assert((2 * i + 1) % 2 == 1);
        assert((2 * i + 1) / 2 == i);
        assert((2 * i) / 2 == i);
    }
}

proof fn lemma_announced_before<T: FieldWriter + ComponentMessageIDs>(x: Seq<ValueModel>, y: Seq<ValueModel>, at: int, m: ComponentListModel<T>)
    requires
        announced_at(x, at, m),
    ensures
        announced_at(x + y, at, m),
{
    reveal(announced_at);
    assert forall|i: int| #![trigger m.order[i]] 0 <= i < m.order.len() implies {
        &&& (x + y)[at + 2 * i] == ValueModel::Integer(T::spec_create_id().spec_to_u32() as int)
        &&& (x + y)[at + 2 * i + 1] == spec_created::<T>(m.order[i], m.items[m.order[i]].deep_view())
    } by {
        assert(x[at + 2 * i] == ValueModel::Integer(T::spec_create_id().spec_to_u32() as int));
    }
}

proof fn lemma_announced_after<T: FieldWriter + ComponentMessageIDs>(x: Seq<ValueModel>, y: Seq<ValueModel>, at: int, m: ComponentListModel<T>)
    requires
        announced_at(y, at, m),
    ensures
        announced_at(x + y, x.len() + at, m),
{
    reveal(announced_at);
    assert forall|i: int| #![trigger m.order[i]] 0 <= i < m.order.len() implies {
        &&& (x + y)[x.len() + at + 2 * i] == ValueModel::Integer(T::spec_create_id().spec_to_u32() as int)
        &&& (x + y)[x.len() + at + 2 * i + 1] == spec_created::<T>(m.order[i], m.items[m.order[i]].deep_view())
    } by {
        assert(y[at + 2 * i] == ValueModel::Integer(T::spec_create_id().spec_to_u32() as int));
    }
}

/// A client that joins hears of every live component of every list, in each
/// list's order, before the document's state and the message that it is
/// complete: the lists are announced one after the other, methods first and
/// entities last, and nothing else stands in the pack.
#[verifier::rlimit(40)]
#[verifier::spinoff_prover]
pub proof fn lemma_dump_announces_every_component<H>(s: ServerState<H>)
    ensures
        announced_at(spec_state_dump(s), (0) as int, s.methods.model()),
        announced_at(spec_state_dump(s), (2 * (s.methods.model().order.len())) as int, s.signals.model()),
        announced_at(spec_state_dump(s), (2 * (s.methods.model().order.len() + s.signals.model().order.len())) as int, s.buffers.model()),
        announced_at(spec_state_dump(s), (2 * (s.methods.model().order.len() + s.signals.model().order.len() + s.buffers.model().order.len())) as int, s.buffer_views.model()),
        announced_at(spec_state_dump(s), (2 * (s.methods.model().order.len() + s.signals.model().order.len() + s.buffers.model().order.len() + s.buffer_views.model().order.len())) as int, s.samplers.model()),
        announced_at(spec_state_dump(s), (2 * (s.methods.model().order.len() + s.signals.model().order.len() + s.buffers.model().order.len() + s.buffer_views.model().order.len() + s.samplers.model().order.len())) as int, s.images.model()),
        announced_at(spec_state_dump(s), (2 * (s.methods.model().order.len() + s.signals.model().order.len() + s.buffers.model().order.len() + s.buffer_views.model().order.len() + s.samplers.model().order.len() + s.images.model().order.len())) as int, s.textures.model()),
        announced_at(spec_state_dump(s), (2 * (s.methods.model().order.len() + s.signals.model().order.len() + s.buffers.model().order.len() + s.buffer_views.model().order.len() + s.samplers.model().order.len() + s.images.model().order.len() + s.textures.model().order.len())) as int, s.materials.model()),
        announced_at(spec_state_dump(s), (2 * (s.methods.model().order.len() + s.signals.model().order.len() + s.buffers.model().order.len() + s.buffer_views.model().order.len() + s.samplers.model().order.len() + s.images.model().order.len() + s.textures.model().order.len() + s.materials.model().order.len())) as int, s.geometries.model()),
        announced_at(spec_state_dump(s), (2 * (s.methods.model().order.len() + s.signals.model().order.len() + s.buffers.model().order.len() + s.buffer_views.model().order.len() + s.samplers.model().order.len() + s.images.model().order.len() + s.textures.model().order.len() + s.materials.model().order.len() + s.geometries.model().order.len())) as int, s.tables.model()),
        announced_at(spec_state_dump(s), (2 * (s.methods.model().order.len() + s.signals.model().order.len() + s.buffers.model().order.len() + s.buffer_views.model().order.len() + s.samplers.model().order.len() + s.images.model().order.len() + s.textures.model().order.len() + s.materials.model().order.len() + s.geometries.model().order.len() + s.tables.model().order.len())) as int, s.plots.model()),
        announced_at(spec_state_dump(s), (2 * (s.methods.model().order.len() + s.signals.model().order.len() + s.buffers.model().order.len() + s.buffer_views.model().order.len() + s.samplers.model().order.len() + s.images.model().order.len() + s.textures.model().order.len() + s.materials.model().order.len() + s.geometries.model().order.len() + s.tables.model().order.len() + s.plots.model().order.len())) as int, s.entities.model()),
        spec_state_dump(s).len() == 2 * (s.methods.model().order.len() + s.signals.model().order.len() + s.buffers.model().order.len() + s.buffer_views.model().order.len() + s.samplers.model().order.len() + s.images.model().order.len() + s.textures.model().order.len() + s.materials.model().order.len() + s.geometries.model().order.len() + s.tables.model().order.len() + s.plots.model().order.len() + s.entities.model().order.len()) + 4,
        spec_state_dump(s).subrange((2 * (s.methods.model().order.len() + s.signals.model().order.len() + s.buffers.model().order.len() + s.buffer_views.model().order.len() + s.samplers.model().order.len() + s.images.model().order.len() + s.textures.model().order.len() + s.materials.model().order.len() + s.geometries.model().order.len() + s.tables.model().order.len() + s.plots.model().order.len() + s.entities.model().order.len())) as int, (2 * (s.methods.model().order.len() + s.signals.model().order.len() + s.buffers.model().order.len() + s.buffer_views.model().order.len() + s.samplers.model().order.len() + s.images.model().order.len() + s.textures.model().order.len() + s.materials.model().order.len() + s.geometries.model().order.len() + s.tables.model().order.len() + s.plots.model().order.len() + s.entities.model().order.len()) + 4) as int) == spec_document_tail(s.comm.deep_view()),
{
    let p0 = spec_list_dump::<MethodState<H>>(s.methods.model());
    lemma_list_dump_announced::<MethodState<H>>(s.methods.model());
    let p1 = spec_list_dump::<SignalState<()>>(s.signals.model());
    lemma_list_dump_announced::<SignalState<()>>(s.signals.model());
    let p2 = spec_list_dump::<BufferState>(s.buffers.model());
    lemma_list_dump_announced::<BufferState>(s.buffers.model());
    let p3 = spec_list_dump::<BufferViewState<NooID>>(s.buffer_views.model());
    lemma_list_dump_announced::<BufferViewState<NooID>>(s.buffer_views.model());
    let p4 = spec_list_dump::<SamplerState>(s.samplers.model());
    lemma_list_dump_announced::<SamplerState>(s.samplers.model());
    let p5 = spec_list_dump::<ImageState<NooID>>(s.images.model());
    lemma_list_dump_announced::<ImageState<NooID>>(s.images.model());
    let p6 = spec_list_dump::<TextureState<NooID, NooID>>(s.textures.model());
    lemma_list_dump_announced::<TextureState<NooID, NooID>>(s.textures.model());
    let p7 = spec_list_dump::<ServerMaterialState>(s.materials.model());
    lemma_list_dump_announced::<ServerMaterialState>(s.materials.model());
    let p8 = spec_list_dump::<ServerGeometryState>(s.geometries.model());
    lemma_list_dump_announced::<ServerGeometryState>(s.geometries.model());
    let p9 = spec_list_dump::<TableState<NooID, NooID>>(s.tables.model());
    lemma_list_dump_announced::<TableState<NooID, NooID>>(s.tables.model());
    let p10 = spec_list_dump::<PlotState<NooID, NooID, NooID>>(s.plots.model());
    lemma_list_dump_announced::<PlotState<NooID, NooID, NooID>>(s.plots.model());
    let p11 = spec_list_dump::<ServerEntityState>(s.entities.model());
    lemma_list_dump_announced::<ServerEntityState>(s.entities.model());
    let a0 = p0;
    let a1 = a0 + p1;
    lemma_announced_before(a0, p1, (0) as int, s.methods.model());
    lemma_announced_after(a0, p1, (0) as int, s.signals.model());
    assert(a0.len() + 0 == 2 * (s.methods.model().order.len()));
    let a2 = a1 + p2;
    lemma_announced_before(a1, p2, (0) as int, s.methods.model());
    lemma_announced_before(a1, p2, (2 * (s.methods.model().order.len())) as int, s.signals.model());
    lemma_announced_after(a1, p2, (0) as int, s.buffers.model());
    assert(a1.len() + 0 == 2 * (s.methods.model().order.len() + s.signals.model().order.len()));
    let a3 = a2 + p3;
    lemma_announced_before(a2, p3, (0) as int, s.methods.model());
    lemma_announced_before(a2, p3, (2 * (s.methods.model().order.len())) as int, s.signals.model());
    lemma_announced_before(a2, p3, (2 * (s.methods.model().order.len() + s.signals.model().order.len())) as int, s.buffers.model());
    lemma_announced_after(a2, p3, (0) as int, s.buffer_views.model());
    assert(a2.len() + 0 == 2 * (s.methods.model().order.len() + s.signals.model().order.len() + s.buffers.model().order.len()));
    let a4 = a3 + p4;
    lemma_announced_before(a3, p4, (0) as int, s.methods.model());
    lemma_announced_before(a3, p4, (2 * (s.methods.model().order.len())) as int, s.signals.model());
    lemma_announced_before(a3, p4, (2 * (s.methods.model().order.len() + s.signals.model().order.len())) as int, s.buffers.model());
    lemma_announced_before(a3, p4, (2 * (s.methods.model().order.len() + s.signals.model().order.len() + s.buffers.model().order.len())) as int, s.buffer_views.model());
    lemma_announced_after(a3, p4, (0) as int, s.samplers.model());
    assert(a3.len() + 0 == 2 * (s.methods.model().order.len() + s.signals.model().order.len() + s.buffers.model().order.len() + s.buffer_views.model().order.len()));
    let a5 = a4 + p5;
    lemma_announced_before(a4, p5, (0) as int, s.methods.model());
    lemma_announced_before(a4, p5, (2 * (s.methods.model().order.len())) as int, s.signals.model());
    lemma_announced_before(a4, p5, (2 * (s.methods.model().order.len() + s.signals.model().order.len())) as int, s.buffers.model());
    lemma_announced_before(a4, p5, (2 * (s.methods.model().order.len() + s.signals.model().order.len() + s.buffers.model().order.len())) as int, s.buffer_views.model());
    lemma_announced_before(a4, p5, (2 * (s.methods.model().order.len() + s.signals.model().order.len() + s.buffers.model().order.len() + s.buffer_views.model().order.len())) as int, s.samplers.model());
    lemma_announced_after(a4, p5, (0) as int, s.images.model());
    assert(a4.len() + 0 == 2 * (s.methods.model().order.len() + s.signals.model().order.len() + s.buffers.model().order.len() + s.buffer_views.model().order.len() + s.samplers.model().order.len()));
    let a6 = a5 + p6;
    lemma_announced_before(a5, p6, (0) as int, s.methods.model());
    lemma_announced_before(a5, p6, (2 * (s.methods.model().order.len())) as int, s.signals.model());
    lemma_announced_before(a5, p6, (2 * (s.methods.model().order.len() + s.signals.model().order.len())) as int, s.buffers.model());
    lemma_announced_before(a5, p6, (2 * (s.methods.model().order.len() + s.signals.model().order.len() + s.buffers.model().order.len())) as int, s.buffer_views.model());
    lemma_announced_before(a5, p6, (2 * (s.methods.model().order.len() + s.signals.model().order.len() + s.buffers.model().order.len() + s.buffer_views.model().order.len())) as int, s.samplers.model());
    lemma_announced_before(a5, p6, (2 * (s.methods.model().order.len() + s.signals.model().order.len() + s.buffers.model().order.len() + s.buffer_views.model().order.len() + s.samplers.model().order.len())) as int, s.images.model());
    lemma_announced_after(a5, p6, (0) as int, s.textures.model());
    assert(a5.len() + 0 == 2 * (s.methods.model().order.len() + s.signals.model().order.len() + s.buffers.model().order.len() + s.buffer_views.model().order.len() + s.samplers.model().order.len() + s.images.model().order.len()));
    let a7 = a6 + p7;
    lemma_announced_before(a6, p7, (0) as int, s.methods.model());
    lemma_announced_before(a6, p7, (2 * (s.methods.model().order.len())) as int, s.signals.model());
    lemma_announced_before(a6, p7, (2 * (s.methods.model().order.len() + s.signals.model().order.len())) as int, s.buffers.model());
    lemma_announced_before(a6, p7, (2 * (s.methods.model().order.len() + s.signals.model().order.len() + s.buffers.model().order.len())) as int, s.buffer_views.model());
    lemma_announced_before(a6, p7, (2 * (s.methods.model().order.len() + s.signals.model().order.len() + s.buffers.model().order.len() + s.buffer_views.model().order.len())) as int, s.samplers.model());
    lemma_announced_before(a6, p7, (2 * (s.methods.model().order.len() + s.signals.model().order.len() + s.buffers.model().order.len() + s.buffer_views.model().order.len() + s.samplers.model().order.len())) as int, s.images.model());
    lemma_announced_before(a6, p7, (2 * (s.methods.model().order.len() + s.signals.model().order.len() + s.buffers.model().order.len() + s.buffer_views.model().order.len() + s.samplers.model().order.len() + s.images.model().order.len())) as int, s.textures.model());
    lemma_announced_after(a6, p7, (0) as int, s.materials.model());
    assert(a6.len() + 0 == 2 * (s.methods.model().order.len() + s.signals.model().order.len() + s.buffers.model().order.len() + s.buffer_views.model().order.len() + s.samplers.model().order.len() + s.images.model().order.len() + s.textures.model().order.len()));
    let a8 = a7 + p8;
    lemma_announced_before(a7, p8, (0) as int, s.methods.model());
    lemma_announced_before(a7, p8, (2 * (s.methods.model().order.len())) as int, s.signals.model());
    lemma_announced_before(a7, p8, (2 * (s.methods.model().order.len() + s.signals.model().order.len())) as int, s.buffers.model());
    lemma_announced_before(a7, p8, (2 * (s.methods.model().order.len() + s.signals.model().order.len() + s.buffers.model().order.len())) as int, s.buffer_views.model());
    lemma_announced_before(a7, p8, (2 * (s.methods.model().order.len() + s.signals.model().order.len() + s.buffers.model().order.len() + s.buffer_views.model().order.len())) as int, s.samplers.model());
    lemma_announced_before(a7, p8, (2 * (s.methods.model().order.len() + s.signals.model().order.len() + s.buffers.model().order.len() + s.buffer_views.model().order.len() + s.samplers.model().order.len())) as int, s.images.model());
    lemma_announced_before(a7, p8, (2 * (s.methods.model().order.len() + s.signals.model().order.len() + s.buffers.model().order.len() + s.buffer_views.model().order.len() + s.samplers.model().order.len() + s.images.model().order.len())) as int, s.textures.model());
    lemma_announced_before(a7, p8, (2 * (s.methods.model().order.len() + s.signals.model().order.len() + s.buffers.model().order.len() + s.buffer_views.model().order.len() + s.samplers.model().order.len() + s.images.model().order.len() + s.textures.model().order.len())) as int, s.materials.model());
    lemma_announced_after(a7, p8, (0) as int, s.geometries.model());
    assert(a7.len() + 0 == 2 * (s.methods.model().order.len() + s.signals.model().order.len() + s.buffers.model().order.len() + s.buffer_views.model().order.len() + s.samplers.model().order.len() + s.images.model().order.len() + s.textures.model().order.len() + s.materials.model().order.len()));
    let a9 = a8 + p9;
    lemma_announced_before(a8, p9, (0) as int, s.methods.model());
    lemma_announced_before(a8, p9, (2 * (s.methods.model().order.len())) as int, s.signals.model());
    lemma_announced_before(a8, p9, (2 * (s.methods.model().order.len() + s.signals.model().order.len())) as int, s.buffers.model());
    lemma_announced_before(a8, p9, (2 * (s.methods.model().order.len() + s.signals.model().order.len() + s.buffers.model().order.len())) as int, s.buffer_views.model());
    lemma_announced_before(a8, p9, (2 * (s.methods.model().order.len() + s.signals.model().order.len() + s.buffers.model().order.len() + s.buffer_views.model().order.len())) as int, s.samplers.model());
    lemma_announced_before(a8, p9, (2 * (s.methods.model().order.len() + s.signals.model().order.len() + s.buffers.model().order.len() + s.buffer_views.model().order.len() + s.samplers.model().order.len())) as int, s.images.model());
    lemma_announced_before(a8, p9, (2 * (s.methods.model().order.len() + s.signals.model().order.len() + s.buffers.model().order.len() + s.buffer_views.model().order.len() + s.samplers.model().order.len() + s.images.model().order.len())) as int, s.textures.model());
    lemma_announced_before(a8, p9, (2 * (s.methods.model().order.len() + s.signals.model().order.len() + s.buffers.model().order.len() + s.buffer_views.model().order.len() + s.samplers.model().order.len() + s.images.model().order.len() + s.textures.model().order.len())) as int, s.materials.model());
    lemma_announced_before(a8, p9, (2 * (s.methods.model().order.len() + s.signals.model().order.len() + s.buffers.model().order.len() + s.buffer_views.model().order.len() + s.samplers.model().order.len() + s.images.model().order.len() + s.textures.model().order.len() + s.materials.model().order.len())) as int, s.geometries.model());
    lemma_announced_after(a8, p9, (0) as int, s.tables.model());
    assert(a8.len() + 0 == 2 * (s.methods.model().order.len() + s.signals.model().order.len() + s.buffers.model().order.len() + s.buffer_views.model().order.len() + s.samplers.model().order.len() + s.images.model().order.len() + s.textures.model().order.len() + s.materials.model().order.len() + s.geometries.model().order.len()));
    let a10 = a9 + p10;
    lemma_announced_before(a9, p10, (0) as int, s.methods.model());
    lemma_announced_before(a9, p10, (2 * (s.methods.model().order.len())) as int, s.signals.model());
    lemma_announced_before(a9, p10, (2 * (s.methods.model().order.len() + s.signals.model().order.len())) as int, s.buffers.model());
    lemma_announced_before(a9, p10, (2 * (s.methods.model().order.len() + s.signals.model().order.len() + s.buffers.model().order.len())) as int, s.buffer_views.model());
    lemma_announced_before(a9, p10, (2 * (s.methods.model().order.len() + s.signals.model().order.len() + s.buffers.model().order.len() + s.buffer_views.model().order.len())) as int, s.samplers.model());
    lemma_announced_before(a9, p10, (2 * (s.methods.model().order.len() + s.signals.model().order.len() + s.buffers.model().order.len() + s.buffer_views.model().order.len() + s.samplers.model().order.len())) as int, s.images.model());
    lemma_announced_before(a9, p10, (2 * (s.methods.model().order.len() + s.signals.model().order.len() + s.buffers.model().order.len() + s.buffer_views.model().order.len() + s.samplers.model().order.len() + s.images.model().order.len())) as int, s.textures.model());
    lemma_announced_before(a9, p10, (2 * (s.methods.model().order.len() + s.signals.model().order.len() + s.buffers.model().order.len() + s.buffer_views.model().order.len() + s.samplers.model().order.len() + s.images.model().order.len() + s.textures.model().order.len())) as int, s.materials.model());
    lemma_announced_before(a9, p10, (2 * (s.methods.model().order.len() + s.signals.model().order.len() + s.buffers.model().order.len() + s.buffer_views.model().order.len() + s.samplers.model().order.len() + s.images.model().order.len() + s.textures.model().order.len() + s.materials.model().order.len())) as int, s.geometries.model());
    lemma_announced_before(a9, p10, (2 * (s.methods.model().order.len() + s.signals.model().order.len() + s.buffers.model().order.len() + s.buffer_views.model().order.len() + s.samplers.model().order.len() + s.images.model().order.len() + s.textures.model().order.len() + s.materials.model().order.len() + s.geometries.model().order.len())) as int, s.tables.model());
    lemma_announced_after(a9, p10, (0) as int, s.plots.model());
    assert(a9.len() + 0 == 2 * (s.methods.model().order.len() + s.signals.model().order.len() + s.buffers.model().order.len() + s.buffer_views.model().order.len() + s.samplers.model().order.len() + s.images.model().order.len() + s.textures.model().order.len() + s.materials.model().order.len() + s.geometries.model().order.len() + s.tables.model().order.len()));
    let a11 = a10 + p11;
    lemma_announced_before(a10, p11, (0) as int, s.methods.model());
    lemma_announced_before(a10, p11, (2 * (s.methods.model().order.len())) as int, s.signals.model());
    lemma_announced_before(a10, p11, (2 * (s.methods.model().order.len() + s.signals.model().order.len())) as int, s.buffers.model());
    lemma_announced_before(a10, p11, (2 * (s.methods.model().order.len() + s.signals.model().order.len() + s.buffers.model().order.len())) as int, s.buffer_views.model());
    lemma_announced_before(a10, p11, (2 * (s.methods.model().order.len() + s.signals.model().order.len() + s.buffers.model().order.len() + s.buffer_views.model().order.len())) as int, s.samplers.model());
    lemma_announced_before(a10, p11, (2 * (s.methods.model().order.len() + s.signals.model().order.len() + s.buffers.model().order.len() + s.buffer_views.model().order.len() + s.samplers.model().order.len())) as int, s.images.model());
    lemma_announced_before(a10, p11, (2 * (s.methods.model().order.len() + s.signals.model().order.len() + s.buffers.model().order.len() + s.buffer_views.model().order.len() + s.samplers.model().order.len() + s.images.model().order.len())) as int, s.textures.model());
    lemma_announced_before(a10, p11, (2 * (s.methods.model().order.len() + s.signals.model().order.len() + s.buffers.model().order.len() + s.buffer_views.model().order.len() + s.samplers.model().order.len() + s.images.model().order.len() + s.textures.model().order.len())) as int, s.materials.model());
    lemma_announced_before(a10, p11, (2 * (s.methods.model().order.len() + s.signals.model().order.len() + s.buffers.model().order.len() + s.buffer_views.model().order.len() + s.samplers.model().order.len() + s.images.model().order.len() + s.textures.model().order.len() + s.materials.model().order.len())) as int, s.geometries.model());
    lemma_announced_before(a10, p11, (2 * (s.methods.model().order.len() + s.signals.model().order.len() + s.buffers.model().order.len() + s.buffer_views.model().order.len() + s.samplers.model().order.len() + s.images.model().order.len() + s.textures.model().order.len() + s.materials.model().order.len() + s.geometries.model().order.len())) as int, s.tables.model());
    lemma_announced_before(a10, p11, (2 * (s.methods.model().order.len() + s.signals.model().order.len() + s.buffers.model().order.len() + s.buffer_views.model().order.len() + s.samplers.model().order.len() + s.images.model().order.len() + s.textures.model().order.len() + s.materials.model().order.len() + s.geometries.model().order.len() + s.tables.model().order.len())) as int, s.plots.model());
    lemma_announced_after(a10, p11, (0) as int, s.entities.model());
    assert(a10.len() + 0 == 2 * (s.methods.model().order.len() + s.signals.model().order.len() + s.buffers.model().order.len() + s.buffer_views.model().order.len() + s.samplers.model().order.len() + s.images.model().order.len() + s.textures.model().order.len() + s.materials.model().order.len() + s.geometries.model().order.len() + s.tables.model().order.len() + s.plots.model().order.len()));
    let tail = spec_document_tail(s.comm.deep_view());
    lemma_announced_before(a11, tail, (0) as int, s.methods.model());
    lemma_announced_before(a11, tail, (2 * (s.methods.model().order.len())) as int, s.signals.model());
    lemma_announced_before(a11, tail, (2 * (s.methods.model().order.len() + s.signals.model().order.len())) as int, s.buffers.model());
    lemma_announced_before(a11, tail, (2 * (s.methods.model().order.len() + s.signals.model().order.len() + s.buffers.model().order.len())) as int, s.buffer_views.model());
    lemma_announced_before(a11, tail, (2 * (s.methods.model().order.len() + s.signals.model().order.len() + s.buffers.model().order.len() + s.buffer_views.model().order.len())) as int, s.samplers.model());
    lemma_announced_before(a11, tail, (2 * (s.methods.model().order.len() + s.signals.model().order.len() + s.buffers.model().order.len() + s.buffer_views.model().order.len() + s.samplers.model().order.len())) as int, s.images.model());
    lemma_announced_before(a11, tail, (2 * (s.methods.model().order.len() + s.signals.model().order.len() + s.buffers.model().order.len() + s.buffer_views.model().order.len() + s.samplers.model().order.len() + s.images.model().order.len())) as int, s.textures.model());
    lemma_announced_before(a11, tail, (2 * (s.methods.model().order.len() + s.signals.model().order.len() + s.buffers.model().order.len() + s.buffer_views.model().order.len() + s.samplers.model().order.len() + s.images.model().order.len() + s.textures.model().order.len())) as int, s.materials.model());
    lemma_announced_before(a11, tail, (2 * (s.methods.model().order.len() + s.signals.model().order.len() + s.buffers.model().order.len() + s.buffer_views.model().order.len() + s.samplers.model().order.len() + s.images.model().order.len() + s.textures.model().order.len() + s.materials.model().order.len())) as int, s.geometries.model());
    lemma_announced_before(a11, tail, (2 * (s.methods.model().order.len() + s.signals.model().order.len() + s.buffers.model().order.len() + s.buffer_views.model().order.len() + s.samplers.model().order.len() + s.images.model().order.len() + s.textures.model().order.len() + s.materials.model().order.len() + s.geometries.model().order.len())) as int, s.tables.model());
    lemma_announced_before(a11, tail, (2 * (s.methods.model().order.len() + s.signals.model().order.len() + s.buffers.model().order.len() + s.buffer_views.model().order.len() + s.samplers.model().order.len() + s.images.model().order.len() + s.textures.model().order.len() + s.materials.model().order.len() + s.geometries.model().order.len() + s.tables.model().order.len())) as int, s.plots.model());
    lemma_announced_before(a11, tail, (2 * (s.methods.model().order.len() + s.signals.model().order.len() + s.buffers.model().order.len() + s.buffer_views.model().order.len() + s.samplers.model().order.len() + s.images.model().order.len() + s.textures.model().order.len() + s.materials.model().order.len() + s.geometries.model().order.len() + s.tables.model().order.len() + s.plots.model().order.len())) as int, s.entities.model());
    assert(spec_state_dump(s) == a11 + tail);
    assert((a11 + tail).subrange(a11.len() as int, a11.len() + 4int) =~= tail);
}

fn append_values(out: &mut Vec<CborValue>, mut more: Vec<CborValue>)
    ensures
        models_of(final(out)@) == models_of(old(out)@) + models_of(more@),
{
    let ghost a = out@;
    let ghost b = more@;
    out.append(&mut more);
    proof {
        crate::value::lemma_models_of(a);
        crate::value::lemma_models_of(b);
        crate::value::lemma_models_of(a + b);
        assert(models_of(a + b) =~= models_of(a) + models_of(b));
    }
}

impl<H> ServerState<H> {
    /// The consistency of every list.
    pub open spec fn wf(&self) -> bool {
        &&& self.methods.wf()
        &&& self.signals.wf()
        &&& self.buffers.wf()
        &&& self.buffer_views.wf()
        &&& self.samplers.wf()
        &&& self.images.wf()
        &&& self.textures.wf()
        &&& self.materials.wf()
        &&& self.geometries.wf()
        &&& self.tables.wf()
        &&& self.plots.wf()
        &&& self.entities.wf()
    }

    /// A state with no components, no document methods or signals, and no
    /// message owed.
    pub fn new() -> (r: Self)
        ensures
            r.wf(),
            r.methods.model().order.len() == 0,
            r.signals.model().order.len() == 0,
            r.buffers.model().order.len() == 0,
            r.buffer_views.model().order.len() == 0,
            r.samplers.model().order.len() == 0,
            r.images.model().order.len() == 0,
            r.textures.model().order.len() == 0,
            r.materials.model().order.len() == 0,
            r.geometries.model().order.len() == 0,
            r.tables.model().order.len() == 0,
            r.plots.model().order.len() == 0,
            r.entities.model().order.len() == 0,
            r.methods.model().free.len() == 0,
            r.entities.model().free.len() == 0,
            r.comm.methods_list is None,
            r.comm.signals_list is None,
            r.broadcast@.len() == 0,
    {
        ServerState {
            methods: ServerComponentList::new(),
            signals: ServerComponentList::new(),
            buffers: ServerComponentList::new(),
            buffer_views: ServerComponentList::new(),
            samplers: ServerComponentList::new(),
            images: ServerComponentList::new(),
            textures: ServerComponentList::new(),
            materials: ServerComponentList::new(),
            geometries: ServerComponentList::new(),
            tables: ServerComponentList::new(),
            plots: ServerComponentList::new(),
            entities: ServerComponentList::new(),
            comm: DocumentUpdate { methods_list: None, signals_list: None },
            broadcast: Vec::new(),
        }
    }

    /// Replace the document's methods and signals, and tell every client.
    pub fn update_document(&mut self, update: DocumentUpdate<NooID, NooID>)
        ensures
            same_components(*final(self), *old(self)),
            final(self).comm == update,
            models_of(final(self).broadcast@) == models_of(old(self).broadcast@).push(
                spec_record(ServerMessages::MsgDocumentUpdate, DocumentUpdate::<NooID, NooID>::encode_spec(update.deep_view())),
            ),
    {
        let rec = document_update_record(&update);
        let ghost before = self.broadcast@;
        self.broadcast.push(rec);
        proof {
            crate::value::lemma_models_of_push(before, rec);
        }
        self.comm = update;
    }

    /// Issue a signal to every client, on a component or on the document.
    pub fn issue_signal(&mut self, signal: NooID, context: Option<SignalInvokeObj<NooID, NooID, NooID>>, arguments: Vec<CborValue>)
        ensures
            same_components(*final(self), *old(self)),
            final(self).comm == old(self).comm,
            models_of(final(self).broadcast@) == models_of(old(self).broadcast@).push(
                spec_record(
                    ServerMessages::MsgSignalInvoke,
                    MessageSignalInvoke::<NooID, NooID, NooID>::encode_spec(MessageSignalInvokeModel {
                        id: signal,
                        context,
                        signal_data: arguments.deep_view(),
                    }),
                ),
            ),
    {
        let rec = signal_record(signal, context, arguments);
        let ghost before = self.broadcast@;
        self.broadcast.push(rec);
        proof {
            crate::value::lemma_models_of_push(before, rec);
        }
    }

    /// The number of components of every kind.
    pub open spec fn spec_element_count(&self) -> nat {
        self.methods.model().order.len() + self.signals.model().order.len() + self.buffers.model().order.len()
            + self.buffer_views.model().order.len() + self.samplers.model().order.len()
            + self.images.model().order.len() + self.textures.model().order.len()
            + self.materials.model().order.len() + self.geometries.model().order.len()
            + self.tables.model().order.len() + self.plots.model().order.len()
            + self.entities.model().order.len()
    }

    /// The number of components of every kind.
    pub fn all_element_count(&self) -> (r: u64)
        requires
            self.wf(),
            self.spec_element_count() <= u64::MAX,
        ensures
            r == self.spec_element_count(),
    {
        let mut n: u64 = self.methods.len() as u64;
        n = n + self.signals.len() as u64;
        n = n + self.buffers.len() as u64;
        n = n + self.buffer_views.len() as u64;
        n = n + self.samplers.len() as u64;
        n = n + self.images.len() as u64;
        n = n + self.textures.len() as u64;
        n = n + self.materials.len() as u64;
        n = n + self.geometries.len() as u64;
        n = n + self.tables.len() as u64;
        n = n + self.plots.len() as u64;
        n = n + self.entities.len() as u64;
        n
    }

    /// The pack that tells a joining client the whole state.
    pub fn dump_state(&self) -> (r: Vec<CborValue>)
        requires
            self.wf(),
        ensures
            models_of(r@) == spec_state_dump(*self),
    {
        let mut out: Vec<CborValue> = Vec::new();
        append_values(&mut out, self.methods.dump_state_helper());
        append_values(&mut out, self.signals.dump_state_helper());
        append_values(&mut out, self.buffers.dump_state_helper());
        append_values(&mut out, self.buffer_views.dump_state_helper());
        append_values(&mut out, self.samplers.dump_state_helper());
        append_values(&mut out, self.images.dump_state_helper());
        append_values(&mut out, self.textures.dump_state_helper());
        append_values(&mut out, self.materials.dump_state_helper());
        append_values(&mut out, self.geometries.dump_state_helper());
        append_values(&mut out, self.tables.dump_state_helper());
        append_values(&mut out, self.plots.dump_state_helper());
        append_values(&mut out, self.entities.dump_state_helper());
        append_values(&mut out, document_tail(&self.comm));
        assert(models_of(Seq::<CborValue>::empty()) =~= Seq::<ValueModel>::empty());
        out
    }
}

// =============================================================================

/// What a server does with one message from a client.
#[derive(Debug)]
pub enum ServerAction {
    /// Send these entries, as one pack, to the client that sent the message.
    Send(Vec<CborValue>),
    /// Run the handler of the method the message invokes; the invocation has
    /// passed every check.
    Dispatch(ClientInvokeMessage),
    /// Nothing is owed.
    Nothing,
}

/// The entries of the pack that answers an invocation.
pub open spec fn spec_reply_pack(reply: MessageMethodReplyModel) -> Seq<ValueModel> {
    seq![
        ValueModel::Integer(ServerMessages::MsgMethodReply.spec_to_u32() as int),
        MessageMethodReply::encode_spec(reply),
    ]
}

/// The model of the outcome of a method.
pub open spec fn result_model(r: Result<Option<CborValue>, MethodException>) -> MessageMethodReplyModel {
    MessageMethodReplyModel {
        invoke_id: Seq::empty(),
        result: match r {
            Ok(Some(v)) => Some(v@),
            _ => None,
        },
        method_exception: match r {
            Err(e) => Some(e.deep_view()),
            Ok(_) => None,
        },
    }
}

/// The reply to an invocation with an identifier, for an outcome.
pub open spec fn spec_reply(invoke_id: Seq<char>, r: Result<Option<CborValue>, MethodException>) -> MessageMethodReplyModel {
    MessageMethodReplyModel { invoke_id, ..result_model(r) }
}

/// The pack that answers an invocation, when the client gave it an identifier
/// to answer to; without one, nothing is sent.
pub fn reply_pack(invoke_id: Option<String>, result: Result<Option<CborValue>, MethodException>) -> (r: Option<Vec<CborValue>>)
    ensures
        match invoke_id {
            None => r is None,
            Some(id) => r matches Some(v) && models_of(v@) == spec_reply_pack(spec_reply(id@, result)),
        },
{
    let ghost rm = result;
    match method_reply(invoke_id, result) {
        None => None,
        Some(reply) => {
            let content = reply.to_cbor();
            let out = vec![CborValue::Integer(ServerMessages::MsgMethodReply.to_u32() as i128), content];
            proof {
                crate::value::lemma_models_of(out@);
                assert(reply.deep_view() == spec_reply(reply.invoke_id@, rm));
                assert(models_of(out@) =~= spec_reply_pack(spec_reply(reply.invoke_id@, rm)));
            }
            Some(out)
        },
    }
}

/// The outcome of an invocation whose handler gave no reply: an internal error.
pub fn handler_outcome(reply: Option<Result<Option<CborValue>, MethodException>>) -> (r: Result<Option<CborValue>, MethodException>)
    ensures
        match reply {
            Some(x) => r == x,
            None => r matches Err(e) && e.code == ExceptionCodes::InternalError.spec_code() && e.message is None
                && e.data is None,
        },
{
    match reply {
        Some(x) => x,
        None => Err(MethodException::internal_error(None)),
    }
}

impl<H> ServerState<H> {
    /// The methods the target of an invocation lists.
    pub open spec fn spec_target_methods(&self, t: InvokeObj) -> Option<Seq<NooID>> {
        match t {
            InvokeObj::Document => opt_seq(self.comm.methods_list),
            InvokeObj::Entity(id) => opt_seq(self.entities.model().items[id].mutable.methods_list),
            InvokeObj::Table(id) => opt_seq(self.tables.model().items[id].mutable.methods_list),
            InvokeObj::Plot(id) => opt_seq(self.plots.model().items[id].mutable.methods_list),
        }
    }

    /// Whether a method may be invoked on a target: the method is live, the
    /// target is the document or a live entity, table or plot, and the
    /// target lists the method.
    pub open spec fn spec_invoke_allowed(&self, method: NooID, context: Option<InvokeIDType>) -> bool {
        &&& self.methods.model().items.contains_key(method)
        &&& match spec_resolve_context(context, self.entities.model().items, self.tables.model().items, self.plots.model().items) {
            Some(t) => self.spec_target_methods(t) matches Some(l) && l.contains(method),
            None => false,
        }
    }

    fn target_methods(&self, t: InvokeObj) -> (r: &Option<Vec<NooID>>)
        requires
            self.wf(),
            t matches InvokeObj::Entity(id) ==> self.entities.model().items.contains_key(id),
            t matches InvokeObj::Table(id) ==> self.tables.model().items.contains_key(id),
            t matches InvokeObj::Plot(id) ==> self.plots.model().items.contains_key(id),
        ensures
            opt_seq(*r) == self.spec_target_methods(t),
    {
        match t {
            InvokeObj::Document => &self.comm.methods_list,
            InvokeObj::Entity(id) => &self.entities.get_data(id).unwrap().mutable.methods_list,
            InvokeObj::Table(id) => &self.tables.get_data(id).unwrap().mutable.methods_list,
            InvokeObj::Plot(id) => &self.plots.get_data(id).unwrap().mutable.methods_list,
        }
    }

    /// Decide what one message from a client calls for. An introduction is
    /// answered with the whole state. An invocation that passes every check
    /// is handed on to its method's handler; one that does not is answered
    /// that the method was not found, if the client asked for an answer.
    pub fn handle_client_message(&self, msg: AllClientMessages) -> (r: ServerAction)
        requires
            self.wf(),
        ensures
            msg is Intro ==> (r matches ServerAction::Send(v) && models_of(v@) == spec_state_dump(*self)),
            msg matches AllClientMessages::Invoke(inv) ==> if self.spec_invoke_allowed(inv.method, inv.context) {
                r == ServerAction::Dispatch(inv)
            } else {
                match inv.invoke_id {
                    None => r is Nothing,
                    Some(id) => r matches ServerAction::Send(v) && (exists|e: MethodException| {
                        &&& e.code == ExceptionCodes::MethodNotFound.spec_code()
                        &&& e.message is None
                        &&& e.data is None
                        &&& models_of(v@) == spec_reply_pack(spec_reply(id@, Err(e)))
                    }),
                }
            },
    {
        match msg {
            AllClientMessages::Intro(_) => {
                let v = self.dump_state();
                ServerAction::Send(v)
            },
            AllClientMessages::Invoke(inv) => {
                let target = resolve_context(&inv.context, &self.entities, &self.tables, &self.plots);
                let checked = match target {
                    Some(t) => {
                        let tm = self.target_methods(t);
                        proof {
                            if tm is Some {
                                assert(tm->Some_0.deep_view() =~= tm->Some_0@);
                            }
                        }
                        check_invoke(inv.method, &self.methods, target, tm)
                    },
                    None => check_invoke(inv.method, &self.methods, None, &None),
                };
                match checked {
                    Ok(_) => ServerAction::Dispatch(inv),
                    Err(e) => {
                        let ghost ee = e;
                        let ghost iid = inv.invoke_id;
                        match reply_pack(inv.invoke_id, Err(e)) {
                            Some(v) => {
                                assert(models_of(v@) == spec_reply_pack(spec_reply(iid->Some_0@, Err(ee))));
                                ServerAction::Send(v)
                            },
                            None => ServerAction::Nothing,
                        }
                    },
                }
            },
        }
    }
}

// =============================================================================

/// What runs when a client invokes a method: the state a server keeps with
/// each of its methods.
pub trait MethodHandler: Sized + Copy {
    /// Run the method for an invocation that passed every check: its
    /// outcome, or `None` when it gives no reply. The state stays well formed.
    fn invoke(self, state: &mut ServerState<Self>, msg: &ClientInvokeMessage) -> (r: Option<Result<Option<CborValue>, MethodException>>)
        requires
            old(state).wf(),
        ensures
            final(state).wf(),
    ;
}

/// The model of what is owed for one message: a pack, or nothing.
pub open spec fn owed_model(o: Option<Vec<CborValue>>) -> Option<Seq<ValueModel>> {
    match o {
        Some(v) => Some(models_of(v@)),
        None => None,
    }
}

/// How one message from a client changes the server and what it is owed.
/// An introduction is answered with the whole state. An invocation that
/// passes every check runs its method, which may change the state, and is
/// answered with the method's outcome when the client gave an identifier.
/// Any other invocation changes nothing and is answered that the method was
/// not found, when the client gave an identifier.
pub open spec fn message_answered<H>(
    before: ServerState<H>,
    after: ServerState<H>,
    msg: AllClientMessages,
    out: Option<Seq<ValueModel>>,
) -> bool {
    match msg {
        AllClientMessages::Intro(_) => after == before && out == Some(spec_state_dump(before)),
        AllClientMessages::Invoke(inv) => if before.spec_invoke_allowed(inv.method, inv.context) {
            &&& after.wf()
            &&& match inv.invoke_id {
                None => out is None,
                Some(id) => exists|o: Result<Option<CborValue>, MethodException>|
                    out == Some(spec_reply_pack(#[trigger] spec_reply(id@, o))),
            }
        } else {
            &&& after == before
            &&& match inv.invoke_id {
                None => out is None,
                Some(id) => exists|e: MethodException| {
                    &&& e.code == ExceptionCodes::MethodNotFound.spec_code()
                    &&& e.message is None
                    &&& e.data is None
                    &&& out == Some(spec_reply_pack(#[trigger] spec_reply(id@, Err(e))))
                },
            }
        },
    }
}

/// Decide on each message of a pack from a client in turn, running the
/// handler of each method that is invoked: what is owed to that client for
/// each message, in order.
pub fn handle_client_pack<H: MethodHandler>(state: &mut ServerState<H>, messages: Vec<AllClientMessages>) -> (r: Vec<Option<Vec<CborValue>>>)
    requires
        old(state).wf(),
    ensures
        final(state).wf(),
        r@.len() == messages@.len(),
        exists|states: Seq<ServerState<H>>| {
            &&& states.len() == messages@.len() + 1
            &&& states[0] == *old(state)
            &&& states.last() == *final(state)
            &&& forall|i: int| #![trigger messages@[i]] 0 <= i < messages@.len() ==> message_answered(
                states[i],
                states[i + 1],
                messages@[i],
                owed_model(r@[i]),
            )
        },
{
    let ghost msgs = messages@;
    let ghost mut states: Seq<ServerState<H>> = seq![*state];
    let mut rest = messages;
    let mut out: Vec<Option<Vec<CborValue>>> = Vec::new();
    let mut i: usize = 0;
    let n = rest.len();
    proof {
        assert(rest@ =~= msgs.skip(0));
        assert(msgs.len() == n);
    }
    while rest.len() > 0
        invariant
            state.wf(),
            i <= msgs.len(),
            msgs.len() <= usize::MAX,
            rest@ == msgs.skip(i as int),
            out@.len() == i,
            states.len() == i + 1,
            states[0] == *old(state),
            states.last() == *state,
            forall|j: int| #![trigger msgs[j]] 0 <= j < i ==> message_answered(states[j], states[j + 1], msgs[j], owed_model(out@[j])),
        decreases rest.len(),
    {
        let ghost before_rest = rest@;
        let msg = rest.remove(0);
        proof {
            assert(msgs[i as int] == before_rest[0]);
            assert(rest@ =~= msgs.skip(i + 1));
        }
        let ghost prev = *state;
        let owed = match state.handle_client_message(msg) {
            ServerAction::Send(v) => Some(v),
            ServerAction::Nothing => None,
            ServerAction::Dispatch(inv) => {
                let handler = state.methods.get_data(inv.method).unwrap().state;
                let reply = handler.invoke(state, &inv);
                reply_pack(inv.invoke_id, handler_outcome(reply))
            },
        };
        proof {
            let old_states = states;
            states = states.push(*state);
            assert forall|j: int| #![trigger msgs[j]] 0 <= j < i + 1 implies message_answered(
                states[j],
                states[j + 1],
                msgs[j],
                owed_model(out@.push(owed)[j]),
            ) by {
                if j < i {
                    assert(states[j] == old_states[j]);
                    assert(states[j + 1] == old_states[j + 1]);
                    assert(out@.push(owed)[j] == out@[j]);
                } else {
                    assert(states[j] == prev);
                    assert(states[j + 1] == *state);
                    assert(out@.push(owed)[j] == owed);
                }
            }
        }
        out.push(owed);
        i = i + 1;
    }
    proof {
        assert(i == msgs.len());
    }
    out
}

} // verus!
