//! The client's reaction to what the server sends: which delegate is made,
//! updated, told of a signal or a reply, or dropped, for each message.
use vstd::prelude::*;
use crate::common::{ComponentType, ServerMessages, MessageArchType};
use crate::nooid::NooID;
use crate::value::{CborValue, ValueModel, models_of};
use crate::value_tools::{CBORTransform, FromValueError, FromValueErrorModel, convert_to_value_map, text_map_of, wrong_type};
use crate::table::{field_required, field_optional, read_required, read_optional};
use crate::client_state::{
    ComponentList, ComponentListModel, Delegate, DefaultDocumentDelegate, InvokeContext, MethodSubscriptions,
    signal_target, spec_signal_target, uuid_parse, uuid_text, parse_invoke_id, fresh_invoke_id, invoke_id_text,
};
use crate::client_messages::{ClientInvokeMessage, InvokeIDType};
use crate::client_components::{UserClientNext, OutgoingMessage};
use crate::root_message::{spec_split_root, split_root_message, lemma_split_root_known};
use crate::server_communication::{
    DocumentUpdate, DocumentReset, DocumentInit, MessageMethodReply, MessageSignalInvoke,
};
use crate::message_codec::{DocumentUpdateModel, MessageSignalInvokeModel, MessageMethodReplyModel};
use crate::component_codec::opt_text;
use crate::components::{MethodState, SignalState, BufferState, BufferViewState, TextureState, SamplerState};
use crate::cbor::{cbor_item, decode_cbor};

verus! {

/// A delegate that the server may update, signal, or answer.
pub trait UpdatableDelegate: Delegate + Sized {
    /// `next` is this delegate after the server updated its component with
    /// this content. A delegate that describes nothing allows any change.
    open spec fn updated_with(self, next: Self, state: ValueModel) -> bool {
        true
    }

    /// `next` is this delegate after the server issued a signal to it with
    /// these arguments, the client's signals being known under these names.
    /// A delegate that describes nothing allows any change.
    open spec fn signalled_with(self, next: Self, id: NooID, signal_names: Map<Seq<char>, NooID>, args: Seq<ValueModel>) -> bool {
        true
    }

    /// `next` is this delegate after the server replied to a method it
    /// invoked. A delegate that describes nothing allows any change.
    open spec fn replied_with(self, next: Self, invoke_id: u128, reply: MessageMethodReplyModel) -> bool {
        true
    }

    /// Called when the server updates the component; the content is the
    /// update message as it came.
    fn on_update(&mut self, state: CborValue)
        ensures
            old(self).updated_with(*final(self), state@),
    ;

    /// Called when the server has issued a signal to this delegate; the
    /// client's signals are at hand to tell which signal it is.
    fn on_signal(&mut self, id: NooID, signals: &ComponentList<Self>, args: Vec<CborValue>)
        requires
            signals.wf(),
        ensures
            old(self).signalled_with(*final(self), id, signals.model().names, models_of(args@)),
    ;

    /// Called when the server replies to a method invoked on this delegate.
    fn on_method_reply(&mut self, invoke_id: u128, reply: MessageMethodReply)
        ensures
            old(self).replied_with(*final(self), invoke_id, reply.deep_view()),
    ;
}

/// The delegate that handles the document.
pub trait DocumentDelegate: Sized {
    /// `next` is this delegate after the server issued a signal to the
    /// document with these arguments. A delegate that describes nothing
    /// allows any change.
    open spec fn doc_signalled_with(self, next: Self, id: NooID, args: Seq<ValueModel>) -> bool {
        true
    }

    /// `next` is this delegate after the server replied to a method invoked
    /// on the document. A delegate that describes nothing allows any change.
    open spec fn doc_replied_with(self, next: Self, invoke_id: u128, reply: MessageMethodReplyModel) -> bool {
        true
    }

    /// `next` is this delegate after the server updated the document. A
    /// delegate that describes nothing allows any change.
    open spec fn doc_updated_with(self, next: Self, update: DocumentUpdateModel) -> bool {
        true
    }

    /// `next` is this delegate after the server said the document is ready.
    /// A delegate that describes nothing allows any change.
    open spec fn doc_readied(self, next: Self) -> bool {
        true
    }

    /// Called when the server has issued a signal to the document.
    fn on_signal(&mut self, id: NooID, args: Vec<CborValue>)
        ensures
            old(self).doc_signalled_with(*final(self), id, models_of(args@)),
    ;

    /// Called when the server replies to a method invoked on the document.
    fn on_method_reply(&mut self, invoke_id: u128, reply: MessageMethodReply)
        ensures
            old(self).doc_replied_with(*final(self), invoke_id, reply.deep_view()),
    ;

    /// Called when the document should be updated.
    fn on_document_update(&mut self, update: DocumentUpdate<NooID, NooID>)
        ensures
            old(self).doc_updated_with(*final(self), update.deep_view()),
    ;

    /// Called when the document is ready.
    fn on_ready(&mut self)
        ensures
            old(self).doc_readied(*final(self)),
    ;
}

impl DocumentDelegate for DefaultDocumentDelegate {
    open spec fn doc_signalled_with(self, next: Self, id: NooID, args: Seq<ValueModel>) -> bool {
        next == self
    }

    open spec fn doc_replied_with(self, next: Self, invoke_id: u128, reply: MessageMethodReplyModel) -> bool {
        next == self
    }

    open spec fn doc_updated_with(self, next: Self, update: DocumentUpdateModel) -> bool {
        next == self
    }

    open spec fn doc_readied(self, next: Self) -> bool {
        next == self
    }

    fn on_signal(&mut self, id: NooID, args: Vec<CborValue>) {
    }

    fn on_method_reply(&mut self, invoke_id: u128, reply: MessageMethodReply) {
    }

    fn on_document_update(&mut self, update: DocumentUpdate<NooID, NooID>) {
    }

    fn on_ready(&mut self) {
    }
}

/// Informs a client which delegate to construct when the server creates a
/// component.
pub trait DelegateMaker<D, Doc>: Sized {
    /// `next` is this maker after it made `del` for a new component of a
    /// kind from its create message. A maker that describes nothing allows
    /// any delegate.
    open spec fn made_delegate(self, next: Self, kind: ComponentType, id: NooID, content: ValueModel, del: D) -> bool {
        true
    }

    /// `next` is this maker after it made `doc` for a new document. A maker
    /// that describes nothing allows any delegate.
    open spec fn made_document(self, next: Self, doc: Doc) -> bool {
        true
    }

    /// The delegate for a new component of a kind, given the create message
    /// as it came.
    fn make_delegate(&mut self, kind: ComponentType, id: NooID, content: &CborValue) -> (r: D)
        ensures
            old(self).made_delegate(*final(self), kind, id, content@, r),
    ;

    /// The delegate for a new document.
    fn make_document(&mut self) -> (r: Doc)
        ensures
            old(self).made_document(*final(self), r),
    ;
}

/// The kinds of component that have a list of delegates on the client.
pub open spec fn is_listed(kind: ComponentType) -> bool {
    kind != ComponentType::Document && kind != ComponentType::NoComponent
}

/// Contains all the delegates for the client
pub struct ClientDelegateLists<D, Doc> {
    pub method_list: ComponentList<D>,
    pub signal_list: ComponentList<D>,
    pub buffer_list: ComponentList<D>,
    pub buffer_view_list: ComponentList<D>,
    pub sampler_list: ComponentList<D>,
    pub image_list: ComponentList<D>,
    pub texture_list: ComponentList<D>,
    pub material_list: ComponentList<D>,
    pub geometry_list: ComponentList<D>,
    pub light_list: ComponentList<D>,
    pub table_list: ComponentList<D>,
    pub plot_list: ComponentList<D>,
    pub entity_list: ComponentList<D>,
    pub document: Option<Doc>,
}

impl<D, Doc> ClientDelegateLists<D, Doc> {
    /// The list that holds the delegates of a kind.
    pub open spec fn list_of(&self, kind: ComponentType) -> ComponentList<D> {
        match kind {
            ComponentType::Entity => self.entity_list,
            ComponentType::Table => self.table_list,
            ComponentType::Plot => self.plot_list,
            ComponentType::Geometry => self.geometry_list,
            ComponentType::Material => self.material_list,
            ComponentType::Light => self.light_list,
            ComponentType::Texture => self.texture_list,
            ComponentType::Image => self.image_list,
            ComponentType::Sampler => self.sampler_list,
            ComponentType::BufferView => self.buffer_view_list,
            ComponentType::Buffer => self.buffer_list,
            ComponentType::Signal => self.signal_list,
            _ => self.method_list,
        }
    }

    /// Every list is well formed.
    pub open spec fn wf(&self) -> bool {
        &&& self.entity_list.wf()
        &&& self.table_list.wf()
        &&& self.plot_list.wf()
        &&& self.geometry_list.wf()
        &&& self.material_list.wf()
        &&& self.light_list.wf()
        &&& self.texture_list.wf()
        &&& self.image_list.wf()
        &&& self.sampler_list.wf()
        &&& self.buffer_view_list.wf()
        &&& self.buffer_list.wf()
        &&& self.signal_list.wf()
        &&& self.method_list.wf()
    }

    /// Two states differ at most in the list of one kind.
    pub open spec fn same_but(&self, other: &Self, kind: ComponentType) -> bool {
        &&& kind != ComponentType::Entity ==> self.entity_list == other.entity_list
        &&& kind != ComponentType::Table ==> self.table_list == other.table_list
        &&& kind != ComponentType::Plot ==> self.plot_list == other.plot_list
        &&& kind != ComponentType::Geometry ==> self.geometry_list == other.geometry_list
        &&& kind != ComponentType::Material ==> self.material_list == other.material_list
        &&& kind != ComponentType::Light ==> self.light_list == other.light_list
        &&& kind != ComponentType::Texture ==> self.texture_list == other.texture_list
        &&& kind != ComponentType::Image ==> self.image_list == other.image_list
        &&& kind != ComponentType::Sampler ==> self.sampler_list == other.sampler_list
        &&& kind != ComponentType::BufferView ==> self.buffer_view_list == other.buffer_view_list
        &&& kind != ComponentType::Buffer ==> self.buffer_list == other.buffer_list
        &&& kind != ComponentType::Signal ==> self.signal_list == other.signal_list
        &&& kind != ComponentType::Method ==> self.method_list == other.method_list
    }

    /// Empty lists, and the maker's document delegate.
    pub fn new<M: DelegateMaker<D, Doc>>(maker: &mut M) -> (r: Self)
        ensures
            r.wf(),
            forall|k: ComponentType| is_listed(k) ==> (#[trigger] r.list_of(k)).model().components == Map::<NooID, D>::empty(),
            forall|k: ComponentType| is_listed(k) ==> (#[trigger] r.list_of(k)).model().names == Map::<Seq<char>, NooID>::empty(),
            r.document matches Some(d) && old(maker).made_document(*final(maker), d),
    {
        ClientDelegateLists {
            method_list: ComponentList::new(),
            signal_list: ComponentList::new(),
            buffer_list: ComponentList::new(),
            buffer_view_list: ComponentList::new(),
            sampler_list: ComponentList::new(),
            image_list: ComponentList::new(),
            texture_list: ComponentList::new(),
            material_list: ComponentList::new(),
            geometry_list: ComponentList::new(),
            light_list: ComponentList::new(),
            table_list: ComponentList::new(),
            plot_list: ComponentList::new(),
            entity_list: ComponentList::new(),
            document: Some(maker.make_document()),
        }
    }

    /// The list of a kind.
    pub fn list_ref(&self, kind: ComponentType) -> (r: &ComponentList<D>)
        ensures
            *r == self.list_of(kind),
    {
        match kind {
            ComponentType::Entity => &self.entity_list,
            ComponentType::Table => &self.table_list,
            ComponentType::Plot => &self.plot_list,
            ComponentType::Geometry => &self.geometry_list,
            ComponentType::Material => &self.material_list,
            ComponentType::Light => &self.light_list,
            ComponentType::Texture => &self.texture_list,
            ComponentType::Image => &self.image_list,
            ComponentType::Sampler => &self.sampler_list,
            ComponentType::BufferView => &self.buffer_view_list,
            ComponentType::Buffer => &self.buffer_list,
            ComponentType::Signal => &self.signal_list,
            _ => &self.method_list,
        }
    }

    /// The list of a kind, to change in place.
    pub fn list_mut(&mut self, kind: ComponentType) -> (r: &mut ComponentList<D>)
        requires
            is_listed(kind),
        ensures
            *r == old(self).list_of(kind),
            final(self).list_of(kind) == *final(r),
            final(self).same_but(old(self), kind),
            final(self).document == old(self).document,
    {
        match kind {
            ComponentType::Entity => &mut self.entity_list,
            ComponentType::Table => &mut self.table_list,
            ComponentType::Plot => &mut self.plot_list,
            ComponentType::Geometry => &mut self.geometry_list,
            ComponentType::Material => &mut self.material_list,
            ComponentType::Light => &mut self.light_list,
            ComponentType::Texture => &mut self.texture_list,
            ComponentType::Image => &mut self.image_list,
            ComponentType::Sampler => &mut self.sampler_list,
            ComponentType::BufferView => &mut self.buffer_view_list,
            ComponentType::Buffer => &mut self.buffer_list,
            ComponentType::Signal => &mut self.signal_list,
            _ => &mut self.method_list,
        }
    }
}

/// The lists differ only in the delegate of one component, which stays.
pub open spec fn kept<D>(old: ComponentListModel<D>, new: ComponentListModel<D>, id: NooID) -> bool {
    &&& new.components.dom() == old.components.dom()
    &&& new.components.remove(id) == old.components.remove(id)
    &&& new.names == old.names
    &&& new.rev_names == old.rev_names
}

/// A delegate was added for a component, under its name if it has one.
pub open spec fn created<D>(old: ComponentListModel<D>, new: ComponentListModel<D>, id: NooID, name: Option<Seq<char>>) -> bool {
    &&& new.components.contains_key(id)
    &&& new.components.remove(id) == old.components.remove(id)
    &&& new.names == match name {
        Some(n) => old.names.insert(n, id),
        None => old.names,
    }
    &&& new.rev_names == match name {
        Some(n) => old.rev_names.insert(id, n),
        None => old.rev_names,
    }
}

/// The delegate of a component was removed, and its name forgotten.
pub open spec fn deleted<D>(old: ComponentListModel<D>, new: ComponentListModel<D>, id: NooID) -> bool {
    &&& new.components == old.components.remove(id)
    &&& new.rev_names == old.rev_names.remove(id)
    &&& new.names == if old.rev_names.contains_key(id) {
        old.names.remove(old.rev_names[id])
    } else {
        old.names
    }
}

/// The list holds no delegate and no name.
pub open spec fn emptied<D>(old: ComponentListModel<D>, new: ComponentListModel<D>) -> bool {
    &&& new.components == Map::<NooID, D>::empty()
    &&& new.names == Map::<Seq<char>, NooID>::empty()
    &&& new.rev_names == Map::<NooID, Seq<char>>::empty()
}

impl<D: UpdatableDelegate, Doc: DocumentDelegate> ClientDelegateLists<D, Doc> {
    /// Add a delegate for a component.
    pub fn create_delegate(&mut self, kind: ComponentType, id: NooID, name: Option<String>, del: D)
        requires
            old(self).wf(),
            is_listed(kind),
        ensures
            final(self).wf(),
            final(self).same_but(old(self), kind),
            final(self).document == old(self).document,
            created(old(self).list_of(kind).model(), final(self).list_of(kind).model(), id, opt_text(name)),
            final(self).list_of(kind).model().components[id] == del,
    {
        let list = self.list_mut(kind);
        list.on_create(id, name, del);
        assert(list.model().components.remove(id) =~= old(self).list_of(kind).model().components.remove(id));
    }

    /// Drop the delegate of a component; it is told first.
    pub fn delete_delegate(&mut self, kind: ComponentType, id: NooID)
        requires
            old(self).wf(),
            is_listed(kind),
            old(self).list_of(kind).model().components.contains_key(id),
        ensures
            final(self).wf(),
            final(self).same_but(old(self), kind),
            final(self).document == old(self).document,
            deleted(old(self).list_of(kind).model(), final(self).list_of(kind).model(), id),
    {
        let list = self.list_mut(kind);
        let _ = list.on_delete(id);
    }

    /// Hand an update to the delegate of a component, if there is one.
    pub fn update_delegate(&mut self, kind: ComponentType, id: NooID, content: CborValue)
        requires
            old(self).wf(),
            is_listed(kind),
        ensures
            final(self).wf(),
            final(self).same_but(old(self), kind),
            final(self).document == old(self).document,
            kept(old(self).list_of(kind).model(), final(self).list_of(kind).model(), id),
            old(self).list_of(kind).model().components.contains_key(id) ==> old(self).list_of(kind).model().components[id].updated_with(
                final(self).list_of(kind).model().components[id],
                content@,
            ),
    {
        let list = self.list_mut(kind);
        match list.take(&id) {
            Some(mut del) => {
                del.on_update(content);
                list.replace(&id, del);
            },
            None => {},
        }
        assert(list.model().components.dom() =~= old(self).list_of(kind).model().components.dom());
        assert(list.model().components.remove(id) =~= old(self).list_of(kind).model().components.remove(id));
    }

    /// Hand a signal to the delegate of a component, if there is one.
    pub fn signal_delegate(&mut self, kind: ComponentType, id: NooID, signal: NooID, args: Vec<CborValue>)
        requires
            old(self).wf(),
            is_listed(kind),
        ensures
            final(self).wf(),
            final(self).same_but(old(self), kind),
            final(self).document == old(self).document,
            kept(old(self).list_of(kind).model(), final(self).list_of(kind).model(), id),
            old(self).list_of(kind).model().components.contains_key(id) ==> old(self).list_of(kind).model().components[id].signalled_with(
                final(self).list_of(kind).model().components[id],
                signal,
                old(self).signal_list.model().names,
                models_of(args@),
            ),
    {
        let taken = {
            let list = self.list_mut(kind);
            list.take(&id)
        };
        match taken {
            Some(mut del) => {
                del.on_signal(signal, &self.signal_list, args);
                let list = self.list_mut(kind);
                list.replace(&id, del);
            },
            None => {},
        }
        let ghost fin = self.list_of(kind).model();
        assert(fin.components.dom() =~= old(self).list_of(kind).model().components.dom());
        assert(fin.components.remove(id) =~= old(self).list_of(kind).model().components.remove(id));
    }

    /// Hand a method reply to the delegate of a component, if there is one.
    pub fn reply_delegate(&mut self, kind: ComponentType, id: NooID, invoke_id: u128, reply: MessageMethodReply)
        requires
            old(self).wf(),
            is_listed(kind),
        ensures
            final(self).wf(),
            final(self).same_but(old(self), kind),
            final(self).document == old(self).document,
            kept(old(self).list_of(kind).model(), final(self).list_of(kind).model(), id),
            old(self).list_of(kind).model().components.contains_key(id) ==> old(self).list_of(kind).model().components[id].replied_with(
                final(self).list_of(kind).model().components[id],
                invoke_id,
                reply.deep_view(),
            ),
    {
        let list = self.list_mut(kind);
        match list.take(&id) {
            Some(mut del) => {
                del.on_method_reply(invoke_id, reply);
                list.replace(&id, del);
            },
            None => {},
        }
        assert(list.model().components.dom() =~= old(self).list_of(kind).model().components.dom());
        assert(list.model().components.remove(id) =~= old(self).list_of(kind).model().components.remove(id));
    }

    /// Forget every delegate and name, and start a new document.
    pub fn clear<M: DelegateMaker<D, Doc>>(&mut self, maker: &mut M)
        requires
            old(self).wf(),
        ensures
            final(self).wf(),
            forall|k: ComponentType| is_listed(k) ==> emptied(
                #[trigger] old(self).list_of(k).model(),
                final(self).list_of(k).model(),
            ),
            final(self).document matches Some(d) && old(maker).made_document(*final(maker), d),
    {
        self.method_list.clear();
        self.signal_list.clear();
        self.buffer_list.clear();
        self.buffer_view_list.clear();
        self.sampler_list.clear();
        self.image_list.clear();
        self.texture_list.clear();
        self.material_list.clear();
        self.geometry_list.clear();
        self.light_list.clear();
        self.table_list.clear();
        self.plot_list.clear();
        self.entity_list.clear();
        self.document = Some(maker.make_document());
    }
}

// =============================================================================

/// A message from the server, read. A component's create and update
/// messages are kept as they came, for its delegate to read.
#[derive(Debug)]
pub enum FromServer {
    Create { kind: ComponentType, id: NooID, name: Option<String>, content: CborValue },
    Update { kind: ComponentType, id: NooID, content: CborValue },
    Delete { kind: ComponentType, id: NooID },
    MsgDocumentUpdate(DocumentUpdate<NooID, NooID>),
    MsgDocumentReset(DocumentReset),
    MsgSignalInvoke(MessageSignalInvoke<NooID, NooID, NooID>),
    MsgMethodReply(MessageMethodReply),
    MsgDocumentInitialized(DocumentInit),
}

/// The model of a [`FromServer`].
pub enum FromServerModel {
    Create { kind: ComponentType, id: NooID, name: Option<Seq<char>>, content: ValueModel },
    Update { kind: ComponentType, id: NooID, content: ValueModel },
    Delete { kind: ComponentType, id: NooID },
    DocumentUpdate(DocumentUpdateModel),
    DocumentReset,
    SignalInvoke(MessageSignalInvokeModel),
    MethodReply(MessageMethodReplyModel),
    DocumentInitialized,
}

impl DeepView for FromServer {
    type V = FromServerModel;

    open spec fn deep_view(&self) -> FromServerModel {
        match self {
            FromServer::Create { kind, id, name, content } => FromServerModel::Create {
                kind: *kind,
                id: *id,
                name: opt_text(*name),
                content: content@,
            },
            FromServer::Update { kind, id, content } => FromServerModel::Update { kind: *kind, id: *id, content: content@ },
            FromServer::Delete { kind, id } => FromServerModel::Delete { kind: *kind, id: *id },
            FromServer::MsgDocumentUpdate(u) => FromServerModel::DocumentUpdate(u.deep_view()),
            FromServer::MsgDocumentReset(_) => FromServerModel::DocumentReset,
            FromServer::MsgSignalInvoke(x) => FromServerModel::SignalInvoke(x.deep_view()),
            FromServer::MsgMethodReply(x) => FromServerModel::MethodReply(x.deep_view()),
            FromServer::MsgDocumentInitialized(_) => FromServerModel::DocumentInitialized,
        }
    }
}

/// Methods and signals announce their names; other components may.
pub open spec fn name_required(kind: ComponentType) -> bool {
    kind == ComponentType::Method || kind == ComponentType::Signal
}

/// What reading the identifier and the announced name of a component gives.
pub open spec fn spec_tag(v: ValueModel, with_name: bool, need_name: bool) -> Result<(NooID, Option<Seq<char>>), FromValueErrorModel> {
    match v {
        ValueModel::Dict(p) => {
            let m = text_map_of(p);
            match field_required::<NooID>(m, "id"@) {
                Err(e) => Err(e),
                Ok(id) => if !with_name {
                    Ok((id, None))
                } else if need_name {
                    match field_required::<String>(m.remove("id"@), "name"@) {
                        Err(e) => Err(e),
                        Ok(n) => Ok((id, Some(n))),
                    }
                } else {
                    match field_optional::<String>(m.remove("id"@), "name"@) {
                        Err(e) => Err(e),
                        Ok(n) => Ok((id, n)),
                    }
                },
            }
        },
        _ => Err(wrong_type("Map"@, v)),
    }
}

/// A message that carries no fields must still be a map.
pub open spec fn spec_empty_message(v: ValueModel) -> Result<(), FromValueErrorModel> {
    match v {
        ValueModel::Dict(_) => Ok(()),
        _ => Err(wrong_type("Map"@, v)),
    }
}

/// Whether a result is a success, keeping its error.
pub open spec fn unit_result<T>(r: Result<T, FromValueErrorModel>) -> Result<(), FromValueErrorModel> {
    match r {
        Ok(_) => Ok(()),
        Err(e) => Err(e),
    }
}

/// What reading the state of a created component gives, for the kinds whose
/// state is read as a whole: methods, signals, buffers, buffer views,
/// samplers and textures. The content of other kinds is handed on as it came.
pub open spec fn spec_check_created(kind: ComponentType, v: ValueModel) -> Result<(), FromValueErrorModel> {
    match kind {
        ComponentType::Method => unit_result(MethodState::<()>::decode_spec(v)),
        ComponentType::Signal => unit_result(SignalState::<()>::decode_spec(v)),
        ComponentType::Buffer => unit_result(BufferState::decode_spec(v)),
        ComponentType::BufferView => unit_result(BufferViewState::<NooID>::decode_spec(v)),
        ComponentType::Texture => unit_result(TextureState::<NooID, NooID>::decode_spec(v)),
        ComponentType::Sampler => unit_result(SamplerState::decode_spec(v)),
        _ => Ok(()),
    }
}

/// What reading the content of a message of a kind gives.
pub open spec fn spec_decode_message(m: ServerMessages, v: ValueModel) -> Result<FromServerModel, FromValueErrorModel> {
    match m {
        ServerMessages::MsgDocumentUpdate => match DocumentUpdate::<NooID, NooID>::decode_spec(v) {
            Ok(u) => Ok(FromServerModel::DocumentUpdate(u)),
            Err(e) => Err(e),
        },
        ServerMessages::MsgDocumentReset => match spec_empty_message(v) {
            Ok(_) => Ok(FromServerModel::DocumentReset),
            Err(e) => Err(e),
        },
        ServerMessages::MsgSignalInvoke => match MessageSignalInvoke::<NooID, NooID, NooID>::decode_spec(v) {
            Ok(x) => Ok(FromServerModel::SignalInvoke(x)),
            Err(e) => Err(e),
        },
        ServerMessages::MsgMethodReply => match MessageMethodReply::decode_spec(v) {
            Ok(x) => Ok(FromServerModel::MethodReply(x)),
            Err(e) => Err(e),
        },
        ServerMessages::MsgDocumentInitialized => match spec_empty_message(v) {
            Ok(_) => Ok(FromServerModel::DocumentInitialized),
            Err(e) => Err(e),
        },
        _ => {
            let kind = m.spec_component_type();
            let arch = m.spec_arch_type();
            match spec_tag(v, arch == MessageArchType::Create, name_required(kind)) {
                Err(e) => Err(e),
                Ok((id, name)) => if arch == MessageArchType::Create {
                    match spec_check_created(kind, v) {
                        Err(e) => Err(e),
                        Ok(_) => Ok(FromServerModel::Create { kind, id, name, content: v }),
                    }
                } else if arch == MessageArchType::Update {
                    Ok(FromServerModel::Update { kind, id, content: v })
                } else {
                    Ok(FromServerModel::Delete { kind, id })
                },
            }
        },
    }
}

fn read_tag(content: &CborValue, with_name: bool, need_name: bool) -> (r: Result<(NooID, Option<String>), FromValueError>)
    ensures
        match r {
            Ok((id, name)) => spec_tag(content@, with_name, need_name) == Ok::<(NooID, Option<Seq<char>>), FromValueErrorModel>((id, opt_text(name))),
            Err(e) => spec_tag(content@, with_name, need_name) == Err::<(NooID, Option<Seq<char>>), FromValueErrorModel>(e@),
        },
{
    let copy = content.deep_clone();
    match copy {
        CborValue::Dict(m) => {
            let mut map = convert_to_value_map(m);
            let id = match read_required::<NooID>(&mut map, "id") {
                Ok(x) => x,
                Err(e) => return Err(e),
            };
            if !with_name {
                Ok((id, None))
            } else if need_name {
                match read_required::<String>(&mut map, "name") {
                    Ok(n) => Ok((id, Some(n))),
                    Err(e) => Err(e),
                }
            } else {
                match read_optional::<String>(&mut map, "name") {
                    Ok(n) => {
                        assert(opt_text(n) == match n { Some(y) => Some(y.deep_view()), None => None::<Seq<char>> });
                        Ok((id, n))
                    },
                    Err(e) => Err(e),
                }
            }
        },
        _ => Err(FromValueError::WrongType { expected: String::from_str("Map"), found: crate::value::get_value_type(&copy) }),
    }
}

fn read_empty(content: &CborValue) -> (r: Result<(), FromValueError>)
    ensures
        match r {
            Ok(_) => spec_empty_message(content@) == Ok::<(), FromValueErrorModel>(()),
            Err(e) => spec_empty_message(content@) == Err::<(), FromValueErrorModel>(e@),
        },
{
    match content {
        CborValue::Dict(_) => Ok(()),
        _ => Err(FromValueError::WrongType { expected: String::from_str("Map"), found: crate::value::get_value_type(content) }),
    }
}

fn unit_of<T: CBORTransform>(r: Result<T, FromValueError>) -> (u: Result<(), FromValueError>)
    ensures
        match r {
            Ok(_) => u is Ok,
            Err(e) => u == Err::<(), FromValueError>(e),
        },
{
    match r {
        Ok(_) => Ok(()),
        Err(e) => Err(e),
    }
}

/// Read the state of a created component, for the kinds whose state is read
/// as a whole.
fn check_created(kind: ComponentType, content: &CborValue) -> (r: Result<(), FromValueError>)
    ensures
        match r {
            Ok(_) => spec_check_created(kind, content@) == Ok::<(), FromValueErrorModel>(()),
            Err(e) => spec_check_created(kind, content@) == Err::<(), FromValueErrorModel>(e@),
        },
{
    match kind {
        ComponentType::Method => unit_of(MethodState::<()>::try_from_cbor(content.deep_clone())),
        ComponentType::Signal => unit_of(SignalState::<()>::try_from_cbor(content.deep_clone())),
        ComponentType::Buffer => unit_of(BufferState::try_from_cbor(content.deep_clone())),
        ComponentType::BufferView => unit_of(BufferViewState::<NooID>::try_from_cbor(content.deep_clone())),
        ComponentType::Texture => unit_of(TextureState::<NooID, NooID>::try_from_cbor(content.deep_clone())),
        ComponentType::Sampler => unit_of(SamplerState::try_from_cbor(content.deep_clone())),
        _ => Ok(()),
    }
}

/// Read the content of a message of a kind.
pub fn decode_server_message(m: ServerMessages, content: CborValue) -> (r: Result<FromServer, FromValueError>)
    requires
        m != ServerMessages::Unknown,
    ensures
        match r {
            Ok(x) => spec_decode_message(m, content@) == Ok::<FromServerModel, FromValueErrorModel>(x.deep_view()),
            Err(e) => spec_decode_message(m, content@) == Err::<FromServerModel, FromValueErrorModel>(e@),
        },
{
    match m {
        ServerMessages::MsgDocumentUpdate => match DocumentUpdate::<NooID, NooID>::try_from_cbor(content) {
            Ok(u) => Ok(FromServer::MsgDocumentUpdate(u)),
            Err(e) => Err(e),
        },
        ServerMessages::MsgDocumentReset => match read_empty(&content) {
            Ok(_) => Ok(FromServer::MsgDocumentReset(DocumentReset {})),
            Err(e) => Err(e),
        },
        ServerMessages::MsgSignalInvoke => match MessageSignalInvoke::<NooID, NooID, NooID>::try_from_cbor(content) {
            Ok(x) => Ok(FromServer::MsgSignalInvoke(x)),
            Err(e) => Err(e),
        },
        ServerMessages::MsgMethodReply => match MessageMethodReply::try_from_cbor(content) {
            Ok(x) => Ok(FromServer::MsgMethodReply(x)),
            Err(e) => Err(e),
        },
        ServerMessages::MsgDocumentInitialized => match read_empty(&content) {
            Ok(_) => Ok(FromServer::MsgDocumentInitialized(DocumentInit {})),
            Err(e) => Err(e),
        },
        _ => {
            let kind = m.component_type();
            let arch = m.arch_type();
            let need_name = kind == ComponentType::Method || kind == ComponentType::Signal;
            let with_name = arch == MessageArchType::Create;
            match read_tag(&content, with_name, need_name) {
                Err(e) => Err(e),
                Ok((id, name)) => if with_name {
                    match check_created(kind, &content) {
                        Err(e) => Err(e),
                        Ok(_) => Ok(FromServer::Create { kind, id, name, content }),
                    }
                } else if arch == MessageArchType::Update {
                    Ok(FromServer::Update { kind, id, content })
                } else {
                    Ok(FromServer::Delete { kind, id })
                },
            }
        },
    }
}

// =============================================================================

/// The delegate a signal names was handed the signal: it is the delegate
/// after that signal, as the delegate itself describes it.
pub open spec fn signal_delivered<D: UpdatableDelegate, Doc: DocumentDelegate>(
    old: ClientDelegateLists<D, Doc>,
    new: ClientDelegateLists<D, Doc>,
    target: Option<InvokeContext>,
    signal: NooID,
    args: Seq<ValueModel>,
) -> bool {
    let names = old.signal_list.model().names;
    match target {
        Some(InvokeContext::Entity(e)) => old.entity_list.model().components.contains_key(e)
            ==> old.entity_list.model().components[e].signalled_with(new.entity_list.model().components[e], signal, names, args),
        Some(InvokeContext::Plot(p)) => old.plot_list.model().components.contains_key(p)
            ==> old.plot_list.model().components[p].signalled_with(new.plot_list.model().components[p], signal, names, args),
        Some(InvokeContext::Table(t)) => old.table_list.model().components.contains_key(t)
            ==> old.table_list.model().components[t].signalled_with(new.table_list.model().components[t], signal, names, args),
        Some(InvokeContext::Document) => old.document is Some ==> (new.document matches Some(d2)
            && old.document->Some_0.doc_signalled_with(d2, signal, args)),
        None => true,
    }
}

/// The delegate that invoked a method was handed the reply: it is the
/// delegate after that reply, as the delegate itself describes it.
pub open spec fn reply_delivered<D: UpdatableDelegate, Doc: DocumentDelegate>(
    old: ClientDelegateLists<D, Doc>,
    new: ClientDelegateLists<D, Doc>,
    target: Option<InvokeContext>,
    invoke_id: u128,
    reply: MessageMethodReplyModel,
) -> bool {
    match target {
        Some(InvokeContext::Entity(e)) => old.entity_list.model().components.contains_key(e)
            ==> old.entity_list.model().components[e].replied_with(new.entity_list.model().components[e], invoke_id, reply),
        Some(InvokeContext::Plot(p)) => old.plot_list.model().components.contains_key(p)
            ==> old.plot_list.model().components[p].replied_with(new.plot_list.model().components[p], invoke_id, reply),
        Some(InvokeContext::Table(t)) => old.table_list.model().components.contains_key(t)
            ==> old.table_list.model().components[t].replied_with(new.table_list.model().components[t], invoke_id, reply),
        Some(InvokeContext::Document) => old.document is Some ==> (new.document matches Some(d2)
            && old.document->Some_0.doc_replied_with(d2, invoke_id, reply)),
        None => true,
    }
}

/// A delegate that a context names was handed something, if it is there;
/// nothing else changed.
pub open spec fn routed<D, Doc>(
    old: ClientDelegateLists<D, Doc>,
    new: ClientDelegateLists<D, Doc>,
    target: Option<InvokeContext>,
) -> bool {
    match target {
        Some(InvokeContext::Entity(e)) => {
            &&& new.same_but(&old, ComponentType::Entity)
            &&& new.document == old.document
            &&& kept(old.entity_list.model(), new.entity_list.model(), e)
        },
        Some(InvokeContext::Plot(p)) => {
            &&& new.same_but(&old, ComponentType::Plot)
            &&& new.document == old.document
            &&& kept(old.plot_list.model(), new.plot_list.model(), p)
        },
        Some(InvokeContext::Table(t)) => {
            &&& new.same_but(&old, ComponentType::Table)
            &&& new.document == old.document
            &&& kept(old.table_list.model(), new.table_list.model(), t)
        },
        Some(InvokeContext::Document) => {
            &&& new.same_but(&old, ComponentType::Document)
            &&& (new.document is Some <==> old.document is Some)
        },
        None => {
            &&& new.same_but(&old, ComponentType::Document)
            &&& new.document == old.document
        },
    }
}

/// What a pending invocation waits on, if it is pending.
pub open spec fn pending(subs: Map<u128, InvokeContext>, id: u128) -> Option<InvokeContext> {
    if subs.contains_key(id) {
        Some(subs[id])
    } else {
        None
    }
}

/// How the client state changes on a message, and what is answered.
pub open spec fn message_effect<D: UpdatableDelegate, Doc: DocumentDelegate, M: DelegateMaker<D, Doc>>(
    old: ClientState<D, Doc, M>,
    new: ClientState<D, Doc, M>,
    m: FromServerModel,
    r: Result<(), UserClientNext>,
) -> bool {
    let (ol, nl) = (old.delegate_lists, new.delegate_lists);
    match m {
        FromServerModel::Create { kind, id, name, content } => {
            &&& r is Ok
            &&& nl.same_but(&ol, kind)
            &&& nl.document == ol.document
            &&& created(ol.list_of(kind).model(), nl.list_of(kind).model(), id, name)
            &&& old.maker.made_delegate(new.maker, kind, id, content, nl.list_of(kind).model().components[id])
            &&& new.method_subs == old.method_subs
        },
        FromServerModel::Update { kind, id, content } => {
            &&& r is Ok
            &&& nl.same_but(&ol, kind)
            &&& nl.document == ol.document
            &&& kept(ol.list_of(kind).model(), nl.list_of(kind).model(), id)
            &&& ol.list_of(kind).model().components.contains_key(id) ==> ol.list_of(kind).model().components[id].updated_with(
                nl.list_of(kind).model().components[id],
                content,
            )
            &&& new.maker == old.maker
            &&& new.method_subs == old.method_subs
        },
        FromServerModel::Delete { kind, id } => {
            &&& r is Ok
            &&& nl.same_but(&ol, kind)
            &&& nl.document == ol.document
            &&& deleted(ol.list_of(kind).model(), nl.list_of(kind).model(), id)
            &&& new.maker == old.maker
            &&& new.method_subs == old.method_subs
        },
        FromServerModel::DocumentUpdate(u) => {
            &&& r is Ok
            &&& routed(ol, nl, Some(InvokeContext::Document))
            &&& ol.document is Some ==> (nl.document matches Some(d2) && ol.document->Some_0.doc_updated_with(d2, u))
            &&& new.maker == old.maker
            &&& new.method_subs == old.method_subs
        },
        FromServerModel::DocumentInitialized => {
            &&& r is Ok
            &&& routed(ol, nl, Some(InvokeContext::Document))
            &&& ol.document is Some ==> (nl.document matches Some(d2) && ol.document->Some_0.doc_readied(d2))
            &&& new.maker == old.maker
            &&& new.method_subs == old.method_subs
        },
        FromServerModel::DocumentReset => {
            &&& r is Ok
            &&& forall|k: ComponentType| is_listed(k) ==> emptied(
                #[trigger] ol.list_of(k).model(),
                nl.list_of(k).model(),
            )
            &&& nl.document matches Some(d) && old.maker.made_document(new.maker, d)
            &&& new.method_subs.view_map() == Map::<u128, InvokeContext>::empty()
        },
        FromServerModel::SignalInvoke(x) => {
            &&& r is Ok
            &&& routed(ol, nl, spec_signal_target(x.context))
            &&& signal_delivered(ol, nl, spec_signal_target(x.context), x.id, x.signal_data)
            &&& new.maker == old.maker
            &&& new.method_subs == old.method_subs
        },
        FromServerModel::MethodReply(x) => match uuid_parse(x.invoke_id) {
            None => {
                &&& r matches Err(UserClientNext::MethodError)
                &&& new == old
            },
            Some(id) => {
                &&& r is Ok
                &&& new.method_subs.view_map() == old.method_subs.view_map().remove(id)
                &&& routed(ol, nl, pending(old.method_subs.view_map(), id))
                &&& reply_delivered(ol, nl, pending(old.method_subs.view_map(), id), id, x)
                &&& new.maker == old.maker
            },
        },
    }
}

/// A reply under the identifier of a pending invocation reaches the
/// delegate that invoked the method, and the invocation is no longer pending.
pub proof fn lemma_reply_reaches_delegate<D: UpdatableDelegate, Doc: DocumentDelegate, M: DelegateMaker<D, Doc>>(
    old: ClientState<D, Doc, M>,
    new: ClientState<D, Doc, M>,
    x: MessageMethodReplyModel,
    r: Result<(), UserClientNext>,
    id: u128,
)
    requires
        message_effect(old, new, FromServerModel::MethodReply(x), r),
        uuid_parse(x.invoke_id) == Some(id),
        old.method_subs.view_map().contains_key(id),
    ensures
        r is Ok,
        routed(old.delegate_lists, new.delegate_lists, Some(old.method_subs.view_map()[id])),
        reply_delivered(old.delegate_lists, new.delegate_lists, Some(old.method_subs.view_map()[id]), id, x),
        !new.method_subs.view_map().contains_key(id),
{
}

/// Contains all the state for a current client session
pub struct ClientState<D, Doc, M> {
    pub maker: M,
    pub delegate_lists: ClientDelegateLists<D, Doc>,
    pub method_subs: MethodSubscriptions,
}

impl<D, Doc, M> ClientState<D, Doc, M> {
    /// The delegate lists are well formed.
    pub open spec fn wf(&self) -> bool {
        self.delegate_lists.wf()
    }

    /// Whether a message can be handled: components are of a kind that has
    /// delegates, and a deleted one is known.
    pub open spec fn applicable(&self, m: FromServerModel) -> bool {
        match m {
            FromServerModel::Create { kind, .. } => is_listed(kind),
            FromServerModel::Update { kind, .. } => is_listed(kind),
            FromServerModel::Delete { kind, id } => is_listed(kind) && self.delegate_lists.list_of(kind).model().components.contains_key(id),
            _ => true,
        }
    }
}

impl<D: UpdatableDelegate, Doc: DocumentDelegate, M: DelegateMaker<D, Doc>> ClientState<D, Doc, M> {
    /// A new client state, with the maker's document delegate.
    pub fn new(maker: M) -> (r: Self)
        ensures
            r.wf(),
            forall|k: ComponentType| is_listed(k) ==> (#[trigger] r.delegate_lists.list_of(k)).model().components == Map::<NooID, D>::empty(),
            forall|k: ComponentType| is_listed(k) ==> (#[trigger] r.delegate_lists.list_of(k)).model().names == Map::<Seq<char>, NooID>::empty(),
            r.delegate_lists.document matches Some(d) && maker.made_document(r.maker, d),
            r.method_subs.view_map() == Map::<u128, InvokeContext>::empty(),
    {
        let mut maker = maker;
        let delegate_lists = ClientDelegateLists::new(&mut maker);
        ClientState { maker, delegate_lists, method_subs: MethodSubscriptions::new() }
    }

    /// Forget every delegate and pending invocation, and start a new document.
    pub fn clear(&mut self)
        requires
            old(self).wf(),
        ensures
            final(self).wf(),
            forall|k: ComponentType| is_listed(k) ==> emptied(
                #[trigger] old(self).delegate_lists.list_of(k).model(),
                final(self).delegate_lists.list_of(k).model(),
            ),
            final(self).delegate_lists.document matches Some(d) && old(self).maker.made_document(final(self).maker, d),
            final(self).method_subs.view_map() == Map::<u128, InvokeContext>::empty(),
    {
        self.delegate_lists.clear(&mut self.maker);
        self.method_subs.clear();
    }

    /// Invoke a method on a component: the message to send, and the
    /// identifier under which the reply is awaited.
    pub fn invoke_method(&mut self, method_id: NooID, context: InvokeContext, args: Vec<CborValue>) -> (r: (u128, OutgoingMessage))
        ensures
            final(self).delegate_lists == old(self).delegate_lists,
            final(self).maker == old(self).maker,
            final(self).method_subs.view_map() == old(self).method_subs.view_map().insert(r.0, context),
            r.1 matches OutgoingMessage::MethodInvoke(msg) && {
                &&& msg.method == method_id
                &&& msg.context == crate::client_state::spec_invoke_target(context)
                &&& msg.invoke_id matches Some(t) && t@ == uuid_text(r.0) && uuid_parse(t@) == Some(r.0)
                &&& msg.args == args
            },
    {
        let (id, msg) = self.method_subs.invoke_method(method_id, context, args);
        (id, OutgoingMessage::MethodInvoke(msg))
    }

    fn document_signal(&mut self, signal: NooID, args: Vec<CborValue>)
        requires
            old(self).wf(),
        ensures
            final(self).wf(),
            routed(old(self).delegate_lists, final(self).delegate_lists, Some(InvokeContext::Document)),
            final(self).method_subs == old(self).method_subs,
            final(self).maker == old(self).maker,
            signal_delivered(old(self).delegate_lists, final(self).delegate_lists, Some(InvokeContext::Document), signal, models_of(args@)),
    {
        match self.delegate_lists.document.take() {
            Some(mut doc) => {
                doc.on_signal(signal, args);
                self.delegate_lists.document = Some(doc);
            },
            None => {},
        }
    }

    /// Hand a signal to the delegate its context names.
    pub fn handle_signal(&mut self, invoke: MessageSignalInvoke<NooID, NooID, NooID>)
        requires
            old(self).wf(),
        ensures
            final(self).wf(),
            routed(old(self).delegate_lists, final(self).delegate_lists, spec_signal_target(invoke.context)),
            final(self).method_subs == old(self).method_subs,
            final(self).maker == old(self).maker,
            signal_delivered(
                old(self).delegate_lists,
                final(self).delegate_lists,
                spec_signal_target(invoke.context),
                invoke.id,
                models_of(invoke.signal_data@),
            ),
    {
        let sig_id = invoke.id;
        match signal_target(&invoke.context) {
            Some(InvokeContext::Entity(e)) => self.delegate_lists.signal_delegate(ComponentType::Entity, e, sig_id, invoke.signal_data),
            Some(InvokeContext::Plot(p)) => self.delegate_lists.signal_delegate(ComponentType::Plot, p, sig_id, invoke.signal_data),
            Some(InvokeContext::Table(t)) => self.delegate_lists.signal_delegate(ComponentType::Table, t, sig_id, invoke.signal_data),
            Some(InvokeContext::Document) => self.document_signal(sig_id, invoke.signal_data),
            None => {},
        }
    }

    /// Hand a method reply to the delegate that invoked the method, and
    /// forget the invocation.
    pub fn handle_method_reply(&mut self, id: u128, msg: MessageMethodReply)
        requires
            old(self).wf(),
        ensures
            final(self).wf(),
            final(self).method_subs.view_map() == old(self).method_subs.view_map().remove(id),
            routed(old(self).delegate_lists, final(self).delegate_lists, pending(old(self).method_subs.view_map(), id)),
            reply_delivered(old(self).delegate_lists, final(self).delegate_lists, pending(old(self).method_subs.view_map(), id), id, msg.deep_view()),
            final(self).maker == old(self).maker,
    {
        match self.method_subs.take(id) {
            Some(InvokeContext::Document) => {
                match self.delegate_lists.document.take() {
                    Some(mut doc) => {
                        doc.on_method_reply(id, msg);
                        self.delegate_lists.document = Some(doc);
                    },
                    None => {},
                }
            },
            Some(InvokeContext::Entity(e)) => self.delegate_lists.reply_delegate(ComponentType::Entity, e, id, msg),
            Some(InvokeContext::Table(t)) => self.delegate_lists.reply_delegate(ComponentType::Table, t, id, msg),
            Some(InvokeContext::Plot(p)) => self.delegate_lists.reply_delegate(ComponentType::Plot, p, id, msg),
            None => {},
        }
    }
    /// Whether a message can be handled now.
    pub fn check_applicable(&self, m: &FromServer) -> (r: bool)
        ensures
            r == self.applicable(m.deep_view()),
    {
        match m {
            FromServer::Create { kind, .. } => *kind != ComponentType::Document && *kind != ComponentType::NoComponent,
            FromServer::Update { kind, .. } => *kind != ComponentType::Document && *kind != ComponentType::NoComponent,
            FromServer::Delete { kind, id } => {
                if *kind == ComponentType::Document || *kind == ComponentType::NoComponent {
                    false
                } else {
                    self.delegate_lists.list_ref(*kind).find(id).is_some()
                }
            },
            _ => true,
        }
    }

    /// Apply the next message from the server to the client state.
    pub fn handle_next_message(&mut self, m: FromServer) -> (r: Result<(), UserClientNext>)
        requires
            old(self).wf(),
            old(self).applicable(m.deep_view()),
        ensures
            final(self).wf(),
            message_effect(*old(self), *final(self), m.deep_view(), r),
    {
        match m {
            FromServer::Create { kind, id, name, content } => {
                let del = self.maker.make_delegate(kind, id, &content);
                self.delegate_lists.create_delegate(kind, id, name, del);
            },
            FromServer::Update { kind, id, content } => {
                self.delegate_lists.update_delegate(kind, id, content);
            },
            FromServer::Delete { kind, id } => {
                self.delegate_lists.delete_delegate(kind, id);
            },
            FromServer::MsgDocumentUpdate(x) => {
                match self.delegate_lists.document.take() {
                    Some(mut doc) => {
                        doc.on_document_update(x);
                        self.delegate_lists.document = Some(doc);
                    },
                    None => {},
                }
            },
            FromServer::MsgDocumentReset(_) => {
                self.clear();
            },
            FromServer::MsgSignalInvoke(x) => {
                proof {
                    crate::value::lemma_models_of_ext(x.signal_data@, x.signal_data.deep_view());
                }
                self.handle_signal(x);
            },
            FromServer::MsgMethodReply(x) => {
                let invoke_id = match parse_invoke_id(x.invoke_id.as_str()) {
                    Some(id) => id,
                    None => return Err(UserClientNext::MethodError),
                };
                self.handle_method_reply(invoke_id, x);
            },
            FromServer::MsgDocumentInitialized(_) => {
                match self.delegate_lists.document.take() {
                    Some(mut doc) => {
                        doc.on_ready();
                        self.delegate_lists.document = Some(doc);
                    },
                    None => {},
                }
            },
        }
        Ok(())
    }
}

/// What reading every message of a list gives, if each can be read.
pub open spec fn spec_decode_all(l: Seq<(ServerMessages, ValueModel)>) -> Option<Seq<FromServerModel>>
    decreases l.len(),
{
    if l.len() == 0 {
        Some(Seq::empty())
    } else {
        match spec_decode_all(l.drop_last()) {
            None => None,
            Some(p) => match spec_decode_message(l.last().0, l.last().1) {
                Ok(x) => Some(p.push(x)),
                Err(_) => None,
            },
        }
    }
}

/// What reading a pack of server messages gives, if it can be read.
pub open spec fn spec_decode_pack(root: ValueModel) -> Option<Seq<FromServerModel>> {
    match root {
        ValueModel::Array(s) => match spec_split_root(s) {
            Ok(l) => spec_decode_all(l),
            Err(_) => None,
        },
        _ => None,
    }
}

/// Read every message of a pack from the server.
pub fn decode_pack(root: CborValue) -> (r: Option<Vec<FromServer>>)
    ensures
        match r {
            Some(v) => spec_decode_pack(root@) == Some(v.deep_view()),
            None => spec_decode_pack(root@) is None,
        },
{
    let values = match root {
        CborValue::Array(values) => values,
        _ => return None,
    };
    let ghost vm = crate::value::models_of(values@);
    assert(root@ == ValueModel::Array(vm));
    let pairs = match split_root_message(values) {
        Ok(p) => p,
        Err(_) => return None,
    };
    assert(spec_split_root(vm) == Ok::<Seq<(ServerMessages, ValueModel)>, crate::root_message::RootMessageError>(
        pairs@.map_values(|p: (ServerMessages, CborValue)| (p.0, p.1@)),
    ));
    let ghost l = pairs@.map_values(|p: (ServerMessages, CborValue)| (p.0, p.1@));
    proof {
        lemma_split_root_known(crate::value::models_of(values@));
        assert forall|i: int| 0 <= i < pairs@.len() implies (#[trigger] pairs@[i]).0 != ServerMessages::Unknown by {
            assert(l[i].0 == pairs@[i].0);
        }
        assert(l.take(0) =~= Seq::<(ServerMessages, ValueModel)>::empty());
    }
    let mut out: Vec<FromServer> = Vec::new();
    let mut i: usize = 0;
    while i < pairs.len()
        invariant
            i <= pairs.len(),
            l == pairs@.map_values(|p: (ServerMessages, CborValue)| (p.0, p.1@)),
            spec_decode_pack(root@) == spec_decode_all(l),
            forall|j: int| 0 <= j < pairs@.len() ==> (#[trigger] pairs@[j]).0 != ServerMessages::Unknown,
            spec_decode_all(l.take(i as int)) == Some(out.deep_view()),
        decreases pairs.len() - i,
    {
        let id = pairs[i].0;
        let content = pairs[i].1.deep_clone();
        assert(l.take(i + 1).drop_last() =~= l.take(i as int));
        assert(l.take(i + 1).last() == (id, content@));
        match decode_server_message(id, content) {
            Ok(x) => {
                let ghost before = out.deep_view();
                out.push(x);
                assert(out.deep_view() =~= before.push(x.deep_view()));
            },
            Err(_) => {
                proof {
                    assert(spec_decode_message(l.take(i + 1).last().0, l.take(i + 1).last().1) is Err);
                    assert(spec_decode_all(l.take(i + 1)) is None);
                    lemma_decode_all_prefix_none(l, i + 1);
                }
                return None;
            },
        }
        i = i + 1;
    }
    assert(l.take(pairs.len() as int) =~= l);
    Some(out)
}

/// A list whose prefix cannot be read cannot be read.
proof fn lemma_decode_all_prefix_none(l: Seq<(ServerMessages, ValueModel)>, n: int)
    requires
        0 <= n <= l.len(),
        spec_decode_all(l.take(n)) is None,
    ensures
        spec_decode_all(l) is None,
    decreases l.len() - n,
{
    if n < l.len() {
        assert(l.take(n + 1).drop_last() =~= l.take(n));
        lemma_decode_all_prefix_none(l, n + 1);
    } else {
        assert(l.take(n) =~= l);
    }
}

/// The states a client passes through as it applies messages in order,
/// each message applicable in its turn.
pub open spec fn applied<D: UpdatableDelegate, Doc: DocumentDelegate, M: DelegateMaker<D, Doc>>(msgs: Seq<FromServerModel>, states: Seq<ClientState<D, Doc, M>>) -> bool {
    &&& states.len() == msgs.len() + 1
    &&& forall|i: int|
        #![trigger msgs[i]]
        0 <= i < msgs.len() ==> states[i].applicable(msgs[i]) && message_effect(
            states[i],
            states[i + 1],
            msgs[i],
            Ok::<(), UserClientNext>(()),
        )
}

/// Why applying a message stopped: it cannot be applied to the state, or it
/// answers an invocation under an identifier that is no UUID.
pub open spec fn stuck<D: UpdatableDelegate, Doc: DocumentDelegate, M: DelegateMaker<D, Doc>>(s: ClientState<D, Doc, M>, m: FromServerModel, e: UserClientNext) -> bool {
    ||| {
        &&& !s.applicable(m)
        &&& e matches UserClientNext::DecodeError(t) && t@ == "Unknown component deleted"@
    }
    ||| {
        &&& s.applicable(m)
        &&& m matches FromServerModel::MethodReply(x) && uuid_parse(x.invoke_id) is None
        &&& e matches UserClientNext::MethodError
    }
}

/// What applying a pack does: a pack that cannot be read changes nothing;
/// otherwise its messages are applied in order, up to one that cannot be
/// applied, which is answered.
pub open spec fn pack_applied<D: UpdatableDelegate, Doc: DocumentDelegate, M: DelegateMaker<D, Doc>>(
    message: ValueModel,
    old: ClientState<D, Doc, M>,
    new: ClientState<D, Doc, M>,
    r: Result<(), UserClientNext>,
) -> bool {
    match spec_decode_pack(message) {
        None => {
            &&& r matches Err(UserClientNext::DecodeError(t)) && t@ == "Unable to read the messages"@
            &&& new == old
        },
        Some(msgs) => match r {
            Ok(_) => exists|states: Seq<ClientState<D, Doc, M>>|
                #![trigger applied(msgs, states)]
                applied(msgs, states) && states[0] == old && states.last() == new,
            Err(e) => exists|k: int, states: Seq<ClientState<D, Doc, M>>|
                #![trigger applied(msgs.take(k), states)]
                0 <= k < msgs.len() && applied(msgs.take(k), states) && states[0] == old
                    && states.last() == new && stuck(states.last(), msgs[k], e),
        },
    }
}

/// Execute the next pack of messages from a server on a client state. A pack
/// that cannot be read changes nothing; otherwise its messages are applied
/// in order, up to one that cannot be applied.
pub fn handle_next<D: UpdatableDelegate, Doc: DocumentDelegate, M: DelegateMaker<D, Doc>>(
    state: &mut ClientState<D, Doc, M>,
    message: CborValue,
) -> (r: Result<(), UserClientNext>)
    requires
        old(state).wf(),
    ensures
        final(state).wf(),
        pack_applied(message@, *old(state), *final(state), r),
{
    let list = match decode_pack(message) {
        Some(v) => v,
        None => return Err(UserClientNext::DecodeError(String::from_str("Unable to read the messages"))),
    };
    let n = list.len();
    let ghost msgs = list.deep_view();
    assert(msgs.len() == n);
    let ghost s0 = *state;
    let ghost mut states: Seq<ClientState<D, Doc, M>> = seq![*state];
    let mut rest = list;
    let mut i: usize = 0;
    proof {
        assert(msgs.take(0) =~= Seq::<FromServerModel>::empty());
        assert(rest.deep_view() =~= msgs.skip(0));
    }
    while rest.len() > 0
        invariant
            state.wf(),
            i <= msgs.len(),
            msgs.len() <= usize::MAX,
            spec_decode_pack(message@) == Some(msgs),
            s0 == *old(state),
            rest.deep_view() == msgs.skip(i as int),
            applied(msgs.take(i as int), states),
            states[0] == s0,
            states.last() == *state,
        decreases rest.len(),
    {
        let ghost before_rest = rest.deep_view();
        assert(before_rest.len() == rest@.len());
        let m = rest.remove(0);
        proof {
            assert(before_rest[0] == m.deep_view());
            assert(msgs[i as int] == m.deep_view());
            assert(rest.deep_view() =~= before_rest.drop_first());
            assert(rest.deep_view() =~= msgs.skip(i + 1));
        }
        if !state.check_applicable(&m) {
            let e = UserClientNext::DecodeError(String::from_str("Unknown component deleted"));
            proof {
                let ms = spec_decode_pack(message@)->Some_0;
                assert(ms == msgs);
                assert(stuck(states.last(), ms[i as int], e));
                assert(applied(ms.take(i as int), states));
            }
            return Err(e);
        }
        let ghost prev = *state;
        match state.handle_next_message(m) {
            Ok(_) => {},
            Err(e) => {
                proof {
                    let ms = spec_decode_pack(message@)->Some_0;
                    assert(ms == msgs);
                    assert(stuck(states.last(), ms[i as int], e));
                    assert(applied(ms.take(i as int), states));
                }
                return Err(e);
            },
        }
        proof {
            let old_states = states;
            states = states.push(*state);
            assert forall|j: int| #![trigger msgs.take(i + 1)[j]] 0 <= j < i + 1 implies states[j].applicable(msgs.take(i + 1)[j]) && message_effect(
                states[j],
                states[j + 1],
                msgs.take(i + 1)[j],
                Ok::<(), UserClientNext>(()),
            ) by {
                if j < i {
                    assert(msgs.take(i as int)[j] == msgs.take(i + 1)[j]);
                    assert(states[j] == old_states[j]);
                    assert(states[j + 1] == old_states[j + 1]);
                } else {
                    assert(msgs.take(i + 1)[j] == msgs[i as int]);
                    assert(states[j] == prev);
                }
            }
        }
        i = i + 1;
    }
    proof {
        let ms = spec_decode_pack(message@)->Some_0;
        assert(msgs.take(i as int) =~= msgs);
        assert(ms == msgs);
        assert(applied(ms, states));
    }
    Ok(())
}

/// Prepare an invocation of a method by its announced name: a fresh
/// identifier and the message to send; `None` when no method has the name.
pub fn send_method<D, Doc>(
    state: &ClientDelegateLists<D, Doc>,
    context: Option<InvokeIDType>,
    method_name: &str,
    args: Vec<CborValue>,
) -> (r: Option<(u128, ClientInvokeMessage)>)
    requires
        state.wf(),
    ensures
        r is Some == state.method_list.model().names.contains_key(method_name@),
        r matches Some((id, msg)) ==> {
            &&& msg.method == state.method_list.model().names[method_name@]
            &&& msg.context == context
            &&& msg.invoke_id matches Some(t) && t@ == uuid_text(id) && uuid_parse(t@) == Some(id)
            &&& msg.args == args
        },
{
    let invoke_id = fresh_invoke_id();
    match state.method_list.get_id_by_name(method_name) {
        Some(method) => Some((invoke_id, ClientInvokeMessage {
            method,
            context,
            invoke_id: Some(invoke_id_text(invoke_id)),
            args,
        })),
        None => None,
    }
}

/// Execute the next pack of messages from a server, as bytes, on a client
/// state. Bytes that are no CBOR data item change nothing and give `None`:
/// a client stops there.
pub fn handle_next_bytes<D: UpdatableDelegate, Doc: DocumentDelegate, M: DelegateMaker<D, Doc>>(
    state: &mut ClientState<D, Doc, M>,
    message: &[u8],
) -> (r: Option<Result<(), UserClientNext>>)
    requires
        old(state).wf(),
    ensures
        final(state).wf(),
        match cbor_item(message@) {
            None => r is None && *final(state) == *old(state),
            Some(v) => r matches Some(res) && pack_applied(v, *old(state), *final(state), res),
        },
{
    match decode_cbor(message) {
        Some(root) => Some(handle_next(state, root)),
        None => None,
    }
}

} // verus!
