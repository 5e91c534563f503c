//! Component related messages
//!
//! These are templated based on how the component refers to others.
use vstd::prelude::*;
use crate::common::ServerMessages;
use crate::types::{Format, ByteBuff};

verus! {

/// The messages that create, update and delete a kind of component.
pub trait ComponentMessageIDs {
    /// The message that creates a component of this kind.
    spec fn spec_create_id() -> ServerMessages;

    /// The message that updates a component of this kind.
    spec fn spec_update_id() -> ServerMessages;

    /// The message that deletes a component of this kind.
    spec fn spec_delete_id() -> ServerMessages;

    fn create_message_id() -> (r: ServerMessages)
        ensures
            r == Self::spec_create_id(),
    ;

    fn update_message_id() -> (r: ServerMessages)
        ensures
            r == Self::spec_update_id(),
    ;

    fn delete_message_id() -> (r: ServerMessages)
        ensures
            r == Self::spec_delete_id(),
    ;
}

/// A value that can be patched by another of its type: each field that the
/// other holds replaces the field of this one.
pub trait DeltaPatch: Sized {
    /// The value after patching `self` with `other`.
    spec fn patched(self, other: Self) -> Self;

    fn patch(&mut self, other: Self)
        ensures
            *final(self) == old(self).patched(other),
    ;

    /// Patching twice with the same patch changes nothing more than patching once.
    proof fn lemma_patch_idempotent(a: Self, b: Self)
        ensures
            a.patched(b).patched(b) == a.patched(b),
    ;
}

/// A state that can be updated with a sub-state.
pub trait UpdatableWith: Sized {
    type Substate;

    /// The state after the update.
    spec fn updated(self, s: Self::Substate) -> Self;

    fn update(&mut self, s: Self::Substate)
        ensures
            *final(self) == old(self).updated(s),
    ;
}

/// `b` if it holds a value, else `a`.
pub open spec fn override_with<A>(a: Option<A>, b: Option<A>) -> Option<A> {
    if b is Some {
        b
    } else {
        a
    }
}

pub(crate) fn override_field<A>(a: &mut Option<A>, b: Option<A>)
    ensures
        *final(a) == override_with(*old(a), b),
{
    if b.is_some() {
        *a = b;
    }
}

// =============================================================================

/// A named argument of a method or signal, with optional documentation.
#[derive(Debug, Default)]
pub struct MethodArg {
    pub name: String,
    pub doc: Option<String>,
}

/// The state of a method component.
#[derive(Debug, Default)]
pub struct MethodState<Extra> {
    pub name: String,
    pub doc: Option<String>,
    pub return_doc: Option<String>,
    pub arg_doc: Vec<MethodArg>,
    pub state: Extra,
}

impl<Extra> ComponentMessageIDs for MethodState<Extra> {
    open spec fn spec_create_id() -> ServerMessages {
        ServerMessages::MsgMethodCreate
    }

    open spec fn spec_update_id() -> ServerMessages {
        ServerMessages::Unknown
    }

    open spec fn spec_delete_id() -> ServerMessages {
        ServerMessages::MsgMethodDelete
    }

    fn update_message_id() -> (r: ServerMessages)
        ensures
            r == ServerMessages::Unknown,
    {
        ServerMessages::Unknown
    }

    fn create_message_id() -> (r: ServerMessages)
        ensures
            r == ServerMessages::MsgMethodCreate,
    {
        ServerMessages::MsgMethodCreate
    }

    fn delete_message_id() -> (r: ServerMessages)
        ensures
            r == ServerMessages::MsgMethodDelete,
    {
        ServerMessages::MsgMethodDelete
    }
}

// =============================================================================

/// The state of a signal component.
#[derive(Debug, Default)]
pub struct SignalState<Extra> {
    pub name: String,
    pub doc: Option<String>,
    pub arg_doc: Vec<MethodArg>,
    pub state: Extra,
}

impl<Extra> ComponentMessageIDs for SignalState<Extra> {
    open spec fn spec_create_id() -> ServerMessages {
        ServerMessages::MsgSignalCreate
    }

    open spec fn spec_update_id() -> ServerMessages {
        ServerMessages::Unknown
    }

    open spec fn spec_delete_id() -> ServerMessages {
        ServerMessages::MsgSignalDelete
    }

    fn update_message_id() -> (r: ServerMessages)
        ensures
            r == ServerMessages::Unknown,
    {
        ServerMessages::Unknown
    }

    fn create_message_id() -> (r: ServerMessages)
        ensures
            r == ServerMessages::MsgSignalCreate,
    {
        ServerMessages::MsgSignalCreate
    }

    fn delete_message_id() -> (r: ServerMessages)
        ensures
            r == ServerMessages::MsgSignalDelete,
    {
        ServerMessages::MsgSignalDelete
    }
}

// =============================================================================

/// What a buffer view holds.
#[derive(Debug, Clone, Copy, PartialEq, Eq, Structural)]
pub enum BufferViewType {
    Unknown,
    Geometry,
    Image,
}

impl Default for BufferViewType {
    fn default() -> (r: Self)
        ensures
            r == BufferViewType::Unknown,
    {
        BufferViewType::Unknown
    }
}

/// The state of a buffer view component.
#[derive(Debug)]
pub struct BufferViewState<BufferReference> {
    pub name: Option<String>,
    pub source_buffer: BufferReference,
    pub view_type: BufferViewType,
    pub offset: u64,
    pub length: u64,
}

impl<BufferReference> ComponentMessageIDs for BufferViewState<BufferReference> {
    open spec fn spec_create_id() -> ServerMessages {
        ServerMessages::MsgBufferViewCreate
    }

    open spec fn spec_update_id() -> ServerMessages {
        ServerMessages::Unknown
    }

    open spec fn spec_delete_id() -> ServerMessages {
        ServerMessages::MsgBufferViewDelete
    }

    fn update_message_id() -> (r: ServerMessages)
        ensures
            r == ServerMessages::Unknown,
    {
        ServerMessages::Unknown
    }

    fn create_message_id() -> (r: ServerMessages)
        ensures
            r == ServerMessages::MsgBufferViewCreate,
    {
        ServerMessages::MsgBufferViewCreate
    }

    fn delete_message_id() -> (r: ServerMessages)
        ensures
            r == ServerMessages::MsgBufferViewDelete,
    {
        ServerMessages::MsgBufferViewDelete
    }
}

// =============================================================================

/// The meaning of a geometry attribute.
#[derive(Debug, Copy, Clone, PartialEq, Eq, Structural)]
pub enum AttributeSemantic {
    Position,
    Normal,
    Tangent,
    Texture,
    Color,
}

impl Default for AttributeSemantic {
    fn default() -> (r: Self)
        ensures
            r == AttributeSemantic::Position,
    {
        AttributeSemantic::Position
    }
}

/// Where the indices of a geometry patch live.
#[derive(Debug)]
pub struct GeometryIndex<BufferViewRef> {
    pub view: BufferViewRef,
    pub count: u32,
    pub offset: Option<u32>,
    pub stride: Option<u32>,
    pub format: Format,
}

/// How the vertices of a geometry patch are assembled.
#[derive(Debug, Clone, Copy, PartialEq, Eq, Structural)]
pub enum PrimitiveType {
    Points,
    Lines,
    LineLoop,
    LineStrip,
    Triangles,
    TriangleStrip,
}

impl Default for PrimitiveType {
    fn default() -> (r: Self)
        ensures
            r == PrimitiveType::Points,
    {
        PrimitiveType::Points
    }
}

// =============================================================================

/// The state of a texture component.
#[derive(Debug)]
pub struct TextureState<ImageStateRef, SamplerStateRef> {
    pub name: Option<String>,
    pub image: ImageStateRef,
    pub sampler: Option<SamplerStateRef>,
}

impl<ImageStateRef, SamplerStateRef> ComponentMessageIDs for TextureState<ImageStateRef, SamplerStateRef> {
    open spec fn spec_create_id() -> ServerMessages {
        ServerMessages::MsgTextureCreate
    }

    open spec fn spec_update_id() -> ServerMessages {
        ServerMessages::Unknown
    }

    open spec fn spec_delete_id() -> ServerMessages {
        ServerMessages::MsgTextureDelete
    }

    fn update_message_id() -> (r: ServerMessages)
        ensures
            r == ServerMessages::Unknown,
    {
        ServerMessages::Unknown
    }

    fn create_message_id() -> (r: ServerMessages)
        ensures
            r == ServerMessages::MsgTextureCreate,
    {
        ServerMessages::MsgTextureCreate
    }

    fn delete_message_id() -> (r: ServerMessages)
        ensures
            r == ServerMessages::MsgTextureDelete,
    {
        ServerMessages::MsgTextureDelete
    }
}

// =============================================================================

/// Magnification filter of a sampler.
#[derive(Debug, Copy, Clone, PartialEq, Eq, Structural)]
pub enum MagFilter {
    Nearest,
    Linear,
}

/// Minification filter of a sampler.
#[derive(Debug, Copy, Clone, PartialEq, Eq, Structural)]
pub enum MinFilter {
    Nearest,
    Linear,
    LinearMipmapLinear,
}

/// Wrapping mode of a sampler.
#[derive(Debug, Copy, Clone, PartialEq, Eq, Structural)]
pub enum SamplerMode {
    Clamp,
    MirrorRepeat,
    Repeat,
}

/// The state of a sampler component.
#[derive(Debug, Default)]
pub struct SamplerState {
    pub name: Option<String>,
    pub mag_filter: Option<MagFilter>,
    pub min_filter: Option<MinFilter>,
    pub wrap_s: Option<SamplerMode>,
    pub wrap_t: Option<SamplerMode>,
}

impl ComponentMessageIDs for SamplerState {
    open spec fn spec_create_id() -> ServerMessages {
        ServerMessages::MsgSamplerCreate
    }

    open spec fn spec_update_id() -> ServerMessages {
        ServerMessages::Unknown
    }

    open spec fn spec_delete_id() -> ServerMessages {
        ServerMessages::MsgSamplerDelete
    }

    fn update_message_id() -> (r: ServerMessages)
        ensures
            r == ServerMessages::Unknown,
    {
        ServerMessages::Unknown
    }

    fn create_message_id() -> (r: ServerMessages)
        ensures
            r == ServerMessages::MsgSamplerCreate,
    {
        ServerMessages::MsgSamplerCreate
    }

    fn delete_message_id() -> (r: ServerMessages)
        ensures
            r == ServerMessages::MsgSamplerDelete,
    {
        ServerMessages::MsgSamplerDelete
    }
}

// =============================================================================

/// The part of a plot that can be updated.
#[derive(Debug, Default)]
pub struct PlotStateUpdatable<TableRef, MethodRef, SignalRef> {
    pub table: Option<TableRef>,
    pub methods_list: Option<Vec<MethodRef>>,
    pub signals_list: Option<Vec<SignalRef>>,
}

impl<TableRef, MethodRef, SignalRef> DeltaPatch for PlotStateUpdatable<TableRef, MethodRef, SignalRef> {
    open spec fn patched(self, other: Self) -> Self {
        PlotStateUpdatable {
            table: override_with(self.table, other.table),
            methods_list: override_with(self.methods_list, other.methods_list),
            signals_list: override_with(self.signals_list, other.signals_list),
        }
    }

    fn patch(&mut self, other: Self) {
        override_field(&mut self.table, other.table);
        override_field(&mut self.methods_list, other.methods_list);
        override_field(&mut self.signals_list, other.signals_list);
    }

    proof fn lemma_patch_idempotent(a: Self, b: Self) {
    }
}

/// The state of a plot component.
#[derive(Debug, Default)]
pub struct PlotState<TableRef, MethodRef, SignalRef> {
    pub name: Option<String>,
    pub mutable: PlotStateUpdatable<TableRef, MethodRef, SignalRef>,
}

impl<TableRef, MethodRef, SignalRef> UpdatableWith for PlotState<TableRef, MethodRef, SignalRef> {
    type Substate = PlotStateUpdatable<TableRef, MethodRef, SignalRef>;

    open spec fn updated(self, s: Self::Substate) -> Self {
        PlotState { name: self.name, mutable: self.mutable.patched(s) }
    }

    fn update(&mut self, s: Self::Substate) {
        self.mutable.patch(s);
    }
}

impl<TableRef, MethodRef, SignalRef> ComponentMessageIDs for PlotState<TableRef, MethodRef, SignalRef> {
    open spec fn spec_create_id() -> ServerMessages {
        ServerMessages::MsgPlotCreate
    }

    open spec fn spec_update_id() -> ServerMessages {
        ServerMessages::MsgPlotUpdate
    }

    open spec fn spec_delete_id() -> ServerMessages {
        ServerMessages::MsgPlotDelete
    }

    fn update_message_id() -> (r: ServerMessages)
        ensures
            r == ServerMessages::MsgPlotUpdate,
    {
        ServerMessages::MsgPlotUpdate
    }

    fn create_message_id() -> (r: ServerMessages)
        ensures
            r == ServerMessages::MsgPlotCreate,
    {
        ServerMessages::MsgPlotCreate
    }

    fn delete_message_id() -> (r: ServerMessages)
        ensures
            r == ServerMessages::MsgPlotDelete,
    {
        ServerMessages::MsgPlotDelete
    }
}

// =============================================================================

/// The part of a table that can be updated.
#[derive(Debug, Default)]
pub struct TableStateUpdatable<MethodRef, SignalRef> {
    pub meta: Option<String>,
    pub methods_list: Option<Vec<MethodRef>>,
    pub signals_list: Option<Vec<SignalRef>>,
}

impl<MethodRef, SignalRef> DeltaPatch for TableStateUpdatable<MethodRef, SignalRef> {
    open spec fn patched(self, other: Self) -> Self {
        TableStateUpdatable {
            meta: override_with(self.meta, other.meta),
            methods_list: override_with(self.methods_list, other.methods_list),
            signals_list: override_with(self.signals_list, other.signals_list),
        }
    }

    fn patch(&mut self, other: Self) {
        override_field(&mut self.meta, other.meta);
        override_field(&mut self.methods_list, other.methods_list);
        override_field(&mut self.signals_list, other.signals_list);
    }

    proof fn lemma_patch_idempotent(a: Self, b: Self) {
    }
}

/// The state of a table component.
#[derive(Debug, Default)]
pub struct TableState<MethodRef, SignalRef> {
    pub name: Option<String>,
    pub mutable: TableStateUpdatable<MethodRef, SignalRef>,
}

impl<MethodRef, SignalRef> UpdatableWith for TableState<MethodRef, SignalRef> {
    type Substate = TableStateUpdatable<MethodRef, SignalRef>;

    open spec fn updated(self, s: Self::Substate) -> Self {
        TableState { name: self.name, mutable: self.mutable.patched(s) }
    }

    fn update(&mut self, s: Self::Substate) {
        self.mutable.patch(s);
    }
}

// =============================================================================

impl<MethodRef, SignalRef> ComponentMessageIDs for TableState<MethodRef, SignalRef> {
    open spec fn spec_create_id() -> ServerMessages {
        ServerMessages::MsgTableCreate
    }

    open spec fn spec_update_id() -> ServerMessages {
        ServerMessages::MsgTableUpdate
    }

    open spec fn spec_delete_id() -> ServerMessages {
        ServerMessages::MsgTableDelete
    }

    fn update_message_id() -> (r: ServerMessages)
        ensures
            r == ServerMessages::MsgTableUpdate,
    {
        ServerMessages::MsgTableUpdate
    }

    fn create_message_id() -> (r: ServerMessages)
        ensures
            r == ServerMessages::MsgTableCreate,
    {
        ServerMessages::MsgTableCreate
    }

    fn delete_message_id() -> (r: ServerMessages)
        ensures
            r == ServerMessages::MsgTableDelete,
    {
        ServerMessages::MsgTableDelete
    }
}

// =============================================================================

/// A representation for an entity that shows nothing.
#[derive(Debug)]
pub struct NullRepresentation;

// =============================================================================

/// A patch that holds nothing leaves a plot's mutable state as it is.
pub proof fn lemma_plot_empty_patch<T, M, S>(a: PlotStateUpdatable<T, M, S>)
    ensures
        a.patched(PlotStateUpdatable { table: None, methods_list: None, signals_list: None }) == a,
{
}

/// A patch that holds nothing leaves a table's mutable state as it is.
pub proof fn lemma_table_empty_patch<M, S>(a: TableStateUpdatable<M, S>)
    ensures
        a.patched(TableStateUpdatable { meta: None, methods_list: None, signals_list: None }) == a,
{
}

/// Patching with `b` then `c` is patching once with `b` overridden by `c`.
pub proof fn lemma_plot_patch_compose<T, M, S>(
    a: PlotStateUpdatable<T, M, S>,
    b: PlotStateUpdatable<T, M, S>,
    c: PlotStateUpdatable<T, M, S>,
)
    ensures
        a.patched(b).patched(c) == a.patched(b.patched(c)),
{
}

/// Patching with `b` then `c` is patching once with `b` overridden by `c`.
pub proof fn lemma_table_patch_compose<M, S>(
    a: TableStateUpdatable<M, S>,
    b: TableStateUpdatable<M, S>,
    c: TableStateUpdatable<M, S>,
)
    ensures
        a.patched(b).patched(c) == a.patched(b.patched(c)),
{
}

// =============================================================================

/// Whether a text is an absolute URL that `Url::parse` accepts.
pub uninterp spec fn url_parses(s: Seq<char>) -> bool;

/// The serialization of the URL that `Url::parse` reads from a text.
pub uninterp spec fn url_serialization(s: Seq<char>) -> Seq<char>;

/// `Url::parse`, then the parsed URL's serialization (`Url::as_str`): the
/// normalized form of a text that is an absolute URL, and nothing for any
/// other text. The serialization depends on the text alone.
#[verifier::external_body]
pub(crate) fn parse_url(s: &str) -> (r: Option<String>)
    ensures
        r is Some == url_parses(s@),
        r matches Some(t) ==> t@ == url_serialization(s@),
{
    url::Url::parse(s).ok().map(String::from)
}

/// The state of a buffer component: its bytes inline, or where to fetch them.
#[derive(Debug, PartialEq)]
pub struct BufferState {
    pub name: Option<String>,
    pub size: u64,
    pub inline_bytes: Option<ByteBuff>,
    /// The serialization of the URL the bytes are fetched from.
    pub uri_bytes: Option<String>,
}

impl BufferState {
    /// A buffer that carries its bytes.
    pub fn new_from_bytes(bytes: Vec<u8>) -> (r: Self)
        ensures
            r.name is None,
            r.size == bytes@.len(),
            r.inline_bytes matches Some(b) && b@ == bytes@,
            r.uri_bytes is None,
    {
        let size = bytes.len() as u64;
        Self { name: None, size, inline_bytes: Some(ByteBuff::new(bytes)), uri_bytes: None }
    }

    /// A buffer whose bytes are fetched from a URL.
    pub fn new_from_url(url: &str, buffer_size: u64) -> (r: Self)
        requires
            url_parses(url@),
        ensures
            r.name is None,
            r.size == buffer_size,
            r.inline_bytes is None,
            r.uri_bytes matches Some(t) && t@ == url_serialization(url@),
    {
        let u = parse_url(url);
        Self { name: None, size: buffer_size, inline_bytes: None, uri_bytes: Some(u.unwrap()) }
    }

    /// A buffer whose bytes are fetched from a URL, if the text is an absolute URL.
    pub fn try_new_from_url(url: &str, buffer_size: u64) -> (r: Option<Self>)
        ensures
            r is Some == url_parses(url@),
            r matches Some(b) ==> (b.name is None && b.size == buffer_size && b.inline_bytes is None
                && (b.uri_bytes matches Some(t) && t@ == url_serialization(url@))),
    {
        match parse_url(url) {
            Some(_) => Some(Self::new_from_url(url, buffer_size)),
            None => None,
        }
    }
}

impl ComponentMessageIDs for BufferState {
    open spec fn spec_create_id() -> ServerMessages {
        ServerMessages::MsgBufferCreate
    }

    open spec fn spec_update_id() -> ServerMessages {
        ServerMessages::Unknown
    }

    open spec fn spec_delete_id() -> ServerMessages {
        ServerMessages::MsgBufferDelete
    }

    fn update_message_id() -> (r: ServerMessages)
        ensures
            r == ServerMessages::Unknown,
    {
        ServerMessages::Unknown
    }

    fn create_message_id() -> (r: ServerMessages)
        ensures
            r == ServerMessages::MsgBufferCreate,
    {
        ServerMessages::MsgBufferCreate
    }

    fn delete_message_id() -> (r: ServerMessages)
        ensures
            r == ServerMessages::MsgBufferDelete,
    {
        ServerMessages::MsgBufferDelete
    }
}

// =============================================================================

/// Where the pixels of an image come from: a buffer view, or a URL.
#[derive(Debug, PartialEq)]
pub struct ImageSource<BufferViewRef> {
    buffer_source: Option<BufferViewRef>,
    uri_source: Option<String>,
}

impl<BufferViewRef> ImageSource<BufferViewRef> {
    /// The buffer view an image is read from, if any.
    pub closed spec fn spec_buffer_source(&self) -> Option<BufferViewRef> {
        self.buffer_source
    }

    /// The serialization of the URL an image is fetched from, if any.
    pub closed spec fn spec_uri_source(&self) -> Option<String> {
        self.uri_source
    }

    /// Pixels read from a buffer view.
    pub fn new_buffer(buffer: BufferViewRef) -> (r: Self)
        ensures
            r.spec_buffer_source() == Some(buffer),
            r.spec_uri_source() is None,
    {
        Self { buffer_source: Some(buffer), uri_source: None }
    }

    /// Pixels fetched from a URL.
    pub fn new_uri(uri: &str) -> (r: Self)
        requires
            url_parses(uri@),
        ensures
            r.spec_buffer_source() is None,
            r.spec_uri_source() matches Some(t) && t@ == url_serialization(uri@),
    {
        let u = parse_url(uri);
        Self { buffer_source: None, uri_source: Some(u.unwrap()) }
    }

    /// Pixels fetched from a URL, if the text is an absolute URL.
    pub fn try_new_uri(uri: &str) -> (r: Option<Self>)
        ensures
            r is Some == url_parses(uri@),
            r matches Some(s) ==> (s.spec_buffer_source() is None
                && (s.spec_uri_source() matches Some(t) && t@ == url_serialization(uri@))),
    {
        match parse_url(uri) {
            Some(u) => Some(Self { buffer_source: None, uri_source: Some(u) }),
            None => None,
        }
    }

    /// The buffer view an image is read from, if any.
    pub fn buffer_source(&self) -> (r: &Option<BufferViewRef>)
        ensures
            *r == self.spec_buffer_source(),
    {
        &self.buffer_source
    }

    /// The serialization of the URL an image is fetched from, if any.
    pub fn uri_source(&self) -> (r: &Option<String>)
        ensures
            *r == self.spec_uri_source(),
    {
        &self.uri_source
    }
}

/// The state of an image component.
#[derive(Debug)]
pub struct ImageState<BufferViewRef> {
    pub name: Option<String>,
    pub source: ImageSource<BufferViewRef>,
}

impl<BufferViewRef> ImageState<BufferViewRef> {
    /// An image whose pixels are in a buffer view.
    pub fn new_from_buffer(buffer: BufferViewRef) -> (r: Self)
        ensures
            r.name is None,
            r.source.spec_buffer_source() == Some(buffer),
            r.source.spec_uri_source() is None,
    {
        Self { name: None, source: ImageSource::new_buffer(buffer) }
    }

    /// An image whose pixels are fetched from a URL.
    pub fn new_from_url(url: &str) -> (r: Self)
        requires
            url_parses(url@),
        ensures
            r.name is None,
            r.source.spec_buffer_source() is None,
            r.source.spec_uri_source() matches Some(t) && t@ == url_serialization(url@),
    {
        Self { name: None, source: ImageSource::new_uri(url) }
    }

    /// An image whose pixels are fetched from a URL, if the text is an
    /// absolute URL.
    pub fn try_new_from_url(url: &str) -> (r: Option<Self>)
        ensures
            r is Some == url_parses(url@),
            r matches Some(i) ==> (i.name is None && i.source.spec_buffer_source() is None
                && (i.source.spec_uri_source() matches Some(t) && t@ == url_serialization(url@))),
    {
        match ImageSource::try_new_uri(url) {
            Some(source) => Some(Self { name: None, source }),
            None => None,
        }
    }
}

impl<BufferViewRef> ComponentMessageIDs for ImageState<BufferViewRef> {
    open spec fn spec_create_id() -> ServerMessages {
        ServerMessages::MsgImageCreate
    }

    open spec fn spec_update_id() -> ServerMessages {
        ServerMessages::Unknown
    }

    open spec fn spec_delete_id() -> ServerMessages {
        ServerMessages::MsgImageDelete
    }

    fn update_message_id() -> (r: ServerMessages)
        ensures
            r == ServerMessages::Unknown,
    {
        ServerMessages::Unknown
    }

    fn create_message_id() -> (r: ServerMessages)
        ensures
            r == ServerMessages::MsgImageCreate,
    {
        ServerMessages::MsgImageCreate
    }

    fn delete_message_id() -> (r: ServerMessages)
        ensures
            r == ServerMessages::MsgImageDelete,
    {
        ServerMessages::MsgImageDelete
    }
}


/// Patching a table sets each field the patch holds to the patch's value, and
/// leaves every other field as it was.
pub proof fn lemma_table_patch_sets_fields<M, S>(a: TableStateUpdatable<M, S>, b: TableStateUpdatable<M, S>)
    ensures
        b.meta is Some ==> a.patched(b).meta == b.meta,
        b.meta is None ==> a.patched(b).meta == a.meta,
        b.methods_list is Some ==> a.patched(b).methods_list == b.methods_list,
        b.methods_list is None ==> a.patched(b).methods_list == a.methods_list,
        b.signals_list is Some ==> a.patched(b).signals_list == b.signals_list,
        b.signals_list is None ==> a.patched(b).signals_list == a.signals_list,
{
}

/// Patching a plot sets each field the patch holds to the patch's value, and
/// leaves every other field as it was.
pub proof fn lemma_plot_patch_sets_fields<T, M, S>(a: PlotStateUpdatable<T, M, S>, b: PlotStateUpdatable<T, M, S>)
    ensures
        b.table is Some ==> a.patched(b).table == b.table,
        b.table is None ==> a.patched(b).table == a.table,
        b.methods_list is Some ==> a.patched(b).methods_list == b.methods_list,
        b.methods_list is None ==> a.patched(b).methods_list == a.methods_list,
        b.signals_list is Some ==> a.patched(b).signals_list == b.signals_list,
        b.signals_list is None ==> a.patched(b).signals_list == a.signals_list,
{
}

} // verus!
