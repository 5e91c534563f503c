//! Packing of vertex and index data into one geometry buffer.
use vstd::prelude::*;
use crate::components::{AttributeSemantic, PrimitiveType, BufferState, BufferViewState, BufferViewType, GeometryIndex};
use crate::component_list::{ServerComponentList, ComponentListModel, can_provision, next_id};
use crate::nooid::NooID;
use crate::types::{Format, ByteBuff};
use crate::value::{CborValue, ValueModel, models_of};
use crate::common::ServerMessages;
use crate::announce::{spec_record, spec_created};
use crate::server_state::create_component;
use crate::server_components::GeometryAttribute;

verus! {

/// How one attribute sits inside a vertex.
#[derive(Debug, Clone, Copy)]
pub struct BuilderAttrib {
    pub semantic: AttributeSemantic,
    pub offset: Option<u32>,
    pub format: Format,
    pub normalized: Option<bool>,
}

/// A vertex type whose values can be packed into a buffer.
pub trait Vertex {
    fn get_structure() -> Vec<BuilderAttrib>;
}

fn attrib(semantic: AttributeSemantic, offset: u32, format: Format, normalized: bool) -> (r: BuilderAttrib)
    ensures
        r == (BuilderAttrib { semantic, offset: Some(offset), format, normalized: Some(normalized) }),
{
    BuilderAttrib { semantic, offset: Some(offset), format, normalized: Some(normalized) }
}

/// The layout of a vertex with a position and a normal.
pub fn vertex_minimal_structure() -> (r: Vec<BuilderAttrib>)
    ensures
        r@ == seq![
            BuilderAttrib { semantic: AttributeSemantic::Position, offset: Some(0u32), format: Format::VEC3, normalized: Some(false) },
            BuilderAttrib { semantic: AttributeSemantic::Normal, offset: Some(12u32), format: Format::VEC3, normalized: Some(false) },
        ],
{
    let mut r: Vec<BuilderAttrib> = Vec::new();
    r.push(attrib(AttributeSemantic::Position, 0, Format::VEC3, false));
    r.push(attrib(AttributeSemantic::Normal, 12, Format::VEC3, false));
    r
}

/// The layout of a vertex with a position, a normal and texture coordinates.
pub fn vertex_texture_structure() -> (r: Vec<BuilderAttrib>)
    ensures
        r@ == seq![
            BuilderAttrib { semantic: AttributeSemantic::Position, offset: Some(0u32), format: Format::VEC3, normalized: Some(false) },
            BuilderAttrib { semantic: AttributeSemantic::Normal, offset: Some(12u32), format: Format::VEC3, normalized: Some(false) },
            BuilderAttrib { semantic: AttributeSemantic::Texture, offset: Some(24u32), format: Format::U16VEC2, normalized: Some(true) },
        ],
{
    let mut r: Vec<BuilderAttrib> = Vec::new();
    r.push(attrib(AttributeSemantic::Position, 0, Format::VEC3, false));
    r.push(attrib(AttributeSemantic::Normal, 12, Format::VEC3, false));
    r.push(attrib(AttributeSemantic::Texture, 24, Format::U16VEC2, true));
    r
}

/// The layout of a vertex with a position, a normal, a tangent, texture
/// coordinates and a color.
pub fn vertex_full_structure() -> (r: Vec<BuilderAttrib>)
    ensures
        r@ == seq![
            BuilderAttrib { semantic: AttributeSemantic::Position, offset: Some(0u32), format: Format::VEC3, normalized: Some(false) },
            BuilderAttrib { semantic: AttributeSemantic::Normal, offset: Some(12u32), format: Format::VEC3, normalized: Some(false) },
            BuilderAttrib { semantic: AttributeSemantic::Tangent, offset: Some(24u32), format: Format::VEC3, normalized: Some(false) },
            BuilderAttrib { semantic: AttributeSemantic::Texture, offset: Some(36u32), format: Format::U16VEC2, normalized: Some(true) },
            BuilderAttrib { semantic: AttributeSemantic::Color, offset: Some(40u32), format: Format::U8VEC4, normalized: Some(true) },
        ],
{
    let mut r: Vec<BuilderAttrib> = Vec::new();
    r.push(attrib(AttributeSemantic::Position, 0, Format::VEC3, false));
    r.push(attrib(AttributeSemantic::Normal, 12, Format::VEC3, false));
    r.push(attrib(AttributeSemantic::Tangent, 24, Format::VEC3, false));
    r.push(attrib(AttributeSemantic::Texture, 36, Format::U16VEC2, true));
    r.push(attrib(AttributeSemantic::Color, 40, Format::U8VEC4, true));
    r
}

// =============================================================================

/// Errors while building a geometry buffer.
#[derive(Debug)]
pub enum BufferBuildError {
    InternalError,
}

// =============================================================================

/// How the vertices of a mesh are assembled, with the indices when there are any.
#[derive(Debug, Clone)]
pub enum IndexType<'a> {
    UnindexedPoints,
    UnindexedLines,
    UnindexedTriangles,
    Points(&'a [u32]),
    Lines(&'a [[u32; 2]]),
    Triangles(&'a [[u32; 3]]),
}

impl<'a> IndexType<'a> {
    /// The number of index values.
    pub open spec fn spec_index_count(&self) -> nat {
        match self {
            IndexType::Points(x) => x@.len(),
            IndexType::Lines(x) => x@.len() * 2,
            IndexType::Triangles(x) => x@.len() * 3,
            _ => 0,
        }
    }

    /// The index values in order.
    pub open spec fn spec_indices(&self) -> Seq<u32> {
        match self {
            IndexType::Points(x) => x@,
            IndexType::Lines(x) => Seq::new(x@.len() * 2, |i: int| x@[i / 2]@[i % 2]),
            IndexType::Triangles(x) => Seq::new(x@.len() * 3, |i: int| x@[i / 3]@[i % 3]),
            _ => Seq::empty(),
        }
    }

    /// Whether the mesh carries indices.
    pub open spec fn is_indexed_spec(&self) -> bool {
        self is Points || self is Lines || self is Triangles
    }

    /// The kind of primitive the indices assemble.
    pub open spec fn spec_primitive(&self) -> PrimitiveType {
        match self {
            IndexType::UnindexedPoints => PrimitiveType::Points,
            IndexType::UnindexedLines => PrimitiveType::Lines,
            IndexType::UnindexedTriangles => PrimitiveType::Triangles,
            IndexType::Points(_) => PrimitiveType::Points,
            IndexType::Lines(_) => PrimitiveType::Lines,
            IndexType::Triangles(_) => PrimitiveType::Triangles,
        }
    }

    /// The number of index values, as the geometry index records it.
    pub fn total_u32_count(&self) -> (r: u32)
        requires
            self.spec_index_count() * 4 <= usize::MAX,
        ensures
            r == self.spec_index_count() as u32,
    {
        (match self {
            IndexType::Points(x) => x.len() * 1,
            IndexType::Lines(x) => x.len() * 2,
            IndexType::Triangles(x) => x.len() * 3,
            _ => 0,
        }) as u32
    }

    /// The size of the index values in bytes.
    pub fn total_byte_count(&self) -> (r: usize)
        requires
            self.spec_index_count() * 4 <= usize::MAX,
        ensures
            r == self.spec_index_count() * 4,
    {
        match self {
            IndexType::Points(x) => x.len() * 4,
            IndexType::Lines(x) => x.len() * 2 * 4,
            IndexType::Triangles(x) => x.len() * 3 * 4,
            _ => 0,
        }
    }

    /// The kind of primitive the indices assemble.
    pub fn primitive(&self) -> (r: PrimitiveType)
        ensures
            r == self.spec_primitive(),
    {
        match self {
            IndexType::UnindexedPoints => PrimitiveType::Points,
            IndexType::UnindexedLines => PrimitiveType::Lines,
            IndexType::UnindexedTriangles => PrimitiveType::Triangles,
            IndexType::Points(_) => PrimitiveType::Points,
            IndexType::Lines(_) => PrimitiveType::Lines,
            IndexType::Triangles(_) => PrimitiveType::Triangles,
        }
    }

    /// Whether the mesh carries indices.
    pub fn is_indexed(&self) -> (r: bool)
        ensures
            r == (self is Points || self is Lines || self is Triangles),
    {
        match self {
            IndexType::Points(_) | IndexType::Lines(_) | IndexType::Triangles(_) => true,
            _ => false,
        }
    }

    /// The index values in order.
    pub fn indices(&self) -> (r: Vec<u32>)
        requires
            self.spec_index_count() <= usize::MAX,
        ensures
            r@ == self.spec_indices(),
    {
        let mut out: Vec<u32> = Vec::new();
        match self {
            IndexType::Points(x) => {
                let mut i: usize = 0;
                while i < x.len()
                    invariant
                        i <= x@.len(),
                        out@ == x@.subrange(0, i as int),
                    decreases x.len() - i,
                {
                    out.push(x[i]);
                    assert(out@ =~= x@.subrange(0, i + 1));
                    i = i + 1;
                }
                assert(x@.subrange(0, x@.len() as int) =~= x@);
            },
            IndexType::Lines(x) => {
                let ghost target = self.spec_indices();
                let mut i: usize = 0;
                while i < x.len()
                    invariant
                        i <= x@.len(),
                        x@.len() * 2 <= usize::MAX,
                        target == Seq::new(x@.len() * 2, |k: int| x@[k / 2]@[k % 2]),
                        out@ == target.subrange(0, i * 2),
                    decreases x.len() - i,
                {
                    let pair = x[i];
                    out.push(pair[0]);
                    out.push(pair[1]);
                    assert(out@ =~= target.subrange(0, (i + 1) * 2));
                    i = i + 1;
                }
                assert(target.subrange(0, (x@.len() * 2) as int) =~= target);
            },
            IndexType::Triangles(x) => {
                let ghost target = self.spec_indices();
                let mut i: usize = 0;
                while i < x.len()
                    invariant
                        i <= x@.len(),
                        x@.len() * 3 <= usize::MAX,
                        target == Seq::new(x@.len() * 3, |k: int| x@[k / 3]@[k % 3]),
                        out@ == target.subrange(0, i * 3),
                    decreases x.len() - i,
                {
                    let tri = x[i];
                    out.push(tri[0]);
                    out.push(tri[1]);
                    out.push(tri[2]);
                    assert(out@ =~= target.subrange(0, (i + 1) * 3));
                    i = i + 1;
                }
                assert(target.subrange(0, (x@.len() * 3) as int) =~= target);
            },
            _ => {
                assert(out@ =~= self.spec_indices());
            },
        }
        out
    }
}

/// The four bytes of a number, least significant first.
pub open spec fn le_bytes(v: u32) -> Seq<u8> {
    seq![(v & 0xff) as u8, ((v >> 8u32) & 0xff) as u8, ((v >> 16u32) & 0xff) as u8, ((v >> 24u32) & 0xff) as u8]
}

/// The four bytes of a number, most significant first.
pub open spec fn be_bytes(v: u32) -> Seq<u8> {
    seq![((v >> 24u32) & 0xff) as u8, ((v >> 16u32) & 0xff) as u8, ((v >> 8u32) & 0xff) as u8, (v & 0xff) as u8]
}

/// The bytes of numbers laid one after the other, four bytes each, least
/// significant first when `little`, else most significant first.
pub open spec fn index_image(x: Seq<u32>, little: bool) -> Seq<u8> {
    Seq::new(
        x.len() * 4,
        |i: int| if little { le_bytes(x[i / 4])[i % 4] } else { be_bytes(x[i / 4])[i % 4] },
    )
}

/// The number whose four bytes stand in `b` from `at`, least significant
/// first when `little`, else most significant first.
pub open spec fn read_u32(b: Seq<u8>, at: int, little: bool) -> u32 {
    if little {
        (b[at] as u32) | ((b[at + 1] as u32) << 8u32) | ((b[at + 2] as u32) << 16u32) | ((b[at + 3] as u32) << 24u32)
    } else {
        (b[at + 3] as u32) | ((b[at + 2] as u32) << 8u32) | ((b[at + 1] as u32) << 16u32) | ((b[at] as u32) << 24u32)
    }
}

/// Reading back four bytes at a time, in the order they were laid in, gives
/// every number in its place.
pub proof fn lemma_index_image_reads_back(x: Seq<u32>, little: bool)
    ensures
        index_image(x, little).len() == x.len() * 4,
        forall|k: int| 0 <= k < x.len() ==> #[trigger] read_u32(index_image(x, little), 4 * k, little) == x[k],
{
    let img = index_image(x, little);
    assert forall|k: int| 0 <= k < x.len() implies #[trigger] read_u32(img, 4 * k, little) == x[k] by {
        let v = x[k];
        assert((4 * k) / 4 == k && (4 * k) % 4 == 0);
        assert((4 * k + 1) / 4 == k && (4 * k + 1) % 4 == 1);
        assert((4 * k + 2) / 4 == k && (4 * k + 2) % 4 == 2);
        assert((4 * k + 3) / 4 == k && (4 * k + 3) % 4 == 3);
        let b0 = (v & 0xff) as u8;
        let b1 = ((v >> 8u32) & 0xff) as u8;
        let b2 = ((v >> 16u32) & 0xff) as u8;
        let b3 = ((v >> 24u32) & 0xff) as u8;
        if little {
            assert(img[4 * k] == b0 && img[4 * k + 1] == b1 && img[4 * k + 2] == b2 && img[4 * k + 3] == b3);
        } else {
            assert(img[4 * k] == b3 && img[4 * k + 1] == b2 && img[4 * k + 2] == b1 && img[4 * k + 3] == b0);
        }
        assert(((b0 as u32) | ((b1 as u32) << 8u32) | ((b2 as u32) << 16u32) | ((b3 as u32) << 24u32)) == v) by (bit_vector)
            requires
                b0 == (v & 0xff) as u8,
                b1 == ((v >> 8u32) & 0xff) as u8,
                b2 == ((v >> 16u32) & 0xff) as u8,
                b3 == ((v >> 24u32) & 0xff) as u8,
        ;
    }
}

/// Where the bytes after `start` are the image of numbers, reading them back
/// four bytes at a time from `start` gives each number in its place: the
/// index region of a packed buffer holds the indices in order.
pub proof fn lemma_index_region_reads_back(bytes: Seq<u8>, start: int, x: Seq<u32>, little: bool)
    requires
        0 <= start <= bytes.len(),
        bytes.subrange(start, bytes.len() as int) == index_image(x, little),
    ensures
        bytes.len() == start + x.len() * 4,
        forall|k: int| 0 <= k < x.len() ==> #[trigger] read_u32(bytes, start + 4 * k, little) == x[k],
{
    lemma_index_image_reads_back(x, little);
    let img = index_image(x, little);
    assert forall|k: int| 0 <= k < x.len() implies #[trigger] read_u32(bytes, start + 4 * k, little) == x[k] by {
        assert(read_u32(img, 4 * k, little) == x[k]);
        assert(bytes[start + 4 * k] == img[4 * k]);
        assert(bytes[start + 4 * k + 1] == img[4 * k + 1]);
        assert(bytes[start + 4 * k + 2] == img[4 * k + 2]);
        assert(bytes[start + 4 * k + 3] == img[4 * k + 3]);
    }
}

/// `bytemuck::try_cast_slice` from index values to bytes, copied out. From
/// four-byte values to bytes the cast always succeeds: each value becomes its
/// four bytes in the machine's byte order, which is little-endian or
/// big-endian, one value after the other.
#[verifier::external_body]
fn index_bytes(x: &[u32]) -> (r: Option<Vec<u8>>)
    ensures
        r is Some,
        r matches Some(b) ==> b@.len() == x@.len() * 4,
        r matches Some(b) ==> (b@ == index_image(x@, true) || b@ == index_image(x@, false)),
{
    bytemuck::try_cast_slice::<u32, u8>(x).ok().map(|s| s.to_vec())
}

/// The packed buffer: vertex bytes first, then index bytes.
#[derive(Debug)]
pub struct CopyResult {
    pub bytes: Vec<u8>,
    pub vertex_region_size: u64,
    pub index_region_size: u64,
}

/// Pack the bytes of the vertices, followed by the indices, into one buffer.
pub fn copy_bytes(vertex_bytes: &[u8], index: &IndexType) -> (r: Result<CopyResult, BufferBuildError>)
    requires
        index.spec_index_count() * 4 <= usize::MAX,
        vertex_bytes@.len() + index.spec_index_count() * 4 <= usize::MAX,
    ensures
        match r {
            Ok(c) => {
                &&& c.bytes@.len() == vertex_bytes@.len() + index.spec_index_count() * 4
                &&& c.bytes@.subrange(0, vertex_bytes@.len() as int) == vertex_bytes@
                &&& c.vertex_region_size == vertex_bytes@.len()
                &&& c.index_region_size == index.spec_index_count() * 4
                &&& exists|little: bool| #[trigger] c.bytes@.subrange(
                    vertex_bytes@.len() as int,
                    c.bytes@.len() as int,
                ) == index_image(index.spec_indices(), little)
            },
            Err(_) => false,
        },
{
    let mut bytes: Vec<u8> = Vec::new();
    let mut i: usize = 0;
    while i < vertex_bytes.len()
        invariant
            i <= vertex_bytes@.len(),
            bytes@ == vertex_bytes@.subrange(0, i as int),
        decreases vertex_bytes.len() - i,
    {
        bytes.push(vertex_bytes[i]);
        assert(bytes@ =~= vertex_bytes@.subrange(0, i + 1));
        i = i + 1;
    }
    assert(vertex_bytes@.subrange(0, vertex_bytes@.len() as int) =~= vertex_bytes@);
    let i_total_bytes = index.total_byte_count();
    let flat = index.indices();
    let idx = match index_bytes(flat.as_slice()) {
        Some(b) => b,
        None => return Err(BufferBuildError::InternalError),
    };
    let ghost prefix = bytes@;
    let mut j: usize = 0;
    while j < idx.len()
        invariant
            j <= idx@.len(),
            prefix == vertex_bytes@,
            idx@.len() == index.spec_index_count() * 4,
            vertex_bytes@.len() + idx@.len() <= usize::MAX,
            bytes@ == prefix + idx@.subrange(0, j as int),
        decreases idx.len() - j,
    {
        bytes.push(idx[j]);
        assert(bytes@ =~= prefix + idx@.subrange(0, j + 1));
        j = j + 1;
    }
    assert(bytes@.subrange(0, vertex_bytes@.len() as int) =~= vertex_bytes@);
    assert(bytes@.subrange(vertex_bytes@.len() as int, bytes@.len() as int) =~= idx@);
    Ok(CopyResult {
        bytes,
        vertex_region_size: vertex_bytes.len() as u64,
        index_region_size: i_total_bytes as u64,
    })
}

// =============================================================================

/// Where the bytes of a buffer are found.
#[derive(Debug)]
pub enum BufferRepresentation {
    Bytes(Vec<u8>),
    /// The serialization of the URL the bytes are fetched from.
    Url(String),
}

impl BufferRepresentation {
    /// Bytes carried in the buffer itself.
    pub fn new_from_bytes(bytes: Vec<u8>) -> (r: Self)
        ensures
            r matches BufferRepresentation::Bytes(b) && b@ == bytes@,
    {
        BufferRepresentation::Bytes(bytes)
    }
}

/// A buffer state has a name, a size, and its bytes where a representation says.
pub open spec fn is_buffer_of(state: BufferState, name: Option<String>, size: u64, rep: BufferRepresentation) -> bool {
    &&& state.name == name
    &&& state.size == size
    &&& match rep {
        BufferRepresentation::Bytes(b) => state.inline_bytes matches Some(bb) && bb@ == b@ && state.uri_bytes is None,
        BufferRepresentation::Url(u) => state.inline_bytes is None && state.uri_bytes == Some(u),
    }
}

fn make_buffer(name: Option<String>, size: u64, rep: BufferRepresentation) -> (r: BufferState)
    ensures
        is_buffer_of(r, name, size, rep),
{
    match rep {
        BufferRepresentation::Bytes(b) => BufferState { name, size, inline_bytes: Some(ByteBuff::new(b)), uri_bytes: None },
        BufferRepresentation::Url(u) => BufferState { name, size, inline_bytes: None, uri_bytes: Some(u) },
    }
}

/// A geometry patch that refers to the buffer views the builder made.
#[derive(Debug)]
pub struct IntermediateGeometryPatch {
    pub attributes: Vec<GeometryAttribute>,
    pub vertex_count: u64,
    pub indices: Option<GeometryIndex<NooID>>,
    pub patch_type: PrimitiveType,
}

/// The vertices of a mesh, as the bytes of one vertex after another, with
/// the size and layout of a vertex, and how they are assembled.
#[derive(Debug)]
pub struct VertexSource<'a> {
    pub name: Option<String>,
    pub vertex: &'a [u8],
    pub vertex_size: u32,
    pub structure: Vec<BuilderAttrib>,
    pub index: IndexType<'a>,
}

/// Whether two new components can get identifiers, one after the other.
pub open spec fn can_provision_two<T>(m: ComponentListModel<T>) -> bool {
    if m.free.len() == 0 {
        m.order.len() + 1 <= u32::MAX
    } else if m.free.len() == 1 {
        m.free.last().spec_gen() < u32::MAX && m.order.len() + 1 <= u32::MAX
    } else {
        m.free.last().spec_gen() < u32::MAX && m.free.drop_last().last().spec_gen() < u32::MAX
    }
}

/// The name of the buffer a mesh packs into.
pub open spec fn buffer_name(name: Option<String>) -> Option<Seq<char>> {
    match name {
        Some(n) => Some(n@ + "_buffer"@),
        None => None,
    }
}

fn make_buffer_name(name: &Option<String>) -> (r: Option<String>)
    ensures
        match r {
            Some(s) => buffer_name(*name) == Some(s@),
            None => name is None,
        },
{
    match name {
        Some(n) => Some(n.clone().concat("_buffer")),
        None => None,
    }
}

/// The messages that tell clients of the buffer a mesh was packed into and
/// of its views, in the order they were made.
pub open spec fn mesh_announcements(
    buffers: ComponentListModel<BufferState>,
    buffer: NooID,
    views: ComponentListModel<BufferViewState<NooID>>,
    first_view: int,
) -> Seq<ValueModel> {
    seq![spec_record(ServerMessages::MsgBufferCreate, spec_created::<BufferState>(buffer, buffers.items[buffer].deep_view()))]
    + views.order.subrange(first_view, views.order.len() as int).map_values(
        |id: NooID| spec_record(
            ServerMessages::MsgBufferViewCreate,
            spec_created::<BufferViewState<NooID>>(id, views.items[id].deep_view()),
        ),
    )
}

impl<'a> VertexSource<'a> {
    /// The attributes of the mesh: the vertex layout, read through a view.
    pub open spec fn spec_attributes(&self, view: NooID) -> Seq<GeometryAttribute> {
        self.structure@.map_values(|a: BuilderAttrib| GeometryAttribute {
            view,
            semantic: a.semantic,
            channel: None,
            offset: a.offset,
            stride: Some(self.vertex_size),
            format: a.format,
            minimum_value: None,
            maximum_value: None,
            normalized: a.normalized,
        })
    }

    /// Sizes the packing needs: the buffer fits memory and its counts fit
    /// their fields.
    pub open spec fn fits(&self) -> bool {
        &&& self.vertex_size > 0
        &&& self.vertex@.len() + self.index.spec_index_count() * 4 <= usize::MAX
        &&& self.index.spec_index_count() * 4 <= u32::MAX
    }

    /// Pack the mesh into a new buffer whose bytes the buffer carries, with a
    /// view of the vertices and, when there are indices, a view of them.
    pub fn build_mesh(
        &self,
        buffers: &mut ServerComponentList<BufferState>,
        buffer_views: &mut ServerComponentList<BufferViewState<NooID>>,
        broadcast: &mut Vec<CborValue>,
    ) -> (r: Result<IntermediateGeometryPatch, BufferBuildError>)
        requires
            self.fits(),
            old(buffers).wf(),
            old(buffer_views).wf(),
            can_provision(old(buffers).model()),
            if self.index.is_indexed_spec() { can_provision_two(old(buffer_views).model()) } else { can_provision(old(buffer_views).model()) },
        ensures
            final(buffers).wf(),
            final(buffer_views).wf(),
            r matches Ok(patch) && self.built(
                old(buffers).model(),
                final(buffers).model(),
                old(buffer_views).model(),
                final(buffer_views).model(),
                patch,
            ),
            final(buffers).model().items[next_id(old(buffers).model())].inline_bytes matches Some(b)
                && b@.subrange(0, self.vertex@.len() as int) == self.vertex@
                && (b@.subrange(self.vertex@.len() as int, b@.len() as int) == index_image(self.index.spec_indices(), true)
                    || b@.subrange(self.vertex@.len() as int, b@.len() as int) == index_image(self.index.spec_indices(), false)),
            models_of(final(broadcast)@) == models_of(old(broadcast)@) + mesh_announcements(
                final(buffers).model(),
                next_id(old(buffers).model()),
                final(buffer_views).model(),
                old(buffer_views).model().order.len() as int,
            ),
    {
        let r = self.build_mesh_with(buffers, buffer_views, broadcast, |data: Vec<u8>| -> (rep: BufferRepresentation)
            ensures
                rep matches BufferRepresentation::Bytes(b) && b@ == data@,
            { BufferRepresentation::new_from_bytes(data) });
        r
    }

    /// Pack the mesh into a new buffer whose bytes go where `register_bytes`
    /// puts them, with a view of the vertices and, when there are indices, a
    /// view of them.
    pub fn build_mesh_with<F: FnOnce(Vec<u8>) -> BufferRepresentation>(
        &self,
        buffers: &mut ServerComponentList<BufferState>,
        buffer_views: &mut ServerComponentList<BufferViewState<NooID>>,
        broadcast: &mut Vec<CborValue>,
        register_bytes: F,
    ) -> (r: Result<IntermediateGeometryPatch, BufferBuildError>)
        requires
            self.fits(),
            old(buffers).wf(),
            old(buffer_views).wf(),
            can_provision(old(buffers).model()),
            if self.index.is_indexed_spec() { can_provision_two(old(buffer_views).model()) } else { can_provision(old(buffer_views).model()) },
            forall|data: Vec<u8>| call_requires(register_bytes, (data,)),
        ensures
            final(buffers).wf(),
            final(buffer_views).wf(),
            r matches Ok(patch) && self.built(
                old(buffers).model(),
                final(buffers).model(),
                old(buffer_views).model(),
                final(buffer_views).model(),
                patch,
            ),
            exists|data: Vec<u8>, rep: BufferRepresentation| {
                &&& data@.len() == self.vertex@.len() + self.index.spec_index_count() * 4
                &&& data@.subrange(0, self.vertex@.len() as int) == self.vertex@
                &&& (data@.subrange(self.vertex@.len() as int, data@.len() as int) == index_image(self.index.spec_indices(), true)
                    || data@.subrange(self.vertex@.len() as int, data@.len() as int) == index_image(self.index.spec_indices(), false))
                &&& call_ensures(register_bytes, (data,), rep)
                &&& is_buffer_of(
                    final(buffers).model().items[next_id(old(buffers).model())],
                    final(buffers).model().items[next_id(old(buffers).model())].name,
                    (self.vertex@.len() + self.index.spec_index_count() * 4) as u64,
                    rep,
                )
            },
            models_of(final(broadcast)@) == models_of(old(broadcast)@) + mesh_announcements(
                final(buffers).model(),
                next_id(old(buffers).model()),
                final(buffer_views).model(),
                old(buffer_views).model().order.len() as int,
            ),
    {
        let ghost old_views = buffer_views.model();
        let ghost old_broadcast = models_of(broadcast@);
        let v_count = (self.vertex.len() / (self.vertex_size as usize)) as u64;
        let copy_result = match copy_bytes(self.vertex, &self.index) {
            Ok(c) => c,
            Err(e) => return Err(e),
        };
        let vertex_region_size = copy_result.vertex_region_size;
        let index_region_size = copy_result.index_region_size;
        let size = copy_result.bytes.len() as u64;
        let ghost data = copy_result.bytes;
        let rep = register_bytes(copy_result.bytes);
        let state = make_buffer(make_buffer_name(&self.name), size, rep);
        let buffer = create_component(buffers, broadcast, state);
        let vertex_view = create_component(buffer_views, broadcast, BufferViewState {
            name: None,
            source_buffer: buffer,
            view_type: BufferViewType::Geometry,
            offset: 0,
            length: vertex_region_size,
        });
        let mut attributes: Vec<GeometryAttribute> = Vec::new();
        let mut i: usize = 0;
        while i < self.structure.len()
            invariant
                i <= self.structure@.len(),
                attributes@ == self.spec_attributes(vertex_view).take(i as int),
            decreases self.structure.len() - i,
        {
            let a = self.structure[i];
            attributes.push(GeometryAttribute {
                view: vertex_view,
                semantic: a.semantic,
                channel: None,
                offset: a.offset,
                stride: Some(self.vertex_size),
                format: a.format,
                minimum_value: None,
                maximum_value: None,
                normalized: a.normalized,
            });
            assert(attributes@ =~= self.spec_attributes(vertex_view).take(i + 1));
            i = i + 1;
        }
        assert(self.spec_attributes(vertex_view).take(i as int) =~= self.spec_attributes(vertex_view));
        let indices = if self.index.is_indexed() {
            proof {
                let m = buffer_views.model();
                assert(m.order.len() == old_views.order.len() + 1);
            }
            let view = create_component(buffer_views, broadcast, BufferViewState {
                name: None,
                source_buffer: buffer,
                view_type: BufferViewType::Geometry,
                offset: vertex_region_size,
                length: index_region_size,
            });
            Some(GeometryIndex { view, count: self.index.total_u32_count(), offset: None, stride: None, format: Format::U32 })
        } else {
            None
        };
        let patch = IntermediateGeometryPatch { attributes, vertex_count: v_count, indices, patch_type: self.index.primitive() };
        proof {
            assert(buffers.model().items.remove(buffer) =~= old(buffers).model().items);
            let nv = buffer_views.model();
            let fresh = nv.order.subrange(old_views.order.len() as int, nv.order.len() as int);
            if self.index.is_indexed_spec() {
                assert(fresh =~= seq![vertex_view, nv.order.last()]);
            } else {
                assert(fresh =~= seq![vertex_view]);
            }
            assert(models_of(broadcast@) =~= old_broadcast + mesh_announcements(
                buffers.model(),
                buffer,
                nv,
                old_views.order.len() as int,
            ));
        }
        Ok(patch)
    }

    /// What packing the mesh does to the lists and gives back, wherever
    /// the buffer's bytes are found.
    pub open spec fn built(
        &self,
        old_buffers: ComponentListModel<BufferState>,
        new_buffers: ComponentListModel<BufferState>,
        old_views: ComponentListModel<BufferViewState<NooID>>,
        new_views: ComponentListModel<BufferViewState<NooID>>,
        patch: IntermediateGeometryPatch,
    ) -> bool {
        let b = next_id(old_buffers);
        let vv = next_id(old_views);
        let vlen = self.vertex@.len();
        let ilen = self.index.spec_index_count() * 4;
        let vertex_view = BufferViewState { name: None, source_buffer: b, view_type: BufferViewType::Geometry, offset: 0, length: vlen as u64 };
        &&& new_buffers.order == old_buffers.order.push(b)
        &&& new_buffers.items.contains_key(b)
        &&& new_buffers.items.remove(b) == old_buffers.items
        &&& crate::component_codec::opt_text(new_buffers.items[b].name) == buffer_name(self.name)
        &&& new_buffers.items[b].size == vlen + ilen
        &&& patch.attributes@ == self.spec_attributes(vv)
        &&& patch.vertex_count == vlen / (self.vertex_size as nat)
        &&& patch.patch_type == self.index.spec_primitive()
        &&& if self.index.is_indexed_spec() {
            let iv = next_id(ComponentListModel {
                order: old_views.order.push(vv),
                items: old_views.items.insert(vv, vertex_view),
                free: if old_views.free.len() == 0 { old_views.free } else { old_views.free.drop_last() },
            });
            let index_view = BufferViewState { name: None, source_buffer: b, view_type: BufferViewType::Geometry, offset: vlen as u64, length: ilen as u64 };
            &&& new_views.order == old_views.order.push(vv).push(iv)
            &&& new_views.items == old_views.items.insert(vv, vertex_view).insert(iv, index_view)
            &&& patch.indices == Some(GeometryIndex { view: iv, count: self.index.spec_index_count() as u32, offset: None, stride: None, format: Format::U32 })
        } else {
            &&& new_views.order == old_views.order.push(vv)
            &&& new_views.items == old_views.items.insert(vv, vertex_view)
            &&& patch.indices is None
        }
    }
}

} // verus!
