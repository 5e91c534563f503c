use colabrodo::buffer_builder::{
    copy_bytes, vertex_full_structure, vertex_minimal_structure, vertex_texture_structure, BufferRepresentation,
    IndexType, VertexSource,
};
use colabrodo::announce::{create_record, delete_record, document_tail, document_update_record, signal_record};
use colabrodo::client_dispatch::{decode_pack, FromServer};
use colabrodo::client_messages::InvokeIDType;
use colabrodo::common::{ComponentType, ServerMessages};
use colabrodo::component_list::{cleanup_name, ServerComponentList};
use colabrodo::components::{
    AttributeSemantic, BufferState, BufferViewState, BufferViewType, ComponentMessageIDs, DeltaPatch, MethodState, PlotState, PlotStateUpdatable, PrimitiveType,
    SignalState, TableStateUpdatable, UpdatableWith,
};
use colabrodo::invoke::{check_invoke, find_method_in_state, method_reply, resolve_context, InvokeObj};
use colabrodo::nooid::NooID;
use colabrodo::server_communication::{DocumentUpdate, MethodException};
use colabrodo::table::Selection;
use colabrodo::table_protocol::{
    decode_table_call, translate_return, TableCall, TableSystemInit, MTHD_TBL_INSERT, SIG_TBL_RESET,
};
use colabrodo::types::Format;
use colabrodo::value::CborValue;
use colabrodo::value_tools::CBORTransform;

struct TestEntity {
    name: Option<String>,
    tags: Option<Vec<String>>,
}

#[test]
fn check_lookup_inspect() {
    let mut entities: ServerComponentList<TestEntity> = ServerComponentList::new();

    let a = entities.new_component(TestEntity { name: Some("A".to_string()), tags: Some(vec!["item_a".to_string()]) });

    let e = entities.get_data(a).unwrap();
    assert_eq!(e.name.as_ref().unwrap(), "A");
    assert_eq!(e.tags, Some(vec!["item_a".to_string()]));
}

#[test]
fn component_ids_are_recycled() {
    let mut list: ServerComponentList<u32> = ServerComponentList::new();
    let a = list.new_component(10);
    let b = list.new_component(11);
    let c = list.new_component(12);
    assert_eq!(a, NooID::new(0, 0));
    assert_eq!(b, NooID::new(1, 0));
    assert_eq!(c, NooID::new(2, 0));
    assert_eq!(list.len(), 3);

    // removing the first keeps the others in creation order
    assert_eq!(list.return_id(a), Some(10));
    assert_eq!(list.ids(), vec![b, c]);
    assert_eq!(list.resolve(a), None);
    assert_eq!(list.get_data(a), None);

    // the freed slot comes back with the next generation
    let d = list.new_component(13);
    assert_eq!(d, NooID::new(0, 1));
    assert_eq!(list.ids(), vec![b, c, d]);
    assert_eq!(list.get_data(d), Some(&13));
    assert_eq!(list.resolve(b), Some(b));
    assert!(list.can_provision());

    // with nothing free, a new slot follows the live ones
    let e = list.new_component(14);
    assert_eq!(e, NooID::new(3, 0));
}

#[test]
fn component_names_are_cleaned() {
    assert_eq!(cleanup_name("colabrodo_server::server_messages::ServerEntityState<a::B, c::D>"), "ServerEntityState");
    assert_eq!(cleanup_name("Plain"), "Plain");
    assert_eq!(cleanup_name("a::b::"), "");
    assert_eq!(cleanup_name("<x::y>"), "");
}

#[test]
fn byte_pack() {
    // three vertices with a position, a normal and texture coordinates
    let verts: Vec<([f32; 3], [f32; 3], [u16; 2])> = vec![
        ([1.0, 2.0, 3.0], [0.0, 1.0, 0.0], [8234, 512]),
        ([4.0, 1.0, 2.0], [1.0, 0.0, 0.0], [27, 743]),
        ([1.0, 1.0, 1.0], [0.0, 0.0, 1.0], [10, 900]),
    ];
    let mut vertex_bytes: Vec<u8> = Vec::new();
    for (p, n, t) in &verts {
        for x in p.iter().chain(n.iter()) {
            vertex_bytes.extend_from_slice(&x.to_ne_bytes());
        }
        for x in t {
            vertex_bytes.extend_from_slice(&x.to_ne_bytes());
        }
    }
    let vertex_size = (3 * 4) + (3 * 4) + (2 * 2);
    assert_eq!(vertex_bytes.len(), vertex_size * 3);

    let index_list = vec![[0u32, 1, 2]];
    let index = IndexType::Triangles(index_list.as_slice());

    let result = copy_bytes(vertex_bytes.as_slice(), &index).unwrap();

    assert_eq!(result.bytes.len(), (vertex_size * 3) + (3 * 4));

    let v_slice = &result.bytes[0..(result.vertex_region_size as usize)];
    let i_slice = &result.bytes[(result.vertex_region_size as usize)..];

    assert_eq!(v_slice, vertex_bytes.as_slice());
    let reinterp_i: Vec<u32> =
        i_slice.chunks(4).map(|c| u32::from_ne_bytes([c[0], c[1], c[2], c[3]])).collect();
    assert_eq!(reinterp_i, vec![0, 1, 2]);
    assert_eq!(result.index_region_size, 12);
}

#[test]
fn index_counts() {
    let lines = vec![[0u32, 1], [1, 2]];
    let idx = IndexType::Lines(lines.as_slice());
    assert_eq!(idx.total_u32_count(), 4);
    assert_eq!(idx.total_byte_count(), 16);
    assert_eq!(idx.indices(), vec![0, 1, 1, 2]);
    assert_eq!(idx.primitive(), PrimitiveType::Lines);
    assert!(idx.is_indexed());
    let none = IndexType::UnindexedTriangles;
    assert_eq!(none.total_u32_count(), 0);
    assert_eq!(none.primitive(), PrimitiveType::Triangles);
    assert!(!none.is_indexed());
    let packed = copy_bytes(&[1, 2, 3], &none).unwrap();
    assert_eq!(packed.bytes, vec![1, 2, 3]);
}

#[test]
fn vertex_layouts() {
    let m = vertex_minimal_structure();
    assert_eq!(m.len(), 2);
    assert_eq!(m[1].offset, Some(12));
    let t = vertex_texture_structure();
    assert_eq!(t[2].semantic, AttributeSemantic::Texture);
    assert_eq!(t[2].format, Format::U16VEC2);
    assert_eq!(t[2].normalized, Some(true));
    let f = vertex_full_structure();
    assert_eq!(f.len(), 5);
    assert_eq!(f[4].offset, Some(40));
    assert_eq!(f[4].format, Format::U8VEC4);
}

#[test]
fn patches_override_present_fields() {
    let mut plot: PlotState<u32, u32, u32> = PlotState {
        name: Some("p".to_string()),
        mutable: PlotStateUpdatable { table: Some(1), methods_list: Some(vec![1, 2]), signals_list: None },
    };
    plot.update(PlotStateUpdatable { table: None, methods_list: Some(vec![3]), signals_list: Some(vec![4]) });
    assert_eq!(plot.mutable.table, Some(1));
    assert_eq!(plot.mutable.methods_list, Some(vec![3]));
    assert_eq!(plot.mutable.signals_list, Some(vec![4]));
    assert_eq!(plot.name, Some("p".to_string()));

    let mut t: TableStateUpdatable<u32, u32> = TableStateUpdatable { meta: Some("m".to_string()), methods_list: None, signals_list: None };
    t.patch(TableStateUpdatable { meta: None, methods_list: None, signals_list: None });
    assert_eq!(t.meta, Some("m".to_string()));

    assert_eq!(<PlotState<u32, u32, u32> as ComponentMessageIDs>::update_message_id(), ServerMessages::MsgPlotUpdate);
    assert_eq!(<MethodState<u64> as ComponentMessageIDs>::create_message_id(), ServerMessages::MsgMethodCreate);
    assert_eq!(<SignalState<u64> as ComponentMessageIDs>::delete_message_id(), ServerMessages::MsgSignalDelete);
}

#[test]
fn invocation_checks() {
    let mut methods: ServerComponentList<u8> = ServerComponentList::new();
    let entities: ServerComponentList<u8> = ServerComponentList::new();
    let mut tables: ServerComponentList<u8> = ServerComponentList::new();
    let plots: ServerComponentList<u8> = ServerComponentList::new();
    let m = methods.new_component(0);
    let t = tables.new_component(0);

    assert_eq!(resolve_context(&None, &entities, &tables, &plots), Some(InvokeObj::Document));
    assert_eq!(resolve_context(&Some(InvokeIDType::Table(t)), &entities, &tables, &plots), Some(InvokeObj::Table(t)));
    assert_eq!(resolve_context(&Some(InvokeIDType::Entity(t)), &entities, &tables, &plots), None);

    assert!(find_method_in_state(&m, &Some(vec![NooID::new(5, 5), m])));
    assert!(!find_method_in_state(&m, &None));

    assert_eq!(check_invoke(m, &methods, Some(InvokeObj::Table(t)), &Some(vec![m])).unwrap(), InvokeObj::Table(t));
    let e = check_invoke(m, &methods, Some(InvokeObj::Table(t)), &Some(vec![])).unwrap_err();
    assert_eq!(e.code, -32601);
    assert!(check_invoke(m, &methods, None, &Some(vec![m])).is_err());
    assert!(check_invoke(NooID::new(9, 0), &methods, Some(InvokeObj::Document), &Some(vec![NooID::new(9, 0)])).is_err());

    let reply = method_reply(Some("7".to_string()), Err(MethodException::internal_error(None))).unwrap();
    assert_eq!(reply.invoke_id, "7");
    assert!(reply.result.is_none());
    assert_eq!(reply.method_exception.unwrap().code, -32603);
    assert!(method_reply(None, Ok(Some(CborValue::Integer(1)))).is_none());
}

#[test]
fn table_system_dispatch() {
    let mut methods: ServerComponentList<MethodState<u64>> = ServerComponentList::new();
    let mut signals: ServerComponentList<SignalState<u64>> = ServerComponentList::new();
    let mut broadcast: Vec<CborValue> = Vec::new();
    let init = TableSystemInit::new(&mut methods, &mut signals, &mut broadcast);
    // every method, then every signal, is announced
    assert_eq!(broadcast.len(), 10);
    assert_eq!(broadcast[0], create_record(init.mthd_subscribe, methods.get_data(init.mthd_subscribe).unwrap()));
    assert_eq!(broadcast[9], create_record(init.sig_selection_update, signals.get_data(init.sig_selection_update).unwrap()));
    assert_eq!(methods.get_data(init.mthd_insert).unwrap().name, MTHD_TBL_INSERT);
    assert_eq!(signals.get_data(init.sig_reset).unwrap().name, SIG_TBL_RESET);
    assert_eq!(methods.len(), 6);
    assert_eq!(signals.len(), 4);
    assert!(init.is_table_message(&init.mthd_clear));

    let table = NooID::new(0, 0);
    let rows = CborValue::Array(vec![CborValue::Integer(1)]);
    match decode_table_call(&init, table, &init.mthd_insert, InvokeObj::Table(table), vec![rows, CborValue::Null]).unwrap() {
        TableCall::Insert(r) => assert_eq!(r, vec![vec![CborValue::Integer(1)]]),
        other => panic!("unexpected {other:?}"),
    }
    let keys = CborValue::Array(vec![CborValue::Integer(3)]);
    match decode_table_call(&init, table, &init.mthd_remove, InvokeObj::Table(table), vec![keys]).unwrap() {
        TableCall::Remove(k) => assert_eq!(k, vec![3]),
        other => panic!("unexpected {other:?}"),
    }
    let sel = Selection { name: "s".to_string(), rows: None, row_ranges: None };
    assert!(matches!(
        decode_table_call(&init, table, &init.mthd_update_selection, InvokeObj::Table(table), vec![sel.to_cbor()]),
        Ok(TableCall::UpdateSelection(_))
    ));
    let bad = decode_table_call(&init, table, &init.mthd_clear, InvokeObj::Document, vec![]).unwrap_err();
    assert_eq!(bad.code, -32603);
    assert_eq!(bad.message, Some("Given a bad method to invoke on a table.".to_string()));
    let invalid = decode_table_call(&init, table, &init.mthd_update, InvokeObj::Table(table), vec![CborValue::Null]).unwrap_err();
    assert_eq!(invalid.code, -32602);
    assert!(matches!(translate_return(Some(())), Ok(None)));
    assert_eq!(translate_return(None).unwrap_err().code, -32602);
}

fn texture_vertex_bytes() -> Vec<u8> {
    let verts: Vec<([f32; 3], [f32; 3], [u16; 2])> = vec![
        ([1.0, 2.0, 3.0], [0.0, 1.0, 0.0], [8234, 512]),
        ([4.0, 1.0, 2.0], [1.0, 0.0, 0.0], [27, 743]),
        ([1.0, 1.0, 1.0], [0.0, 0.0, 1.0], [10, 900]),
    ];
    let mut vertex_bytes: Vec<u8> = Vec::new();
    for (p, n, t) in &verts {
        for x in p.iter().chain(n.iter()) {
            vertex_bytes.extend_from_slice(&x.to_ne_bytes());
        }
        for x in t {
            vertex_bytes.extend_from_slice(&x.to_ne_bytes());
        }
    }
    vertex_bytes
}

#[test]
fn common_pack() {
    let mut buffers: ServerComponentList<BufferState> = ServerComponentList::new();
    let mut views: ServerComponentList<BufferViewState<NooID>> = ServerComponentList::new();

    let verts = texture_vertex_bytes();
    let index_list = vec![[0u32, 1, 2]];
    let index = IndexType::Triangles(index_list.as_slice());

    let source = VertexSource {
        name: None,
        vertex: verts.as_slice(),
        vertex_size: 28,
        structure: vertex_texture_structure(),
        index: index.clone(),
    };

    let mut broadcast: Vec<CborValue> = Vec::new();
    let _result = source.build_mesh(&mut buffers, &mut views, &mut broadcast).unwrap();

    let f = buffers.get_data(NooID::new(0, 0)).unwrap();
    let bytes = f.inline_bytes.as_ref().unwrap().bytes();
    let pack_res = copy_bytes(verts.as_slice(), &index).unwrap();
    assert_eq!(bytes, pack_res.bytes.as_slice());
}

#[test]
fn mesh_views_and_attributes() {
    let mut buffers: ServerComponentList<BufferState> = ServerComponentList::new();
    let mut views: ServerComponentList<BufferViewState<NooID>> = ServerComponentList::new();
    let verts = texture_vertex_bytes();
    let index_list = vec![[0u32, 1, 2]];
    let source = VertexSource {
        name: Some("cube".to_string()),
        vertex: verts.as_slice(),
        vertex_size: 28,
        structure: vertex_texture_structure(),
        index: IndexType::Triangles(index_list.as_slice()),
    };
    let mut broadcast: Vec<CborValue> = Vec::new();
    let patch = source.build_mesh(&mut buffers, &mut views, &mut broadcast).unwrap();
    // the buffer and its two views are announced, in the order they were made
    let numbers: Vec<CborValue> = broadcast
        .iter()
        .map(|m| match m {
            CborValue::Array(parts) => parts[0].clone(),
            _ => panic!("not a message"),
        })
        .collect();
    assert_eq!(numbers, vec![CborValue::Integer(10), CborValue::Integer(12), CborValue::Integer(12)]);
    let b = buffers.get_data(NooID::new(0, 0)).unwrap();
    assert_eq!(b.name.as_deref(), Some("cube_buffer"));
    assert_eq!(b.size, 84 + 12);
    assert_eq!(patch.vertex_count, 3);
    assert_eq!(patch.patch_type, PrimitiveType::Triangles);
    assert_eq!(patch.attributes.len(), 3);
    assert_eq!(patch.attributes[2].offset, Some(24));
    assert_eq!(patch.attributes[2].stride, Some(28));
    assert_eq!(patch.attributes[0].view, NooID::new(0, 0));
    let vertex_view = views.get_data(NooID::new(0, 0)).unwrap();
    assert_eq!(vertex_view.length, 84);
    assert_eq!(vertex_view.offset, 0);
    assert_eq!(vertex_view.view_type, BufferViewType::Geometry);
    let idx = patch.indices.unwrap();
    assert_eq!(idx.view, NooID::new(1, 0));
    assert_eq!(idx.count, 3);
    let index_view = views.get_data(NooID::new(1, 0)).unwrap();
    assert_eq!(index_view.offset, 84);
    assert_eq!(index_view.length, 12);

    // unindexed points make one view, and the bytes go where they are told
    let source = VertexSource {
        name: None,
        vertex: verts.as_slice(),
        vertex_size: 28,
        structure: vertex_texture_structure(),
        index: IndexType::UnindexedPoints,
    };
    let url = "http://wombat.com/mesh".to_string();
    let patch = source
        .build_mesh_with(&mut buffers, &mut views, &mut broadcast, |_data| BufferRepresentation::Url(url.clone()))
        .unwrap();
    assert!(patch.indices.is_none());
    assert_eq!(patch.patch_type, PrimitiveType::Points);
    let b = buffers.get_data(NooID::new(1, 0)).unwrap();
    assert!(b.inline_bytes.is_none());
    assert_eq!(b.uri_bytes.as_deref(), Some("http://wombat.com/mesh"));
    assert_eq!(views.len(), 3);
    assert_eq!(broadcast.len(), 5);
}

fn method(name: &str) -> MethodState<u64> {
    MethodState { name: name.to_string(), doc: None, return_doc: None, arg_doc: vec![], state: 0 }
}

#[test]
fn announcements_read_back() {
    let rec = create_record(NooID::new(2, 1), &method("ping"));
    match decode_pack(rec) {
        Some(list) => match &list[..] {
            [FromServer::Create { kind, id, name, .. }] => {
                assert_eq!(*kind, ComponentType::Method);
                assert_eq!(*id, NooID::new(2, 1));
                assert_eq!(name.as_deref(), Some("ping"));
            }
            _ => panic!("one creation"),
        },
        None => panic!("the announcement reads"),
    }
    let rec = delete_record::<MethodState<u64>>(NooID::new(2, 1));
    match decode_pack(rec).unwrap().as_slice() {
        [FromServer::Delete { kind, id }] => {
            assert_eq!(*kind, ComponentType::Method);
            assert_eq!(*id, NooID::new(2, 1));
        }
        _ => panic!("one deletion"),
    }
    let rec = signal_record(NooID::new(0, 0), None, vec![CborValue::Integer(3)]);
    match decode_pack(rec).unwrap().as_slice() {
        [FromServer::MsgSignalInvoke(x)] => {
            assert_eq!(x.id, NooID::new(0, 0));
            assert!(x.context.is_none());
            assert_eq!(x.signal_data, vec![CborValue::Integer(3)]);
        }
        _ => panic!("one signal"),
    }
}

#[test]
fn state_dump_announces_every_component() {
    let mut methods: ServerComponentList<MethodState<u64>> = ServerComponentList::new();
    let a = methods.new_component(method("a"));
    let b = methods.new_component(method("b"));
    let mut pack = methods.dump_state_helper();
    assert_eq!(pack.len(), 4);
    let update = DocumentUpdate { methods_list: Some(vec![a, b]), signals_list: None };
    pack.extend(document_tail(&update));
    let list = decode_pack(CborValue::Array(pack)).unwrap();
    assert_eq!(list.len(), 4);
    match &list[1] {
        FromServer::Create { id, name, .. } => {
            assert_eq!(*id, b);
            assert_eq!(name.as_deref(), Some("b"));
        }
        _ => panic!("a creation"),
    }
    match &list[2] {
        FromServer::MsgDocumentUpdate(u) => assert_eq!(u.methods_list.as_ref().unwrap(), &vec![a, b]),
        _ => panic!("the document"),
    }
    assert!(matches!(list[3], FromServer::MsgDocumentInitialized(_)));
    let rec = document_update_record(&update);
    assert!(matches!(decode_pack(rec).unwrap().as_slice(), [FromServer::MsgDocumentUpdate(_)]));
}
