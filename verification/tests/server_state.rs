use colabrodo::client_messages::{AllClientMessages, ClientIntroductionMessage, ClientInvokeMessage, InvokeIDType};
use colabrodo::components::{BufferState, MethodState, TableState, TableStateUpdatable, ImageState, ImageSource, BufferViewState, BufferViewType, TextureState, SamplerState, MagFilter, MinFilter, SamplerMode};
use colabrodo::nooid::NooID;
use colabrodo::server_communication::{DocumentUpdate, MethodException, MessageMethodReply};
use colabrodo::server_components::{
    EntityRepresentation, RenderRepresentation, ServerEntityState, ServerEntityStateUpdatable, TextRepresentation, WebRepresentation,
};
use colabrodo::server_state::{
    create_component, delete_component, handler_outcome, new_from_whole_buffer, reply_pack, update_component,
    ServerAction, ServerState,
};
use colabrodo::value::CborValue;
use colabrodo::value_tools::{CBORTransform, FromValueError};

fn text(s: &str) -> CborValue {
    CborValue::Text(s.to_string())
}

fn id_value(slot: u32, gen: u32) -> CborValue {
    NooID::new(slot, gen).to_value()
}

fn record(number: i128, fields: Vec<(CborValue, CborValue)>) -> CborValue {
    CborValue::Array(vec![CborValue::Integer(number), CborValue::Dict(fields)])
}

fn method(name: &str) -> MethodState<u32> {
    MethodState { name: name.to_string(), doc: None, return_doc: None, arg_doc: vec![], state: 7 }
}

#[test]
fn server_state_build_server_state() {
    let mut state: ServerState<u32> = ServerState::new();

    // a buffer that nobody keeps goes away again
    let a = create_component(&mut state.buffers, &mut state.broadcast, BufferState::new_from_bytes(vec![10, 10, 25, 25]));
    delete_component(&mut state.buffers, &mut state.broadcast, a);

    let b = create_component(&mut state.buffers, &mut state.broadcast, BufferState::new_from_url("http://wombat.com", 1024));

    let view = new_from_whole_buffer(&state.buffers, b);
    let v = create_component(&mut state.buffer_views, &mut state.broadcast, view);
    delete_component(&mut state.buffer_views, &mut state.broadcast, v);
    delete_component(&mut state.buffers, &mut state.broadcast, b);

    let messages = vec![
        record(
            10,
            vec![
                (text("id"), id_value(0, 0)),
                (text("size"), CborValue::Integer(4)),
                (text("inline_bytes"), CborValue::Bytes(vec![10, 10, 25, 25])),
            ],
        ),
        record(11, vec![(text("id"), id_value(0, 0))]),
        record(
            10,
            vec![
                (text("id"), id_value(0, 1)),
                (text("size"), CborValue::Integer(1024)),
                (text("uri_bytes"), text("http://wombat.com/")),
            ],
        ),
        record(
            12,
            vec![
                (text("id"), id_value(0, 0)),
                (text("source_buffer"), id_value(0, 1)),
                (text("type"), text("UNK")),
                (text("offset"), CborValue::Integer(0)),
                (text("length"), CborValue::Integer(1024)),
            ],
        ),
        record(13, vec![(text("id"), id_value(0, 0))]),
        record(11, vec![(text("id"), id_value(0, 1))]),
    ];

    assert_eq!(state.broadcast, messages, "Messages do not match!");
}

#[test]
fn cascade_delete() {
    let mut state: ServerState<u32> = ServerState::new();

    let a = create_component(
        &mut state.entities,
        &mut state.broadcast,
        ServerEntityState { name: Some("A".to_string()), mutable: ServerEntityStateUpdatable::default() },
    );
    let b = create_component(
        &mut state.entities,
        &mut state.broadcast,
        ServerEntityState {
            name: Some("B".to_string()),
            mutable: ServerEntityStateUpdatable { parent: Some(a), ..Default::default() },
        },
    );
    let c = create_component(
        &mut state.entities,
        &mut state.broadcast,
        ServerEntityState {
            name: Some("C".to_string()),
            mutable: ServerEntityStateUpdatable { parent: Some(b), ..Default::default() },
        },
    );

    // children go before the parents they hang from
    assert!(delete_component(&mut state.entities, &mut state.broadcast, c).is_some());
    assert!(delete_component(&mut state.entities, &mut state.broadcast, b).is_some());
    assert!(delete_component(&mut state.entities, &mut state.broadcast, a).is_some());
    assert_eq!(state.entities.len(), 0);

    let numbers: Vec<CborValue> = state
        .broadcast
        .iter()
        .map(|m| match m {
            CborValue::Array(parts) => parts[0].clone(),
            _ => panic!("Wrong message"),
        })
        .collect();
    assert_eq!(numbers, vec![CborValue::Integer(4), CborValue::Integer(4), CborValue::Integer(4), CborValue::Integer(6), CborValue::Integer(6), CborValue::Integer(6)]);
    assert_eq!(state.broadcast[1], record(
        4,
        vec![(text("id"), id_value(1, 0)), (text("name"), text("B")), (text("parent"), id_value(0, 0))],
    ));
    // a second delete of the same entity tells nobody anything
    assert!(delete_component(&mut state.entities, &mut state.broadcast, a).is_none());
    assert_eq!(state.broadcast.len(), 6);
}

#[test]
fn entity_updates_are_announced_and_applied() {
    let mut state: ServerState<u32> = ServerState::new();
    let e = create_component(
        &mut state.entities,
        &mut state.broadcast,
        ServerEntityState {
            name: Some("A".to_string()),
            mutable: ServerEntityStateUpdatable { tags: Some(vec!["item_a".to_string()]), ..Default::default() },
        },
    );
    let update = ServerEntityStateUpdatable {
        visible: Some(false),
        representation: Some(EntityRepresentation::new_text(TextRepresentation {
            txt: "hi".to_string(),
            font: None,
            height: None,
            width: Some(f64::to_bits(2.0)),
        })),
        ..Default::default()
    };
    assert!(update_component(&mut state.entities, &mut state.broadcast, e, update));
    assert_eq!(
        state.broadcast[1],
        record(
            5,
            vec![
                (text("id"), id_value(0, 0)),
                (
                    text("text_rep"),
                    CborValue::Dict(vec![(text("txt"), text("hi")), (text("width"), CborValue::Float(f64::to_bits(2.0)))]),
                ),
                (text("visible"), CborValue::Bool(false)),
            ],
        )
    );
    let stored = state.entities.get_data(e).unwrap();
    assert_eq!(stored.name.as_deref(), Some("A"));
    assert_eq!(stored.mutable.tags, Some(vec!["item_a".to_string()]));
    assert_eq!(stored.mutable.visible, Some(false));

    // an update for an entity that is gone is dropped
    let gone = NooID::new(5, 0);
    assert!(!update_component(&mut state.entities, &mut state.broadcast, gone, ServerEntityStateUpdatable::default()));
    assert_eq!(state.broadcast.len(), 2);

    let rendered = create_component(
        &mut state.entities,
        &mut state.broadcast,
        ServerEntityState {
            name: None,
            mutable: ServerEntityStateUpdatable {
                representation: Some(EntityRepresentation::new_render(RenderRepresentation { mesh: NooID::new(2, 0), instances: None })),
                transform: Some([f64::to_bits(1.0); 16]),
                ..Default::default()
            },
        },
    );
    match &state.broadcast[2] {
        CborValue::Array(parts) => match &parts[1] {
            CborValue::Dict(fields) => {
                assert_eq!(fields[0], (text("id"), rendered.to_value()));
                assert_eq!(fields[1].0, text("transform"));
                assert_eq!(fields[2], (text("render_rep"), CborValue::Dict(vec![(text("mesh"), id_value(2, 0))])));
            },
            _ => panic!("Wrong message"),
        },
        _ => panic!("Wrong message"),
    }
}

#[test]
fn joining_client_gets_whole_state() {
    let mut state: ServerState<u32> = ServerState::new();
    let m = create_component(&mut state.methods, &mut state.broadcast, method("ping"));
    let t = create_component(
        &mut state.tables,
        &mut state.broadcast,
        TableState { name: Some("T".to_string()), mutable: TableStateUpdatable { meta: None, methods_list: Some(vec![m]), signals_list: None } },
    );
    state.update_document(DocumentUpdate { methods_list: Some(vec![m]), signals_list: None });
    assert_eq!(state.broadcast.len(), 3);
    assert_eq!(state.all_element_count(), 2);

    let intro = AllClientMessages::Intro(ClientIntroductionMessage { client_name: "cli".to_string() });
    match state.handle_client_message(intro) {
        ServerAction::Send(pack) => {
            assert_eq!(pack.len(), 8);
            assert_eq!(pack[0], CborValue::Integer(0));
            assert_eq!(pack[2], CborValue::Integer(28));
            assert_eq!(pack[3], CborValue::Dict(vec![
                (text("id"), t.to_value()),
                (text("name"), text("T")),
                (text("methods_list"), CborValue::Array(vec![m.to_value()])),
            ]));
            assert_eq!(pack[4], CborValue::Integer(31));
            assert_eq!(pack[6], CborValue::Integer(35));
            assert_eq!(pack[7], CborValue::Dict(vec![(text("v"), CborValue::Bool(true))]));
        },
        _ => panic!("expected the state"),
    }
}

fn invoke(method: NooID, context: Option<InvokeIDType>, invoke_id: Option<&str>) -> AllClientMessages {
    AllClientMessages::Invoke(ClientInvokeMessage {
        method,
        context,
        invoke_id: invoke_id.map(|s| s.to_string()),
        args: vec![CborValue::Integer(3)],
    })
}

#[test]
fn invocations_are_checked_before_dispatch() {
    let mut state: ServerState<u32> = ServerState::new();
    let m = create_component(&mut state.methods, &mut state.broadcast, method("ping"));
    let other = create_component(&mut state.methods, &mut state.broadcast, method("pong"));
    let t = create_component(
        &mut state.tables,
        &mut state.broadcast,
        TableState { name: None, mutable: TableStateUpdatable { meta: None, methods_list: Some(vec![m]), signals_list: None } },
    );
    state.update_document(DocumentUpdate { methods_list: Some(vec![other]), signals_list: None });

    // on the table that lists it
    match state.handle_client_message(invoke(m, Some(InvokeIDType::Table(t)), Some("a"))) {
        ServerAction::Dispatch(inv) => {
            assert_eq!(inv.method, m);
            assert_eq!(inv.invoke_id.as_deref(), Some("a"));
            assert_eq!(inv.args, vec![CborValue::Integer(3)]);
        },
        _ => panic!("expected a dispatch"),
    }
    // on the document, which lists the other method
    assert!(matches!(state.handle_client_message(invoke(other, None, None)), ServerAction::Dispatch(_)));

    // the document does not list this one
    let not_found = MethodException::method_not_found(None);
    let expected = reply_pack(Some("b".to_string()), Err(not_found)).unwrap();
    match state.handle_client_message(invoke(m, None, Some("b"))) {
        ServerAction::Send(pack) => assert_eq!(pack, expected),
        _ => panic!("expected a reply"),
    }
    // an entity that does not exist, without asking for a reply
    assert!(matches!(
        state.handle_client_message(invoke(m, Some(InvokeIDType::Entity(NooID::new(0, 0))), None)),
        ServerAction::Nothing
    ));
    // a method that does not exist
    assert!(matches!(
        state.handle_client_message(invoke(NooID::new(9, 0), Some(InvokeIDType::Table(t)), Some("c"))),
        ServerAction::Send(_)
    ));
}

#[test]
fn replies_carry_result_or_exception() {
    let ok = reply_pack(Some("x".to_string()), Ok(Some(CborValue::Integer(5)))).unwrap();
    assert_eq!(ok[0], CborValue::Integer(34));
    let back: MessageMethodReply = colabrodo::value_tools::from_cbor(ok[1].clone()).unwrap();
    assert_eq!(back.invoke_id, "x");
    assert_eq!(back.result, Some(CborValue::Integer(5)));
    assert!(back.method_exception.is_none());

    assert!(reply_pack(None, Ok(None)).is_none());

    match handler_outcome(None) {
        Err(e) => assert_eq!(e.code, -32603),
        Ok(_) => panic!("expected an internal error"),
    }
    assert!(matches!(handler_outcome(Some(Ok(None))), Ok(None)));
}

#[test]
fn signals_and_images_are_announced() {
    let mut state: ServerState<u32> = ServerState::new();
    state.issue_signal(NooID::new(1, 0), None, vec![CborValue::Integer(1)]);
    assert_eq!(
        state.broadcast[0],
        CborValue::Array(vec![
            CborValue::Integer(33),
            CborValue::Dict(vec![(text("id"), id_value(1, 0)), (text("signal_data"), CborValue::Array(vec![CborValue::Integer(1)]))]),
        ])
    );
    let img = create_component(&mut state.images, &mut state.broadcast, ImageState::new_from_url("http://wombat.com/a.png"));
    assert_eq!(
        state.broadcast[1],
        record(17, vec![(text("id"), img.to_value()), (text("uri_source"), text("http://wombat.com/a.png"))])
    );
}

#[test]
fn urls_are_checked_before_use() {
    let img = ImageState::<NooID>::try_new_from_url("http://wombat.com/a.png").unwrap();
    assert_eq!(img.source.uri_source().as_deref(), Some("http://wombat.com/a.png"));
    assert!(img.source.buffer_source().is_none());
    assert!(ImageState::<NooID>::try_new_from_url("not a url").is_none());

    let src = ImageSource::<NooID>::try_new_uri("HTTP://Wombat.com").unwrap();
    assert_eq!(src.uri_source().as_deref(), Some("http://wombat.com/"));
    assert!(ImageSource::<NooID>::try_new_uri("").is_none());

    let web = WebRepresentation::try_new("https://example.org/page").unwrap();
    assert_eq!(web.source, "https://example.org/page");
    assert!(web.height.is_none() && web.width.is_none());
    assert!(WebRepresentation::try_new("relative/page").is_none());

    let buf = BufferState::try_new_from_url("http://wombat.com", 8).unwrap();
    assert_eq!(buf.uri_bytes.as_deref(), Some("http://wombat.com/"));
    assert!(BufferState::try_new_from_url("::", 8).is_none());
}

#[test]
fn removal_keeps_creation_order() {
    let mut state: ServerState<u32> = ServerState::new();
    let a = create_component(&mut state.buffers, &mut state.broadcast, BufferState::new_from_bytes(vec![1]));
    let b = create_component(&mut state.buffers, &mut state.broadcast, BufferState::new_from_bytes(vec![2]));
    let c = create_component(&mut state.buffers, &mut state.broadcast, BufferState::new_from_bytes(vec![3]));
    assert!(delete_component(&mut state.buffers, &mut state.broadcast, a).is_some());
    assert_eq!(state.buffers.ids(), vec![b, c]);
    let d = create_component(&mut state.buffers, &mut state.broadcast, BufferState::new_from_bytes(vec![4]));
    assert_eq!(d, NooID::new(0, 1));
    assert_eq!(state.buffers.ids(), vec![b, c, d]);
    let dump = state.dump_state();
    let ids: Vec<CborValue> = dump
        .iter()
        .filter_map(|v| match v {
            CborValue::Dict(fields) => fields.iter().find(|(k, _)| *k == text("id")).map(|(_, v)| v.clone()),
            _ => None,
        })
        .collect();
    assert_eq!(ids[0..3].to_vec(), vec![b.to_value(), c.to_value(), d.to_value()]);
}

#[test]
fn buffer_state_serde() {
    let rep = BufferState::new_from_bytes(vec![10, 11, 12]);
    let pack = rep.to_cbor();
    let other = BufferState::try_from_cbor(pack).expect("Pack");
    assert_eq!(rep, other);
}

#[test]
fn buffer_state_serde_url() {
    let rep = BufferState::new_from_url("http://wombat.com", 1024);
    let pack = rep.to_cbor();
    let other = BufferState::try_from_cbor(pack).expect("Pack");
    assert_eq!(rep, other);
}

#[test]
fn buffer_state_reading_reports_errors() {
    let missing = CborValue::Dict(vec![(text("name"), text("b"))]);
    assert!(matches!(BufferState::try_from_cbor(missing), Err(FromValueError::MissingField(f)) if f == "size"));
    let negative = CborValue::Dict(vec![(text("size"), CborValue::Integer(-1))]);
    assert!(matches!(BufferState::try_from_cbor(negative), Err(FromValueError::IntegerCast)));
    assert!(matches!(BufferState::try_from_cbor(CborValue::Integer(3)), Err(FromValueError::WrongType { .. })));
    let plain = BufferState::try_from_cbor(CborValue::Dict(vec![(text("size"), CborValue::Integer(7))])).unwrap();
    assert_eq!(plain, BufferState { name: None, size: 7, inline_bytes: None, uri_bytes: None });
}

#[test]
fn buffer_views_and_textures_read_back() {
    let view = BufferViewState {
        name: Some("v".to_string()),
        source_buffer: NooID::new(2, 1),
        view_type: BufferViewType::Geometry,
        offset: 16,
        length: 64,
    };
    let back = BufferViewState::<NooID>::try_from_cbor(view.to_cbor()).unwrap();
    assert_eq!(back.name.as_deref(), Some("v"));
    assert_eq!(back.source_buffer, NooID::new(2, 1));
    assert_eq!(back.view_type, BufferViewType::Geometry);
    assert_eq!((back.offset, back.length), (16, 64));

    let bad_type = CborValue::Dict(vec![
        (text("source_buffer"), id_value(0, 0)),
        (text("type"), text("SOUND")),
        (text("offset"), CborValue::Integer(0)),
        (text("length"), CborValue::Integer(0)),
    ]);
    assert!(matches!(BufferViewState::<NooID>::try_from_cbor(bad_type), Err(FromValueError::WrongType { .. })));

    let tex = TextureState { name: None, image: NooID::new(1, 0), sampler: Some(NooID::new(3, 2)) };
    let back = TextureState::<NooID, NooID>::try_from_cbor(tex.to_cbor()).unwrap();
    assert!(back.name.is_none());
    assert_eq!(back.image, NooID::new(1, 0));
    assert_eq!(back.sampler, Some(NooID::new(3, 2)));
}

#[test]
fn samplers_read_back() {
    let s = SamplerState {
        name: Some("s".to_string()),
        mag_filter: Some(MagFilter::Linear),
        min_filter: Some(MinFilter::LinearMipmapLinear),
        wrap_s: Some(SamplerMode::MirrorRepeat),
        wrap_t: None,
    };
    let back = SamplerState::try_from_cbor(s.to_cbor()).unwrap();
    assert_eq!(back.name.as_deref(), Some("s"));
    assert_eq!(back.mag_filter, Some(MagFilter::Linear));
    assert_eq!(back.min_filter, Some(MinFilter::LinearMipmapLinear));
    assert_eq!(back.wrap_s, Some(SamplerMode::MirrorRepeat));
    assert_eq!(back.wrap_t, None);
    let bad = CborValue::Dict(vec![(text("wrap_t"), text("SPIRAL"))]);
    assert!(SamplerState::try_from_cbor(bad).is_err());
}
