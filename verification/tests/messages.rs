use colabrodo::client_messages::{
    AllClientMessages, ClientIntroductionMessage, ClientInvokeMessage, ClientRootMessage, InvokeIDType,
};
use colabrodo::common::{ClientMessages, ComponentType, MessageArchType, ServerMessages};
use colabrodo::nooid::NooID;
use colabrodo::root_message::{push_next, split_root_message, RootMessageError};
use colabrodo::server_communication::{ExceptionCodes, MethodException};
use colabrodo::types::ByteBuff;
use colabrodo::value::CborValue;
use colabrodo::value_tools::{from_cbor, from_cbor_list, CBORTransform, FromValueError};

fn text(s: &str) -> CborValue {
    CborValue::Text(s.to_string())
}

#[test]
fn test_intro_messages() {
    let intro_message = ClientIntroductionMessage { client_name: "test_name".to_string() };

    let packed = intro_message.to_cbor();

    let read: ClientIntroductionMessage = from_cbor(packed).unwrap();

    assert!(intro_message == read);
}

#[test]
fn test_invoke_messages() {
    let m = ClientInvokeMessage {
        method: NooID::new_with_slot(1),
        context: Some(InvokeIDType::Table(NooID::new_with_slot(10))),
        ..Default::default()
    };

    let packed = m.to_cbor();

    let read: ClientInvokeMessage = from_cbor(packed).unwrap();

    assert!(m == read);
}

#[test]
fn bytes_serde() {
    let to_pack = ByteBuff::new(vec![10, 11, 12]);

    let packed = to_pack.to_cbor();

    let other: ByteBuff = match from_cbor(packed) {
        Ok(x) => x,
        Err(x) => panic!("Unpack failed: {x:?}"),
    };

    assert_eq!(to_pack, other);
}

#[test]
fn intro_message_wire_form() {
    let m = ClientIntroductionMessage { client_name: "cli".to_string() };
    assert_eq!(m.to_cbor(), CborValue::Dict(vec![(text("client_name"), text("cli"))]));
}

#[test]
fn invoke_target_reads_first_entry_only() {
    let id = NooID::new(3, 4);
    let v = CborValue::Dict(vec![
        (text("plot"), id.to_value()),
        (text("entity"), NooID::new(9, 9).to_value()),
    ]);
    let t: InvokeIDType = from_cbor(v).unwrap();
    assert_eq!(t, InvokeIDType::Plot(id));

    let unknown = CborValue::Dict(vec![(text("robot"), id.to_value())]);
    assert!(matches!(from_cbor::<InvokeIDType>(unknown), Err(FromValueError::MissingField(_))));

    let empty = CborValue::Dict(vec![]);
    assert!(matches!(from_cbor::<InvokeIDType>(empty), Err(FromValueError::MissingField(_))));
}

#[test]
fn invoke_message_requires_method_and_args() {
    let no_args = CborValue::Dict(vec![(text("method"), NooID::new(1, 0).to_value())]);
    match from_cbor::<ClientInvokeMessage>(no_args) {
        Err(FromValueError::MissingField(f)) => assert_eq!(f, "args"),
        other => panic!("unexpected {other:?}"),
    }
}

#[test]
fn client_root_message_round_trip() {
    let root = ClientRootMessage {
        list: vec![
            AllClientMessages::Intro(ClientIntroductionMessage { client_name: "a".to_string() }),
            AllClientMessages::Invoke(ClientInvokeMessage {
                method: NooID::new(2, 1),
                context: None,
                invoke_id: Some("42".to_string()),
                args: vec![CborValue::Integer(7)],
            }),
        ],
    };
    let values = root.to_values();
    assert_eq!(values.len(), 4);
    assert_eq!(values[0], CborValue::Integer(0));
    assert_eq!(values[2], CborValue::Integer(1));
    let back = ClientRootMessage::from_values(values).unwrap();
    assert_eq!(back.list.len(), 2);
    match &back.list[1] {
        AllClientMessages::Invoke(m) => {
            assert_eq!(m.method, NooID::new(2, 1));
            assert_eq!(m.invoke_id, Some("42".to_string()));
            assert_eq!(m.args, vec![CborValue::Integer(7)]);
        }
        _ => panic!("expected an invocation"),
    }
}

#[test]
fn client_root_message_errors() {
    let unknown = vec![CborValue::Integer(5), CborValue::Dict(vec![])];
    assert!(matches!(ClientRootMessage::from_values(unknown), Err(FromValueError::WrongType { .. })));

    let missing = vec![CborValue::Integer(0)];
    match ClientRootMessage::from_values(missing) {
        Err(FromValueError::MissingField(f)) => assert_eq!(f, "Missing content!"),
        _ => panic!("expected a missing content error"),
    }

    let too_big = vec![CborValue::Integer(1i128 << 40), CborValue::Dict(vec![])];
    assert!(matches!(ClientRootMessage::from_values(too_big), Err(FromValueError::IntegerCast)));
}

#[test]
fn server_message_numbers() {
    assert_eq!(ServerMessages::MsgEntityCreate.to_u32(), 4);
    assert_eq!(ServerMessages::from_u32(34), Some(ServerMessages::MsgMethodReply));
    assert_eq!(ServerMessages::from_u32(36), None);
    assert_eq!(ServerMessages::from_u32(255), Some(ServerMessages::Unknown));
    assert_eq!(ServerMessages::MsgTableUpdate.arch_type(), MessageArchType::Update);
    assert_eq!(ServerMessages::MsgTableUpdate.component_type(), ComponentType::Table);
    assert_eq!(ServerMessages::MsgSignalInvoke.arch_type(), MessageArchType::Other);
    assert_eq!(ServerMessages::MsgSignalInvoke.component_type(), ComponentType::NoComponent);
    assert_eq!(ClientMessages::from_u32(1), Some(ClientMessages::MsgClientInvoke));
    assert_eq!(ClientMessages::MsgClientIntro.to_u32(), 0);
}

#[test]
fn split_server_pack() {
    let content = CborValue::Dict(vec![(text("id"), NooID::new(0, 0).to_value())]);
    let values = vec![CborValue::Integer(0), content.clone(), CborValue::Integer(6), content.clone()];
    let split = split_root_message(values).unwrap();
    assert_eq!(split.len(), 2);
    assert_eq!(split[0].0, ServerMessages::MsgMethodCreate);
    assert_eq!(split[1].0, ServerMessages::MsgEntityDelete);
    assert_eq!(split[1].1, content);

    // a number that names no message ends the pack
    let stop = vec![CborValue::Integer(0), content.clone(), CborValue::Integer(99), content.clone(), CborValue::Integer(1)];
    assert_eq!(split_root_message(stop).unwrap().len(), 1);

    assert_eq!(split_root_message(vec![CborValue::Integer(255), content.clone()]).unwrap_err(), RootMessageError::UnknownId);
    assert_eq!(split_root_message(vec![CborValue::Integer(3)]).unwrap_err(), RootMessageError::MissingContent);
    assert_eq!(split_root_message(vec![text("3")]).unwrap_err(), RootMessageError::InvalidId);
    assert_eq!(push_next(ServerMessages::MsgPlotCreate, None).unwrap_err(), RootMessageError::MissingContent);
}

#[test]
fn nooid_generations() {
    let a = NooID::new_with_slot(7);
    assert_eq!(a.slot(), 7);
    assert_eq!(a.gen(), 0);
    let b = NooID::next_generation(a);
    assert_eq!(b, NooID::new(7, 1));
    assert!(!a.valid());
    assert!(NooID::new(u32::MAX, 0).valid());
    assert!(NooID::default().valid());
    assert_eq!(NooID::new(1, 2).key(), (1u64 << 32) + 2);
    assert_eq!(NooID::from_value(&NooID::new(5, 6).to_value()), Some(NooID::new(5, 6)));
    assert_eq!(NooID::from_value(&CborValue::Array(vec![CborValue::Integer(-1), CborValue::Integer(0)])), None);
}

#[test]
fn method_exception_wire_form() {
    let e = MethodException::method_not_found(Some("gone".to_string()));
    assert_eq!(e.code, -32601);
    assert_eq!(ExceptionCodes::InternalError.code(), -32603);
    assert_eq!(ExceptionCodes::ParseError.code(), -32700);
    let packed = e.to_cbor();
    let back: MethodException = from_cbor(packed).unwrap();
    assert_eq!(back.code, -32601);
    assert_eq!(back.message, Some("gone".to_string()));
    assert_eq!(back.data, None);
    assert_eq!(MethodException::internal_error(None).code, -32603);
    assert_eq!(MethodException::invalid_parameters().code, -32602);
}

#[test]
fn cbor_list_skips_failures() {
    let list = vec![CborValue::Integer(1), text("x"), CborValue::Integer(3)];
    let read: Vec<i64> = from_cbor_list(list).unwrap();
    assert_eq!(read, vec![1, 3]);
}

#[test]
fn fixed_arrays_read_their_first_items() {
    let v = CborValue::Array(vec![CborValue::Integer(1), CborValue::Integer(2), CborValue::Integer(3)]);
    let a: [u32; 2] = <[u32; 2]>::try_from_cbor(v).unwrap();
    assert_eq!(a, [1, 2]);
    assert_eq!(a.to_cbor(), CborValue::Array(vec![CborValue::Integer(1), CborValue::Integer(2)]));

    let short = CborValue::Array(vec![CborValue::Integer(1)]);
    assert!(matches!(<[u32; 2]>::try_from_cbor(short), Err(FromValueError::ArrayUnderflow)));

    match <[u32; 2]>::try_from_cbor(CborValue::Integer(4)) {
        Err(FromValueError::WrongType { expected, found }) => {
            assert_eq!(expected, "Array");
            assert_eq!(found, "Integer");
        }
        other => panic!("unexpected {:?}", other),
    }

    let bad = CborValue::Array(vec![CborValue::Integer(1), CborValue::Text("x".to_string())]);
    assert!(<[u32; 2]>::try_from_cbor(bad).is_err());
}
