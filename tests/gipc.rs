use ipc::api_method::{ApiMethod, MethodKind};
use ipc::message::{Error, GipcMessage, OpCode};
use ipc::rpc::{pb_de, pb_ser, Error as RpcError};
use ipc::server_builder::{BuildServerError, ServerBuilder};

/// The protobuf encoding of a message whose field 1 is the string `name`.
fn hello_request_bytes(name: &str) -> Vec<u8> {
    let mut bytes = vec![0x0a, name.len() as u8];
    bytes.extend_from_slice(name.as_bytes());
    bytes
}

#[test]
fn can_serialize_and_deserialize_messages() {
    let payload = hello_request_bytes("moo horses");
    let message = GipcMessage { op_code: OpCode::RequestStart, data: Some(payload.clone()) };

    let bytes = message.to_bytes();
    assert_eq!(bytes[0], 0);
    assert_eq!(&bytes[1..], payload.as_slice());

    let message = GipcMessage::from_bytes(bytes.as_slice()).unwrap();
    assert_eq!(message.op_code, OpCode::RequestStart);
    let data = message.data.unwrap();
    assert_eq!(&data[2..], "moo horses".as_bytes());
}

#[test]
fn op_codes_round_trip_through_their_bytes() {
    for op in [OpCode::RequestStart, OpCode::Continuation, OpCode::EndOfStream, OpCode::EndOfChannel] {
        assert_eq!(OpCode::from_u8(op.as_u8()), Ok(op));
    }
    assert_eq!(OpCode::from_u8(0), Ok(OpCode::RequestStart));
    assert_eq!(OpCode::from_u8(1), Ok(OpCode::Continuation));
    assert_eq!(OpCode::from_u8(2), Ok(OpCode::EndOfStream));
    assert_eq!(OpCode::from_u8(3), Ok(OpCode::EndOfChannel));
    assert_eq!(OpCode::from_u8(4), Err(Error::InvalidOpCode(4)));
    assert_eq!(OpCode::from_u8(255), Err(Error::InvalidOpCode(255)));
}

#[test]
fn message_errors() {
    assert_eq!(GipcMessage::from_bytes(&[9, 1, 2]).err(), Some(Error::InvalidOpCode(9)));
    assert_eq!(GipcMessage::from_bytes(&[2, 1]).err(), Some(Error::OpCodeShouldHaveNoData));
    assert_eq!(GipcMessage::from_bytes(&[3, 0]).err(), Some(Error::OpCodeShouldHaveNoData));
}

#[test]
fn messages_without_data() {
    let end = GipcMessage::from_bytes(&[2]).unwrap();
    assert_eq!(end.op_code, OpCode::EndOfStream);
    assert!(end.data.is_none());
    assert_eq!(end.to_bytes(), vec![2]);

    let close = GipcMessage { op_code: OpCode::EndOfChannel, data: None };
    assert_eq!(close.to_bytes(), vec![3]);

    let empty = GipcMessage::from_bytes(&[1]).unwrap();
    assert_eq!(empty.op_code, OpCode::Continuation);
    assert_eq!(empty.data, Some(vec![]));
}

#[test]
fn api_methods_compare_by_name_and_kind() {
    let a = ApiMethod::new("/helloworld.Greeter/SayHello", MethodKind::Unary);
    let b = ApiMethod::new("/helloworld.Greeter/SayHello", MethodKind::Unary);
    let c = ApiMethod::new("/helloworld.Greeter/SayHello", MethodKind::Duplex);
    let d = ApiMethod::new("/helloworld.Greeter/SayBye", MethodKind::Unary);
    assert!(a == b);
    assert!(a != c);
    assert!(a != d);
    assert!(MethodKind::ClientStreaming == MethodKind::ClientStreaming);
    assert!(MethodKind::ClientStreaming != MethodKind::ServerStreaming);
}

#[test]
fn server_needs_a_bound_name() {
    let builder: ServerBuilder<u32> = ServerBuilder::new();
    assert_eq!(builder.build().err(), Some(BuildServerError::NoIpcIdSpecified));
}

#[test]
fn server_keeps_its_configuration() {
    let server = ServerBuilder::new()
        .add_unary_method("a", 1u32)
        .add_unary_method("b", 2u32)
        .add_unary_method("a", 3u32)
        .thread_pool_size(4)
        .bind("horse")
        .build()
        .ok()
        .unwrap();
    assert_eq!(server.ipc_id, "horse");
    assert_eq!(server.thread_pool_size, 4);
    assert_eq!(server.unary_methods.len(), 2);
    assert!(server.unary_methods.contains(&("a".to_owned(), 3)));
    assert!(server.unary_methods.contains(&("b".to_owned(), 2)));
}

#[test]
fn default_pool_size_comes_from_the_machine() {
    let server = ServerBuilder::<u32>::new().bind("x").build().ok().unwrap();
    assert!(server.thread_pool_size >= 1);
    assert!(server.unary_methods.is_empty());
}

#[test]
fn placeholder_marshalling() {
    let mut buf = vec![1u8, 2];
    pb_ser(&5u32, &mut buf);
    assert_eq!(buf, vec![1, 2]);
    assert_eq!(pb_de::<u32>(&[1, 2, 3]), Err(RpcError::Horse));
}
