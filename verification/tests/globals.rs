use avm_engine::script_object::{Avm1, NativeFunction, NativeObject, ScriptObject, Sockets};
use avm_engine::value::Value;
use avm_engine::{netconnection, xml_socket};
use avm_engine::xml_socket::XmlSocket;

fn session_with_plain_object() -> (Avm1, u64) {
    let mut context = Avm1::new();
    let id = context.add_object(ScriptObject::new());
    (context, id)
}

#[test]
fn netconnection_starts_disconnected() {
    let (mut context, this) = session_with_plain_object();
    let args: Vec<Value> = Vec::new();
    let result = netconnection::constructor(&mut context, this, &args);
    assert_eq!(result, Value::Object(this));
    assert_eq!(
        netconnection::is_connected(&context, this, &args),
        Value::Bool(false)
    );
}

#[test]
fn netconnection_connect_records_the_state() {
    let (mut context, this) = session_with_plain_object();
    let args: Vec<Value> = Vec::new();
    netconnection::constructor(&mut context, this, &args);
    assert_eq!(
        netconnection::connect(&mut context, this, &args),
        Value::Undefined
    );
    assert_eq!(
        netconnection::is_connected(&context, this, &args),
        Value::Bool(true)
    );
}

#[test]
fn netconnection_stub_properties() {
    let (context, this) = session_with_plain_object();
    let args: Vec<Value> = Vec::new();
    assert_eq!(
        netconnection::protocol(&context, this, &args),
        Value::Str(String::new())
    );
    assert_eq!(netconnection::uri(&context, this, &args), Value::Str(String::new()));
    assert_eq!(netconnection::call(&context, this, &args), Value::Undefined);
    assert_eq!(netconnection::close(&context, this, &args), Value::Undefined);
}

#[test]
fn netconnection_is_connected_before_construction() {
    let (context, this) = session_with_plain_object();
    let args: Vec<Value> = Vec::new();
    assert_eq!(
        netconnection::is_connected(&context, this, &args),
        Value::Undefined
    );
}

#[test]
fn xml_socket_constructor_attaches_default_state() {
    let (mut context, this) = session_with_plain_object();
    let args: Vec<Value> = Vec::new();
    assert_eq!(
        xml_socket::constructor(&mut context, this, &args),
        Value::Object(this)
    );
    assert_eq!(
        xml_socket::get_timeout(&context, this, &args),
        Value::Number(20000)
    );
}

#[test]
fn xml_socket_set_timeout_coerces_to_u32() {
    let (mut context, this) = session_with_plain_object();
    let args: Vec<Value> = Vec::new();
    xml_socket::constructor(&mut context, this, &args);
    let set_args = vec![Value::Number(250)];
    xml_socket::set_timeout(&mut context, this, &set_args);
    assert_eq!(
        xml_socket::get_timeout(&context, this, &args),
        Value::Number(250)
    );
    let negative = vec![Value::Number(-1)];
    xml_socket::set_timeout(&mut context, this, &negative);
    assert_eq!(
        xml_socket::get_timeout(&context, this, &args),
        Value::Number(4294967295)
    );
    let absent: Vec<Value> = Vec::new();
    xml_socket::set_timeout(&mut context, this, &absent);
    assert_eq!(xml_socket::get_timeout(&context, this, &args), Value::Number(0));
}

#[test]
fn xml_socket_timeout_without_socket_is_undefined() {
    let (context, this) = session_with_plain_object();
    let args: Vec<Value> = Vec::new();
    assert_eq!(xml_socket::get_timeout(&context, this, &args), Value::Undefined);
}

#[test]
fn xml_socket_close_releases_the_handle() {
    let mut context = Avm1::new();
    let mut socket = XmlSocket::new();
    assert_eq!(socket.set_handle(5), None);
    assert_eq!(socket.handle(), Some(5));
    let this = context.add_object(ScriptObject {
        proto: None,
        properties: Vec::new(),
        native: NativeObject::XmlSocket(socket),
    });
    context.sockets.open(5);
    context.sockets.open(6);
    let args: Vec<Value> = Vec::new();
    assert_eq!(xml_socket::close(&mut context, this, &args), Value::Undefined);
    assert!(!context.sockets.is_open(5));
    assert!(context.sockets.is_open(6));
}

#[test]
fn xml_socket_close_without_handle_changes_nothing() {
    let (mut context, this) = session_with_plain_object();
    let args: Vec<Value> = Vec::new();
    xml_socket::constructor(&mut context, this, &args);
    context.sockets.open(9);
    xml_socket::close(&mut context, this, &args);
    assert!(context.sockets.is_open(9));
}

#[test]
fn xml_socket_connect_and_send_are_inert() {
    let (mut context, this) = session_with_plain_object();
    let args: Vec<Value> = Vec::new();
    xml_socket::constructor(&mut context, this, &args);
    let connect_args = vec![Value::Str("localhost".to_string()), Value::Number(8080)];
    assert_eq!(
        xml_socket::connect(&context, this, &connect_args),
        Value::Undefined
    );
    let send_args = vec![Value::Str("<hello/>".to_string())];
    assert_eq!(xml_socket::send(&context, this, &send_args), Value::Undefined);
}

#[test]
fn xml_socket_cast_distinguishes_objects() {
    let mut context = Avm1::new();
    let plain = context.add_object(ScriptObject::new());
    let with_socket = context.add_object(ScriptObject {
        proto: None,
        properties: Vec::new(),
        native: NativeObject::XmlSocket(XmlSocket::new()),
    });
    assert!(XmlSocket::cast(&context, &Value::Object(plain)).is_none());
    assert!(XmlSocket::cast(&context, &Value::Object(with_socket)).is_some());
    assert!(XmlSocket::cast(&context, &Value::Number(0)).is_none());
    assert!(XmlSocket::cast(&context, &Value::Object(99)).is_none());
}

#[test]
fn sockets_track_open_handles() {
    let mut sockets = Sockets::new();
    assert!(!sockets.is_open(1));
    sockets.open(1);
    sockets.open(2);
    assert!(sockets.is_open(1));
    sockets.close(1);
    assert!(!sockets.is_open(1));
    assert!(sockets.is_open(2));
}

#[test]
fn netconnection_create_proto_declares_the_interface() {
    let mut context = Avm1::new();
    let object_proto = context.add_object(ScriptObject::new());
    let fn_proto = context.add_object(ScriptObject::new());
    let proto = netconnection::create_proto(&mut context, object_proto, fn_proto);
    let proto_object = &context.objects[proto as usize];
    assert_eq!(proto_object.proto, Some(object_proto));
    assert_eq!(proto_object.properties.len(), 6);
    assert_eq!(proto_object.properties[0].name, "isConnected");
    assert!(!proto_object.properties[0].dont_delete);
    assert_eq!(proto_object.properties[5].name, "connect");
    assert!(proto_object.properties[5].dont_enum);
    match proto_object.properties[4].value {
        Value::Object(handle) => match context.objects[handle as usize].native {
            NativeObject::Function(NativeFunction::NetConnectionClose) => (),
            ref other => panic!("close is bound to {:?}", other),
        },
        ref other => panic!("close is not a function object: {:?}", other),
    }
}

#[test]
fn netconnection_create_class_binds_the_prototype() {
    let mut context = Avm1::new();
    let object_proto = context.add_object(ScriptObject::new());
    let fn_proto = context.add_object(ScriptObject::new());
    let proto = netconnection::create_proto(&mut context, object_proto, fn_proto);
    let class = netconnection::create_class(&mut context, proto, fn_proto);
    let class_object = &context.objects[class as usize];
    assert!(matches!(
        class_object.native,
        NativeObject::Function(NativeFunction::NetConnectionConstructor)
    ));
    assert_eq!(class_object.properties.len(), 1);
    assert_eq!(class_object.properties[0].name, "prototype");
    assert_eq!(class_object.properties[0].value, Value::Object(proto));
}
