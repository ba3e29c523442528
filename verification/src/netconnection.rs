use crate::script_object::{
    function_object, lemma_find_congruent, lemma_find_extended, spec_find_property,
    spec_function_object, spec_get_property, spec_property_binds, spec_props_defined, Avm1,
    NativeFunction, NativeObject, Property, ScriptObject,
};
use crate::value::Value;
use vstd::prelude::*;

verus! {

/// The hidden property under which the connection state is kept.
pub const ISCONNECTED_INTERNAL: &'static str = "_isConnected";

/// Construct the connection object: record the connection state as a
/// hidden, undeletable property that starts out `false`.
pub fn constructor(context: &mut Avm1, this: u64, _args: &Vec<Value>) -> (res: Value)
    requires
        this < old(context).objects@.len(),
    ensures
        final(context).sockets == old(context).sockets,
        final(context).objects@.len() == old(context).objects@.len(),
        forall|j: int|
            0 <= j < old(context).objects@.len() && j != this ==> final(context).objects@[j]
                == old(context).objects@[j],
        final(context).objects@[this as int].proto == old(context).objects@[this as int].proto,
        final(context).objects@[this as int].native == old(context).objects@[this as int].native,
        spec_props_defined(
            old(context).objects@[this as int].properties@,
            final(context).objects@[this as int].properties@,
            "_isConnected"@,
            Value::Bool(false),
            true,
            true,
        ),
        res == Value::Object(this),
{
    let count: usize = context.objects.len();
    proof {
        assert(this < count);
    }
    let idx: usize = this as usize;
    context.objects[idx].define_value(ISCONNECTED_INTERNAL, Value::Bool(false), true, true);
    Value::Object(this)
}

/// The `isConnected` property getter: the recorded connection state, or
/// `Undefined` before the constructor ran.
pub fn is_connected(context: &Avm1, this: u64, _args: &Vec<Value>) -> (res: Value)
    requires
        this < context.objects@.len(),
    ensures
        res == spec_get_property(context.objects@[this as int].properties@, "_isConnected"@),
{
    let count: usize = context.objects.len();
    proof {
        assert(this < count);
    }
    let idx: usize = this as usize;
    context.objects[idx].get(ISCONNECTED_INTERNAL)
}

/// The `protocol` property getter: this connection model speaks no real
/// protocol, so the name is empty.
pub fn protocol(_context: &Avm1, _this: u64, _args: &Vec<Value>) -> (res: Value)
    ensures
        res matches Value::Str(s) && s@ == Seq::<char>::empty(),
{
    Value::Str(String::new())
}

/// The `uri` property getter: no connection target is recorded, so the
/// URI is empty.
pub fn uri(_context: &Avm1, _this: u64, _args: &Vec<Value>) -> (res: Value)
    ensures
        res matches Value::Str(s) && s@ == Seq::<char>::empty(),
{
    Value::Str(String::new())
}

/// Invoke a remote method.  Remote invocation is not part of this model,
/// so the call yields `Undefined`.
pub fn call(_context: &Avm1, _this: u64, _args: &Vec<Value>) -> (res: Value)
    ensures
        res == Value::Undefined,
{
    Value::Undefined
}

/// Close the connection.  There is no transport below this model, so the
/// call yields `Undefined` and changes nothing.
pub fn close(_context: &Avm1, _this: u64, _args: &Vec<Value>) -> (res: Value)
    ensures
        res == Value::Undefined,
{
    Value::Undefined
}

/// Open the connection: record the connection state as `true`.
pub fn connect(context: &mut Avm1, this: u64, _args: &Vec<Value>) -> (res: Value)
    requires
        this < old(context).objects@.len(),
    ensures
        final(context).sockets == old(context).sockets,
        final(context).objects@.len() == old(context).objects@.len(),
        forall|j: int|
            0 <= j < old(context).objects@.len() && j != this ==> final(context).objects@[j]
                == old(context).objects@[j],
        final(context).objects@[this as int].proto == old(context).objects@[this as int].proto,
        final(context).objects@[this as int].native == old(context).objects@[this as int].native,
        spec_get_property(final(context).objects@[this as int].properties@, "_isConnected"@)
            == Value::Bool(true),
        res == Value::Undefined,
{
    let count: usize = context.objects.len();
    proof {
        assert(this < count);
    }
    let idx: usize = this as usize;
    let ghost old_props = context.objects@[idx as int].properties@;
    context.objects[idx].set(ISCONNECTED_INTERNAL, Value::Bool(true));
    proof {
        let new_props = context.objects@[this as int].properties@;
        match spec_find_property(old_props, "_isConnected"@) {
            Some(i) => {
                lemma_find_congruent(old_props, new_props, "_isConnected"@, 0);
            },
            None => {
                lemma_find_extended(old_props, new_props, "_isConnected"@, 0);
            },
        }
    }
    Value::Undefined
}

/// Build the connection prototype: one function object per declared
/// handler or method, and a prototype object binding the declared names
/// to them.  `isConnected`, `protocol` and `uri` back properties;
/// `call`, `close` and `connect` are methods, hidden from enumeration
/// and undeletable.  Returns the handle of the prototype object.
pub fn create_proto(context: &mut Avm1, proto: u64, fn_proto: u64) -> (res: u64)
    requires
        old(context).objects@.len() + 7 <= u64::MAX,
    ensures
        final(context).sockets == old(context).sockets,
        final(context).objects@.len() == old(context).objects@.len() + 7,
        forall|j: int|
            0 <= j < old(context).objects@.len() ==> final(context).objects@[j] == old(
                context,
            ).objects@[j],
        ({
            let base = old(context).objects@.len() as int;
            let objects = final(context).objects@;
            let props = objects[base + 6].properties@;
            &&& res == base + 6
            &&& spec_function_object(
                objects[base + 0],
                NativeFunction::NetConnectionIsConnected,
                fn_proto,
            )
            &&& spec_function_object(
                objects[base + 1],
                NativeFunction::NetConnectionProtocol,
                fn_proto,
            )
            &&& spec_function_object(objects[base + 2], NativeFunction::NetConnectionUri, fn_proto)
            &&& spec_function_object(objects[base + 3], NativeFunction::NetConnectionCall, fn_proto)
            &&& spec_function_object(
                objects[base + 4],
                NativeFunction::NetConnectionClose,
                fn_proto,
            )
            &&& spec_function_object(
                objects[base + 5],
                NativeFunction::NetConnectionConnect,
                fn_proto,
            )
            &&& objects[base + 6].proto == Some(proto)
            &&& objects[base + 6].native is Plain
            &&& props.len() == 6
            &&& spec_property_binds(props[0], "isConnected"@, (base + 0) as u64, false, false)
            &&& spec_property_binds(props[1], "protocol"@, (base + 1) as u64, false, false)
            &&& spec_property_binds(props[2], "uri"@, (base + 2) as u64, false, false)
            &&& spec_property_binds(props[3], "call"@, (base + 3) as u64, true, true)
            &&& spec_property_binds(props[4], "close"@, (base + 4) as u64, true, true)
            &&& spec_property_binds(props[5], "connect"@, (base + 5) as u64, true, true)
        }),
{
    let f_is_connected = context.add_object(
        function_object(NativeFunction::NetConnectionIsConnected, fn_proto),
    );
    let f_protocol = context.add_object(
        function_object(NativeFunction::NetConnectionProtocol, fn_proto),
    );
    let f_uri = context.add_object(function_object(NativeFunction::NetConnectionUri, fn_proto));
    let f_call = context.add_object(function_object(NativeFunction::NetConnectionCall, fn_proto));
    let f_close = context.add_object(
        function_object(NativeFunction::NetConnectionClose, fn_proto),
    );
    let f_connect = context.add_object(
        function_object(NativeFunction::NetConnectionConnect, fn_proto),
    );
    let mut properties: Vec<Property> = Vec::new();
    properties.push(
        Property {
            name: "isConnected".to_owned(),
            value: Value::Object(f_is_connected),
            dont_enum: false,
            dont_delete: false,
        },
    );
    properties.push(
        Property {
            name: "protocol".to_owned(),
            value: Value::Object(f_protocol),
            dont_enum: false,
            dont_delete: false,
        },
    );
    properties.push(
        Property {
            name: "uri".to_owned(),
            value: Value::Object(f_uri),
            dont_enum: false,
            dont_delete: false,
        },
    );
    properties.push(
        Property {
            name: "call".to_owned(),
            value: Value::Object(f_call),
            dont_enum: true,
            dont_delete: true,
        },
    );
    properties.push(
        Property {
            name: "close".to_owned(),
            value: Value::Object(f_close),
            dont_enum: true,
            dont_delete: true,
        },
    );
    properties.push(
        Property {
            name: "connect".to_owned(),
            value: Value::Object(f_connect),
            dont_enum: true,
            dont_delete: true,
        },
    );
    context.add_object(
        ScriptObject { proto: Some(proto), properties, native: NativeObject::Plain },
    )
}

/// Build the class: a constructor function object whose `prototype`
/// property, hidden and undeletable, is the connection prototype.
/// Returns the handle of the constructor.
pub fn create_class(context: &mut Avm1, netconnection_proto: u64, fn_proto: u64) -> (res: u64)
    requires
        old(context).objects@.len() + 1 <= u64::MAX,
    ensures
        final(context).sockets == old(context).sockets,
        final(context).objects@.len() == old(context).objects@.len() + 1,
        forall|j: int|
            0 <= j < old(context).objects@.len() ==> final(context).objects@[j] == old(
                context,
            ).objects@[j],
        ({
            let obj = final(context).objects@[res as int];
            &&& res == old(context).objects@.len()
            &&& obj.proto == Some(fn_proto)
            &&& obj.native == NativeObject::Function(NativeFunction::NetConnectionConstructor)
            &&& obj.properties@.len() == 1
            &&& spec_property_binds(obj.properties@[0], "prototype"@, netconnection_proto, true, true)
        }),
{
    let mut properties: Vec<Property> = Vec::new();
    properties.push(
        Property {
            name: "prototype".to_owned(),
            value: Value::Object(netconnection_proto),
            dont_enum: true,
            dont_delete: true,
        },
    );
    context.add_object(
        ScriptObject {
            proto: Some(fn_proto),
            properties,
            native: NativeObject::Function(NativeFunction::NetConnectionConstructor),
        },
    )
}

} // verus!
