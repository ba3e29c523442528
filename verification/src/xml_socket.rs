use crate::script_object::{Avm1, NativeObject};
use crate::value::Value;
use vstd::prelude::*;

verus! {

/// The connection timeout a fresh socket starts with, in milliseconds.
pub const DEFAULT_TIMEOUT: u32 = 20000;

/// The native state of an XML socket object: its backend handle, once
/// connected, and its connection timeout in milliseconds.
#[derive(Clone, Copy, PartialEq, Eq, Structural, Debug)]
pub struct XmlSocket {
    pub handle: Option<u64>,
    pub timeout: u32,
}

impl XmlSocket {
    /// A fresh socket with no backend handle and the default timeout.
    pub fn new() -> (res: XmlSocket)
        ensures
            res.handle is None,
            res.timeout == DEFAULT_TIMEOUT,
    {
        XmlSocket { handle: None, timeout: DEFAULT_TIMEOUT }
    }

    /// The backend handle of the socket, if it is connected.
    pub fn handle(&self) -> (res: Option<u64>)
        ensures
            res == self.spec_handle(),
    {
        self.handle
    }

    /// The backend handle of the socket, if it is connected.
    pub open spec fn spec_handle(&self) -> Option<u64> {
        self.handle
    }

    /// Attach a backend handle, handing back the previous one.
    pub fn set_handle(&mut self, handle: u64) -> (res: Option<u64>)
        ensures
            final(self).handle == Some(handle),
            final(self).timeout == old(self).timeout,
            res == old(self).handle,
    {
        let previous = self.handle;
        self.handle = Some(handle);
        previous
    }

    /// The connection timeout in milliseconds.
    pub fn timeout(&self) -> (res: u32)
        ensures
            res == self.spec_timeout(),
    {
        self.timeout
    }

    /// The connection timeout in milliseconds.
    pub open spec fn spec_timeout(&self) -> u32 {
        self.timeout
    }

    /// Replace the connection timeout.
    pub fn set_timeout(&mut self, timeout: u32)
        ensures
            final(self).timeout == timeout,
            final(self).handle == old(self).handle,
    {
        self.timeout = timeout;
    }

    /// The socket state attached to `value`, when `value` is an object
    /// of the store carrying one.
    pub fn cast(context: &Avm1, value: &Value) -> (res: Option<XmlSocket>)
        ensures
            res == spec_cast(*context, *value),
    {
        match value {
            Value::Object(id) => {
                if *id < context.objects.len() as u64 {
                    match &context.objects[*id as usize].native {
                        NativeObject::XmlSocket(socket) => Some(*socket),
                        _ => None,
                    }
                } else {
                    None
                }
            },
            _ => None,
        }
    }
}

/// The socket state attached to `value`, when `value` is an object of
/// the store carrying one.
pub open spec fn spec_cast(context: Avm1, value: Value) -> Option<XmlSocket> {
    match value {
        Value::Object(id) => if id < context.objects@.len() {
            match context.objects@[id as int].native {
                NativeObject::XmlSocket(socket) => Some(socket),
                _ => None,
            }
        } else {
            None
        },
        _ => None,
    }
}

/// The unsigned 32-bit integer a runtime value converts to: numbers are
/// truncated to their low 32 bits, booleans count as 0 or 1, and every
/// other value converts to 0.
pub open spec fn spec_to_u32(v: Value) -> u32 {
    match v {
        Value::Number(n) => n as u32,
        Value::Bool(b) => if b {
            1
        } else {
            0
        },
        _ => 0,
    }
}

/// Convert a runtime value to an unsigned 32-bit integer.
pub fn coerce_to_u32(v: &Value) -> (res: u32)
    ensures
        res == spec_to_u32(*v),
{
    match v {
        Value::Number(n) => #[verifier::truncate] (*n as u32),
        Value::Bool(b) => if *b {
            1
        } else {
            0
        },
        _ => 0,
    }
}

/// Construct the socket object: attach a fresh socket state to `this`,
/// leaving its properties untouched.
pub fn constructor(context: &mut Avm1, this: u64, _args: &Vec<Value>) -> (res: Value)
    requires
        this < old(context).objects@.len(),
    ensures
        final(context).objects@.len() == old(context).objects@.len(),
        forall|j: int|
            0 <= j < old(context).objects@.len() && j != this ==> final(context).objects@[j]
                == old(context).objects@[j],
        final(context).objects@[this as int].proto == old(context).objects@[this as int].proto,
        final(context).objects@[this as int].properties == old(
            context,
        ).objects@[this as int].properties,
        final(context).objects@[this as int].native == NativeObject::XmlSocket(
            XmlSocket { handle: None, timeout: DEFAULT_TIMEOUT },
        ),
        final(context).sockets == old(context).sockets,
        res == Value::Object(this),
{
    let count: usize = context.objects.len();
    proof {
        assert(this < count);
    }
    let idx: usize = this as usize;
    context.objects[idx].native = NativeObject::XmlSocket(XmlSocket::new());
    Value::Object(this)
}

/// The socket's `timeout` property getter: the timeout of the attached
/// socket, or `Undefined` when `this` carries none.
pub fn get_timeout(context: &Avm1, this: u64, _args: &Vec<Value>) -> (res: Value)
    ensures
        res == match spec_cast(*context, Value::Object(this)) {
            Some(socket) => Value::Number(socket.spec_timeout() as i64),
            None => Value::Undefined,
        },
{
    match XmlSocket::cast(context, &Value::Object(this)) {
        Some(socket) => Value::Number(socket.timeout() as i64),
        None => Value::Undefined,
    }
}

/// The socket's `timeout` property setter: convert the first argument to
/// an unsigned integer and store it as the timeout of the attached
/// socket; without an attached socket nothing changes.
pub fn set_timeout(context: &mut Avm1, this: u64, args: &Vec<Value>) -> (res: Value)
    ensures
        res == Value::Undefined,
        final(context).sockets == old(context).sockets,
        final(context).objects@.len() == old(context).objects@.len(),
        forall|j: int|
            0 <= j < old(context).objects@.len() && j != this ==> final(context).objects@[j]
                == old(context).objects@[j],
        match spec_cast(*old(context), Value::Object(this)) {
            Some(socket) => {
                let arg = if args@.len() > 0 {
                    args@[0]
                } else {
                    Value::Undefined
                };
                &&& this < old(context).objects@.len()
                &&& final(context).objects@[this as int].proto == old(
                    context,
                ).objects@[this as int].proto
                &&& final(context).objects@[this as int].properties == old(
                    context,
                ).objects@[this as int].properties
                &&& final(context).objects@[this as int].native == NativeObject::XmlSocket(
                    XmlSocket { handle: socket.spec_handle(), timeout: spec_to_u32(arg) },
                )
            },
            None => final(context).objects@ == old(context).objects@,
        },
{
    match XmlSocket::cast(context, &Value::Object(this)) {
        Some(socket) => {
            let arg = if args.len() > 0 {
                args[0].clone()
            } else {
                Value::Undefined
            };
            let timeout = coerce_to_u32(&arg);
            let mut updated = socket;
            updated.set_timeout(timeout);
            let count: usize = context.objects.len();
            proof {
                assert(this < count);
            }
            let idx: usize = this as usize;
            context.objects[idx].native = NativeObject::XmlSocket(updated);
            Value::Undefined
        },
        None => Value::Undefined,
    }
}

/// Close the socket: when `this` carries a connected socket, close its
/// backend handle; in every case the result is `Undefined`.
pub fn close(context: &mut Avm1, this: u64, _args: &Vec<Value>) -> (res: Value)
    ensures
        res == Value::Undefined,
        final(context).objects@ == old(context).objects@,
        match spec_cast(*old(context), Value::Object(this)) {
            Some(socket) => match socket.spec_handle() {
                Some(h) => final(context).sockets.active@ == old(
                    context,
                ).sockets.active@.filter(|x: u64| x != h),
                None => final(context).sockets == old(context).sockets,
            },
            None => final(context).sockets == old(context).sockets,
        },
{
    match XmlSocket::cast(context, &Value::Object(this)) {
        Some(socket) => {
            match socket.handle() {
                Some(h) => {
                    context.sockets.close(h);
                },
                None => (),
            }
        },
        None => (),
    }
    Value::Undefined
}

/// Open a connection.  The connection machinery itself lives with the
/// host's socket backend; at this boundary the call leaves the session
/// unchanged and yields `Undefined`.
pub fn connect(context: &Avm1, this: u64, args: &Vec<Value>) -> (res: Value)
    ensures
        res == Value::Undefined,
{
    let _ = XmlSocket::cast(context, &Value::Object(this));
    let _ = args;
    Value::Undefined
}

/// Send data over the socket.  The transmission itself lives with the
/// host's socket backend; at this boundary the call leaves the session
/// unchanged and yields `Undefined`.
pub fn send(context: &Avm1, this: u64, args: &Vec<Value>) -> (res: Value)
    ensures
        res == Value::Undefined,
{
    let _ = XmlSocket::cast(context, &Value::Object(this));
    let _ = args;
    Value::Undefined
}

/// The default `onConnect` handler: does nothing until a program
/// replaces it.
pub fn on_connect(_context: &Avm1, _this: u64, _args: &Vec<Value>) -> (res: Value)
    ensures
        res == Value::Undefined,
{
    Value::Undefined
}

/// The default `onClose` handler: does nothing until a program replaces
/// it.
pub fn on_close(_context: &Avm1, _this: u64, _args: &Vec<Value>) -> (res: Value)
    ensures
        res == Value::Undefined,
{
    Value::Undefined
}

/// The default `onXML` handler: does nothing until a program replaces
/// it.
pub fn on_xml(_context: &Avm1, _this: u64, _args: &Vec<Value>) -> (res: Value)
    ensures
        res == Value::Undefined,
{
    Value::Undefined
}

} // verus!
