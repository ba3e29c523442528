use crate::shared::rc_dup;
use crate::value::Value;
use std::rc::Rc;
use vstd::prelude::*;

verus! {

/// The declared type of a routine parameter.
///
/// `Any` accepts every value unchanged; each concrete type accepts its own
/// variant and converts an absent value (`Undefined` or `Null`) to the
/// type's default.
#[derive(Clone, Copy, PartialEq, Eq, Structural, Debug)]
pub enum ParamType {
    Any,
    Boolean,
    Number,
    Str,
    Object,
}

/// One declared parameter of a routine's signature: its name, its declared
/// type, and an optional default used when the caller supplies no value.
#[derive(Debug)]
pub struct ParamSpec {
    pub name: String,
    pub param_type: ParamType,
    pub default_value: Option<Value>,
}

impl Clone for ParamSpec {
    fn clone(&self) -> (res: Self)
        ensures
            res == *self,
    {
        ParamSpec {
            name: self.name.clone(),
            param_type: self.param_type,
            default_value: match &self.default_value {
                Some(v) => Some(v.clone()),
                None => None,
            },
        }
    }
}

/// A routine implemented by the host.
///
/// The host function itself is reached through the session's `Host`
/// implementation; `routine` is the key under which the host dispatches
/// the call.
#[derive(Debug)]
pub struct NativeRoutine {
    /// Host dispatch key of the underlying host function.
    pub routine: u64,
    /// The declared name of the routine, used in diagnostics.
    pub name: String,
    /// The declared parameter signature.
    pub signature: Vec<ParamSpec>,
    /// Whether surplus arguments are collected into a rest parameter
    /// instead of being rejected.
    pub is_variadic: bool,
}

/// A routine decoded from an emulated program.
///
/// The instruction stream itself stays with the interpreter; the engine
/// needs only the signature, the flags, and a stable identity.
#[derive(Debug)]
pub struct BytecodeRoutine {
    /// Stable identity of the decoded method record, assigned at class
    /// construction time.  Two routine values describe the same decoded
    /// method exactly when their identities are equal.
    pub method_id: u64,
    /// The declared parameter signature.
    pub signature: Vec<ParamSpec>,
    /// Whether surplus arguments are collected into a rest parameter.
    pub is_variadic: bool,
    /// Whether arity is left unchecked at the call boundary: surplus
    /// arguments are then silently dropped rather than rejected.
    pub is_unchecked: bool,
}

/// An immutable, shareable method descriptor: either a host routine or a
/// decoded bytecode routine.  Descriptors are shared by reference among
/// every `Executable` built from the same method.
#[derive(Debug)]
pub enum Method {
    Native(Rc<NativeRoutine>),
    Bytecode(Rc<BytecodeRoutine>),
}

impl Clone for Method {
    fn clone(&self) -> (res: Self)
        ensures
            res == *self,
    {
        match self {
            Method::Native(m) => Method::Native(rc_dup(m)),
            Method::Bytecode(m) => Method::Bytecode(rc_dup(m)),
        }
    }
}

} // verus!
