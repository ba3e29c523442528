use crate::decimal::{spec_decimal, u64_to_decimal};
use vstd::prelude::*;
use vstd::string::StringExecFns;

verus! {

/// A recoverable error surfaced by the invocation engine.
///
/// `Arity` and `Coercion` are raised by the engine itself; `Interpreter`
/// carries a fault raised by the host routine or by the instruction
/// stream, which the engine propagates unchanged.
#[derive(Debug)]
pub enum CallError {
    /// More arguments were supplied than a non-variadic host routine
    /// declares.
    Arity { method_name: String, supplied: usize, max_params: usize },
    /// A supplied argument cannot be converted to the declared type of
    /// the parameter it binds to.
    Coercion { method_name: String, param_name: String },
    /// A runtime fault raised while running host or bytecode routine
    /// code, opaque to the engine.
    Interpreter { message: String },
}

/// Equality of call errors, comparing text by contents.
pub open spec fn call_error_eq(a: CallError, b: CallError) -> bool {
    match (a, b) {
        (
            CallError::Arity { method_name: m1, supplied: s1, max_params: x1 },
            CallError::Arity { method_name: m2, supplied: s2, max_params: x2 },
        ) => m1@ == m2@ && s1 == s2 && x1 == x2,
        (
            CallError::Coercion { method_name: m1, param_name: p1 },
            CallError::Coercion { method_name: m2, param_name: p2 },
        ) => m1@ == m2@ && p1@ == p2@,
        (
            CallError::Interpreter { message: m1 },
            CallError::Interpreter { message: m2 },
        ) => m1@ == m2@,
        _ => false,
    }
}

/// The diagnostic text of an arity error.
pub open spec fn spec_arity_message(method_name: Seq<char>, supplied: nat, max_params: nat) -> Seq<
    char,
> {
    "Attempted to call \""@ + method_name + "\" with "@ + spec_decimal(supplied)
        + " arguments (more than "@ + spec_decimal(max_params) + " is prohibited)"@
}

/// The diagnostic text of a coercion error.
pub open spec fn spec_coercion_message(method_name: Seq<char>, param_name: Seq<char>) -> Seq<
    char,
> {
    "Cannot coerce the argument bound to parameter \""@ + param_name + "\" of \""@ + method_name
        + "\""@
}

impl CallError {
    /// The diagnostic text of this error.
    pub open spec fn spec_message(&self) -> Seq<char> {
        match self {
            CallError::Arity { method_name, supplied, max_params } => spec_arity_message(
                method_name@,
                *supplied as nat,
                *max_params as nat,
            ),
            CallError::Coercion { method_name, param_name } => spec_coercion_message(
                method_name@,
                param_name@,
            ),
            CallError::Interpreter { message } => message@,
        }
    }

    /// Render the diagnostic text of this error.
    pub fn message(&self) -> (res: String)
        ensures
            res@ == self.spec_message(),
    {
        match self {
            CallError::Arity { method_name, supplied, max_params } => {
                let mut s = "Attempted to call \"".to_owned();
                s.append(method_name.as_str());
                s.append("\" with ");
                s.append(u64_to_decimal(*supplied as u64).as_str());
                s.append(" arguments (more than ");
                s.append(u64_to_decimal(*max_params as u64).as_str());
                s.append(" is prohibited)");
                s
            },
            CallError::Coercion { method_name, param_name } => {
                let mut s = "Cannot coerce the argument bound to parameter \"".to_owned();
                s.append(param_name.as_str());
                s.append("\" of \"");
                s.append(method_name.as_str());
                s.append("\"");
                s
            },
            CallError::Interpreter { message } => message.clone(),
        }
    }
}

impl Clone for CallError {
    fn clone(&self) -> (res: Self)
        ensures
            res == *self,
    {
        match self {
            CallError::Arity { method_name, supplied, max_params } => CallError::Arity {
                method_name: method_name.clone(),
                supplied: *supplied,
                max_params: *max_params,
            },
            CallError::Coercion { method_name, param_name } => CallError::Coercion {
                method_name: method_name.clone(),
                param_name: param_name.clone(),
            },
            CallError::Interpreter { message } => CallError::Interpreter {
                message: message.clone(),
            },
        }
    }
}

impl PartialEq for CallError {
    fn eq(&self, other: &CallError) -> (r: bool) {
        match (self, other) {
            (
                CallError::Arity { method_name: m1, supplied: s1, max_params: x1 },
                CallError::Arity { method_name: m2, supplied: s2, max_params: x2 },
            ) => *m1 == *m2 && *s1 == *s2 && *x1 == *x2,
            (
                CallError::Coercion { method_name: m1, param_name: p1 },
                CallError::Coercion { method_name: m2, param_name: p2 },
            ) => *m1 == *m2 && *p1 == *p2,
            (
                CallError::Interpreter { message: m1 },
                CallError::Interpreter { message: m2 },
            ) => *m1 == *m2,
            _ => false,
        }
    }
}

impl vstd::std_specs::cmp::PartialEqSpecImpl for CallError {
    open spec fn obeys_eq_spec() -> bool {
        true
    }

    open spec fn eq_spec(&self, other: &CallError) -> bool {
        call_error_eq(*self, *other)
    }
}

} // verus!
