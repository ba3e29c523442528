use crate::class::ClassRef;
use crate::error::CallError;
use crate::method::{ParamSpec, ParamType};
use crate::scope::ScopeChain;
use crate::value::{clone_values, Value};
use vstd::prelude::*;

verus! {

/// The value an absent argument takes for a declared parameter type.
///
/// `Boolean` and `Number` have proper defaults; the reference types take
/// `Null`, and `Any` keeps the absence visible as `Undefined`.
pub open spec fn spec_absent_value(t: ParamType) -> Value {
    match t {
        ParamType::Any => Value::Undefined,
        ParamType::Boolean => Value::Bool(false),
        ParamType::Number => Value::Number(0),
        ParamType::Str => Value::Null,
        ParamType::Object => Value::Null,
    }
}

/// Conversion of a supplied value to a declared parameter type.
///
/// `Any` accepts everything unchanged; a concrete type accepts its own
/// variant unchanged, converts `Undefined` and `Null` to the type's
/// absent value, and rejects every other variant.
pub open spec fn spec_coerce(v: Value, t: ParamType) -> Option<Value> {
    match t {
        ParamType::Any => Some(v),
        ParamType::Boolean => match v {
            Value::Bool(_) => Some(v),
            Value::Undefined => Some(spec_absent_value(t)),
            Value::Null => Some(spec_absent_value(t)),
            _ => None,
        },
        ParamType::Number => match v {
            Value::Number(_) => Some(v),
            Value::Undefined => Some(spec_absent_value(t)),
            Value::Null => Some(spec_absent_value(t)),
            _ => None,
        },
        ParamType::Str => match v {
            Value::Str(_) => Some(v),
            Value::Undefined => Some(spec_absent_value(t)),
            Value::Null => Some(spec_absent_value(t)),
            _ => None,
        },
        ParamType::Object => match v {
            Value::Object(_) => Some(v),
            Value::Undefined => Some(spec_absent_value(t)),
            Value::Null => Some(spec_absent_value(t)),
            _ => None,
        },
    }
}

/// Convert a supplied value to a declared parameter type, or report that
/// no conversion exists.
pub fn coerce(v: &Value, t: ParamType) -> (res: Option<Value>)
    ensures
        res == spec_coerce(*v, t),
{
    match t {
        ParamType::Any => Some(v.clone()),
        ParamType::Boolean => match v {
            Value::Bool(b) => Some(Value::Bool(*b)),
            Value::Undefined => Some(Value::Bool(false)),
            Value::Null => Some(Value::Bool(false)),
            _ => None,
        },
        ParamType::Number => match v {
            Value::Number(n) => Some(Value::Number(*n)),
            Value::Undefined => Some(Value::Number(0)),
            Value::Null => Some(Value::Number(0)),
            _ => None,
        },
        ParamType::Str => match v {
            Value::Str(_) => Some(v.clone()),
            Value::Undefined => Some(Value::Null),
            Value::Null => Some(Value::Null),
            _ => None,
        },
        ParamType::Object => match v {
            Value::Object(o) => Some(Value::Object(*o)),
            Value::Undefined => Some(Value::Null),
            Value::Null => Some(Value::Null),
            _ => None,
        },
    }
}

/// The value the parameter at position `i` binds to: the coerced supplied
/// argument if one was given, else the declared default, else `Undefined`.
pub open spec fn spec_bound_param(args: Seq<Value>, sig: Seq<ParamSpec>, i: int) -> Option<
    Value,
> {
    if i < args.len() {
        spec_coerce(args[i], sig[i].param_type)
    } else {
        match sig[i].default_value {
            Some(d) => Some(d),
            None => Some(Value::Undefined),
        }
    }
}

/// The value the parameter at position `i` binds to, with `Undefined`
/// standing in on a coercion failure (which `spec_first_coercion_failure`
/// reports separately).
pub open spec fn spec_bound_value(args: Seq<Value>, sig: Seq<ParamSpec>, i: int) -> Value {
    match spec_bound_param(args, sig, i) {
        Some(v) => v,
        None => Value::Undefined,
    }
}

/// The position of the first parameter whose supplied argument cannot be
/// coerced, starting the search at `i`.
pub open spec fn spec_first_failure_from(args: Seq<Value>, sig: Seq<ParamSpec>, i: int) -> Option<
    int,
>
    decreases sig.len() - i,
{
    if i < 0 || i >= sig.len() {
        None
    } else if spec_bound_param(args, sig, i) is None {
        Some(i)
    } else {
        spec_first_failure_from(args, sig, i + 1)
    }
}

/// The position of the first parameter whose supplied argument cannot be
/// coerced, if any.
pub open spec fn spec_first_coercion_failure(args: Seq<Value>, sig: Seq<ParamSpec>) -> Option<
    int,
> {
    spec_first_failure_from(args, sig, 0)
}

/// The surplus arguments collected into the trailing rest parameter: for
/// a variadic routine, every argument past the declared signature; empty
/// otherwise.
pub open spec fn spec_rest_arguments(args: Seq<Value>, max_params: int, variadic: bool) -> Seq<
    Value,
> {
    if variadic && args.len() > max_params {
        args.skip(max_params)
    } else {
        Seq::<Value>::empty()
    }
}

/// Walk a declared signature against the supplied arguments: coerce each
/// supplied value to its declared parameter type, fill unsupplied trailing
/// parameters from declared defaults (or `Undefined`), and collect any
/// variadic surplus into the rest list.  The first argument that cannot
/// be coerced aborts the walk with a coercion error naming its parameter.
pub fn resolve_parameters(
    method_name: &String,
    args: &Vec<Value>,
    signature: &Vec<ParamSpec>,
    is_variadic: bool,
) -> (res: Result<(Vec<Value>, Vec<Value>), CallError>)
    ensures
        match res {
            Ok(bound) => {
                &&& spec_first_coercion_failure(args@, signature@) is None
                &&& bound.0@.len() == signature@.len()
                &&& forall|i: int|
                    0 <= i < signature@.len() ==> bound.0@[i] == #[trigger] spec_bound_value(
                        args@,
                        signature@,
                        i,
                    )
                &&& bound.1@ == spec_rest_arguments(
                    args@,
                    signature@.len() as int,
                    is_variadic,
                )
            },
            Err(e) => {
                &&& spec_first_coercion_failure(args@, signature@) matches Some(i) && e
                    == (CallError::Coercion {
                    method_name: *method_name,
                    param_name: signature@[i].name,
                })
            },
        },
{
    let mut bound: Vec<Value> = Vec::new();
    let mut i: usize = 0;
    while i < signature.len()
        invariant
            i <= signature@.len(),
            bound@.len() == i,
            forall|j: int|
                0 <= j < i ==> bound@[j] == #[trigger] spec_bound_value(args@, signature@, j),
            spec_first_coercion_failure(args@, signature@) == spec_first_failure_from(
                args@,
                signature@,
                i as int,
            ),
        decreases signature@.len() - i,
    {
        let ghost prev_bound = bound@;
        let p = &signature[i];
        if i < args.len() {
            match coerce(&args[i], p.param_type) {
                Some(v) => bound.push(v),
                None => {
                    return Err(CallError::Coercion {
                        method_name: method_name.clone(),
                        param_name: p.name.clone(),
                    });
                },
            }
        } else {
            match &p.default_value {
                Some(d) => bound.push(d.clone()),
                None => bound.push(Value::Undefined),
            }
        }
        proof {
            assert(bound@[i as int] == spec_bound_value(args@, signature@, i as int));
            assert forall|j: int|
                0 <= j < i + 1 implies bound@[j] == #[trigger] spec_bound_value(
                args@,
                signature@,
                j,
            ) by {
                if j < i as int {
                    assert(bound@[j] == prev_bound[j]);
                }
            }
        }
        i = i + 1;
    }
    let mut rest: Vec<Value> = Vec::new();
    if is_variadic && args.len() > signature.len() {
        let mut j: usize = signature.len();
        while j < args.len()
            invariant
                signature@.len() <= j <= args@.len(),
                rest@ == args@.subrange(signature@.len() as int, j as int),
            decreases args@.len() - j,
        {
            rest.push(args[j].clone());
            proof {
                assert(args@.subrange(signature@.len() as int, j as int).push(args@[j as int])
                    =~= args@.subrange(signature@.len() as int, j as int + 1));
            }
            j = j + 1;
        }
        proof {
            assert(args@.subrange(signature@.len() as int, args@.len() as int) =~= args@.skip(
                signature@.len() as int,
            ));
        }
    }
    Ok((bound, rest))
}

/// The per-call execution context: created fresh at call entry, owned by
/// its call frame, and destroyed at call return.
#[derive(Debug)]
pub struct Activation {
    /// The resolved receiver the routine executes against.
    pub receiver: Option<u64>,
    /// The argument list of the call: for a host routine the bound and
    /// coerced parameter values, for a bytecode routine the (possibly
    /// truncated) supplied values.
    pub arguments: Vec<Value>,
    /// The trailing rest parameter of a variadic host call.
    pub rest: Vec<Value>,
    /// The lexical environment the method was defined in.
    pub scope: ScopeChain,
    /// The class that lexically defined the method, if any.
    pub bound_superclass: Option<ClassRef>,
    /// The execution domain of the caller, propagated into the call.
    pub caller_domain: u64,
    /// The identity of the callee function object, needed by
    /// self-referential constructs in bytecode.
    pub callee: Option<u64>,
    /// The cursor into the instruction stream, advanced by the
    /// interpreter loop.
    pub cursor: usize,
}

impl Activation {
    /// A base context for a call that has no calling activation, such as
    /// the entry call of a session.
    pub fn from_nothing(caller_domain: u64) -> (res: Activation)
        ensures
            res.receiver is None,
            res.arguments@ == Seq::<Value>::empty(),
            res.rest@ == Seq::<Value>::empty(),
            res.scope@ == Seq::<u64>::empty(),
            res.bound_superclass is None,
            res.caller_domain == caller_domain,
            res.callee is None,
            res.cursor == 0,
    {
        Activation {
            receiver: None,
            arguments: Vec::new(),
            rest: Vec::new(),
            scope: ScopeChain::empty(),
            bound_superclass: None,
            caller_domain,
            callee: None,
            cursor: 0,
        }
    }

    /// The fresh context for a host-routine call, before its parameters
    /// are bound.
    pub fn from_builtin(
        receiver: Option<u64>,
        bound_superclass: Option<ClassRef>,
        scope: ScopeChain,
        caller_domain: u64,
    ) -> (res: Activation)
        ensures
            res.receiver == receiver,
            res.arguments@ == Seq::<Value>::empty(),
            res.rest@ == Seq::<Value>::empty(),
            res.scope == scope,
            res.bound_superclass == bound_superclass,
            res.caller_domain == caller_domain,
            res.callee is None,
            res.cursor == 0,
    {
        Activation {
            receiver,
            arguments: Vec::new(),
            rest: Vec::new(),
            scope,
            bound_superclass,
            caller_domain,
            callee: None,
            cursor: 0,
        }
    }

    /// The fresh context for a bytecode-routine call, carrying the full
    /// argument list and the callee's own identity.
    pub fn from_method(
        scope: ScopeChain,
        receiver: Option<u64>,
        arguments: Vec<Value>,
        bound_superclass: Option<ClassRef>,
        callee: u64,
        caller_domain: u64,
    ) -> (res: Activation)
        ensures
            res.receiver == receiver,
            res.arguments == arguments,
            res.rest@ == Seq::<Value>::empty(),
            res.scope == scope,
            res.bound_superclass == bound_superclass,
            res.caller_domain == caller_domain,
            res.callee == Some(callee),
            res.cursor == 0,
    {
        Activation {
            receiver,
            arguments,
            rest: Vec::new(),
            scope,
            bound_superclass,
            caller_domain,
            callee: Some(callee),
            cursor: 0,
        }
    }

    /// Attach the bound parameter values of a host-routine call.
    pub fn bind_arguments(&mut self, values: Vec<Value>, rest: Vec<Value>)
        ensures
            *final(self) == (Activation { arguments: values, rest, ..*old(self) }),
    {
        self.arguments = values;
        self.rest = rest;
    }
}

/// Copy `args`, dropping the surplus past `max_params` when a bytecode
/// routine leaves arity unchecked and is not variadic.
pub open spec fn spec_effective_arguments(
    args: Seq<Value>,
    max_params: int,
    variadic: bool,
    unchecked: bool,
) -> Seq<Value> {
    if unchecked && !variadic && args.len() > max_params {
        args.take(max_params)
    } else {
        args
    }
}

/// Arity truncation: an "unchecked" non-variadic bytecode routine called
/// with more arguments than its `max_params` declared parameters receives
/// exactly the first `max_params` of them.
pub proof fn lemma_unchecked_arity_truncation(args: Seq<Value>, max_params: int)
    requires
        0 <= max_params < args.len(),
    ensures
        spec_effective_arguments(args, max_params, false, true) == args.take(max_params),
        spec_effective_arguments(args, max_params, false, true).len() == max_params,
{
}

/// The argument list a bytecode routine actually receives: an
/// "unchecked" non-variadic routine silently drops surplus arguments
/// instead of rejecting them.
pub fn effective_arguments(
    args: &Vec<Value>,
    max_params: usize,
    variadic: bool,
    unchecked: bool,
) -> (res: Vec<Value>)
    ensures
        res@ == spec_effective_arguments(args@, max_params as int, variadic, unchecked),
{
    let mut out = clone_values(args);
    if unchecked && !variadic && out.len() > max_params {
        out.truncate(max_params);
        proof {
            assert(args@.subrange(0, max_params as int) =~= args@.take(max_params as int));
        }
    }
    out
}

} // verus!
