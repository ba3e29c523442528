use crate::activation::{
    effective_arguments, resolve_parameters, spec_effective_arguments, spec_first_coercion_failure,
    Activation,
};
use crate::class::ClassRef;
use crate::decimal::{spec_decimal, u64_to_decimal};
use crate::error::CallError;
use crate::class::{find_method_trait, spec_find_method_trait, TraitEntry};
use crate::method::{BytecodeRoutine, Method, NativeRoutine};
use crate::scope::ScopeChain;
use crate::session::Session;
use crate::shared::rc_dup;
use crate::value::Value;
use std::rc::Rc;
use vstd::prelude::*;
use vstd::string::StringExecFns;

verus! {

/// The outside collaborators of the engine: the host functions behind
/// native routines and the interpreter loop behind bytecode routines.
///
/// An implementation may re-enter the engine (a routine may itself call
/// `exec` on the session), but it must leave the session's ledger exactly
/// as deep as it found it — which every balanced nest of `exec` calls
/// does.  Nothing else is assumed of a routine's outcome.
pub trait Host {
    /// Run the host function with dispatch key `method.routine`, against
    /// the resolved receiver and the bound argument list carried by
    /// `activation`.
    fn run_native(
        &mut self,
        session: &mut Session,
        method: &NativeRoutine,
        activation: &mut Activation,
    ) -> (res: Result<Value, CallError>)
        ensures
            final(session).ledger() == old(session).ledger(),
    ;

    /// Run the instruction stream of `method` to completion in the given
    /// activation, yielding its result or a propagated runtime error.
    fn run_bytecode(
        &mut self,
        session: &mut Session,
        method: &BytecodeRoutine,
        activation: &mut Activation,
    ) -> (res: Result<Value, CallError>)
        ensures
            final(session).ledger() == old(session).ledger(),
    ;
}

/// A host with no routines: every call reports a fault, and the ledger
/// is left untouched.  It serves sessions that only build and inspect
/// executables, and it witnesses that the `Host` contract is satisfiable.
pub struct NullHost;

impl Host for NullHost {
    fn run_native(
        &mut self,
        _session: &mut Session,
        _method: &NativeRoutine,
        _activation: &mut Activation,
    ) -> (res: Result<Value, CallError>) {
        Err(CallError::Interpreter { message: "no host routine is registered".to_owned() })
    }

    fn run_bytecode(
        &mut self,
        _session: &mut Session,
        _method: &BytecodeRoutine,
        _activation: &mut Activation,
    ) -> (res: Result<Value, CallError>) {
        Err(CallError::Interpreter { message: "no interpreter is registered".to_owned() })
    }
}

/// A bound bytecode routine: the shared method record, the captured
/// scope, and the per-binding receiver and defining superclass.
#[derive(Debug)]
pub struct BytecodeExecutable {
    /// The decoded method record to execute.
    pub method: Rc<BytecodeRoutine>,
    /// The scope this method was defined in.
    pub scope: ScopeChain,
    /// The receiver this function is always called with; `None` lets the
    /// caller supply one.
    pub receiver: Option<u64>,
    /// The class that defined this method; `None` makes `super`
    /// operations fall back to the receiver's own class.
    pub bound_superclass: Option<ClassRef>,
}

/// A bound host routine: the shared routine description, the captured
/// scope, and the per-binding receiver and defining superclass.
#[derive(Debug)]
pub struct NativeExecutable {
    /// The host routine to call.
    pub method: Rc<NativeRoutine>,
    /// The scope this method was defined in.
    pub scope: ScopeChain,
    /// The receiver this function is always called with; `None` lets the
    /// caller supply one.
    pub bound_receiver: Option<u64>,
    /// The class that defined this method; `None` makes `super`
    /// operations fall back to the receiver's own class.
    pub bound_superclass: Option<ClassRef>,
}

/// A bound, callable unit: host-implemented code or emulated-program
/// bytecode behind one invocation entry point.
#[derive(Debug)]
pub enum Executable {
    /// Code implemented by the host.
    Native(NativeExecutable),
    /// Code decoded from an emulated program.
    Action(BytecodeExecutable),
}

/// Copy a shared class reference.
pub(crate) fn clone_opt_class(c: &Option<ClassRef>) -> (res: Option<ClassRef>)
    ensures
        res == *c,
{
    match c {
        Some(rc) => Some(rc_dup(rc)),
        None => None,
    }
}

impl Clone for BytecodeExecutable {
    fn clone(&self) -> (res: Self)
        ensures
            res == *self,
    {
        BytecodeExecutable {
            method: rc_dup(&self.method),
            scope: self.scope.clone(),
            receiver: self.receiver,
            bound_superclass: clone_opt_class(&self.bound_superclass),
        }
    }
}

impl Clone for NativeExecutable {
    fn clone(&self) -> (res: Self)
        ensures
            res == *self,
    {
        NativeExecutable {
            method: rc_dup(&self.method),
            scope: self.scope.clone(),
            bound_receiver: self.bound_receiver,
            bound_superclass: clone_opt_class(&self.bound_superclass),
        }
    }
}

impl Clone for Executable {
    fn clone(&self) -> (res: Self)
        ensures
            res == *self,
    {
        match self {
            Executable::Native(e) => Executable::Native(e.clone()),
            Executable::Action(e) => Executable::Action(e.clone()),
        }
    }
}

/// Whether `supplied` arguments exceed what a routine with `max_params`
/// declared parameters accepts.
pub open spec fn spec_arity_exceeded(supplied: nat, max_params: nat, variadic: bool) -> bool {
    supplied > max_params && !variadic
}

/// The receiver a call executes against: the executable's bound receiver
/// when it has one, else the receiver supplied by the caller.
pub open spec fn spec_resolved_receiver(bound: Option<u64>, unbound: Option<u64>) -> Option<
    u64,
> {
    match bound {
        Some(r) => Some(r),
        None => unbound,
    }
}

/// Resolve the receiver of a call: a bound receiver wins over the
/// caller-supplied one.
pub fn resolve_receiver(bound: Option<u64>, unbound: Option<u64>) -> (res: Option<u64>)
    ensures
        res == spec_resolved_receiver(bound, unbound),
{
    match bound {
        Some(r) => Some(r),
        None => unbound,
    }
}

/// Receiver precedence: a call through an executable with bound receiver
/// `r1` observes `r1`, whatever unbound receiver the caller supplies.
pub proof fn lemma_receiver_precedence(r1: u64, r2: Option<u64>)
    ensures
        spec_resolved_receiver(Some(r1), r2) == Some(r1),
{
}

/// The class that answers `super` operations for a call through `ex`
/// whose receiver's own class is `receiver_class`.
pub open spec fn spec_super_root(ex: Executable, receiver_class: ClassRef) -> ClassRef {
    match ex.spec_bound_superclass() {
        Some(c) => c,
        None => receiver_class,
    }
}

/// Superclass fallback: an executable with no bound superclass resolves
/// `super` operations against the receiver's own class.
pub proof fn lemma_superclass_fallback(ex: Executable, receiver_class: ClassRef)
    requires
        ex.spec_bound_superclass() is None,
    ensures
        spec_super_root(ex, receiver_class) == receiver_class,
{
}

impl Executable {
    /// The executable's bound superclass, if any.
    pub open spec fn spec_bound_superclass(&self) -> Option<ClassRef> {
        match self {
            Executable::Native(e) => e.bound_superclass,
            Executable::Action(e) => e.bound_superclass,
        }
    }

    /// Convert a method into an executable, binding the given scope,
    /// receiver and defining superclass.  This is the sole constructor:
    /// every executable carries a method descriptor.
    pub fn from_method(
        method: Method,
        scope: ScopeChain,
        receiver: Option<u64>,
        superclass: Option<ClassRef>,
    ) -> (res: Self)
        ensures
            res == match method {
                Method::Native(m) => Executable::Native(NativeExecutable {
                    method: m,
                    scope: scope,
                    bound_receiver: receiver,
                    bound_superclass: superclass,
                }),
                Method::Bytecode(m) => Executable::Action(BytecodeExecutable {
                    method: m,
                    scope: scope,
                    receiver: receiver,
                    bound_superclass: superclass,
                }),
            },
    {
        match method {
            Method::Native(m) => Executable::Native(NativeExecutable {
                method: m,
                scope,
                bound_receiver: receiver,
                bound_superclass: superclass,
            }),
            Method::Bytecode(m) => Executable::Action(BytecodeExecutable {
                method: m,
                scope,
                receiver,
                bound_superclass: superclass,
            }),
        }
    }

    /// The executable's bound superclass, used by `super` dispatch to
    /// know which class's trait table to search above the receiver's own.
    pub fn bound_superclass(&self) -> (res: Option<ClassRef>)
        ensures
            res == self.spec_bound_superclass(),
    {
        match self {
            Executable::Native(e) => clone_opt_class(&e.bound_superclass),
            Executable::Action(e) => clone_opt_class(&e.bound_superclass),
        }
    }

    /// The class that answers `super` operations for a call through this
    /// executable: its bound superclass, or, when none is bound, the
    /// receiver's own class.
    pub fn super_root(&self, receiver_class: &ClassRef) -> (res: ClassRef)
        ensures
            res == spec_super_root(*self, *receiver_class),
    {
        match self.bound_superclass() {
            Some(c) => c,
            None => rc_dup(receiver_class),
        }
    }

    /// Execute the method behind this executable.
    ///
    /// A native routine is called through the host after its arity is
    /// checked and its parameters are bound; a bytecode routine is run by
    /// the interpreter loop on its (possibly truncated) argument list.
    /// Either way the executable is pushed onto the session's ledger for
    /// the duration of the call and popped on every exit path, so the
    /// ledger is exactly as deep after the call as before it.
    ///
    /// The session and the host are borrowed exclusively for the whole
    /// call, so no outstanding exclusive lock on either can overlap it;
    /// re-entry happens only through the host's own calls back into the
    /// engine.
    pub fn exec<H: Host>(
        &self,
        unbound_receiver: Option<u64>,
        arguments: &Vec<Value>,
        caller: &Activation,
        callee: u64,
        session: &mut Session,
        host: &mut H,
    ) -> (res: Result<Value, CallError>)
        ensures
            final(session).ledger() == old(session).ledger(),
            (match *self {
                Executable::Native(bm) => {
                    let m = *bm.method;
                    &&& (spec_arity_exceeded(
                        arguments@.len(),
                        m.signature@.len(),
                        m.is_variadic,
                    ) ==> res == Err::<Value, CallError>(CallError::Arity {
                        method_name: m.name,
                        supplied: arguments@.len() as usize,
                        max_params: m.signature@.len() as usize,
                    }))
                    &&& (!spec_arity_exceeded(
                        arguments@.len(),
                        m.signature@.len(),
                        m.is_variadic,
                    ) ==> match spec_first_coercion_failure(arguments@, m.signature@) {
                        Some(i) => res == Err::<Value, CallError>(CallError::Coercion {
                            method_name: m.name,
                            param_name: m.signature@[i].name,
                        }),
                        None => true,
                    })
                },
                Executable::Action(_) => true,
            }),
    {
        match self {
            Executable::Native(bm) => {
                let receiver = resolve_receiver(bm.bound_receiver, unbound_receiver);
                if arguments.len() > bm.method.signature.len() && !bm.method.is_variadic {
                    return Err(CallError::Arity {
                        method_name: bm.method.name.clone(),
                        supplied: arguments.len(),
                        max_params: bm.method.signature.len(),
                    });
                }
                let mut activation = Activation::from_builtin(
                    receiver,
                    clone_opt_class(&bm.bound_superclass),
                    bm.scope.clone(),
                    caller.caller_domain,
                );
                let bound = match resolve_parameters(
                    &bm.method.name,
                    arguments,
                    &bm.method.signature,
                    bm.method.is_variadic,
                ) {
                    Ok(b) => b,
                    Err(e) => {
                        return Err(e);
                    },
                };
                activation.bind_arguments(bound.0, bound.1);
                session.push_call(self.clone());
                let res = host.run_native(session, &bm.method, &mut activation);
                let _ = session.pop_call();
                proof {
                    assert(old(session).ledger().push(*self).drop_last() =~= old(
                        session,
                    ).ledger());
                }
                res
            },
            Executable::Action(bm) => {
                let effective = effective_arguments(
                    arguments,
                    bm.method.signature.len(),
                    bm.method.is_variadic,
                    bm.method.is_unchecked,
                );
                let receiver = resolve_receiver(bm.receiver, unbound_receiver);
                let mut activation = Activation::from_method(
                    bm.scope.clone(),
                    receiver,
                    effective,
                    clone_opt_class(&bm.bound_superclass),
                    callee,
                    caller.caller_domain,
                );
                session.push_call(self.clone());
                let res = host.run_bytecode(session, &bm.method, &mut activation);
                let _ = session.pop_call();
                proof {
                    assert(old(session).ledger().push(*self).drop_last() =~= old(
                        session,
                    ).ledger());
                }
                res
            },
        }
    }

    /// The human-readable qualified name of the executable, for
    /// diagnostics.
    pub open spec fn spec_full_name(&self) -> Seq<char> {
        let prefix = match self.spec_bound_superclass() {
            Some(c) => (*c).name@,
            None => Seq::<char>::empty(),
        };
        let body = match self {
            Executable::Native(bm) => (*bm.method).name@,
            Executable::Action(bm) => {
                let id = (*bm.method).method_id;
                match self.spec_bound_superclass() {
                    Some(c) => if (*c).class_init == id {
                        "$cinit"@
                    } else {
                        match spec_find_method_trait((*c).class_traits@, id) {
                            Some(t) => "$/"@ + t.name@,
                            None => match spec_find_method_trait((*c).instance_traits@, id) {
                                Some(t) => "/"@ + t.name@,
                                None => "MethodInfo-"@ + spec_decimal(id as nat),
                            },
                        }
                    },
                    None => "MethodInfo-"@ + spec_decimal(id as nat),
                }
            },
        };
        prefix + body + "()"@
    }

    /// Reconstruct a human-readable `Class/method()` name for
    /// diagnostics.
    ///
    /// The bound superclass's qualified name comes first, when one is
    /// bound.  A native routine contributes its declared name.  A
    /// bytecode routine is looked up by method-record identity: the
    /// class initializer renders as `$cinit`, a class-side trait as
    /// `$/name`, an instance-side trait as `/name`, and a method found
    /// nowhere falls back to a synthetic name built from its record
    /// identity.  Every branch appends a trailing `()`.  The search is
    /// linear in the class's trait tables, so this is meant for
    /// diagnostics, never for the calling hot path.
    pub fn full_name(&self) -> (res: String)
        ensures
            res@ == self.spec_full_name(),
    {
        let mut output = String::new();
        let superclass: &Option<ClassRef> = match self {
            Executable::Native(e) => &e.bound_superclass,
            Executable::Action(e) => &e.bound_superclass,
        };
        match superclass {
            Some(c) => output.append(c.name.as_str()),
            None => (),
        }
        match self {
            Executable::Native(bm) => output.append(bm.method.name.as_str()),
            Executable::Action(bm) => {
                match superclass {
                    Some(c) => {
                        if c.class_init == bm.method.method_id {
                            output.append("$cinit");
                        } else {
                            match find_method_trait(&c.class_traits, bm.method.method_id) {
                                Some(i) => {
                                    output.append("$/");
                                    output.append(c.class_traits[i].name.as_str());
                                },
                                None => {
                                    match find_method_trait(
                                        &c.instance_traits,
                                        bm.method.method_id,
                                    ) {
                                        Some(i) => {
                                            output.append("/");
                                            output.append(c.instance_traits[i].name.as_str());
                                        },
                                        None => {
                                            output.append("MethodInfo-");
                                            output.append(
                                                u64_to_decimal(bm.method.method_id).as_str(),
                                            );
                                        },
                                    }
                                },
                            }
                        }
                    },
                    None => {
                        output.append("MethodInfo-");
                        output.append(u64_to_decimal(bm.method.method_id).as_str());
                    },
                }
            },
        }
        output.append("()");
        proof {
            assert(output@ =~= self.spec_full_name());
        }
        output
    }
}

/// Qualified-name determinism, instance method: a bytecode method bound
/// to a class, distinct from its class initializer, absent from its
/// class-side traits and found among its instance-side traits as `t`,
/// renders as `<class>/<t>()`.
pub proof fn lemma_qualified_name_instance_method(bm: BytecodeExecutable, t: TraitEntry)
    requires
        bm.bound_superclass matches Some(c) && {
            let id = (*bm.method).method_id;
            &&& (*c).class_init != id
            &&& spec_find_method_trait((*c).class_traits@, id) is None
            &&& spec_find_method_trait((*c).instance_traits@, id) == Some(t)
        },
    ensures
        Executable::Action(bm).spec_full_name() == (*bm.bound_superclass.unwrap()).name@ + "/"@
            + t.name@ + "()"@,
{
    let c = bm.bound_superclass.unwrap();
    assert((*c).name@ + ("/"@ + t.name@) + "()"@ =~= (*c).name@ + "/"@ + t.name@ + "()"@);
}

/// Qualified-name determinism, class initializer: the executable of a
/// class's designated initializer renders as `<class>$cinit()`.
pub proof fn lemma_qualified_name_class_init(bm: BytecodeExecutable)
    requires
        bm.bound_superclass matches Some(c) && (*c).class_init == (*bm.method).method_id,
    ensures
        Executable::Action(bm).spec_full_name() == (*bm.bound_superclass.unwrap()).name@
            + "$cinit()"@,
{
    let c = bm.bound_superclass.unwrap();
    reveal_strlit("$cinit");
    reveal_strlit("()");
    reveal_strlit("$cinit()");
    assert((*c).name@ + "$cinit"@ + "()"@ =~= (*c).name@ + "$cinit()"@);
}

/// Qualified-name determinism, unbound native routine: a native
/// executable with no bound superclass renders as its declared name
/// followed by `()`.
pub proof fn lemma_qualified_name_unbound_native(bm: NativeExecutable)
    requires
        bm.bound_superclass is None,
    ensures
        Executable::Native(bm).spec_full_name() == (*bm.method).name@ + "()"@,
{
    assert(Seq::<char>::empty() + (*bm.method).name@ + "()"@ =~= (*bm.method).name@ + "()"@);
}

} // verus!
