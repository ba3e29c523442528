use avm_engine::function::NullHost;
use avm_engine::{
    Activation, BytecodeRoutine, CallError, Executable, Host, Method, NativeRoutine, ParamSpec,
    ParamType, ScopeChain, Session, Value,
};
use std::rc::Rc;

/// Host routine keys used by the test host.
const ADD: u64 = 1;
const ECHO_RECEIVER: u64 = 2;
const SECOND_ARG: u64 = 3;
const REST_COUNT: u64 = 4;
const CALL_NESTED: u64 = 5;

/// Bytecode method identities used by the test host.
const FIRST_ARG_METHOD: u64 = 100;
const FAULTING_METHOD: u64 = 200;

struct TestHost {
    /// An executable for the nested-call scenario.
    nested: Option<Executable>,
    /// The argument list the last bytecode run observed.
    last_bytecode_args: Vec<Value>,
    /// The ledger depth the last routine observed while running.
    observed_depth: usize,
    /// The qualified name of the outermost ledger entry the last native
    /// routine observed while running.
    observed_outermost: String,
}

impl TestHost {
    fn new() -> TestHost {
        TestHost {
            nested: None,
            last_bytecode_args: Vec::new(),
            observed_depth: 0,
            observed_outermost: String::new(),
        }
    }
}

fn number(v: &Value) -> i64 {
    match v {
        Value::Number(n) => *n,
        other => panic!("expected a number, got {:?}", other),
    }
}

impl Host for TestHost {
    fn run_native(
        &mut self,
        session: &mut Session,
        method: &NativeRoutine,
        activation: &mut Activation,
    ) -> Result<Value, CallError> {
        self.observed_depth = session.call_depth();
        self.observed_outermost = session.call_at(0).full_name();
        match method.routine {
            ADD => {
                let a = number(&activation.arguments[0]);
                let b = number(&activation.arguments[1]);
                Ok(Value::Number(a + b))
            }
            ECHO_RECEIVER => Ok(match activation.receiver {
                Some(o) => Value::Object(o),
                None => Value::Null,
            }),
            SECOND_ARG => Ok(activation.arguments[1].clone()),
            REST_COUNT => Ok(Value::Number(activation.rest.len() as i64)),
            CALL_NESTED => {
                let ex = self.nested.clone().expect("nested executable");
                let args: Vec<Value> = Vec::new();
                ex.exec(None, &args, activation, 99, session, self)
            }
            other => panic!("unknown native routine {}", other),
        }
    }

    fn run_bytecode(
        &mut self,
        session: &mut Session,
        method: &BytecodeRoutine,
        activation: &mut Activation,
    ) -> Result<Value, CallError> {
        self.observed_depth = session.call_depth();
        self.last_bytecode_args = activation.arguments.clone();
        match method.method_id {
            FIRST_ARG_METHOD => Ok(activation.arguments[0].clone()),
            FAULTING_METHOD => Err(CallError::Interpreter {
                message: "illegal instruction in stream".to_string(),
            }),
            other => panic!("unknown bytecode method {}", other),
        }
    }
}

fn param(name: &str, param_type: ParamType, default_value: Option<Value>) -> ParamSpec {
    ParamSpec { name: name.to_string(), param_type, default_value }
}

fn native_executable(
    routine: u64,
    name: &str,
    signature: Vec<ParamSpec>,
    is_variadic: bool,
) -> Executable {
    let method = NativeRoutine { routine, name: name.to_string(), signature, is_variadic };
    Executable::from_method(Method::Native(Rc::new(method)), ScopeChain::new(Vec::new()), None, None)
}

fn bytecode_executable(
    method_id: u64,
    signature: Vec<ParamSpec>,
    is_variadic: bool,
    is_unchecked: bool,
) -> Executable {
    let method = BytecodeRoutine { method_id, signature, is_variadic, is_unchecked };
    Executable::from_method(
        Method::Bytecode(Rc::new(method)),
        ScopeChain::new(Vec::new()),
        None,
        None,
    )
}

fn add_executable() -> Executable {
    native_executable(
        ADD,
        "add",
        vec![
            param("a", ParamType::Number, None),
            param("b", ParamType::Number, None),
        ],
        false,
    )
}

#[test]
fn native_call_binds_and_returns() {
    let mut session = Session::new();
    let mut host = TestHost::new();
    let caller = Activation::from_nothing(0);
    let args = vec![Value::Number(2), Value::Number(3)];
    let result = add_executable().exec(None, &args, &caller, 7, &mut session, &mut host);
    assert_eq!(result, Ok(Value::Number(5)));
    assert_eq!(session.call_depth(), 0);
}

#[test]
fn native_arity_overflow_fails_before_any_state() {
    let mut session = Session::new();
    let mut host = TestHost::new();
    let caller = Activation::from_nothing(0);
    let args = vec![Value::Number(2), Value::Number(3), Value::Number(4)];
    let result = add_executable().exec(None, &args, &caller, 7, &mut session, &mut host);
    let error = result.expect_err("three arguments on a two-parameter routine");
    assert_eq!(
        error,
        CallError::Arity { method_name: "add".to_string(), supplied: 3, max_params: 2 }
    );
    let message = error.message();
    assert!(message.contains("3 arguments"));
    assert!(message.contains("2 is prohibited"));
    assert_eq!(
        message,
        "Attempted to call \"add\" with 3 arguments (more than 2 is prohibited)"
    );
    assert_eq!(session.call_depth(), 0);
}

#[test]
fn native_missing_arguments_take_defaults() {
    let mut session = Session::new();
    let mut host = TestHost::new();
    let caller = Activation::from_nothing(0);
    let ex = native_executable(
        SECOND_ARG,
        "pick",
        vec![
            param("a", ParamType::Number, None),
            param("b", ParamType::Number, Some(Value::Number(10))),
        ],
        false,
    );
    let args = vec![Value::Number(5)];
    let result = ex.exec(None, &args, &caller, 7, &mut session, &mut host);
    assert_eq!(result, Ok(Value::Number(10)));
}

#[test]
fn native_missing_argument_without_default_is_undefined() {
    let mut session = Session::new();
    let mut host = TestHost::new();
    let caller = Activation::from_nothing(0);
    let ex = native_executable(
        SECOND_ARG,
        "pick",
        vec![
            param("a", ParamType::Number, None),
            param("b", ParamType::Any, None),
        ],
        false,
    );
    let args = vec![Value::Number(5)];
    let result = ex.exec(None, &args, &caller, 7, &mut session, &mut host);
    assert_eq!(result, Ok(Value::Undefined));
}

#[test]
fn native_coercion_failure_names_the_parameter() {
    let mut session = Session::new();
    let mut host = TestHost::new();
    let caller = Activation::from_nothing(0);
    let args = vec![Value::Str("x".to_string()), Value::Number(3)];
    let result = add_executable().exec(None, &args, &caller, 7, &mut session, &mut host);
    let error = result.expect_err("a string does not coerce to a number");
    assert_eq!(
        error,
        CallError::Coercion { method_name: "add".to_string(), param_name: "a".to_string() }
    );
    assert_eq!(
        error.message(),
        "Cannot coerce the argument bound to parameter \"a\" of \"add\""
    );
    assert_eq!(session.call_depth(), 0);
}

#[test]
fn native_variadic_collects_surplus_into_rest() {
    let mut session = Session::new();
    let mut host = TestHost::new();
    let caller = Activation::from_nothing(0);
    let ex = native_executable(
        REST_COUNT,
        "gather",
        vec![param("a", ParamType::Number, None)],
        true,
    );
    let args = vec![Value::Number(1), Value::Number(2), Value::Number(3)];
    let result = ex.exec(None, &args, &caller, 7, &mut session, &mut host);
    assert_eq!(result, Ok(Value::Number(2)));
}

#[test]
fn bound_receiver_wins_over_unbound() {
    let mut session = Session::new();
    let mut host = TestHost::new();
    let caller = Activation::from_nothing(0);
    let method = NativeRoutine {
        routine: ECHO_RECEIVER,
        name: "whoami".to_string(),
        signature: Vec::new(),
        is_variadic: false,
    };
    let ex = Executable::from_method(
        Method::Native(Rc::new(method)),
        ScopeChain::new(Vec::new()),
        Some(11),
        None,
    );
    let args: Vec<Value> = Vec::new();
    let result = ex.exec(Some(22), &args, &caller, 7, &mut session, &mut host);
    assert_eq!(result, Ok(Value::Object(11)));
}

#[test]
fn unbound_receiver_used_when_none_is_bound() {
    let mut session = Session::new();
    let mut host = TestHost::new();
    let caller = Activation::from_nothing(0);
    let ex = native_executable(ECHO_RECEIVER, "whoami", Vec::new(), false);
    let args: Vec<Value> = Vec::new();
    let result = ex.exec(Some(22), &args, &caller, 7, &mut session, &mut host);
    assert_eq!(result, Ok(Value::Object(22)));
}

#[test]
fn unchecked_bytecode_truncates_surplus_arguments() {
    let mut session = Session::new();
    let mut host = TestHost::new();
    let caller = Activation::from_nothing(0);
    let ex = bytecode_executable(
        FIRST_ARG_METHOD,
        vec![param("a", ParamType::Any, None)],
        false,
        true,
    );
    let args = vec![Value::Str("x".to_string()), Value::Str("y".to_string())];
    let result = ex.exec(None, &args, &caller, 7, &mut session, &mut host);
    assert_eq!(result, Ok(Value::Str("x".to_string())));
    assert_eq!(host.last_bytecode_args, vec![Value::Str("x".to_string())]);
    assert_eq!(session.call_depth(), 0);
}

#[test]
fn checked_bytecode_keeps_surplus_arguments() {
    let mut session = Session::new();
    let mut host = TestHost::new();
    let caller = Activation::from_nothing(0);
    let ex = bytecode_executable(
        FIRST_ARG_METHOD,
        vec![param("a", ParamType::Any, None)],
        false,
        false,
    );
    let args = vec![Value::Str("x".to_string()), Value::Str("y".to_string())];
    let result = ex.exec(None, &args, &caller, 7, &mut session, &mut host);
    assert_eq!(result, Ok(Value::Str("x".to_string())));
    assert_eq!(
        host.last_bytecode_args,
        vec![Value::Str("x".to_string()), Value::Str("y".to_string())]
    );
}

#[test]
fn nested_interpreter_error_surfaces_and_ledger_rebalances() {
    let mut session = Session::new();
    let mut host = TestHost::new();
    host.nested = Some(bytecode_executable(FAULTING_METHOD, Vec::new(), false, false));
    let caller = Activation::from_nothing(0);
    let outer = native_executable(CALL_NESTED, "outer", Vec::new(), false);
    let args: Vec<Value> = Vec::new();
    assert_eq!(session.call_depth(), 0);
    let result = outer.exec(None, &args, &caller, 7, &mut session, &mut host);
    assert_eq!(
        result,
        Err(CallError::Interpreter { message: "illegal instruction in stream".to_string() })
    );
    // The inner bytecode routine saw both frames on the ledger; after the
    // failure unwound through both calls the ledger is back to empty.
    assert_eq!(host.observed_depth, 2);
    assert_eq!(session.call_depth(), 0);
}

#[test]
fn ledger_records_the_innermost_call() {
    let mut session = Session::new();
    let mut host = TestHost::new();
    let caller = Activation::from_nothing(0);
    let args = vec![Value::Number(2), Value::Number(3)];
    add_executable().exec(None, &args, &caller, 7, &mut session, &mut host).unwrap();
    assert_eq!(host.observed_depth, 1);
    assert_eq!(host.observed_outermost, "add()");
    assert!(session.current_call().is_none());
}

#[test]
fn popping_an_empty_ledger_is_harmless() {
    let mut session = Session::new();
    assert!(session.pop_call().is_none());
    assert_eq!(session.call_depth(), 0);
}

#[test]
fn a_host_without_routines_reports_a_fault() {
    let mut session = Session::new();
    let mut host = NullHost;
    let caller = Activation::from_nothing(0);
    let args = vec![Value::Number(2), Value::Number(3)];
    let result = add_executable().exec(None, &args, &caller, 7, &mut session, &mut host);
    assert_eq!(
        result,
        Err(CallError::Interpreter { message: "no host routine is registered".to_string() })
    );
    assert_eq!(session.call_depth(), 0);
}

#[test]
fn scope_chains_are_shared_unchanged() {
    let scope = ScopeChain::new(vec![3, 1, 4]);
    assert_eq!(scope.len(), 3);
    assert_eq!(scope.frame(0), 3);
    assert_eq!(scope.frame(2), 4);
    let copy = scope.clone();
    assert_eq!(copy.len(), 3);
    assert_eq!(copy.frame(1), 1);
    let empty = ScopeChain::empty();
    assert_eq!(empty.len(), 0);
}
