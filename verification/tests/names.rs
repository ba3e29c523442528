use avm_engine::decimal::u64_to_decimal;
use avm_engine::{
    BytecodeRoutine, ClassDef, Executable, Method, NativeRoutine, ScopeChain, TraitEntry, Value,
};
use std::rc::Rc;

fn example_class() -> Rc<ClassDef> {
    Rc::new(ClassDef {
        name: "Example".to_string(),
        class_init: 1,
        class_traits: vec![
            TraitEntry { name: "slotValue".to_string(), method: None },
            TraitEntry { name: "setup".to_string(), method: Some(2) },
        ],
        instance_traits: vec![
            TraitEntry { name: "foo".to_string(), method: Some(3) },
            TraitEntry { name: "bar".to_string(), method: Some(4) },
        ],
    })
}

fn bytecode_bound(method_id: u64, class: Option<Rc<ClassDef>>) -> Executable {
    let method = BytecodeRoutine {
        method_id,
        signature: Vec::new(),
        is_variadic: false,
        is_unchecked: false,
    };
    Executable::from_method(
        Method::Bytecode(Rc::new(method)),
        ScopeChain::new(Vec::new()),
        None,
        class,
    )
}

fn native_bound(name: &str, class: Option<Rc<ClassDef>>) -> Executable {
    let method = NativeRoutine {
        routine: 9,
        name: name.to_string(),
        signature: Vec::new(),
        is_variadic: false,
    };
    Executable::from_method(Method::Native(Rc::new(method)), ScopeChain::new(Vec::new()), None, class)
}

#[test]
fn full_name_instance_method() {
    let ex = bytecode_bound(3, Some(example_class()));
    assert_eq!(ex.full_name(), "Example/foo()");
}

#[test]
fn full_name_second_instance_method() {
    let ex = bytecode_bound(4, Some(example_class()));
    assert_eq!(ex.full_name(), "Example/bar()");
}

#[test]
fn full_name_class_trait_method() {
    let ex = bytecode_bound(2, Some(example_class()));
    assert_eq!(ex.full_name(), "Example$/setup()");
}

#[test]
fn full_name_class_initializer() {
    let ex = bytecode_bound(1, Some(example_class()));
    assert_eq!(ex.full_name(), "Example$cinit()");
}

#[test]
fn full_name_unknown_method_is_synthetic() {
    let ex = bytecode_bound(42, Some(example_class()));
    assert_eq!(ex.full_name(), "ExampleMethodInfo-42()");
}

#[test]
fn full_name_unbound_bytecode_is_synthetic() {
    let ex = bytecode_bound(42, None);
    assert_eq!(ex.full_name(), "MethodInfo-42()");
}

#[test]
fn full_name_unbound_native() {
    let ex = native_bound("bar", None);
    assert_eq!(ex.full_name(), "bar()");
}

#[test]
fn full_name_bound_native_appends_the_declared_name() {
    let ex = native_bound("bar", Some(example_class()));
    assert_eq!(ex.full_name(), "Examplebar()");
}

#[test]
fn full_name_is_deterministic() {
    let ex = bytecode_bound(3, Some(example_class()));
    assert_eq!(ex.full_name(), ex.full_name());
}

#[test]
fn bound_superclass_returns_the_binding() {
    let class = example_class();
    let ex = bytecode_bound(3, Some(class.clone()));
    let back = ex.bound_superclass().expect("a bound superclass");
    assert_eq!(back.name, "Example");
    assert!(native_bound("bar", None).bound_superclass().is_none());
}

#[test]
fn super_root_falls_back_to_receiver_class() {
    let receiver_class = Rc::new(ClassDef {
        name: "ReceiverClass".to_string(),
        class_init: 7,
        class_traits: Vec::new(),
        instance_traits: Vec::new(),
    });
    let unbound = bytecode_bound(3, None);
    assert_eq!(unbound.super_root(&receiver_class).name, "ReceiverClass");
    let bound = bytecode_bound(3, Some(example_class()));
    assert_eq!(bound.super_root(&receiver_class).name, "Example");
}

#[test]
fn decimal_rendering() {
    assert_eq!(u64_to_decimal(0), "0");
    assert_eq!(u64_to_decimal(7), "7");
    assert_eq!(u64_to_decimal(10), "10");
    assert_eq!(u64_to_decimal(90210), "90210");
    assert_eq!(u64_to_decimal(u64::MAX), "18446744073709551615");
}

#[test]
fn value_equality_is_by_contents() {
    assert_eq!(Value::Str("abc".to_string()), Value::Str("abc".to_string()));
    assert_ne!(Value::Str("abc".to_string()), Value::Str("abd".to_string()));
    assert_ne!(Value::Number(0), Value::Undefined);
    assert_eq!(Value::Object(4), Value::Object(4));
}
