use vstd::prelude::*;

verus! {

/// A runtime value of the emulated program.
///
/// The invocation engine never computes with values: it only moves them
/// between callers, declared signature defaults and callees.  Numbers are
/// therefore modelled as exact integers and objects as opaque handles into
/// the host's object graph.
#[derive(Debug)]
pub enum Value {
    Undefined,
    Null,
    Bool(bool),
    Number(i64),
    Str(String),
    Object(u64),
}

/// Equality of runtime values: strings compare by contents, every other
/// variant by its payload.
pub open spec fn value_eq(a: Value, b: Value) -> bool {
    match (a, b) {
        (Value::Undefined, Value::Undefined) => true,
        (Value::Null, Value::Null) => true,
        (Value::Bool(x), Value::Bool(y)) => x == y,
        (Value::Number(x), Value::Number(y)) => x == y,
        (Value::Str(x), Value::Str(y)) => x@ == y@,
        (Value::Object(x), Value::Object(y)) => x == y,
        _ => false,
    }
}

/// Copy a byte buffer element by element.
pub(crate) fn clone_bytes(v: &Vec<u8>) -> (res: Vec<u8>)
    ensures
        res@ == v@,
{
    let mut out: Vec<u8> = Vec::new();
    let mut i: usize = 0;
    while i < v.len()
        invariant
            i <= v.len(),
            out@ == v@.subrange(0, i as int),
        decreases v.len() - i,
    {
        out.push(v[i]);
        proof {
            assert(v@.subrange(0, i as int).push(v@[i as int]) =~= v@.subrange(
                0,
                i as int + 1,
            ));
        }
        i = i + 1;
    }
    proof {
        assert(v@.subrange(0, v@.len() as int) =~= v@);
    }
    out
}

impl Clone for Value {
    fn clone(&self) -> (res: Self)
        ensures
            res == *self,
    {
        match self {
            Value::Undefined => Value::Undefined,
            Value::Null => Value::Null,
            Value::Bool(b) => Value::Bool(*b),
            Value::Number(n) => Value::Number(*n),
            Value::Str(s) => Value::Str(s.clone()),
            Value::Object(o) => Value::Object(*o),
        }
    }
}

impl PartialEq for Value {
    fn eq(&self, other: &Value) -> (r: bool) {
        match (self, other) {
            (Value::Undefined, Value::Undefined) => true,
            (Value::Null, Value::Null) => true,
            (Value::Bool(x), Value::Bool(y)) => *x == *y,
            (Value::Number(x), Value::Number(y)) => *x == *y,
            (Value::Str(x), Value::Str(y)) => *x == *y,
            (Value::Object(x), Value::Object(y)) => *x == *y,
            _ => false,
        }
    }
}

impl vstd::std_specs::cmp::PartialEqSpecImpl for Value {
    open spec fn obeys_eq_spec() -> bool {
        true
    }

    open spec fn eq_spec(&self, other: &Value) -> bool {
        value_eq(*self, *other)
    }
}

/// Copy a list of runtime values element by element.
pub(crate) fn clone_values(v: &Vec<Value>) -> (res: Vec<Value>)
    ensures
        res@ == v@,
{
    let mut out: Vec<Value> = Vec::new();
    let mut i: usize = 0;
    while i < v.len()
        invariant
            i <= v.len(),
            out@ == v@.subrange(0, i as int),
        decreases v.len() - i,
    {
        out.push(v[i].clone());
        proof {
            assert(v@.subrange(0, i as int).push(v@[i as int]) =~= v@.subrange(
                0,
                i as int + 1,
            ));
        }
        i = i + 1;
    }
    proof {
        assert(v@.subrange(0, v@.len() as int) =~= v@);
    }
    out
}

} // verus!
