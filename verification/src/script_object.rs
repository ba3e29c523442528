use crate::shared::str_eq;
use crate::value::Value;
use crate::xml_socket::XmlSocket;
use vstd::prelude::*;

verus! {

/// One named property of a script object, with the attribute flags the
/// runtime tracks for it.
#[derive(Debug)]
pub struct Property {
    pub name: String,
    pub value: Value,
    /// The property is hidden from enumeration.
    pub dont_enum: bool,
    /// The property cannot be deleted.
    pub dont_delete: bool,
}

/// A built-in routine of the runtime's global objects.  A function
/// object carries one of these; the property subsystem invokes it when
/// the function is called or the property it backs is read.
#[derive(Clone, Copy, PartialEq, Eq, Structural, Debug)]
pub enum NativeFunction {
    NetConnectionConstructor,
    NetConnectionIsConnected,
    NetConnectionProtocol,
    NetConnectionUri,
    NetConnectionCall,
    NetConnectionClose,
    NetConnectionConnect,
}

/// Host-side data attached to a script object.
#[derive(Debug)]
pub enum NativeObject {
    /// A plain script object with no native data.
    Plain,
    /// A function object wrapping a built-in routine.
    Function(NativeFunction),
    /// The state of an XML socket.
    XmlSocket(XmlSocket),
}

/// A script object of the first-generation virtual machine: its
/// prototype link, its own properties (prototype traversal is the
/// property subsystem's concern, not this model's) and any attached
/// native data.
#[derive(Debug)]
pub struct ScriptObject {
    pub proto: Option<u64>,
    pub properties: Vec<Property>,
    pub native: NativeObject,
}

/// The position of the first property named `name`, searching from `i`.
pub open spec fn spec_find_property_from(props: Seq<Property>, name: Seq<char>, i: int) -> Option<
    int,
>
    decreases props.len() - i,
{
    if i < 0 || i >= props.len() {
        None
    } else if props[i].name@ == name {
        Some(i)
    } else {
        spec_find_property_from(props, name, i + 1)
    }
}

/// The position of the first property named `name`, if any.
pub open spec fn spec_find_property(props: Seq<Property>, name: Seq<char>) -> Option<int> {
    spec_find_property_from(props, name, 0)
}

/// The value of the first property named `name`, or `Undefined` when the
/// object has none.
pub open spec fn spec_get_property(props: Seq<Property>, name: Seq<char>) -> Value {
    match spec_find_property(props, name) {
        Some(i) => props[i].value,
        None => Value::Undefined,
    }
}

/// How a property store changes when `name` is defined as `value` with
/// the given attributes: an existing property of that name is replaced in
/// place, otherwise the property is appended.
pub open spec fn spec_props_defined(
    old_props: Seq<Property>,
    new_props: Seq<Property>,
    name: Seq<char>,
    value: Value,
    dont_enum: bool,
    dont_delete: bool,
) -> bool {
    match spec_find_property(old_props, name) {
        Some(i) => {
            &&& new_props.len() == old_props.len()
            &&& (forall|j: int| 0 <= j < old_props.len() && j != i ==> new_props[j] == old_props[j])
            &&& new_props[i].name@ == name
            &&& new_props[i].value == value
            &&& new_props[i].dont_enum == dont_enum
            &&& new_props[i].dont_delete == dont_delete
        },
        None => {
            &&& new_props.len() == old_props.len() + 1
            &&& (forall|j: int| 0 <= j < old_props.len() ==> new_props[j] == old_props[j])
            &&& new_props[old_props.len() as int].name@ == name
            &&& new_props[old_props.len() as int].value == value
            &&& new_props[old_props.len() as int].dont_enum == dont_enum
            &&& new_props[old_props.len() as int].dont_delete == dont_delete
        },
    }
}

/// Whether `obj` is a fresh function object wrapping `func`, with the
/// function prototype as its prototype link.
pub open spec fn spec_function_object(obj: ScriptObject, func: NativeFunction, fn_proto: u64) -> bool {
    &&& obj.proto == Some(fn_proto)
    &&& obj.properties@.len() == 0
    &&& obj.native == NativeObject::Function(func)
}

/// Whether property `p` binds `name` to the object `target` with the
/// given attribute flags.
pub open spec fn spec_property_binds(
    p: Property,
    name: Seq<char>,
    target: u64,
    dont_enum: bool,
    dont_delete: bool,
) -> bool {
    &&& p.name@ == name
    &&& p.value == Value::Object(target)
    &&& p.dont_enum == dont_enum
    &&& p.dont_delete == dont_delete
}

/// A fresh function object wrapping `func`, with the function prototype
/// as its prototype link.
pub fn function_object(func: NativeFunction, fn_proto: u64) -> (res: ScriptObject)
    ensures
        spec_function_object(res, func, fn_proto),
{
    ScriptObject {
        proto: Some(fn_proto),
        properties: Vec::new(),
        native: NativeObject::Function(func),
    }
}

/// Property search only reads names: two stores whose entries carry the
/// same names position by position are searched alike.
pub proof fn lemma_find_congruent(p1: Seq<Property>, p2: Seq<Property>, name: Seq<char>, i: int)
    requires
        p1.len() == p2.len(),
        forall|j: int| 0 <= j < p1.len() ==> p2[j].name@ == p1[j].name@,
    ensures
        spec_find_property_from(p1, name, i) == spec_find_property_from(p2, name, i),
    decreases p1.len() - i,
{
    if 0 <= i < p1.len() {
        lemma_find_congruent(p1, p2, name, i + 1);
    }
}

/// Appending an entry named `name` to a store that has none makes that
/// entry the first (and only) match.
pub proof fn lemma_find_extended(
    old_props: Seq<Property>,
    new_props: Seq<Property>,
    name: Seq<char>,
    i: int,
)
    requires
        0 <= i <= old_props.len(),
        new_props.len() == old_props.len() + 1,
        forall|j: int| 0 <= j < old_props.len() ==> new_props[j].name@ == old_props[j].name@,
        new_props[old_props.len() as int].name@ == name,
        spec_find_property_from(old_props, name, i) is None,
    ensures
        spec_find_property_from(new_props, name, i) == Some(old_props.len() as int),
    decreases old_props.len() - i,
{
    if i < old_props.len() {
        lemma_find_extended(old_props, new_props, name, i + 1);
    }
}

impl ScriptObject {
    /// A fresh plain object with no properties.
    pub fn new() -> (res: ScriptObject)
        ensures
            res.proto is None,
            res.properties@ == Seq::<Property>::empty(),
            res.native is Plain,
    {
        ScriptObject { proto: None, properties: Vec::new(), native: NativeObject::Plain }
    }

    /// The position of this object's own property named `name`, if any.
    fn find_property(&self, name: &str) -> (res: Option<usize>)
        ensures
            match res {
                Some(i) => i < self.properties@.len() && spec_find_property(
                    self.properties@,
                    name@,
                ) == Some(i as int),
                None => spec_find_property(self.properties@, name@) is None,
            },
    {
        let mut i: usize = 0;
        while i < self.properties.len()
            invariant
                i <= self.properties@.len(),
                spec_find_property(self.properties@, name@) == spec_find_property_from(
                    self.properties@,
                    name@,
                    i as int,
                ),
            decreases self.properties@.len() - i,
        {
            if str_eq(self.properties[i].name.as_str(), name) {
                return Some(i);
            }
            i = i + 1;
        }
        None
    }

    /// The value of this object's own property named `name`, or
    /// `Undefined` when it has none.
    pub fn get(&self, name: &str) -> (res: Value)
        ensures
            res == spec_get_property(self.properties@, name@),
    {
        match self.find_property(name) {
            Some(i) => self.properties[i].value.clone(),
            None => Value::Undefined,
        }
    }

    /// Define the property `name` as `value` with the given attribute
    /// flags, replacing any existing property of that name.
    pub fn define_value(&mut self, name: &str, value: Value, dont_enum: bool, dont_delete: bool)
        ensures
            spec_props_defined(
                old(self).properties@,
                final(self).properties@,
                name@,
                value,
                dont_enum,
                dont_delete,
            ),
            final(self).proto == old(self).proto,
            final(self).native == old(self).native,
    {
        let entry = Property { name: name.to_owned(), value, dont_enum, dont_delete };
        match self.find_property(name) {
            Some(i) => {
                self.properties[i] = entry;
            },
            None => {
                self.properties.push(entry);
            },
        }
    }

    /// Set the property `name` to `value`, keeping the attribute flags of
    /// an existing property and creating an unrestricted one otherwise.
    pub fn set(&mut self, name: &str, value: Value)
        ensures
            final(self).proto == old(self).proto,
            final(self).native == old(self).native,
            match spec_find_property(old(self).properties@, name@) {
                Some(i) => {
                    &&& final(self).properties@.len() == old(self).properties@.len()
                    &&& (forall|j: int|
                        0 <= j < old(self).properties@.len() && j != i
                            ==> final(self).properties@[j] == old(self).properties@[j])
                    &&& final(self).properties@[i].name@ == old(self).properties@[i].name@
                    &&& final(self).properties@[i].value == value
                    &&& final(self).properties@[i].dont_enum
                        == old(self).properties@[i].dont_enum
                    &&& final(self).properties@[i].dont_delete
                        == old(self).properties@[i].dont_delete
                },
                None => spec_props_defined(
                    old(self).properties@,
                    final(self).properties@,
                    name@,
                    value,
                    false,
                    false,
                ),
            },
    {
        match self.find_property(name) {
            Some(i) => {
                let entry = Property {
                    name: self.properties[i].name.clone(),
                    value,
                    dont_enum: self.properties[i].dont_enum,
                    dont_delete: self.properties[i].dont_delete,
                };
                self.properties[i] = entry;
            },
            None => {
                self.properties.push(
                    Property { name: name.to_owned(), value, dont_enum: false, dont_delete: false },
                );
            },
        }
    }
}

/// The open socket handles of the session's socket backend.
#[derive(Debug)]
pub struct Sockets {
    pub active: Vec<u64>,
}

impl Sockets {
    /// A socket backend with no open sockets.
    pub fn new() -> (res: Sockets)
        ensures
            res.active@ == Seq::<u64>::empty(),
    {
        Sockets { active: Vec::new() }
    }

    /// Whether `handle` is currently open.
    pub fn is_open(&self, handle: u64) -> (res: bool)
        ensures
            res == self.active@.contains(handle),
    {
        let mut i: usize = 0;
        while i < self.active.len()
            invariant
                i <= self.active@.len(),
                forall|j: int| 0 <= j < i ==> self.active@[j] != handle,
            decreases self.active@.len() - i,
        {
            if self.active[i] == handle {
                return true;
            }
            i = i + 1;
        }
        proof {
            assert(forall|j: int| 0 <= j < self.active@.len() ==> self.active@[j] != handle);
        }
        false
    }

    /// Open a socket under the given handle.
    pub fn open(&mut self, handle: u64)
        ensures
            final(self).active@ == old(self).active@.push(handle),
    {
        self.active.push(handle);
    }

    /// Close every socket open under the given handle.
    pub fn close(&mut self, handle: u64)
        ensures
            final(self).active@ == old(self).active@.filter(|h: u64| h != handle),
    {
        let mut kept: Vec<u64> = Vec::new();
        let mut i: usize = 0;
        while i < self.active.len()
            invariant
                i <= self.active@.len(),
                kept@ == old(self).active@.subrange(0, i as int).filter(|h: u64| h != handle),
                self.active@ == old(self).active@,
            decreases self.active@.len() - i,
        {
            proof {
                reveal_with_fuel(Seq::filter, 2);
                assert(old(self).active@.subrange(0, i as int + 1).drop_last() =~= old(
                    self,
                ).active@.subrange(0, i as int));
                assert(old(self).active@.subrange(0, i as int + 1).last() == old(
                    self,
                ).active@[i as int]);
            }
            if self.active[i] != handle {
                kept.push(self.active[i]);
            }
            i = i + 1;
        }
        proof {
            assert(old(self).active@.subrange(0, old(self).active@.len() as int) =~= old(
                self,
            ).active@);
        }
        self.active = kept;
    }
}

/// The modelled session state of the first-generation virtual machine:
/// its object store, addressed by object handle, and its socket backend.
#[derive(Debug)]
pub struct Avm1 {
    pub objects: Vec<ScriptObject>,
    pub sockets: Sockets,
}

impl Avm1 {
    /// A fresh session with no objects and no open sockets.
    pub fn new() -> (res: Avm1)
        ensures
            res.objects@ == Seq::<ScriptObject>::empty(),
            res.sockets.active@ == Seq::<u64>::empty(),
    {
        Avm1 { objects: Vec::new(), sockets: Sockets::new() }
    }

    /// Add an object to the store and hand back its handle.
    pub fn add_object(&mut self, object: ScriptObject) -> (res: u64)
        requires
            old(self).objects@.len() < u64::MAX,
        ensures
            final(self).objects@ == old(self).objects@.push(object),
            final(self).sockets == old(self).sockets,
            res == old(self).objects@.len(),
    {
        let id = self.objects.len() as u64;
        self.objects.push(object);
        id
    }
}

} // verus!
