use std::rc::Rc;
use vstd::prelude::*;

verus! {

/// One named trait record of a class: a method trait carries the stable
/// identity of its method record, any other trait kind carries none.
#[derive(Debug)]
pub struct TraitEntry {
    /// The local name of the trait.
    pub name: String,
    /// The method record identity for a method trait, `None` otherwise.
    pub method: Option<u64>,
}

/// The definition of a class, as far as the qualified-name resolver
/// needs it: its qualified name, its designated class initializer, and
/// its ordered class-side and instance-side trait tables.
#[derive(Debug)]
pub struct ClassDef {
    /// The qualified name of the class.
    pub name: String,
    /// The method record identity of the class initializer.
    pub class_init: u64,
    /// The ordered class-side ("static") trait table.
    pub class_traits: Vec<TraitEntry>,
    /// The ordered instance-side trait table.
    pub instance_traits: Vec<TraitEntry>,
}

/// A shared reference to a class definition.
pub type ClassRef = Rc<ClassDef>;

/// The first trait record in `traits` whose method identity is
/// `method_id`, searching in table order.
pub open spec fn spec_find_method_trait(traits: Seq<TraitEntry>, method_id: u64) -> Option<
    TraitEntry,
>
    decreases traits.len(),
{
    if traits.len() == 0 {
        None
    } else if traits[0].method == Some(method_id) {
        Some(traits[0])
    } else {
        spec_find_method_trait(traits.drop_first(), method_id)
    }
}

/// Linear scan of a trait table for the first method trait with the
/// given method record identity.
pub fn find_method_trait(traits: &Vec<TraitEntry>, method_id: u64) -> (res: Option<usize>)
    ensures
        match res {
            Some(i) => i < traits@.len() && spec_find_method_trait(traits@, method_id)
                == Some(traits@[i as int]),
            None => spec_find_method_trait(traits@, method_id) is None,
        },
{
    proof {
        assert(traits@.skip(0) =~= traits@);
    }
    let mut i: usize = 0;
    while i < traits.len()
        invariant
            i <= traits@.len(),
            spec_find_method_trait(traits@, method_id) == spec_find_method_trait(
                traits@.skip(i as int),
                method_id,
            ),
        decreases traits@.len() - i,
    {
        let found = match &traits[i].method {
            Some(m) => *m == method_id,
            None => false,
        };
        proof {
            assert(traits@.skip(i as int)[0] == traits@[i as int]);
            assert(traits@.skip(i as int).drop_first() =~= traits@.skip(i as int + 1));
        }
        if found {
            return Some(i);
        }
        i = i + 1;
    }
    proof {
        assert(traits@.skip(traits@.len() as int).len() == 0);
    }
    None
}

} // verus!
