use crate::shared::rc_dup;
use std::rc::Rc;
use vstd::prelude::*;

verus! {

/// A captured lexical environment: the ordered object handles of the
/// scope frames that were on the scope stack when a method closure was
/// created.  A scope chain is immutable and shared unchanged by every
/// `Executable` built from the same closure.
#[derive(Debug)]
pub struct ScopeChain {
    frames: Rc<Vec<u64>>,
}

impl View for ScopeChain {
    type V = Seq<u64>;

    closed spec fn view(&self) -> Seq<u64> {
        self.frames@
    }
}

impl ScopeChain {
    /// Capture a lexical environment from the given frame handles.
    pub fn new(frames: Vec<u64>) -> (res: Self)
        ensures
            res@ == frames@,
    {
        ScopeChain { frames: Rc::new(frames) }
    }

    /// An empty lexical environment.
    pub fn empty() -> (res: Self)
        ensures
            res@ == Seq::<u64>::empty(),
    {
        ScopeChain { frames: Rc::new(Vec::new()) }
    }

    /// The number of captured frames.
    pub fn len(&self) -> (res: usize)
        ensures
            res == self@.len(),
    {
        self.frames.len()
    }

    /// The frame handle at position `i`, outermost first.
    pub fn frame(&self, i: usize) -> (res: u64)
        requires
            i < self@.len(),
        ensures
            res == self@[i as int],
    {
        self.frames[i]
    }
}

impl Clone for ScopeChain {
    fn clone(&self) -> (res: Self)
        ensures
            res == *self,
    {
        ScopeChain { frames: rc_dup(&self.frames) }
    }
}

} // verus!
