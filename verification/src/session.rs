use crate::function::Executable;
use vstd::prelude::*;

verus! {

/// The session-owned call-stack ledger: the ordered record of the calls
/// currently in flight, pushed at call entry and popped at call exit,
/// with the most recent call on top.  Diagnostics read it to render
/// stack traces; the engine keeps it balanced across every call.
#[derive(Debug)]
pub struct Session {
    calls: Vec<Executable>,
}

impl Session {
    /// The ledger contents, bottom of the stack first.
    pub closed spec fn ledger(&self) -> Seq<Executable> {
        self.calls@
    }

    /// Open a session with an empty ledger.
    pub fn new() -> (res: Session)
        ensures
            res.ledger() == Seq::<Executable>::empty(),
    {
        Session { calls: Vec::new() }
    }

    /// Record a call entering execution.
    pub fn push_call(&mut self, call: Executable)
        ensures
            final(self).ledger() == old(self).ledger().push(call),
    {
        self.calls.push(call);
    }

    /// Record the most recent call leaving execution.
    pub fn pop_call(&mut self) -> (res: Option<Executable>)
        ensures
            old(self).ledger().len() > 0 ==> final(self).ledger() == old(self).ledger().drop_last()
                && res == Some(old(self).ledger().last()),
            old(self).ledger().len() == 0 ==> final(self).ledger() == old(self).ledger() && res
                is None,
    {
        let res = self.calls.pop();
        proof {
            if old(self).ledger().len() > 0 {
                assert(old(self).ledger().subrange(0, old(self).ledger().len() - 1)
                    =~= old(self).ledger().drop_last());
            }
        }
        res
    }

    /// How many calls are in flight.
    pub fn call_depth(&self) -> (res: usize)
        ensures
            res == self.ledger().len(),
    {
        self.calls.len()
    }

    /// The innermost currently-executing call, if any.
    pub fn current_call(&self) -> (res: Option<&Executable>)
        ensures
            self.ledger().len() > 0 ==> (res matches Some(e) && *e == self.ledger().last()),
            self.ledger().len() == 0 ==> res is None,
    {
        if self.calls.len() == 0 {
            None
        } else {
            Some(&self.calls[self.calls.len() - 1])
        }
    }

    /// The ledger entry at position `i`, bottom of the stack first.
    pub fn call_at(&self, i: usize) -> (res: &Executable)
        requires
            i < self.ledger().len(),
        ensures
            *res == self.ledger()[i as int],
    {
        &self.calls[i]
    }
}

} // verus!
