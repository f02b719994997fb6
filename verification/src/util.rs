//! The stack-guard discipline.

use vstd::prelude::*;
use crate::lua::Lua;
use crate::value::VmValue;

verus! {

/// Records the operand stack's top on entry to a region and restores it on
/// the way out, discarding anything pushed in between. Every sequence of
/// runtime calls that temporarily pushes values is bracketed by one guard, so
/// the operand stack never leaks values across a boundary crossing.
pub struct StackGuard {
    pub saved: usize,
}

impl StackGuard {
    /// Opens a guarded region, recording the current stack top.
    pub fn new<C>(lua: &Lua<C>) -> (g: StackGuard)
        ensures
            g.saved == lua.stack@.len(),
    {
        StackGuard { saved: lua.gettop() }
    }

    /// Closes the region: the stack's top is reset to the recorded value on
    /// every exit path, whatever was pushed or popped in between. The guard
    /// is consumed, so a region cannot be closed twice.
    pub fn restore<C>(self, lua: &mut Lua<C>)
        ensures
            final(lua).stack@.len() == self.saved,
            forall|i: int|
                0 <= i < self.saved && i < old(lua).stack@.len() ==> final(lua).stack@[i] == old(
                    lua,
                ).stack@[i],
            forall|i: int|
                old(lua).stack@.len() <= i < self.saved ==> final(lua).stack@[i] == VmValue::Nil,
            final(lua).registry@ == old(lua).registry@,
            final(lua).heap@ == old(lua).heap@,
            old(lua).wf() ==> final(lua).wf(),
    {
        lua.settop(self.saved);
    }
}

} // verus!
