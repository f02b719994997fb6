//! The bridge's cross-function guarantees, stated as verified functions so
//! the verifier checks them for every input.
//!
//! The remaining guarantees of this kind live on the functions themselves:
//! that a guarded region leaves the operand stack's top exactly where it was,
//! whatever was pushed or popped in between, is the contract of
//! [`crate::util::StackGuard::restore`]; that closing a scope with no
//! registrations is a no-op, and that a scope cannot be closed twice, are the
//! contract and the (consuming) signature of [`crate::scope::Scope::close`].

use vstd::prelude::*;
use crate::error::{Error, ErrorModel};
use crate::lua::{Lua, RegSlot, MAX_STACK, from_model};
use crate::value::{LuaRef, Value, ValueModel, MultiValue};
use crate::callback::Callback;
use crate::scope::{Scope, ScopeEntry, scope_intact, entry_fun};

verus! {

impl<C> Lua<C> {
    /// Law: for aliases `r1 = clone_ref(r0)` of a slot with one alias,
    /// dropping `r0` and then `r1` releases the registry slot exactly once.
    /// After the first drop the slot is still anchored with its value intact
    /// — the remaining alias is fully functional — and only the second drop
    /// vacates it. No other slot, stack entry or heap object is touched.
    ///
    /// The returned snapshot is the interpreter's state between the two
    /// drops, about which the middle clauses speak.
    pub fn alias_release_law(&mut self, r0: LuaRef) -> (mid: Ghost<Lua<C>>)
        requires
            old(self).wf(),
            old(self).slot_anchored(r0.slot as int),
            old(self).slot_count(r0.slot as int) == 1,
        ensures
            final(self).wf(),
            mid@.slot_anchored(r0.slot as int),
            mid@.slot_value(r0.slot as int) == old(self).slot_value(r0.slot as int),
            mid@.slot_count(r0.slot as int) == 1,
            final(self).registry@[r0.slot as int] == RegSlot::Free,
            forall|s: int|
                0 <= s < old(self).registry@.len() && s != r0.slot ==> final(self).registry@[s]
                    == old(self).registry@[s],
            final(self).stack@ == old(self).stack@,
            final(self).heap@ == old(self).heap@,
    {
        let r1 = self.clone_ref(r0);
        self.drop_ref(r0);
        let ghost mid_state = *self;
        self.drop_ref(r1);
        Ghost(mid_state)
    }

    /// Law: marshaling any representable host value into the runtime and
    /// back yields a value standing for the same runtime value, and leaves
    /// the operand stack exactly as it was. A by-value variant comes back
    /// equal to the value given; a reference variant comes back as a fresh
    /// alias of the same runtime object, anchored in a fresh slot.
    pub fn round_trip_law(&mut self, v: &Value) -> (r: Value)
        requires
            old(self).wf(),
            old(self).value_ok(v@),
            old(self).stack@.len() + 1 <= MAX_STACK,
        ensures
            final(self).wf(),
            final(self).stack@ == old(self).stack@,
            final(self).heap@ == old(self).heap@,
            final(self).value_ok(r@),
            final(self).resolve(r@) == old(self).resolve(v@),
            r@ == from_model(old(self).resolve(v@), old(self).registry@.len() as int),
            Self::value_slot(v@) matches Option::None ==> r@ == v@ && final(self).registry@ == old(
                self,
            ).registry@,
            Self::value_slot(v@) matches Option::Some(_) ==> final(self).slot_count(
                old(self).registry@.len() as int,
            ) == 1,
    {
        let guard = crate::util::StackGuard::new(self);
        self.assert_stack(1);
        let _ = self.to_vm(v);
        let idx = self.gettop() - 1;
        let r = self.from_vm(idx);
        guard.restore(self);
        proof {
            assert(self.stack@ =~= old(self).stack@);
        }
        r
    }
}

/// Law: a handle to a scope-registered function outlives the scope. After
/// the scope is closed the handle still names the function's — now dead —
/// object: calling it through the handle is admissible and fails with a
/// recoverable `CallbackDestructed` error, for any host callback, and can
/// never reach the extracted host closure.
pub fn scope_exit_law<C: Callback>(lua: &mut Lua<C>, cb: C) -> (r: Result<MultiValue, Error>)
    requires
        old(lua).wf(),
        old(lua).stack@.len() + 1 <= MAX_STACK,
    ensures
        final(lua).wf(),
        r matches Err(e) && e@ == ErrorModel::CallbackError(
            Box::new(ErrorModel::CallbackDestructed),
        ),
{
    proof {
        reveal_with_fuel(crate::error::error_model, 3);
    }
    let mut scope = Scope::new();
    let f = match scope.create_function(lua, cb) {
        Result::Ok(f) => f,
        Result::Err(_) => vstd::pervasive::unreached(),
    };
    let ghost snap = *lua;
    let ghost es = scope.destructors@;
    proof {
        assert(scope_intact(snap, es));
    }
    scope.close(lua);
    proof {
        let e = es[0];
        assert(e == ScopeEntry { fref: f.0 });
        assert(entry_fun(snap, e) == snap.fun_heap(f));
        assert(lua.fun_valid(f));
        assert(lua.fun_heap(f) == snap.fun_heap(f));
        assert(lua.fun_destructed(lua.fun_heap(f)));
    }
    lua.call_function(f, Vec::new())
}

} // verus!
