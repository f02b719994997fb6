//! Bounded-lifetime registration of host callbacks, with forced invalidation
//! at scope exit.
//!
//! A scope accepts registrations while open and is closed exactly once:
//! [`Scope::close`] consumes the scope, so a second teardown is impossible by
//! construction. Teardown is two-phase: first every registration is unlinked
//! from the runtime, in registration order, the extracted host objects
//! collected into a holding sequence; only once all runtime-side invalidation
//! has completed is the holding sequence dropped, running the host objects'
//! own destruction. An interruption of one object's destruction therefore
//! cannot leave a later object still wired live into the runtime.

use vstd::prelude::*;
use crate::error::Error;
use crate::lua::{Lua, HeapObj, RegSlot, heap_tag_of};
use crate::value::{LuaRef, ObjTag, VmValue, Function};
use crate::callback::Callback;

verus! {

/// One recorded registration: the scope's own alias of the registered
/// function, to be invalidated and released at scope exit.
pub struct ScopeEntry {
    pub fref: LuaRef,
}

/// A bounded-lifetime registration surface: callbacks registered through a
/// scope expire when the scope is closed.
pub struct Scope {
    pub destructors: Vec<ScopeEntry>,
}

/// Whether entry `e` is still intact in `lua`: its slot anchors a live
/// function whose upvalue owns a host callback.
pub open spec fn entry_ok<C>(lua: Lua<C>, e: ScopeEntry) -> bool {
    &&& lua.fun_valid(Function(e.fref))
    &&& !lua.fun_destructed(lua.fun_heap(Function(e.fref)))
    &&& lua.ud_present(lua.fun_ud(lua.fun_heap(Function(e.fref))))
}

/// The heap index of the function object entry `e` names.
pub open spec fn entry_fun<C>(lua: Lua<C>, e: ScopeEntry) -> int {
    lua.fun_heap(Function(e.fref))
}

/// The heap index of the userdata object behind entry `e`.
pub open spec fn entry_ud<C>(lua: Lua<C>, e: ScopeEntry) -> int {
    lua.fun_ud(lua.fun_heap(Function(e.fref)))
}

/// The entries name pairwise distinct slots, function objects and userdata
/// objects — as registration through one scope guarantees.
pub open spec fn entries_distinct<C>(lua: Lua<C>, es: Seq<ScopeEntry>) -> bool {
    forall|i: int, j: int|
        0 <= i < j < es.len() ==> es[i].fref.slot != es[j].fref.slot && entry_fun(
            lua,
            #[trigger] es[i],
        ) != entry_fun(lua, #[trigger] es[j]) && entry_ud(lua, es[i]) != entry_ud(lua, es[j])
}

/// Every registration of the scope is still intact and they are pairwise
/// distinct.
pub open spec fn scope_intact<C>(lua: Lua<C>, es: Seq<ScopeEntry>) -> bool {
    &&& forall|i: int| 0 <= i < es.len() ==> entry_ok(lua, #[trigger] es[i])
    &&& entries_distinct(lua, es)
}

/// An intact entry's function and userdata objects lie in the heap under
/// their respective kinds; in particular the two indices never coincide.
pub proof fn lemma_entry_facts<C>(lua: Lua<C>, e: ScopeEntry)
    requires
        lua.wf(),
        entry_ok(lua, e),
    ensures
        0 <= entry_fun(lua, e) < lua.heap@.len(),
        0 <= entry_ud(lua, e) < lua.heap@.len(),
        heap_tag_of(lua.heap@[entry_fun(lua, e)]) == ObjTag::Function,
        heap_tag_of(lua.heap@[entry_ud(lua, e)]) == ObjTag::UserData,
{
    let s = e.fref.slot as int;
    assert(lua.reg_slot_ok(lua.registry@[s]));
    let h = entry_fun(lua, e);
    assert(lua.heap_obj_ok(lua.heap@[h]));
}

/// Unlinks one registration from the runtime: takes the host callback out of
/// the function's userdata, overwrites the upvalue with nil — so a stale
/// reference to the function fails cleanly instead of touching freed memory —
/// and releases the scope's alias of the function. Returns the extracted
/// callback for deferred destruction. An entry that is no longer intact is
/// only released.
fn invalidate_entry<C: Callback>(lua: &mut Lua<C>, e: ScopeEntry) -> (r: Option<C>)
    requires
        old(lua).wf(),
    ensures
        final(lua).wf(),
        final(lua).stack@ == old(lua).stack@,
        final(lua).heap@.len() == old(lua).heap@.len(),
        final(lua).registry@.len() == old(lua).registry@.len(),
        forall|s: int|
            0 <= s < old(lua).registry@.len() && s != e.fref.slot ==> final(lua).registry@[s]
                == old(lua).registry@[s],
        old(lua).slot_anchored(e.fref.slot as int) ==> ({
            &&& old(lua).slot_count(e.fref.slot as int) > 1 ==> final(lua).slot_anchored(
                e.fref.slot as int,
            ) && final(lua).slot_value(e.fref.slot as int) == old(lua).slot_value(
                e.fref.slot as int,
            ) && final(lua).slot_count(e.fref.slot as int) == old(lua).slot_count(
                e.fref.slot as int,
            ) - 1
            &&& old(lua).slot_count(e.fref.slot as int) == 1 ==> final(lua).registry@[e.fref.slot as int]
                == RegSlot::Free
        }),
        !old(lua).slot_anchored(e.fref.slot as int) ==> final(lua).registry@ == old(lua).registry@,
        forall|h: int|
            0 <= h < old(lua).heap@.len() && h != entry_fun(*old(lua), e) && h != entry_ud(
                *old(lua),
                e,
            ) ==> final(lua).heap@[h] == old(lua).heap@[h],
        forall|h: int|
            0 <= h < old(lua).heap@.len() && heap_tag_of(old(lua).heap@[h]) == ObjTag::Table
                ==> final(lua).heap@[h] == old(lua).heap@[h],
        entry_ok(*old(lua), e) ==> ({
            &&& final(lua).fun_destructed(entry_fun(*old(lua), e))
            &&& !final(lua).ud_present(entry_ud(*old(lua), e))
            &&& final(lua).heap@[entry_fun(*old(lua), e)] == (HeapObj::Func::<C> {
                upvalue: VmValue::Nil,
            })
            &&& r is Some
        }),
        !entry_ok(*old(lua), e) ==> r is None,
{
    let ok_fun = lua.check_ref(e.fref, ObjTag::Function);
    if !ok_fun {
        // a stale or foreign entry: only release the alias if one is held
        if e.fref.slot < lua.registry.len() {
            let anchored = match &lua.registry[e.fref.slot] {
                RegSlot::Anchored { .. } => true,
                RegSlot::Free => false,
            };
            if anchored {
                lua.drop_ref(e.fref);
            }
        }
        return Option::None;
    }
    let h: usize = match &lua.registry[e.fref.slot] {
        RegSlot::Anchored { value, .. } => match value {
            VmValue::Obj(_, hh) => *hh,
            _ => vstd::pervasive::unreached(),
        },
        RegSlot::Free => vstd::pervasive::unreached(),
    };
    let uopt: Option<usize> = match &lua.heap[h] {
        HeapObj::Func { upvalue } => match upvalue {
            VmValue::Nil => Option::None,
            VmValue::Obj(_, uu) => Option::Some(*uu),
            _ => vstd::pervasive::unreached(),
        },
        _ => vstd::pervasive::unreached(),
    };
    match uopt {
        Option::None => {
            // already invalidated: only the alias is left to release
            lua.drop_ref(e.fref);
            Option::None
        },
        Option::Some(u) => {
            proof {
                assert(old(lua).reg_slot_ok(old(lua).registry@[e.fref.slot as int]));
                assert(old(lua).heap_obj_ok(old(lua).heap@[h as int]));
            }
            // take the host object out of the userdata
            let mut tmp = HeapObj::UserData { cb: Option::None, shared: false };
            core::mem::swap(&mut tmp, &mut lua.heap[u]);
            let extracted: Option<C> = match tmp {
                HeapObj::UserData { cb, .. } => cb,
                _ => vstd::pervasive::unreached(),
            };
            // neutralize the function's upvalue
            lua.heap[h] = HeapObj::Func { upvalue: VmValue::Nil };
            lua.drop_ref(e.fref);
            extracted
        },
    }
}

impl Scope {
    /// An open scope with no registrations.
    pub fn new() -> (s: Scope)
        ensures
            s.destructors@.len() == 0,
    {
        Scope { destructors: Vec::new() }
    }

    /// How many registrations the scope holds.
    pub fn len(&self) -> (n: usize)
        ensures
            n == self.destructors@.len(),
    {
        self.destructors.len()
    }

    /// Registers a re-entrant host callback, creating a callable runtime
    /// function handle to it that expires when the scope is closed. The
    /// scope records its own alias of the function for the teardown, so the
    /// function's slot counts two aliases: the returned handle's and the
    /// scope's.
    pub fn create_function<C: Callback>(&mut self, lua: &mut Lua<C>, func: C) -> (r: Result<
        Function,
        Error,
    >)
        requires
            old(lua).wf(),
        ensures
            final(lua).wf(),
            final(self).destructors@.len() == old(self).destructors@.len() + 1,
            forall|i: int|
                0 <= i < old(self).destructors@.len() ==> final(self).destructors@[i] == old(
                    self,
                ).destructors@[i],
            final(lua).stack@ == old(lua).stack@,
            final(lua).heap@.len() == old(lua).heap@.len() + 2,
            forall|h: int|
                0 <= h < old(lua).heap@.len() ==> final(lua).heap@[h] == old(lua).heap@[h],
            final(lua).registry@.len() == old(lua).registry@.len() + 1,
            forall|s: int|
                0 <= s < old(lua).registry@.len() ==> final(lua).registry@[s] == old(
                    lua,
                ).registry@[s],
            r matches Ok(f) && ({
                &&& f.0.slot == old(lua).registry@.len()
                &&& final(self).destructors@[old(self).destructors@.len() as int]
                    == (ScopeEntry { fref: f.0 })
                &&& final(lua).fun_valid(f)
                &&& final(lua).slot_count(f.0.slot as int) == 2
                &&& final(lua).fun_heap(f) == old(lua).heap@.len() + 1
                &&& final(lua).fun_ud(old(lua).heap@.len() as int + 1) == old(
                    lua,
                ).heap@.len() as int
                &&& !final(lua).fun_destructed(final(lua).fun_heap(f))
                &&& final(lua).ud_present(old(lua).heap@.len() as int)
                &&& final(lua).ud_shared(old(lua).heap@.len() as int)
            }),
    {
        let f = lua.create_callback(func, true);
        let alias = lua.clone_ref(f.0);
        self.destructors.push(ScopeEntry { fref: alias });
        Ok(f)
    }

    /// Registers an exclusive (mutable) host callback, guarded against
    /// re-entry: invoking it while it is already executing fails with a
    /// `RecursiveMutCallback` cause. Expires when the scope is closed, like
    /// [`Scope::create_function`].
    pub fn create_function_mut<C: Callback>(&mut self, lua: &mut Lua<C>, func: C) -> (r: Result<
        Function,
        Error,
    >)
        requires
            old(lua).wf(),
        ensures
            final(lua).wf(),
            final(self).destructors@.len() == old(self).destructors@.len() + 1,
            forall|i: int|
                0 <= i < old(self).destructors@.len() ==> final(self).destructors@[i] == old(
                    self,
                ).destructors@[i],
            final(lua).stack@ == old(lua).stack@,
            final(lua).heap@.len() == old(lua).heap@.len() + 2,
            forall|h: int|
                0 <= h < old(lua).heap@.len() ==> final(lua).heap@[h] == old(lua).heap@[h],
            final(lua).registry@.len() == old(lua).registry@.len() + 1,
            forall|s: int|
                0 <= s < old(lua).registry@.len() ==> final(lua).registry@[s] == old(
                    lua,
                ).registry@[s],
            r matches Ok(f) && ({
                &&& f.0.slot == old(lua).registry@.len()
                &&& final(self).destructors@[old(self).destructors@.len() as int]
                    == (ScopeEntry { fref: f.0 })
                &&& final(lua).fun_valid(f)
                &&& final(lua).slot_count(f.0.slot as int) == 2
                &&& final(lua).fun_heap(f) == old(lua).heap@.len() + 1
                &&& final(lua).fun_ud(old(lua).heap@.len() as int + 1) == old(
                    lua,
                ).heap@.len() as int
                &&& !final(lua).fun_destructed(final(lua).fun_heap(f))
                &&& final(lua).ud_present(old(lua).heap@.len() as int)
                &&& !final(lua).ud_shared(old(lua).heap@.len() as int)
            }),
    {
        let f = lua.create_callback(func, false);
        let alias = lua.clone_ref(f.0);
        self.destructors.push(ScopeEntry { fref: alias });
        Ok(f)
    }

    /// Closes the scope, consuming it: every registration is invalidated in
    /// registration order (phase one), and only then are the extracted host
    /// objects dropped (phase two). Closing a scope with no registrations
    /// leaves the interpreter untouched; closing twice is impossible, since
    /// the scope is consumed.
    pub fn close<C: Callback>(self, lua: &mut Lua<C>)
        requires
            old(lua).wf(),
        ensures
            final(lua).wf(),
            final(lua).stack@ == old(lua).stack@,
            final(lua).heap@.len() == old(lua).heap@.len(),
            final(lua).registry@.len() == old(lua).registry@.len(),
            self.destructors@.len() == 0 ==> *final(lua) == *old(lua),
            forall|s: int|
                0 <= s < old(lua).registry@.len() && (forall|k: int|
                    0 <= k < self.destructors@.len() ==> (#[trigger] self.destructors@[k]).fref.slot
                        != s) ==> #[trigger] final(lua).registry@[s] == old(lua).registry@[s],
            forall|h: int|
                0 <= h < old(lua).heap@.len() && heap_tag_of(old(lua).heap@[h]) == ObjTag::Table
                    ==> final(lua).heap@[h] == old(lua).heap@[h],
            scope_intact(*old(lua), self.destructors@) ==> forall|h: int|
                0 <= h < old(lua).heap@.len() && (forall|k: int|
                    0 <= k < self.destructors@.len() ==> h != entry_fun(
                        *old(lua),
                        #[trigger] self.destructors@[k],
                    ) && h != entry_ud(*old(lua), self.destructors@[k])) ==> #[trigger] final(lua).heap@[h] == old(lua).heap@[h],
            scope_intact(*old(lua), self.destructors@) ==> forall|i: int|
                0 <= i < self.destructors@.len() ==> ({
                    let e = #[trigger] self.destructors@[i];
                    &&& final(lua).fun_destructed(entry_fun(*old(lua), e))
                    &&& !final(lua).ud_present(entry_ud(*old(lua), e))
                    &&& old(lua).slot_count(e.fref.slot as int) > 1 ==> final(lua).slot_anchored(
                        e.fref.slot as int,
                    ) && final(lua).slot_value(e.fref.slot as int) == old(lua).slot_value(
                        e.fref.slot as int,
                    ) && final(lua).slot_count(e.fref.slot as int) == old(lua).slot_count(
                        e.fref.slot as int,
                    ) - 1
                    &&& old(lua).slot_count(e.fref.slot as int) == 1 ==> final(lua).registry@[e.fref.slot as int] == RegSlot::Free
                }),
    {
        let entries = self.destructors;
        let n = entries.len();
        let mut holding: Vec<Option<C>> = Vec::new();
        // phase one: unlink every registration from the runtime, in
        // registration order
        let mut i: usize = 0;
        while i < n
            invariant
                i <= n,
                n == entries@.len(),
                old(lua).wf(),
                lua.wf(),
                lua.stack@ == old(lua).stack@,
                lua.heap@.len() == old(lua).heap@.len(),
                lua.registry@.len() == old(lua).registry@.len(),
                i == 0 ==> *lua == *old(lua),
                forall|s: int|
                    0 <= s < old(lua).registry@.len() && (forall|k: int|
                        0 <= k < n ==> (#[trigger] entries@[k]).fref.slot != s)
                        ==> #[trigger] lua.registry@[s] == old(lua).registry@[s],
                forall|h: int|
                    0 <= h < old(lua).heap@.len() && heap_tag_of(old(lua).heap@[h])
                        == ObjTag::Table ==> lua.heap@[h] == old(lua).heap@[h],
                scope_intact(*old(lua), entries@) ==> ({
                    &&& forall|h: int|
                        0 <= h < old(lua).heap@.len() && (forall|k: int|
                            0 <= k < n ==> h != entry_fun(*old(lua), #[trigger] entries@[k]) && h
                                != entry_ud(*old(lua), entries@[k])) ==> #[trigger] lua.heap@[h]
                            == old(lua).heap@[h]
                    &&& forall|j: int|
                        0 <= j < i ==> ({
                            let e = #[trigger] entries@[j];
                            &&& lua.fun_destructed(entry_fun(*old(lua), e))
                            &&& !lua.ud_present(entry_ud(*old(lua), e))
                            &&& old(lua).slot_count(e.fref.slot as int) > 1 ==> lua.slot_anchored(
                                e.fref.slot as int,
                            ) && lua.slot_value(e.fref.slot as int) == old(lua).slot_value(
                                e.fref.slot as int,
                            ) && lua.slot_count(e.fref.slot as int) == old(lua).slot_count(
                                e.fref.slot as int,
                            ) - 1
                            &&& old(lua).slot_count(e.fref.slot as int) == 1 ==> lua.registry@[
                                e.fref.slot as int] == RegSlot::Free
                        })
                    &&& forall|j: int|
                        i <= j < n ==> ({
                            let e = #[trigger] entries@[j];
                            &&& lua.registry@[e.fref.slot as int] == old(lua).registry@[
                                e.fref.slot as int]
                            &&& lua.heap@[entry_fun(*old(lua), e)] == old(lua).heap@[entry_fun(
                                *old(lua),
                                e,
                            )]
                            &&& lua.heap@[entry_ud(*old(lua), e)] == old(lua).heap@[entry_ud(
                                *old(lua),
                                e,
                            )]
                        })
                }),
            decreases n - i,
        {
            let ghost pre = *lua;
            let e = ScopeEntry { fref: entries[i].fref };
            let extracted = invalidate_entry(lua, e);
            holding.push(extracted);
            proof {
                assert forall|s: int|
                    0 <= s < old(lua).registry@.len() && (forall|k: int|
                        0 <= k < n ==> (#[trigger] entries@[k]).fref.slot != s) implies #[trigger] lua.registry@[s] == old(lua).registry@[s] by {
                    assert(entries@[i as int].fref.slot != s);
                    assert(lua.registry@[s] == pre.registry@[s]);
                }
                assert forall|h: int|
                    0 <= h < old(lua).heap@.len() && heap_tag_of(old(lua).heap@[h])
                        == ObjTag::Table implies lua.heap@[h] == old(lua).heap@[h] by {
                    assert(pre.heap@[h] == old(lua).heap@[h]);
                    assert(heap_tag_of(pre.heap@[h]) == ObjTag::Table);
                }
                if scope_intact(*old(lua), entries@) {
                    let ei = entries@[i as int];
                    assert(e == ei);
                    assert(entry_ok(*old(lua), ei));
                    assert(pre.registry@[ei.fref.slot as int] == old(lua).registry@[
                        ei.fref.slot as int]);
                    assert(entry_ok(pre, ei));
                    assert(entry_fun(pre, ei) == entry_fun(*old(lua), ei));
                    assert(entry_ud(pre, ei) == entry_ud(*old(lua), ei));
                    assert forall|h: int|
                        0 <= h < old(lua).heap@.len() && (forall|k: int|
                            0 <= k < n ==> h != entry_fun(*old(lua), #[trigger] entries@[k]) && h
                                != entry_ud(*old(lua), entries@[k])) implies #[trigger] lua.heap@[h] == old(lua).heap@[h] by {
                        assert(h != entry_fun(*old(lua), ei) && h != entry_ud(*old(lua), ei));
                        assert(lua.heap@[h] == pre.heap@[h]);
                        assert(pre.heap@[h] == old(lua).heap@[h]);
                    }
                    assert forall|j: int| 0 <= j < i + 1 implies ({
                        let e2 = #[trigger] entries@[j];
                        &&& lua.fun_destructed(entry_fun(*old(lua), e2))
                        &&& !lua.ud_present(entry_ud(*old(lua), e2))
                        &&& old(lua).slot_count(e2.fref.slot as int) > 1 ==> lua.slot_anchored(
                            e2.fref.slot as int,
                        ) && lua.slot_value(e2.fref.slot as int) == old(lua).slot_value(
                            e2.fref.slot as int,
                        ) && lua.slot_count(e2.fref.slot as int) == old(lua).slot_count(
                            e2.fref.slot as int,
                        ) - 1
                        &&& old(lua).slot_count(e2.fref.slot as int) == 1 ==> lua.registry@[
                            e2.fref.slot as int] == RegSlot::Free
                    }) by {
                        let e2 = entries@[j];
                        if j < i {
                            assert(e2.fref.slot != ei.fref.slot);
                            assert(entry_fun(*old(lua), e2) != entry_fun(*old(lua), ei));
                            assert(entry_ud(*old(lua), e2) != entry_ud(*old(lua), ei));
                            assert(entry_ok(*old(lua), e2));
                            lemma_entry_facts(*old(lua), e2);
                            lemma_entry_facts(*old(lua), ei);
                            assert(lua.registry@[e2.fref.slot as int] == pre.registry@[
                                e2.fref.slot as int]);
                            assert(lua.heap@[entry_fun(*old(lua), e2)] == pre.heap@[entry_fun(
                                *old(lua),
                                e2,
                            )]);
                            assert(lua.heap@[entry_ud(*old(lua), e2)] == pre.heap@[entry_ud(
                                *old(lua),
                                e2,
                            )]);
                        } else {
                            assert(lua.fun_destructed(entry_fun(pre, ei)));
                            assert(!lua.ud_present(entry_ud(pre, ei)));
                        }
                    }
                    assert forall|j: int| i + 1 <= j < n implies ({
                        let e2 = #[trigger] entries@[j];
                        &&& lua.registry@[e2.fref.slot as int] == old(lua).registry@[
                            e2.fref.slot as int]
                        &&& lua.heap@[entry_fun(*old(lua), e2)] == old(lua).heap@[entry_fun(
                            *old(lua),
                            e2,
                        )]
                        &&& lua.heap@[entry_ud(*old(lua), e2)] == old(lua).heap@[entry_ud(
                            *old(lua),
                            e2,
                        )]
                    }) by {
                        let e2 = entries@[j];
                        assert(e2.fref.slot != ei.fref.slot);
                        assert(entry_fun(*old(lua), e2) != entry_fun(*old(lua), ei));
                        assert(entry_ud(*old(lua), e2) != entry_ud(*old(lua), ei));
                        assert(entry_ok(*old(lua), e2));
                        lemma_entry_facts(*old(lua), e2);
                        lemma_entry_facts(*old(lua), ei);
                        assert(lua.registry@[e2.fref.slot as int] == pre.registry@[
                            e2.fref.slot as int]);
                    }
                }
            }
            i = i + 1;
        }
        // phase two: only now drop the extracted host objects, running their
        // own destruction after all runtime-side invalidation is complete
    }
}

} // verus!
