//! The callback adapter: host closures registered as runtime functions, the
//! trampoline that the runtime calls to invoke them, the exclusivity guard
//! for mutable callbacks, and the error boundary that turns every host-side
//! failure into an ordinary runtime error.

use vstd::prelude::*;
use crate::error::{Error, ErrorModel, clone_bytes, clone_error};
use crate::lua::{Lua, HeapObj, RegSlot, MAX_STACK};
use crate::value::{ObjTag, VmValue, VmValueModel, ValueModel, MultiValue, Function};
use crate::util::StackGuard;

verus! {

/// What invoking a host callback produced: a return list, an application
/// error to be re-signaled to the runtime, or a panic caught at the boundary
/// and carried as its payload. The payload variant exists because a host
/// panic must never cross the runtime's foreign frames; the adapter re-codes
/// it as an error value instead.
pub enum CallbackOutcome {
    Values(MultiValue),
    Error(Error),
    Panicked(Vec<u8>),
}

/// A host callback: the single shape behind every function the host
/// registers with the runtime. The host supplies the implementation; the
/// bridge only demands that a callback leave the interpreter well formed.
/// A callback invoked through a shared (re-entrant) adapter is called on a
/// clone of itself, so shared callbacks reach shared state through owned
/// handles; an exclusive adapter passes the callback itself and guards
/// against re-entry.
pub trait Callback: Sized + Clone {
    fn call(&mut self, lua: &mut Lua<Self>, args: MultiValue) -> (r: CallbackOutcome)
        requires
            old(lua).wf(),
        ensures
            final(lua).wf(),
    ;
}

impl<C> Lua<C> {
    /// The heap index of the function object a handle names.
    pub open spec fn fun_heap(&self, f: Function) -> int {
        match self.slot_value(f.0.slot as int) {
            VmValueModel::Obj(_, h) => h,
            _ => -1,
        }
    }

    /// Whether the handle's registry slot anchors a function object.
    pub open spec fn fun_valid(&self, f: Function) -> bool {
        self.ref_ok(f.0.slot as int, ObjTag::Function)
    }

    /// The upvalue of the function object at heap index `h`.
    pub open spec fn fun_upvalue(&self, h: int) -> VmValueModel {
        match self.heap@[h] {
            HeapObj::Func { upvalue } => upvalue@,
            _ => VmValueModel::Nil,
        }
    }

    /// Whether the function at heap index `h` has been invalidated: its
    /// upvalue overwritten with nil at scope exit.
    pub open spec fn fun_destructed(&self, h: int) -> bool {
        self.fun_upvalue(h) matches VmValueModel::Nil
    }

    /// The userdata heap index behind the function at heap index `h`.
    pub open spec fn fun_ud(&self, h: int) -> int {
        match self.fun_upvalue(h) {
            VmValueModel::Obj(_, u) => u,
            _ => -1,
        }
    }

    /// Whether the userdata at heap index `u` still owns its host callback.
    pub open spec fn ud_present(&self, u: int) -> bool {
        match self.heap@[u] {
            HeapObj::UserData { cb, .. } => cb is Some,
            _ => false,
        }
    }

    /// Whether the userdata at heap index `u` is a shared (re-entrant)
    /// adapter rather than an exclusive one.
    pub open spec fn ud_shared(&self, u: int) -> bool {
        match self.heap@[u] {
            HeapObj::UserData { shared, .. } => shared,
            _ => false,
        }
    }

    /// The handle names a live function behind an exclusive adapter that
    /// currently owns its callback: the state in which an invocation reaches
    /// the host callback and must hand the adapter back afterwards.
    pub open spec fn fun_live_exclusive(&self, f: Function) -> bool {
        &&& !self.fun_destructed(self.fun_heap(f))
        &&& self.ud_present(self.fun_ud(self.fun_heap(f)))
        &&& !self.ud_shared(self.fun_ud(self.fun_heap(f)))
    }
}

impl<C: Callback> Lua<C> {
    /// Wraps a host callback as a runtime function: an opaque userdata object
    /// owning the callback, and a function object whose upvalue names that
    /// userdata. The function is anchored in a fresh registry slot with one
    /// alias. `shared` selects the re-entrant flavor; the exclusive flavor is
    /// guarded against re-entry at invocation time.
    pub fn create_callback(&mut self, func: C, shared: bool) -> (r: Function)
        requires
            old(self).wf(),
        ensures
            final(self).wf(),
            final(self).stack@ == old(self).stack@,
            final(self).heap@.len() == old(self).heap@.len() + 2,
            forall|h: int|
                0 <= h < old(self).heap@.len() ==> final(self).heap@[h] == old(self).heap@[h],
            final(self).registry@.len() == old(self).registry@.len() + 1,
            forall|s: int|
                0 <= s < old(self).registry@.len() ==> final(self).registry@[s] == old(
                    self,
                ).registry@[s],
            r.0.slot == old(self).registry@.len(),
            final(self).fun_valid(r),
            final(self).slot_count(r.0.slot as int) == 1,
            final(self).fun_heap(r) == old(self).heap@.len() + 1,
            final(self).fun_upvalue(old(self).heap@.len() as int + 1) == VmValueModel::Obj(
                ObjTag::UserData,
                old(self).heap@.len() as int,
            ),
            final(self).fun_ud(old(self).heap@.len() as int + 1) == old(self).heap@.len() as int,
            final(self).ud_present(old(self).heap@.len() as int),
            final(self).ud_shared(old(self).heap@.len() as int) == shared,
            final(self).heap@[old(self).heap@.len() as int] == (HeapObj::UserData {
                cb: Option::Some(func),
                shared,
            }),
    {
        let u = self.heap.len();
        self.heap.push(HeapObj::UserData { cb: Option::Some(func), shared });
        let h = self.heap.len();
        self.heap.push(HeapObj::Func { upvalue: VmValue::Obj(ObjTag::UserData, u) });
        let rf = self.create_reference(VmValue::Obj(ObjTag::Function, h));
        Function(rf)
    }

    /// Maps what a callback produced to what the protected call returns,
    /// marshaling a return list through the operand stack under a guard.
    /// Every failure signaled inside the call comes back wrapped in
    /// `CallbackError`: an application error as its cause, a caught panic as
    /// a `CallbackPanic` cause carrying the payload, and a return list that
    /// cannot be marshaled (or would overflow the stack) as a
    /// `ConversionError` cause.
    pub fn dispatch_outcome(&mut self, out: CallbackOutcome) -> (r: Result<MultiValue, Error>)
        requires
            old(self).wf(),
        ensures
            final(self).wf(),
            final(self).stack@.len() == old(self).stack@.len(),
            final(self).heap@ == old(self).heap@,
            final(self).registry@.len() >= old(self).registry@.len(),
            forall|s: int|
                0 <= s < old(self).registry@.len() ==> final(self).registry@[s] == old(
                    self,
                ).registry@[s],
            out matches CallbackOutcome::Error(e) ==> ({
                &&& r matches Err(er) && er@ == ErrorModel::CallbackError(Box::new(e@))
            }),
            out matches CallbackOutcome::Panicked(p) ==> ({
                &&& r matches Err(er) && er@ == ErrorModel::CallbackError(
                    Box::new(ErrorModel::CallbackPanic(p@)),
                )
            }),
            out matches CallbackOutcome::Values(mv) ==> ({
                &&& (old(self).multi_ok(mv.deep_view()) && old(self).stack@.len() + mv@.len()
                    <= MAX_STACK) ==> ({
                    &&& r matches Ok(rv) && rv@.len() == mv@.len() && forall|i: int|
                        0 <= i < mv@.len() ==> final(self).value_ok(#[trigger] rv.deep_view()[i])
                            && final(self).resolve(rv.deep_view()[i]) == old(self).resolve(
                            mv.deep_view()[i],
                        )
                })
                &&& !(old(self).multi_ok(mv.deep_view()) && old(self).stack@.len() + mv@.len()
                    <= MAX_STACK) ==> ({
                    &&& r matches Err(er) && er@ == ErrorModel::CallbackError(
                        Box::new(ErrorModel::ConversionError),
                    )
                })
            }),
    {
        proof {
            reveal_with_fuel(crate::error::error_model, 3);
        }
        match &out {
            CallbackOutcome::Values(mv) => {
                if !self.check_stack(mv.len()) {
                    return Err(Error::CallbackError(Box::new(Error::ConversionError)));
                }
                let guard = StackGuard::new(self);
                let pushed = self.to_vm_multi(mv);
                match pushed {
                    Result::Err(_) => {
                        guard.restore(self);
                        Err(Error::CallbackError(Box::new(Error::ConversionError)))
                    },
                    Result::Ok(n) => {
                        let rv = self.from_vm_multi(n);
                        guard.restore(self);
                        Ok(rv)
                    },
                }
            },
            CallbackOutcome::Error(e) => Err(Error::CallbackError(Box::new(clone_error(e)))),
            CallbackOutcome::Panicked(p) => Err(
                Error::CallbackError(Box::new(Error::CallbackPanic(clone_bytes(p)))),
            ),
        }
    }

    /// Calls the runtime function `f` with `args`, running the whole
    /// boundary protocol: a stack guard brackets the region; the function
    /// and the arguments are pushed and marshaled back in for the callback;
    /// the callback's outcome is re-signaled as a return list or a wrapped
    /// error; and the operand stack's top is restored on every path.
    ///
    /// Calling a function whose scope has ended fails with a
    /// `CallbackDestructed` cause; re-entering an exclusive callback that is
    /// already executing fails with a `RecursiveMutCallback` cause.
    pub fn call_function(&mut self, f: Function, args: MultiValue) -> (r: Result<
        MultiValue,
        Error,
    >)
        requires
            old(self).wf(),
            old(self).fun_valid(f),
            old(self).stack@.len() + args@.len() + 1 <= MAX_STACK,
        ensures
            final(self).wf(),
            final(self).stack@.len() == old(self).stack@.len(),
            !old(self).multi_ok(args.deep_view()) ==> ({
                &&& r matches Err(e) && e@ == ErrorModel::ConversionError
            }),
            old(self).multi_ok(args.deep_view()) && old(self).fun_destructed(
                old(self).fun_heap(f),
            ) ==> ({
                &&& r matches Err(e) && e@ == ErrorModel::CallbackError(
                    Box::new(ErrorModel::CallbackDestructed),
                )
            }),
            old(self).multi_ok(args.deep_view()) && !old(self).fun_destructed(
                old(self).fun_heap(f),
            ) && !old(self).ud_present(old(self).fun_ud(old(self).fun_heap(f))) ==> ({
                &&& r matches Err(e) && e@ == ErrorModel::CallbackError(
                    Box::new(ErrorModel::RecursiveMutCallback),
                )
            }),
            old(self).multi_ok(args.deep_view()) ==> (r matches Ok(_) || (r matches Err(e) && e@
                matches ErrorModel::CallbackError(_))),
            old(self).multi_ok(args.deep_view()) && old(self).fun_live_exclusive(f) ==> ({
                let u = old(self).fun_ud(old(self).fun_heap(f));
                0 <= u < final(self).heap@.len() ==> !(final(self).heap@[u]
                    matches HeapObj::UserData { cb: Option::None, shared: false })
            }),
            r matches Ok(rv) ==> forall|i: int|
                0 <= i < rv@.len() ==> final(self).value_ok(#[trigger] rv.deep_view()[i]),
    {
        proof {
            reveal_with_fuel(crate::error::error_model, 3);
        }
        let ghost entry = *self;
        let guard = StackGuard::new(self);
        self.assert_stack(args.len() + 1);
        self.push_ref(f.0);
        let pushed = self.to_vm_multi(&args);
        let nargs = match pushed {
            Result::Err(e) => {
                guard.restore(self);
                return Err(e);
            },
            Result::Ok(n) => n,
        };
        // the trampoline: read the arguments off the stack into a value list
        let cb_args = self.from_vm_multi(nargs);
        proof {
            Lua::lemma_preserve_value(entry, *self, ValueModel::Function(f.0.slot as int));
        }
        // fetch the function object and its upvalue
        let h: usize = match &self.registry[f.0.slot] {
            RegSlot::Anchored { value, .. } => match value {
                VmValue::Obj(_, hh) => *hh,
                _ => vstd::pervasive::unreached(),
            },
            RegSlot::Free => vstd::pervasive::unreached(),
        };
        let uopt: Option<usize> = match &self.heap[h] {
            HeapObj::Func { upvalue } => match upvalue {
                VmValue::Nil => Option::None,
                VmValue::Obj(_, uu) => Option::Some(*uu),
                _ => vstd::pervasive::unreached(),
            },
            _ => vstd::pervasive::unreached(),
        };
        let u: usize = match uopt {
            Option::None => {
                // the function was invalidated at scope exit: a stale
                // reference fails cleanly instead of touching freed memory
                self.drop_multi(cb_args);
                guard.restore(self);
                return Err(Error::CallbackError(Box::new(Error::CallbackDestructed)));
            },
            Option::Some(uu) => uu,
        };
        // take the callback out of the userdata; an exclusive adapter stays
        // vacated while the call runs, which is what re-entry trips over
        let mut tmp = HeapObj::UserData { cb: Option::None, shared: false };
        core::mem::swap(&mut tmp, &mut self.heap[u]);
        let (cb_opt, shared): (Option<C>, bool) = match tmp {
            HeapObj::UserData { cb, shared } => (cb, shared),
            _ => vstd::pervasive::unreached(),
        };
        let mut c: C = match cb_opt {
            Option::None => {
                // exclusive callback already executing further down the call
                // stack: fail fast rather than alias its state
                self.heap[u] = HeapObj::UserData { cb: Option::None, shared: false };
                self.drop_multi(cb_args);
                guard.restore(self);
                return Err(Error::CallbackError(Box::new(Error::RecursiveMutCallback)));
            },
            Option::Some(cc) => cc,
        };
        if shared {
            // a shared adapter is re-entrant: restore it before the call and
            // invoke a clone
            let c2 = c.clone();
            self.heap[u] = HeapObj::UserData { cb: Option::Some(c), shared: true };
            c = c2;
        }
        let outcome = c.call(self, cb_args);
        if !shared {
            // put the exclusive callback back if its adapter still expects it
            if u < self.heap.len() {
                let vacant = match &self.heap[u] {
                    HeapObj::UserData { cb, shared: sh } => cb.is_none() && !*sh,
                    _ => false,
                };
                if vacant {
                    self.heap[u] = HeapObj::UserData { cb: Option::Some(c), shared: false };
                }
            }
        }
        let r = self.dispatch_outcome(outcome);
        guard.restore(self);
        r
    }
}

} // verus!
