//! The interpreter handle: the embedded runtime's state (operand stack,
//! registry, object heap) together with the reference system and the
//! bidirectional value-marshaling protocol.

use vstd::prelude::*;
use crate::error::{Error, ErrorModel, clone_bytes, clone_error};
use crate::value::{
    LuaRef, ObjTag, VmValue, VmValueModel, Value, ValueModel, MultiValue, Table, clone_vm_value,
    vm_value_eq,
};
use crate::util::StackGuard;

verus! {

/// Capacity of the embedded runtime's operand stack. The stack-guard
/// discipline asserts headroom against this bound before every sequence of
/// pushes.
pub const MAX_STACK: usize = 1000000;

/// One slot of the runtime's registry: either vacant or anchoring a runtime
/// value for `count` host-side aliases.
pub enum RegSlot {
    Free,
    Anchored { value: VmValue, count: usize },
}

/// A heap-resident runtime object.
///
/// A `Func` carries one upvalue slot, which holds either the `UserData`
/// object owning the host callback behind the function, or nil once the
/// function has been invalidated at scope exit.
pub enum HeapObj<C> {
    Table { entries: Vec<(VmValue, VmValue)> },
    Func { upvalue: VmValue },
    UserData { cb: Option<C>, shared: bool },
    Thread,
}

/// The kind of a heap object.
pub open spec fn heap_tag_of<C>(o: HeapObj<C>) -> ObjTag {
    match o {
        HeapObj::Table { .. } => ObjTag::Table,
        HeapObj::Func { .. } => ObjTag::Function,
        HeapObj::UserData { .. } => ObjTag::UserData,
        HeapObj::Thread => ObjTag::Thread,
    }
}

/// The interpreter handle. It owns the embedded runtime's state — operand
/// stack, registry and object heap — for its whole lifetime, and is the
/// factory for references, callbacks and scopes. `C` is the host callback
/// type registered through [`crate::callback::Callback`].
pub struct Lua<C> {
    pub stack: Vec<VmValue>,
    pub registry: Vec<RegSlot>,
    pub heap: Vec<HeapObj<C>>,
}

/// The value bound to key `k` in a table's entry log, newest binding last;
/// nil when the key is unbound.
pub open spec fn tbl_lookup(s: Seq<(VmValueModel, VmValueModel)>, k: VmValueModel) -> VmValueModel
    decreases s.len(),
{
    if s.len() == 0 {
        VmValueModel::Nil
    } else if s.last().0 == k {
        s.last().1
    } else {
        tbl_lookup(s.drop_last(), k)
    }
}

/// The registry after one alias of slot `s` is released: the count drops by
/// one, and the last alias vacates the slot. A vacant or out-of-range slot is
/// left as it is.
pub open spec fn reg_release_at(reg: Seq<RegSlot>, s: int) -> Seq<RegSlot> {
    if 0 <= s < reg.len() {
        match reg[s] {
            RegSlot::Anchored { value, count } => if count > 1 {
                reg.update(s, RegSlot::Anchored { value, count: (count - 1) as usize })
            } else {
                reg.update(s, RegSlot::Free)
            },
            RegSlot::Free => reg,
        }
    } else {
        reg
    }
}

/// The registry after the reference a host value carries is released; a
/// value without a reference releases nothing.
pub open spec fn reg_after_release(reg: Seq<RegSlot>, v: ValueModel) -> Seq<RegSlot> {
    match v {
        ValueModel::Table(s) => reg_release_at(reg, s),
        ValueModel::Function(s) => reg_release_at(reg, s),
        ValueModel::UserData(s) => reg_release_at(reg, s),
        ValueModel::Thread(s) => reg_release_at(reg, s),
        _ => reg,
    }
}

/// The registry after a whole return list's references are released, last
/// value first.
pub open spec fn multi_release(reg: Seq<RegSlot>, vs: Seq<ValueModel>) -> Seq<RegSlot>
    decreases vs.len(),
{
    if vs.len() == 0 {
        reg
    } else {
        multi_release(reg_after_release(reg, vs.last()), vs.drop_last())
    }
}

/// The host-side view of a runtime value read off the stack: heap objects
/// come back as a reference anchored in a fresh registry slot, everything
/// else by value.
pub open spec fn from_model(m: VmValueModel, fresh: int) -> ValueModel {
    match m {
        VmValueModel::Nil => ValueModel::Nil,
        VmValueModel::Boolean(b) => ValueModel::Boolean(b),
        VmValueModel::Integer(i) => ValueModel::Integer(i),
        VmValueModel::Number(n) => ValueModel::Number(n),
        VmValueModel::Str(s) => ValueModel::Str(s),
        VmValueModel::LightUserData(p) => ValueModel::LightUserData(p),
        VmValueModel::Obj(t, _) => match t {
            ObjTag::Table => ValueModel::Table(fresh),
            ObjTag::Function => ValueModel::Function(fresh),
            ObjTag::UserData => ValueModel::UserData(fresh),
            ObjTag::Thread => ValueModel::Thread(fresh),
        },
        VmValueModel::Error(e) => ValueModel::Error(e),
    }
}

impl<C> Lua<C> {
    /// A runtime value is well formed when any object it names exists in the
    /// heap under the tag the value claims.
    pub open spec fn obj_ok(&self, m: VmValueModel) -> bool {
        match m {
            VmValueModel::Obj(t, h) => 0 <= h < self.heap@.len() && heap_tag_of(self.heap@[h]) == t,
            _ => true,
        }
    }

    /// A function's upvalue is either nil or a well-formed userdata object.
    pub open spec fn upvalue_ok(&self, m: VmValueModel) -> bool {
        match m {
            VmValueModel::Nil => true,
            VmValueModel::Obj(t, u) => t == ObjTag::UserData && 0 <= u < self.heap@.len()
                && heap_tag_of(self.heap@[u]) == ObjTag::UserData,
            _ => false,
        }
    }

    /// Well-formedness of one heap object.
    pub open spec fn heap_obj_ok(&self, o: HeapObj<C>) -> bool {
        match o {
            HeapObj::Table { entries } => forall|j: int|
                0 <= j < entries@.len() ==> self.obj_ok(#[trigger] entries@[j].0@)
                    && self.obj_ok(entries@[j].1@),
            HeapObj::Func { upvalue } => self.upvalue_ok(upvalue@),
            HeapObj::UserData { cb, shared } => shared ==> cb is Some,
            HeapObj::Thread => true,
        }
    }

    /// Well-formedness of one registry slot: an anchored slot holds a
    /// well-formed value for at least one alias.
    pub open spec fn reg_slot_ok(&self, rs: RegSlot) -> bool {
        match rs {
            RegSlot::Free => true,
            RegSlot::Anchored { value, count } => self.obj_ok(value@) && count >= 1,
        }
    }

    /// The internal invariant of the interpreter state. Every constructor
    /// establishes it and every operation preserves it.
    pub open spec fn wf(&self) -> bool {
        &&& forall|i: int| 0 <= i < self.stack@.len() ==> self.obj_ok(#[trigger] self.stack@[i]@)
        &&& forall|s: int|
            0 <= s < self.registry@.len() ==> self.reg_slot_ok(#[trigger] self.registry@[s])
        &&& forall|h: int| 0 <= h < self.heap@.len() ==> self.heap_obj_ok(#[trigger] self.heap@[h])
    }

    /// Whether registry slot `s` currently anchors a value.
    pub open spec fn slot_anchored(&self, s: int) -> bool {
        0 <= s < self.registry@.len() && self.registry@[s] matches RegSlot::Anchored { .. }
    }

    /// The value anchored at registry slot `s`.
    pub open spec fn slot_value(&self, s: int) -> VmValueModel {
        match self.registry@[s] {
            RegSlot::Anchored { value, .. } => value@,
            RegSlot::Free => VmValueModel::Nil,
        }
    }

    /// The number of host-side aliases of registry slot `s`.
    pub open spec fn slot_count(&self, s: int) -> nat {
        match self.registry@[s] {
            RegSlot::Anchored { count, .. } => count as nat,
            RegSlot::Free => 0,
        }
    }

    /// Whether slot `s` anchors an object of kind `t`.
    pub open spec fn ref_ok(&self, s: int, t: ObjTag) -> bool {
        self.slot_anchored(s) && match self.slot_value(s) {
            VmValueModel::Obj(t2, _) => t2 == t,
            _ => false,
        }
    }

    /// A host value may be dereferenced: any reference it carries anchors an
    /// object of the kind the variant claims.
    pub open spec fn value_ok(&self, v: ValueModel) -> bool {
        match v {
            ValueModel::Table(s) => self.ref_ok(s, ObjTag::Table),
            ValueModel::Function(s) => self.ref_ok(s, ObjTag::Function),
            ValueModel::UserData(s) => self.ref_ok(s, ObjTag::UserData),
            ValueModel::Thread(s) => self.ref_ok(s, ObjTag::Thread),
            _ => true,
        }
    }

    /// The runtime value a host value stands for: scalars map to themselves,
    /// references to the value anchored in their registry slot.
    pub open spec fn resolve(&self, v: ValueModel) -> VmValueModel {
        match v {
            ValueModel::Nil => VmValueModel::Nil,
            ValueModel::Boolean(b) => VmValueModel::Boolean(b),
            ValueModel::Integer(i) => VmValueModel::Integer(i),
            ValueModel::Number(n) => VmValueModel::Number(n),
            ValueModel::Str(s) => VmValueModel::Str(s),
            ValueModel::LightUserData(p) => VmValueModel::LightUserData(p),
            ValueModel::Table(s) => self.slot_value(s),
            ValueModel::Function(s) => self.slot_value(s),
            ValueModel::UserData(s) => self.slot_value(s),
            ValueModel::Thread(s) => self.slot_value(s),
            ValueModel::Error(e) => VmValueModel::Error(e),
        }
    }

    /// Every value of an argument or return list may be dereferenced.
    pub open spec fn multi_ok(&self, vs: Seq<ValueModel>) -> bool {
        forall|i: int| 0 <= i < vs.len() ==> self.value_ok(#[trigger] vs[i])
    }

    /// Creates an interpreter with an empty operand stack, an empty globals
    /// table as heap object 0, and registry slot 0 anchoring that table.
    pub fn new() -> (r: Lua<C>)
        ensures
            r.wf(),
            r.stack@.len() == 0,
            r.registry@.len() == 1,
            r.slot_anchored(0),
            r.slot_value(0) == VmValueModel::Obj(ObjTag::Table, 0),
            r.slot_count(0) == 1,
            r.heap@.len() == 1,
            r.table_entries(0) == Seq::<(VmValueModel, VmValueModel)>::empty(),
    {
        let r = Lua {
            stack: Vec::new(),
            registry: vec![RegSlot::Anchored { value: VmValue::Obj(ObjTag::Table, 0), count: 1 }],
            heap: vec![HeapObj::Table { entries: Vec::new() }],
        };
        assert(r.table_entries(0) =~= Seq::<(VmValueModel, VmValueModel)>::empty());
        r
    }

    /// The globals table, anchored in registry slot 0 for the interpreter's
    /// whole lifetime.
    pub fn globals(&self) -> (t: Table)
        ensures
            t.0.slot == 0,
    {
        Table(LuaRef { slot: 0 })
    }

    /// The current top of the operand stack.
    pub fn gettop(&self) -> (n: usize)
        ensures
            n == self.stack@.len(),
    {
        self.stack.len()
    }

    /// Sets the operand stack's top to `n`: discards what lies above it, and
    /// pads with nil if the stack is shorter.
    pub fn settop(&mut self, n: usize)
        ensures
            final(self).stack@.len() == n,
            forall|i: int|
                0 <= i < n && i < old(self).stack@.len() ==> final(self).stack@[i] == old(
                    self,
                ).stack@[i],
            forall|i: int| old(self).stack@.len() <= i < n ==> final(self).stack@[i] == VmValue::Nil,
            final(self).registry@ == old(self).registry@,
            final(self).heap@ == old(self).heap@,
            old(self).wf() ==> final(self).wf(),
    {
        proof {
            assert(old(self).stack@.subrange(0, old(self).stack@.len() as int) =~= old(
                self,
            ).stack@);
        }
        while self.stack.len() > n
            invariant
                self.stack@.len() <= old(self).stack@.len(),
                self.stack@.len() >= n || self.stack@.len() == old(self).stack@.len(),
                self.stack@ == old(self).stack@.subrange(0, self.stack@.len() as int),
                self.registry@ == old(self).registry@,
                self.heap@ == old(self).heap@,
            decreases self.stack@.len(),
        {
            let _ = self.stack.pop();
            proof {
                assert(self.stack@ =~= old(self).stack@.subrange(0, self.stack@.len() as int));
            }
        }
        proof {
            assert forall|i: int| 0 <= i < self.stack@.len() implies self.stack@[i] == old(
                self,
            ).stack@[i] by {
                assert(self.stack@[i] == old(self).stack@.subrange(
                    0,
                    self.stack@.len() as int,
                )[i]);
            }
        }
        while self.stack.len() < n
            invariant
                self.stack@.len() <= n,
                self.stack@.len() >= n || self.stack@.len() >= old(self).stack@.len(),
                forall|i: int|
                    0 <= i < self.stack@.len() && i < old(self).stack@.len() ==> self.stack@[i]
                        == old(self).stack@[i],
                forall|i: int|
                    old(self).stack@.len() <= i < self.stack@.len() ==> self.stack@[i]
                        == VmValue::Nil,
                self.registry@ == old(self).registry@,
                self.heap@ == old(self).heap@,
            decreases n - self.stack@.len(),
        {
            self.stack.push(VmValue::Nil);
        }
    }

    /// Whether `n` more values fit on the operand stack.
    pub fn check_stack(&self, n: usize) -> (b: bool)
        ensures
            b == (self.stack@.len() + n <= MAX_STACK),
    {
        n <= MAX_STACK && self.stack.len() <= MAX_STACK - n
    }

    /// The headroom assertion of the stack-guard discipline: callers prove,
    /// before a sequence that pushes `n` values, that the stack has room for
    /// them. A violation would be a programming error, not a recoverable
    /// condition, so no failing path exists.
    pub fn assert_stack(&self, n: usize)
        requires
            self.stack@.len() + n <= MAX_STACK,
    {
        let ok = self.check_stack(n);
        assert(ok);
    }

    /// Pushes one runtime value.
    pub fn push_value(&mut self, v: VmValue)
        requires
            old(self).wf(),
            old(self).obj_ok(v@),
        ensures
            final(self).wf(),
            final(self).stack@ == old(self).stack@.push(v),
            final(self).registry@ == old(self).registry@,
            final(self).heap@ == old(self).heap@,
    {
        self.stack.push(v);
    }

    /// Stores a runtime value in the registry under a fresh integer key and
    /// returns the host-side reference anchoring it, with one alias.
    /// The key is never one that another live alias uses.
    pub fn create_reference(&mut self, v: VmValue) -> (r: LuaRef)
        requires
            old(self).wf(),
            old(self).obj_ok(v@),
        ensures
            final(self).wf(),
            r.slot == old(self).registry@.len(),
            final(self).registry@.len() == old(self).registry@.len() + 1,
            forall|s: int|
                0 <= s < old(self).registry@.len() ==> final(self).registry@[s] == old(
                    self,
                ).registry@[s],
            final(self).slot_anchored(r.slot as int),
            final(self).slot_value(r.slot as int) == v@,
            final(self).slot_count(r.slot as int) == 1,
            final(self).stack@ == old(self).stack@,
            final(self).heap@ == old(self).heap@,
    {
        let slot = self.registry.len();
        self.registry.push(RegSlot::Anchored { value: v, count: 1 });
        LuaRef { slot }
    }

    /// Cheap aliasing: increments the host-side alias count of the slot,
    /// without touching the anchored value.
    pub fn clone_ref(&mut self, r: LuaRef) -> (r2: LuaRef)
        requires
            old(self).wf(),
            old(self).slot_anchored(r.slot as int),
            old(self).slot_count(r.slot as int) < usize::MAX,
        ensures
            final(self).wf(),
            r2 == r,
            final(self).registry@.len() == old(self).registry@.len(),
            final(self).slot_anchored(r.slot as int),
            final(self).slot_value(r.slot as int) == old(self).slot_value(r.slot as int),
            final(self).slot_count(r.slot as int) == old(self).slot_count(r.slot as int) + 1,
            forall|s: int|
                0 <= s < final(self).registry@.len() && s != r.slot ==> final(self).registry@[s] == old(
                    self,
                ).registry@[s],
            final(self).stack@ == old(self).stack@,
            final(self).heap@ == old(self).heap@,
    {
        let slot = r.slot;
        match &mut self.registry[slot] {
            RegSlot::Anchored { count, .. } => {
                *count = *count + 1;
            },
            RegSlot::Free => vstd::pervasive::unreached(),
        }
        LuaRef { slot }
    }

    /// Releases one alias of the slot. With other aliases remaining the slot
    /// stays anchored, the value untouched; releasing the last alias vacates
    /// the slot, and the runtime's collector may then reclaim the value.
    pub fn drop_ref(&mut self, r: LuaRef)
        requires
            old(self).wf(),
            old(self).slot_anchored(r.slot as int),
        ensures
            final(self).wf(),
            final(self).registry@.len() == old(self).registry@.len(),
            old(self).slot_count(r.slot as int) > 1 ==> final(self).slot_anchored(r.slot as int)
                && final(self).slot_value(r.slot as int) == old(self).slot_value(r.slot as int)
                && final(self).slot_count(r.slot as int) == old(self).slot_count(r.slot as int) - 1,
            old(self).slot_count(r.slot as int) == 1 ==> final(self).registry@[r.slot as int]
                == RegSlot::Free,
            forall|s: int|
                0 <= s < final(self).registry@.len() && s != r.slot ==> final(self).registry@[s] == old(
                    self,
                ).registry@[s],
            final(self).registry@ == reg_release_at(old(self).registry@, r.slot as int),
            final(self).stack@ == old(self).stack@,
            final(self).heap@ == old(self).heap@,
    {
        let slot = r.slot;
        let last = match &self.registry[slot] {
            RegSlot::Anchored { count, .. } => *count <= 1,
            RegSlot::Free => vstd::pervasive::unreached(),
        };
        if last {
            self.registry[slot] = RegSlot::Free;
        } else {
            match &mut self.registry[slot] {
                RegSlot::Anchored { count, .. } => {
                    *count = *count - 1;
                },
                RegSlot::Free => {},
            }
        }
        proof {
            assert(self.registry@ =~= reg_release_at(old(self).registry@, slot as int));
        }
    }

    /// Re-materializes the value anchored at `r` on top of the operand stack.
    pub fn push_ref(&mut self, r: LuaRef)
        requires
            old(self).wf(),
            old(self).slot_anchored(r.slot as int),
        ensures
            final(self).wf(),
            final(self).stack@.len() == old(self).stack@.len() + 1,
            forall|i: int|
                0 <= i < old(self).stack@.len() ==> final(self).stack@[i] == old(self).stack@[i],
            final(self).stack@[old(self).stack@.len() as int]@ == old(self).slot_value(r.slot as int),
            final(self).registry@ == old(self).registry@,
            final(self).heap@ == old(self).heap@,
    {
        let v = match &self.registry[r.slot] {
            RegSlot::Anchored { value, .. } => clone_vm_value(value),
            RegSlot::Free => vstd::pervasive::unreached(),
        };
        self.stack.push(v);
    }

    /// The entries of the table object at heap index `h`, newest binding
    /// last.
    pub open spec fn table_entries(&self, h: int) -> Seq<(VmValueModel, VmValueModel)> {
        match self.heap@[h] {
            HeapObj::Table { entries } => Seq::new(
                entries@.len(),
                |j: int| (entries@[j].0@, entries@[j].1@),
            ),
            _ => Seq::empty(),
        }
    }

    /// Whether slot `r.slot` anchors an object of kind `t` (executable
    /// counterpart of [`Lua::ref_ok`]).
    pub fn check_ref(&self, r: LuaRef, t: ObjTag) -> (b: bool)
        ensures
            b == self.ref_ok(r.slot as int, t),
    {
        if r.slot >= self.registry.len() {
            return false;
        }
        match &self.registry[r.slot] {
            RegSlot::Anchored { value, .. } => match value {
                VmValue::Obj(t2, _) => *t2 == t,
                _ => false,
            },
            RegSlot::Free => false,
        }
    }

    /// Pushes the object behind `rf` after checking that it anchors an object
    /// of kind `t`; reports a conversion error otherwise.
    fn push_checked(&mut self, rf: LuaRef, t: ObjTag) -> (r: Result<(), Error>)
        requires
            old(self).wf(),
        ensures
            final(self).wf(),
            final(self).registry@ == old(self).registry@,
            final(self).heap@ == old(self).heap@,
            old(self).ref_ok(rf.slot as int, t) ==> ({
                &&& r matches Ok(_)
                &&& final(self).stack@.len() == old(self).stack@.len() + 1
                &&& final(self).stack@[old(self).stack@.len() as int]@ == old(self).slot_value(
                    rf.slot as int,
                )
                &&& forall|i: int|
                    0 <= i < old(self).stack@.len() ==> final(self).stack@[i] == old(
                        self,
                    ).stack@[i]
            }),
            !old(self).ref_ok(rf.slot as int, t) ==> ({
                &&& r matches Err(e) && e@ == ErrorModel::ConversionError
                &&& final(self).stack@ == old(self).stack@
            }),
    {
        if self.check_ref(rf, t) {
            self.push_ref(rf);
            Ok(())
        } else {
            Err(Error::ConversionError)
        }
    }

    /// Converts a host value into exactly one operand-stack slot: scalars
    /// directly, references by re-materializing the anchored object. A value
    /// whose reference no longer anchors an object of the claimed kind is
    /// rejected with a conversion error and the stack is left untouched.
    pub fn to_vm(&mut self, v: &Value) -> (r: Result<(), Error>)
        requires
            old(self).wf(),
        ensures
            final(self).wf(),
            final(self).registry@ == old(self).registry@,
            final(self).heap@ == old(self).heap@,
            old(self).value_ok(v@) ==> ({
                &&& r matches Ok(_)
                &&& final(self).stack@.len() == old(self).stack@.len() + 1
                &&& final(self).stack@[old(self).stack@.len() as int]@ == old(self).resolve(v@)
                &&& forall|i: int|
                    0 <= i < old(self).stack@.len() ==> final(self).stack@[i] == old(
                        self,
                    ).stack@[i]
            }),
            !old(self).value_ok(v@) ==> ({
                &&& r matches Err(e) && e@ == ErrorModel::ConversionError
                &&& final(self).stack@ == old(self).stack@
            }),
    {
        match v {
            Value::Nil => {
                self.push_value(VmValue::Nil);
                Ok(())
            },
            Value::Boolean(b) => {
                self.push_value(VmValue::Boolean(*b));
                Ok(())
            },
            Value::Integer(i) => {
                self.push_value(VmValue::Integer(*i));
                Ok(())
            },
            Value::Number(n) => {
                self.push_value(VmValue::Number(*n));
                Ok(())
            },
            Value::Str(s) => {
                self.push_value(VmValue::Str(clone_bytes(s)));
                Ok(())
            },
            Value::LightUserData(p) => {
                self.push_value(VmValue::LightUserData(*p));
                Ok(())
            },
            Value::Table(rf) => self.push_checked(*rf, ObjTag::Table),
            Value::Function(rf) => self.push_checked(*rf, ObjTag::Function),
            Value::UserData(rf) => self.push_checked(*rf, ObjTag::UserData),
            Value::Thread(rf) => self.push_checked(*rf, ObjTag::Thread),
            Value::Error(e) => {
                self.push_value(VmValue::Error(Box::new(clone_error(e))));
                Ok(())
            },
        }
    }

    /// Reads the stack slot at `idx` into a host value: scalars by value,
    /// heap objects as a reference anchored in a fresh registry slot with one
    /// alias. The stack itself is left untouched.
    pub fn from_vm(&mut self, idx: usize) -> (r: Value)
        requires
            old(self).wf(),
            idx < old(self).stack@.len(),
        ensures
            final(self).wf(),
            final(self).stack@ == old(self).stack@,
            final(self).heap@ == old(self).heap@,
            final(self).registry@.len() >= old(self).registry@.len(),
            forall|s: int|
                0 <= s < old(self).registry@.len() ==> final(self).registry@[s] == old(
                    self,
                ).registry@[s],
            final(self).value_ok(r@),
            final(self).resolve(r@) == old(self).stack@[idx as int]@,
            r@ == from_model(old(self).stack@[idx as int]@, old(self).registry@.len() as int),
            (old(self).stack@[idx as int]@ matches VmValueModel::Obj(..)) ==> final(self).registry@.len() == old(self).registry@.len() + 1 && final(self).slot_count(
                old(self).registry@.len() as int,
            ) == 1,
            !(old(self).stack@[idx as int]@ matches VmValueModel::Obj(..)) ==> final(self).registry@
                == old(self).registry@,
    {
        let objinfo: Option<(ObjTag, usize)> = match &self.stack[idx] {
            VmValue::Obj(t, h) => Some((*t, *h)),
            _ => None,
        };
        match objinfo {
            Option::Some((t, h)) => {
                let rf = self.create_reference(VmValue::Obj(t, h));
                match t {
                    ObjTag::Table => Value::Table(rf),
                    ObjTag::Function => Value::Function(rf),
                    ObjTag::UserData => Value::UserData(rf),
                    ObjTag::Thread => Value::Thread(rf),
                }
            },
            Option::None => match &self.stack[idx] {
                VmValue::Nil => Value::Nil,
                VmValue::Boolean(b) => Value::Boolean(*b),
                VmValue::Integer(i) => Value::Integer(*i),
                VmValue::Number(n) => Value::Number(*n),
                VmValue::Str(s) => Value::Str(clone_bytes(s)),
                VmValue::LightUserData(p) => Value::LightUserData(*p),
                VmValue::Error(e) => Value::Error(Box::new(clone_error(e))),
                VmValue::Obj(..) => vstd::pervasive::unreached(),
            },
        }
    }

    /// Converts an argument or return list onto the stack, one slot per
    /// value, in order. On the first value that cannot be converted, the
    /// pushes are rolled back and a conversion error is reported: the count
    /// of produced slots always equals the list's length or zero.
    pub fn to_vm_multi(&mut self, vals: &MultiValue) -> (r: Result<usize, Error>)
        requires
            old(self).wf(),
            old(self).stack@.len() + vals@.len() <= MAX_STACK,
        ensures
            final(self).wf(),
            final(self).registry@ == old(self).registry@,
            final(self).heap@ == old(self).heap@,
            old(self).multi_ok(vals.deep_view()) ==> ({
                &&& r matches Ok(n) && n == vals@.len()
                &&& final(self).stack@.len() == old(self).stack@.len() + vals@.len()
                &&& forall|i: int|
                    0 <= i < old(self).stack@.len() ==> final(self).stack@[i] == old(
                        self,
                    ).stack@[i]
                &&& forall|i: int|
                    0 <= i < vals@.len() ==> final(self).stack@[old(self).stack@.len() + i]@ == old(
                        self,
                    ).resolve(#[trigger] vals.deep_view()[i])
            }),
            !old(self).multi_ok(vals.deep_view()) ==> ({
                &&& r matches Err(e) && e@ == ErrorModel::ConversionError
                &&& final(self).stack@ == old(self).stack@
            }),
    {
        self.assert_stack(vals.len());
        let start = self.gettop();
        let mut i: usize = 0;
        while i < vals.len()
            invariant
                i <= vals@.len(),
                self.wf(),
                self.registry@ == old(self).registry@,
                self.heap@ == old(self).heap@,
                start == old(self).stack@.len(),
                self.stack@.len() == start + i,
                forall|k: int| 0 <= k < start ==> self.stack@[k] == old(self).stack@[k],
                forall|j: int|
                    0 <= j < i ==> old(self).value_ok(#[trigger] vals.deep_view()[j]),
                forall|j: int|
                    0 <= j < i ==> self.stack@[start + j]@ == old(self).resolve(
                        #[trigger] vals.deep_view()[j],
                    ),
            decreases vals@.len() - i,
        {
            let res = self.to_vm(&vals[i]);
            match res {
                Result::Ok(_) => {
                    i = i + 1;
                },
                Result::Err(e) => {
                    self.settop(start);
                    proof {
                        assert(self.stack@ =~= old(self).stack@);
                        assert(vals.deep_view()[i as int] == vals@[i as int]@);
                        assert(!old(self).value_ok(vals.deep_view()[i as int]));
                    }
                    return Err(e);
                },
            }
        }
        Ok(i)
    }


    /// Extending the registry with fresh slots, with the heap unchanged,
    /// preserves the validity and resolution of every existing host value.
    pub proof fn lemma_preserve_value(pre: Lua<C>, post: Lua<C>, m: ValueModel)
        requires
            pre.value_ok(m),
            post.heap@ == pre.heap@,
            post.registry@.len() >= pre.registry@.len(),
            forall|s: int| 0 <= s < pre.registry@.len() ==> post.registry@[s] == pre.registry@[s],
        ensures
            post.value_ok(m),
            post.resolve(m) == pre.resolve(m),
    {
        match m {
            ValueModel::Table(s) => {
                assert(post.registry@[s] == pre.registry@[s]);
            },
            ValueModel::Function(s) => {
                assert(post.registry@[s] == pre.registry@[s]);
            },
            ValueModel::UserData(s) => {
                assert(post.registry@[s] == pre.registry@[s]);
            },
            ValueModel::Thread(s) => {
                assert(post.registry@[s] == pre.registry@[s]);
            },
            _ => {},
        }
    }

    /// Reads the top `n` stack slots into a return list, oldest slot first,
    /// anchoring a fresh reference for every heap object among them. The
    /// stack is left untouched; releasing the new references is the
    /// holder's business.
    pub fn from_vm_multi(&mut self, n: usize) -> (r: MultiValue)
        requires
            old(self).wf(),
            n <= old(self).stack@.len(),
        ensures
            final(self).wf(),
            final(self).stack@ == old(self).stack@,
            final(self).heap@ == old(self).heap@,
            final(self).registry@.len() >= old(self).registry@.len(),
            forall|s: int|
                0 <= s < old(self).registry@.len() ==> final(self).registry@[s] == old(
                    self,
                ).registry@[s],
            r@.len() == n,
            forall|i: int|
                0 <= i < n ==> final(self).value_ok(#[trigger] r.deep_view()[i]) && final(self).resolve(r.deep_view()[i]) == old(self).stack@[old(self).stack@.len() - n + i]@,
            forall|i: int|
                0 <= i < n ==> (Self::value_slot(#[trigger] r.deep_view()[i])
                    matches Option::Some(s) ==> old(self).registry@.len() <= s < final(self).registry@.len() && final(self).slot_count(s) == 1),
            forall|i: int, j: int|
                0 <= i < j < n ==> (Self::value_slot(#[trigger] r.deep_view()[i])
                    matches Option::Some(s1) ==> (Self::value_slot(#[trigger] r.deep_view()[j])
                    matches Option::Some(s2) ==> s1 != s2)),
    {
        let base = self.stack.len() - n;
        let mut out: MultiValue = Vec::new();
        let mut i: usize = 0;
        while i < n
            invariant
                i <= n,
                n <= old(self).stack@.len(),
                base == old(self).stack@.len() - n,
                base + n <= usize::MAX,
                self.wf(),
                self.stack@ == old(self).stack@,
                self.heap@ == old(self).heap@,
                self.registry@.len() >= old(self).registry@.len(),
                forall|s: int|
                    0 <= s < old(self).registry@.len() ==> self.registry@[s] == old(
                        self,
                    ).registry@[s],
                out@.len() == i,
                forall|j: int|
                    0 <= j < i ==> self.value_ok(#[trigger] out.deep_view()[j]) && self.resolve(
                        out.deep_view()[j],
                    ) == old(self).stack@[base + j]@,
                forall|j: int|
                    0 <= j < i ==> (Self::value_slot(#[trigger] out.deep_view()[j])
                        matches Option::Some(s) ==> old(self).registry@.len() <= s < self.registry@.len() && self.slot_count(s) == 1),
                forall|j1: int, j2: int|
                    0 <= j1 < j2 < i ==> (Self::value_slot(#[trigger] out.deep_view()[j1])
                        matches Option::Some(s1) ==> (Self::value_slot(
                        #[trigger] out.deep_view()[j2],
                    ) matches Option::Some(s2) ==> s1 != s2)),
            decreases n - i,
        {
            let ghost pre_self = *self;
            let ghost pre_out = out;
            let v = self.from_vm(base + i);
            out.push(v);
            proof {
                assert forall|j: int| 0 <= j < i + 1 implies self.value_ok(
                    #[trigger] out.deep_view()[j],
                ) && self.resolve(out.deep_view()[j]) == old(self).stack@[base + j]@ by {
                    if j < i {
                        assert(out.deep_view()[j] == pre_out.deep_view()[j]);
                        Self::lemma_preserve_value(pre_self, *self, pre_out.deep_view()[j]);
                    } else {
                        assert(out.deep_view()[j] == v@);
                    }
                }
                assert forall|j: int| 0 <= j < i + 1 implies (Self::value_slot(
                    #[trigger] out.deep_view()[j],
                ) matches Option::Some(s) ==> old(self).registry@.len() <= s < self.registry@.len()
                    && self.slot_count(s) == 1) by {
                    if j < i {
                        assert(out.deep_view()[j] == pre_out.deep_view()[j]);
                        match Self::value_slot(pre_out.deep_view()[j]) {
                            Option::Some(s) => {
                                assert(self.registry@[s] == pre_self.registry@[s]);
                            },
                            Option::None => {},
                        }
                    } else {
                        assert(out.deep_view()[j] == v@);
                    }
                }
                assert forall|j1: int, j2: int| 0 <= j1 < j2 < i + 1 implies (Self::value_slot(
                    #[trigger] out.deep_view()[j1],
                ) matches Option::Some(s1) ==> (Self::value_slot(#[trigger] out.deep_view()[j2])
                    matches Option::Some(s2) ==> s1 != s2)) by {
                    assert(out.deep_view()[j1] == pre_out.deep_view()[j1]);
                    if j2 < i {
                        assert(out.deep_view()[j2] == pre_out.deep_view()[j2]);
                    } else {
                        assert(out.deep_view()[j2] == v@);
                        match Self::value_slot(pre_out.deep_view()[j1]) {
                            Option::Some(s1) => {
                                assert(s1 < pre_self.registry@.len());
                            },
                            Option::None => {},
                        }
                    }
                }
            }
            i = i + 1;
        }
        out
    }

    /// The registry slot a host value's reference names, if it carries one.
    pub open spec fn value_slot(v: ValueModel) -> Option<int> {
        match v {
            ValueModel::Table(s) => Option::Some(s),
            ValueModel::Function(s) => Option::Some(s),
            ValueModel::UserData(s) => Option::Some(s),
            ValueModel::Thread(s) => Option::Some(s),
            _ => Option::None,
        }
    }

    /// Releases the reference a host value carries, if it carries one that is
    /// still anchored; scalars and stale references are left alone.
    pub fn drop_value(&mut self, v: Value)
        requires
            old(self).wf(),
        ensures
            final(self).wf(),
            final(self).stack@ == old(self).stack@,
            final(self).heap@ == old(self).heap@,
            final(self).registry@.len() == old(self).registry@.len(),
            Self::value_slot(v@) matches Option::None ==> final(self).registry@ == old(
                self,
            ).registry@,
            Self::value_slot(v@) matches Option::Some(s) ==> {
                &&& !old(self).slot_anchored(s) ==> final(self).registry@ == old(self).registry@
                &&& old(self).slot_anchored(s) && old(self).slot_count(s) > 1 ==> final(self).slot_anchored(s) && final(self).slot_value(s) == old(self).slot_value(s)
                    && final(self).slot_count(s) == old(self).slot_count(s) - 1
                &&& old(self).slot_anchored(s) && old(self).slot_count(s) == 1 ==> final(self).registry@[s] == RegSlot::Free
                &&& forall|s2: int|
                    0 <= s2 < old(self).registry@.len() && s2 != s ==> final(self).registry@[s2]
                        == old(self).registry@[s2]
            },
            final(self).registry@ == reg_after_release(old(self).registry@, v@),
    {
        let rf: Option<LuaRef> = match &v {
            Value::Table(r) => Option::Some(*r),
            Value::Function(r) => Option::Some(*r),
            Value::UserData(r) => Option::Some(*r),
            Value::Thread(r) => Option::Some(*r),
            _ => Option::None,
        };
        match rf {
            Option::Some(r) => {
                if r.slot < self.registry.len() {
                    let anchored = match &self.registry[r.slot] {
                        RegSlot::Anchored { .. } => true,
                        RegSlot::Free => false,
                    };
                    if anchored {
                        self.drop_ref(r);
                    }
                }
            },
            Option::None => {},
        }
    }

    /// Creates an empty table in the runtime's heap and returns a reference
    /// to it, anchored in a fresh registry slot with one alias.
    pub fn create_table(&mut self) -> (t: Table)
        requires
            old(self).wf(),
        ensures
            final(self).wf(),
            final(self).stack@ == old(self).stack@,
            final(self).heap@.len() == old(self).heap@.len() + 1,
            forall|h: int|
                0 <= h < old(self).heap@.len() ==> final(self).heap@[h] == old(self).heap@[h],
            final(self).registry@.len() == old(self).registry@.len() + 1,
            forall|s: int|
                0 <= s < old(self).registry@.len() ==> final(self).registry@[s] == old(
                    self,
                ).registry@[s],
            t.0.slot == old(self).registry@.len(),
            final(self).ref_ok(t.0.slot as int, ObjTag::Table),
            final(self).slot_count(t.0.slot as int) == 1,
            final(self).table_heap(t) == old(self).heap@.len(),
            final(self).table_entries(old(self).heap@.len() as int) == Seq::<
                (VmValueModel, VmValueModel),
            >::empty(),
    {
        let h = self.heap.len();
        self.heap.push(HeapObj::Table { entries: Vec::new() });
        let rf = self.create_reference(VmValue::Obj(ObjTag::Table, h));
        proof {
            assert(self.table_entries(h as int) =~= Seq::<(VmValueModel, VmValueModel)>::empty());
        }
        Table(rf)
    }

    /// The heap index of the table object a handle names.
    pub open spec fn table_heap(&self, t: Table) -> int {
        match self.slot_value(t.0.slot as int) {
            VmValueModel::Obj(_, h) => h,
            _ => -1,
        }
    }

    /// Sets `key` to `val` in the table `t`, marshaling both through the
    /// operand stack under a guard. A stale table reference, an
    /// unconvertible key or value, or a nil key is rejected with a
    /// conversion error, leaving the interpreter untouched.
    pub fn table_set(&mut self, t: Table, key: &Value, val: &Value) -> (r: Result<(), Error>)
        requires
            old(self).wf(),
            old(self).stack@.len() + 2 <= MAX_STACK,
        ensures
            final(self).wf(),
            final(self).stack@ == old(self).stack@,
            final(self).registry@ == old(self).registry@,
            final(self).heap@.len() == old(self).heap@.len(),
            Self::tset_ok(*old(self), t, key@, val@) ==> ({
                let h = old(self).table_heap(t);
                &&& r matches Ok(_)
                &&& forall|h2: int|
                    0 <= h2 < old(self).heap@.len() && h2 != h ==> final(self).heap@[h2] == old(
                        self,
                    ).heap@[h2]
                &&& final(self).table_entries(h) == old(self).table_entries(h).push(
                    (old(self).resolve(key@), old(self).resolve(val@)),
                )
                &&& tbl_lookup(final(self).table_entries(h), old(self).resolve(key@)) == old(
                    self,
                ).resolve(val@)
            }),
            !Self::tset_ok(*old(self), t, key@, val@) ==> ({
                &&& r matches Err(e) && e@ == ErrorModel::ConversionError
                &&& final(self).heap@ == old(self).heap@
            }),
    {
        let valid_t = self.check_ref(t.0, ObjTag::Table);
        if !valid_t {
            return Err(Error::ConversionError);
        }
        let guard = StackGuard::new(self);
        self.assert_stack(2);
        match self.to_vm(key) {
            Result::Err(e) => {
                guard.restore(self);
                proof {
                    assert(self.stack@ =~= old(self).stack@);
                }
                return Err(e);
            },
            Result::Ok(_) => {},
        }
        match self.to_vm(val) {
            Result::Err(e) => {
                guard.restore(self);
                proof {
                    assert(self.stack@ =~= old(self).stack@);
                }
                return Err(e);
            },
            Result::Ok(_) => {},
        }
        let top = self.gettop();
        let kv = clone_vm_value(&self.stack[top - 2]);
        let vv = clone_vm_value(&self.stack[top - 1]);
        guard.restore(self);
        proof {
            assert(self.stack@ =~= old(self).stack@);
        }
        let knil = match &kv {
            VmValue::Nil => true,
            _ => false,
        };
        if knil {
            return Err(Error::ConversionError);
        }
        let h: usize = match &self.registry[t.0.slot] {
            RegSlot::Anchored { value, .. } => match value {
                VmValue::Obj(_, hh) => *hh,
                _ => vstd::pervasive::unreached(),
            },
            RegSlot::Free => vstd::pervasive::unreached(),
        };
        let ghost pre = *self;
        match &mut self.heap[h] {
            HeapObj::Table { entries } => {
                entries.push((kv, vv));
            },
            _ => vstd::pervasive::unreached(),
        }
        proof {
            assert(self.table_entries(h as int) =~= pre.table_entries(h as int).push(
                (pre.resolve(key@), pre.resolve(val@)),
            ));
            assert(tbl_lookup(self.table_entries(h as int), pre.resolve(key@)) == pre.resolve(
                val@,
            ));
        }
        Ok(())
    }

    /// Whether a table assignment is accepted: a live table reference,
    /// convertible key and value, and a key that is not nil.
    pub open spec fn tset_ok(lua: Lua<C>, t: Table, key: ValueModel, val: ValueModel) -> bool {
        &&& lua.ref_ok(t.0.slot as int, ObjTag::Table)
        &&& lua.value_ok(key)
        &&& lua.value_ok(val)
        &&& !(lua.resolve(key) matches VmValueModel::Nil)
    }

    /// Whether a table read is accepted: a live table reference and a
    /// convertible key.
    pub open spec fn tget_ok(lua: Lua<C>, t: Table, key: ValueModel) -> bool {
        &&& lua.ref_ok(t.0.slot as int, ObjTag::Table)
        &&& lua.value_ok(key)
    }

    /// Reads the value bound to `key` in the table `t`: nil when the key is
    /// unbound, otherwise the newest binding, read back through the operand
    /// stack so heap objects come out as fresh references.
    pub fn table_get(&mut self, t: Table, key: &Value) -> (r: Result<Value, Error>)
        requires
            old(self).wf(),
            old(self).stack@.len() + 2 <= MAX_STACK,
        ensures
            final(self).wf(),
            final(self).stack@ == old(self).stack@,
            final(self).heap@ == old(self).heap@,
            final(self).registry@.len() >= old(self).registry@.len(),
            forall|s: int|
                0 <= s < old(self).registry@.len() ==> final(self).registry@[s] == old(
                    self,
                ).registry@[s],
            Self::tget_ok(*old(self), t, key@) ==> ({
                &&& r matches Ok(rv)
                &&& final(self).value_ok(rv@)
                &&& final(self).resolve(rv@) == tbl_lookup(
                    old(self).table_entries(old(self).table_heap(t)),
                    old(self).resolve(key@),
                )
            }),
            !Self::tget_ok(*old(self), t, key@) ==> ({
                &&& r matches Err(e) && e@ == ErrorModel::ConversionError
                &&& final(self).registry@ == old(self).registry@
            }),
    {
        let valid_t = self.check_ref(t.0, ObjTag::Table);
        if !valid_t {
            return Err(Error::ConversionError);
        }
        let guard = StackGuard::new(self);
        self.assert_stack(2);
        match self.to_vm(key) {
            Result::Err(e) => {
                guard.restore(self);
                proof {
                    assert(self.stack@ =~= old(self).stack@);
                }
                return Err(e);
            },
            Result::Ok(_) => {},
        }
        let top = self.gettop();
        let kv = clone_vm_value(&self.stack[top - 1]);
        let h: usize = match &self.registry[t.0.slot] {
            RegSlot::Anchored { value, .. } => match value {
                VmValue::Obj(_, hh) => *hh,
                _ => vstd::pervasive::unreached(),
            },
            RegSlot::Free => vstd::pervasive::unreached(),
        };
        let ghost table = self.table_entries(h as int);
        let ghost km = self.resolve(key@);
        proof {
            assert(self.heap_obj_ok(self.heap@[h as int]));
        }
        let found: VmValue = match &self.heap[h] {
            HeapObj::Table { entries } => {
                let mut j: usize = entries.len();
                let mut res: VmValue = VmValue::Nil;
                let mut done = false;
                proof {
                    assert(table.subrange(0, table.len() as int) =~= table);
                }
                while j > 0 && !done
                    invariant
                        j <= entries@.len(),
                        table.len() == entries@.len(),
                        forall|jj: int|
                            0 <= jj < entries@.len() ==> #[trigger] table[jj] == (
                            entries@[jj].0@,
                            entries@[jj].1@,
                            ),
                        forall|jj: int|
                            0 <= jj < entries@.len() ==> self.obj_ok(#[trigger] entries@[jj].0@)
                                && self.obj_ok(entries@[jj].1@),
                        kv@ == km,
                        !done ==> res == VmValue::Nil && tbl_lookup(table, km) == tbl_lookup(
                            table.subrange(0, j as int),
                            km,
                        ),
                        done ==> res@ == tbl_lookup(table, km) && self.obj_ok(res@),
                    decreases j,
                {
                    if vm_value_eq(&entries[j - 1].0, &kv) {
                        res = clone_vm_value(&entries[j - 1].1);
                        done = true;
                        proof {
                            assert(table.subrange(0, j as int).last() == table[j - 1]);
                        }
                        j = 0;
                    } else {
                        proof {
                            assert(table.subrange(0, j as int).drop_last() =~= table.subrange(
                                0,
                                j - 1,
                            ));
                        }
                        j = j - 1;
                    }
                }
                res
            },
            _ => vstd::pervasive::unreached(),
        };
        proof {
            if !(found@ == tbl_lookup(table, km)) {
                assert(tbl_lookup(table.subrange(0, 0), km) == VmValueModel::Nil);
                assert(false);
            }
        }
        self.push_value(found);
        let idx = self.gettop() - 1;
        let rv = self.from_vm(idx);
        guard.restore(self);
        proof {
            assert(self.stack@ =~= old(self).stack@);
        }
        Ok(rv)
    }

    /// Releases the references of a whole return list, the last value first.
    pub(crate) fn drop_multi(&mut self, vals: MultiValue)
        requires
            old(self).wf(),
        ensures
            final(self).wf(),
            final(self).stack@ == old(self).stack@,
            final(self).heap@ == old(self).heap@,
            final(self).registry@.len() == old(self).registry@.len(),
            final(self).registry@ == multi_release(old(self).registry@, vals.deep_view()),
    {
        let mut vals = vals;
        let ghost all = vals.deep_view();
        while vals.len() > 0
            invariant
                self.wf(),
                self.stack@ == old(self).stack@,
                self.heap@ == old(self).heap@,
                self.registry@.len() == old(self).registry@.len(),
                multi_release(old(self).registry@, all) == multi_release(
                    self.registry@,
                    vals.deep_view(),
                ),
            decreases vals@.len(),
        {
            let ghost before = vals.deep_view();
            let ghost pre_reg = self.registry@;
            match vals.pop() {
                Option::Some(v) => {
                    let ghost gv = v@;
                    self.drop_value(v);
                    proof {
                        assert(before.last() == gv);
                        assert(vals.deep_view() =~= before.drop_last());
                        assert(multi_release(pre_reg, before) == multi_release(
                            reg_after_release(pre_reg, before.last()),
                            before.drop_last(),
                        ));
                    }
                },
                Option::None => vstd::pervasive::unreached(),
            }
        }
        proof {
            assert(multi_release(self.registry@, vals.deep_view()) == self.registry@);
        }
    }
}

} // verus!
