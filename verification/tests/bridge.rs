use std::cell::Cell;
use std::rc::Rc;

use rlua::{
    Callback, CallbackOutcome, Error, Function, Lua, LuaRef, MultiValue, ObjTag, RegSlot, Scope,
    StackGuard, Value, VmValue,
};

#[derive(Clone)]
struct NoOp;

impl Callback for NoOp {
    fn call(&mut self, _lua: &mut Lua<Self>, _args: MultiValue) -> CallbackOutcome {
        CallbackOutcome::Values(Vec::new())
    }
}

#[test]
fn alias_release_exactly_once() {
    let mut lua: Lua<NoOp> = Lua::new();
    let r0 = lua.create_reference(VmValue::Integer(5));
    let r1 = lua.clone_ref(r0);
    lua.drop_ref(r0);
    // the remaining alias is fully functional: the slot is still anchored
    match &lua.registry[r1.slot] {
        RegSlot::Anchored { value: VmValue::Integer(5), count: 1 } => {}
        _ => panic!("slot released too early"),
    }
    lua.drop_ref(r1);
    assert!(matches!(&lua.registry[r1.slot], RegSlot::Free));
}

#[test]
fn round_trip_scalars() {
    let mut lua: Lua<NoOp> = Lua::new();
    let before = lua.gettop();
    assert!(matches!(
        lua.round_trip_law(&Value::Integer(7)),
        Value::Integer(7)
    ));
    assert!(matches!(lua.round_trip_law(&Value::Nil), Value::Nil));
    assert!(matches!(
        lua.round_trip_law(&Value::Boolean(true)),
        Value::Boolean(true)
    ));
    let bits = 1.5f64.to_bits();
    match lua.round_trip_law(&Value::Number(bits)) {
        Value::Number(b) => assert_eq!(f64::from_bits(b), 1.5),
        v => panic!("expected a number: {:?}", v),
    }
    match lua.round_trip_law(&Value::Str(b"hi".to_vec())) {
        Value::Str(s) => assert_eq!(s, b"hi".to_vec()),
        v => panic!("expected a string: {:?}", v),
    }
    assert_eq!(lua.gettop(), before);
}

#[test]
fn round_trip_table_aliases_same_object() {
    let mut lua: Lua<NoOp> = Lua::new();
    let t = lua.create_table();
    let before = lua.gettop();
    let r = lua.round_trip_law(&Value::Table(t.0));
    assert_eq!(lua.gettop(), before);
    let t2 = match r {
        Value::Table(r2) => {
            assert_ne!(r2.slot, t.0.slot, "round trip anchors a fresh slot");
            rlua::Table(r2)
        }
        v => panic!("expected a table: {:?}", v),
    };
    // both references name the same runtime object: a write through one is
    // read through the other
    lua.table_set(t, &Value::Str(b"k".to_vec()), &Value::Integer(3))
        .unwrap();
    match lua.table_get(t2, &Value::Str(b"k".to_vec())).unwrap() {
        Value::Integer(3) => {}
        v => panic!("aliases disagree: {:?}", v),
    }
}

#[test]
fn stack_guard_restores_top() {
    let mut lua: Lua<NoOp> = Lua::new();
    lua.push_value(VmValue::Integer(1));
    let before = lua.gettop();
    let guard = StackGuard::new(&lua);
    lua.push_value(VmValue::Integer(2));
    lua.push_value(VmValue::Str(b"x".to_vec()));
    lua.settop(1);
    lua.push_value(VmValue::Boolean(false));
    guard.restore(&mut lua);
    assert_eq!(lua.gettop(), before);
    assert!(matches!(&lua.stack[0], VmValue::Integer(1)));
}

#[derive(Clone)]
struct Failing {
    panic_instead: bool,
}

impl Callback for Failing {
    fn call(&mut self, _lua: &mut Lua<Self>, _args: MultiValue) -> CallbackOutcome {
        if self.panic_instead {
            CallbackOutcome::Panicked(b"boom".to_vec())
        } else {
            CallbackOutcome::Error(Error::RuntimeError(b"bad input".to_vec()))
        }
    }
}

#[test]
fn panic_is_caught_and_stack_balanced() {
    let mut lua: Lua<Failing> = Lua::new();
    let f = lua.create_callback(Failing { panic_instead: true }, true);
    let before = lua.gettop();
    match lua.call_function(f, Vec::new()) {
        Err(Error::CallbackError(cause)) => {
            assert!(matches!(&*cause, Error::CallbackPanic(p) if *p == b"boom".to_vec()))
        }
        r => panic!("expected a wrapped panic: {:?}", r),
    }
    assert_eq!(lua.gettop(), before);
}

#[test]
fn application_error_is_wrapped() {
    let mut lua: Lua<Failing> = Lua::new();
    let f = lua.create_callback(Failing { panic_instead: false }, false);
    match lua.call_function(f, Vec::new()) {
        Err(Error::CallbackError(cause)) => {
            assert!(matches!(&*cause, Error::RuntimeError(m) if *m == b"bad input".to_vec()))
        }
        r => panic!("expected a wrapped error: {:?}", r),
    }
}

#[derive(Clone)]
struct Reentrant {
    own_slot: Rc<Cell<usize>>,
    inner_failed: Rc<Cell<bool>>,
    outer_effect: Rc<Cell<i32>>,
}

impl Callback for Reentrant {
    fn call(&mut self, lua: &mut Lua<Self>, _args: MultiValue) -> CallbackOutcome {
        let me = Function(LuaRef { slot: self.own_slot.get() });
        match lua.call_function(me, Vec::new()) {
            Err(Error::CallbackError(cause)) => {
                if matches!(&*cause, Error::RecursiveMutCallback) {
                    self.inner_failed.set(true);
                }
            }
            _ => {}
        }
        self.outer_effect.set(7);
        CallbackOutcome::Values(Vec::new())
    }
}

#[test]
fn recursive_mut_callback_fails_fast() {
    let mut lua: Lua<Reentrant> = Lua::new();
    let own_slot = Rc::new(Cell::new(0));
    let inner_failed = Rc::new(Cell::new(false));
    let outer_effect = Rc::new(Cell::new(0));
    let mut scope = Scope::new();
    let f = scope
        .create_function_mut(
            &mut lua,
            Reentrant {
                own_slot: own_slot.clone(),
                inner_failed: inner_failed.clone(),
                outer_effect: outer_effect.clone(),
            },
        )
        .unwrap();
    own_slot.set(f.0.slot);
    // the outer invocation succeeds; the inner one failed fast
    lua.call_function(f, Vec::new()).unwrap();
    assert!(inner_failed.get());
    assert_eq!(outer_effect.get(), 7);
    scope.close(&mut lua);
}

#[test]
fn empty_scope_close_is_noop() {
    let mut lua: Lua<NoOp> = Lua::new();
    let regs = lua.registry.len();
    let heaps = lua.heap.len();
    let scope = Scope::new();
    scope.close(&mut lua);
    assert_eq!(lua.registry.len(), regs);
    assert_eq!(lua.heap.len(), heaps);
    assert_eq!(lua.gettop(), 0);
}

#[test]
fn expired_reference_is_a_conversion_error() {
    let mut lua: Lua<NoOp> = Lua::new();
    let t = lua.create_table();
    lua.drop_ref(t.0);
    match lua.table_get(t, &Value::Str(b"k".to_vec())) {
        Err(Error::ConversionError) => {}
        r => panic!("expected a conversion error: {:?}", r),
    }
    let before = lua.gettop();
    match lua.to_vm(&Value::Table(t.0)) {
        Err(Error::ConversionError) => {}
        r => panic!("expected a conversion error: {:?}", r),
    }
    assert_eq!(lua.gettop(), before);
}

#[test]
fn nil_table_key_is_rejected() {
    let mut lua: Lua<NoOp> = Lua::new();
    let t = lua.create_table();
    match lua.table_set(t, &Value::Nil, &Value::Integer(1)) {
        Err(Error::ConversionError) => {}
        r => panic!("expected a conversion error: {:?}", r),
    }
}

#[test]
fn multi_value_order_is_preserved() {
    let mut lua: Lua<NoOp> = Lua::new();
    let args = vec![
        Value::Integer(1),
        Value::Str(b"two".to_vec()),
        Value::Boolean(true),
    ];
    let n = lua.to_vm_multi(&args).unwrap();
    assert_eq!(n, 3);
    let back = lua.from_vm_multi(3);
    assert!(matches!(&back[0], Value::Integer(1)));
    assert!(matches!(&back[1], Value::Str(s) if *s == b"two".to_vec()));
    assert!(matches!(&back[2], Value::Boolean(true)));
    lua.settop(0);
}

#[test]
fn newest_table_binding_wins() {
    let mut lua: Lua<NoOp> = Lua::new();
    let t = lua.create_table();
    let k = Value::Str(b"k".to_vec());
    lua.table_set(t, &k, &Value::Integer(1)).unwrap();
    lua.table_set(t, &k, &Value::Integer(2)).unwrap();
    match lua.table_get(t, &k).unwrap() {
        Value::Integer(2) => {}
        v => panic!("expected the newest binding: {:?}", v),
    }
    match lua.table_get(t, &Value::Str(b"absent".to_vec())).unwrap() {
        Value::Nil => {}
        v => panic!("expected nil for an unbound key: {:?}", v),
    }
}

#[test]
fn check_stack_reports_headroom() {
    let lua: Lua<NoOp> = Lua::new();
    assert!(lua.check_stack(1));
    assert!(lua.check_stack(rlua::MAX_STACK));
    assert!(!lua.check_stack(rlua::MAX_STACK + 1));
}

#[test]
fn surviving_handle_fails_recoverably() {
    let mut lua: Lua<NoOp> = Lua::new();
    match rlua::scope_exit_law(&mut lua, NoOp) {
        Err(Error::CallbackError(cause)) => {
            assert!(matches!(&*cause, Error::CallbackDestructed))
        }
        r => panic!("expected a dead function: {:?}", r),
    }
    assert_eq!(lua.gettop(), 0);
}

#[test]
fn scope_function_slot_released_at_close() {
    let mut lua: Lua<NoOp> = Lua::new();
    let mut scope = Scope::new();
    let f = scope.create_function(&mut lua, NoOp).unwrap();
    // two aliases: the returned handle's and the scope's
    match &lua.registry[f.0.slot] {
        RegSlot::Anchored { count: 2, value: VmValue::Obj(ObjTag::Function, _) } => {}
        _ => panic!("expected two aliases of a function slot"),
    }
    scope.close(&mut lua);
    // the scope's alias is gone; the handle's remains, but the function is dead
    match &lua.registry[f.0.slot] {
        RegSlot::Anchored { count: 1, .. } => {}
        _ => panic!("expected the handle's alias to remain"),
    }
    match lua.call_function(f, Vec::new()) {
        Err(Error::CallbackError(cause)) => {
            assert!(matches!(&*cause, Error::CallbackDestructed))
        }
        r => panic!("expected a dead function: {:?}", r),
    }
}
