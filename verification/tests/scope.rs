use std::cell::Cell;
use std::rc::Rc;

use rlua::{Callback, CallbackOutcome, Error, Function, Lua, MultiValue, Scope, Table, Value};

#[derive(Clone)]
struct SetTo42 {
    r: Rc<Cell<i32>>,
}

impl Callback for SetTo42 {
    fn call(&mut self, _lua: &mut Lua<Self>, _args: MultiValue) -> CallbackOutcome {
        self.r.set(42);
        CallbackOutcome::Values(Vec::new())
    }
}

#[test]
fn scope_func() {
    let mut lua: Lua<SetTo42> = Lua::new();

    let rc = Rc::new(Cell::new(0));
    let mut scope = Scope::new();
    let r = rc.clone();
    let f = scope.create_function(&mut lua, SetTo42 { r }).unwrap();
    let globals = lua.globals();
    lua.table_set(globals, &Value::Str(b"bad".to_vec()), &Value::Function(f.0))
        .unwrap();
    lua.call_function(f, Vec::new()).unwrap();
    assert_eq!(Rc::strong_count(&rc), 2);
    scope.close(&mut lua);
    assert_eq!(rc.get(), 42);
    assert_eq!(Rc::strong_count(&rc), 1);

    let bad = match lua
        .table_get(globals, &Value::Str(b"bad".to_vec()))
        .unwrap()
    {
        Value::Function(fr) => Function(fr),
        v => panic!("expected a function: {:?}", v),
    };
    match lua.call_function(bad, Vec::new()) {
        Err(Error::CallbackError { .. }) => {}
        r => panic!("improper return for destructed function: {:?}", r),
    };
}

#[test]
fn scope_capture() {
    let mut lua: Lua<SetTo42> = Lua::new();

    let i = Rc::new(Cell::new(0));
    let mut scope = Scope::new();
    let f = scope
        .create_function_mut(&mut lua, SetTo42 { r: i.clone() })
        .unwrap();
    lua.call_function(f, Vec::new()).unwrap();
    scope.close(&mut lua);
    assert_eq!(i.get(), 42);
}

#[derive(Clone)]
struct SetTableAB {
    table: Table,
}

impl Callback for SetTableAB {
    fn call(&mut self, lua: &mut Lua<Self>, _args: MultiValue) -> CallbackOutcome {
        lua.table_set(
            self.table,
            &Value::Str(b"a".to_vec()),
            &Value::Str(b"b".to_vec()),
        )
        .unwrap();
        CallbackOutcome::Values(Vec::new())
    }
}

#[test]
fn outer_lua_access() {
    let mut lua: Lua<SetTableAB> = Lua::new();
    let table = lua.create_table();
    let mut scope = Scope::new();
    let f = scope
        .create_function_mut(&mut lua, SetTableAB { table })
        .unwrap();
    lua.call_function(f, Vec::new()).unwrap();
    scope.close(&mut lua);
    match lua.table_get(table, &Value::Str(b"a".to_vec())).unwrap() {
        Value::Str(s) => assert_eq!(s, b"b".to_vec()),
        v => panic!("expected a string: {:?}", v),
    }
}
