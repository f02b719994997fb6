//! Host-side and runtime-side value representations.

use vstd::prelude::*;
use crate::error::{Error, ErrorModel, clone_bytes, clone_error};

verus! {

/// A host-side handle anchoring one registry slot of the embedded runtime.
///
/// The slot keeps the anchored runtime value reachable, so the runtime's
/// collector will not reclaim it while the host holds an alias. Aliases are
/// counted per slot; see [`crate::lua::Lua::clone_ref`] and
/// [`crate::lua::Lua::drop_ref`].
#[derive(Clone, Copy, PartialEq, Eq, Structural, Debug)]
pub struct LuaRef {
    pub slot: usize,
}

/// The kind of a heap-resident runtime object.
#[derive(Clone, Copy, PartialEq, Eq, Structural, Debug)]
pub enum ObjTag {
    Table,
    Function,
    UserData,
    Thread,
}

/// A value as the embedded runtime holds it on its operand stack and in its
/// registry: scalars by value, heap objects by index and tag.
pub enum VmValue {
    Nil,
    Boolean(bool),
    Integer(i64),
    /// An IEEE double, carried by its bit pattern. The embedded runtime of
    /// this build keeps integers and floating-point numbers as distinct
    /// numeric subtypes; no silent coercion happens at the boundary.
    Number(u64),
    Str(Vec<u8>),
    LightUserData(u64),
    Obj(ObjTag, usize),
    Error(Box<Error>),
}

/// Mathematical model of a [`VmValue`].
pub enum VmValueModel {
    Nil,
    Boolean(bool),
    Integer(i64),
    Number(u64),
    Str(Seq<u8>),
    LightUserData(u64),
    Obj(ObjTag, int),
    Error(ErrorModel),
}

impl View for VmValue {
    type V = VmValueModel;

    open spec fn view(&self) -> VmValueModel {
        match self {
            VmValue::Nil => VmValueModel::Nil,
            VmValue::Boolean(b) => VmValueModel::Boolean(*b),
            VmValue::Integer(i) => VmValueModel::Integer(*i),
            VmValue::Number(n) => VmValueModel::Number(*n),
            VmValue::Str(s) => VmValueModel::Str(s@),
            VmValue::LightUserData(p) => VmValueModel::LightUserData(*p),
            VmValue::Obj(t, h) => VmValueModel::Obj(*t, *h as int),
            VmValue::Error(e) => VmValueModel::Error(e@),
        }
    }
}

impl DeepView for VmValue {
    type V = VmValueModel;

    open spec fn deep_view(&self) -> VmValueModel {
        self.view()
    }
}

/// Compares two runtime values. Scalars and byte strings compare by value,
/// heap objects by identity.
pub fn vm_value_eq(a: &VmValue, b: &VmValue) -> (r: bool)
    ensures
        r == (a@ == b@),
{
    match (a, b) {
        (VmValue::Nil, VmValue::Nil) => true,
        (VmValue::Boolean(x), VmValue::Boolean(y)) => x == y,
        (VmValue::Integer(x), VmValue::Integer(y)) => x == y,
        (VmValue::Number(x), VmValue::Number(y)) => x == y,
        (VmValue::Str(x), VmValue::Str(y)) => crate::error::bytes_eq(x, y),
        (VmValue::LightUserData(x), VmValue::LightUserData(y)) => x == y,
        (VmValue::Obj(t1, h1), VmValue::Obj(t2, h2)) => t1 == t2 && h1 == h2,
        (VmValue::Error(e1), VmValue::Error(e2)) => crate::error::error_eq(e1, e2),
        _ => false,
    }
}

/// Copies a runtime value.
pub fn clone_vm_value(v: &VmValue) -> (r: VmValue)
    ensures
        r@ == v@,
{
    match v {
        VmValue::Nil => VmValue::Nil,
        VmValue::Boolean(b) => VmValue::Boolean(*b),
        VmValue::Integer(i) => VmValue::Integer(*i),
        VmValue::Number(n) => VmValue::Number(*n),
        VmValue::Str(s) => VmValue::Str(clone_bytes(s)),
        VmValue::LightUserData(p) => VmValue::LightUserData(*p),
        VmValue::Obj(t, h) => VmValue::Obj(*t, *h),
        VmValue::Error(e) => VmValue::Error(Box::new(clone_error(e))),
    }
}

/// A value as host code holds it: scalars and byte strings by value, runtime
/// objects as a registry reference plus a tag.
#[derive(Debug)]
pub enum Value {
    Nil,
    Boolean(bool),
    Integer(i64),
    /// An IEEE double, carried by its bit pattern; see [`VmValue::Number`].
    Number(u64),
    Str(Vec<u8>),
    LightUserData(u64),
    Table(LuaRef),
    Function(LuaRef),
    UserData(LuaRef),
    Thread(LuaRef),
    Error(Box<Error>),
}

/// Mathematical model of a host-side [`Value`].
pub enum ValueModel {
    Nil,
    Boolean(bool),
    Integer(i64),
    Number(u64),
    Str(Seq<u8>),
    LightUserData(u64),
    Table(int),
    Function(int),
    UserData(int),
    Thread(int),
    Error(ErrorModel),
}

impl View for Value {
    type V = ValueModel;

    open spec fn view(&self) -> ValueModel {
        match self {
            Value::Nil => ValueModel::Nil,
            Value::Boolean(b) => ValueModel::Boolean(*b),
            Value::Integer(i) => ValueModel::Integer(*i),
            Value::Number(n) => ValueModel::Number(*n),
            Value::Str(s) => ValueModel::Str(s@),
            Value::LightUserData(p) => ValueModel::LightUserData(*p),
            Value::Table(r) => ValueModel::Table(r.slot as int),
            Value::Function(r) => ValueModel::Function(r.slot as int),
            Value::UserData(r) => ValueModel::UserData(r.slot as int),
            Value::Thread(r) => ValueModel::Thread(r.slot as int),
            Value::Error(e) => ValueModel::Error(e@),
        }
    }
}

impl DeepView for Value {
    type V = ValueModel;

    open spec fn deep_view(&self) -> ValueModel {
        self.view()
    }
}

/// An ordered sequence of values, used for call arguments and return lists.
/// Positional order is significant and preserved end-to-end.
pub type MultiValue = Vec<Value>;

/// A host-side handle to a runtime function value.
#[derive(Clone, Copy, PartialEq, Eq, Structural, Debug)]
pub struct Function(pub LuaRef);

/// A host-side handle to a runtime table value.
#[derive(Clone, Copy, PartialEq, Eq, Structural, Debug)]
pub struct Table(pub LuaRef);

} // verus!
