//! Which functions and methods the Kotlin generator can bind.

use vstd::prelude::*;
use crate::model::{
    spec_has_c_style_enum, spec_has_enum, spec_record_blittable, Function, Module, Parameter,
    ReturnType, Type,
};

verus! {

/// Whether the module declares a blittable record of this name.
pub open spec fn blittable(m: Module, name: Seq<char>) -> bool {
    spec_record_blittable(m.records@, name)
}

/// Whether an optional value of this type can be returned.
pub open spec fn supported_option_inner(t: Type, m: Module) -> bool {
    match t {
        Type::Primitive(_) | Type::String => true,
        Type::Record(n) => blittable(m, n@),
        Type::Enum(n) => spec_has_enum(m.enums@, n@),
        Type::Vec(vi) => match *vi {
            Type::Primitive(_) | Type::String => true,
            Type::Record(n) => blittable(m, n@),
            Type::Enum(n) => spec_has_c_style_enum(m.enums@, n@),
            _ => false,
        },
        _ => false,
    }
}

/// Whether a fallible function's success type can be returned.
pub open spec fn supported_result_ok(ok: Type, m: Module) -> bool {
    match ok {
        Type::Primitive(_) | Type::String | Type::Void => true,
        Type::Record(n) => blittable(m, n@),
        Type::Enum(n) => spec_has_enum(m.enums@, n@),
        Type::Vec(inner) => match *inner {
            Type::Primitive(_) => true,
            Type::Record(n) => blittable(m, n@),
            _ => false,
        },
        Type::Option(inner) => supported_option_inner(*inner, m),
        _ => false,
    }
}

/// Whether a synchronous function's result can be returned.
pub open spec fn supported_output(r: ReturnType, m: Module) -> bool {
    match r {
        ReturnType::Void => true,
        ReturnType::Fallible { ok, .. } => supported_result_ok(ok, m),
        ReturnType::Value(ty) => match ty {
            Type::Void | Type::Primitive(_) | Type::String | Type::Enum(_) => true,
            Type::Vec(inner) => match *inner {
                Type::Primitive(_) => true,
                Type::Record(n) => blittable(m, n@),
                _ => false,
            },
            Type::Option(inner) => supported_option_inner(*inner, m),
            _ => false,
        },
    }
}

/// Whether a parameter of this type can be passed to a synchronous function.
pub open spec fn supported_input(t: Type, m: Module) -> bool {
    match t {
        Type::Primitive(_) | Type::String | Type::Enum(_) | Type::Closure(_) => true,
        Type::Record(n) => blittable(m, n@),
        Type::Vec(inner) => match *inner {
            Type::Primitive(_) => true,
            Type::Record(n) => blittable(m, n@),
            _ => false,
        },
        Type::Slice(inner) => match *inner {
            Type::Primitive(_) => true,
            Type::Record(n) => blittable(m, n@),
            _ => false,
        },
        _ => false,
    }
}

/// Whether an async call's success type can be completed.
pub open spec fn supported_async_result_ok(ok: Type) -> bool {
    ok is Primitive || ok is String || ok is Void
}

/// Whether an async call's result can be completed.
pub open spec fn supported_async_output(r: ReturnType, m: Module) -> bool {
    match r {
        ReturnType::Void => true,
        ReturnType::Fallible { ok, .. } => supported_async_result_ok(ok),
        ReturnType::Value(ty) => match ty {
            Type::Void | Type::Primitive(_) | Type::String => true,
            Type::Vec(inner) => *inner is Primitive,
            Type::Record(n) => blittable(m, n@),
            _ => false,
        },
    }
}

/// Whether every parameter is a primitive or a string.
pub open spec fn async_inputs_ok(inputs: Seq<Parameter>) -> bool {
    forall|i: int|
        0 <= i < inputs.len() ==> (#[trigger] inputs[i]).param_type is Primitive
            || inputs[i].param_type is String
}

/// Whether every parameter can be passed.
pub open spec fn sync_inputs_ok(inputs: Seq<Parameter>, m: Module) -> bool {
    forall|i: int| 0 <= i < inputs.len() ==> supported_input((#[trigger] inputs[i]).param_type, m)
}

/// Whether the Kotlin generator binds this function.
pub open spec fn supported_function(f: Function, m: Module) -> bool {
    if f.is_async {
        supported_async_output(f.returns, m) && async_inputs_ok(f.inputs@)
    } else {
        supported_output(f.returns, m) && sync_inputs_ok(f.inputs@, m)
    }
}

/// Whether an optional value of this type can be returned.
pub fn is_supported_option_inner(inner: &Type, module: &Module) -> (r: bool)
    ensures
        r == supported_option_inner(*inner, *module),
{
    match inner {
        Type::Primitive(_) | Type::String => true,
        Type::Record(name) => module.record_is_blittable(name),
        Type::Enum(name) => module.has_enum(name),
        Type::Vec(vec_inner) => match &**vec_inner {
            Type::Primitive(_) | Type::String => true,
            Type::Record(name) => module.record_is_blittable(name),
            Type::Enum(name) => module.has_c_style_enum(name),
            _ => false,
        },
        _ => false,
    }
}

/// Whether a fallible function's success type can be returned.
pub fn is_supported_result_ok(ok: &Type, module: &Module) -> (r: bool)
    ensures
        r == supported_result_ok(*ok, *module),
{
    match ok {
        Type::Primitive(_) | Type::String | Type::Void => true,
        Type::Record(name) => module.record_is_blittable(name),
        Type::Enum(name) => module.has_enum(name),
        Type::Vec(inner) => match &**inner {
            Type::Primitive(_) => true,
            Type::Record(name) => module.record_is_blittable(name),
            _ => false,
        },
        Type::Option(inner) => is_supported_option_inner(inner, module),
        _ => false,
    }
}

/// Whether a synchronous function's result can be returned.
pub fn is_supported_output(result: &ReturnType, module: &Module) -> (r: bool)
    ensures
        r == supported_output(*result, *module),
{
    match result {
        ReturnType::Void => true,
        ReturnType::Fallible { ok, .. } => is_supported_result_ok(ok, module),
        ReturnType::Value(ty) => match ty {
            Type::Void | Type::Primitive(_) | Type::String | Type::Enum(_) => true,
            Type::Vec(inner) => match &**inner {
                Type::Primitive(_) => true,
                Type::Record(name) => module.record_is_blittable(name),
                _ => false,
            },
            Type::Option(inner) => is_supported_option_inner(inner, module),
            _ => false,
        },
    }
}

/// Whether a parameter of this type can be passed.
pub fn is_supported_input(ty: &Type, module: &Module) -> (r: bool)
    ensures
        r == supported_input(*ty, *module),
{
    match ty {
        Type::Primitive(_) | Type::String | Type::Enum(_) | Type::Closure(_) => true,
        Type::Record(name) => module.record_is_blittable(name),
        Type::Vec(inner) | Type::Slice(inner) => match &**inner {
            Type::Primitive(_) => true,
            Type::Record(name) => module.record_is_blittable(name),
            _ => false,
        },
        _ => false,
    }
}

/// Whether an async call's success type can be completed.
pub fn is_supported_async_result_ok(ok: &Type) -> (r: bool)
    ensures
        r == supported_async_result_ok(*ok),
{
    matches!(ok, Type::Primitive(_) | Type::String | Type::Void)
}

/// Whether an async call's result can be completed.
pub fn is_supported_async_output(result: &ReturnType, module: &Module) -> (r: bool)
    ensures
        r == supported_async_output(*result, *module),
{
    match result {
        ReturnType::Void => true,
        ReturnType::Fallible { ok, .. } => is_supported_async_result_ok(ok),
        ReturnType::Value(ty) => match ty {
            Type::Void | Type::Primitive(_) | Type::String => true,
            Type::Vec(inner) => matches!(&**inner, Type::Primitive(_)),
            Type::Record(name) => module.record_is_blittable(name),
            _ => false,
        },
    }
}

/// Whether an async function can be bound.
pub fn is_supported_async_function(func: &Function, module: &Module) -> (r: bool)
    ensures
        r == (supported_async_output(func.returns, *module) && async_inputs_ok(func.inputs@)),
{
    let supported_output = is_supported_async_output(&func.returns, module);
    let mut supported_inputs = true;
    let mut i: usize = 0;
    while i < func.inputs.len()
        invariant
            i <= func.inputs@.len(),
            supported_inputs == async_inputs_ok(func.inputs@.take(i as int)),
        decreases func.inputs@.len() - i,
    {
        proof {
            assert forall|k: int| 0 <= k < i + 1 implies #[trigger] func.inputs@.take(i + 1)[k]
                == func.inputs@[k] by {}
            assert forall|k: int| 0 <= k < i implies #[trigger] func.inputs@.take(i as int)[k]
                == func.inputs@[k] by {}
        }
        let ok = matches!(&func.inputs[i].param_type, Type::Primitive(_) | Type::String);
        supported_inputs = supported_inputs && ok;
        proof {
            if !ok {
                assert(!(func.inputs@.take(i + 1)[i as int].param_type is Primitive
                    || func.inputs@.take(i + 1)[i as int].param_type is String));
            }
        }
        i = i + 1;
    }
    assert(func.inputs@.take(i as int) =~= func.inputs@);
    supported_output && supported_inputs
}

/// Whether a function can be bound.
pub fn is_supported_function(func: &Function, module: &Module) -> (r: bool)
    ensures
        r == supported_function(*func, *module),
{
    if func.is_async {
        return is_supported_async_function(func, module);
    }
    let supported_output = is_supported_output(&func.returns, module);
    let mut supported_inputs = true;
    let mut i: usize = 0;
    while i < func.inputs.len()
        invariant
            i <= func.inputs@.len(),
            supported_inputs == sync_inputs_ok(func.inputs@.take(i as int), *module),
        decreases func.inputs@.len() - i,
    {
        proof {
            assert forall|k: int| 0 <= k < i + 1 implies #[trigger] func.inputs@.take(i + 1)[k]
                == func.inputs@[k] by {}
        }
        let ok = is_supported_input(&func.inputs[i].param_type, module);
        supported_inputs = supported_inputs && ok;
        proof {
            if !ok {
                assert(!supported_input(func.inputs@.take(i + 1)[i as int].param_type, *module));
            }
        }
        i = i + 1;
    }
    assert(func.inputs@.take(i as int) =~= func.inputs@);
    supported_output && supported_inputs
}

/// A synchronous function whose parameters are all primitives or strings,
/// and whose result is nothing, a primitive or a string, is bound by the
/// Kotlin generator, in every module.
pub proof fn lemma_plain_function_supported(f: Function, m: Module)
    requires
        !f.is_async,
        forall|i: int|
            0 <= i < f.inputs@.len() ==> (#[trigger] f.inputs@[i]).param_type is Primitive
                || f.inputs@[i].param_type is String,
        f.returns is Void || (f.returns matches ReturnType::Value(t) && (t is Primitive || t is String)),
    ensures
        supported_function(f, m),
{
}

} // verus!
