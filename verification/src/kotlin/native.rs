//! The `Native` object: the JNI declarations of every exported symbol.

use vstd::prelude::*;
use crate::model::{
    spec_enum_is_data, spec_ok_type, CallbackTrait, Class, Constructor, ConstructorParam,
    Function, Method, Module, Parameter, ReturnType, TraitMethod, Type,
};
use crate::naming::{
    class_ffi_free, class_ffi_new, function_ffi_cancel, function_ffi_complete, function_ffi_free,
    function_ffi_name, function_ffi_poll, method_ffi_cancel, method_ffi_complete, method_ffi_free,
    method_ffi_name, method_ffi_poll, spec_class_ffi_prefix, spec_ffi_prefix,
    spec_function_ffi_name, spec_method_ffi_name, ffi_prefix,
};
use crate::text::{
    lemma_concat_part_occurs, lemma_occurs_middle, lemma_occurs_trans, occurs_in,
    concat2, concat3, concat4, concat_all, join, lemma_filter_step, push_str, render_all,
    contains_text, seq_concat, seq_join, string_of, text_is, views,
};
use super::classes::{method_filter, ClassTemplate};
use super::functions::{function_of, function_source, lemma_function_calls_native, FunctionTemplate};
use super::names::{kotlin_member, NamingConvention};
use super::primitives::{info, invoker_suffix};
use super::types::{kotlin_jni_type, TypeMapper};

verus! {

/// The `Native` object of a module.
pub struct NativeTemplate {
    pub lib_name: String,
    pub prefix: String,
    pub functions: Vec<NativeFunctionView>,
    pub classes: Vec<NativeClassView>,
    pub async_callback_invokers: Vec<AsyncCallbackInvokerView>,
}

/// The entry point through which Rust completes an async callback with a
/// result of one JNI type.
pub struct AsyncCallbackInvokerView {
    pub name: String,
    pub jni_type: String,
    pub has_result: bool,
}

/// The declarations of a free function.
pub struct NativeFunctionView {
    pub ffi_name: String,
    pub params: Vec<NativeParamView>,
    pub has_out_param: bool,
    pub out_type: String,
    pub return_jni_type: String,
    pub is_async: bool,
    pub ffi_poll: String,
    pub ffi_complete: String,
    pub ffi_cancel: String,
    pub ffi_free: String,
    pub complete_return_jni_type: String,
}

/// A parameter of a JNI declaration.
pub struct NativeParamView {
    pub name: String,
    pub jni_type: String,
}

/// The declarations of a class.
pub struct NativeClassView {
    pub ffi_new: String,
    pub ffi_free: String,
    pub ctor_params: Vec<NativeParamView>,
    pub factory_ctors: Vec<NativeFactoryCtorView>,
    pub methods: Vec<NativeMethodView>,
}

/// The declaration of a named constructor.
pub struct NativeFactoryCtorView {
    pub ffi_name: String,
    pub params: Vec<NativeParamView>,
}

/// The declarations of a method.
pub struct NativeMethodView {
    pub ffi_name: String,
    pub params: Vec<NativeParamView>,
    pub has_out_param: bool,
    pub out_type: String,
    pub return_jni_type: String,
    pub is_async: bool,
    pub ffi_poll: String,
    pub ffi_complete: String,
    pub ffi_cancel: String,
    pub ffi_free: String,
}

// ---------------------------------------------------------------------------
// What each declaration holds
// ---------------------------------------------------------------------------

/// The JNI type of a fallible call's success value.
pub open spec fn native_result_return(ok: Type, m: Module) -> Seq<char> {
    match ok {
        Type::Void => "Unit"@,
        Type::String => "String?"@,
        Type::Record(_) => "ByteBuffer?"@,
        Type::Enum(n) => if spec_enum_is_data(m.enums@, n@) {
            "ByteBuffer?"@
        } else {
            "Int"@
        },
        _ => kotlin_jni_type(ok),
    }
}

/// The JNI type a call returns.
pub open spec fn native_return(r: ReturnType, m: Module) -> Seq<char> {
    match r {
        ReturnType::Void => "Unit"@,
        ReturnType::Fallible { ok, .. } => native_result_return(ok, m),
        ReturnType::Value(ty) => match ty {
            Type::Void => "Unit"@,
            Type::String => "String?"@,
            Type::Bytes => "ByteArray?"@,
            Type::Vec(inner) => match *inner {
                Type::Primitive(_) => kotlin_jni_type(ty),
                Type::Record(_) => "ByteBuffer"@,
                _ => "Long"@,
            },
            Type::Record(_) => "ByteBuffer?"@,
            Type::Enum(n) => if spec_enum_is_data(m.enums@, n@) {
                "ByteBuffer"@
            } else {
                kotlin_jni_type(ty)
            },
            _ => kotlin_jni_type(ty),
        },
    }
}

/// The JNI type an async completion returns: a primitive array may be null.
pub open spec fn complete_return(r: ReturnType, base: Seq<char>) -> Seq<char> {
    match spec_ok_type(r) {
        Some(t) => match t {
            Type::Vec(inner) => if *inner is Primitive {
                base + "?"@
            } else {
                base
            },
            _ => base,
        },
        None => base,
    }
}

/// The JNI type of a free function's parameter: records in a sequence and
/// data-carrying enumerations travel as bytes.
pub open spec fn native_fn_param_type(t: Type, m: Module) -> Seq<char> {
    match t {
        Type::Vec(inner) => if *inner is Record {
            "ByteArray"@
        } else {
            kotlin_jni_type(t)
        },
        Type::Slice(inner) => if *inner is Record {
            "ByteArray"@
        } else {
            kotlin_jni_type(t)
        },
        Type::Enum(n) => if spec_enum_is_data(m.enums@, n@) {
            "ByteArray"@
        } else {
            kotlin_jni_type(t)
        },
        _ => kotlin_jni_type(t),
    }
}

/// Whether `v` declares parameter `name` of JNI type `jni`.
pub open spec fn native_param_of(v: NativeParamView, name: Seq<char>, jni: Seq<char>) -> bool {
    v.name@ == kotlin_member(name) && v.jni_type@ == jni
}

/// Whether `v` holds the declarations of free function `f`.
pub open spec fn native_function_of(v: NativeFunctionView, f: Function, m: Module) -> bool {
    let ffi = spec_function_ffi_name(f.name@);
    &&& v.ffi_name@ == ffi
    &&& v.params@.len() == f.inputs@.len()
    &&& (forall|i: int|
        0 <= i < v.params@.len() ==> native_param_of(
            #[trigger] v.params@[i],
            f.inputs@[i].name@,
            native_fn_param_type(f.inputs@[i].param_type, m),
        ))
    &&& !v.has_out_param
    &&& v.out_type@ == ""@
    &&& v.return_jni_type@ == native_return(f.returns, m)
    &&& v.is_async == f.is_async
    &&& v.ffi_poll@ == ffi + "_poll"@
    &&& v.ffi_complete@ == ffi + "_complete"@
    &&& v.ffi_cancel@ == ffi + "_cancel"@
    &&& v.ffi_free@ == ffi + "_free"@
    &&& v.complete_return_jni_type@ == complete_return(f.returns, native_return(f.returns, m))
}

/// The first default constructor among `cs`.
pub open spec fn first_default(cs: Seq<Constructor>) -> Option<Constructor>
    decreases cs.len(),
{
    if cs.len() == 0 {
        None
    } else if cs[0].name@ == "new"@ {
        Some(cs[0])
    } else {
        first_default(cs.drop_first())
    }
}

/// The filter of primitive constructor parameters.
pub open spec fn primitive_param_filter() -> spec_fn(ConstructorParam) -> bool {
    |p: ConstructorParam| p.param_type is Primitive
}

/// The primitive parameters of the first default constructor.
pub open spec fn default_ctor_params(c: Class) -> Seq<ConstructorParam> {
    match first_default(c.constructors@) {
        Some(d) => d.inputs@.filter(primitive_param_filter()),
        None => Seq::empty(),
    }
}

/// The filter of named constructors whose parameters are all primitives.
pub open spec fn factory_filter() -> spec_fn(Constructor) -> bool {
    |c: Constructor|
        c.name@ != "new"@ && forall|i: int|
            0 <= i < c.inputs@.len() ==> (#[trigger] c.inputs@[i]).param_type is Primitive
}

/// Whether `v` declares named constructor `c` of class `class`.
pub open spec fn native_factory_of(v: NativeFactoryCtorView, c: Constructor, class: Seq<char>) -> bool {
    &&& v.ffi_name@ == spec_method_ffi_name(class, c.name@)
    &&& v.params@.len() == c.inputs@.len()
    &&& forall|i: int|
        0 <= i < v.params@.len() ==> native_param_of(
            #[trigger] v.params@[i],
            c.inputs@[i].name@,
            kotlin_jni_type(c.inputs@[i].param_type),
        )
}

/// Whether `v` holds the declarations of method `meth` of class `class`.
pub open spec fn native_method_of(v: NativeMethodView, meth: Method, class: Seq<char>, m: Module) -> bool {
    let ffi = spec_method_ffi_name(class, meth.name@);
    &&& v.ffi_name@ == ffi
    &&& v.params@.len() == meth.inputs@.len()
    &&& (forall|i: int|
        0 <= i < v.params@.len() ==> native_param_of(
            #[trigger] v.params@[i],
            meth.inputs@[i].name@,
            kotlin_jni_type(meth.inputs@[i].param_type),
        ))
    &&& !v.has_out_param
    &&& v.out_type@ == ""@
    &&& v.return_jni_type@ == native_return(meth.returns, m)
    &&& v.is_async == meth.is_async
    &&& v.ffi_poll@ == ffi + "_poll"@
    &&& v.ffi_complete@ == ffi + "_complete"@
    &&& v.ffi_cancel@ == ffi + "_cancel"@
    &&& v.ffi_free@ == ffi + "_free"@
}

/// Whether `v` holds the declarations of class `c`: its default
/// constructor's primitive parameters, its named constructors with
/// primitive parameters, and the methods the class template binds.
pub open spec fn native_class_of(v: NativeClassView, c: Class, m: Module) -> bool {
    let ctor_params = default_ctor_params(c);
    let factories = c.constructors@.filter(factory_filter());
    let methods = c.methods@.filter(method_filter(m));
    &&& v.ffi_new@ == spec_class_ffi_prefix(c.name@) + "_new"@
    &&& v.ffi_free@ == spec_class_ffi_prefix(c.name@) + "_free"@
    &&& v.ctor_params@.len() == ctor_params.len()
    &&& (forall|i: int|
        0 <= i < v.ctor_params@.len() ==> native_param_of(
            #[trigger] v.ctor_params@[i],
            ctor_params[i].name@,
            kotlin_jni_type(ctor_params[i].param_type),
        ))
    &&& v.factory_ctors@.len() == factories.len()
    &&& (forall|i: int|
        0 <= i < v.factory_ctors@.len() ==> native_factory_of(
            #[trigger] v.factory_ctors@[i],
            factories[i],
            c.name@,
        ))
    &&& v.methods@.len() == methods.len()
    &&& (forall|i: int|
        0 <= i < v.methods@.len() ==> native_method_of(
            #[trigger] v.methods@[i],
            methods[i],
            c.name@,
            m,
        ))
}

/// The invoker suffix of an async callback's result.
pub open spec fn invoker_suffix_of(r: ReturnType) -> Seq<char> {
    match spec_ok_type(r) {
        Some(t) => match t {
            Type::Void => "Void"@,
            Type::Primitive(p) => invoker_suffix(p),
            Type::String => "String"@,
            _ => "Object"@,
        },
        None => "Void"@,
    }
}

/// The async methods of a callback trait.
pub open spec fn async_filter() -> spec_fn(TraitMethod) -> bool {
    |t: TraitMethod| t.is_async
}

/// The invoker suffixes of one trait's async methods, in order.
pub open spec fn trait_suffixes(ms: Seq<TraitMethod>) -> Seq<Seq<char>> {
    ms.filter(async_filter()).map_values(|t: TraitMethod| invoker_suffix_of(t.returns))
}

/// The invoker suffixes of the async methods of the traits, trait by trait.
pub open spec fn async_suffixes(ts: Seq<CallbackTrait>) -> Seq<Seq<char>>
    decreases ts.len(),
{
    if ts.len() == 0 {
        Seq::empty()
    } else {
        async_suffixes(ts.drop_last()) + trait_suffixes(ts.last().methods@)
    }
}

/// The items of `s` without repeats, each where it first occurs.
pub open spec fn dedup(s: Seq<Seq<char>>) -> Seq<Seq<char>>
    decreases s.len(),
{
    if s.len() == 0 {
        s
    } else {
        let d = dedup(s.drop_last());
        if d.contains(s.last()) {
            d
        } else {
            d.push(s.last())
        }
    }
}

/// The invoker suffixes a module needs, without repeats.
pub open spec fn invoker_suffixes(m: Module) -> Seq<Seq<char>> {
    dedup(async_suffixes(m.callback_traits@))
}

/// The JNI type an invoker passes, and whether it passes a result.
pub open spec fn invoker_jni(suffix: Seq<char>) -> (Seq<char>, bool) {
    if suffix == "Void"@ {
        ("Unit"@, false)
    } else if suffix == "Bool"@ {
        ("Boolean"@, true)
    } else if suffix == "I8"@ {
        ("Byte"@, true)
    } else if suffix == "I16"@ {
        ("Short"@, true)
    } else if suffix == "I32"@ {
        ("Int"@, true)
    } else if suffix == "I64"@ {
        ("Long"@, true)
    } else if suffix == "F32"@ {
        ("Float"@, true)
    } else if suffix == "F64"@ {
        ("Double"@, true)
    } else {
        ("Any"@, true)
    }
}

/// Whether `v` is the invoker for `suffix`.
pub open spec fn invoker_of(v: AsyncCallbackInvokerView, suffix: Seq<char>) -> bool {
    &&& v.name@ == "invokeAsyncCallback"@ + suffix
    &&& v.jni_type@ == invoker_jni(suffix).0
    &&& v.has_result == invoker_jni(suffix).1
}

/// Whether `t` is the `Native` object of module `m`.
pub open spec fn native_of(t: NativeTemplate, m: Module) -> bool {
    &&& t.lib_name@ == m.name@ + "_jni"@
    &&& t.prefix@ == spec_ffi_prefix()
    &&& t.functions@.len() == m.functions@.len()
    &&& (forall|i: int|
        0 <= i < t.functions@.len() ==> native_function_of(
            #[trigger] t.functions@[i],
            m.functions@[i],
            m,
        ))
    &&& t.classes@.len() == m.classes@.len()
    &&& (forall|i: int|
        0 <= i < t.classes@.len() ==> native_class_of(#[trigger] t.classes@[i], m.classes@[i], m))
    &&& t.async_callback_invokers@.len() == invoker_suffixes(m).len()
    &&& forall|i: int|
        0 <= i < t.async_callback_invokers@.len() ==> invoker_of(
            #[trigger] t.async_callback_invokers@[i],
            invoker_suffixes(m)[i],
        )
}

// ---------------------------------------------------------------------------
// The text
// ---------------------------------------------------------------------------

/// A declared parameter.
pub open spec fn native_param_text(p: NativeParamView) -> Seq<char> {
    p.name@ + ": "@ + p.jni_type@
}

/// Declared parameters, separated by `, `.
pub open spec fn native_params(ps: Seq<NativeParamView>) -> Seq<char> {
    seq_join(ps.map_values(|p: NativeParamView| native_param_text(p)), ", "@)
}

/// The handle, then the declared parameters.
pub open spec fn native_handle_params(ps: Seq<NativeParamView>) -> Seq<char> {
    if ps.len() == 0 {
        "handle: Long"@
    } else {
        "handle: Long, "@ + native_params(ps)
    }
}

/// One `external fun` line.
pub open spec fn external(name: Seq<char>, params: Seq<char>, ret: Seq<char>) -> Seq<char> {
    "    @JvmStatic external fun "@ + name + "("@ + params + ")"@ + ret + "\n"@
}

/// The declarations of a free function.
pub open spec fn native_function_text(f: NativeFunctionView) -> Seq<char> {
    if f.is_async {
        external(f.ffi_name@, native_params(f.params@), ": Long"@) + external(
            f.ffi_poll@,
            "future: Long, contHandle: Long"@,
            ""@,
        ) + external(f.ffi_complete@, "future: Long"@, ": "@ + f.complete_return_jni_type@)
            + external(f.ffi_cancel@, "future: Long"@, ""@) + external(
            f.ffi_free@,
            "future: Long"@,
            ""@,
        )
    } else {
        external(f.ffi_name@, native_params(f.params@), ": "@ + f.return_jni_type@)
    }
}

/// The declarations of a method.
pub open spec fn native_method_text(v: NativeMethodView) -> Seq<char> {
    if v.is_async {
        external(v.ffi_name@, native_handle_params(v.params@), ": Long"@) + external(
            v.ffi_poll@,
            "handle: Long, future: Long, contHandle: Long"@,
            ""@,
        ) + external(v.ffi_complete@, "handle: Long, future: Long"@, ": "@ + v.return_jni_type@)
            + external(v.ffi_cancel@, "handle: Long, future: Long"@, ""@) + external(
            v.ffi_free@,
            "handle: Long, future: Long"@,
            ""@,
        )
    } else {
        external(v.ffi_name@, native_handle_params(v.params@), ": "@ + v.return_jni_type@)
    }
}

/// The declaration of a named constructor.
pub open spec fn native_factory_text(v: NativeFactoryCtorView) -> Seq<char> {
    external(v.ffi_name@, native_params(v.params@), ": Long"@)
}

/// The declarations of a class.
pub open spec fn native_class_text(c: NativeClassView) -> Seq<char> {
    external(c.ffi_new@, native_params(c.ctor_params@), ": Long"@) + external(
        c.ffi_free@,
        "handle: Long"@,
        ""@,
    ) + seq_concat(c.factory_ctors@.map_values(|f: NativeFactoryCtorView| native_factory_text(f)))
        + seq_concat(c.methods@.map_values(|v: NativeMethodView| native_method_text(v)))
}

/// The declaration of an invoker.
pub open spec fn invoker_text(v: AsyncCallbackInvokerView) -> Seq<char> {
    external(
        v.name@,
        if v.has_result {
            "callback: Long, data: Long, result: "@ + v.jni_type@
        } else {
            "callback: Long, data: Long"@
        },
        ""@,
    )
}

/// The `Native` object's text.
pub open spec fn native_text(t: NativeTemplate) -> Seq<char> {
    "private object Native {\n    init {\n        System.loadLibrary(\""@ + t.lib_name@
        + "\")\n    }\n\n"@ + seq_concat(
        t.functions@.map_values(|f: NativeFunctionView| native_function_text(f)),
    ) + seq_concat(t.classes@.map_values(|c: NativeClassView| native_class_text(c))) + seq_concat(
        t.async_callback_invokers@.map_values(|v: AsyncCallbackInvokerView| invoker_text(v)),
    ) + "}\n"@
}

/// The `Native` object text of `m`.
pub open spec fn native_source(m: Module) -> Seq<char> {
    native_text(choose|t: NativeTemplate| native_of(t, m))
}

// ---------------------------------------------------------------------------
// Building it
// ---------------------------------------------------------------------------

/// Declared parameters of a free function.
fn function_params(inputs: &Vec<Parameter>, module: &Module) -> (r: Vec<NativeParamView>)
    ensures
        r@.len() == inputs@.len(),
        forall|i: int|
            0 <= i < r@.len() ==> native_param_of(
                #[trigger] r@[i],
                inputs@[i].name@,
                native_fn_param_type(inputs@[i].param_type, *module),
            ),
{
    let mut r: Vec<NativeParamView> = Vec::new();
    let mut i: usize = 0;
    while i < inputs.len()
        invariant
            i <= inputs@.len(),
            r@.len() == i,
            forall|k: int|
                0 <= k < i ==> native_param_of(
                    #[trigger] r@[k],
                    inputs@[k].name@,
                    native_fn_param_type(inputs@[k].param_type, *module),
                ),
        decreases inputs@.len() - i,
    {
        let p = &inputs[i];
        let jni_type = match &p.param_type {
            Type::Vec(inner) | Type::Slice(inner) => if matches!(&**inner, Type::Record(_)) {
                string_of("ByteArray")
            } else {
                TypeMapper::jni_type(&p.param_type)
            },
            Type::Enum(n) => if module.enum_is_data(n) {
                string_of("ByteArray")
            } else {
                TypeMapper::jni_type(&p.param_type)
            },
            _ => TypeMapper::jni_type(&p.param_type),
        };
        r.push(NativeParamView { name: NamingConvention::param_name(p.name.as_str()), jni_type });
        i = i + 1;
    }
    r
}

/// Declared parameters of a method.
fn method_params(inputs: &Vec<Parameter>) -> (r: Vec<NativeParamView>)
    ensures
        r@.len() == inputs@.len(),
        forall|i: int|
            0 <= i < r@.len() ==> native_param_of(
                #[trigger] r@[i],
                inputs@[i].name@,
                kotlin_jni_type(inputs@[i].param_type),
            ),
{
    let mut r: Vec<NativeParamView> = Vec::new();
    let mut i: usize = 0;
    while i < inputs.len()
        invariant
            i <= inputs@.len(),
            r@.len() == i,
            forall|k: int|
                0 <= k < i ==> native_param_of(
                    #[trigger] r@[k],
                    inputs@[k].name@,
                    kotlin_jni_type(inputs@[k].param_type),
                ),
        decreases inputs@.len() - i,
    {
        let p = &inputs[i];
        r.push(
            NativeParamView {
                name: NamingConvention::param_name(p.name.as_str()),
                jni_type: TypeMapper::jni_type(&p.param_type),
            },
        );
        i = i + 1;
    }
    r
}

/// Declared parameters of a constructor.
fn ctor_params(inputs: &Vec<ConstructorParam>) -> (r: Vec<NativeParamView>)
    ensures
        r@.len() == inputs@.len(),
        forall|i: int|
            0 <= i < r@.len() ==> native_param_of(
                #[trigger] r@[i],
                inputs@[i].name@,
                kotlin_jni_type(inputs@[i].param_type),
            ),
{
    let mut r: Vec<NativeParamView> = Vec::new();
    let mut i: usize = 0;
    while i < inputs.len()
        invariant
            i <= inputs@.len(),
            r@.len() == i,
            forall|k: int|
                0 <= k < i ==> native_param_of(
                    #[trigger] r@[k],
                    inputs@[k].name@,
                    kotlin_jni_type(inputs@[k].param_type),
                ),
        decreases inputs@.len() - i,
    {
        let p = &inputs[i];
        r.push(
            NativeParamView {
                name: NamingConvention::param_name(p.name.as_str()),
                jni_type: TypeMapper::jni_type(&p.param_type),
            },
        );
        i = i + 1;
    }
    r
}

/// Declared primitive parameters of a constructor, in order.
fn primitive_ctor_params(inputs: &Vec<ConstructorParam>) -> (r: Vec<NativeParamView>)
    ensures
        r@.len() == inputs@.filter(primitive_param_filter()).len(),
        forall|i: int|
            0 <= i < r@.len() ==> native_param_of(
                #[trigger] r@[i],
                inputs@.filter(primitive_param_filter())[i].name@,
                kotlin_jni_type(inputs@.filter(primitive_param_filter())[i].param_type),
            ),
{
    let mut r: Vec<NativeParamView> = Vec::new();
    let mut i: usize = 0;
    while i < inputs.len()
        invariant
            i <= inputs@.len(),
            r@.len() == inputs@.take(i as int).filter(primitive_param_filter()).len(),
            forall|k: int|
                0 <= k < r@.len() ==> native_param_of(
                    #[trigger] r@[k],
                    inputs@.take(i as int).filter(primitive_param_filter())[k].name@,
                    kotlin_jni_type(
                        inputs@.take(i as int).filter(primitive_param_filter())[k].param_type,
                    ),
                ),
        decreases inputs@.len() - i,
    {
        proof {
            lemma_filter_step(inputs@, primitive_param_filter(), i as int);
        }
        let p = &inputs[i];
        if matches!(&p.param_type, Type::Primitive(_)) {
            let ghost before = r@;
            let v = NativeParamView {
                name: NamingConvention::param_name(p.name.as_str()),
                jni_type: TypeMapper::jni_type(&p.param_type),
            };
            let ghost gv = v;
            r.push(v);
            proof {
                assert forall|k: int| 0 <= k < r@.len() implies native_param_of(
                    #[trigger] r@[k],
                    inputs@.take(i + 1).filter(primitive_param_filter())[k].name@,
                    kotlin_jni_type(inputs@.take(i + 1).filter(primitive_param_filter())[k].param_type),
                ) by {
                    if k < before.len() {
                        assert(r@[k] == before[k]);
                    } else {
                        assert(r@[k] == gv);
                    }
                }
            }
        }
        i = i + 1;
    }
    assert(inputs@.take(i as int) =~= inputs@);
    r
}

/// Whether every parameter of a constructor is a primitive.
fn all_primitive(inputs: &Vec<ConstructorParam>) -> (r: bool)
    ensures
        r == forall|i: int| 0 <= i < inputs@.len() ==> (#[trigger] inputs@[i]).param_type is Primitive,
{
    let mut i: usize = 0;
    while i < inputs.len()
        invariant
            i <= inputs@.len(),
            forall|k: int| 0 <= k < i ==> (#[trigger] inputs@[k]).param_type is Primitive,
        decreases inputs@.len() - i,
    {
        if !matches!(&inputs[i].param_type, Type::Primitive(_)) {
            return false;
        }
        i = i + 1;
    }
    true
}

impl NativeTemplate {
    /// The `Native` object of a module.
    pub fn from_module(module: &Module) -> (r: Self)
        ensures
            native_of(r, *module),
    {
        let mut functions: Vec<NativeFunctionView> = Vec::new();
        let mut i: usize = 0;
        while i < module.functions.len()
            invariant
                i <= module.functions@.len(),
                functions@.len() == i,
                forall|k: int|
                    0 <= k < i ==> native_function_of(
                        #[trigger] functions@[k],
                        module.functions@[k],
                        *module,
                    ),
            decreases module.functions@.len() - i,
        {
            functions.push(Self::function_view(&module.functions[i], module));
            i = i + 1;
        }
        let mut classes: Vec<NativeClassView> = Vec::new();
        let mut j: usize = 0;
        while j < module.classes.len()
            invariant
                j <= module.classes@.len(),
                classes@.len() == j,
                forall|k: int|
                    0 <= k < j ==> native_class_of(#[trigger] classes@[k], module.classes@[k], *module),
            decreases module.classes@.len() - j,
        {
            classes.push(Self::class_view(&module.classes[j], module));
            j = j + 1;
        }
        NativeTemplate {
            lib_name: concat2(module.name.as_str(), "_jni"),
            prefix: string_of(ffi_prefix()),
            functions,
            classes,
            async_callback_invokers: Self::collect_async_callback_invokers(module),
        }
    }

    /// The declarations of a free function.
    fn function_view(func: &Function, module: &Module) -> (r: NativeFunctionView)
        ensures
            native_function_of(r, *func, *module),
    {
        let name = func.name.as_str();
        let (has_out_param, out_type, return_jni_type) = Self::analyze_return(&func.returns, module);
        let complete_return_jni_type = Self::async_complete_return_type(
            &func.returns,
            return_jni_type.as_str(),
        );
        NativeFunctionView {
            ffi_name: function_ffi_name(name),
            params: function_params(&func.inputs, module),
            has_out_param,
            out_type,
            return_jni_type,
            is_async: func.is_async,
            ffi_poll: function_ffi_poll(name),
            ffi_complete: function_ffi_complete(name),
            ffi_cancel: function_ffi_cancel(name),
            ffi_free: function_ffi_free(name),
            complete_return_jni_type,
        }
    }

    /// The first default constructor's primitive parameters.
    fn default_ctor_view(class: &Class) -> (r: Vec<NativeParamView>)
        ensures
            r@.len() == default_ctor_params(*class).len(),
            forall|i: int|
                0 <= i < r@.len() ==> native_param_of(
                    #[trigger] r@[i],
                    default_ctor_params(*class)[i].name@,
                    kotlin_jni_type(default_ctor_params(*class)[i].param_type),
                ),
    {
        let ghost cs = class.constructors@;
        assert(cs.subrange(0, cs.len() as int) =~= cs);
        let mut i: usize = 0;
        while i < class.constructors.len()
            invariant
                cs == class.constructors@,
                i <= cs.len(),
                first_default(cs) == first_default(cs.subrange(i as int, cs.len() as int)),
            decreases cs.len() - i,
        {
            let ghost rest = cs.subrange(i as int, cs.len() as int);
            assert(rest[0] == cs[i as int]);
            assert(rest.drop_first() =~= cs.subrange(i + 1, cs.len() as int));
            if class.constructors[i].is_default() {
                return primitive_ctor_params(&class.constructors[i].inputs);
            }
            i = i + 1;
        }
        assert(cs.subrange(i as int, cs.len() as int).len() == 0);
        Vec::new()
    }

    /// The declarations of a class.
    fn class_view(class: &Class, module: &Module) -> (r: NativeClassView)
        ensures
            native_class_of(r, *class, *module),
    {
        let name = class.name.as_str();
        let mut factory_ctors: Vec<NativeFactoryCtorView> = Vec::new();
        let mut i: usize = 0;
        while i < class.constructors.len()
            invariant
                i <= class.constructors@.len(),
                name@ == class.name@,
                factory_ctors@.len() == class.constructors@.take(i as int).filter(factory_filter()).len(),
                forall|k: int|
                    0 <= k < factory_ctors@.len() ==> native_factory_of(
                        #[trigger] factory_ctors@[k],
                        class.constructors@.take(i as int).filter(factory_filter())[k],
                        class.name@,
                    ),
            decreases class.constructors@.len() - i,
        {
            proof {
                lemma_filter_step(class.constructors@, factory_filter(), i as int);
            }
            let ctor = &class.constructors[i];
            if !ctor.is_default() && all_primitive(&ctor.inputs) {
                let ghost before = factory_ctors@;
                let v = NativeFactoryCtorView {
                    ffi_name: method_ffi_name(name, ctor.name.as_str()),
                    params: ctor_params(&ctor.inputs),
                };
                let ghost gv = v;
                factory_ctors.push(v);
                proof {
                    let next = class.constructors@.take(i + 1).filter(factory_filter());
                    assert forall|k: int| 0 <= k < factory_ctors@.len() implies native_factory_of(
                        #[trigger] factory_ctors@[k],
                        next[k],
                        class.name@,
                    ) by {
                        if k < before.len() {
                            assert(factory_ctors@[k] == before[k]);
                        } else {
                            assert(factory_ctors@[k] == gv);
                            assert(next[k] == class.constructors@[i as int]);
                        }
                    }
                }
            }
            i = i + 1;
        }
        assert(class.constructors@.take(i as int) =~= class.constructors@);
        let mut methods: Vec<NativeMethodView> = Vec::new();
        let mut j: usize = 0;
        while j < class.methods.len()
            invariant
                j <= class.methods@.len(),
                name@ == class.name@,
                methods@.len() == class.methods@.take(j as int).filter(method_filter(*module)).len(),
                forall|k: int|
                    0 <= k < methods@.len() ==> native_method_of(
                        #[trigger] methods@[k],
                        class.methods@.take(j as int).filter(method_filter(*module))[k],
                        class.name@,
                        *module,
                    ),
            decreases class.methods@.len() - j,
        {
            proof {
                lemma_filter_step(class.methods@, method_filter(*module), j as int);
            }
            let method = &class.methods[j];
            if ClassTemplate::is_supported_method(method, module) {
                let ghost before = methods@;
                let v = Self::method_view(method, name, module);
                let ghost gv = v;
                methods.push(v);
                proof {
                    let next = class.methods@.take(j + 1).filter(method_filter(*module));
                    assert forall|k: int| 0 <= k < methods@.len() implies native_method_of(
                        #[trigger] methods@[k],
                        next[k],
                        class.name@,
                        *module,
                    ) by {
                        if k < before.len() {
                            assert(methods@[k] == before[k]);
                        } else {
                            assert(methods@[k] == gv);
                            assert(next[k] == class.methods@[j as int]);
                        }
                    }
                }
            }
            j = j + 1;
        }
        assert(class.methods@.take(j as int) =~= class.methods@);
        let r = NativeClassView {
            ffi_new: class_ffi_new(name),
            ffi_free: class_ffi_free(name),
            ctor_params: Self::default_ctor_view(class),
            factory_ctors,
            methods,
        };
        assert(class.constructors@.take(i as int).filter(factory_filter())
            == class.constructors@.filter(factory_filter()));
        assert(class.methods@.take(j as int).filter(method_filter(*module))
            == class.methods@.filter(method_filter(*module)));
        r
    }

    /// The declarations of a method.
    fn method_view(method: &Method, class: &str, module: &Module) -> (r: NativeMethodView)
        ensures
            native_method_of(r, *method, class@, *module),
    {
        let m = method.name.as_str();
        let (has_out_param, out_type, return_jni_type) = Self::analyze_return(&method.returns, module);
        NativeMethodView {
            ffi_name: method_ffi_name(class, m),
            params: method_params(&method.inputs),
            has_out_param,
            out_type,
            return_jni_type,
            is_async: method.is_async,
            ffi_poll: method_ffi_poll(class, m),
            ffi_complete: method_ffi_complete(class, m),
            ffi_cancel: method_ffi_cancel(class, m),
            ffi_free: method_ffi_free(class, m),
        }
    }

    /// The invokers the module's async callbacks need, one per suffix, in
    /// the order the suffixes first occur.
    pub fn collect_async_callback_invokers(module: &Module) -> (r: Vec<AsyncCallbackInvokerView>)
        ensures
            r@.len() == invoker_suffixes(*module).len(),
            forall|i: int|
                0 <= i < r@.len() ==> invoker_of(#[trigger] r@[i], invoker_suffixes(*module)[i]),
    {
        let ghost ts = module.callback_traits@;
        let mut all: Vec<String> = Vec::new();
        let mut i: usize = 0;
        while i < module.callback_traits.len()
            invariant
                ts == module.callback_traits@,
                i <= ts.len(),
                views(all@) == async_suffixes(ts.take(i as int)),
            decreases ts.len() - i,
        {
            let t = &module.callback_traits[i];
            let ghost base = async_suffixes(ts.take(i as int));
            let mut j: usize = 0;
            while j < t.methods.len()
                invariant
                    ts == module.callback_traits@,
                    i < ts.len(),
                    *t == ts[i as int],
                    base == async_suffixes(ts.take(i as int)),
                    j <= t.methods@.len(),
                    views(all@) == base + trait_suffixes(t.methods@.take(j as int)),
                decreases t.methods@.len() - j,
            {
                proof {
                    lemma_filter_step(t.methods@, async_filter(), j as int);
                }
                let meth = &t.methods[j];
                if meth.is_async {
                    let ghost before = all@;
                    all.push(Self::async_invoker_suffix_for_type(&meth.returns));
                    proof {
                        assert(*meth == t.methods@[j as int]);
                        assert(t.methods@.take(j + 1).filter(async_filter()) == t.methods@.take(
                            j as int,
                        ).filter(async_filter()).push(*meth));
                        assert(trait_suffixes(t.methods@.take(j + 1)) =~= trait_suffixes(
                            t.methods@.take(j as int),
                        ).push(invoker_suffix_of(meth.returns)));
                        assert(views(all@) =~= views(before).push(invoker_suffix_of(meth.returns)));
                    }
                } else {
                    proof {
                        assert(t.methods@.take(j + 1).filter(async_filter())
                            == t.methods@.take(j as int).filter(async_filter()));
                    }
                }
                j = j + 1;
            }
            proof {
                assert(t.methods@.take(j as int) =~= t.methods@);
                let next = ts.take(i + 1);
                assert(next.drop_last() =~= ts.take(i as int));
                assert(next.last() == ts[i as int]);
            }
            i = i + 1;
        }
        assert(ts.take(i as int) =~= ts);
        let ghost sfx = async_suffixes(ts);
        let mut seen: Vec<String> = Vec::new();
        let mut r: Vec<AsyncCallbackInvokerView> = Vec::new();
        let mut k: usize = 0;
        while k < all.len()
            invariant
                views(all@) == sfx,
                k <= all@.len(),
                views(seen@) == dedup(sfx.take(k as int)),
                r@.len() == seen@.len(),
                forall|n: int|
                    0 <= n < r@.len() ==> invoker_of(#[trigger] r@[n], dedup(sfx.take(k as int))[n]),
            decreases all@.len() - k,
        {
            let ghost next = sfx.take(k + 1);
            proof {
                assert(next.drop_last() =~= sfx.take(k as int));
                assert(next.last() == all@[k as int]@);
            }
            if !contains_text(&seen, &all[k]) {
                let ghost before_r = r@;
                let ghost before_s = seen@;
                let v = Self::build_invoker_view(all[k].as_str());
                let ghost gv = v;
                r.push(v);
                seen.push(crate::text::copy_string(&all[k]));
                proof {
                    assert(views(seen@) =~= views(before_s).push(all@[k as int]@));
                    assert forall|n: int| 0 <= n < r@.len() implies invoker_of(
                        #[trigger] r@[n],
                        dedup(next)[n],
                    ) by {
                        if n < before_r.len() {
                            assert(r@[n] == before_r[n]);
                        } else {
                            assert(r@[n] == gv);
                        }
                    }
                }
            }
            k = k + 1;
        }
        assert(sfx.take(k as int) =~= sfx);
        r
    }

    /// The invoker suffix of an async callback's result.
    pub fn async_invoker_suffix_for_type(result: &ReturnType) -> (r: String)
        ensures
            r@ == invoker_suffix_of(*result),
    {
        match result.ok_type() {
            None => string_of("Void"),
            Some(Type::Void) => string_of("Void"),
            Some(Type::Primitive(p)) => string_of(info(*p).invoker_suffix),
            Some(Type::String) => string_of("String"),
            _ => string_of("Object"),
        }
    }

    /// The invoker for `suffix`.
    pub fn build_invoker_view(suffix: &str) -> (r: AsyncCallbackInvokerView)
        ensures
            invoker_of(r, suffix@),
    {
        let s = string_of(suffix);
        let (jni_type, has_result) = if text_is(&s, "Void") {
            ("Unit", false)
        } else if text_is(&s, "Bool") {
            ("Boolean", true)
        } else if text_is(&s, "I8") {
            ("Byte", true)
        } else if text_is(&s, "I16") {
            ("Short", true)
        } else if text_is(&s, "I32") {
            ("Int", true)
        } else if text_is(&s, "I64") {
            ("Long", true)
        } else if text_is(&s, "F32") {
            ("Float", true)
        } else if text_is(&s, "F64") {
            ("Double", true)
        } else {
            ("Any", true)
        };
        AsyncCallbackInvokerView {
            name: concat2("invokeAsyncCallback", suffix),
            jni_type: string_of(jni_type),
            has_result,
        }
    }

    /// Out-parameter flag, its type, and the JNI type a call returns.
    pub fn analyze_return(result: &ReturnType, module: &Module) -> (r: (bool, String, String))
        ensures
            !r.0,
            r.1@ == ""@,
            r.2@ == native_return(*result, *module),
    {
        match result {
            ReturnType::Void => (false, string_of(""), string_of("Unit")),
            ReturnType::Fallible { ok, .. } => Self::analyze_result_return(ok, module),
            ReturnType::Value(ty) => {
                let jni = match ty {
                    Type::Void => string_of("Unit"),
                    Type::String => string_of("String?"),
                    Type::Bytes => string_of("ByteArray?"),
                    Type::Vec(inner) => match &**inner {
                        Type::Primitive(_) => TypeMapper::jni_type(ty),
                        Type::Record(_) => string_of("ByteBuffer"),
                        _ => string_of("Long"),
                    },
                    Type::Record(_) => string_of("ByteBuffer?"),
                    Type::Enum(n) => if module.enum_is_data(n) {
                        string_of("ByteBuffer")
                    } else {
                        TypeMapper::jni_type(ty)
                    },
                    _ => TypeMapper::jni_type(ty),
                };
                (false, string_of(""), jni)
            },
        }
    }

    /// Out-parameter flag, its type, and the JNI type of a fallible call's
    /// success value.
    pub fn analyze_result_return(ok: &Type, module: &Module) -> (r: (bool, String, String))
        ensures
            !r.0,
            r.1@ == ""@,
            r.2@ == native_result_return(*ok, *module),
    {
        let jni = match ok {
            Type::Void => string_of("Unit"),
            Type::String => string_of("String?"),
            Type::Record(_) => string_of("ByteBuffer?"),
            Type::Enum(n) => if module.enum_is_data(n) {
                string_of("ByteBuffer?")
            } else {
                string_of("Int")
            },
            _ => TypeMapper::jni_type(ok),
        };
        (false, string_of(""), jni)
    }

    /// The JNI type an async completion returns.
    pub fn async_complete_return_type(result: &ReturnType, base_type: &str) -> (r: String)
        ensures
            r@ == complete_return(*result, base_type@),
    {
        match result.ok_type() {
            Some(Type::Vec(inner)) => match &**inner {
                Type::Primitive(_) => concat2(base_type, "?"),
                _ => string_of(base_type),
            },
            _ => string_of(base_type),
        }
    }
}

// ---------------------------------------------------------------------------
// Rendering
// ---------------------------------------------------------------------------

/// Two parameter lists with the same texts declare the same parameters.
proof fn lemma_native_params_same(a: Seq<NativeParamView>, b: Seq<NativeParamView>)
    requires
        a.len() == b.len(),
        forall|i: int|
            0 <= i < a.len() ==> (#[trigger] a[i]).name@ == b[i].name@ && a[i].jni_type@
                == b[i].jni_type@,
    ensures
        native_params(a) == native_params(b),
        native_handle_params(a) == native_handle_params(b),
{
    assert(a.map_values(|p: NativeParamView| native_param_text(p)) =~= b.map_values(
        |p: NativeParamView| native_param_text(p),
    ));
}

/// Every `Native` object of `m` renders to the same text.
pub proof fn lemma_native_text(t: NativeTemplate, m: Module)
    requires
        native_of(t, m),
    ensures
        native_text(t) == native_source(m),
{
    let u = choose|u: NativeTemplate| native_of(u, m);
    assert forall|i: int| 0 <= i < t.functions@.len() implies native_function_text(
        #[trigger] t.functions@[i],
    ) == native_function_text(u.functions@[i]) by {
        lemma_native_params_same(t.functions@[i].params@, u.functions@[i].params@);
    }
    assert forall|i: int| 0 <= i < t.classes@.len() implies native_class_text(
        #[trigger] t.classes@[i],
    ) == native_class_text(u.classes@[i]) by {
        let a = t.classes@[i];
        let b = u.classes@[i];
        lemma_native_params_same(a.ctor_params@, b.ctor_params@);
        assert forall|k: int| 0 <= k < a.factory_ctors@.len() implies native_factory_text(
            #[trigger] a.factory_ctors@[k],
        ) == native_factory_text(b.factory_ctors@[k]) by {
            lemma_native_params_same(a.factory_ctors@[k].params@, b.factory_ctors@[k].params@);
        }
        assert forall|k: int| 0 <= k < a.methods@.len() implies native_method_text(
            #[trigger] a.methods@[k],
        ) == native_method_text(b.methods@[k]) by {
            lemma_native_params_same(a.methods@[k].params@, b.methods@[k].params@);
        }
        assert(a.factory_ctors@.map_values(|f: NativeFactoryCtorView| native_factory_text(f))
            =~= b.factory_ctors@.map_values(|f: NativeFactoryCtorView| native_factory_text(f)));
        assert(a.methods@.map_values(|v: NativeMethodView| native_method_text(v))
            =~= b.methods@.map_values(|v: NativeMethodView| native_method_text(v)));
    }
    assert(t.functions@.map_values(|f: NativeFunctionView| native_function_text(f))
        =~= u.functions@.map_values(|f: NativeFunctionView| native_function_text(f)));
    assert(t.classes@.map_values(|c: NativeClassView| native_class_text(c)) =~= u.classes@.map_values(
        |c: NativeClassView| native_class_text(c),
    ));
    assert(t.async_callback_invokers@.map_values(|v: AsyncCallbackInvokerView| invoker_text(v))
        =~= u.async_callback_invokers@.map_values(|v: AsyncCallbackInvokerView| invoker_text(v)));
}

/// One `external fun` line.
fn external_line(name: &str, params: &str, ret: &str) -> (r: String)
    ensures
        r@ == external(name@, params@, ret@),
{
    let mut r = concat4("    @JvmStatic external fun ", name, "(", params);
    push_str(&mut r, ")");
    push_str(&mut r, ret);
    push_str(&mut r, "\n");
    r
}

impl NativeParamView {
    /// The declared parameter.
    pub fn render(&self) -> (r: String)
        ensures
            r@ == native_param_text(*self),
    {
        concat3(self.name.as_str(), ": ", self.jni_type.as_str())
    }
}

/// Declared parameters, separated by `, `.
fn render_native_params(ps: &Vec<NativeParamView>) -> (r: String)
    ensures
        r@ == native_params(ps@),
{
    let parts = render_all(ps, NativeParamView::render, Ghost(|p: NativeParamView| native_param_text(p)));
    join(&parts, ", ")
}

/// The handle, then the declared parameters.
fn render_native_handle_params(ps: &Vec<NativeParamView>) -> (r: String)
    ensures
        r@ == native_handle_params(ps@),
{
    if ps.len() == 0 {
        string_of("handle: Long")
    } else {
        let p = render_native_params(ps);
        concat2("handle: Long, ", p.as_str())
    }
}

impl NativeFunctionView {
    /// The declarations of the function.
    pub fn render(&self) -> (r: String)
        ensures
            r@ == native_function_text(*self),
    {
        let params = render_native_params(&self.params);
        if self.is_async {
            let mut r = external_line(self.ffi_name.as_str(), params.as_str(), ": Long");
            let a = external_line(self.ffi_poll.as_str(), "future: Long, contHandle: Long", "");
            push_str(&mut r, a.as_str());
            let ret = concat2(": ", self.complete_return_jni_type.as_str());
            let b = external_line(self.ffi_complete.as_str(), "future: Long", ret.as_str());
            push_str(&mut r, b.as_str());
            let c = external_line(self.ffi_cancel.as_str(), "future: Long", "");
            push_str(&mut r, c.as_str());
            let d = external_line(self.ffi_free.as_str(), "future: Long", "");
            push_str(&mut r, d.as_str());
            r
        } else {
            let ret = concat2(": ", self.return_jni_type.as_str());
            external_line(self.ffi_name.as_str(), params.as_str(), ret.as_str())
        }
    }
}

impl NativeMethodView {
    /// The declarations of the method.
    pub fn render(&self) -> (r: String)
        ensures
            r@ == native_method_text(*self),
    {
        let params = render_native_handle_params(&self.params);
        if self.is_async {
            let mut r = external_line(self.ffi_name.as_str(), params.as_str(), ": Long");
            let a = external_line(
                self.ffi_poll.as_str(),
                "handle: Long, future: Long, contHandle: Long",
                "",
            );
            push_str(&mut r, a.as_str());
            let ret = concat2(": ", self.return_jni_type.as_str());
            let b = external_line(self.ffi_complete.as_str(), "handle: Long, future: Long", ret.as_str());
            push_str(&mut r, b.as_str());
            let c = external_line(self.ffi_cancel.as_str(), "handle: Long, future: Long", "");
            push_str(&mut r, c.as_str());
            let d = external_line(self.ffi_free.as_str(), "handle: Long, future: Long", "");
            push_str(&mut r, d.as_str());
            r
        } else {
            let ret = concat2(": ", self.return_jni_type.as_str());
            external_line(self.ffi_name.as_str(), params.as_str(), ret.as_str())
        }
    }
}

impl NativeFactoryCtorView {
    /// The declaration of the named constructor.
    pub fn render(&self) -> (r: String)
        ensures
            r@ == native_factory_text(*self),
    {
        let params = render_native_params(&self.params);
        external_line(self.ffi_name.as_str(), params.as_str(), ": Long")
    }
}

impl NativeClassView {
    /// The declarations of the class.
    pub fn render(&self) -> (r: String)
        ensures
            r@ == native_class_text(*self),
    {
        let params = render_native_params(&self.ctor_params);
        let mut r = external_line(self.ffi_new.as_str(), params.as_str(), ": Long");
        let f = external_line(self.ffi_free.as_str(), "handle: Long", "");
        push_str(&mut r, f.as_str());
        let factories = render_all(
            &self.factory_ctors,
            NativeFactoryCtorView::render,
            Ghost(|v: NativeFactoryCtorView| native_factory_text(v)),
        );
        let factories = concat_all(&factories);
        push_str(&mut r, factories.as_str());
        let methods = render_all(
            &self.methods,
            NativeMethodView::render,
            Ghost(|v: NativeMethodView| native_method_text(v)),
        );
        let methods = concat_all(&methods);
        push_str(&mut r, methods.as_str());
        r
    }
}

impl AsyncCallbackInvokerView {
    /// The declaration of the invoker.
    pub fn render(&self) -> (r: String)
        ensures
            r@ == invoker_text(*self),
    {
        let params = if self.has_result {
            concat2("callback: Long, data: Long, result: ", self.jni_type.as_str())
        } else {
            string_of("callback: Long, data: Long")
        };
        external_line(self.name.as_str(), params.as_str(), "")
    }
}

impl NativeTemplate {
    /// The `Native` object's text.
    pub fn render(&self) -> (r: String)
        ensures
            r@ == native_text(*self),
    {
        let mut r = concat3(
            "private object Native {\n    init {\n        System.loadLibrary(\"",
            self.lib_name.as_str(),
            "\")\n    }\n\n",
        );
        let functions = render_all(
            &self.functions,
            NativeFunctionView::render,
            Ghost(|f: NativeFunctionView| native_function_text(f)),
        );
        let functions = concat_all(&functions);
        push_str(&mut r, functions.as_str());
        let classes = render_all(
            &self.classes,
            NativeClassView::render,
            Ghost(|c: NativeClassView| native_class_text(c)),
        );
        let classes = concat_all(&classes);
        push_str(&mut r, classes.as_str());
        let invokers = render_all(
            &self.async_callback_invokers,
            AsyncCallbackInvokerView::render,
            Ghost(|v: AsyncCallbackInvokerView| invoker_text(v)),
        );
        let invokers = concat_all(&invokers);
        push_str(&mut r, invokers.as_str());
        push_str(&mut r, "}\n");
        r
    }
}

/// One `external fun` line declares its name.
proof fn lemma_external_declares(name: Seq<char>, params: Seq<char>, ret: Seq<char>)
    ensures
        occurs_in(external(name, params, ret), "external fun "@ + name + "("@),
{
    reveal_strlit("    @JvmStatic external fun ");
    reveal_strlit("    @JvmStatic ");
    reveal_strlit("external fun ");
    assert("    @JvmStatic external fun "@ =~= "    @JvmStatic "@ + "external fun "@);
    assert(external(name, params, ret) =~= "    @JvmStatic "@ + ("external fun "@ + name + "("@) + (
    params + ")"@ + ret + "\n"@));
    lemma_occurs_middle("    @JvmStatic "@, "external fun "@ + name + "("@, params + ")"@ + ret + "\n"@);
}

/// A text occurs in any text that starts with it.
proof fn lemma_occurs_prefix(x: Seq<char>, rest: Seq<char>)
    ensures
        occurs_in(x + rest, x),
{
    lemma_occurs_middle(Seq::empty(), x, rest);
    assert(Seq::<char>::empty() + x + rest =~= x + rest);
}

/// The declarations of the functions and of the classes are parts of the
/// `Native` object's text.
proof fn lemma_native_parts(t: NativeTemplate)
    ensures
        occurs_in(native_text(t), seq_concat(t.functions@.map_values(|f: NativeFunctionView| native_function_text(f)))),
        occurs_in(native_text(t), seq_concat(t.classes@.map_values(|c: NativeClassView| native_class_text(c)))),
{
    let head = "private object Native {\n    init {\n        System.loadLibrary(\""@ + t.lib_name@
        + "\")\n    }\n\n"@;
    let fns = seq_concat(t.functions@.map_values(|f: NativeFunctionView| native_function_text(f)));
    let cls = seq_concat(t.classes@.map_values(|c: NativeClassView| native_class_text(c)));
    let invs = seq_concat(
        t.async_callback_invokers@.map_values(|v: AsyncCallbackInvokerView| invoker_text(v)),
    );
    assert(native_text(t) =~= head + fns + (cls + invs + "}\n"@));
    lemma_occurs_middle(head, fns, cls + invs + "}\n"@);
    assert(native_text(t) =~= (head + fns) + cls + (invs + "}\n"@));
    lemma_occurs_middle(head + fns, cls, invs + "}\n"@);
}

/// The first `external fun` of a function's declarations names its symbol.
proof fn lemma_function_declared(v: NativeFunctionView)
    ensures
        occurs_in(native_function_text(v), "external fun "@ + v.ffi_name@ + "("@),
{
    let ret = if v.is_async {
        ": Long"@
    } else {
        ": "@ + v.return_jni_type@
    };
    let first = external(v.ffi_name@, native_params(v.params@), ret);
    let ft = native_function_text(v);
    lemma_external_declares(v.ffi_name@, native_params(v.params@), ret);
    if v.is_async {
        lemma_occurs_prefix(first, ft.subrange(first.len() as int, ft.len() as int));
        assert(first + ft.subrange(first.len() as int, ft.len() as int) =~= ft);
        lemma_occurs_trans("external fun "@ + v.ffi_name@ + "("@, first, ft);
    }
}

/// The first `external fun` of a method's declarations names its symbol.
proof fn lemma_method_declared(v: NativeMethodView)
    ensures
        occurs_in(native_method_text(v), "external fun "@ + v.ffi_name@ + "("@),
{
    let ret = if v.is_async {
        ": Long"@
    } else {
        ": "@ + v.return_jni_type@
    };
    let first = external(v.ffi_name@, native_handle_params(v.params@), ret);
    let mt = native_method_text(v);
    lemma_external_declares(v.ffi_name@, native_handle_params(v.params@), ret);
    if v.is_async {
        lemma_occurs_prefix(first, mt.subrange(first.len() as int, mt.len() as int));
        assert(first + mt.subrange(first.len() as int, mt.len() as int) =~= mt);
        lemma_occurs_trans("external fun "@ + v.ffi_name@ + "("@, first, mt);
    }
}

/// A class's declarations name its constructor, destructor and methods.
proof fn lemma_class_declared(c: NativeClassView)
    ensures
        occurs_in(native_class_text(c), "external fun "@ + c.ffi_new@ + "("@),
        occurs_in(native_class_text(c), "external fun "@ + c.ffi_free@ + "("@),
        forall|j: int|
            0 <= j < c.methods@.len() ==> occurs_in(
                native_class_text(c),
                "external fun "@ + (#[trigger] c.methods@[j]).ffi_name@ + "("@,
            ),
{
    let ct = native_class_text(c);
    let new_line = external(c.ffi_new@, native_params(c.ctor_params@), ": Long"@);
    let free_line = external(c.ffi_free@, "handle: Long"@, ""@);
    let factories = seq_concat(c.factory_ctors@.map_values(|f: NativeFactoryCtorView| native_factory_text(f)));
    let ms = seq_concat(c.methods@.map_values(|v: NativeMethodView| native_method_text(v)));
    assert(ct =~= new_line + free_line + (factories + ms));
    lemma_external_declares(c.ffi_new@, native_params(c.ctor_params@), ": Long"@);
    lemma_external_declares(c.ffi_free@, "handle: Long"@, ""@);
    lemma_occurs_prefix(new_line, free_line + (factories + ms));
    assert(new_line + (free_line + (factories + ms)) =~= ct);
    lemma_occurs_trans("external fun "@ + c.ffi_new@ + "("@, new_line, ct);
    lemma_occurs_middle(new_line, free_line, factories + ms);
    lemma_occurs_trans("external fun "@ + c.ffi_free@ + "("@, free_line, ct);
    assert(ct =~= (new_line + free_line + factories) + ms + Seq::<char>::empty());
    lemma_occurs_middle(new_line + free_line + factories, ms, Seq::empty());
    assert forall|j: int| 0 <= j < c.methods@.len() implies occurs_in(
        ct,
        "external fun "@ + (#[trigger] c.methods@[j]).ffi_name@ + "("@,
    ) by {
        let v = c.methods@[j];
        lemma_method_declared(v);
        assert(c.methods@.map_values(|v: NativeMethodView| native_method_text(v))[j] == native_method_text(v));
        lemma_concat_part_occurs(c.methods@.map_values(|v: NativeMethodView| native_method_text(v)), j);
        lemma_occurs_trans("external fun "@ + v.ffi_name@ + "("@, native_method_text(v), ms);
        lemma_occurs_trans("external fun "@ + v.ffi_name@ + "("@, ms, ct);
    }
}

/// The `Native` object declares, as an `external fun`, the symbol of every
/// function of the module, the constructor and destructor of every class,
/// and every method that the class template binds: the symbols that the
/// Kotlin wrappers call.
pub proof fn lemma_native_declares(t: NativeTemplate, m: Module)
    requires
        native_of(t, m),
    ensures
        forall|i: int|
            0 <= i < m.functions@.len() ==> occurs_in(
                native_source(m),
                "external fun "@ + spec_function_ffi_name((#[trigger] m.functions@[i]).name@) + "("@,
            ),
        forall|i: int|
            0 <= i < m.classes@.len() ==> occurs_in(
                native_source(m),
                "external fun "@ + (spec_class_ffi_prefix((#[trigger] m.classes@[i]).name@) + "_new"@)
                    + "("@,
            ) && occurs_in(
                native_source(m),
                "external fun "@ + (spec_class_ffi_prefix(m.classes@[i].name@) + "_free"@) + "("@,
            ),
        forall|i: int, j: int|
            0 <= i < m.classes@.len() && 0 <= j < m.classes@[i].methods@.filter(method_filter(m)).len()
                ==> occurs_in(
                native_source(m),
                "external fun "@ + spec_method_ffi_name(
                    m.classes@[i].name@,
                    (#[trigger] m.classes@[i].methods@.filter(method_filter(m))[j]).name@,
                ) + "("@,
            ),
{
    lemma_native_text(t, m);
    lemma_native_parts(t);
    let text = native_text(t);
    let fns = seq_concat(t.functions@.map_values(|f: NativeFunctionView| native_function_text(f)));
    let cls = seq_concat(t.classes@.map_values(|c: NativeClassView| native_class_text(c)));
    assert forall|i: int| 0 <= i < m.functions@.len() implies occurs_in(
        text,
        "external fun "@ + spec_function_ffi_name((#[trigger] m.functions@[i]).name@) + "("@,
    ) by {
        let v = t.functions@[i];
        assert(native_function_of(v, m.functions@[i], m));
        lemma_function_declared(v);
        assert(t.functions@.map_values(|f: NativeFunctionView| native_function_text(f))[i] == native_function_text(v));
        lemma_concat_part_occurs(t.functions@.map_values(|f: NativeFunctionView| native_function_text(f)), i);
        lemma_occurs_trans("external fun "@ + v.ffi_name@ + "("@, native_function_text(v), fns);
        lemma_occurs_trans("external fun "@ + v.ffi_name@ + "("@, fns, text);
    }
    assert forall|i: int| 0 <= i < m.classes@.len() implies occurs_in(
        text,
        "external fun "@ + (spec_class_ffi_prefix((#[trigger] m.classes@[i]).name@) + "_new"@) + "("@,
    ) && occurs_in(
        text,
        "external fun "@ + (spec_class_ffi_prefix(m.classes@[i].name@) + "_free"@) + "("@,
    ) by {
        let c = t.classes@[i];
        assert(native_class_of(c, m.classes@[i], m));
        lemma_class_declared(c);
        assert(t.classes@.map_values(|c: NativeClassView| native_class_text(c))[i] == native_class_text(c));
        lemma_concat_part_occurs(t.classes@.map_values(|c: NativeClassView| native_class_text(c)), i);
        lemma_occurs_trans(native_class_text(c), cls, text);
        lemma_occurs_trans("external fun "@ + c.ffi_new@ + "("@, native_class_text(c), text);
        lemma_occurs_trans("external fun "@ + c.ffi_free@ + "("@, native_class_text(c), text);
    }
    assert forall|i: int, j: int|
        0 <= i < m.classes@.len() && 0 <= j < m.classes@[i].methods@.filter(method_filter(m)).len()
            implies occurs_in(
        text,
        "external fun "@ + spec_method_ffi_name(
            m.classes@[i].name@,
            (#[trigger] m.classes@[i].methods@.filter(method_filter(m))[j]).name@,
        ) + "("@,
    ) by {
        let c = t.classes@[i];
        assert(native_class_of(c, m.classes@[i], m));
        assert(native_method_of(c.methods@[j], m.classes@[i].methods@.filter(method_filter(m))[j], m.classes@[i].name@, m));
        lemma_class_declared(c);
        assert(occurs_in(native_class_text(c), "external fun "@ + c.methods@[j].ffi_name@ + "("@));
        assert(t.classes@.map_values(|c: NativeClassView| native_class_text(c))[i] == native_class_text(c));
        lemma_concat_part_occurs(t.classes@.map_values(|c: NativeClassView| native_class_text(c)), i);
        lemma_occurs_trans(native_class_text(c), cls, text);
        lemma_occurs_trans("external fun "@ + c.methods@[j].ffi_name@ + "("@, native_class_text(c), text);
    }
}

/// The symbol that the Kotlin wrapper of each synchronous function calls is
/// the one that the `Native` object declares.
pub proof fn lemma_wrapper_symbol_declared(tn: NativeTemplate, tf: FunctionTemplate, m: Module, i: int)
    requires
        native_of(tn, m),
        0 <= i < m.functions@.len(),
        function_of(tf, m.functions@[i], m),
    ensures
        occurs_in(
            function_source(m.functions@[i], m),
            "Native."@ + spec_function_ffi_name(m.functions@[i].name@) + "("@,
        ),
        occurs_in(
            native_source(m),
            "external fun "@ + spec_function_ffi_name(m.functions@[i].name@) + "("@,
        ),
{
    lemma_function_calls_native(tf, m.functions@[i], m);
    lemma_native_declares(tn, m);
    assert(occurs_in(
        native_source(m),
        "external fun "@ + spec_function_ffi_name(m.functions@[i].name@) + "("@,
    ));
}

} // verus!
