//! Kotlin implementations of Rust callback traits: the interface, the map of
//! live implementations, and the static entry points Rust calls through JNI.

use vstd::prelude::*;
use crate::case::{snake_case, upper_camel_case};
use crate::model::{spec_ok_type, CallbackTrait, Module, ReturnType, TraitMethod, TraitMethodParam, Type};
use crate::naming::{
    callback_create_fn, callback_register_fn, callback_vtable_name, spec_ffi_prefix, to_snake,
};
use crate::text::{
    concat2, concat3, concat4, concat_all, join, lemma_filter_step, push_str, render_all,
    render_all_ctx, seq_concat, seq_join, string_of, views,
};
use super::classes::doc_text;
use super::functions::opt_text;
use super::names::{kotlin_member, NamingConvention};
use super::native::{invoker_suffix_of, NativeTemplate};
use super::primitives::{callback_default, info, to_signed, to_unsigned};
use super::types::{kotlin_jni_type, kotlin_type, TypeMapper};

verus! {

/// The Kotlin side of a callback trait.
pub struct CallbackTraitTemplate {
    pub doc: Option<String>,
    pub interface_name: String,
    pub wrapper_class: String,
    pub handle_map_name: String,
    pub callbacks_object: String,
    pub bridge_name: String,
    pub vtable_type: String,
    pub register_fn: String,
    pub create_fn: String,
    pub sync_methods: Vec<SyncMethodView>,
    pub async_methods: Vec<AsyncMethodView>,
    pub has_async: bool,
}

/// How a callback's result crosses JNI.
pub struct CallbackReturnInfo {
    pub kotlin_type: String,
    pub jni_type: String,
    pub default_value: String,
    pub to_jni: String,
}

/// A synchronous callback method.
pub struct SyncMethodView {
    pub name: String,
    pub ffi_name: String,
    pub params: Vec<TraitParamView>,
    pub return_info: Option<CallbackReturnInfo>,
}

/// An async callback method, completed through an invoker.
pub struct AsyncMethodView {
    pub name: String,
    pub ffi_name: String,
    pub params: Vec<TraitParamView>,
    pub return_info: Option<CallbackReturnInfo>,
    pub invoker_name: String,
}

/// A parameter of a callback method.
pub struct TraitParamView {
    pub name: String,
    pub ffi_name: String,
    pub kotlin_type: String,
    pub jni_type: String,
    pub conversion: String,
}

// ---------------------------------------------------------------------------
// What each part holds
// ---------------------------------------------------------------------------

/// Whether a callback method can be bound: a primitive (or no) result, and
/// only primitive parameters.
pub open spec fn callback_supported(m: TraitMethod) -> bool {
    &&& match spec_ok_type(m.returns) {
        Some(t) => t is Void || t is Primitive,
        None => true,
    }
    &&& forall|i: int| 0 <= i < m.inputs@.len() ==> (#[trigger] m.inputs@[i]).param_type is Primitive
}

/// The bound synchronous methods.
pub open spec fn sync_filter() -> spec_fn(TraitMethod) -> bool {
    |m: TraitMethod| !m.is_async && callback_supported(m)
}

/// The bound async methods.
pub open spec fn async_method_filter() -> spec_fn(TraitMethod) -> bool {
    |m: TraitMethod| m.is_async && callback_supported(m)
}

/// The value a callback answers when its implementation is gone.
pub open spec fn default_value_of(t: Type) -> Seq<char> {
    match t {
        Type::Primitive(p) => callback_default(p),
        Type::String => "\"\""@,
        Type::Void => "Unit"@,
        _ => "throw IllegalStateException(\"Handle not found\")"@,
    }
}

/// The conversion of a Kotlin result to its JNI value (empty when none).
pub open spec fn jni_return_conversion_of(t: Type) -> Seq<char> {
    match t {
        Type::Primitive(p) => match to_signed(p) {
            Some(c) => c,
            None => ""@,
        },
        _ => ""@,
    }
}

/// The Kotlin value of a JNI argument `name`.
pub open spec fn jni_param_conversion_of(name: Seq<char>, t: Type) -> Seq<char> {
    match t {
        Type::Primitive(p) => match to_unsigned(p) {
            Some(c) => name + "."@ + c,
            None => name,
        },
        _ => name,
    }
}

/// Whether `i` describes how a result of type `t` crosses JNI.
pub open spec fn return_info_of(i: CallbackReturnInfo, t: Type) -> bool {
    &&& i.kotlin_type@ == kotlin_type(t)
    &&& i.jni_type@ == kotlin_jni_type(t)
    &&& i.default_value@ == default_value_of(t)
    &&& i.to_jni@ == jni_return_conversion_of(t)
}

/// Whether `o` is the return information of a callback with result `r`:
/// none when nothing (or unit) comes back.
pub open spec fn opt_return_info_of(o: Option<CallbackReturnInfo>, r: ReturnType) -> bool {
    match spec_ok_type(r) {
        Some(t) => if t is Void {
            o is None
        } else {
            o matches Some(i) && return_info_of(i, t)
        },
        None => o is None,
    }
}

/// Whether `v` is the view of callback parameter `p`.
pub open spec fn trait_param_of(v: TraitParamView, p: TraitMethodParam) -> bool {
    &&& v.name@ == kotlin_member(p.name@)
    &&& v.ffi_name@ == p.name@
    &&& v.kotlin_type@ == kotlin_type(p.param_type)
    &&& v.jni_type@ == kotlin_jni_type(p.param_type)
    &&& v.conversion@ == jni_param_conversion_of(kotlin_member(p.name@), p.param_type)
}

/// Whether `ps` are the views of the parameters `qs`.
pub open spec fn trait_params_of(ps: Seq<TraitParamView>, qs: Seq<TraitMethodParam>) -> bool {
    &&& ps.len() == qs.len()
    &&& forall|i: int| 0 <= i < ps.len() ==> trait_param_of(#[trigger] ps[i], qs[i])
}

/// Whether `v` is the view of synchronous callback method `m`.
pub open spec fn sync_method_of(v: SyncMethodView, m: TraitMethod) -> bool {
    &&& v.name@ == kotlin_member(m.name@)
    &&& v.ffi_name@ == snake_case(m.name@)
    &&& trait_params_of(v.params@, m.inputs@)
    &&& opt_return_info_of(v.return_info, m.returns)
}

/// Whether `v` is the view of async callback method `m`.
pub open spec fn async_method_of(v: AsyncMethodView, m: TraitMethod) -> bool {
    &&& v.name@ == kotlin_member(m.name@)
    &&& v.ffi_name@ == snake_case(m.name@)
    &&& trait_params_of(v.params@, m.inputs@)
    &&& opt_return_info_of(v.return_info, m.returns)
    &&& v.invoker_name@ == "invokeAsyncCallback"@ + invoker_suffix_of(m.returns)
}

/// Whether `t` is the template of callback trait `c`.
pub open spec fn callback_trait_of(t: CallbackTraitTemplate, c: CallbackTrait) -> bool {
    let i = upper_camel_case(c.name@);
    let syncs = c.methods@.filter(sync_filter());
    let asyncs = c.methods@.filter(async_method_filter());
    &&& opt_text(t.doc) == opt_text(c.doc)
    &&& t.interface_name@ == i
    &&& t.wrapper_class@ == i + "Wrapper"@
    &&& t.handle_map_name@ == i + "HandleMap"@
    &&& t.callbacks_object@ == i + "Callbacks"@
    &&& t.bridge_name@ == i + "Bridge"@
    &&& t.vtable_type@ == i + "VTable"@
    &&& t.register_fn@ == spec_ffi_prefix() + "_register_"@ + snake_case(c.name@) + "_vtable"@
    &&& t.create_fn@ == spec_ffi_prefix() + "_create_"@ + snake_case(c.name@) + "_handle"@
    &&& t.sync_methods@.len() == syncs.len()
    &&& (forall|k: int|
        0 <= k < t.sync_methods@.len() ==> sync_method_of(#[trigger] t.sync_methods@[k], syncs[k]))
    &&& t.async_methods@.len() == asyncs.len()
    &&& (forall|k: int|
        0 <= k < t.async_methods@.len() ==> async_method_of(
            #[trigger] t.async_methods@[k],
            asyncs[k],
        ))
    &&& t.has_async == (asyncs.len() > 0)
}

// ---------------------------------------------------------------------------
// The text
// ---------------------------------------------------------------------------

/// A parameter as the interface declares it.
pub open spec fn trait_param_decl(p: TraitParamView) -> Seq<char> {
    p.name@ + ": "@ + p.kotlin_type@
}

/// A parameter as the JNI entry point receives it.
pub open spec fn trait_param_jni(p: TraitParamView) -> Seq<char> {
    p.name@ + ": "@ + p.jni_type@
}

/// An argument passed to the implementation.
pub open spec fn trait_param_arg(p: TraitParamView) -> Seq<char> {
    p.conversion@
}

/// The declared parameters of an interface method.
pub open spec fn trait_decls(ps: Seq<TraitParamView>) -> Seq<char> {
    seq_join(ps.map_values(|p: TraitParamView| trait_param_decl(p)), ", "@)
}

/// The handle, then the JNI parameters.
pub open spec fn trait_jni_params(ps: Seq<TraitParamView>) -> Seq<char> {
    if ps.len() == 0 {
        "handle: Long"@
    } else {
        "handle: Long, "@ + seq_join(ps.map_values(|p: TraitParamView| trait_param_jni(p)), ", "@)
    }
}

/// The arguments passed to the implementation.
pub open spec fn trait_args(ps: Seq<TraitParamView>) -> Seq<char> {
    seq_join(ps.map_values(|p: TraitParamView| trait_param_arg(p)), ", "@)
}

/// `: T` for a result of Kotlin type `T`, nothing otherwise.
pub open spec fn kotlin_ret(o: Option<CallbackReturnInfo>) -> Seq<char> {
    match o {
        Some(i) => ": "@ + i.kotlin_type@,
        None => ""@,
    }
}

/// An interface method.
pub open spec fn sync_decl_text(v: SyncMethodView) -> Seq<char> {
    "    fun "@ + v.name@ + "("@ + trait_decls(v.params@) + ")"@ + kotlin_ret(v.return_info) + "\n"@
}

/// A suspending interface method.
pub open spec fn async_decl_text(v: AsyncMethodView) -> Seq<char> {
    "    suspend fun "@ + v.name@ + "("@ + trait_decls(v.params@) + ")"@ + kotlin_ret(v.return_info)
        + "\n"@
}

/// The JNI entry point of a synchronous method, looking up the
/// implementation in the handle map `map`.
pub open spec fn sync_bridge_text(v: SyncMethodView, map: Seq<char>) -> Seq<char> {
    let call = "impl."@ + v.name@ + "("@ + trait_args(v.params@) + ")"@;
    "\n    @JvmStatic\n    fun "@ + v.ffi_name@ + "("@ + trait_jni_params(v.params@) + ")"@ + (match v.return_info {
        Some(i) => ": "@ + i.jni_type@,
        None => ""@,
    }) + " {\n        val impl = "@ + map + ".get(handle) ?: return"@ + (match v.return_info {
        Some(i) => " "@ + i.default_value@,
        None => ""@,
    }) + "\n        "@ + (match v.return_info {
        Some(i) => "return "@ + call + (if i.to_jni@.len() == 0 {
            ""@
        } else {
            "."@ + i.to_jni@
        }),
        None => call,
    }) + "\n    }\n"@
}

/// The JNI entry point of an async method: it launches the implementation
/// and completes the Rust future through the invoker.
pub open spec fn async_bridge_text(v: AsyncMethodView, map: Seq<char>) -> Seq<char> {
    let call = "impl."@ + v.name@ + "("@ + trait_args(v.params@) + ")"@;
    "\n    @JvmStatic\n    fun "@ + v.ffi_name@ + "("@ + trait_jni_params(v.params@)
        + ", callback: Long, data: Long) {\n        val impl = "@ + map
        + ".get(handle) ?: return\n        callbackScope.launch {\n            "@ + (match v.return_info {
        Some(i) => "val result = "@ + call + "\n            Native."@ + v.invoker_name@
            + "(callback, data, result"@ + (if i.to_jni@.len() == 0 {
            ""@
        } else {
            "."@ + i.to_jni@
        }) + ")"@,
        None => call + "\n            Native."@ + v.invoker_name@ + "(callback, data)"@,
    }) + "\n        }\n    }\n"@
}

/// The map of live implementations.
pub open spec fn handle_map_text(t: CallbackTraitTemplate) -> Seq<char> {
    "internal object "@ + t.handle_map_name@
        + " {\n    private val handles = java.util.concurrent.ConcurrentHashMap<Long, "@
        + t.interface_name@
        + ">()\n    private val next = java.util.concurrent.atomic.AtomicLong(1)\n\n    fun insert(impl: "@
        + t.interface_name@
        + "): Long {\n        val handle = next.getAndIncrement()\n        handles[handle] = impl\n        return handle\n    }\n\n    fun get(handle: Long): "@
        + t.interface_name@
        + "? = handles[handle]\n\n    fun remove(handle: Long) {\n        handles.remove(handle)\n    }\n}\n"@
}

/// The callback trait's text.
pub open spec fn callback_trait_text(t: CallbackTraitTemplate) -> Seq<char> {
    doc_text(t.doc) + "interface "@ + t.interface_name@ + " {\n"@ + seq_concat(
        t.sync_methods@.map_values(|v: SyncMethodView| sync_decl_text(v)),
    ) + seq_concat(t.async_methods@.map_values(|v: AsyncMethodView| async_decl_text(v))) + "}\n\n"@
        + handle_map_text(t) + "\ninternal object "@ + t.callbacks_object@ + " {\n"@ + (if t.has_async {
        "    private val callbackScope = kotlinx.coroutines.CoroutineScope(kotlinx.coroutines.Dispatchers.Default)\n"@
    } else {
        ""@
    }) + seq_concat(
        t.sync_methods@.map_values(|v: SyncMethodView| sync_bridge_text(v, t.handle_map_name@)),
    ) + seq_concat(
        t.async_methods@.map_values(|v: AsyncMethodView| async_bridge_text(v, t.handle_map_name@)),
    ) + "\n    @JvmStatic\n    fun free(handle: Long) {\n        "@ + t.handle_map_name@
        + ".remove(handle)\n    }\n}\n"@
}

/// The text of callback trait `c`.
pub open spec fn callback_trait_source(c: CallbackTrait) -> Seq<char> {
    callback_trait_text(choose|t: CallbackTraitTemplate| callback_trait_of(t, c))
}

/// Two views of the same parameters give the same texts.
proof fn lemma_trait_params_same(a: Seq<TraitParamView>, b: Seq<TraitParamView>, qs: Seq<TraitMethodParam>)
    requires
        trait_params_of(a, qs),
        trait_params_of(b, qs),
    ensures
        trait_decls(a) == trait_decls(b),
        trait_jni_params(a) == trait_jni_params(b),
        trait_args(a) == trait_args(b),
{
    assert(a.map_values(|p: TraitParamView| trait_param_decl(p)) =~= b.map_values(
        |p: TraitParamView| trait_param_decl(p),
    ));
    assert(a.map_values(|p: TraitParamView| trait_param_jni(p)) =~= b.map_values(
        |p: TraitParamView| trait_param_jni(p),
    ));
    assert(a.map_values(|p: TraitParamView| trait_param_arg(p)) =~= b.map_values(
        |p: TraitParamView| trait_param_arg(p),
    ));
}

/// Every template of callback trait `c` renders to the same text.
pub proof fn lemma_callback_trait_text(t: CallbackTraitTemplate, c: CallbackTrait)
    requires
        callback_trait_of(t, c),
    ensures
        callback_trait_text(t) == callback_trait_source(c),
{
    let u = choose|u: CallbackTraitTemplate| callback_trait_of(u, c);
    let syncs = c.methods@.filter(sync_filter());
    let asyncs = c.methods@.filter(async_method_filter());
    assert forall|k: int| 0 <= k < t.sync_methods@.len() implies {
        &&& sync_decl_text(#[trigger] t.sync_methods@[k]) == sync_decl_text(u.sync_methods@[k])
        &&& sync_bridge_text(t.sync_methods@[k], t.handle_map_name@) == sync_bridge_text(
            u.sync_methods@[k],
            u.handle_map_name@,
        )
    } by {
        lemma_trait_params_same(t.sync_methods@[k].params@, u.sync_methods@[k].params@, syncs[k].inputs@);
    }
    assert forall|k: int| 0 <= k < t.async_methods@.len() implies {
        &&& async_decl_text(#[trigger] t.async_methods@[k]) == async_decl_text(u.async_methods@[k])
        &&& async_bridge_text(t.async_methods@[k], t.handle_map_name@) == async_bridge_text(
            u.async_methods@[k],
            u.handle_map_name@,
        )
    } by {
        lemma_trait_params_same(
            t.async_methods@[k].params@,
            u.async_methods@[k].params@,
            asyncs[k].inputs@,
        );
    }
    assert(t.sync_methods@.map_values(|v: SyncMethodView| sync_decl_text(v))
        =~= u.sync_methods@.map_values(|v: SyncMethodView| sync_decl_text(v)));
    assert(t.async_methods@.map_values(|v: AsyncMethodView| async_decl_text(v))
        =~= u.async_methods@.map_values(|v: AsyncMethodView| async_decl_text(v)));
    assert(t.sync_methods@.map_values(|v: SyncMethodView| sync_bridge_text(v, t.handle_map_name@))
        =~= u.sync_methods@.map_values(|v: SyncMethodView| sync_bridge_text(v, u.handle_map_name@)));
    assert(t.async_methods@.map_values(|v: AsyncMethodView| async_bridge_text(v, t.handle_map_name@))
        =~= u.async_methods@.map_values(
        |v: AsyncMethodView| async_bridge_text(v, u.handle_map_name@),
    ));
}

// ---------------------------------------------------------------------------
// Building it
// ---------------------------------------------------------------------------

impl CallbackTraitTemplate {
    /// The Kotlin side of a callback trait: the synchronous and the async
    /// methods that can be bound, in order.
    pub fn from_trait(callback_trait: &CallbackTrait, _module: &Module) -> (r: Self)
        ensures
            callback_trait_of(r, *callback_trait),
    {
        let trait_name = callback_trait.name.as_str();
        let interface_name = NamingConvention::class_name(trait_name);
        let ms = &callback_trait.methods;
        let mut sync_methods: Vec<SyncMethodView> = Vec::new();
        let mut async_methods: Vec<AsyncMethodView> = Vec::new();
        let mut i: usize = 0;
        while i < ms.len()
            invariant
                i <= ms@.len(),
                sync_methods@.len() == ms@.take(i as int).filter(sync_filter()).len(),
                forall|k: int|
                    0 <= k < sync_methods@.len() ==> sync_method_of(
                        #[trigger] sync_methods@[k],
                        ms@.take(i as int).filter(sync_filter())[k],
                    ),
                async_methods@.len() == ms@.take(i as int).filter(async_method_filter()).len(),
                forall|k: int|
                    0 <= k < async_methods@.len() ==> async_method_of(
                        #[trigger] async_methods@[k],
                        ms@.take(i as int).filter(async_method_filter())[k],
                    ),
            decreases ms@.len() - i,
        {
            proof {
                lemma_filter_step(ms@, sync_filter(), i as int);
                lemma_filter_step(ms@, async_method_filter(), i as int);
            }
            let m = &ms[i];
            if Self::is_supported_callback_method(m) {
                if m.is_async {
                    let ghost before = async_methods@;
                    let v = Self::build_async_method(m);
                    let ghost gv = v;
                    async_methods.push(v);
                    proof {
                        let next = ms@.take(i + 1).filter(async_method_filter());
                        assert forall|k: int| 0 <= k < async_methods@.len() implies async_method_of(
                            #[trigger] async_methods@[k],
                            next[k],
                        ) by {
                            if k < before.len() {
                                assert(async_methods@[k] == before[k]);
                            } else {
                                assert(async_methods@[k] == gv);
                                assert(next[k] == ms@[i as int]);
                            }
                        }
                    }
                } else {
                    let ghost before = sync_methods@;
                    let v = Self::build_sync_method(m);
                    let ghost gv = v;
                    sync_methods.push(v);
                    proof {
                        let next = ms@.take(i + 1).filter(sync_filter());
                        assert forall|k: int| 0 <= k < sync_methods@.len() implies sync_method_of(
                            #[trigger] sync_methods@[k],
                            next[k],
                        ) by {
                            if k < before.len() {
                                assert(sync_methods@[k] == before[k]);
                            } else {
                                assert(sync_methods@[k] == gv);
                                assert(next[k] == ms@[i as int]);
                            }
                        }
                    }
                }
            }
            i = i + 1;
        }
        assert(ms@.take(i as int) =~= ms@);
        let has_async = async_methods.len() > 0;
        let doc = match &callback_trait.doc {
            Some(d) => Some(crate::text::copy_string(d)),
            None => None,
        };
        CallbackTraitTemplate {
            doc,
            wrapper_class: concat2(interface_name.as_str(), "Wrapper"),
            handle_map_name: concat2(interface_name.as_str(), "HandleMap"),
            callbacks_object: concat2(interface_name.as_str(), "Callbacks"),
            bridge_name: concat2(interface_name.as_str(), "Bridge"),
            vtable_type: callback_vtable_name(trait_name),
            register_fn: callback_register_fn(trait_name),
            create_fn: callback_create_fn(trait_name),
            interface_name,
            sync_methods,
            async_methods,
            has_async,
        }
    }

    /// The view of a synchronous callback method.
    pub fn build_sync_method(method: &TraitMethod) -> (r: SyncMethodView)
        ensures
            sync_method_of(r, *method),
    {
        SyncMethodView {
            name: NamingConvention::method_name(method.name.as_str()),
            ffi_name: to_snake(method.name.as_str()),
            params: Self::build_params(&method.inputs),
            return_info: Self::build_return_info(&method.returns),
        }
    }

    /// The view of an async callback method.
    pub fn build_async_method(method: &TraitMethod) -> (r: AsyncMethodView)
        ensures
            async_method_of(r, *method),
    {
        let suffix = Self::async_invoker_suffix(&method.returns);
        AsyncMethodView {
            name: NamingConvention::method_name(method.name.as_str()),
            ffi_name: to_snake(method.name.as_str()),
            params: Self::build_params(&method.inputs),
            return_info: Self::build_return_info(&method.returns),
            invoker_name: concat2("invokeAsyncCallback", suffix.as_str()),
        }
    }

    /// How a callback's result crosses JNI; none when nothing comes back.
    pub fn build_return_info(result: &ReturnType) -> (r: Option<CallbackReturnInfo>)
        ensures
            opt_return_info_of(r, *result),
    {
        match result.ok_type() {
            Some(ty) => if ty.is_void() {
                None
            } else {
                Some(
                    CallbackReturnInfo {
                        kotlin_type: TypeMapper::map_type(ty),
                        jni_type: TypeMapper::jni_type(ty),
                        default_value: Self::default_value(ty),
                        to_jni: Self::jni_return_conversion(ty),
                    },
                )
            },
            None => None,
        }
    }

    /// The views of callback parameters.
    pub fn build_params(inputs: &Vec<TraitMethodParam>) -> (r: Vec<TraitParamView>)
        ensures
            trait_params_of(r@, inputs@),
    {
        let mut r: Vec<TraitParamView> = Vec::new();
        let mut i: usize = 0;
        while i < inputs.len()
            invariant
                i <= inputs@.len(),
                r@.len() == i,
                forall|k: int| 0 <= k < i ==> trait_param_of(#[trigger] r@[k], inputs@[k]),
            decreases inputs@.len() - i,
        {
            let p = &inputs[i];
            let kotlin_name = NamingConvention::param_name(p.name.as_str());
            let conversion = Self::jni_param_conversion(kotlin_name.as_str(), &p.param_type);
            r.push(
                TraitParamView {
                    name: kotlin_name,
                    ffi_name: crate::text::copy_string(&p.name),
                    kotlin_type: TypeMapper::map_type(&p.param_type),
                    jni_type: TypeMapper::jni_type(&p.param_type),
                    conversion,
                },
            );
            i = i + 1;
        }
        r
    }

    /// The invoker suffix of an async callback's result.
    pub fn async_invoker_suffix(result: &ReturnType) -> (r: String)
        ensures
            r@ == invoker_suffix_of(*result),
    {
        NativeTemplate::async_invoker_suffix_for_type(result)
    }

    /// The conversion of a Kotlin result to its JNI value (empty when none).
    pub fn jni_return_conversion(ty: &Type) -> (r: String)
        ensures
            r@ == jni_return_conversion_of(*ty),
    {
        match ty {
            Type::Primitive(p) => match info(*p).to_signed {
                Some(c) => string_of(c),
                None => string_of(""),
            },
            _ => string_of(""),
        }
    }

    /// The Kotlin value of JNI argument `name`.
    pub fn jni_param_conversion(name: &str, ty: &Type) -> (r: String)
        ensures
            r@ == jni_param_conversion_of(name@, *ty),
    {
        match ty {
            Type::Primitive(p) => match info(*p).to_unsigned {
                Some(c) => concat3(name, ".", c),
                None => string_of(name),
            },
            _ => string_of(name),
        }
    }

    /// Whether a callback method can be bound.
    pub fn is_supported_callback_method(method: &TraitMethod) -> (r: bool)
        ensures
            r == callback_supported(*method),
    {
        let supported_return = match method.returns.ok_type() {
            None => true,
            Some(Type::Void) => true,
            Some(Type::Primitive(_)) => true,
            _ => false,
        };
        if !supported_return {
            return false;
        }
        let mut i: usize = 0;
        while i < method.inputs.len()
            invariant
                i <= method.inputs@.len(),
                forall|k: int| 0 <= k < i ==> (#[trigger] method.inputs@[k]).param_type is Primitive,
            decreases method.inputs@.len() - i,
        {
            if !matches!(&method.inputs[i].param_type, Type::Primitive(_)) {
                return false;
            }
            i = i + 1;
        }
        true
    }

    /// The value a callback answers when its implementation is gone.
    pub fn default_value(ty: &Type) -> (r: String)
        ensures
            r@ == default_value_of(*ty),
    {
        match ty {
            Type::Primitive(p) => string_of(info(*p).callback_default),
            Type::String => string_of("\"\""),
            Type::Void => string_of("Unit"),
            _ => string_of("throw IllegalStateException(\"Handle not found\")"),
        }
    }
}

// ---------------------------------------------------------------------------
// Rendering
// ---------------------------------------------------------------------------

impl TraitParamView {
    /// The parameter as the interface declares it.
    pub fn render_decl(&self) -> (r: String)
        ensures
            r@ == trait_param_decl(*self),
    {
        concat3(self.name.as_str(), ": ", self.kotlin_type.as_str())
    }

    /// The parameter as the JNI entry point receives it.
    pub fn render_jni(&self) -> (r: String)
        ensures
            r@ == trait_param_jni(*self),
    {
        concat3(self.name.as_str(), ": ", self.jni_type.as_str())
    }

    /// The argument passed to the implementation.
    pub fn render_arg(&self) -> (r: String)
        ensures
            r@ == trait_param_arg(*self),
    {
        crate::text::copy_string(&self.conversion)
    }
}

/// The declared parameters of an interface method.
fn render_trait_decls(ps: &Vec<TraitParamView>) -> (r: String)
    ensures
        r@ == trait_decls(ps@),
{
    let parts = render_all(ps, TraitParamView::render_decl, Ghost(|p: TraitParamView| trait_param_decl(p)));
    join(&parts, ", ")
}

/// The handle, then the JNI parameters.
fn render_trait_jni_params(ps: &Vec<TraitParamView>) -> (r: String)
    ensures
        r@ == trait_jni_params(ps@),
{
    if ps.len() == 0 {
        string_of("handle: Long")
    } else {
        let parts = render_all(ps, TraitParamView::render_jni, Ghost(|p: TraitParamView| trait_param_jni(p)));
        let j = join(&parts, ", ");
        concat2("handle: Long, ", j.as_str())
    }
}

/// The arguments passed to the implementation.
fn render_trait_args(ps: &Vec<TraitParamView>) -> (r: String)
    ensures
        r@ == trait_args(ps@),
{
    let parts = render_all(ps, TraitParamView::render_arg, Ghost(|p: TraitParamView| trait_param_arg(p)));
    join(&parts, ", ")
}

/// `: T` for a result of Kotlin type `T`, nothing otherwise.
fn render_kotlin_ret(o: &Option<CallbackReturnInfo>) -> (r: String)
    ensures
        r@ == kotlin_ret(*o),
{
    match o {
        Some(i) => concat2(": ", i.kotlin_type.as_str()),
        None => string_of(""),
    }
}

/// `.conversion`, or nothing when there is no conversion.
fn render_dotted(c: &String) -> (r: String)
    ensures
        r@ == (if c@.len() == 0 {
            ""@
        } else {
            "."@ + c@
        }),
{
    if c.as_str().is_empty() {
        string_of("")
    } else {
        concat2(".", c.as_str())
    }
}

impl SyncMethodView {
    /// The interface method.
    pub fn render_decl(&self) -> (r: String)
        ensures
            r@ == sync_decl_text(*self),
    {
        let decls = render_trait_decls(&self.params);
        let ret = render_kotlin_ret(&self.return_info);
        let mut r = concat4("    fun ", self.name.as_str(), "(", decls.as_str());
        push_str(&mut r, ")");
        push_str(&mut r, ret.as_str());
        push_str(&mut r, "\n");
        r
    }

    /// The JNI entry point, looking up the implementation in `map`.
    pub fn render_bridge(&self, map: &String) -> (r: String)
        ensures
            r@ == sync_bridge_text(*self, map@),
    {
        let params = render_trait_jni_params(&self.params);
        let args = render_trait_args(&self.params);
        let call = concat4("impl.", self.name.as_str(), "(", args.as_str());
        let call = concat2(call.as_str(), ")");
        let mut r = concat4("\n    @JvmStatic\n    fun ", self.ffi_name.as_str(), "(", params.as_str());
        push_str(&mut r, ")");
        match &self.return_info {
            Some(i) => {
                push_str(&mut r, ": ");
                push_str(&mut r, i.jni_type.as_str());
            },
            None => push_str(&mut r, ""),
        }
        push_str(&mut r, " {\n        val impl = ");
        push_str(&mut r, map.as_str());
        push_str(&mut r, ".get(handle) ?: return");
        match &self.return_info {
            Some(i) => {
                push_str(&mut r, " ");
                push_str(&mut r, i.default_value.as_str());
            },
            None => push_str(&mut r, ""),
        }
        push_str(&mut r, "\n        ");
        match &self.return_info {
            Some(i) => {
                let d = render_dotted(&i.to_jni);
                push_str(&mut r, "return ");
                push_str(&mut r, call.as_str());
                push_str(&mut r, d.as_str());
            },
            None => push_str(&mut r, call.as_str()),
        }
        push_str(&mut r, "\n    }\n");
        r
    }
}

impl AsyncMethodView {
    /// The suspending interface method.
    pub fn render_decl(&self) -> (r: String)
        ensures
            r@ == async_decl_text(*self),
    {
        let decls = render_trait_decls(&self.params);
        let ret = render_kotlin_ret(&self.return_info);
        let mut r = concat4("    suspend fun ", self.name.as_str(), "(", decls.as_str());
        push_str(&mut r, ")");
        push_str(&mut r, ret.as_str());
        push_str(&mut r, "\n");
        r
    }

    /// The JNI entry point, looking up the implementation in `map`.
    pub fn render_bridge(&self, map: &String) -> (r: String)
        ensures
            r@ == async_bridge_text(*self, map@),
    {
        let params = render_trait_jni_params(&self.params);
        let args = render_trait_args(&self.params);
        let call = concat4("impl.", self.name.as_str(), "(", args.as_str());
        let call = concat2(call.as_str(), ")");
        let mut r = concat4("\n    @JvmStatic\n    fun ", self.ffi_name.as_str(), "(", params.as_str());
        push_str(&mut r, ", callback: Long, data: Long) {\n        val impl = ");
        push_str(&mut r, map.as_str());
        push_str(&mut r, ".get(handle) ?: return\n        callbackScope.launch {\n            ");
        match &self.return_info {
            Some(i) => {
                let d = render_dotted(&i.to_jni);
                push_str(&mut r, "val result = ");
                push_str(&mut r, call.as_str());
                push_str(&mut r, "\n            Native.");
                push_str(&mut r, self.invoker_name.as_str());
                push_str(&mut r, "(callback, data, result");
                push_str(&mut r, d.as_str());
                push_str(&mut r, ")");
            },
            None => {
                push_str(&mut r, call.as_str());
                push_str(&mut r, "\n            Native.");
                push_str(&mut r, self.invoker_name.as_str());
                push_str(&mut r, "(callback, data)");
            },
        }
        push_str(&mut r, "\n        }\n    }\n");
        r
    }
}

impl CallbackTraitTemplate {
    /// The map of live implementations.
    pub fn render_handle_map(&self) -> (r: String)
        ensures
            r@ == handle_map_text(*self),
    {
        let i = self.interface_name.as_str();
        let mut r = concat2("internal object ", self.handle_map_name.as_str());
        push_str(&mut r, " {\n    private val handles = java.util.concurrent.ConcurrentHashMap<Long, ");
        push_str(&mut r, i);
        push_str(
            &mut r,
            ">()\n    private val next = java.util.concurrent.atomic.AtomicLong(1)\n\n    fun insert(impl: ",
        );
        push_str(&mut r, i);
        push_str(
            &mut r,
            "): Long {\n        val handle = next.getAndIncrement()\n        handles[handle] = impl\n        return handle\n    }\n\n    fun get(handle: Long): ",
        );
        push_str(&mut r, i);
        push_str(&mut r, "? = handles[handle]\n\n    fun remove(handle: Long) {\n        handles.remove(handle)\n    }\n}\n");
        r
    }

    /// The callback trait's text.
    #[verifier::rlimit(40)]
    pub fn render(&self) -> (r: String)
        ensures
            r@ == callback_trait_text(*self),
    {
        let mut r = match &self.doc {
            Some(d) => concat3("/** ", d.as_str(), " */\n"),
            None => string_of(""),
        };
        push_str(&mut r, "interface ");
        push_str(&mut r, self.interface_name.as_str());
        push_str(&mut r, " {\n");
        let sd = render_all(&self.sync_methods, SyncMethodView::render_decl, Ghost(|v: SyncMethodView| sync_decl_text(v)));
        let sd = concat_all(&sd);
        push_str(&mut r, sd.as_str());
        let ad = render_all(&self.async_methods, AsyncMethodView::render_decl, Ghost(|v: AsyncMethodView| async_decl_text(v)));
        let ad = concat_all(&ad);
        push_str(&mut r, ad.as_str());
        push_str(&mut r, "}\n\n");
        let map = self.render_handle_map();
        push_str(&mut r, map.as_str());
        push_str(&mut r, "\ninternal object ");
        push_str(&mut r, self.callbacks_object.as_str());
        push_str(&mut r, " {\n");
        if self.has_async {
            push_str(
                &mut r,
                "    private val callbackScope = kotlinx.coroutines.CoroutineScope(kotlinx.coroutines.Dispatchers.Default)\n",
            );
        } else {
            push_str(&mut r, "");
        }
        let sb = render_all_ctx(
            &self.sync_methods,
            &self.handle_map_name,
            SyncMethodView::render_bridge,
            Ghost(|v: SyncMethodView, m: String| sync_bridge_text(v, m@)),
        );
        assert(views(sb@) =~= self.sync_methods@.map_values(
            |v: SyncMethodView| sync_bridge_text(v, self.handle_map_name@),
        ));
        let sb = concat_all(&sb);
        push_str(&mut r, sb.as_str());
        let ab = render_all_ctx(
            &self.async_methods,
            &self.handle_map_name,
            AsyncMethodView::render_bridge,
            Ghost(|v: AsyncMethodView, m: String| async_bridge_text(v, m@)),
        );
        assert(views(ab@) =~= self.async_methods@.map_values(
            |v: AsyncMethodView| async_bridge_text(v, self.handle_map_name@),
        ));
        let ab = concat_all(&ab);
        push_str(&mut r, ab.as_str());
        push_str(&mut r, "\n    @JvmStatic\n    fun free(handle: Long) {\n        ");
        push_str(&mut r, self.handle_map_name.as_str());
        push_str(&mut r, ".remove(handle)\n    }\n}\n");
        r
    }
}

} // verus!
