//! The views the Swift templates are filled from: method bodies, enums,
//! streams and the file's preamble.

use vstd::prelude::*;
use crate::case::upper_camel_case;
use crate::model::{
    spec_has_return_value, spec_ok_type, Class, Enumeration, Method, Module, Parameter,
    StreamMethod, Type,
};
use crate::naming::{
    ffi_prefix, method_ffi_cancel, method_ffi_complete, method_ffi_free, method_ffi_name,
    method_ffi_poll, spec_ffi_prefix, spec_method_ffi_name, stream_ffi_free, stream_ffi_pop_batch,
    stream_ffi_poll, stream_ffi_subscribe, stream_ffi_unsubscribe, stream_ffi_wait,
};
use crate::text::{
    concat2, concat3, flat_map, join, lemma_filter_corresponds, lemma_filter_step,
    lemma_flat_map_pointwise, seq_join, string_of, views,
};
use super::abi::{decode_text_of, lemma_decode_text, ReturnAbi};
use super::conversion::{callback_info_of, closure_filter, CallbackInfo, ParamsInfo};
use super::marshal::{
    args_fn, close_lines_fn, conversion_of, ffi_args_of, open_lines_fn, wrapper_open,
    SyncCallBuilder,
};
use super::names::{swift_member, NamingConvention};
use super::types::{swift_type_text, TypeMapper};

verus! {

// ---------------------------------------------------------------------------
// The call of a method
// ---------------------------------------------------------------------------

/// What every method body needs: the symbol, the wrappers pinning buffers
/// around the call, and the arguments.
pub struct MethodContext {
    pub ffi_name: String,
    pub wrappers_open: String,
    pub wrappers_close: String,
    pub ffi_args: String,
}

/// The parameters that are no closure.
pub open spec fn non_closure() -> spec_fn(Parameter) -> bool {
    |p: Parameter| !(p.param_type is Closure)
}

/// The parameters that are closures.
pub open spec fn closure_param() -> spec_fn(Parameter) -> bool {
    |p: Parameter| p.param_type is Closure
}

/// The opening line of a parameter's wrapper, if any.
pub open spec fn param_open_fn() -> spec_fn(Parameter) -> Seq<Seq<char>> {
    |p: Parameter| match wrapper_open(swift_member(p.name@), p.param_type) {
        Some(s) => seq![s],
        None => Seq::empty(),
    }
}

/// The closing line of a parameter's wrapper, if any.
pub open spec fn param_close_fn() -> spec_fn(Parameter) -> Seq<Seq<char>> {
    |p: Parameter| if wrapper_open(swift_member(p.name@), p.param_type) is Some {
        seq!["}"@]
    } else {
        Seq::empty()
    }
}

/// The arguments of a parameter.
pub open spec fn param_args_fn() -> spec_fn(Parameter) -> Seq<Seq<char>> {
    |p: Parameter| ffi_args_of(swift_member(p.name@), p.param_type)
}

/// Whether `c` is the context of method `method` of class `class` passing
/// parameters `ps` (after the handle when `include_handle`).
pub open spec fn context_of(
    c: MethodContext,
    class: Seq<char>,
    method: Seq<char>,
    ps: Seq<Parameter>,
    include_handle: bool,
) -> bool {
    &&& c.ffi_name@ == spec_method_ffi_name(class, method)
    &&& c.wrappers_open@ == seq_join(flat_map(ps, param_open_fn()), "\n"@)
    &&& c.wrappers_close@ == seq_join(flat_map(ps, param_close_fn()).reverse(), "\n"@)
    &&& c.ffi_args@ == seq_join(
        (if include_handle {
            seq!["handle"@]
        } else {
            Seq::empty()
        }) + flat_map(ps, param_args_fn()),
        ", "@,
    )
}

/// The name and type of each parameter, or of each that is no closure when
/// `skip_closures`.
pub(crate) fn param_pairs<'a>(inputs: &'a Vec<Parameter>, skip_closures: bool) -> (r: Vec<(&'a str, &'a Type)>)
    ensures
        ({
            let ps = if skip_closures {
                inputs@.filter(non_closure())
            } else {
                inputs@
            };
            &&& r@.len() == ps.len()
            &&& forall|k: int|
                0 <= k < r@.len() ==> (#[trigger] r@[k]).0@ == ps[k].name@ && *r@[k].1
                    == ps[k].param_type
        }),
{
    let mut r: Vec<(&'a str, &'a Type)> = Vec::new();
    let mut i: usize = 0;
    while i < inputs.len()
        invariant
            i <= inputs@.len(),
            ({
                let ps = if skip_closures {
                    inputs@.take(i as int).filter(non_closure())
                } else {
                    inputs@.take(i as int)
                };
                &&& r@.len() == ps.len()
                &&& forall|k: int|
                    0 <= k < r@.len() ==> (#[trigger] r@[k]).0@ == ps[k].name@ && *r@[k].1
                        == ps[k].param_type
            }),
        decreases inputs@.len() - i,
    {
        proof {
            lemma_filter_step(inputs@, non_closure(), i as int);
        }
        let p = &inputs[i];
        let keep = !skip_closures || !matches!(&p.param_type, Type::Closure(_));
        if keep {
            r.push((p.name.as_str(), &p.param_type));
        }
        proof {
            assert(inputs@.take(i + 1) =~= inputs@.take(i as int).push(inputs@[i as int]));
        }
        i = i + 1;
    }
    assert(inputs@.take(i as int) =~= inputs@);
    r
}

impl MethodContext {
    /// The context of a method's body: the parameters that are no closure,
    /// after the handle when `include_handle`.
    pub fn from_method(method: &Method, class: &Class, module: &Module, include_handle: bool) -> (r: Self)
        ensures
            context_of(r, class.name@, method.name@, method.inputs@.filter(non_closure()), include_handle),
    {
        let pairs = param_pairs(&method.inputs, true);
        Self::from_pairs(method, class, &pairs, include_handle, Ghost(method.inputs@.filter(non_closure())))
    }

    /// The context of a method's body over all its parameters, without the
    /// handle.
    pub fn from_method_all_params(method: &Method, class: &Class, module: &Module) -> (r: Self)
        ensures
            context_of(r, class.name@, method.name@, method.inputs@, false),
    {
        let pairs = param_pairs(&method.inputs, false);
        Self::from_pairs(method, class, &pairs, false, Ghost(method.inputs@))
    }

    /// The context over the parameters `pairs`, which are `ps`.
    fn from_pairs(
        method: &Method,
        class: &Class,
        pairs: &Vec<(&str, &Type)>,
        include_handle: bool,
        Ghost(ps): Ghost<Seq<Parameter>>,
    ) -> (r: Self)
        requires
            pairs@.len() == ps.len(),
            forall|k: int|
                0 <= k < pairs@.len() ==> (#[trigger] pairs@[k]).0@ == ps[k].name@ && *pairs@[k].1
                    == ps[k].param_type,
        ensures
            context_of(r, class.name@, method.name@, ps, include_handle),
    {
        let ffi_name = method_ffi_name(class.name.as_str(), method.name.as_str());
        let (wrappers_open, wrappers_close, ffi_args) = call_parts(pairs, include_handle, Ghost(ps));
        MethodContext { ffi_name, wrappers_open, wrappers_close, ffi_args }
    }
}

/// The wrappers opened and closed around a call passing the parameters
/// `pairs` (which are `ps`), and its arguments, after the handle when
/// `include_handle`.
pub(crate) fn call_parts(
    pairs: &Vec<(&str, &Type)>,
    include_handle: bool,
    Ghost(ps): Ghost<Seq<Parameter>>,
) -> (r: (String, String, String))
    requires
        pairs@.len() == ps.len(),
        forall|k: int|
            0 <= k < pairs@.len() ==> (#[trigger] pairs@[k]).0@ == ps[k].name@ && *pairs@[k].1
                == ps[k].param_type,
    ensures
        r.0@ == seq_join(flat_map(ps, param_open_fn()), "\n"@),
        r.1@ == seq_join(flat_map(ps, param_close_fn()).reverse(), "\n"@),
        r.2@ == seq_join(
            (if include_handle {
                seq!["handle"@]
            } else {
                Seq::empty()
            }) + flat_map(ps, param_args_fn()),
            ", "@,
        ),
{
    let builder = SyncCallBuilder::new("", include_handle).with_params(pairs);
    proof {
        let cs = builder.params_spec();
        assert forall|i: int| 0 <= i < cs.len() implies open_lines_fn()(cs[i]) == param_open_fn()(
            ps[i],
        ) && close_lines_fn()(cs[i]) == param_close_fn()(ps[i]) && args_fn()(cs[i])
            == param_args_fn()(ps[i]) by {
            assert(conversion_of(cs[i], pairs@[i].0@, *pairs@[i].1));
        }
        lemma_flat_map_pointwise(cs, open_lines_fn(), ps, param_open_fn());
        lemma_flat_map_pointwise(cs, close_lines_fn(), ps, param_close_fn());
        lemma_flat_map_pointwise(cs, args_fn(), ps, param_args_fn());
    }
    (builder.build_wrappers_open(), builder.build_wrappers_close(), builder.build_ffi_args())
}

// ---------------------------------------------------------------------------
// Method bodies
// ---------------------------------------------------------------------------

/// The body of a synchronous method.
pub struct SyncMethodBodyTemplate {
    pub ffi_name: String,
    pub has_return: bool,
    pub wrappers_open: String,
    pub wrappers_close: String,
    pub ffi_args: String,
}

impl SyncMethodBodyTemplate {
    /// The body of a synchronous method: the handle, then the parameters
    /// that are no closure.
    pub fn from_method(method: &Method, class: &Class, module: &Module) -> (r: Self)
        ensures
            context_of(
                MethodContext {
                    ffi_name: r.ffi_name,
                    wrappers_open: r.wrappers_open,
                    wrappers_close: r.wrappers_close,
                    ffi_args: r.ffi_args,
                },
                class.name@,
                method.name@,
                method.inputs@.filter(non_closure()),
                true,
            ),
            r.has_return == spec_has_return_value(method.returns),
    {
        let ctx = MethodContext::from_method(method, class, module, true);
        SyncMethodBodyTemplate {
            ffi_name: ctx.ffi_name,
            has_return: method.returns.has_return_value(),
            wrappers_open: ctx.wrappers_open,
            wrappers_close: ctx.wrappers_close,
            ffi_args: ctx.ffi_args,
        }
    }

    /// Whether the call is wrapped.
    pub fn has_wrappers(&self) -> (r: bool)
        ensures
            r == (self.wrappers_open@.len() > 0),
    {
        !self.wrappers_open.as_str().is_empty()
    }
}

/// The body of a method taking closures.
pub struct CallbackMethodBodyTemplate {
    pub ffi_name: String,
    pub has_return: bool,
    pub callbacks: Vec<CallbackInfo>,
    pub wrappers_open: String,
    pub wrappers_close: String,
    pub ffi_args: String,
    pub callback_args: String,
}

/// The trampoline and context passed for a closure.
pub open spec fn callback_arg_text(c: CallbackInfo) -> Seq<char> {
    c.trampoline_name@ + ", "@ + c.ptr_name@
}

impl CallbackInfo {
    /// The trampoline and context passed for the closure.
    pub fn render_arg(&self) -> (r: String)
        ensures
            r@ == callback_arg_text(*self),
    {
        concat3(self.trampoline_name.as_str(), ", ", self.ptr_name.as_str())
    }
}

impl CallbackMethodBodyTemplate {
    /// The body of a method taking closures: the other parameters pass as in
    /// a synchronous body; each closure passes its trampoline and context.
    pub fn from_method(method: &Method, class: &Class, module: &Module) -> (r: Self)
        ensures
            context_of(
                MethodContext {
                    ffi_name: r.ffi_name,
                    wrappers_open: r.wrappers_open,
                    wrappers_close: r.wrappers_close,
                    ffi_args: r.ffi_args,
                },
                class.name@,
                method.name@,
                method.inputs@.filter(non_closure()),
                true,
            ),
            r.has_return == spec_has_return_value(method.returns),
            r.callback_args@ == seq_join(
                r.callbacks@.map_values(|c: CallbackInfo| callback_arg_text(c)),
                ", "@,
            ),
            r.callbacks@.len() == method.inputs@.filter(closure_param()).len(),
            forall|k: int|
                0 <= k < r.callbacks@.len() ==> match method.inputs@.filter(closure_param())[k].param_type {
                    Type::Closure(sig) => callback_info_of(
                        #[trigger] r.callbacks@[k],
                        method.inputs@.filter(closure_param())[k].name@,
                        sig.params@,
                        upper_camel_case(method.name@),
                        k as nat,
                    ),
                    _ => false,
                },
    {
        let ctx = MethodContext::from_method(method, class, module, true);
        let pairs = param_pairs(&method.inputs, false);
        let pascal = NamingConvention::class_name(method.name.as_str());
        let info = ParamsInfo::from_inputs(&pairs, pascal.as_str());
        proof {
            lemma_filter_corresponds(
                pairs@,
                closure_filter(),
                method.inputs@,
                closure_param(),
                |x: (&str, &Type), y: Parameter| x.0@ == y.name@ && *x.1 == y.param_type,
            );
        }
        let args = crate::text::render_all(
            &info.callbacks,
            CallbackInfo::render_arg,
            Ghost(|c: CallbackInfo| callback_arg_text(c)),
        );
        let callback_args = join(&args, ", ");
        CallbackMethodBodyTemplate {
            ffi_name: ctx.ffi_name,
            has_return: method.returns.has_return_value(),
            callbacks: info.callbacks,
            wrappers_open: ctx.wrappers_open,
            wrappers_close: ctx.wrappers_close,
            ffi_args: ctx.ffi_args,
            callback_args,
        }
    }

    /// Whether the call is wrapped.
    pub fn has_wrappers(&self) -> (r: bool)
        ensures
            r == (self.wrappers_open@.len() > 0),
    {
        !self.wrappers_open.as_str().is_empty()
    }
}

/// The body of a fallible synchronous method.
pub struct ThrowingMethodBodyTemplate {
    pub ffi_name: String,
    pub prefix: String,
    pub wrappers_open: String,
    pub wrappers_close: String,
    pub ffi_args: String,
    pub decode_expr: String,
}

impl ThrowingMethodBodyTemplate {
    /// The body of a fallible method: all parameters, no handle, and the
    /// decoding of the encoded result.
    pub fn from_method(method: &Method, class: &Class, module: &Module) -> (r: Self)
        ensures
            context_of(
                MethodContext {
                    ffi_name: r.ffi_name,
                    wrappers_open: r.wrappers_open,
                    wrappers_close: r.wrappers_close,
                    ffi_args: r.ffi_args,
                },
                class.name@,
                method.name@,
                method.inputs@,
                false,
            ),
            r.prefix@ == spec_ffi_prefix(),
            r.decode_expr@ == decode_text_of(method.returns, *module),
    {
        let ctx = MethodContext::from_method_all_params(method, class, module);
        let abi = ReturnAbi::from_return_type(&method.returns, module);
        proof {
            lemma_decode_text(abi, method.returns, *module);
        }
        ThrowingMethodBodyTemplate {
            ffi_name: ctx.ffi_name,
            prefix: string_of(ffi_prefix()),
            wrappers_open: ctx.wrappers_open,
            wrappers_close: ctx.wrappers_close,
            ffi_args: ctx.ffi_args,
            decode_expr: string_of(abi.decode_expr()),
        }
    }

    /// Whether the call is wrapped.
    pub fn has_wrappers(&self) -> (r: bool)
        ensures
            r == (self.wrappers_open@.len() > 0),
    {
        !self.wrappers_open.as_str().is_empty()
    }
}

/// The Swift type an async method completes with.
pub open spec fn async_return_text(rt: crate::model::ReturnType) -> Seq<char> {
    match spec_ok_type(rt) {
        Some(t) => swift_type_text(t),
        None => "Void"@,
    }
}

/// The Swift type an async method completes with.
fn async_return_type(method: &Method) -> (r: String)
    ensures
        r@ == async_return_text(method.returns),
{
    match method.returns.ok_type() {
        Some(t) => TypeMapper::map_type(t),
        None => string_of("Void"),
    }
}

/// The body of an async method.
pub struct AsyncMethodBodyTemplate {
    pub ffi_name: String,
    pub ffi_poll: String,
    pub ffi_complete: String,
    pub ffi_cancel: String,
    pub ffi_free: String,
    pub prefix: String,
    pub wrappers_open: String,
    pub wrappers_close: String,
    pub ffi_args: String,
    pub return_type: String,
    pub decode_expr: String,
}

/// Whether the async entry points are those of method `m` of class `c`.
pub open spec fn async_symbols_of(
    ffi_poll: String,
    ffi_complete: String,
    ffi_cancel: String,
    ffi_free: String,
    c: Seq<char>,
    m: Seq<char>,
) -> bool {
    &&& ffi_poll@ == spec_method_ffi_name(c, m) + "_poll"@
    &&& ffi_complete@ == spec_method_ffi_name(c, m) + "_complete"@
    &&& ffi_cancel@ == spec_method_ffi_name(c, m) + "_cancel"@
    &&& ffi_free@ == spec_method_ffi_name(c, m) + "_free"@
}

impl AsyncMethodBodyTemplate {
    /// The body of an async method: the handle, then the parameters that
    /// are no closure; the future's entry points; what it completes with.
    pub fn from_method(method: &Method, class: &Class, module: &Module) -> (r: Self)
        ensures
            context_of(
                MethodContext {
                    ffi_name: r.ffi_name,
                    wrappers_open: r.wrappers_open,
                    wrappers_close: r.wrappers_close,
                    ffi_args: r.ffi_args,
                },
                class.name@,
                method.name@,
                method.inputs@.filter(non_closure()),
                true,
            ),
            async_symbols_of(r.ffi_poll, r.ffi_complete, r.ffi_cancel, r.ffi_free, class.name@, method.name@),
            r.prefix@ == spec_ffi_prefix(),
            r.return_type@ == async_return_text(method.returns),
            r.decode_expr@ == decode_text_of(method.returns, *module),
    {
        let ctx = MethodContext::from_method(method, class, module, true);
        let abi = ReturnAbi::from_return_type(&method.returns, module);
        proof {
            lemma_decode_text(abi, method.returns, *module);
        }
        let c = class.name.as_str();
        let m = method.name.as_str();
        AsyncMethodBodyTemplate {
            ffi_name: ctx.ffi_name,
            ffi_poll: method_ffi_poll(c, m),
            ffi_complete: method_ffi_complete(c, m),
            ffi_cancel: method_ffi_cancel(c, m),
            ffi_free: method_ffi_free(c, m),
            prefix: string_of(ffi_prefix()),
            wrappers_open: ctx.wrappers_open,
            wrappers_close: ctx.wrappers_close,
            ffi_args: ctx.ffi_args,
            return_type: async_return_type(method),
            decode_expr: string_of(abi.decode_expr()),
        }
    }

    /// Whether the call is wrapped.
    pub fn has_wrappers(&self) -> (r: bool)
        ensures
            r == (self.wrappers_open@.len() > 0),
    {
        !self.wrappers_open.as_str().is_empty()
    }
}

/// The body of a fallible async method.
pub struct AsyncThrowingMethodBodyTemplate {
    pub ffi_name: String,
    pub ffi_poll: String,
    pub ffi_complete: String,
    pub ffi_cancel: String,
    pub ffi_free: String,
    pub prefix: String,
    pub wrappers_open: String,
    pub wrappers_close: String,
    pub ffi_args: String,
    pub return_type: String,
    pub decode_expr: String,
}

impl AsyncThrowingMethodBodyTemplate {
    /// The body of a fallible async method, built as an async one.
    pub fn from_method(method: &Method, class: &Class, module: &Module) -> (r: Self)
        ensures
            context_of(
                MethodContext {
                    ffi_name: r.ffi_name,
                    wrappers_open: r.wrappers_open,
                    wrappers_close: r.wrappers_close,
                    ffi_args: r.ffi_args,
                },
                class.name@,
                method.name@,
                method.inputs@.filter(non_closure()),
                true,
            ),
            async_symbols_of(r.ffi_poll, r.ffi_complete, r.ffi_cancel, r.ffi_free, class.name@, method.name@),
            r.prefix@ == spec_ffi_prefix(),
            r.return_type@ == async_return_text(method.returns),
            r.decode_expr@ == decode_text_of(method.returns, *module),
    {
        let a = AsyncMethodBodyTemplate::from_method(method, class, module);
        AsyncThrowingMethodBodyTemplate {
            ffi_name: a.ffi_name,
            ffi_poll: a.ffi_poll,
            ffi_complete: a.ffi_complete,
            ffi_cancel: a.ffi_cancel,
            ffi_free: a.ffi_free,
            prefix: a.prefix,
            wrappers_open: a.wrappers_open,
            wrappers_close: a.wrappers_close,
            ffi_args: a.ffi_args,
            return_type: a.return_type,
            decode_expr: a.decode_expr,
        }
    }

    /// Whether the call is wrapped.
    pub fn has_wrappers(&self) -> (r: bool)
        ensures
            r == (self.wrappers_open@.len() > 0),
    {
        !self.wrappers_open.as_str().is_empty()
    }
}

// ---------------------------------------------------------------------------
// Enumerations
// ---------------------------------------------------------------------------

/// A plain Swift enumeration.
pub struct CStyleEnumTemplate {
    pub class_name: String,
    pub variants: Vec<CStyleVariantView>,
    pub is_error: bool,
}

/// A case of a plain enumeration.
pub struct CStyleVariantView {
    pub swift_name: String,
    pub discriminant: i64,
}

impl CStyleEnumTemplate {
    /// The Swift enumeration: each case with its discriminant, or its
    /// position when it has none.
    pub fn from_enum(enumeration: &Enumeration) -> (r: Self)
        requires
            enumeration.variants@.len() <= i64::MAX,
        ensures
            r.class_name@ == upper_camel_case(enumeration.name@),
            r.is_error == enumeration.is_error,
            r.variants@.len() == enumeration.variants@.len(),
            forall|i: int|
                0 <= i < r.variants@.len() ==> {
                    &&& (#[trigger] r.variants@[i]).swift_name@ == swift_member(
                        enumeration.variants@[i].name@,
                    )
                    &&& r.variants@[i].discriminant == match enumeration.variants@[i].discriminant {
                        Some(d) => d as int,
                        None => i,
                    }
                },
    {
        let mut variants: Vec<CStyleVariantView> = Vec::new();
        let mut i: usize = 0;
        while i < enumeration.variants.len()
            invariant
                i <= enumeration.variants@.len(),
                enumeration.variants@.len() <= i64::MAX,
                variants@.len() == i,
                forall|k: int|
                    0 <= k < i ==> {
                        &&& (#[trigger] variants@[k]).swift_name@ == swift_member(
                            enumeration.variants@[k].name@,
                        )
                        &&& variants@[k].discriminant == match enumeration.variants@[k].discriminant {
                            Some(d) => d as int,
                            None => k,
                        }
                    },
            decreases enumeration.variants@.len() - i,
        {
            let v = &enumeration.variants[i];
            let discriminant = match v.discriminant {
                Some(d) => d,
                None => i as i64,
            };
            variants.push(
                CStyleVariantView {
                    swift_name: NamingConvention::enum_case_name(v.name.as_str()),
                    discriminant,
                },
            );
            i = i + 1;
        }
        CStyleEnumTemplate {
            class_name: NamingConvention::class_name(enumeration.name.as_str()),
            variants,
            is_error: enumeration.is_error,
        }
    }
}

// ---------------------------------------------------------------------------
// Streams
// ---------------------------------------------------------------------------

/// A stream read in batches.
pub struct StreamBatchBodyTemplate {
    pub class_name: String,
    pub method_name_pascal: String,
    pub subscribe_fn: String,
}

impl StreamBatchBodyTemplate {
    /// The batch stream `stream` of `class`.
    pub fn from_stream(stream: &StreamMethod, class: &Class, _module: &Module) -> (r: Self)
        ensures
            r.class_name@ == upper_camel_case(class.name@),
            r.method_name_pascal@ == upper_camel_case(stream.name@),
            r.subscribe_fn@ == spec_method_ffi_name(class.name@, stream.name@) + "_subscribe"@,
    {
        StreamBatchBodyTemplate {
            class_name: NamingConvention::class_name(class.name.as_str()),
            method_name_pascal: NamingConvention::class_name(stream.name.as_str()),
            subscribe_fn: stream_ffi_subscribe(class.name.as_str(), stream.name.as_str()),
        }
    }
}

/// A stream delivered to a callback.
pub struct StreamCallbackBodyTemplate {
    pub item_type: String,
    pub class_name: String,
    pub method_name_pascal: String,
    pub subscribe_fn: String,
    pub pop_batch_fn: String,
    pub poll_fn: String,
    pub unsubscribe_fn: String,
    pub free_fn: String,
    pub atomic_cas_fn: String,
}

impl StreamCallbackBodyTemplate {
    /// The callback stream `stream` of `class`.
    pub fn from_stream(stream: &StreamMethod, class: &Class, _module: &Module) -> (r: Self)
        ensures
            r.item_type@ == swift_type_text(stream.item_type),
            r.class_name@ == upper_camel_case(class.name@),
            r.method_name_pascal@ == upper_camel_case(stream.name@),
            r.subscribe_fn@ == spec_method_ffi_name(class.name@, stream.name@) + "_subscribe"@,
            r.pop_batch_fn@ == spec_method_ffi_name(class.name@, stream.name@) + "_pop_batch"@,
            r.poll_fn@ == spec_method_ffi_name(class.name@, stream.name@) + "_poll"@,
            r.unsubscribe_fn@ == spec_method_ffi_name(class.name@, stream.name@) + "_unsubscribe"@,
            r.free_fn@ == spec_method_ffi_name(class.name@, stream.name@) + "_free"@,
            r.atomic_cas_fn@ == spec_ffi_prefix() + "_atomic_u8_cas"@,
    {
        let c = class.name.as_str();
        let s = stream.name.as_str();
        StreamCallbackBodyTemplate {
            item_type: TypeMapper::map_type(&stream.item_type),
            class_name: NamingConvention::class_name(c),
            method_name_pascal: NamingConvention::class_name(s),
            subscribe_fn: stream_ffi_subscribe(c, s),
            pop_batch_fn: stream_ffi_pop_batch(c, s),
            poll_fn: stream_ffi_poll(c, s),
            unsubscribe_fn: stream_ffi_unsubscribe(c, s),
            free_fn: stream_ffi_free(c, s),
            atomic_cas_fn: concat2(ffi_prefix(), "_atomic_u8_cas"),
        }
    }
}

/// The subscription object of a stream.
pub struct StreamSubscriptionTemplate {
    pub class_name: String,
    pub method_name_pascal: String,
    pub item_type: String,
    pub pop_batch_fn: String,
    pub wait_fn: String,
    pub unsubscribe_fn: String,
    pub free_fn: String,
}

impl StreamSubscriptionTemplate {
    /// The subscription object of `stream` of `class`.
    pub fn from_stream(stream: &StreamMethod, class: &Class, _module: &Module) -> (r: Self)
        ensures
            r.class_name@ == upper_camel_case(class.name@),
            r.method_name_pascal@ == upper_camel_case(stream.name@),
            r.item_type@ == swift_type_text(stream.item_type),
            r.pop_batch_fn@ == spec_method_ffi_name(class.name@, stream.name@) + "_pop_batch"@,
            r.wait_fn@ == spec_method_ffi_name(class.name@, stream.name@) + "_wait"@,
            r.unsubscribe_fn@ == spec_method_ffi_name(class.name@, stream.name@) + "_unsubscribe"@,
            r.free_fn@ == spec_method_ffi_name(class.name@, stream.name@) + "_free"@,
    {
        let c = class.name.as_str();
        let s = stream.name.as_str();
        StreamSubscriptionTemplate {
            class_name: NamingConvention::class_name(c),
            method_name_pascal: NamingConvention::class_name(s),
            item_type: TypeMapper::map_type(&stream.item_type),
            pop_batch_fn: stream_ffi_pop_batch(c, s),
            wait_fn: stream_ffi_wait(c, s),
            unsubscribe_fn: stream_ffi_unsubscribe(c, s),
            free_fn: stream_ffi_free(c, s),
        }
    }
}

/// The cancellable handle of a stream.
pub struct StreamCancellableTemplate {
    pub class_name: String,
    pub method_name_pascal: String,
}

impl StreamCancellableTemplate {
    /// The cancellable handle of `stream` of `class`.
    pub fn from_stream(stream: &StreamMethod, class: &Class, _module: &Module) -> (r: Self)
        ensures
            r.class_name@ == upper_camel_case(class.name@),
            r.method_name_pascal@ == upper_camel_case(stream.name@),
    {
        StreamCancellableTemplate {
            class_name: NamingConvention::class_name(class.name.as_str()),
            method_name_pascal: NamingConvention::class_name(stream.name.as_str()),
        }
    }
}

// ---------------------------------------------------------------------------
// The preamble
// ---------------------------------------------------------------------------

/// The head of the generated file.
pub struct PreambleTemplate {
    pub prefix: String,
    pub ffi_module_name: Option<String>,
    pub has_async: bool,
    pub has_streams: bool,
}

/// Whether some function or method of the module is async.
pub open spec fn module_has_async(m: Module) -> bool {
    (exists|i: int| 0 <= i < m.functions@.len() && (#[trigger] m.functions@[i]).is_async) || (exists|
        i: int,
        j: int,
    |
        0 <= i < m.classes@.len() && 0 <= j < m.classes@[i].methods@.len()
            && (#[trigger] m.classes@[i].methods@[j]).is_async)
}

/// Whether some class of the module has a stream.
pub open spec fn module_has_streams(m: Module) -> bool {
    exists|i: int| 0 <= i < m.classes@.len() && (#[trigger] m.classes@[i]).streams@.len() > 0
}

/// Whether some function or method of the module is async.
fn has_async(module: &Module) -> (r: bool)
    ensures
        r == module_has_async(*module),
{
    let mut i: usize = 0;
    while i < module.functions.len()
        invariant
            i <= module.functions@.len(),
            forall|k: int| 0 <= k < i ==> !(#[trigger] module.functions@[k]).is_async,
        decreases module.functions@.len() - i,
    {
        if module.functions[i].is_async {
            return true;
        }
        i = i + 1;
    }
    let mut c: usize = 0;
    while c < module.classes.len()
        invariant
            c <= module.classes@.len(),
            forall|k: int| 0 <= k < module.functions@.len() ==> !(#[trigger] module.functions@[k]).is_async,
            forall|a: int, b: int|
                0 <= a < c && 0 <= b < module.classes@[a].methods@.len() ==> !(#[trigger] module.classes@[a].methods@[b]).is_async,
        decreases module.classes@.len() - c,
    {
        let ms = &module.classes[c].methods;
        let mut j: usize = 0;
        while j < ms.len()
            invariant
                j <= ms@.len(),
                c < module.classes@.len(),
                *ms == module.classes@[c as int].methods,
                forall|b: int| 0 <= b < j ==> !(#[trigger] ms@[b]).is_async,
            decreases ms@.len() - j,
        {
            if ms[j].is_async {
                assert(module.classes@[c as int].methods@[j as int].is_async);
                return true;
            }
            j = j + 1;
        }
        c = c + 1;
    }
    false
}

/// Whether some class of the module has a stream.
fn has_streams(module: &Module) -> (r: bool)
    ensures
        r == module_has_streams(*module),
{
    let mut i: usize = 0;
    while i < module.classes.len()
        invariant
            i <= module.classes@.len(),
            forall|k: int| 0 <= k < i ==> (#[trigger] module.classes@[k]).streams@.len() == 0,
        decreases module.classes@.len() - i,
    {
        if module.classes[i].streams.len() > 0 {
            return true;
        }
        i = i + 1;
    }
    false
}

impl PreambleTemplate {
    /// The head of a file generated without an FFI module import.
    pub fn for_generator(module: &Module) -> (r: Self)
        ensures
            r.prefix@ == spec_ffi_prefix(),
            r.ffi_module_name is None,
            r.has_async == module_has_async(*module),
            r.has_streams == module_has_streams(*module),
    {
        PreambleTemplate {
            prefix: string_of(ffi_prefix()),
            ffi_module_name: None,
            has_async: has_async(module),
            has_streams: has_streams(module),
        }
    }

    /// The head of a file importing the module's FFI module.
    pub fn for_module(module: &Module) -> (r: Self)
        ensures
            r.prefix@ == spec_ffi_prefix(),
            r.ffi_module_name matches Some(n) && n@ == upper_camel_case(module.name@) + "FFI"@,
            r.has_async == module_has_async(*module),
            r.has_streams == module_has_streams(*module),
    {
        let c = NamingConvention::class_name(module.name.as_str());
        PreambleTemplate {
            prefix: string_of(ffi_prefix()),
            ffi_module_name: Some(concat2(c.as_str(), "FFI")),
            has_async: has_async(module),
            has_streams: has_streams(module),
        }
    }
}

} // verus!
