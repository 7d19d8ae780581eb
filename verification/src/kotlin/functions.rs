//! Kotlin templates for closure interfaces and free functions.

use vstd::prelude::*;
use crate::case::upper_camel_case;
use crate::model::{
    spec_enum_is_data, spec_ok_type, spec_signature_id, ClosureSignature, Enumeration, Function,
    Module, Parameter, Primitive, ReturnType, Type,
};
use crate::naming::{
    function_ffi_cancel, function_ffi_complete, function_ffi_free, function_ffi_name,
    function_ffi_poll, method_ffi_complete, spec_ffi_prefix, spec_function_ffi_name,
    spec_method_ffi_name, ffi_prefix,
};
use crate::text::{
    lemma_occurs_middle, lemma_occurs_trans, occurs_in, concat2, concat3, concat4, join, nat_text,
    push_str, render_all, seq_join, string_of, usize_text,
};
use super::marshal::{param_to_ffi, ParamConversion};
use super::names::{kotlin_member, NamingConvention};
use super::primitives::{info, to_unsigned, vec_to_unsigned};
use super::types::{kotlin_type, TypeMapper};

verus! {

// ---------------------------------------------------------------------------
// Closure interfaces
// ---------------------------------------------------------------------------

/// A Kotlin `fun interface` for one closure signature.
pub struct ClosureInterfaceTemplate {
    pub interface_name: String,
    pub params: Vec<ClosureParamView>,
    pub is_void_return: bool,
    pub return_type: String,
}

/// One argument of the closure.
pub struct ClosureParamView {
    pub name: String,
    pub kotlin_type: String,
}

/// The Kotlin type of a closure argument: records arrive as raw buffers.
pub open spec fn closure_param_type(t: Type) -> Seq<char> {
    match t {
        Type::Record(_) => "java.nio.ByteBuffer"@,
        _ => kotlin_type(t),
    }
}

/// The name of the interface for a signature.
pub open spec fn interface_name_of(sig: ClosureSignature) -> Seq<char> {
    spec_signature_id(sig) + "Callback"@
}

/// Whether `t` is the interface of `sig`.
pub open spec fn closure_interface_of(t: ClosureInterfaceTemplate, sig: ClosureSignature) -> bool {
    &&& t.interface_name@ == interface_name_of(sig)
    &&& t.is_void_return == (*sig.returns is Void)
    &&& t.return_type@ == (if *sig.returns is Void {
        "Unit"@
    } else {
        kotlin_type(*sig.returns)
    })
    &&& t.params@.len() == sig.params@.len()
    &&& forall|i: int|
        0 <= i < t.params@.len() ==> {
            &&& (#[trigger] t.params@[i]).name@ == "p"@ + nat_text(i as nat)
            &&& t.params@[i].kotlin_type@ == closure_param_type(sig.params@[i])
        }
}

/// One declared argument.
pub open spec fn closure_param_text(p: ClosureParamView) -> Seq<char> {
    p.name@ + ": "@ + p.kotlin_type@
}

/// The interface text.
pub open spec fn closure_interface_text(t: ClosureInterfaceTemplate) -> Seq<char> {
    "fun interface "@ + t.interface_name@ + " {\n    fun invoke("@ + seq_join(
        t.params@.map_values(|p: ClosureParamView| closure_param_text(p)),
        ", "@,
    ) + "): "@ + t.return_type@ + "\n}\n"@
}

/// The interface text of `sig`.
pub open spec fn closure_interface_source(sig: ClosureSignature) -> Seq<char> {
    closure_interface_text(choose|t: ClosureInterfaceTemplate| closure_interface_of(t, sig))
}

/// Every interface template of `sig` renders to the same text.
pub proof fn lemma_closure_interface_text(t: ClosureInterfaceTemplate, sig: ClosureSignature)
    requires
        closure_interface_of(t, sig),
    ensures
        closure_interface_text(t) == closure_interface_source(sig),
{
    let u = choose|u: ClosureInterfaceTemplate| closure_interface_of(u, sig);
    assert(t.params@.map_values(|p: ClosureParamView| closure_param_text(p)) =~= u.params@.map_values(
        |p: ClosureParamView| closure_param_text(p),
    ));
}

impl ClosureParamView {
    /// The declared argument.
    pub fn render(&self) -> (r: String)
        ensures
            r@ == closure_param_text(*self),
    {
        concat3(self.name.as_str(), ": ", self.kotlin_type.as_str())
    }
}

impl ClosureInterfaceTemplate {
    /// The interface of a closure signature.
    pub fn from_signature(sig: &ClosureSignature, _prefix: &str) -> (r: Self)
        ensures
            closure_interface_of(r, *sig),
    {
        let mut params: Vec<ClosureParamView> = Vec::new();
        let mut i: usize = 0;
        while i < sig.params.len()
            invariant
                i <= sig.params@.len(),
                params@.len() == i,
                forall|k: int|
                    0 <= k < i ==> {
                        &&& (#[trigger] params@[k]).name@ == "p"@ + nat_text(k as nat)
                        &&& params@[k].kotlin_type@ == closure_param_type(sig.params@[k])
                    },
            decreases sig.params@.len() - i,
        {
            let n = usize_text(i);
            params.push(
                ClosureParamView {
                    name: concat2("p", n.as_str()),
                    kotlin_type: Self::closure_param_type(&sig.params[i]),
                },
            );
            i = i + 1;
        }
        let is_void_return = sig.returns.is_void();
        let return_type = if is_void_return {
            string_of("Unit")
        } else {
            TypeMapper::map_type(&sig.returns)
        };
        Self { interface_name: Self::interface_name_for_signature(sig), params, is_void_return, return_type }
    }

    /// The name of the interface for a signature.
    pub fn interface_name_for_signature(sig: &ClosureSignature) -> (r: String)
        ensures
            r@ == interface_name_of(*sig),
    {
        let id = sig.signature_id();
        concat2(id.as_str(), "Callback")
    }

    fn closure_param_type(ty: &Type) -> (r: String)
        ensures
            r@ == closure_param_type(*ty),
    {
        match ty {
            Type::Record(_) => string_of("java.nio.ByteBuffer"),
            _ => TypeMapper::map_type(ty),
        }
    }

    /// The interface text.
    pub fn render(&self) -> (r: String)
        ensures
            r@ == closure_interface_text(*self),
    {
        let parts = render_all(
            &self.params,
            ClosureParamView::render,
            Ghost(|p: ClosureParamView| closure_param_text(p)),
        );
        let params = join(&parts, ", ");
        let mut r = concat4("fun interface ", self.interface_name.as_str(), " {\n    fun invoke(", params.as_str());
        push_str(&mut r, "): ");
        push_str(&mut r, self.return_type.as_str());
        push_str(&mut r, "\n}\n");
        r
    }
}

// ---------------------------------------------------------------------------
// Return conversions shared by functions and methods
// ---------------------------------------------------------------------------

/// `call` followed by the conversion to an unsigned value, if any.
pub open spec fn unsigned_conversion(call: Seq<char>, p: Primitive) -> Seq<char> {
    match to_unsigned(p) {
        Some(c) => call + "."@ + c,
        None => call,
    }
}

/// The list built from a JNI array returned by `call`.
pub open spec fn vec_primitive_conversion_of(call: Seq<char>, p: Primitive) -> Seq<char> {
    match vec_to_unsigned(p) {
        Some(c) => "("@ + call + ")."@ + c,
        None => "("@ + call + ").toList()"@,
    }
}

/// The Kotlin value of type `t` from the JNI result of `call`.
pub open spec fn type_conversion(call: Seq<char>, t: Type) -> Seq<char> {
    match t {
        Type::Void => call,
        Type::Primitive(p) => unsigned_conversion(call, p),
        Type::String => call + " ?: throw FfiException(-1, \"Null string\")"@,
        Type::Vec(inner) => {
            let null_check = call + " ?: throw FfiException(-1, \"Null array\")"@;
            match *inner {
                Type::Primitive(p) => vec_primitive_conversion_of(null_check, p),
                _ => null_check,
            }
        },
        Type::Record(n) => "useNativeBuffer("@ + call
            + " ?: throw FfiException(-1, \"Null record\")) { buf -> buf.order(ByteOrder.nativeOrder()); "@
            + upper_camel_case(n@) + "Reader.read(buf, 0) }"@,
        _ => call,
    }
}

/// The expression that completes an async call.
pub open spec fn complete_expr_of(r: ReturnType, func_name: Seq<char>, class_name: Option<Seq<char>>) -> Seq<char> {
    let complete = match class_name {
        Some(c) => spec_method_ffi_name(c, func_name) + "_complete"@,
        None => spec_function_ffi_name(func_name) + "_complete"@,
    };
    let args = match class_name {
        Some(_) => "handle, future"@,
        None => "future"@,
    };
    let call = "Native."@ + complete + "("@ + args + ")"@;
    match r {
        ReturnType::Void => call,
        ReturnType::Value(ty) => type_conversion(call, ty),
        ReturnType::Fallible { ok, .. } => type_conversion(call, ok),
    }
}

/// A Kotlin parameter of a generated function.
pub struct ParamView {
    pub name: String,
    pub kotlin_type: String,
    pub conversion: String,
}

/// One declared parameter.
pub open spec fn param_decl_text(p: ParamView) -> Seq<char> {
    p.name@ + ": "@ + p.kotlin_type@
}

/// One argument passed to `Native`.
pub open spec fn param_arg_text(p: ParamView) -> Seq<char> {
    p.conversion@
}

/// The declared parameters, separated by `, `.
pub open spec fn params_decl(ps: Seq<ParamView>) -> Seq<char> {
    seq_join(ps.map_values(|p: ParamView| param_decl_text(p)), ", "@)
}

/// The arguments passed to `Native`, separated by `, `.
pub open spec fn params_args(ps: Seq<ParamView>) -> Seq<char> {
    seq_join(ps.map_values(|p: ParamView| param_arg_text(p)), ", "@)
}

impl ParamView {
    /// The declared parameter.
    pub fn render_decl(&self) -> (r: String)
        ensures
            r@ == param_decl_text(*self),
    {
        concat3(self.name.as_str(), ": ", self.kotlin_type.as_str())
    }

    /// The argument passed to `Native`.
    pub fn render_arg(&self) -> (r: String)
        ensures
            r@ == param_arg_text(*self),
    {
        crate::text::copy_string(&self.conversion)
    }
}

/// The declared parameters.
pub fn render_params_decl(ps: &Vec<ParamView>) -> (r: String)
    ensures
        r@ == params_decl(ps@),
{
    let parts = render_all(ps, ParamView::render_decl, Ghost(|p: ParamView| param_decl_text(p)));
    join(&parts, ", ")
}

/// The arguments passed to `Native`.
pub fn render_params_args(ps: &Vec<ParamView>) -> (r: String)
    ensures
        r@ == params_args(ps@),
{
    let parts = render_all(ps, ParamView::render_arg, Ghost(|p: ParamView| param_arg_text(p)));
    join(&parts, ", ")
}

// ---------------------------------------------------------------------------
// Async functions
// ---------------------------------------------------------------------------

/// A `suspend fun` that drives a Rust future through `Native`.
pub struct AsyncFunctionTemplate {
    pub func_name: String,
    pub ffi_name: String,
    pub ffi_poll: String,
    pub ffi_complete: String,
    pub ffi_free: String,
    pub ffi_cancel: String,
    pub params: Vec<ParamView>,
    pub return_type: Option<String>,
    pub complete_expr: String,
    pub has_structured_error: bool,
    pub error_codec: String,
}

/// Whether `p` is the Kotlin parameter for a parameter of the given name and
/// type, converted the plain way.
pub open spec fn plain_param_of(p: ParamView, name: Seq<char>, t: Type) -> bool {
    &&& p.name@ == kotlin_member(name)
    &&& p.kotlin_type@ == kotlin_type(t)
    &&& p.conversion@ == param_to_ffi(kotlin_member(name), t)
}

/// The optional Kotlin type of a call's successful value.
pub open spec fn ok_kotlin_type(r: ReturnType) -> Option<Seq<char>> {
    match spec_ok_type(r) {
        Some(t) => Some(kotlin_type(t)),
        None => None,
    }
}

/// The view of an optional string.
pub open spec fn opt_text(o: Option<String>) -> Option<Seq<char>> {
    match o {
        Some(s) => Some(s@),
        None => None,
    }
}

/// Whether the error of a fallible result is an enumeration (decoded by
/// its codec).
pub open spec fn structured_error(r: ReturnType) -> Option<Seq<char>> {
    match r {
        ReturnType::Fallible { err, .. } => match err {
            Type::Enum(n) => Some(upper_camel_case(n@) + "Codec"@),
            _ => None,
        },
        _ => None,
    }
}

/// Whether `t` is the async template of `f`.
pub open spec fn async_function_of(t: AsyncFunctionTemplate, f: Function) -> bool {
    &&& t.func_name@ == kotlin_member(f.name@)
    &&& t.ffi_name@ == spec_function_ffi_name(f.name@)
    &&& t.ffi_poll@ == spec_function_ffi_name(f.name@) + "_poll"@
    &&& t.ffi_complete@ == spec_function_ffi_name(f.name@) + "_complete"@
    &&& t.ffi_free@ == spec_function_ffi_name(f.name@) + "_free"@
    &&& t.ffi_cancel@ == spec_function_ffi_name(f.name@) + "_cancel"@
    &&& t.params@.len() == f.inputs@.len()
    &&& (forall|i: int|
        0 <= i < t.params@.len() ==> plain_param_of(
            #[trigger] t.params@[i],
            f.inputs@[i].name@,
            f.inputs@[i].param_type,
        ))
    &&& opt_text(t.return_type) == ok_kotlin_type(f.returns)
    &&& t.complete_expr@ == complete_expr_of(f.returns, f.name@, None)
    &&& t.has_structured_error == structured_error(f.returns) is Some
    &&& t.error_codec@ == (match structured_error(f.returns) {
        Some(c) => c,
        None => ""@,
    })
}

/// The async function's text.
pub open spec fn async_function_text(t: AsyncFunctionTemplate) -> Seq<char> {
    "suspend fun "@ + t.func_name@ + "("@ + params_decl(t.params@) + "): "@ + (match t.return_type {
        Some(r) => r@,
        None => "Unit"@,
    }) + " {\n    val future = Native."@ + t.ffi_name@ + "("@ + params_args(t.params@)
        + ")\n    return pollFuture(\n        future,\n        poll = { f, cont -> Native."@ + t.ffi_poll@
        + "(f, cont) },\n        cancel = { Native."@ + t.ffi_cancel@
        + "(it) },\n        free = { Native."@ + t.ffi_free@ + "(it) },\n    ) { "@ + t.complete_expr@
        + " }\n}\n"@
}

/// The async function text of `f`.
pub open spec fn async_function_source(f: Function) -> Seq<char> {
    async_function_text(choose|t: AsyncFunctionTemplate| async_function_of(t, f))
}

/// Every async template of `f` renders to the same text.
pub proof fn lemma_async_function_text(t: AsyncFunctionTemplate, f: Function)
    requires
        async_function_of(t, f),
    ensures
        async_function_text(t) == async_function_source(f),
{
    let u = choose|u: AsyncFunctionTemplate| async_function_of(u, f);
    assert(t.params@.map_values(|p: ParamView| param_decl_text(p)) =~= u.params@.map_values(
        |p: ParamView| param_decl_text(p),
    ));
    assert(t.params@.map_values(|p: ParamView| param_arg_text(p)) =~= u.params@.map_values(
        |p: ParamView| param_arg_text(p),
    ));
}

/// The Kotlin parameters of a parameter list, converted the plain way.
pub(crate) fn plain_params(inputs: &Vec<Parameter>) -> (r: Vec<ParamView>)
    ensures
        r@.len() == inputs@.len(),
        forall|i: int|
            0 <= i < r@.len() ==> plain_param_of(
                #[trigger] r@[i],
                inputs@[i].name@,
                inputs@[i].param_type,
            ),
{
    let mut params: Vec<ParamView> = Vec::new();
    let mut i: usize = 0;
    while i < inputs.len()
        invariant
            i <= inputs@.len(),
            params@.len() == i,
            forall|k: int|
                0 <= k < i ==> plain_param_of(
                    #[trigger] params@[k],
                    inputs@[k].name@,
                    inputs@[k].param_type,
                ),
        decreases inputs@.len() - i,
    {
        let param = &inputs[i];
        let name = NamingConvention::param_name(param.name.as_str());
        let conversion = ParamConversion::to_ffi(name.as_str(), &param.param_type);
        params.push(
            ParamView { name, kotlin_type: TypeMapper::map_type(&param.param_type), conversion },
        );
        i = i + 1;
    }
    params
}

/// The Kotlin type of a call's successful value, if any.
pub fn ok_type_text(result: &ReturnType) -> (r: Option<String>)
    ensures
        opt_text(r) == ok_kotlin_type(*result),
{
    match result.ok_type() {
        Some(t) => Some(TypeMapper::map_type(t)),
        None => None,
    }
}

impl AsyncFunctionTemplate {
    /// The async template of a function.
    pub fn from_function(function: &Function, _module: &Module) -> (r: Self)
        ensures
            async_function_of(r, *function),
    {
        let name = function.name.as_str();
        let params = plain_params(&function.inputs);
        let complete_expr = Self::generate_complete_expr_for_returns(&function.returns, name, None);
        let (has_structured_error, error_codec) = match &function.returns {
            ReturnType::Fallible { err, .. } => match err {
                Type::Enum(n) => {
                    let c = NamingConvention::class_name(n.as_str());
                    (true, concat2(c.as_str(), "Codec"))
                },
                _ => (false, string_of("")),
            },
            _ => (false, string_of("")),
        };
        Self {
            func_name: NamingConvention::method_name(name),
            ffi_name: function_ffi_name(name),
            ffi_poll: function_ffi_poll(name),
            ffi_complete: function_ffi_complete(name),
            ffi_free: function_ffi_free(name),
            ffi_cancel: function_ffi_cancel(name),
            params,
            return_type: ok_type_text(&function.returns),
            complete_expr,
            has_structured_error,
            error_codec,
        }
    }

    /// The list built from a JNI array of `primitive` returned by `call`.
    pub fn vec_primitive_conversion(call: &str, primitive: &Primitive) -> (r: String)
        ensures
            r@ == vec_primitive_conversion_of(call@, *primitive),
    {
        match info(*primitive).vec_to_unsigned {
            Some(conv) => concat4("(", call, ").", conv),
            None => concat3("(", call, ").toList()"),
        }
    }

    /// The expression that completes an async call of `func_name` (a method
    /// of `class_name` when given).
    pub fn generate_complete_expr_for_returns(
        result: &ReturnType,
        func_name: &str,
        class_name: Option<&str>,
    ) -> (r: String)
        ensures
            r@ == complete_expr_of(
                *result,
                func_name@,
                match class_name {
                    Some(c) => Some(c@),
                    None => None,
                },
            ),
    {
        let ffi_complete = match class_name {
            Some(class) => method_ffi_complete(class, func_name),
            None => function_ffi_complete(func_name),
        };
        let args = match class_name {
            Some(_) => "handle, future",
            None => "future",
        };
        let call = concat4("Native.", ffi_complete.as_str(), "(", args);
        let call = concat2(call.as_str(), ")");
        match result {
            ReturnType::Void => call,
            ReturnType::Value(ty) => Self::apply_type_conversion(call.as_str(), ty),
            ReturnType::Fallible { ok, .. } => Self::apply_type_conversion(call.as_str(), ok),
        }
    }

    /// The Kotlin value of type `ty` from the JNI result of `call`.
    pub fn apply_type_conversion(call: &str, ty: &Type) -> (r: String)
        ensures
            r@ == type_conversion(call@, *ty),
    {
        match ty {
            Type::Void => string_of(call),
            Type::Primitive(p) => Self::apply_unsigned_conversion(call, p),
            Type::String => concat2(call, " ?: throw FfiException(-1, \"Null string\")"),
            Type::Vec(inner) => {
                let null_check = concat2(call, " ?: throw FfiException(-1, \"Null array\")");
                match &**inner {
                    Type::Primitive(p) => Self::vec_primitive_conversion(null_check.as_str(), p),
                    _ => null_check,
                }
            },
            Type::Record(name) => {
                let class = NamingConvention::class_name(name.as_str());
                let mut r = concat3(
                    "useNativeBuffer(",
                    call,
                    " ?: throw FfiException(-1, \"Null record\")) { buf -> buf.order(ByteOrder.nativeOrder()); ",
                );
                push_str(&mut r, class.as_str());
                push_str(&mut r, "Reader.read(buf, 0) }");
                r
            },
            _ => string_of(call),
        }
    }

    /// `call` followed by the conversion to an unsigned value, if any.
    pub fn apply_unsigned_conversion(call: &str, p: &Primitive) -> (r: String)
        ensures
            r@ == unsigned_conversion(call@, *p),
    {
        match info(*p).to_unsigned {
            Some(conv) => concat3(call, ".", conv),
            None => string_of(call),
        }
    }

    /// The async function's text.
    pub fn render(&self) -> (r: String)
        ensures
            r@ == async_function_text(*self),
    {
        let decl = render_params_decl(&self.params);
        let args = render_params_args(&self.params);
        let mut r = concat4("suspend fun ", self.func_name.as_str(), "(", decl.as_str());
        push_str(&mut r, "): ");
        match &self.return_type {
            Some(t) => push_str(&mut r, t.as_str()),
            None => push_str(&mut r, "Unit"),
        }
        push_str(&mut r, " {\n    val future = Native.");
        push_str(&mut r, self.ffi_name.as_str());
        push_str(&mut r, "(");
        push_str(&mut r, args.as_str());
        push_str(&mut r, ")\n    return pollFuture(\n        future,\n        poll = { f, cont -> Native.");
        push_str(&mut r, self.ffi_poll.as_str());
        push_str(&mut r, "(f, cont) },\n        cancel = { Native.");
        push_str(&mut r, self.ffi_cancel.as_str());
        push_str(&mut r, "(it) },\n        free = { Native.");
        push_str(&mut r, self.ffi_free.as_str());
        push_str(&mut r, "(it) },\n    ) { ");
        push_str(&mut r, self.complete_expr.as_str());
        push_str(&mut r, " }\n}\n");
        r
    }
}

// ---------------------------------------------------------------------------
// Synchronous functions
// ---------------------------------------------------------------------------

/// A Kotlin function that calls its `Native` counterpart and converts the
/// result.
pub struct FunctionTemplate {
    pub func_name: String,
    pub ffi_name: String,
    pub prefix: String,
    pub params: Vec<ParamView>,
    pub return_type: Option<String>,
    pub enum_name: Option<String>,
    pub enum_codec_name: Option<String>,
    pub enum_is_data: bool,
    pub is_async: bool,
    pub body: String,
}

/// The argument passed to `Native` for a parameter: a data-carrying
/// enumeration is packed by its codec, anything else converted the plain way.
pub open spec fn sync_param_conversion(name: Seq<char>, t: Type, enums: Seq<Enumeration>) -> Seq<char> {
    match t {
        Type::Enum(n) => if spec_enum_is_data(enums, n@) {
            upper_camel_case(n@) + "Codec.pack("@ + name + ")"@
        } else {
            param_to_ffi(name, t)
        },
        _ => param_to_ffi(name, t),
    }
}

/// Whether `p` is the Kotlin parameter of `param` in a synchronous function.
pub open spec fn sync_param_of(p: ParamView, param: Parameter, enums: Seq<Enumeration>) -> bool {
    &&& p.name@ == kotlin_member(param.name@)
    &&& p.kotlin_type@ == kotlin_type(param.param_type)
    &&& p.conversion@ == sync_param_conversion(kotlin_member(param.name@), param.param_type, enums)
}

/// The Kotlin value of type `t` from the result of a synchronous `call`.
pub open spec fn sync_value_expr(call: Seq<char>, t: Type, enums: Seq<Enumeration>) -> Seq<char> {
    match t {
        Type::Enum(n) => if spec_enum_is_data(enums, n@) {
            upper_camel_case(n@) + "Codec.read(ByteBuffer.wrap("@ + call
                + ").order(ByteOrder.nativeOrder()), 0)"@
        } else {
            upper_camel_case(n@) + ".fromValue("@ + call + ")"@
        },
        Type::Option(inner) => match *inner {
            Type::Primitive(p) => match to_unsigned(p) {
                Some(c) => call + "?."@ + c,
                None => call,
            },
            _ => call,
        },
        _ => type_conversion(call, t),
    }
}

/// The body of a synchronous function around `call`: the call alone when
/// nothing comes back, else `return` and the converted value.
pub open spec fn sync_body(call: Seq<char>, r: ReturnType, enums: Seq<Enumeration>) -> Seq<char> {
    match spec_ok_type(r) {
        Some(t) => if t is Void {
            call
        } else {
            "return "@ + sync_value_expr(call, t, enums)
        },
        None => call,
    }
}

/// The enumeration a function returns on success, if any.
pub open spec fn returned_enum(r: ReturnType) -> Option<String> {
    match spec_ok_type(r) {
        Some(t) => match t {
            Type::Enum(n) => Some(n),
            _ => None,
        },
        None => None,
    }
}

/// Whether `t` is the synchronous template of `f` in `m`.
pub open spec fn function_of(t: FunctionTemplate, f: Function, m: Module) -> bool {
    &&& t.func_name@ == kotlin_member(f.name@)
    &&& t.ffi_name@ == spec_function_ffi_name(f.name@)
    &&& t.prefix@ == spec_ffi_prefix()
    &&& t.params@.len() == f.inputs@.len()
    &&& (forall|i: int|
        0 <= i < t.params@.len() ==> sync_param_of(#[trigger] t.params@[i], f.inputs@[i], m.enums@))
    &&& opt_text(t.return_type) == ok_kotlin_type(f.returns)
    &&& opt_text(t.enum_name) == (match returned_enum(f.returns) {
        Some(n) => Some(upper_camel_case(n@)),
        None => None,
    })
    &&& t.enum_is_data == (match returned_enum(f.returns) {
        Some(n) => spec_enum_is_data(m.enums@, n@),
        None => false,
    })
    &&& opt_text(t.enum_codec_name) == (match returned_enum(f.returns) {
        Some(n) => if spec_enum_is_data(m.enums@, n@) {
            Some(upper_camel_case(n@) + "Codec"@)
        } else {
            None
        },
        None => None,
    })
    &&& t.is_async == f.is_async
    &&& t.body@ == sync_body(
        "Native."@ + spec_function_ffi_name(f.name@) + "("@ + params_args(t.params@) + ")"@,
        f.returns,
        m.enums@,
    )
}

/// The function's text.
pub open spec fn function_text(t: FunctionTemplate) -> Seq<char> {
    "fun "@ + t.func_name@ + "("@ + params_decl(t.params@) + ")"@ + (match t.return_type {
        Some(r) => ": "@ + r@,
        None => ""@,
    }) + " {\n    "@ + t.body@ + "\n}\n"@
}

/// The function text of `f` in `m`.
pub open spec fn function_source(f: Function, m: Module) -> Seq<char> {
    function_text(choose|t: FunctionTemplate| function_of(t, f, m))
}

/// Every synchronous template of `f` in `m` renders to the same text.
pub proof fn lemma_function_text(t: FunctionTemplate, f: Function, m: Module)
    requires
        function_of(t, f, m),
    ensures
        function_text(t) == function_source(f, m),
{
    let u = choose|u: FunctionTemplate| function_of(u, f, m);
    assert(t.params@.map_values(|p: ParamView| param_decl_text(p)) =~= u.params@.map_values(
        |p: ParamView| param_decl_text(p),
    ));
    assert(t.params@.map_values(|p: ParamView| param_arg_text(p)) =~= u.params@.map_values(
        |p: ParamView| param_arg_text(p),
    ));
}

/// The Kotlin parameters of a synchronous function.
fn sync_params(inputs: &Vec<Parameter>, module: &Module) -> (r: Vec<ParamView>)
    ensures
        r@.len() == inputs@.len(),
        forall|i: int|
            0 <= i < r@.len() ==> sync_param_of(#[trigger] r@[i], inputs@[i], module.enums@),
{
    let mut params: Vec<ParamView> = Vec::new();
    let mut i: usize = 0;
    while i < inputs.len()
        invariant
            i <= inputs@.len(),
            params@.len() == i,
            forall|k: int|
                0 <= k < i ==> sync_param_of(#[trigger] params@[k], inputs@[k], module.enums@),
        decreases inputs@.len() - i,
    {
        let param = &inputs[i];
        let name = NamingConvention::param_name(param.name.as_str());
        let conversion = match &param.param_type {
            Type::Enum(enum_name) => {
                if module.enum_is_data(enum_name) {
                    let class = NamingConvention::class_name(enum_name.as_str());
                    concat4(class.as_str(), "Codec.pack(", name.as_str(), ")")
                } else {
                    ParamConversion::to_ffi(name.as_str(), &param.param_type)
                }
            },
            _ => ParamConversion::to_ffi(name.as_str(), &param.param_type),
        };
        params.push(
            ParamView { name, kotlin_type: TypeMapper::map_type(&param.param_type), conversion },
        );
        i = i + 1;
    }
    params
}

/// The Kotlin value of type `ty` from the result of a synchronous `call`.
pub fn sync_value(call: &str, ty: &Type, module: &Module) -> (r: String)
    ensures
        r@ == sync_value_expr(call@, *ty, module.enums@),
{
    match ty {
        Type::Enum(n) => {
            let class = NamingConvention::class_name(n.as_str());
            if module.enum_is_data(n) {
                let mut r = concat3(class.as_str(), "Codec.read(ByteBuffer.wrap(", call);
                push_str(&mut r, ").order(ByteOrder.nativeOrder()), 0)");
                r
            } else {
                concat4(class.as_str(), ".fromValue(", call, ")")
            }
        },
        Type::Option(inner) => match &**inner {
            Type::Primitive(p) => match info(*p).to_unsigned {
                Some(c) => concat3(call, "?.", c),
                None => string_of(call),
            },
            _ => string_of(call),
        },
        _ => AsyncFunctionTemplate::apply_type_conversion(call, ty),
    }
}

impl FunctionTemplate {
    /// The synchronous template of a function.
    pub fn from_function(function: &Function, module: &Module) -> (r: Self)
        ensures
            function_of(r, *function, *module),
    {
        let name = function.name.as_str();
        let ffi_name = function_ffi_name(name);
        let params = sync_params(&function.inputs, module);
        let (enum_name, enum_is_data) = match function.returns.ok_type() {
            Some(Type::Enum(n)) => (
                Some(NamingConvention::class_name(n.as_str())),
                module.enum_is_data(n),
            ),
            _ => (None, false),
        };
        let enum_codec_name = match &enum_name {
            Some(n) => if enum_is_data {
                Some(concat2(n.as_str(), "Codec"))
            } else {
                None
            },
            None => None,
        };
        let args = render_params_args(&params);
        let call = concat4("Native.", ffi_name.as_str(), "(", args.as_str());
        let call = concat2(call.as_str(), ")");
        let body = match function.returns.ok_type() {
            Some(t) => if t.is_void() {
                call
            } else {
                let value = sync_value(call.as_str(), t, module);
                concat2("return ", value.as_str())
            },
            None => call,
        };
        Self {
            func_name: NamingConvention::method_name(name),
            ffi_name,
            prefix: string_of(ffi_prefix()),
            params,
            return_type: ok_type_text(&function.returns),
            enum_name,
            enum_codec_name,
            enum_is_data,
            is_async: function.is_async,
            body,
        }
    }

    /// The function's text.
    pub fn render(&self) -> (r: String)
        ensures
            r@ == function_text(*self),
    {
        let decl = render_params_decl(&self.params);
        let mut r = concat4("fun ", self.func_name.as_str(), "(", decl.as_str());
        push_str(&mut r, ")");
        match &self.return_type {
            Some(t) => {
                push_str(&mut r, ": ");
                push_str(&mut r, t.as_str());
            },
            None => push_str(&mut r, ""),
        }
        push_str(&mut r, " {\n    ");
        push_str(&mut r, self.body.as_str());
        push_str(&mut r, "\n}\n");
        r
    }
}

/// `call` is part of `a + call + b`.
proof fn lemma_call_between(a: Seq<char>, call: Seq<char>, b: Seq<char>, whole: Seq<char>)
    requires
        whole =~= a + call + b,
    ensures
        occurs_in(whole, call),
{
    lemma_occurs_middle(a, call, b);
}

/// Every conversion of a JNI result keeps the call that produced it.
proof fn lemma_conversion_keeps_call(call: Seq<char>, t: Type)
    ensures
        occurs_in(type_conversion(call, t), call),
{
    let r = type_conversion(call, t);
    match t {
        Type::Primitive(p) => match to_unsigned(p) {
            Some(c) => lemma_call_between(Seq::empty(), call, "."@ + c, r),
            None => lemma_call_between(Seq::empty(), call, Seq::empty(), r),
        },
        Type::String => lemma_call_between(Seq::empty(), call, " ?: throw FfiException(-1, \"Null string\")"@, r),
        Type::Vec(inner) => {
            let null_check = call + " ?: throw FfiException(-1, \"Null array\")"@;
            lemma_call_between(Seq::empty(), call, " ?: throw FfiException(-1, \"Null array\")"@, null_check);
            match *inner {
                Type::Primitive(p) => {
                    match vec_to_unsigned(p) {
                        Some(c) => lemma_call_between("("@, null_check, ")."@ + c, r),
                        None => lemma_call_between("("@, null_check, ").toList()"@, r),
                    }
                    lemma_occurs_trans(call, null_check, r);
                },
                _ => {},
            }
        },
        Type::Record(n) => lemma_call_between(
            "useNativeBuffer("@,
            call,
            " ?: throw FfiException(-1, \"Null record\")) { buf -> buf.order(ByteOrder.nativeOrder()); "@
                + upper_camel_case(n@) + "Reader.read(buf, 0) }"@,
            r,
        ),
        _ => lemma_call_between(Seq::empty(), call, Seq::empty(), r),
    }
}

/// The body of a synchronous wrapper contains its call.
proof fn lemma_body_keeps_call(call: Seq<char>, r: ReturnType, enums: Seq<Enumeration>)
    ensures
        occurs_in(sync_body(call, r, enums), call),
{
    let b = sync_body(call, r, enums);
    match spec_ok_type(r) {
        Some(t) => if t is Void {
            lemma_call_between(Seq::empty(), call, Seq::empty(), b);
        } else {
            let v = sync_value_expr(call, t, enums);
            match t {
                Type::Enum(n) => if spec_enum_is_data(enums, n@) {
                    lemma_call_between(
                        upper_camel_case(n@) + "Codec.read(ByteBuffer.wrap("@,
                        call,
                        ").order(ByteOrder.nativeOrder()), 0)"@,
                        v,
                    );
                } else {
                    lemma_call_between(upper_camel_case(n@) + ".fromValue("@, call, ")"@, v);
                },
                Type::Option(inner) => match *inner {
                    Type::Primitive(p) => match to_unsigned(p) {
                        Some(c) => lemma_call_between(Seq::empty(), call, "?."@ + c, v),
                        None => lemma_call_between(Seq::empty(), call, Seq::empty(), v),
                    },
                    _ => lemma_call_between(Seq::empty(), call, Seq::empty(), v),
                },
                _ => lemma_conversion_keeps_call(call, t),
            }
            lemma_call_between("return "@, v, Seq::empty(), b);
            lemma_occurs_trans(call, v, b);
        },
        None => lemma_call_between(Seq::empty(), call, Seq::empty(), b),
    }
}

/// The wrapper of a synchronous function calls the function's native
/// symbol, `Native.riff_<name>(`.
pub proof fn lemma_function_calls_native(t: FunctionTemplate, f: Function, m: Module)
    requires
        function_of(t, f, m),
    ensures
        occurs_in(function_source(f, m), "Native."@ + spec_function_ffi_name(f.name@) + "("@),
{
    lemma_function_text(t, f, m);
    let target = "Native."@ + spec_function_ffi_name(f.name@) + "("@;
    let call = target + params_args(t.params@) + ")"@;
    lemma_call_between(Seq::empty(), target, params_args(t.params@) + ")"@, call);
    lemma_body_keeps_call(call, f.returns, m.enums@);
    lemma_occurs_trans(target, call, t.body@);
    let head = "fun "@ + t.func_name@ + "("@ + params_decl(t.params@) + ")"@ + (match t.return_type {
        Some(r) => ": "@ + r@,
        None => ""@,
    }) + " {\n    "@;
    lemma_call_between(head, t.body@, "\n}\n"@, function_text(t));
    lemma_occurs_trans(target, t.body@, function_text(t));
}

} // verus!
