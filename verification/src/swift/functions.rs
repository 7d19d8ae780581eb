//! The views of free functions and callback traits that the Swift
//! templates are filled from.

use vstd::prelude::*;
use crate::case::{snake_case, upper_camel_case};
use crate::model::{
    spec_has_return_value, spec_ok_type, CallbackTrait, Function, Module, Parameter, ReturnType,
    TraitMethod, TraitMethodParam, Type,
};
use crate::naming::{
    callback_create_fn, callback_foreign_name, callback_register_fn, callback_vtable_name,
    ffi_prefix, function_ffi_cancel, function_ffi_complete, function_ffi_free, function_ffi_name,
    function_ffi_poll, spec_ffi_prefix, spec_function_ffi_name, to_snake,
};
use crate::text::{
    ascii_lower, chars_of, concat2, concat3, copy_string, flat_map, push_char, push_str,
    replace_all, seq_join, string_of, to_ascii_lower, views,
};
use super::abi::{return_abi_of, ReturnAbi};
use super::conversion::{
    callback_info_of, closure_filter, param_info_of, CallbackInfo, ParamInfo, ParamsInfo,
    ReturnInfo,
};
use super::marshal::opt_view;
use super::names::{swift_member, NamingConvention};
use super::templates::{
    call_parts, closure_param, non_closure, param_args_fn, param_close_fn, param_open_fn, param_pairs,
};
use super::types::{swift_type_text, TypeMapper};

verus! {

/// What the template of a free function is filled from.
pub struct FunctionTemplate {
    pub prefix: String,
    pub func_name: String,
    pub ffi_name: String,
    pub params: Vec<ParamInfo>,
    pub return_type: Option<String>,
    pub return_abi: ReturnAbi,
    pub direct_call: String,
    pub is_async: bool,
    pub throws: bool,
    pub has_callbacks: bool,
    pub callbacks: Vec<CallbackInfo>,
    pub ffi_poll: String,
    pub ffi_complete: String,
    pub ffi_free: String,
    pub ffi_cancel: String,
    pub wrappers_open: String,
    pub wrappers_close: String,
    pub ffi_args: String,
    pub callback_args: String,
}

/// The Swift type a function declares it returns: none for nothing (or a
/// fallible call without value), else the (success) value's type.
pub open spec fn function_return_text(rt: ReturnType) -> Option<Seq<char>> {
    match rt {
        ReturnType::Void => None,
        ReturnType::Value(t) => if t is Void {
            None
        } else {
            Some(swift_type_text(t))
        },
        ReturnType::Fallible { ok, .. } => if ok is Void {
            None
        } else {
            Some(swift_type_text(ok))
        },
    }
}

/// The call of the C symbol, converted as the result's ABI asks.
pub open spec fn direct_call_text(abi: ReturnAbi, call: Seq<char>) -> Seq<char> {
    match abi {
        ReturnAbi::Direct { conversion: Some(c), .. } => replace_all(c@, "$0"@, call),
        _ => call,
    }
}

/// The trampoline and context pointer passed for each closure argument.
pub open spec fn callback_args_text(cbs: Seq<CallbackInfo>) -> Seq<char> {
    seq_join(cbs.map_values(|cb: CallbackInfo| cb.trampoline_name@ + ", "@ + cb.ptr_name@), ", "@)
}

/// The name and type of each parameter.
pub open spec fn pairs_of<'a>(ps: Seq<Parameter>) -> Seq<(Seq<char>, Type)> {
    ps.map_values(|p: Parameter| (p.name@, p.param_type))
}

/// Whether `t` is the view of function `f` in module `m`.
pub open spec fn function_template_of(t: FunctionTemplate, f: Function, m: Module) -> bool {
    let ps = f.inputs@.filter(non_closure());
    let closures = f.inputs@.filter(closure_param());
    &&& t.prefix@ == spec_ffi_prefix()
    &&& t.func_name@ == swift_member(f.name@)
    &&& t.ffi_name@ == spec_function_ffi_name(f.name@)
    &&& t.params@.len() == f.inputs@.len()
    &&& (forall|i: int|
        0 <= i < t.params@.len() ==> param_info_of(
            #[trigger] t.params@[i],
            f.inputs@[i].name@,
            f.inputs@[i].param_type,
        ))
    &&& opt_view(t.return_type) == function_return_text(f.returns)
    &&& return_abi_of(t.return_abi, f.returns, m)
    &&& t.direct_call@ == direct_call_text(t.return_abi, t.ffi_name@ + "("@ + t.ffi_args@ + ")"@)
    &&& t.is_async == f.is_async
    &&& t.throws == (f.returns is Fallible)
    &&& t.callbacks@.len() == closures.len()
    &&& (forall|k: int|
        0 <= k < t.callbacks@.len() ==> match closures[k].param_type {
            Type::Closure(sig) => callback_info_of(
                #[trigger] t.callbacks@[k],
                closures[k].name@,
                sig.params@,
                upper_camel_case(f.name@),
                k as nat,
            ),
            _ => false,
        })
    &&& t.has_callbacks == (closures.len() > 0)
    &&& t.ffi_poll@ == spec_function_ffi_name(f.name@) + "_poll"@
    &&& t.ffi_complete@ == spec_function_ffi_name(f.name@) + "_complete"@
    &&& t.ffi_free@ == spec_function_ffi_name(f.name@) + "_free"@
    &&& t.ffi_cancel@ == spec_function_ffi_name(f.name@) + "_cancel"@
    &&& t.wrappers_open@ == seq_join(flat_map(ps, param_open_fn()), "\n"@)
    &&& t.wrappers_close@ == seq_join(flat_map(ps, param_close_fn()).reverse(), "\n"@)
    &&& t.ffi_args@ == seq_join(flat_map(ps, param_args_fn()), ", "@)
    &&& t.callback_args@ == callback_args_text(t.callbacks@)
}

/// The trampoline and context pointer of each closure argument, joined.
fn callback_args(cbs: &Vec<CallbackInfo>) -> (r: String)
    ensures
        r@ == callback_args_text(cbs@),
{
    let mut parts: Vec<String> = Vec::new();
    let mut i: usize = 0;
    while i < cbs.len()
        invariant
            i <= cbs@.len(),
            views(parts@) =~= cbs@.take(i as int).map_values(
                |cb: CallbackInfo| cb.trampoline_name@ + ", "@ + cb.ptr_name@,
            ),
        decreases cbs@.len() - i,
    {
        let cb = &cbs[i];
        let ghost before = parts@;
        parts.push(concat3(cb.trampoline_name.as_str(), ", ", cb.ptr_name.as_str()));
        proof {
            assert(views(parts@) =~= views(before).push(cb.trampoline_name@ + ", "@ + cb.ptr_name@));
            assert(cbs@.take(i + 1) =~= cbs@.take(i as int).push(cbs@[i as int]));
        }
        i = i + 1;
    }
    assert(cbs@.take(i as int) =~= cbs@);
    crate::text::join(&parts, ", ")
}

impl FunctionTemplate {
    /// The view of function `function` in `module`.
    pub fn from_function(function: &Function, module: &Module) -> (r: Self)
        ensures
            function_template_of(r, *function, *module),
    {
        let ret = ReturnInfo::from_return_type(&function.returns);
        let func_name_pascal = NamingConvention::class_name(function.name.as_str());
        let all = param_pairs(&function.inputs, false);
        let params_info = ParamsInfo::from_inputs(&all, func_name_pascal.as_str());
        let ffi_name = function_ffi_name(function.name.as_str());
        let plain = param_pairs(&function.inputs, true);
        let (wrappers_open, wrappers_close, ffi_args) = call_parts(
            &plain,
            false,
            Ghost(function.inputs@.filter(non_closure())),
        );
        let callback_args = callback_args(&params_info.callbacks);
        let return_type = if ret.is_void {
            None
        } else if ret.is_result {
            match &ret.result_ok_type {
                Some(t) => Some(copy_string(t)),
                None => None,
            }
        } else {
            match &ret.swift_type {
                Some(t) => Some(copy_string(t)),
                None => None,
            }
        };
        let return_abi = ReturnAbi::from_return_type(&function.returns, module);
        let call = concat3(ffi_name.as_str(), "(", ffi_args.as_str());
        let mut call = call;
        push_str(&mut call, ")");
        let direct_call = return_abi.direct_call_expr(call.as_str());
        proof {
            crate::text::lemma_filter_corresponds(
                all@,
                closure_filter(),
                function.inputs@,
                closure_param(),
                |a: (&str, &Type), p: Parameter| a.0@ == p.name@ && *a.1 == p.param_type,
            );
            assert(Seq::<Seq<char>>::empty() + flat_map(
                function.inputs@.filter(non_closure()),
                param_args_fn(),
            ) =~= flat_map(function.inputs@.filter(non_closure()), param_args_fn()));
        }
        let throws = function.throws() || ret.is_result;
        FunctionTemplate {
            prefix: string_of(ffi_prefix()),
            func_name: NamingConvention::method_name(function.name.as_str()),
            ffi_name,
            params: params_info.params,
            return_type,
            return_abi,
            direct_call,
            is_async: function.is_async,
            throws,
            has_callbacks: params_info.has_callbacks,
            callbacks: params_info.callbacks,
            ffi_poll: function_ffi_poll(function.name.as_str()),
            ffi_complete: function_ffi_complete(function.name.as_str()),
            ffi_free: function_ffi_free(function.name.as_str()),
            ffi_cancel: function_ffi_cancel(function.name.as_str()),
            wrappers_open,
            wrappers_close,
            ffi_args,
            callback_args,
        }
    }

    /// Whether buffers are pinned around the call.
    pub fn has_wrappers(&self) -> (r: bool)
        ensures
            r == (self.wrappers_open@.len() > 0),
    {
        !self.wrappers_open.as_str().is_empty()
    }
}

/// What the template of a callback trait is filled from: the protocol, its
/// wrapper, vtable and bridge names, the C symbols, and each method.
pub struct CallbackTraitTemplate {
    pub doc: Option<String>,
    pub protocol_name: String,
    pub wrapper_class: String,
    pub vtable_var: String,
    pub vtable_type: String,
    pub bridge_name: String,
    pub foreign_type: String,
    pub register_fn: String,
    pub create_fn: String,
    pub methods: Vec<TraitMethodView>,
}

/// A method of a callback trait.
pub struct TraitMethodView {
    pub swift_name: String,
    pub ffi_name: String,
    pub params: Vec<TraitParamView>,
    pub return_type: Option<String>,
    pub is_async: bool,
    pub throws: bool,
    pub has_return: bool,
    pub has_out_param: bool,
    pub wire_encoded_return: bool,
}

/// A parameter of a callback trait's method.
pub struct TraitParamView {
    pub label: String,
    pub ffi_name: String,
    pub swift_type: String,
    pub conversion: String,
}

/// `s` with its first character turned into its ASCII small letter.
pub open spec fn lower_first(s: Seq<char>) -> Seq<char> {
    if s.len() == 0 {
        s
    } else {
        seq![ascii_lower(s[0])] + s.drop_first()
    }
}

/// `name` with its first character turned into its ASCII small letter.
pub fn to_camel_case(name: &str) -> (r: String)
    ensures
        r@ == lower_first(name@),
{
    let cs = chars_of(name);
    let mut r = String::new();
    let mut i: usize = 0;
    while i < cs.len()
        invariant
            i <= cs@.len(),
            cs@ == name@,
            i == 0 ==> r@ == Seq::<char>::empty(),
            i > 0 ==> r@ == seq![ascii_lower(cs@[0])] + cs@.subrange(1, i as int),
        decreases cs@.len() - i,
    {
        if i == 0 {
            push_char(&mut r, to_ascii_lower(cs[i]));
            assert(r@ =~= seq![ascii_lower(cs@[0])] + cs@.subrange(1, 1));
        } else {
            push_char(&mut r, cs[i]);
            assert(r@ =~= seq![ascii_lower(cs@[0])] + cs@.subrange(1, i + 1));
        }
        i = i + 1;
    }
    proof {
        if cs@.len() > 0 {
            assert(cs@.subrange(1, cs@.len() as int) =~= cs@.drop_first());
        }
    }
    r
}

/// Whether `v` is the view of parameter `p`.
pub open spec fn trait_param_of(v: TraitParamView, p: TraitMethodParam) -> bool {
    &&& v.label@ == swift_member(p.name@)
    &&& v.ffi_name@ == p.name@
    &&& v.swift_type@ == swift_type_text(p.param_type)
    &&& v.conversion@ == p.name@
}

/// Whether the result crosses as encoded bytes: a record, a string or a
/// vector.
pub open spec fn is_wire_encoded_return(rt: ReturnType) -> bool {
    match spec_ok_type(rt) {
        Some(t) => t is Record || t is String || t is Vec,
        None => false,
    }
}

/// Whether `v` is the view of trait method `m`.
pub open spec fn trait_method_of(v: TraitMethodView, m: TraitMethod) -> bool {
    &&& v.swift_name@ == swift_member(m.name@)
    &&& v.ffi_name@ == snake_case(m.name@)
    &&& v.params@.len() == m.inputs@.len()
    &&& (forall|i: int| 0 <= i < v.params@.len() ==> trait_param_of(#[trigger] v.params@[i], m.inputs@[i]))
    &&& opt_view(v.return_type) == (match spec_ok_type(m.returns) {
        Some(t) => Some(swift_type_text(t)),
        None => None,
    })
    &&& v.is_async == m.is_async
    &&& v.throws == (m.returns is Fallible)
    &&& v.has_return == spec_has_return_value(m.returns)
    &&& v.has_out_param == (spec_has_return_value(m.returns) && !m.is_async)
    &&& v.wire_encoded_return == is_wire_encoded_return(m.returns)
}

/// Whether `t` is the view of callback trait `c`.
pub open spec fn callback_trait_template_of(t: CallbackTraitTemplate, c: CallbackTrait) -> bool {
    let n = c.name@;
    &&& opt_view(t.doc) == opt_view(c.doc)
    &&& t.protocol_name@ == n + "Protocol"@
    &&& t.wrapper_class@ == n + "Wrapper"@
    &&& t.vtable_var@ == lower_first(n) + "VTableInstance"@
    &&& t.vtable_type@ == upper_camel_case(n) + "VTable"@
    &&& t.bridge_name@ == n + "Bridge"@
    &&& t.foreign_type@ == "Foreign"@ + upper_camel_case(n)
    &&& t.register_fn@ == spec_ffi_prefix() + "_register_"@ + snake_case(n) + "_vtable"@
    &&& t.create_fn@ == spec_ffi_prefix() + "_create_"@ + snake_case(n) + "_handle"@
    &&& t.methods@.len() == c.methods@.len()
    &&& forall|i: int| 0 <= i < t.methods@.len() ==> trait_method_of(#[trigger] t.methods@[i], c.methods@[i])
}

impl TraitMethodView {
    /// The view of trait method `method`.
    pub fn from_method(method: &TraitMethod) -> (r: Self)
        ensures
            trait_method_of(r, *method),
    {
        let mut params: Vec<TraitParamView> = Vec::new();
        let mut i: usize = 0;
        while i < method.inputs.len()
            invariant
                i <= method.inputs@.len(),
                params@.len() == i,
                forall|k: int| 0 <= k < i ==> trait_param_of(#[trigger] params@[k], method.inputs@[k]),
            decreases method.inputs@.len() - i,
        {
            let p = &method.inputs[i];
            params.push(TraitParamView {
                label: NamingConvention::param_name(p.name.as_str()),
                ffi_name: copy_string(&p.name),
                swift_type: TypeMapper::map_type(&p.param_type),
                conversion: copy_string(&p.name),
            });
            i = i + 1;
        }
        let has_return = method.has_return();
        let return_type = match method.returns.ok_type() {
            Some(t) => Some(TypeMapper::map_type(t)),
            None => None,
        };
        let wire_encoded_return = match method.returns.ok_type() {
            Some(t) => matches!(t, Type::Record(_) | Type::String | Type::Vec(_)),
            None => false,
        };
        TraitMethodView {
            swift_name: NamingConvention::method_name(method.name.as_str()),
            ffi_name: to_snake(method.name.as_str()),
            params,
            return_type,
            is_async: method.is_async,
            throws: method.throws(),
            has_return,
            has_out_param: has_return && !method.is_async,
            wire_encoded_return,
        }
    }
}

impl CallbackTraitTemplate {
    /// The view of callback trait `callback_trait`.
    pub fn from_trait(callback_trait: &CallbackTrait, _module: &Module) -> (r: Self)
        ensures
            callback_trait_template_of(r, *callback_trait),
    {
        let n = callback_trait.name.as_str();
        let mut methods: Vec<TraitMethodView> = Vec::new();
        let mut i: usize = 0;
        while i < callback_trait.methods.len()
            invariant
                i <= callback_trait.methods@.len(),
                methods@.len() == i,
                forall|k: int|
                    0 <= k < i ==> trait_method_of(#[trigger] methods@[k], callback_trait.methods@[k]),
            decreases callback_trait.methods@.len() - i,
        {
            methods.push(TraitMethodView::from_method(&callback_trait.methods[i]));
            i = i + 1;
        }
        let doc = match &callback_trait.doc {
            Some(d) => Some(copy_string(d)),
            None => None,
        };
        let camel = to_camel_case(n);
        CallbackTraitTemplate {
            doc,
            protocol_name: concat2(n, "Protocol"),
            wrapper_class: concat2(n, "Wrapper"),
            vtable_var: concat2(camel.as_str(), "VTableInstance"),
            vtable_type: callback_vtable_name(n),
            bridge_name: concat2(n, "Bridge"),
            foreign_type: callback_foreign_name(n),
            register_fn: callback_register_fn(n),
            create_fn: callback_create_fn(n),
            methods,
        }
    }
}

} // verus!
