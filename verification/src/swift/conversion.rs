//! What the Swift templates need to know of a call's result, parameters and
//! closure arguments.

use vstd::prelude::*;
use crate::case::upper_camel_case;
use crate::model::{ReturnType, Type};
use crate::text::{
    concat2, concat3, concat4, join, lemma_filter_step, nat_text, seq_join, string_of,
    usize_text, views,
};
use super::marshal::opt_view;
use super::names::{swift_member, NamingConvention};
use super::types::{ffi_type_text, swift_type_text, TypeMapper};

verus! {

/// What a template needs to know of a call's result.
pub struct ReturnInfo {
    pub swift_type: Option<String>,
    pub is_void: bool,
    pub is_result: bool,
    pub result_ok_type: Option<String>,
}

/// Whether `r` describes result `rt`.
pub open spec fn return_info_of(r: ReturnInfo, rt: ReturnType) -> bool {
    match rt {
        ReturnType::Void => r.swift_type is None && r.is_void && !r.is_result && r.result_ok_type is None,
        ReturnType::Value(t) => if t is Void {
            r.swift_type is None && r.is_void && !r.is_result && r.result_ok_type is None
        } else {
            opt_view(r.swift_type) == Some(swift_type_text(t)) && !r.is_void && !r.is_result
                && r.result_ok_type is None
        },
        ReturnType::Fallible { ok, .. } => {
            let ok_type = if ok is Void {
                None
            } else {
                Some(swift_type_text(ok))
            };
            opt_view(r.swift_type) == ok_type && opt_view(r.result_ok_type) == ok_type && r.is_result
                && r.is_void == (ok is Void)
        },
    }
}

impl ReturnInfo {
    /// What a template needs to know of result `rt`.
    pub fn from_return_type(rt: &ReturnType) -> (r: Self)
        ensures
            return_info_of(r, *rt),
    {
        match rt {
            ReturnType::Void => ReturnInfo {
                swift_type: None,
                is_void: true,
                is_result: false,
                result_ok_type: None,
            },
            ReturnType::Value(ty) => if ty.is_void() {
                ReturnInfo { swift_type: None, is_void: true, is_result: false, result_ok_type: None }
            } else {
                ReturnInfo {
                    swift_type: Some(TypeMapper::map_type(ty)),
                    is_void: false,
                    is_result: false,
                    result_ok_type: None,
                }
            },
            ReturnType::Fallible { ok, .. } => {
                if ok.is_void() {
                    ReturnInfo { swift_type: None, is_void: true, is_result: true, result_ok_type: None }
                } else {
                    ReturnInfo {
                        swift_type: Some(TypeMapper::map_type(ok)),
                        is_void: false,
                        is_result: true,
                        result_ok_type: Some(TypeMapper::map_type(ok)),
                    }
                }
            },
        }
    }
}

/// What a template needs to know of a parameter.
pub struct ParamInfo {
    pub swift_name: String,
    pub swift_type: String,
    pub ffi_conversion: String,
    pub is_string: bool,
    pub is_slice: bool,
    pub is_mut_slice: bool,
    pub is_vec: bool,
    pub is_vec_wire_encoded: bool,
    pub is_escaping: bool,
}

/// The value passed for a parameter `n` of type `t`.
pub open spec fn ffi_conversion_of(n: Seq<char>, t: Type) -> Seq<char> {
    match t {
        Type::Enum(_) => n + ".cValue"@,
        Type::BoxedTrait(tn) => upper_camel_case(tn@) + "Bridge.create("@ + n + ")"@,
        _ => n,
    }
}

/// Whether `p` describes parameter `name` of type `t`.
pub open spec fn param_info_of(p: ParamInfo, name: Seq<char>, t: Type) -> bool {
    &&& p.swift_name@ == swift_member(name)
    &&& p.swift_type@ == swift_type_text(t)
    &&& p.ffi_conversion@ == ffi_conversion_of(swift_member(name), t)
    &&& p.is_string == (t is String)
    &&& p.is_slice == (t is Slice)
    &&& p.is_mut_slice == (t is MutSlice)
    &&& p.is_vec == (t is Vec)
    &&& p.is_vec_wire_encoded == (match t {
        Type::Vec(inner) => !(*inner is Primitive),
        _ => false,
    })
    &&& p.is_escaping == (t is Closure)
}

impl ParamInfo {
    /// What a template needs to know of parameter `name` of type `ty`.
    pub fn from_param(name: &str, ty: &Type) -> (r: Self)
        ensures
            param_info_of(r, name@, *ty),
    {
        let swift_name = NamingConvention::param_name(name);
        let ffi_conversion = match ty {
            Type::Enum(_) => concat2(swift_name.as_str(), ".cValue"),
            Type::BoxedTrait(trait_name) => {
                let c = NamingConvention::class_name(trait_name.as_str());
                concat4(c.as_str(), "Bridge.create(", swift_name.as_str(), ")")
            },
            _ => crate::text::copy_string(&swift_name),
        };
        ParamInfo {
            swift_name,
            swift_type: TypeMapper::map_type(ty),
            ffi_conversion,
            is_string: matches!(ty, Type::String),
            is_slice: matches!(ty, Type::Slice(_)),
            is_mut_slice: matches!(ty, Type::MutSlice(_)),
            is_vec: matches!(ty, Type::Vec(_)),
            is_vec_wire_encoded: match ty {
                Type::Vec(inner) => !matches!(&**inner, Type::Primitive(_)),
                _ => false,
            },
            is_escaping: matches!(ty, Type::Closure(_)),
        }
    }

    /// Whether the call must pin this parameter's buffer.
    pub fn needs_wrapper(&self) -> (r: bool)
        ensures
            r == (self.is_string || self.is_slice || self.is_mut_slice || self.is_vec),
    {
        self.is_string || self.is_slice || self.is_mut_slice || self.is_vec
    }
}

/// What a template needs to know of a closure argument.
pub struct CallbackInfo {
    pub param_name: String,
    pub swift_type: String,
    pub ffi_arg_type: String,
    pub context_type: String,
    pub box_type: String,
    pub box_name: String,
    pub ptr_name: String,
    pub trampoline_name: String,
    pub trampoline_args: String,
    pub trampoline_call_args: String,
}

/// The trampoline's arguments for closure argument `i` of type `t`.
pub open spec fn trampoline_arg_names(t: Type, i: nat) -> Seq<Seq<char>> {
    if t is Record {
        seq!["ptr"@ + nat_text(i), "len"@ + nat_text(i)]
    } else {
        seq!["val"@ + nat_text(i)]
    }
}

/// The value the trampoline hands to the Swift closure for argument `i` of
/// type `t`: records are decoded from the buffer.
pub open spec fn trampoline_call_arg(t: Type, i: nat) -> Seq<char> {
    match t {
        Type::Record(n) => upper_camel_case(n@) + ".decode(wireBuffer: WireBuffer(ptr: ptr"@
            + nat_text(i) + "!, len: Int(len"@ + nat_text(i) + ")), at: 0).value"@,
        _ => "val"@ + nat_text(i),
    }
}

/// The trampoline's arguments for closure arguments `ts`.
pub open spec fn trampoline_args(ts: Seq<Type>) -> Seq<Seq<char>>
    decreases ts.len(),
{
    if ts.len() == 0 {
        Seq::empty()
    } else {
        trampoline_args(ts.drop_last()) + trampoline_arg_names(ts.last(), (ts.len() - 1) as nat)
    }
}

/// The suffix distinguishing the `index`-th closure argument: none for the
/// first, then its position counted from 1.
pub open spec fn callback_suffix(index: nat) -> Seq<char> {
    if index > 0 {
        nat_text(index + 1)
    } else {
        ""@
    }
}

/// Whether `c` describes closure argument `name` of signature with
/// arguments `ts`, the `index`-th closure of function `f`.
pub open spec fn callback_info_of(c: CallbackInfo, name: Seq<char>, ts: Seq<Type>, f: Seq<char>, index: nat) -> bool {
    let n = swift_member(name);
    let s = callback_suffix(index);
    &&& c.param_name@ == n
    &&& c.swift_type@ == seq_join(ts.map_values(|t: Type| swift_type_text(t)), ", "@)
    &&& c.ffi_arg_type@ == seq_join(ts.map_values(|t: Type| ffi_type_text(t)), ", "@)
    &&& c.context_type@ == f + "CallbackFn"@ + s
    &&& c.box_type@ == f + "CallbackBox"@ + s
    &&& c.box_name@ == n + "Box"@ + s
    &&& c.ptr_name@ == n + "Ptr"@ + s
    &&& c.trampoline_name@ == n + "Trampoline"@ + s
    &&& c.trampoline_args@ == seq_join(trampoline_args(ts), ", "@)
    &&& c.trampoline_call_args@ == seq_join(
        Seq::new(ts.len(), |i: int| trampoline_call_arg(ts[i], i as nat)),
        ", "@,
    )
}

impl CallbackInfo {
    /// What a template needs to know of closure argument `name` of type
    /// `ty`, the `index`-th closure of the function `func_name_pascal`;
    /// none when `ty` is no closure.
    pub fn from_param(name: &str, ty: &Type, func_name_pascal: &str, index: usize) -> (r: Option<Self>)
        requires
            index < usize::MAX,
        ensures
            match *ty {
                Type::Closure(sig) => r matches Some(c) && callback_info_of(
                    c,
                    name@,
                    sig.params@,
                    func_name_pascal@,
                    index as nat,
                ),
                _ => r is None,
            },
    {
        let sig = match ty {
            Type::Closure(sig) => sig,
            _ => return None,
        };
        let param_name = NamingConvention::param_name(name);
        let suffix = if index > 0 {
            usize_text(index + 1)
        } else {
            string_of("")
        };
        let ps = &sig.params;
        let mut swift_types: Vec<String> = Vec::new();
        let mut ffi_types: Vec<String> = Vec::new();
        let mut arg_names: Vec<String> = Vec::new();
        let mut calls: Vec<String> = Vec::new();
        let mut i: usize = 0;
        while i < ps.len()
            invariant
                i <= ps@.len(),
                views(swift_types@) == ps@.take(i as int).map_values(|t: Type| swift_type_text(t)),
                views(ffi_types@) == ps@.take(i as int).map_values(|t: Type| ffi_type_text(t)),
                views(arg_names@) == trampoline_args(ps@.take(i as int)),
                views(calls@) == Seq::new(i as nat, |k: int| trampoline_call_arg(ps@[k], k as nat)),
            decreases ps@.len() - i,
        {
            let t = &ps[i];
            let ghost s0 = views(swift_types@);
            let ghost f0 = views(ffi_types@);
            let ghost a0 = views(arg_names@);
            let ghost c0 = views(calls@);
            swift_types.push(TypeMapper::map_type(t));
            ffi_types.push(TypeMapper::ffi_type(t));
            assert(views(swift_types@) =~= s0.push(swift_type_text(ps@[i as int])));
            assert(views(ffi_types@) =~= f0.push(ffi_type_text(ps@[i as int])));
            let idx = usize_text(i);
            match t {
                Type::Record(n) => {
                    let p = concat2("ptr", idx.as_str());
                    let l = concat2("len", idx.as_str());
                    let rec = NamingConvention::class_name(n.as_str());
                    let mut call = concat4(
                        rec.as_str(),
                        ".decode(wireBuffer: WireBuffer(ptr: ptr",
                        idx.as_str(),
                        "!, len: Int(len",
                    );
                    crate::text::push_str(&mut call, idx.as_str());
                    crate::text::push_str(&mut call, ")), at: 0).value");
                    arg_names.push(p);
                    arg_names.push(l);
                    calls.push(call);
                    assert(views(calls@) =~= c0.push(trampoline_call_arg(ps@[i as int], i as nat)));
                },
                _ => {
                    arg_names.push(concat2("val", idx.as_str()));
                    calls.push(concat2("val", idx.as_str()));
                    assert(views(calls@) =~= c0.push(trampoline_call_arg(ps@[i as int], i as nat)));
                },
            }
            proof {
                let next = ps@.take(i + 1);
                assert(next.drop_last() =~= ps@.take(i as int));
                assert(next.last() == ps@[i as int]);
                assert(views(swift_types@) =~= next.map_values(|t: Type| swift_type_text(t)));
                assert(views(ffi_types@) =~= next.map_values(|t: Type| ffi_type_text(t)));
                assert(views(arg_names@) =~= trampoline_args(next));
                assert(views(calls@) =~= Seq::new((i + 1) as nat, |k: int| trampoline_call_arg(ps@[k], k as nat)));
            }
            i = i + 1;
        }
        assert(ps@.take(i as int) =~= ps@);
        let f = func_name_pascal;
        let s = suffix.as_str();
        Some(
            CallbackInfo {
                swift_type: join(&swift_types, ", "),
                ffi_arg_type: join(&ffi_types, ", "),
                context_type: concat3(f, "CallbackFn", s),
                box_type: concat3(f, "CallbackBox", s),
                box_name: concat3(param_name.as_str(), "Box", s),
                ptr_name: concat3(param_name.as_str(), "Ptr", s),
                trampoline_name: concat3(param_name.as_str(), "Trampoline", s),
                trampoline_args: join(&arg_names, ", "),
                trampoline_call_args: join(&calls, ", "),
                param_name,
            },
        )
    }
}

/// What a template needs to know of all parameters of a call.
pub struct ParamsInfo {
    pub params: Vec<ParamInfo>,
    pub callbacks: Vec<CallbackInfo>,
    pub has_callbacks: bool,
}

/// The closure-typed inputs.
pub open spec fn closure_filter<'a>() -> spec_fn((&'a str, &'a Type)) -> bool {
    |p: (&'a str, &'a Type)| *p.1 is Closure
}

impl ParamsInfo {
    /// What a template needs to know of the inputs `(name, type)` of the
    /// function `func_name_pascal`: one entry per input, and one callback
    /// per closure input, numbered in order.
    pub fn from_inputs<'a>(inputs: &Vec<(&'a str, &'a Type)>, func_name_pascal: &str) -> (r: Self)
        ensures
            r.params@.len() == inputs@.len(),
            forall|i: int|
                0 <= i < inputs@.len() ==> param_info_of(
                    #[trigger] r.params@[i],
                    inputs@[i].0@,
                    *inputs@[i].1,
                ),
            r.callbacks@.len() == inputs@.filter(closure_filter()).len(),
            forall|k: int|
                0 <= k < r.callbacks@.len() ==> match *inputs@.filter(closure_filter())[k].1 {
                    Type::Closure(sig) => callback_info_of(
                        #[trigger] r.callbacks@[k],
                        inputs@.filter(closure_filter())[k].0@,
                        sig.params@,
                        func_name_pascal@,
                        k as nat,
                    ),
                    _ => false,
                },
            r.has_callbacks == (r.callbacks@.len() > 0),
    {
        let mut params: Vec<ParamInfo> = Vec::new();
        let mut callbacks: Vec<CallbackInfo> = Vec::new();
        let mut i: usize = 0;
        while i < inputs.len()
            invariant
                i <= inputs@.len(),
                params@.len() == i,
                forall|k: int|
                    0 <= k < i ==> param_info_of(#[trigger] params@[k], inputs@[k].0@, *inputs@[k].1),
                callbacks@.len() == inputs@.take(i as int).filter(closure_filter()).len(),
                callbacks@.len() <= i,
                forall|k: int|
                    0 <= k < callbacks@.len() ==> match *inputs@.take(i as int).filter(
                        closure_filter(),
                    )[k].1 {
                        Type::Closure(sig) => callback_info_of(
                            #[trigger] callbacks@[k],
                            inputs@.take(i as int).filter(closure_filter())[k].0@,
                            sig.params@,
                            func_name_pascal@,
                            k as nat,
                        ),
                        _ => false,
                    },
            decreases inputs@.len() - i,
        {
            proof {
                lemma_filter_step(inputs@, closure_filter(), i as int);
            }
            let (name, ty) = inputs[i];
            params.push(ParamInfo::from_param(name, ty));
            if matches!(ty, Type::Closure(_)) {
                let ghost before = callbacks@;
                match CallbackInfo::from_param(name, ty, func_name_pascal, callbacks.len()) {
                    Some(cb) => {
                        let ghost g = cb;
                        callbacks.push(cb);
                        proof {
                            let next = inputs@.take(i + 1).filter(closure_filter());
                            assert forall|k: int| 0 <= k < callbacks@.len() implies match *next[k].1 {
                                Type::Closure(sig) => callback_info_of(
                                    #[trigger] callbacks@[k],
                                    next[k].0@,
                                    sig.params@,
                                    func_name_pascal@,
                                    k as nat,
                                ),
                                _ => false,
                            } by {
                                if k < before.len() {
                                    assert(callbacks@[k] == before[k]);
                                } else {
                                    assert(callbacks@[k] == g);
                                    assert(next[k] == inputs@[i as int]);
                                }
                            }
                        }
                    },
                    None => {},
                }
            }
            i = i + 1;
        }
        assert(inputs@.take(i as int) =~= inputs@);
        let has_callbacks = callbacks.len() > 0;
        ParamsInfo { params, callbacks, has_callbacks }
    }
}

} // verus!
