//! Swift types of model types, and the views of optional values.

use vstd::prelude::*;
use crate::case::{lowercase, to_lowercase, upper_camel_case};
use crate::model::{
    primitive_c_name, primitive_rust_name, primitive_default, Primitive, Record, Type,
};
use crate::text::{concat2, concat3, join, push_str, seq_join, string_of, views, copy_string};
use super::names::NamingConvention;
use super::primitives::{info, swift_primitive};

verus! {

/// A Swift type, mirroring a model type.
#[derive(Debug)]
pub enum SwiftType {
    Void,
    Primitive(Primitive),
    String,
    Bytes,
    Slice { inner: Box<SwiftType>, mutable: bool },
    Vec(Box<SwiftType>),
    Option(Box<SwiftType>),
    Result { ok: Box<SwiftType> },
    Enum(String),
    Record(String),
    Object(String),
    BoxedTrait(String),
    Closure { params: Vec<SwiftType>, returns: Box<SwiftType> },
}

// ---------------------------------------------------------------------------
// Which Swift type mirrors which model type
// ---------------------------------------------------------------------------

/// Whether `s` mirrors `t`: the same shape, a mutable slice where `t` is a
/// mutable slice, the same names.
pub open spec fn models(s: SwiftType, t: Type) -> bool
    decreases t,
{
    match t {
        Type::Void => s is Void,
        Type::Primitive(p) => s == SwiftType::Primitive(p),
        Type::String => s is String,
        Type::Bytes => s is Bytes,
        Type::Slice(i) => match s {
            SwiftType::Slice { inner, mutable } => !mutable && models(*inner, *i),
            _ => false,
        },
        Type::MutSlice(i) => match s {
            SwiftType::Slice { inner, mutable } => mutable && models(*inner, *i),
            _ => false,
        },
        Type::Vec(i) => match s {
            SwiftType::Vec(inner) => models(*inner, *i),
            _ => false,
        },
        Type::Option(i) => match s {
            SwiftType::Option(inner) => models(*inner, *i),
            _ => false,
        },
        Type::Result { ok, .. } => match s {
            SwiftType::Result { ok: o } => models(*o, *ok),
            _ => false,
        },
        Type::Enum(n) => s == SwiftType::Enum(n),
        Type::Record(n) => s == SwiftType::Record(n),
        Type::Object(n) => s == SwiftType::Object(n),
        Type::BoxedTrait(n) => s == SwiftType::BoxedTrait(n),
        Type::Closure(sig) => match s {
            SwiftType::Closure { params, returns: ret } => models_list(params@, sig.params@)
                && models(*ret, *sig.returns),
            _ => false,
        },
    }
}

/// Whether each of `ss` mirrors the type at the same place in `ts`.
pub open spec fn models_list(ss: Seq<SwiftType>, ts: Seq<Type>) -> bool
    decreases ts,
{
    if ts.len() == 0 {
        ss.len() == 0
    } else {
        ss.len() == ts.len() && models_list(ss.subrange(0, ss.len() - 1), ts.subrange(0, ts.len() - 1))
            && models(ss[ss.len() - 1], ts[ts.len() - 1])
    }
}

// ---------------------------------------------------------------------------
// Spellings
// ---------------------------------------------------------------------------

/// The Swift spelling of a model type.
pub open spec fn swift_type_text(t: Type) -> Seq<char>
    decreases t,
{
    match t {
        Type::Void => "Void"@,
        Type::Primitive(p) => swift_primitive(p),
        Type::String => "String"@,
        Type::Bytes => "Data"@,
        Type::Slice(i) => "["@ + swift_type_text(*i) + "]"@,
        Type::MutSlice(i) => "["@ + swift_type_text(*i) + "]"@,
        Type::Vec(i) => "["@ + swift_type_text(*i) + "]"@,
        Type::Option(i) => swift_type_text(*i) + "?"@,
        Type::Result { ok, .. } => swift_type_text(*ok),
        Type::Enum(n) => upper_camel_case(n@),
        Type::Record(n) => upper_camel_case(n@),
        Type::Object(n) => upper_camel_case(n@),
        Type::BoxedTrait(n) => upper_camel_case(n@) + "Protocol"@,
        Type::Closure(sig) => "("@ + swift_type_list(sig.params@) + ") -> "@ + swift_type_text(
            *sig.returns,
        ),
    }
}

/// The Swift spellings of a list of model types, separated by `, `.
pub open spec fn swift_type_list(ts: Seq<Type>) -> Seq<char>
    decreases ts,
{
    if ts.len() == 0 {
        Seq::empty()
    } else if ts.len() == 1 {
        swift_type_text(ts[0])
    } else {
        swift_type_list(ts.subrange(0, ts.len() - 1)) + ", "@ + swift_type_text(ts[ts.len() - 1])
    }
}

/// The spelling of a Swift type.
pub open spec fn swift_text(s: SwiftType) -> Seq<char>
    decreases s,
{
    match s {
        SwiftType::Void => "Void"@,
        SwiftType::Primitive(p) => swift_primitive(p),
        SwiftType::String => "String"@,
        SwiftType::Bytes => "Data"@,
        SwiftType::Slice { inner, .. } => "["@ + swift_text(*inner) + "]"@,
        SwiftType::Vec(inner) => "["@ + swift_text(*inner) + "]"@,
        SwiftType::Option(inner) => swift_text(*inner) + "?"@,
        SwiftType::Result { ok } => swift_text(*ok),
        SwiftType::Enum(n) => upper_camel_case(n@),
        SwiftType::Record(n) => upper_camel_case(n@),
        SwiftType::Object(n) => upper_camel_case(n@),
        SwiftType::BoxedTrait(n) => upper_camel_case(n@) + "Protocol"@,
        SwiftType::Closure { params, returns: ret } => "("@ + swift_text_list(params@) + ") -> "@
            + swift_text(*ret),
    }
}

/// The spellings of a list of Swift types, separated by `, `.
pub open spec fn swift_text_list(ss: Seq<SwiftType>) -> Seq<char>
    decreases ss,
{
    if ss.len() == 0 {
        Seq::empty()
    } else if ss.len() == 1 {
        swift_text(ss[0])
    } else {
        swift_text_list(ss.subrange(0, ss.len() - 1)) + ", "@ + swift_text(ss[ss.len() - 1])
    }
}

/// A mirroring Swift type is spelled as the model type.
pub proof fn lemma_models_text(s: SwiftType, t: Type)
    requires
        models(s, t),
    ensures
        swift_text(s) == swift_type_text(t),
    decreases t,
{
    match t {
        Type::Slice(i) => {
            if let SwiftType::Slice { inner, .. } = s {
                lemma_models_text(*inner, *i);
            }
        },
        Type::MutSlice(i) => {
            if let SwiftType::Slice { inner, .. } = s {
                lemma_models_text(*inner, *i);
            }
        },
        Type::Vec(i) => {
            if let SwiftType::Vec(inner) = s {
                lemma_models_text(*inner, *i);
            }
        },
        Type::Option(i) => {
            if let SwiftType::Option(inner) = s {
                lemma_models_text(*inner, *i);
            }
        },
        Type::Result { ok, .. } => {
            if let SwiftType::Result { ok: o } = s {
                lemma_models_text(*o, *ok);
            }
        },
        Type::Closure(sig) => {
            if let SwiftType::Closure { params, returns: ret } = s {
                lemma_models_text_list(params@, sig.params@);
                lemma_models_text(*ret, *sig.returns);
            }
        },
        _ => {},
    }
}

/// Mirroring lists are spelled alike.
pub proof fn lemma_models_text_list(ss: Seq<SwiftType>, ts: Seq<Type>)
    requires
        models_list(ss, ts),
    ensures
        swift_text_list(ss) == swift_type_list(ts),
    decreases ts,
{
    if ts.len() > 0 {
        lemma_models_text_list(ss.subrange(0, ss.len() - 1), ts.subrange(0, ts.len() - 1));
        lemma_models_text(ss[ss.len() - 1], ts[ts.len() - 1]);
        if ts.len() == 1 {
            assert(ss.subrange(0, 0).len() == 0);
        }
    }
}

/// Whether two Swift types have the same shape: the same variant, the same
/// names and flags, and parts of the same shape (closure parameters taken
/// pointwise).
pub open spec fn same_shape(a: SwiftType, b: SwiftType) -> bool
    decreases a,
{
    match a {
        SwiftType::Slice { inner: x, mutable: m } => match b {
            SwiftType::Slice { inner: y, mutable: n } => m == n && same_shape(*x, *y),
            _ => false,
        },
        SwiftType::Vec(x) => match b {
            SwiftType::Vec(y) => same_shape(*x, *y),
            _ => false,
        },
        SwiftType::Option(x) => match b {
            SwiftType::Option(y) => same_shape(*x, *y),
            _ => false,
        },
        SwiftType::Result { ok: x } => match b {
            SwiftType::Result { ok: y } => same_shape(*x, *y),
            _ => false,
        },
        SwiftType::Closure { params: p, returns: r } => match b {
            SwiftType::Closure { params: q, returns: u } => same_shape_list(p@, q@) && same_shape(*r, *u),
            _ => false,
        },
        _ => a == b,
    }
}

/// Whether two lists of Swift types have the same shapes, place by place.
pub open spec fn same_shape_list(ps: Seq<SwiftType>, qs: Seq<SwiftType>) -> bool
    decreases ps,
{
    if ps.len() == 0 {
        qs.len() == 0
    } else {
        ps.len() == qs.len() && same_shape_list(ps.subrange(0, ps.len() - 1), qs.subrange(0, qs.len() - 1))
            && same_shape(ps[ps.len() - 1], qs[qs.len() - 1])
    }
}

/// The Swift type that mirrors a model type is determined by it: any two
/// Swift types that mirror the same model type have the same shape (so
/// `SwiftType::from_model` maps each model type to one Swift type).
pub proof fn lemma_models_unique(a: SwiftType, b: SwiftType, t: Type)
    requires
        models(a, t),
        models(b, t),
    ensures
        same_shape(a, b),
    decreases t,
{
    match t {
        Type::Slice(i) => {
            if let SwiftType::Slice { inner: x, .. } = a {
                if let SwiftType::Slice { inner: y, .. } = b {
                    lemma_models_unique(*x, *y, *i);
                }
            }
        },
        Type::MutSlice(i) => {
            if let SwiftType::Slice { inner: x, .. } = a {
                if let SwiftType::Slice { inner: y, .. } = b {
                    lemma_models_unique(*x, *y, *i);
                }
            }
        },
        Type::Vec(i) => {
            if let SwiftType::Vec(x) = a {
                if let SwiftType::Vec(y) = b {
                    lemma_models_unique(*x, *y, *i);
                }
            }
        },
        Type::Option(i) => {
            if let SwiftType::Option(x) = a {
                if let SwiftType::Option(y) = b {
                    lemma_models_unique(*x, *y, *i);
                }
            }
        },
        Type::Result { ok, .. } => {
            if let SwiftType::Result { ok: x } = a {
                if let SwiftType::Result { ok: y } = b {
                    lemma_models_unique(*x, *y, *ok);
                }
            }
        },
        Type::Closure(sig) => {
            if let SwiftType::Closure { params: p, returns: r } = a {
                if let SwiftType::Closure { params: q, returns: u } = b {
                    lemma_models_unique_list(p@, q@, sig.params@);
                    lemma_models_unique(*r, *u, *sig.returns);
                }
            }
        },
        _ => {},
    }
}

/// Two lists that mirror the same model types have the same shapes.
pub proof fn lemma_models_unique_list(ps: Seq<SwiftType>, qs: Seq<SwiftType>, ts: Seq<Type>)
    requires
        models_list(ps, ts),
        models_list(qs, ts),
    ensures
        same_shape_list(ps, qs),
    decreases ts,
{
    if ts.len() > 0 {
        lemma_models_unique_list(ps.subrange(0, ps.len() - 1), qs.subrange(0, qs.len() - 1), ts.subrange(0, ts.len() - 1));
        lemma_models_unique(ps[ps.len() - 1], qs[qs.len() - 1], ts[ts.len() - 1]);
    }
}

/// The zero value of a Swift type as an expression.
pub open spec fn default_text(s: SwiftType) -> Seq<char>
    decreases s,
{
    match s {
        SwiftType::Void => "()"@,
        SwiftType::Primitive(p) => primitive_default(p),
        SwiftType::String => "\"\""@,
        SwiftType::Bytes => "Data()"@,
        SwiftType::Slice { .. } => "[]"@,
        SwiftType::Vec(_) => "[]"@,
        SwiftType::Option(_) => "nil"@,
        SwiftType::Result { ok } => default_text(*ok),
        SwiftType::Enum(_) => "0"@,
        SwiftType::Record(n) => upper_camel_case(n@) + "()"@,
        SwiftType::Object(_) => "nil"@,
        SwiftType::BoxedTrait(_) => "nil"@,
        SwiftType::Closure { params, .. } => "{ "@ + seq_join(
            Seq::new(params@.len(), |i: int| "_"@),
            ", "@,
        ) + " in }"@,
    }
}

/// The suffix naming a Swift type in generated symbols.
pub open spec fn suffix_text(s: SwiftType) -> Seq<char>
    decreases s,
{
    match s {
        SwiftType::Primitive(p) => primitive_rust_name(p),
        SwiftType::String => "string"@,
        SwiftType::Record(n) => lowercase(n@),
        SwiftType::Enum(n) => lowercase(n@),
        SwiftType::Vec(inner) => suffix_text(*inner),
        SwiftType::Result { ok } => suffix_text(*ok),
        _ => "unknown"@,
    }
}

/// The C name of a Swift type in a generated header.
pub open spec fn cbindgen_text(s: SwiftType) -> Seq<char> {
    match s {
        SwiftType::Primitive(p) => primitive_c_name(p),
        SwiftType::String => "FfiString"@,
        SwiftType::Record(n) => n@,
        SwiftType::Enum(n) => n@,
        _ => "unknown"@,
    }
}

/// The C name of a model type in a generated header.
pub open spec fn type_c_name(t: Type) -> Seq<char> {
    match t {
        Type::Primitive(p) => primitive_c_name(p),
        Type::String => "FfiString"@,
        Type::Record(n) => n@,
        Type::Enum(n) => n@,
        _ => "unknown"@,
    }
}

/// A mirroring Swift type has the model type's C name.
pub proof fn lemma_models_c_name(s: SwiftType, t: Type)
    requires
        models(s, t),
    ensures
        cbindgen_text(s) == type_c_name(t),
        s is Record <==> t is Record,
        s is Void <==> t is Void,
{
}

impl SwiftType {
    /// The Swift type mirroring a model type.
    #[verifier::loop_isolation(false)]
    pub fn from_model(ty: &Type) -> (r: Self)
        ensures
            models(r, *ty),
        decreases ty,
    {
        match ty {
            Type::Void => SwiftType::Void,
            Type::Primitive(p) => SwiftType::Primitive(*p),
            Type::String => SwiftType::String,
            Type::Bytes => SwiftType::Bytes,
            Type::Slice(inner) => SwiftType::Slice {
                inner: Box::new(Self::from_model(inner)),
                mutable: false,
            },
            Type::MutSlice(inner) => SwiftType::Slice {
                inner: Box::new(Self::from_model(inner)),
                mutable: true,
            },
            Type::Vec(inner) => SwiftType::Vec(Box::new(Self::from_model(inner))),
            Type::Option(inner) => SwiftType::Option(Box::new(Self::from_model(inner))),
            Type::Result { ok, .. } => SwiftType::Result { ok: Box::new(Self::from_model(ok)) },
            Type::Enum(name) => SwiftType::Enum(name.clone()),
            Type::Record(name) => SwiftType::Record(name.clone()),
            Type::Object(name) => SwiftType::Object(name.clone()),
            Type::BoxedTrait(name) => SwiftType::BoxedTrait(name.clone()),
            Type::Closure(sig) => {
                let mut params: Vec<SwiftType> = Vec::new();
                let mut i: usize = 0;
                while i < sig.params.len()
                    invariant
                        i <= sig.params@.len(),
                        models_list(params@, sig.params@.subrange(0, i as int)),
                    decreases sig.params@.len() - i,
                {
                    proof {
                        assert(decreases_to!(*ty => *sig));
                        assert(decreases_to!(*sig => sig.params));
                        assert(decreases_to!(sig.params => sig.params@));
                        assert(decreases_to!(sig.params@ => sig.params@[i as int]));
                    }
                    let x = Self::from_model(&sig.params[i]);
                    let ghost before = params@;
                    params.push(x);
                    proof {
                        let ts = sig.params@.subrange(0, i + 1);
                        assert(ts.subrange(0, ts.len() - 1) =~= sig.params@.subrange(0, i as int));
                        assert(params@.subrange(0, params@.len() - 1) =~= before);
                    }
                    i = i + 1;
                }
                assert(sig.params@.subrange(0, i as int) =~= sig.params@);
                SwiftType::Closure { params, returns: Box::new(Self::from_model(&sig.returns)) }
            },
        }
    }

    /// The Swift spelling.
    #[verifier::loop_isolation(false)]
    pub fn swift_type(&self) -> (r: String)
        ensures
            r@ == swift_text(*self),
        decreases self,
    {
        match self {
            SwiftType::Void => string_of("Void"),
            SwiftType::Primitive(p) => string_of(info(*p).swift_type),
            SwiftType::String => string_of("String"),
            SwiftType::Bytes => string_of("Data"),
            SwiftType::Slice { inner, .. } => {
                let i = inner.swift_type();
                concat3("[", i.as_str(), "]")
            },
            SwiftType::Vec(inner) => {
                let i = inner.swift_type();
                concat3("[", i.as_str(), "]")
            },
            SwiftType::Option(inner) => {
                let i = inner.swift_type();
                concat2(i.as_str(), "?")
            },
            SwiftType::Result { ok } => ok.swift_type(),
            SwiftType::Enum(n) | SwiftType::Record(n) | SwiftType::Object(n) => {
                NamingConvention::class_name(n.as_str())
            },
            SwiftType::BoxedTrait(n) => {
                let c = NamingConvention::class_name(n.as_str());
                concat2(c.as_str(), "Protocol")
            },
            SwiftType::Closure { params, returns: ret_type } => {
                let mut acc = String::new();
                let mut i: usize = 0;
                while i < params.len()
                    invariant
                        i <= params@.len(),
                        acc@ == swift_text_list(params@.subrange(0, i as int)),
                    decreases params@.len() - i,
                {
                    proof {
                        assert(decreases_to!(*self => *params));
                        assert(decreases_to!(*params => params@));
                        assert(decreases_to!(params@ => params@[i as int]));
                    }
                    let x = params[i].swift_type();
                    if i > 0 {
                        push_str(&mut acc, ", ");
                    }
                    push_str(&mut acc, x.as_str());
                    proof {
                        assert(params@.subrange(0, i + 1).subrange(0, i as int) =~= params@.subrange(
                            0,
                            i as int,
                        ));
                    }
                    i = i + 1;
                }
                assert(params@.subrange(0, i as int) =~= params@);
                let ret = ret_type.swift_type();
                let mut r = concat3("(", acc.as_str(), ") -> ");
                push_str(&mut r, ret.as_str());
                r
            },
        }
    }

    /// The zero value as an expression.
    pub fn default_value(&self) -> (r: String)
        ensures
            r@ == default_text(*self),
        decreases self,
    {
        match self {
            SwiftType::Void => string_of("()"),
            SwiftType::Primitive(p) => string_of(p.default_value()),
            SwiftType::String => string_of("\"\""),
            SwiftType::Bytes => string_of("Data()"),
            SwiftType::Slice { .. } | SwiftType::Vec(_) => string_of("[]"),
            SwiftType::Option(_) => string_of("nil"),
            SwiftType::Result { ok } => ok.default_value(),
            SwiftType::Enum(_) => string_of("0"),
            SwiftType::Record(n) => {
                let c = NamingConvention::class_name(n.as_str());
                concat2(c.as_str(), "()")
            },
            SwiftType::Object(_) | SwiftType::BoxedTrait(_) => string_of("nil"),
            SwiftType::Closure { params, .. } => {
                let mut parts: Vec<String> = Vec::new();
                let mut i: usize = 0;
                while i < params.len()
                    invariant
                        i <= params@.len(),
                        views(parts@) =~= Seq::new(i as nat, |k: int| "_"@),
                    decreases params@.len() - i,
                {
                    let ghost before = parts@;
                    parts.push(string_of("_"));
                    assert(views(parts@) =~= views(before).push("_"@));
                    i = i + 1;
                }
                let j = join(&parts, ", ");
                concat3("{ ", j.as_str(), " in }")
            },
        }
    }

    /// The suffix naming the type in generated symbols.
    pub fn ffi_type_suffix(&self) -> (r: String)
        ensures
            r@ == suffix_text(*self),
        decreases self,
    {
        match self {
            SwiftType::Primitive(p) => string_of(p.rust_name()),
            SwiftType::String => string_of("string"),
            SwiftType::Record(n) | SwiftType::Enum(n) => to_lowercase(n.as_str()),
            SwiftType::Vec(inner) => inner.ffi_type_suffix(),
            SwiftType::Result { ok } => ok.ffi_type_suffix(),
            _ => string_of("unknown"),
        }
    }

    /// Whether this is `Void`.
    pub fn is_void(&self) -> (r: bool)
        ensures
            r == (*self is Void),
    {
        matches!(self, SwiftType::Void)
    }

    /// Whether this is a record, a Swift struct.
    pub fn is_struct(&self) -> (r: bool)
        ensures
            r == (*self is Record),
    {
        matches!(self, SwiftType::Record(_))
    }

    /// The C name in a generated header.
    pub fn cbindgen_name(&self) -> (r: String)
        ensures
            r@ == cbindgen_text(*self),
    {
        match self {
            SwiftType::Primitive(p) => string_of(p.cbindgen_name()),
            SwiftType::String => string_of("FfiString"),
            SwiftType::Record(n) | SwiftType::Enum(n) => copy_string(n),
            _ => string_of("unknown"),
        }
    }

    /// The success type of a result, or the type itself.
    pub fn unwrap_result(&self) -> (r: &SwiftType)
        ensures
            r == (match *self {
                SwiftType::Result { ok } => *ok,
                _ => *self,
            }),
    {
        match self {
            SwiftType::Result { ok } => &**ok,
            other => other,
        }
    }

    /// The element of a vector, the value of an optional, or the success
    /// type of a result.
    pub fn inner_type(&self) -> (r: Option<&SwiftType>)
        ensures
            r == (match *self {
                SwiftType::Vec(i) => Some(&*i),
                SwiftType::Option(i) => Some(&*i),
                SwiftType::Result { ok } => Some(&*ok),
                _ => None,
            }),
    {
        match self {
            SwiftType::Vec(inner) | SwiftType::Option(inner) | SwiftType::Result { ok: inner } => {
                Some(&**inner)
            },
            _ => None,
        }
    }
}

/// Swift type mapping.
pub struct TypeMapper;

/// The type a closure argument has on the C side.
pub open spec fn ffi_type_text(t: Type) -> Seq<char> {
    match t {
        Type::Primitive(p) => swift_primitive(p),
        Type::Record(_) => "UnsafePointer<UInt8>?, UInt"@,
        Type::String => "UnsafePointer<UInt8>?, UInt"@,
        Type::Enum(_) => "Int32"@,
        _ => "UnsafeMutableRawPointer?"@,
    }
}

impl TypeMapper {
    /// The Swift spelling of a model type.
    pub fn map_type(ty: &Type) -> (r: String)
        ensures
            r@ == swift_type_text(*ty),
    {
        let s = SwiftType::from_model(ty);
        proof {
            lemma_models_text(s, *ty);
        }
        s.swift_type()
    }

    /// The type a closure argument has on the C side.
    pub fn ffi_type(ty: &Type) -> (r: String)
        ensures
            r@ == ffi_type_text(*ty),
    {
        match ty {
            Type::Primitive(p) => string_of(info(*p).swift_type),
            Type::Record(_) | Type::String => string_of("UnsafePointer<UInt8>?, UInt"),
            Type::Enum(_) => string_of("Int32"),
            _ => string_of("UnsafeMutableRawPointer?"),
        }
    }
}

} // verus!
