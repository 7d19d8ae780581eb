//! Kotlin and JNI types of model types.

use vstd::prelude::*;
use crate::case::upper_camel_case;
use crate::model::{Primitive, Type};
use crate::text::{concat2, concat3, push_str, string_of};
use super::names::NamingConvention;
use super::primitives::{info, jni_array, jni_primitive, kotlin_primitive};

verus! {

/// The Kotlin type of a model type.
pub open spec fn kotlin_type(t: Type) -> Seq<char>
    decreases t,
{
    match t {
        Type::Void => "Unit"@,
        Type::Primitive(p) => kotlin_primitive(p),
        Type::String => "String"@,
        Type::Bytes => "ByteArray"@,
        Type::Slice(inner) => "List<"@ + kotlin_type(*inner) + ">"@,
        Type::MutSlice(inner) => "List<"@ + kotlin_type(*inner) + ">"@,
        Type::Vec(inner) => "List<"@ + kotlin_type(*inner) + ">"@,
        Type::Option(inner) => kotlin_type(*inner) + "?"@,
        Type::Result { ok, .. } => kotlin_type(*ok),
        Type::Enum(n) => upper_camel_case(n@),
        Type::Record(n) => upper_camel_case(n@),
        Type::Object(n) => upper_camel_case(n@),
        Type::BoxedTrait(n) => upper_camel_case(n@),
        Type::Closure(sig) => "("@ + kotlin_type_list(sig.params@) + ") -> "@ + kotlin_type(
            *sig.returns,
        ),
    }
}

/// The Kotlin types of a list of model types, separated by `, `.
pub open spec fn kotlin_type_list(ps: Seq<Type>) -> Seq<char>
    decreases ps,
{
    if ps.len() == 0 {
        Seq::empty()
    } else if ps.len() == 1 {
        kotlin_type(ps[0])
    } else {
        kotlin_type_list(ps.subrange(0, ps.len() - 1)) + ", "@ + kotlin_type(ps[ps.len() - 1])
    }
}

/// The Kotlin type a model type has on the JNI side of `Native`.
pub open spec fn kotlin_jni_type(t: Type) -> Seq<char>
    decreases t,
{
    match t {
        Type::Void => "Unit"@,
        Type::Primitive(p) => jni_primitive(p),
        Type::String => "String"@,
        Type::Bytes => "ByteArray"@,
        Type::Slice(inner) => vec_jni_type(*inner),
        Type::MutSlice(inner) => vec_jni_type(*inner),
        Type::Vec(inner) => vec_jni_type(*inner),
        Type::Option(inner) => kotlin_jni_type(*inner) + "?"@,
        Type::Result { ok, .. } => kotlin_jni_type(*ok),
        Type::Enum(_) => "Int"@,
        Type::Record(_) => "ByteBuffer"@,
        _ => "Long"@,
    }
}

/// The JNI type carrying a sequence of elements of type `inner`.
pub open spec fn vec_jni_type(inner: Type) -> Seq<char> {
    match inner {
        Type::Primitive(p) => jni_array(p),
        _ => "ByteArray"@,
    }
}

/// Kotlin type mapping.
pub struct TypeMapper;

impl TypeMapper {
    /// The Kotlin type of a model type.
    #[verifier::loop_isolation(false)]
    pub fn map_type(ty: &Type) -> (r: String)
        ensures
            r@ == kotlin_type(*ty),
        decreases ty,
    {
        match ty {
            Type::Void => string_of("Unit"),
            Type::Primitive(p) => string_of(info(*p).kotlin_type),
            Type::String => string_of("String"),
            Type::Bytes => string_of("ByteArray"),
            Type::Slice(inner) | Type::MutSlice(inner) | Type::Vec(inner) => {
                let i = Self::map_type(inner);
                concat3("List<", i.as_str(), ">")
            },
            Type::Option(inner) => {
                let i = Self::map_type(inner);
                concat2(i.as_str(), "?")
            },
            Type::Result { ok, .. } => Self::map_type(ok),
            Type::Enum(n) | Type::Record(n) | Type::Object(n) | Type::BoxedTrait(n) => {
                NamingConvention::class_name(n.as_str())
            },
            Type::Closure(sig) => {
                let mut acc = String::new();
                let mut i: usize = 0;
                while i < sig.params.len()
                    invariant
                        i <= sig.params@.len(),
                        acc@ == kotlin_type_list(sig.params@.subrange(0, i as int)),
                    decreases sig.params@.len() - i,
                {
                    proof {
                        assert(decreases_to!(*ty => *sig));
                        assert(decreases_to!(*sig => sig.params));
                        assert(decreases_to!(sig.params => sig.params@));
                        assert(decreases_to!(sig.params@ => sig.params@[i as int]));
                    }
                    let x = Self::map_type(&sig.params[i]);
                    if i > 0 {
                        push_str(&mut acc, ", ");
                    }
                    push_str(&mut acc, x.as_str());
                    proof {
                        assert(sig.params@.subrange(0, i + 1).subrange(0, i as int)
                            =~= sig.params@.subrange(0, i as int));
                    }
                    i = i + 1;
                }
                assert(sig.params@.subrange(0, i as int) =~= sig.params@);
                let ret = Self::map_type(&sig.returns);
                let mut r = concat3("(", acc.as_str(), ") -> ");
                push_str(&mut r, ret.as_str());
                r
            },
        }
    }

    /// The JNI array or buffer type carrying a sequence of `inner`.
    pub fn vec_jni_type(inner: &Type) -> (r: String)
        ensures
            r@ == vec_jni_type(*inner),
    {
        match inner {
            Type::Primitive(p) => string_of(info(*p).array_type),
            _ => string_of("ByteArray"),
        }
    }

    /// The Kotlin type a model type has on the JNI side.
    pub fn jni_type(ty: &Type) -> (r: String)
        ensures
            r@ == kotlin_jni_type(*ty),
        decreases ty,
    {
        match ty {
            Type::Void => string_of("Unit"),
            Type::Primitive(p) => string_of(info(*p).jni_type),
            Type::String => string_of("String"),
            Type::Bytes => string_of("ByteArray"),
            Type::Slice(inner) | Type::MutSlice(inner) | Type::Vec(inner) => Self::vec_jni_type(
                inner,
            ),
            Type::Option(inner) => {
                let i = Self::jni_type(inner);
                concat2(i.as_str(), "?")
            },
            Type::Result { ok, .. } => Self::jni_type(ok),
            Type::Enum(_) => string_of("Int"),
            Type::Record(_) => string_of("ByteBuffer"),
            _ => string_of("Long"),
        }
    }
}

} // verus!
