//! How Kotlin values are handed to `Native`.

use vstd::prelude::*;
use crate::model::Type;
use crate::text::{concat2, concat3, concat4, push_str, string_of};
use super::primitives::{info, jni_array, to_signed};

verus! {

/// The JNI argument for the Kotlin value `name` of type `t`.
pub open spec fn param_to_ffi(name: Seq<char>, t: Type) -> Seq<char> {
    match t {
        Type::Primitive(p) => match to_signed(p) {
            Some(c) => name + "."@ + c,
            None => name,
        },
        Type::Enum(_) => name + ".value"@,
        Type::Vec(inner) => list_to_ffi(name, *inner),
        Type::Slice(inner) => list_to_ffi(name, *inner),
        _ => name,
    }
}

/// The JNI array for the Kotlin list `name` of elements of type `inner`.
pub open spec fn list_to_ffi(name: Seq<char>, inner: Type) -> Seq<char> {
    match inner {
        Type::Primitive(p) => match to_signed(p) {
            Some(c) => name + ".map { it."@ + c + " }.to"@ + jni_array(p) + "()"@,
            None => name + ".to"@ + jni_array(p) + "()"@,
        },
        _ => name,
    }
}

/// Conversions of Kotlin arguments.
pub struct ParamConversion;

impl ParamConversion {
    /// The JNI array for a Kotlin list of `inner`.
    pub fn list_to_ffi(name: &str, inner: &Type) -> (r: String)
        ensures
            r@ == list_to_ffi(name@, *inner),
    {
        match inner {
            Type::Primitive(p) => {
                let i = info(*p);
                match i.to_signed {
                    Some(c) => {
                        let mut r = concat3(name, ".map { it.", c);
                        push_str(&mut r, " }.to");
                        push_str(&mut r, i.array_type);
                        push_str(&mut r, "()");
                        r
                    },
                    None => concat4(name, ".to", i.array_type, "()"),
                }
            },
            _ => string_of(name),
        }
    }

    /// The JNI argument for the Kotlin value `name` of type `ty`.
    pub fn to_ffi(name: &str, ty: &Type) -> (r: String)
        ensures
            r@ == param_to_ffi(name@, *ty),
    {
        match ty {
            Type::Primitive(p) => match info(*p).to_signed {
                Some(c) => concat3(name, ".", c),
                None => string_of(name),
            },
            Type::Enum(_) => concat2(name, ".value"),
            Type::Vec(inner) | Type::Slice(inner) => Self::list_to_ffi(name, inner),
            _ => string_of(name),
        }
    }
}

} // verus!
