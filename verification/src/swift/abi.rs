//! How a call's result crosses the C ABI back to Swift: directly as a C
//! value, or encoded in a wire buffer that Swift decodes.

use vstd::prelude::*;
use crate::case::upper_camel_case;
use crate::model::{
    spec_fits_in_32_bits, spec_is_blittable, spec_is_c_style, Enumeration, Module, Primitive,
    Record, ReturnType, Type,
};
use crate::text::{concat2, concat3, push_str, replace_all, replace_text, string_of};
use super::marshal::opt_view;
use super::names::NamingConvention;
use super::types::{swift_type_text, TypeMapper};

verus! {

/// How a result crosses the C ABI.
pub enum ReturnAbi {
    /// Nothing comes back.
    Unit,
    /// A C value, converted by `conversion` (with `$0` for the value) when
    /// given.
    Direct { swift_type: String, conversion: Option<String> },
    /// A wire buffer, decoded by `decode_expr`.
    WireEncoded { swift_type: String, decode_expr: String, throws: bool },
}

// ---------------------------------------------------------------------------
// The decoding expressions
// ---------------------------------------------------------------------------

/// Whether some enumeration of this name carries data.
pub open spec fn any_data_enum(es: Seq<Enumeration>, n: Seq<char>) -> bool {
    exists|i: int| 0 <= i < es.len() && #[trigger] es[i].name@ == n && !spec_is_c_style(es[i].variants@)
}

/// Whether some enumeration of this name is an error type.
pub open spec fn any_error_enum(es: Seq<Enumeration>, n: Seq<char>) -> bool {
    exists|i: int| 0 <= i < es.len() && #[trigger] es[i].name@ == n && es[i].is_error
}

/// Whether some record of this name is blittable.
pub open spec fn any_blittable(rs: Seq<Record>, n: Seq<char>) -> bool {
    exists|i: int| 0 <= i < rs.len() && #[trigger] rs[i].name@ == n && spec_is_blittable(rs[i].fields@)
}

/// The wire reader of a primitive.
pub open spec fn read_fn(p: Primitive) -> Seq<char> {
    match p {
        Primitive::Bool => "readBool"@,
        Primitive::I8 => "readI8"@,
        Primitive::U8 => "readU8"@,
        Primitive::I16 => "readI16"@,
        Primitive::U16 => "readU16"@,
        Primitive::I32 => "readI32"@,
        Primitive::U32 => "readU32"@,
        Primitive::I64 => "readI64"@,
        Primitive::U64 => "readU64"@,
        Primitive::F32 => "readF32"@,
        Primitive::F64 => "readF64"@,
        Primitive::Isize => "readI64"@,
        Primitive::Usize => "readU64"@,
    }
}

/// Decoding an enumeration value at `$0`.
pub open spec fn enum_decode(n: Seq<char>, m: Module) -> Seq<char> {
    if any_data_enum(m.enums@, n) {
        upper_camel_case(n) + "(wireBuffer: wire, at: $0)"@
    } else {
        upper_camel_case(n) + "(fromC: wire.readI32(at: $0))"@
    }
}

/// Decoding one element of a vector at `$0`.
pub open spec fn element_decode(t: Type, m: Module) -> Seq<char> {
    match t {
        Type::Primitive(p) => "wire."@ + read_fn(p) + "(at: $0)"@,
        Type::String => "wire.readString(at: $0).value"@,
        Type::Record(n) => upper_camel_case(n@) + "(wireBuffer: wire, at: $0)"@,
        Type::Enum(n) => enum_decode(n@, m),
        _ => "/* unsupported */"@,
    }
}

/// Decoding a vector of `inner` at `at`.
pub open spec fn vec_decode(inner: Type, at: Seq<char>, m: Module) -> Seq<char> {
    "wire.readArray(at: "@ + at + ", reader: { "@ + element_decode(inner, m) + " }).value"@
}

/// Decoding the value of an optional at `$0`, with the width it takes.
pub open spec fn option_inner_decode(t: Type, m: Module) -> Seq<char> {
    match t {
        Type::Primitive(p) => "(wire."@ + read_fn(p) + "(at: $0), "@ + (if spec_fits_in_32_bits(p) {
            "4"@
        } else {
            "8"@
        }) + ")"@,
        Type::String => "(wire.readString(at: $0).value, 0)"@,
        Type::Record(n) => "("@ + upper_camel_case(n@) + "(wireBuffer: wire, at: $0), 0)"@,
        Type::Enum(n) => if any_data_enum(m.enums@, n@) {
            "("@ + upper_camel_case(n@) + "(wireBuffer: wire, at: $0), 0)"@
        } else {
            "("@ + upper_camel_case(n@) + "(fromC: wire.readI32(at: $0)), 4)"@
        },
        _ => "(/* unsupported */, 0)"@,
    }
}

/// Decoding an optional `inner` at `at`.
pub open spec fn option_decode(inner: Type, at: Seq<char>, m: Module) -> Seq<char> {
    "wire.readOptional(at: "@ + at + ", reader: { "@ + option_inner_decode(inner, m) + " }).value"@
}

/// Decoding a fallible call's success value at `$0`.
pub open spec fn ok_decode(t: Type, m: Module) -> Seq<char> {
    match t {
        Type::Void => "()"@,
        Type::Primitive(p) => "wire."@ + read_fn(p) + "(at: $0)"@,
        Type::String => "wire.readString(at: $0).value"@,
        Type::Enum(n) => enum_decode(n@, m),
        Type::Record(n) => upper_camel_case(n@) + "(wireBuffer: wire, at: $0)"@,
        Type::Vec(inner) => vec_decode(*inner, "$0"@, m),
        Type::Option(inner) => option_decode(*inner, "$0"@, m),
        _ => "/* unsupported */"@,
    }
}

/// The Swift error type of a fallible call.
pub open spec fn error_type(err: Type, m: Module) -> Seq<char> {
    match err {
        Type::Enum(n) => if any_error_enum(m.enums@, n@) {
            upper_camel_case(n@)
        } else {
            "FfiError"@
        },
        _ => "FfiError"@,
    }
}

/// Decoding the error at `$0`.
pub open spec fn error_decode(err: Type, err_swift: Seq<char>) -> Seq<char> {
    match err {
        Type::String => "FfiError(message: wire.readString(at: $0).value)"@,
        Type::Enum(_) => err_swift + "(wireBuffer: wire, at: $0)"@,
        _ => "FfiError(message: \"unknown error\")"@,
    }
}

/// Whether `r` is a direct result of Swift type `s` with conversion `c`.
pub open spec fn is_direct_of(r: ReturnAbi, s: Seq<char>, c: Option<Seq<char>>) -> bool {
    match r {
        ReturnAbi::Direct { swift_type, conversion } => swift_type@ == s && opt_view(conversion) == c,
        _ => false,
    }
}

/// Whether `r` is an encoded result of Swift type `s`, decoded by `d`.
pub open spec fn is_wire_of(r: ReturnAbi, s: Seq<char>, d: Seq<char>, throws: bool) -> bool {
    match r {
        ReturnAbi::WireEncoded { swift_type, decode_expr, throws: th } => swift_type@ == s
            && decode_expr@ == d && th == throws,
        _ => false,
    }
}

/// Whether `r` carries a plain value of type `t`.
pub open spec fn value_abi_of(r: ReturnAbi, t: Type, m: Module) -> bool {
    match t {
        Type::Void => r is Unit,
        Type::Primitive(_) => is_direct_of(r, swift_type_text(t), None),
        Type::Enum(n) => if any_data_enum(m.enums@, n@) {
            is_wire_of(
                r,
                upper_camel_case(n@),
                upper_camel_case(n@) + "(wireBuffer: wire, at: 0)"@,
                false,
            )
        } else {
            is_direct_of(r, upper_camel_case(n@), Some(upper_camel_case(n@) + "(fromC: $0)"@))
        },
        Type::Record(n) => if any_blittable(m.records@, n@) {
            is_direct_of(r, upper_camel_case(n@), None)
        } else {
            is_wire_of(
                r,
                upper_camel_case(n@),
                upper_camel_case(n@) + "(wireBuffer: wire, at: 0)"@,
                false,
            )
        },
        Type::String => is_wire_of(r, "String"@, "wire.readString(at: 0).value"@, false),
        Type::Vec(inner) => is_wire_of(
            r,
            "["@ + swift_type_text(*inner) + "]"@,
            vec_decode(*inner, "0"@, m),
            false,
        ),
        Type::Option(inner) => is_wire_of(
            r,
            swift_type_text(*inner) + "?"@,
            option_decode(*inner, "0"@, m),
            false,
        ),
        _ => is_direct_of(r, swift_type_text(t), None),
    }
}

/// Whether `r` carries the result of a fallible call.
pub open spec fn fallible_abi_of(r: ReturnAbi, ok: Type, err: Type, m: Module) -> bool {
    is_wire_of(
        r,
        if ok is Void {
            "Void"@
        } else {
            swift_type_text(ok)
        },
        "try wire.readResultOrThrow(at: 0, ok: { "@ + ok_decode(ok, m) + " }, err: { "@
            + error_decode(err, error_type(err, m)) + " })"@,
        true,
    )
}

/// Whether `r` carries a result of type `rt` in module `m`.
pub open spec fn return_abi_of(r: ReturnAbi, rt: ReturnType, m: Module) -> bool {
    match rt {
        ReturnType::Void => r is Unit,
        ReturnType::Value(t) => value_abi_of(r, t, m),
        ReturnType::Fallible { ok, err } => fallible_abi_of(r, ok, err, m),
    }
}

// ---------------------------------------------------------------------------
// Lookups
// ---------------------------------------------------------------------------

/// Whether some enumeration of this name carries data.
fn has_data_enum(module: &Module, name: &String) -> (r: bool)
    ensures
        r == any_data_enum(module.enums@, name@),
{
    let mut i: usize = 0;
    while i < module.enums.len()
        invariant
            i <= module.enums@.len(),
            forall|k: int|
                0 <= k < i ==> !(#[trigger] module.enums@[k].name@ == name@ && !spec_is_c_style(
                    module.enums@[k].variants@,
                )),
        decreases module.enums@.len() - i,
    {
        if crate::text::text_eq(&module.enums[i].name, name) && module.enums[i].is_data_enum() {
            return true;
        }
        i = i + 1;
    }
    false
}

/// Whether some enumeration of this name is an error type.
fn has_error_enum(module: &Module, name: &String) -> (r: bool)
    ensures
        r == any_error_enum(module.enums@, name@),
{
    let mut i: usize = 0;
    while i < module.enums.len()
        invariant
            i <= module.enums@.len(),
            forall|k: int|
                0 <= k < i ==> !(#[trigger] module.enums@[k].name@ == name@ && module.enums@[k].is_error),
        decreases module.enums@.len() - i,
    {
        if crate::text::text_eq(&module.enums[i].name, name) && module.enums[i].is_error {
            return true;
        }
        i = i + 1;
    }
    false
}

/// Whether some record of this name is blittable.
fn has_blittable_record(module: &Module, name: &String) -> (r: bool)
    ensures
        r == any_blittable(module.records@, name@),
{
    let mut i: usize = 0;
    while i < module.records.len()
        invariant
            i <= module.records@.len(),
            forall|k: int|
                0 <= k < i ==> !(#[trigger] module.records@[k].name@ == name@ && spec_is_blittable(
                    module.records@[k].fields@,
                )),
        decreases module.records@.len() - i,
    {
        if crate::text::text_eq(&module.records[i].name, name) && module.records[i].is_blittable() {
            return true;
        }
        i = i + 1;
    }
    false
}

impl ReturnAbi {
    /// How a result of type `rt` crosses the C ABI.
    pub fn from_return_type(rt: &ReturnType, module: &Module) -> (r: Self)
        ensures
            return_abi_of(r, *rt, *module),
    {
        match rt {
            ReturnType::Void => ReturnAbi::Unit,
            ReturnType::Value(ty) => Self::from_value_type(ty, module),
            ReturnType::Fallible { ok, err } => Self::from_fallible(ok, err, module),
        }
    }

    /// How a plain value of type `ty` crosses the C ABI.
    pub fn from_value_type(ty: &Type, module: &Module) -> (r: Self)
        ensures
            value_abi_of(r, *ty, *module),
    {
        match ty {
            Type::Void => ReturnAbi::Unit,
            Type::Primitive(_) => ReturnAbi::Direct {
                swift_type: TypeMapper::map_type(ty),
                conversion: None,
            },
            Type::Enum(name) => {
                let c = NamingConvention::class_name(name.as_str());
                if has_data_enum(module, name) {
                    ReturnAbi::WireEncoded {
                        decode_expr: concat2(c.as_str(), "(wireBuffer: wire, at: 0)"),
                        swift_type: c,
                        throws: false,
                    }
                } else {
                    ReturnAbi::Direct {
                        conversion: Some(concat2(c.as_str(), "(fromC: $0)")),
                        swift_type: c,
                    }
                }
            },
            Type::Record(name) => {
                let c = NamingConvention::class_name(name.as_str());
                if has_blittable_record(module, name) {
                    ReturnAbi::Direct { swift_type: c, conversion: None }
                } else {
                    ReturnAbi::WireEncoded {
                        decode_expr: concat2(c.as_str(), "(wireBuffer: wire, at: 0)"),
                        swift_type: c,
                        throws: false,
                    }
                }
            },
            Type::String => ReturnAbi::WireEncoded {
                swift_type: string_of("String"),
                decode_expr: string_of("wire.readString(at: 0).value"),
                throws: false,
            },
            Type::Vec(inner) => {
                let i = TypeMapper::map_type(inner);
                ReturnAbi::WireEncoded {
                    swift_type: concat3("[", i.as_str(), "]"),
                    decode_expr: Self::vec_decode_expr(inner, "0", module),
                    throws: false,
                }
            },
            Type::Option(inner) => {
                let i = TypeMapper::map_type(inner);
                ReturnAbi::WireEncoded {
                    swift_type: concat2(i.as_str(), "?"),
                    decode_expr: Self::option_decode_expr(inner, "0", module),
                    throws: false,
                }
            },
            _ => ReturnAbi::Direct { swift_type: TypeMapper::map_type(ty), conversion: None },
        }
    }

    /// How the result of a fallible call crosses the C ABI: always encoded,
    /// and decoding throws the error.
    pub fn from_fallible(ok: &Type, err: &Type, module: &Module) -> (r: Self)
        ensures
            fallible_abi_of(r, *ok, *err, *module),
    {
        let ok_swift = TypeMapper::map_type(ok);
        let err_swift = Self::error_type_name(err, module);
        let ok_dec = Self::ok_decode_expr(ok, module);
        let err_dec = Self::error_decode_expr(err, err_swift.as_str());
        let mut d = concat3("try wire.readResultOrThrow(at: 0, ok: { ", ok_dec.as_str(), " }, err: { ");
        push_str(&mut d, err_dec.as_str());
        push_str(&mut d, " })");
        ReturnAbi::WireEncoded {
            swift_type: if ok.is_void() {
                string_of("Void")
            } else {
                ok_swift
            },
            decode_expr: d,
            throws: true,
        }
    }

    /// Decoding a fallible call's success value at `$0`.
    pub fn ok_decode_expr(ty: &Type, module: &Module) -> (r: String)
        ensures
            r@ == ok_decode(*ty, *module),
    {
        match ty {
            Type::Void => string_of("()"),
            Type::Primitive(p) => concat3("wire.", Self::primitive_read_fn(*p), "(at: $0)"),
            Type::String => string_of("wire.readString(at: $0).value"),
            Type::Enum(name) => Self::enum_decode_expr(name, module),
            Type::Record(name) => {
                let c = NamingConvention::class_name(name.as_str());
                concat2(c.as_str(), "(wireBuffer: wire, at: $0)")
            },
            Type::Vec(inner) => Self::vec_decode_expr(inner, "$0", module),
            Type::Option(inner) => Self::option_decode_expr(inner, "$0", module),
            _ => string_of("/* unsupported */"),
        }
    }

    /// Decoding an enumeration value at `$0`.
    fn enum_decode_expr(name: &String, module: &Module) -> (r: String)
        ensures
            r@ == enum_decode(name@, *module),
    {
        let c = NamingConvention::class_name(name.as_str());
        if has_data_enum(module, name) {
            concat2(c.as_str(), "(wireBuffer: wire, at: $0)")
        } else {
            concat2(c.as_str(), "(fromC: wire.readI32(at: $0))")
        }
    }

    /// The Swift error type of a fallible call.
    pub fn error_type_name(err: &Type, module: &Module) -> (r: String)
        ensures
            r@ == error_type(*err, *module),
    {
        match err {
            Type::Enum(name) => if has_error_enum(module, name) {
                NamingConvention::class_name(name.as_str())
            } else {
                string_of("FfiError")
            },
            _ => string_of("FfiError"),
        }
    }

    /// Decoding the error at `$0`.
    pub fn error_decode_expr(err: &Type, err_swift: &str) -> (r: String)
        ensures
            r@ == error_decode(*err, err_swift@),
    {
        match err {
            Type::String => string_of("FfiError(message: wire.readString(at: $0).value)"),
            Type::Enum(_) => concat2(err_swift, "(wireBuffer: wire, at: $0)"),
            _ => string_of("FfiError(message: \"unknown error\")"),
        }
    }

    /// Decoding a vector of `inner` at `at`.
    pub fn vec_decode_expr(inner: &Type, at: &str, module: &Module) -> (r: String)
        ensures
            r@ == vec_decode(*inner, at@, *module),
    {
        let e = Self::vec_element_decode(inner, module);
        let mut r = concat3("wire.readArray(at: ", at, ", reader: { ");
        push_str(&mut r, e.as_str());
        push_str(&mut r, " }).value");
        r
    }

    /// Decoding one element of a vector at `$0`.
    pub fn vec_element_decode(inner: &Type, module: &Module) -> (r: String)
        ensures
            r@ == element_decode(*inner, *module),
    {
        match inner {
            Type::Primitive(p) => concat3("wire.", Self::primitive_read_fn(*p), "(at: $0)"),
            Type::String => string_of("wire.readString(at: $0).value"),
            Type::Record(name) => {
                let c = NamingConvention::class_name(name.as_str());
                concat2(c.as_str(), "(wireBuffer: wire, at: $0)")
            },
            Type::Enum(name) => Self::enum_decode_expr(name, module),
            _ => string_of("/* unsupported */"),
        }
    }

    /// Decoding an optional `inner` at `at`.
    pub fn option_decode_expr(inner: &Type, at: &str, module: &Module) -> (r: String)
        ensures
            r@ == option_decode(*inner, at@, *module),
    {
        let e = Self::option_inner_decode(inner, module);
        let mut r = concat3("wire.readOptional(at: ", at, ", reader: { ");
        push_str(&mut r, e.as_str());
        push_str(&mut r, " }).value");
        r
    }

    /// Decoding the value of an optional at `$0`, with the width it takes.
    pub fn option_inner_decode(inner: &Type, module: &Module) -> (r: String)
        ensures
            r@ == option_inner_decode(*inner, *module),
    {
        match inner {
            Type::Primitive(p) => {
                let mut r = concat3("(wire.", Self::primitive_read_fn(*p), "(at: $0), ");
                push_str(
                    &mut r,
                    if p.fits_in_32_bits() {
                        "4"
                    } else {
                        "8"
                    },
                );
                push_str(&mut r, ")");
                r
            },
            Type::String => string_of("(wire.readString(at: $0).value, 0)"),
            Type::Record(name) => {
                let c = NamingConvention::class_name(name.as_str());
                concat3("(", c.as_str(), "(wireBuffer: wire, at: $0), 0)")
            },
            Type::Enum(name) => {
                let c = NamingConvention::class_name(name.as_str());
                if has_data_enum(module, name) {
                    concat3("(", c.as_str(), "(wireBuffer: wire, at: $0), 0)")
                } else {
                    concat3("(", c.as_str(), "(fromC: wire.readI32(at: $0)), 4)")
                }
            },
            _ => string_of("(/* unsupported */, 0)"),
        }
    }

    /// The wire reader of a primitive.
    pub fn primitive_read_fn(p: Primitive) -> (r: &'static str)
        ensures
            r@ == read_fn(p),
    {
        match p {
            Primitive::Bool => "readBool",
            Primitive::I8 => "readI8",
            Primitive::U8 => "readU8",
            Primitive::I16 => "readI16",
            Primitive::U16 => "readU16",
            Primitive::I32 => "readI32",
            Primitive::U32 => "readU32",
            Primitive::I64 => "readI64",
            Primitive::U64 => "readU64",
            Primitive::F32 => "readF32",
            Primitive::F64 => "readF64",
            Primitive::Isize => "readI64",
            Primitive::Usize => "readU64",
        }
    }

    /// Whether nothing comes back.
    pub fn is_unit(&self) -> (r: bool)
        ensures
            r == (*self is Unit),
    {
        matches!(self, ReturnAbi::Unit)
    }

    /// Whether a C value comes back.
    pub fn is_direct(&self) -> (r: bool)
        ensures
            r == (*self is Direct),
    {
        matches!(self, ReturnAbi::Direct { .. })
    }

    /// Whether a wire buffer comes back.
    pub fn is_wire_encoded(&self) -> (r: bool)
        ensures
            r == (*self is WireEncoded),
    {
        matches!(self, ReturnAbi::WireEncoded { .. })
    }

    /// Whether decoding may throw.
    pub fn throws(&self) -> (r: bool)
        ensures
            r == (match *self {
                ReturnAbi::WireEncoded { throws, .. } => throws,
                _ => false,
            }),
    {
        match self {
            ReturnAbi::WireEncoded { throws, .. } => *throws,
            _ => false,
        }
    }

    /// The Swift type of the result, if any.
    pub fn swift_type(&self) -> (r: Option<&str>)
        ensures
            match *self {
                ReturnAbi::Unit => r is None,
                ReturnAbi::Direct { swift_type, .. } => r matches Some(s) && s@ == swift_type@,
                ReturnAbi::WireEncoded { swift_type, .. } => r matches Some(s) && s@ == swift_type@,
            },
    {
        match self {
            ReturnAbi::Unit => None,
            ReturnAbi::Direct { swift_type, .. } | ReturnAbi::WireEncoded { swift_type, .. } => {
                Some(swift_type.as_str())
            },
        }
    }

    /// The decoding expression (empty unless encoded).
    pub fn decode_expr(&self) -> (r: &str)
        ensures
            r@ == (match *self {
                ReturnAbi::WireEncoded { decode_expr, .. } => decode_expr@,
                _ => ""@,
            }),
    {
        match self {
            ReturnAbi::WireEncoded { decode_expr, .. } => decode_expr.as_str(),
            _ => "",
        }
    }

    /// The conversion of a direct value, if any.
    pub fn conversion(&self) -> (r: Option<&str>)
        ensures
            match *self {
                ReturnAbi::Direct { conversion: Some(c), .. } => r matches Some(s) && s@ == c@,
                _ => r is None,
            },
    {
        match self {
            ReturnAbi::Direct { conversion: Some(c), .. } => Some(c.as_str()),
            _ => None,
        }
    }

    /// The call `ffi_call` with the direct conversion applied (every `$0`
    /// replaced by the call), or the call itself.
    pub fn direct_call_expr(&self, ffi_call: &str) -> (r: String)
        ensures
            r@ == (match *self {
                ReturnAbi::Direct { conversion: Some(c), .. } => replace_all(c@, "$0"@, ffi_call@),
                _ => ffi_call@,
            }),
    {
        match self {
            ReturnAbi::Direct { conversion: Some(c), .. } => replace_text(c.as_str(), "$0", ffi_call),
            _ => string_of(ffi_call),
        }
    }
}

/// The decoding expression of a result of type `rt` (empty unless it is
/// encoded).
pub open spec fn decode_text_of(rt: ReturnType, m: Module) -> Seq<char> {
    match rt {
        ReturnType::Void => ""@,
        ReturnType::Value(t) => match t {
            Type::Enum(n) => if any_data_enum(m.enums@, n@) {
                upper_camel_case(n@) + "(wireBuffer: wire, at: 0)"@
            } else {
                ""@
            },
            Type::Record(n) => if any_blittable(m.records@, n@) {
                ""@
            } else {
                upper_camel_case(n@) + "(wireBuffer: wire, at: 0)"@
            },
            Type::String => "wire.readString(at: 0).value"@,
            Type::Vec(inner) => vec_decode(*inner, "0"@, m),
            Type::Option(inner) => option_decode(*inner, "0"@, m),
            _ => ""@,
        },
        ReturnType::Fallible { ok, err } => "try wire.readResultOrThrow(at: 0, ok: { "@ + ok_decode(ok, m)
            + " }, err: { "@ + error_decode(err, error_type(err, m)) + " })"@,
    }
}

/// The decoding expression of the result's carrier.
pub open spec fn abi_decode_text(r: ReturnAbi) -> Seq<char> {
    match r {
        ReturnAbi::WireEncoded { decode_expr, .. } => decode_expr@,
        _ => ""@,
    }
}

/// The carrier of a result decodes it with `decode_text_of`.
pub proof fn lemma_decode_text(r: ReturnAbi, rt: ReturnType, m: Module)
    requires
        return_abi_of(r, rt, m),
    ensures
        abi_decode_text(r) == decode_text_of(rt, m),
{
}

} // verus!
