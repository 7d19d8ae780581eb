//! How optional values cross the C ABI to Swift.

use vstd::prelude::*;
use crate::model::{spec_enum_is_data, spec_fits_in_32_bits, spec_struct_size, Module, Record, Type};
use crate::naming::{ffi_prefix, spec_ffi_prefix};
use crate::text::{concat2, concat3, string_of};
use super::types::{lemma_models_c_name, lemma_models_text, swift_type_text, type_c_name, SwiftType};

verus! {

/// The shape of an optional value of type `inner`.
pub struct OptionInfo<'a> {
    pub inner: &'a Type,
    pub is_vec: bool,
    pub ffi_type: String,
}

/// The C type carrying an optional value of type `t`.
pub open spec fn option_ffi_type(t: Type) -> Seq<char> {
    match t {
        Type::Vec(v) => "FfiOptionBuf_"@ + type_c_name(*v),
        _ => "FfiOption_"@ + type_c_name(t),
    }
}

/// The enumeration an optional value holds (alone or in a vector), if any.
pub open spec fn option_enum(t: Type) -> Option<String> {
    match t {
        Type::Enum(n) => Some(n),
        Type::Vec(v) => match *v {
            Type::Enum(n) => Some(n),
            _ => None,
        },
        _ => None,
    }
}

/// The record an optional value holds (alone or in a vector), if any.
pub open spec fn option_record(t: Type) -> Option<String> {
    match t {
        Type::Record(n) => Some(n),
        Type::Vec(v) => match *v {
            Type::Record(n) => Some(n),
            _ => None,
        },
        _ => None,
    }
}

/// Whether the optional value holds a data-carrying enumeration.
pub open spec fn option_is_data_enum(t: Type, m: Module) -> bool {
    match option_enum(t) {
        Some(n) => spec_enum_is_data(m.enums@, n@),
        None => false,
    }
}

/// The C size of the first record of this name (0 when there is none).
pub open spec fn record_size(rs: Seq<Record>, name: Seq<char>) -> nat
    decreases rs.len(),
{
    if rs.len() == 0 {
        0
    } else if rs[0].name@ == name {
        spec_struct_size(rs[0].fields@)
    } else {
        record_size(rs.drop_first(), name)
    }
}

/// The C size of the record an optional value holds (0 for anything else).
pub open spec fn option_struct_size(t: Type, m: Module) -> nat {
    match option_record(t) {
        Some(n) => record_size(m.records@, n@),
        None => 0,
    }
}

/// Whether the C size of the record an optional value holds fits a `usize`.
pub open spec fn option_fits(t: Type, m: Module) -> bool {
    option_struct_size(t, m) <= usize::MAX
}

impl<'a> OptionInfo<'a> {
    /// The shape of an optional value of type `inner`.
    pub fn from_type(inner: &'a Type) -> (r: Self)
        ensures
            r.inner == inner,
            r.is_vec == (*inner is Vec),
            r.ffi_type@ == option_ffi_type(*inner),
    {
        let ffi_type = match inner {
            Type::Vec(v) => {
                let s = SwiftType::from_model(v);
                proof {
                    lemma_models_c_name(s, **v);
                }
                let c = s.cbindgen_name();
                concat2("FfiOptionBuf_", c.as_str())
            },
            _ => {
                let s = SwiftType::from_model(inner);
                proof {
                    lemma_models_c_name(s, *inner);
                }
                let c = s.cbindgen_name();
                concat2("FfiOption_", c.as_str())
            },
        };
        OptionInfo { inner, is_vec: matches!(inner, Type::Vec(_)), ffi_type }
    }

    /// Whether the value holds a data-carrying enumeration of `module`.
    pub fn is_data_enum(&self, module: &Module) -> (r: bool)
        ensures
            r == option_is_data_enum(*self.inner, *module),
    {
        match self.inner {
            Type::Enum(n) => module.enum_is_data(n),
            Type::Vec(v) => match &**v {
                Type::Enum(n) => module.enum_is_data(n),
                _ => false,
            },
            _ => false,
        }
    }

    /// The C size of the record the value holds (0 for anything else).
    pub fn struct_size(&self, module: &Module) -> (r: usize)
        requires
            option_fits(*self.inner, *module),
        ensures
            r == option_struct_size(*self.inner, *module),
    {
        match self.inner {
            Type::Record(n) => record_size_in(module, n),
            Type::Vec(v) => match &**v {
                Type::Record(n) => record_size_in(module, n),
                _ => 0,
            },
            _ => 0,
        }
    }
}

/// The C size of the first record of this name in `module` (0 when there is
/// none).
fn record_size_in(module: &Module, name: &String) -> (r: usize)
    requires
        record_size(module.records@, name@) <= usize::MAX,
    ensures
        r == record_size(module.records@, name@),
{
    let ghost rs = module.records@;
    assert(rs.subrange(0, rs.len() as int) =~= rs);
    let mut i: usize = 0;
    while i < module.records.len()
        invariant
            rs == module.records@,
            record_size(rs, name@) <= usize::MAX,
            i <= rs.len(),
            record_size(rs, name@) == record_size(rs.subrange(i as int, rs.len() as int), name@),
        decreases rs.len() - i,
    {
        let ghost rest = rs.subrange(i as int, rs.len() as int);
        assert(rest[0] == rs[i as int]);
        assert(rest.drop_first() =~= rs.subrange(i + 1, rs.len() as int));
        if crate::text::text_eq(&module.records[i].name, name) {
            return module.records[i].struct_size();
        }
        i = i + 1;
    }
    0
}

/// The Swift view of an optional value.
pub struct OptionView<'a> {
    pub info: OptionInfo<'a>,
    pub inner_type: String,
    pub is_struct: bool,
    pub is_data_enum: bool,
    pub struct_size: usize,
    pub buf_type: String,
    pub free_fn: String,
}

/// The Swift spelling of what an optional value holds: the element type
/// of a vector, else the type itself.
pub open spec fn option_inner_text(t: Type) -> Seq<char> {
    match t {
        Type::Vec(v) => swift_type_text(*v),
        _ => swift_type_text(t),
    }
}

/// Whether the value (or the vector's element) is a record.
pub open spec fn option_is_struct(t: Type) -> bool {
    match t {
        Type::Vec(v) => *v is Record,
        _ => t is Record,
    }
}

/// Whether `v` is the view of an optional value of type `t` in `m`.
pub open spec fn option_view_of(v: OptionView, t: Type, m: Module) -> bool {
    &&& *v.info.inner == t
    &&& v.info.is_vec == (t is Vec)
    &&& v.info.ffi_type@ == option_ffi_type(t)
    &&& v.inner_type@ == option_inner_text(t)
    &&& v.is_struct == option_is_struct(t)
    &&& v.is_data_enum == option_is_data_enum(t, m)
    &&& v.struct_size == option_struct_size(t, m)
    &&& v.buf_type@ == (match t {
        Type::Vec(e) => "FfiBuf_"@ + type_c_name(*e),
        _ => ""@,
    })
    &&& v.free_fn@ == (match t {
        Type::Vec(e) => spec_ffi_prefix() + "_free_buf_"@ + type_c_name(*e),
        _ => ""@,
    })
}

impl<'a> OptionView<'a> {
    /// The view of an optional value of type `inner` in `module`.
    pub fn from_type(inner: &'a Type, _func_name: &str, module: &Module) -> (r: Self)
        requires
            option_fits(*inner, *module),
        ensures
            option_view_of(r, *inner, *module),
    {
        let info = OptionInfo::from_type(inner);
        let is_data_enum = info.is_data_enum(module);
        let struct_size = info.struct_size(module);
        match inner {
            Type::Vec(e) => {
                let s = SwiftType::from_model(e);
                proof {
                    lemma_models_text(s, **e);
                    lemma_models_c_name(s, **e);
                }
                let c = s.cbindgen_name();
                OptionView {
                    info,
                    inner_type: s.swift_type(),
                    is_struct: s.is_struct(),
                    is_data_enum,
                    struct_size,
                    buf_type: concat2("FfiBuf_", c.as_str()),
                    free_fn: concat3(ffi_prefix(), "_free_buf_", c.as_str()),
                }
            },
            _ => {
                let s = SwiftType::from_model(inner);
                proof {
                    lemma_models_text(s, *inner);
                    lemma_models_c_name(s, *inner);
                }
                OptionView {
                    info,
                    inner_type: s.swift_type(),
                    is_struct: s.is_struct(),
                    is_data_enum,
                    struct_size,
                    buf_type: string_of(""),
                    free_fn: string_of(""),
                }
            },
        }
    }

    /// Whether the value is a vector.
    pub fn is_vec(&self) -> (r: bool)
        ensures
            r == self.info.is_vec,
    {
        self.info.is_vec
    }

    /// Whether the value is a single value, no vector.
    pub fn is_scalar(&self) -> (r: bool)
        ensures
            r == !self.info.is_vec,
    {
        !self.info.is_vec
    }

    /// Whether the value is a primitive of at most 32 bits, packed with its
    /// presence flag.
    pub fn is_packed(&self) -> (r: bool)
        ensures
            r == (!self.info.is_vec && match *self.info.inner {
                Type::Primitive(p) => spec_fits_in_32_bits(p),
                _ => false,
            }),
    {
        !self.info.is_vec && match self.info.inner.primitive() {
            Some(p) => p.fits_in_32_bits(),
            None => false,
        }
    }

    /// Whether the value is a primitive wider than 32 bits.
    pub fn is_large_primitive(&self) -> (r: bool)
        ensures
            r == (!self.info.is_vec && match *self.info.inner {
                Type::Primitive(p) => !spec_fits_in_32_bits(p),
                _ => false,
            }),
    {
        !self.info.is_vec && match self.info.inner.primitive() {
            Some(p) => !p.fits_in_32_bits(),
            None => false,
        }
    }

    /// Whether the value is a string.
    pub fn is_string(&self) -> (r: bool)
        ensures
            r == (!self.info.is_vec && *self.info.inner is String),
    {
        !self.info.is_vec && self.info.inner.is_string()
    }

    /// Whether the value is a record.
    pub fn is_record(&self) -> (r: bool)
        ensures
            r == (!self.info.is_vec && *self.info.inner is Record),
    {
        !self.info.is_vec && self.info.inner.is_record()
    }

    /// Whether the value is a plain enumeration.
    pub fn is_enum(&self) -> (r: bool)
        ensures
            r == (!self.info.is_vec && *self.info.inner is Enum && !self.is_data_enum),
    {
        !self.info.is_vec && self.info.inner.is_enum() && !self.is_data_enum
    }

    /// Whether the value is a data-carrying enumeration.
    pub fn is_data_enum(&self) -> (r: bool)
        ensures
            r == (!self.info.is_vec && *self.info.inner is Enum && self.is_data_enum),
    {
        !self.info.is_vec && self.info.inner.is_enum() && self.is_data_enum
    }

    /// Whether the value is a vector of strings.
    pub fn is_vec_string(&self) -> (r: bool)
        ensures
            r == (self.info.is_vec && match *self.info.inner {
                Type::Vec(e) => *e is String,
                _ => false,
            }),
    {
        self.info.is_vec && match self.info.inner.vec_inner() {
            Some(t) => t.is_string(),
            None => false,
        }
    }

    /// Whether the value is a vector of plain enumerations.
    pub fn is_vec_enum(&self) -> (r: bool)
        ensures
            r == (self.info.is_vec && match *self.info.inner {
                Type::Vec(e) => *e is Enum && !self.is_data_enum,
                _ => false,
            }),
    {
        self.info.is_vec && match self.info.inner.vec_inner() {
            Some(t) => t.is_enum() && !self.is_data_enum,
            None => false,
        }
    }

    /// The C type carrying the optional value.
    pub fn ffi_option_type(&self) -> (r: &str)
        ensures
            r@ == self.info.ffi_type@,
    {
        self.info.ffi_type.as_str()
    }
}

} // verus!
