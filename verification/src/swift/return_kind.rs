//! How a function's result comes back to Swift, as the call templates need
//! to know it.

use vstd::prelude::*;
use crate::case::upper_camel_case;
use crate::model::{Module, ReturnType, Type};
use crate::naming::{ffi_prefix, spec_ffi_prefix};
use crate::text::{concat2, concat3, string_of};
use super::names::NamingConvention;
use super::options::{option_fits, option_inner_text, option_view_of, OptionView};
use super::types::{lemma_models_c_name, lemma_models_text, swift_type_text, type_c_name, SwiftType};

verus! {

/// The shape of a function's result on the Swift side.
pub enum ReturnKind<'a> {
    /// Nothing.
    Void,
    /// A C value used as it is.
    Direct,
    /// A string.
    String,
    /// An enumeration, by its Swift name.
    Enum { name: String },
    /// A record, by its Swift name.
    Record { name: String },
    /// A vector: the element's Swift type, whether it is a record, and the C
    /// buffer type and its release function.
    Vec { inner_type: String, is_struct: bool, buf_type: String, free_fn: String },
    /// An optional value.
    Option(OptionView<'a>),
    /// A fallible result: the success type and whether it is a vector.
    Result { ok_type: String, ok_is_vec: bool },
}

/// Whether `k` is the shape of a plain (non-optional) value of type `t`.
pub open spec fn kind_of_type(k: ReturnKind, t: Type) -> bool {
    match t {
        Type::Void => k is Void,
        Type::String => k is String,
        Type::Enum(n) => k matches ReturnKind::Enum { name } && name@ == upper_camel_case(n@),
        Type::Record(n) => k matches ReturnKind::Record { name } && name@ == upper_camel_case(n@),
        Type::Vec(e) => match k {
            ReturnKind::Vec { inner_type, is_struct, buf_type, free_fn } => {
                &&& inner_type@ == swift_type_text(*e)
                &&& is_struct == (*e is Record)
                &&& buf_type@ == "FfiBuf_"@ + type_c_name(*e)
                &&& free_fn@ == spec_ffi_prefix() + "_free_buf_"@ + type_c_name(*e)
            },
            _ => false,
        },
        Type::Result { ok, .. } => k matches ReturnKind::Result { ok_type, ok_is_vec } && ok_type@
            == swift_type_text(*ok) && ok_is_vec == (*ok is Vec),
        _ => k is Direct,
    }
}

/// Whether `k` is the shape of a result declared as `rt` in `m`.
pub open spec fn return_kind_of(k: ReturnKind, rt: ReturnType, m: Module) -> bool {
    match rt {
        ReturnType::Void => k is Void,
        ReturnType::Value(t) => match t {
            Type::Void => k is Void,
            Type::Option(inner) => k matches ReturnKind::Option(v) && option_view_of(v, *inner, m),
            _ => kind_of_type(k, t),
        },
        ReturnType::Fallible { ok, .. } => match ok {
            Type::Void => k matches ReturnKind::Result { ok_type, ok_is_vec } && ok_type@ == "Void"@
                && !ok_is_vec,
            Type::Option(inner) => k matches ReturnKind::Result { ok_type, ok_is_vec } && ok_type@
                == option_inner_text(*inner) && ok_is_vec == (*inner is Vec),
            _ => k matches ReturnKind::Result { ok_type, ok_is_vec } && ok_type@ == swift_type_text(ok)
                && ok_is_vec == (ok is Vec),
        },
    }
}

/// Whether the optional view `v` satisfies `p`, when `k` is optional.
pub open spec fn option_has(k: ReturnKind, p: spec_fn(OptionView) -> bool) -> bool {
    match k {
        ReturnKind::Option(v) => p(v),
        _ => false,
    }
}

/// Whether the C size of the record that an optional result holds fits a
/// `usize`.
pub open spec fn return_fits(rt: ReturnType, m: Module) -> bool {
    match rt {
        ReturnType::Value(t) => match t {
            Type::Option(inner) => option_fits(*inner, m),
            _ => true,
        },
        ReturnType::Fallible { ok, .. } => match ok {
            Type::Option(inner) => option_fits(*inner, m),
            _ => true,
        },
        _ => true,
    }
}

impl<'a> ReturnKind<'a> {
    /// The shape of a result declared as `declared` in `module`.
    pub fn from_returns(declared: &'a ReturnType, func_name: &str, module: &Module) -> (r: Self)
        requires
            return_fits(*declared, *module),
        ensures
            return_kind_of(r, *declared, *module),
    {
        match declared {
            ReturnType::Void => ReturnKind::Void,
            ReturnType::Value(ty) => match ty {
                Type::Void => ReturnKind::Void,
                Type::Option(inner) => ReturnKind::Option(OptionView::from_type(inner, func_name, module)),
                _ => Self::from_type(ty, func_name),
            },
            ReturnType::Fallible { ok, .. } => match ok {
                Type::Void => ReturnKind::Result { ok_type: string_of("Void"), ok_is_vec: false },
                Type::Option(inner) => {
                    let v = OptionView::from_type(inner, func_name, module);
                    let ok_is_vec = v.is_vec();
                    ReturnKind::Result { ok_type: v.inner_type, ok_is_vec }
                },
                _ => {
                    let s = SwiftType::from_model(ok);
                    proof {
                        lemma_models_text(s, *ok);
                    }
                    let ok_is_vec = matches!(s, SwiftType::Vec(_));
                    ReturnKind::Result { ok_type: s.swift_type(), ok_is_vec }
                },
            },
        }
    }

    /// The shape of a plain value of type `ty`.
    fn from_type(ty: &Type, _func_name: &str) -> (r: Self)
        ensures
            kind_of_type(r, *ty),
    {
        match ty {
            Type::Void => ReturnKind::Void,
            Type::String => ReturnKind::String,
            Type::Enum(n) => ReturnKind::Enum { name: NamingConvention::class_name(n.as_str()) },
            Type::Record(n) => ReturnKind::Record { name: NamingConvention::class_name(n.as_str()) },
            Type::Vec(e) => {
                let s = SwiftType::from_model(e);
                proof {
                    lemma_models_text(s, **e);
                    lemma_models_c_name(s, **e);
                }
                let c = s.cbindgen_name();
                ReturnKind::Vec {
                    inner_type: s.swift_type(),
                    is_struct: s.is_struct(),
                    buf_type: concat2("FfiBuf_", c.as_str()),
                    free_fn: concat3(ffi_prefix(), "_free_buf_", c.as_str()),
                }
            },
            Type::Result { ok, .. } => {
                let s = SwiftType::from_model(ok);
                proof {
                    lemma_models_text(s, **ok);
                }
                let ok_is_vec = matches!(s, SwiftType::Vec(_));
                ReturnKind::Result { ok_type: s.swift_type(), ok_is_vec }
            },
            _ => ReturnKind::Direct,
        }
    }

    /// Whether nothing comes back.
    pub fn is_void(&self) -> (r: bool)
        ensures
            r == (*self is Void),
    {
        matches!(self, ReturnKind::Void)
    }

    /// Whether a C value comes back as it is.
    pub fn is_direct(&self) -> (r: bool)
        ensures
            r == (*self is Direct),
    {
        matches!(self, ReturnKind::Direct)
    }

    /// Whether a string comes back.
    pub fn is_string(&self) -> (r: bool)
        ensures
            r == (*self is String),
    {
        matches!(self, ReturnKind::String)
    }

    /// Whether an enumeration comes back.
    pub fn is_enum(&self) -> (r: bool)
        ensures
            r == (*self is Enum),
    {
        matches!(self, ReturnKind::Enum { .. })
    }

    /// Whether a record comes back.
    pub fn is_record(&self) -> (r: bool)
        ensures
            r == (*self is Record),
    {
        matches!(self, ReturnKind::Record { .. })
    }

    /// Whether a vector comes back.
    pub fn is_vec(&self) -> (r: bool)
        ensures
            r == (*self is Vec),
    {
        matches!(self, ReturnKind::Vec { .. })
    }

    /// Whether an optional vector comes back.
    pub fn is_option_vec(&self) -> (r: bool)
        ensures
            r == option_has(*self, |v: OptionView| v.info.is_vec),
    {
        match self {
            ReturnKind::Option(v) => v.is_vec(),
            _ => false,
        }
    }

    /// Whether an optional value comes back.
    pub fn is_option(&self) -> (r: bool)
        ensures
            r == (*self is Option),
    {
        matches!(self, ReturnKind::Option(_))
    }

    /// Whether an optional single value comes back.
    pub fn is_option_scalar(&self) -> (r: bool)
        ensures
            r == option_has(*self, |v: OptionView| !v.info.is_vec),
    {
        match self {
            ReturnKind::Option(v) => v.is_scalar(),
            _ => false,
        }
    }

    /// Whether an optional primitive of at most 32 bits comes back.
    pub fn is_option_packed(&self) -> (r: bool)
        ensures
            r == (match *self {
                ReturnKind::Option(v) => !v.info.is_vec && match *v.info.inner {
                    Type::Primitive(p) => crate::model::spec_fits_in_32_bits(p),
                    _ => false,
                },
                _ => false,
            }),
    {
        match self {
            ReturnKind::Option(v) => v.is_packed(),
            _ => false,
        }
    }

    /// Whether an optional primitive wider than 32 bits comes back.
    pub fn is_option_large_primitive(&self) -> (r: bool)
        ensures
            r == (match *self {
                ReturnKind::Option(v) => !v.info.is_vec && match *v.info.inner {
                    Type::Primitive(p) => !crate::model::spec_fits_in_32_bits(p),
                    _ => false,
                },
                _ => false,
            }),
    {
        match self {
            ReturnKind::Option(v) => v.is_large_primitive(),
            _ => false,
        }
    }

    /// Whether an optional string comes back.
    pub fn is_option_string(&self) -> (r: bool)
        ensures
            r == option_has(*self, |v: OptionView| !v.info.is_vec && *v.info.inner is String),
    {
        match self {
            ReturnKind::Option(v) => v.is_string(),
            _ => false,
        }
    }

    /// Whether an optional record comes back.
    pub fn is_option_record(&self) -> (r: bool)
        ensures
            r == option_has(*self, |v: OptionView| !v.info.is_vec && *v.info.inner is Record),
    {
        match self {
            ReturnKind::Option(v) => v.is_record(),
            _ => false,
        }
    }

    /// Whether an optional plain enumeration comes back.
    pub fn is_option_enum(&self) -> (r: bool)
        ensures
            r == option_has(
                *self,
                |v: OptionView| !v.info.is_vec && *v.info.inner is Enum && !v.is_data_enum,
            ),
    {
        match self {
            ReturnKind::Option(v) => v.is_enum(),
            _ => false,
        }
    }

    /// Whether an optional data-carrying enumeration comes back.
    pub fn is_option_data_enum(&self) -> (r: bool)
        ensures
            r == option_has(
                *self,
                |v: OptionView| !v.info.is_vec && *v.info.inner is Enum && v.is_data_enum,
            ),
    {
        match self {
            ReturnKind::Option(v) => v.is_data_enum(),
            _ => false,
        }
    }

    /// The view of the optional value that comes back, if one does.
    pub fn option_view(&self) -> (r: Option<&OptionView<'a>>)
        ensures
            r == (match *self {
                ReturnKind::Option(v) => Some(&v),
                _ => None,
            }),
    {
        match self {
            ReturnKind::Option(v) => Some(v),
            _ => None,
        }
    }

    /// Whether a fallible result comes back.
    pub fn is_result(&self) -> (r: bool)
        ensures
            r == (*self is Result),
    {
        matches!(self, ReturnKind::Result { .. })
    }

    /// Whether a fallible result with a vector success value comes back.
    pub fn result_ok_is_vec(&self) -> (r: bool)
        ensures
            r == (*self matches ReturnKind::Result { ok_is_vec, .. } && ok_is_vec),
    {
        match self {
            ReturnKind::Result { ok_is_vec, .. } => *ok_is_vec,
            _ => false,
        }
    }

    /// Whether the call can throw.
    pub fn throws(&self) -> (r: bool)
        ensures
            r == (*self is Result),
    {
        matches!(self, ReturnKind::Result { .. })
    }

    /// The Swift name of the enumeration or record that comes back.
    pub fn named_type(&self) -> (r: Option<&str>)
        ensures
            match *self {
                ReturnKind::Enum { name } => r matches Some(s) && s@ == name@,
                ReturnKind::Record { name } => r matches Some(s) && s@ == name@,
                _ => r is None,
            },
    {
        match self {
            ReturnKind::Enum { name } | ReturnKind::Record { name } => Some(name.as_str()),
            _ => None,
        }
    }

    /// The Swift type inside what comes back: a vector's element, an
    /// optional value's type, a result's success type.
    pub fn inner_type(&self) -> (r: Option<&str>)
        ensures
            match *self {
                ReturnKind::Vec { inner_type, .. } => r matches Some(s) && s@ == inner_type@,
                ReturnKind::Option(v) => r matches Some(s) && s@ == v.inner_type@,
                ReturnKind::Result { ok_type, .. } => r matches Some(s) && s@ == ok_type@,
                _ => r is None,
            },
    {
        match self {
            ReturnKind::Vec { inner_type, .. } => Some(inner_type.as_str()),
            ReturnKind::Option(v) => Some(v.inner_type.as_str()),
            ReturnKind::Result { ok_type, .. } => Some(ok_type.as_str()),
            _ => None,
        }
    }

    /// Whether a vector of records comes back.
    pub fn vec_is_struct(&self) -> (r: bool)
        ensures
            r == (*self matches ReturnKind::Vec { is_struct, .. } && is_struct),
    {
        match self {
            ReturnKind::Vec { is_struct, .. } => *is_struct,
            _ => false,
        }
    }

    /// The C buffer type of a vector that comes back.
    pub fn vec_buf_type(&self) -> (r: Option<&str>)
        ensures
            match *self {
                ReturnKind::Vec { buf_type, .. } => r matches Some(s) && s@ == buf_type@,
                _ => r is None,
            },
    {
        match self {
            ReturnKind::Vec { buf_type, .. } => Some(buf_type.as_str()),
            _ => None,
        }
    }

    /// The release function of a vector that comes back.
    pub fn vec_free_fn(&self) -> (r: Option<&str>)
        ensures
            match *self {
                ReturnKind::Vec { free_fn, .. } => r matches Some(s) && s@ == free_fn@,
                _ => r is None,
            },
    {
        match self {
            ReturnKind::Vec { free_fn, .. } => Some(free_fn.as_str()),
            _ => None,
        }
    }

    /// Whether an optional vector of records comes back.
    pub fn option_vec_is_struct(&self) -> (r: bool)
        ensures
            r == option_has(*self, |v: OptionView| v.info.is_vec && v.is_struct),
    {
        match self {
            ReturnKind::Option(v) => v.is_vec() && v.is_struct,
            _ => false,
        }
    }

    /// The C buffer type of an optional vector that comes back.
    pub fn option_vec_buf_type(&self) -> (r: Option<&str>)
        ensures
            match *self {
                ReturnKind::Option(v) => if v.info.is_vec {
                    r matches Some(s) && s@ == v.buf_type@
                } else {
                    r is None
                },
                _ => r is None,
            },
    {
        match self {
            ReturnKind::Option(v) => if v.is_vec() {
                Some(v.buf_type.as_str())
            } else {
                None
            },
            _ => None,
        }
    }

    /// The release function of an optional vector that comes back.
    pub fn option_vec_free_fn(&self) -> (r: Option<&str>)
        ensures
            match *self {
                ReturnKind::Option(v) => if v.info.is_vec {
                    r matches Some(s) && s@ == v.free_fn@
                } else {
                    r is None
                },
                _ => r is None,
            },
    {
        match self {
            ReturnKind::Option(v) => if v.is_vec() {
                Some(v.free_fn.as_str())
            } else {
                None
            },
            _ => None,
        }
    }

    /// Whether an optional vector of strings comes back.
    pub fn option_vec_is_string(&self) -> (r: bool)
        ensures
            r == option_has(
                *self,
                |v: OptionView| v.info.is_vec && match *v.info.inner {
                    Type::Vec(e) => *e is String,
                    _ => false,
                },
            ),
    {
        match self {
            ReturnKind::Option(v) => v.is_vec_string(),
            _ => false,
        }
    }

    /// Whether an optional vector of plain enumerations comes back.
    pub fn option_vec_is_enum(&self) -> (r: bool)
        ensures
            r == option_has(
                *self,
                |v: OptionView| v.info.is_vec && match *v.info.inner {
                    Type::Vec(e) => *e is Enum && !v.is_data_enum,
                    _ => false,
                },
            ),
    {
        match self {
            ReturnKind::Option(v) => v.is_vec_enum(),
            _ => false,
        }
    }
}

} // verus!
