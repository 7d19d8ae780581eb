//! The model of an exported Rust API that every generator reads: primitive
//! and composite types, records, enumerations, functions, classes and
//! callback traits, with builders that state exactly what they add.

use vstd::prelude::*;
use crate::text::string_of;

verus! {

/// A primitive Rust scalar.
#[derive(Clone, Copy, Debug, PartialEq, Eq, Structural)]
pub enum Primitive {
    Bool,
    I8,
    U8,
    I16,
    U16,
    I32,
    U32,
    I64,
    U64,
    Isize,
    Usize,
    F32,
    F64,
}

/// A type that crosses the boundary.
#[derive(Debug)]
pub enum Type {
    Void,
    Primitive(Primitive),
    String,
    Bytes,
    Slice(Box<Type>),
    MutSlice(Box<Type>),
    Vec(Box<Type>),
    Option(Box<Type>),
    Result { ok: Box<Type>, err: Box<Type> },
    Enum(String),
    Record(String),
    Object(String),
    BoxedTrait(String),
    Closure(ClosureSignature),
}

/// The shape of a closure parameter: its argument types and its result.
#[derive(Debug)]
pub struct ClosureSignature {
    pub params: Vec<Type>,
    pub returns: Box<Type>,
}

/// What a function gives back.
#[derive(Debug)]
pub enum ReturnType {
    Void,
    Value(Type),
    Fallible { ok: Type, err: Type },
}

/// A named field of a record or of an enum variant.
#[derive(Debug)]
pub struct RecordField {
    pub name: String,
    pub field_type: Type,
}

/// A record (a struct passed by value).
#[derive(Debug)]
pub struct Record {
    pub name: String,
    pub fields: Vec<RecordField>,
}

/// One variant of an enumeration.
#[derive(Debug)]
pub struct Variant {
    pub name: String,
    pub discriminant: Option<i64>,
    pub fields: Vec<RecordField>,
}

/// An enumeration, plain (all variants without fields) or carrying data.
#[derive(Debug)]
pub struct Enumeration {
    pub name: String,
    pub variants: Vec<Variant>,
    pub is_error: bool,
}

/// A function parameter.
#[derive(Debug)]
pub struct Parameter {
    pub name: String,
    pub param_type: Type,
}

/// A free function.
#[derive(Debug)]
pub struct Function {
    pub name: String,
    pub inputs: Vec<Parameter>,
    pub returns: ReturnType,
    pub is_async: bool,
}

/// How a method receives its object.
#[derive(Clone, Copy, Debug, PartialEq, Eq, Structural)]
pub enum Receiver {
    Ref,
    RefMut,
    Owned,
    Static,
}

/// A deprecation notice.
#[derive(Debug)]
pub struct Deprecation {
    pub message: Option<String>,
}

/// A method of a class.
#[derive(Debug)]
pub struct Method {
    pub name: String,
    pub receiver: Receiver,
    pub inputs: Vec<Parameter>,
    pub returns: ReturnType,
    pub is_async: bool,
    pub doc: Option<String>,
    pub deprecated: Option<Deprecation>,
}

/// A constructor parameter.
#[derive(Debug)]
pub struct ConstructorParam {
    pub name: String,
    pub param_type: Type,
}

/// A constructor of a class; the one named `new` is the default constructor.
#[derive(Debug)]
pub struct Constructor {
    pub name: String,
    pub inputs: Vec<ConstructorParam>,
    pub doc: Option<String>,
}

/// How a stream hands its items over.
#[derive(Clone, Copy, Debug, PartialEq, Eq, Structural)]
pub enum StreamMode {
    Async,
    Batch,
    Callback,
}

/// A stream exposed by a class.
#[derive(Debug)]
pub struct StreamMethod {
    pub name: String,
    pub item_type: Type,
    pub mode: StreamMode,
    pub doc: Option<String>,
}

/// A class (an object passed by handle).
#[derive(Debug)]
pub struct Class {
    pub name: String,
    pub doc: Option<String>,
    pub deprecated: Option<Deprecation>,
    pub constructors: Vec<Constructor>,
    pub methods: Vec<Method>,
    pub streams: Vec<StreamMethod>,
}

/// A parameter of a callback-trait method.
#[derive(Debug)]
pub struct TraitMethodParam {
    pub name: String,
    pub param_type: Type,
}

/// A method of a callback trait.
#[derive(Debug)]
pub struct TraitMethod {
    pub name: String,
    pub inputs: Vec<TraitMethodParam>,
    pub returns: ReturnType,
    pub is_async: bool,
}

/// A trait that the foreign side implements and Rust calls back into.
#[derive(Debug)]
pub struct CallbackTrait {
    pub name: String,
    pub doc: Option<String>,
    pub methods: Vec<TraitMethod>,
}

/// Everything a crate exports.
#[derive(Debug)]
pub struct Module {
    pub name: String,
    pub enums: Vec<Enumeration>,
    pub records: Vec<Record>,
    pub functions: Vec<Function>,
    pub classes: Vec<Class>,
    pub callback_traits: Vec<CallbackTrait>,
}

// ---------------------------------------------------------------------------
// Primitive facts
// ---------------------------------------------------------------------------

/// Size in bytes of a primitive in the C layout.
pub open spec fn primitive_size(p: Primitive) -> nat {
    match p {
        Primitive::Bool | Primitive::I8 | Primitive::U8 => 1,
        Primitive::I16 | Primitive::U16 => 2,
        Primitive::I32 | Primitive::U32 | Primitive::F32 => 4,
        _ => 8,
    }
}

/// Whether the value fits in 32 bits.
pub open spec fn spec_fits_in_32_bits(p: Primitive) -> bool {
    primitive_size(p) <= 4
}

impl Primitive {
    /// Size in bytes in the C layout (also its alignment).
    pub fn size(&self) -> (r: usize)
        ensures
            r == primitive_size(*self),
    {
        match self {
            Primitive::Bool | Primitive::I8 | Primitive::U8 => 1,
            Primitive::I16 | Primitive::U16 => 2,
            Primitive::I32 | Primitive::U32 | Primitive::F32 => 4,
            _ => 8,
        }
    }

    /// Whether the value fits in 32 bits.
    pub fn fits_in_32_bits(&self) -> (r: bool)
        ensures
            r == spec_fits_in_32_bits(*self),
    {
        self.size() <= 4
    }

    /// The Rust spelling of the primitive.
    pub fn rust_name(&self) -> (r: &'static str)
        ensures
            r@ == primitive_rust_name(*self),
    {
        match self {
            Primitive::Bool => "bool",
            Primitive::I8 => "i8",
            Primitive::U8 => "u8",
            Primitive::I16 => "i16",
            Primitive::U16 => "u16",
            Primitive::I32 => "i32",
            Primitive::U32 => "u32",
            Primitive::I64 => "i64",
            Primitive::U64 => "u64",
            Primitive::Isize => "isize",
            Primitive::Usize => "usize",
            Primitive::F32 => "f32",
            Primitive::F64 => "f64",
        }
    }

    /// The C spelling of the primitive in a generated header.
    pub fn cbindgen_name(&self) -> (r: &'static str)
        ensures
            r@ == primitive_c_name(*self),
    {
        match self {
            Primitive::Bool => "bool",
            Primitive::I8 => "int8_t",
            Primitive::U8 => "uint8_t",
            Primitive::I16 => "int16_t",
            Primitive::U16 => "uint16_t",
            Primitive::I32 => "int32_t",
            Primitive::U32 => "uint32_t",
            Primitive::I64 => "int64_t",
            Primitive::U64 => "uint64_t",
            Primitive::Isize => "intptr_t",
            Primitive::Usize => "uintptr_t",
            Primitive::F32 => "float",
            Primitive::F64 => "double",
        }
    }

    /// The zero value of the primitive as a literal.
    pub fn default_value(&self) -> (r: &'static str)
        ensures
            r@ == primitive_default(*self),
    {
        match self {
            Primitive::Bool => "false",
            Primitive::F32 | Primitive::F64 => "0.0",
            _ => "0",
        }
    }
}

/// The Rust spelling of a primitive.
pub open spec fn primitive_rust_name(p: Primitive) -> Seq<char> {
    match p {
        Primitive::Bool => "bool"@,
        Primitive::I8 => "i8"@,
        Primitive::U8 => "u8"@,
        Primitive::I16 => "i16"@,
        Primitive::U16 => "u16"@,
        Primitive::I32 => "i32"@,
        Primitive::U32 => "u32"@,
        Primitive::I64 => "i64"@,
        Primitive::U64 => "u64"@,
        Primitive::Isize => "isize"@,
        Primitive::Usize => "usize"@,
        Primitive::F32 => "f32"@,
        Primitive::F64 => "f64"@,
    }
}

/// The C spelling of a primitive.
pub open spec fn primitive_c_name(p: Primitive) -> Seq<char> {
    match p {
        Primitive::Bool => "bool"@,
        Primitive::I8 => "int8_t"@,
        Primitive::U8 => "uint8_t"@,
        Primitive::I16 => "int16_t"@,
        Primitive::U16 => "uint16_t"@,
        Primitive::I32 => "int32_t"@,
        Primitive::U32 => "uint32_t"@,
        Primitive::I64 => "int64_t"@,
        Primitive::U64 => "uint64_t"@,
        Primitive::Isize => "intptr_t"@,
        Primitive::Usize => "uintptr_t"@,
        Primitive::F32 => "float"@,
        Primitive::F64 => "double"@,
    }
}

/// The zero literal of a primitive.
pub open spec fn primitive_default(p: Primitive) -> Seq<char> {
    match p {
        Primitive::Bool => "false"@,
        Primitive::F32 | Primitive::F64 => "0.0"@,
        _ => "0"@,
    }
}

// ---------------------------------------------------------------------------
// Type queries
// ---------------------------------------------------------------------------

impl Type {
    /// Whether this is `Void`.
    pub fn is_void(&self) -> (r: bool)
        ensures
            r == (*self is Void),
    {
        matches!(self, Type::Void)
    }

    /// Whether this is `String`.
    pub fn is_string(&self) -> (r: bool)
        ensures
            r == (*self is String),
    {
        matches!(self, Type::String)
    }

    /// Whether this names a record.
    pub fn is_record(&self) -> (r: bool)
        ensures
            r == (*self is Record),
    {
        matches!(self, Type::Record(_))
    }

    /// Whether this names an enumeration.
    pub fn is_enum(&self) -> (r: bool)
        ensures
            r == (*self is Enum),
    {
        matches!(self, Type::Enum(_))
    }

    /// The primitive, if this is one.
    pub fn primitive(&self) -> (r: Option<Primitive>)
        ensures
            r == (match *self {
                Type::Primitive(p) => Some(p),
                _ => None,
            }),
    {
        match self {
            Type::Primitive(p) => Some(*p),
            _ => None,
        }
    }

    /// The element type, if this is a `Vec`.
    pub fn vec_inner(&self) -> (r: Option<&Type>)
        ensures
            r == (match *self {
                Type::Vec(inner) => Some(&*inner),
                _ => None,
            }),
    {
        match self {
            Type::Vec(inner) => Some(&**inner),
            _ => None,
        }
    }
}

/// The short tag of a primitive used in generated identifiers.
pub open spec fn primitive_tag(p: Primitive) -> Seq<char> {
    match p {
        Primitive::Bool => "Bool"@,
        Primitive::I8 => "I8"@,
        Primitive::U8 => "U8"@,
        Primitive::I16 => "I16"@,
        Primitive::U16 => "U16"@,
        Primitive::I32 => "I32"@,
        Primitive::U32 => "U32"@,
        Primitive::I64 => "I64"@,
        Primitive::U64 => "U64"@,
        Primitive::Isize => "Isize"@,
        Primitive::Usize => "Usize"@,
        Primitive::F32 => "F32"@,
        Primitive::F64 => "F64"@,
    }
}

/// The identifier fragment that names a type in generated identifiers.
pub open spec fn type_tag(t: Type) -> Seq<char>
    decreases t,
{
    match t {
        Type::Void => "Void"@,
        Type::Primitive(p) => primitive_tag(p),
        Type::String => "String"@,
        Type::Bytes => "Bytes"@,
        Type::Slice(inner) => "Slice"@ + type_tag(*inner),
        Type::MutSlice(inner) => "MutSlice"@ + type_tag(*inner),
        Type::Vec(inner) => "Vec"@ + type_tag(*inner),
        Type::Option(inner) => "Option"@ + type_tag(*inner),
        Type::Result { ok, err } => "Result"@ + type_tag(*ok) + type_tag(*err),
        Type::Enum(n) => n@,
        Type::Record(n) => n@,
        Type::Object(n) => n@,
        Type::BoxedTrait(n) => n@,
        Type::Closure(sig) => "Fn"@ + type_tag_list(sig.params@) + "To"@ + type_tag(*sig.returns),
    }
}

/// The tags of a list of types, concatenated.
pub open spec fn type_tag_list(ps: Seq<Type>) -> Seq<char>
    decreases ps,
{
    if ps.len() == 0 {
        Seq::empty()
    } else {
        type_tag_list(ps.subrange(0, ps.len() - 1)) + type_tag(ps[ps.len() - 1])
    }
}

/// The identifier of a closure signature: `Fn`, the argument tags, `To`,
/// and the result tag.
pub open spec fn spec_signature_id(sig: ClosureSignature) -> Seq<char> {
    "Fn"@ + type_tag_list(sig.params@) + "To"@ + type_tag(*sig.returns)
}

fn primitive_tag_exec(p: Primitive) -> (r: &'static str)
    ensures
        r@ == primitive_tag(p),
{
    match p {
        Primitive::Bool => "Bool",
        Primitive::I8 => "I8",
        Primitive::U8 => "U8",
        Primitive::I16 => "I16",
        Primitive::U16 => "U16",
        Primitive::I32 => "I32",
        Primitive::U32 => "U32",
        Primitive::I64 => "I64",
        Primitive::U64 => "U64",
        Primitive::Isize => "Isize",
        Primitive::Usize => "Usize",
        Primitive::F32 => "F32",
        Primitive::F64 => "F64",
    }
}

/// The identifier fragment of a type.
#[verifier::loop_isolation(false)]
pub fn type_tag_exec(t: &Type) -> (r: String)
    ensures
        r@ == type_tag(*t),
    decreases t,
{
    match t {
        Type::Void => string_of("Void"),
        Type::Primitive(p) => string_of(primitive_tag_exec(*p)),
        Type::String => string_of("String"),
        Type::Bytes => string_of("Bytes"),
        Type::Slice(inner) => {
            let i = type_tag_exec(inner);
            crate::text::concat2("Slice", i.as_str())
        },
        Type::MutSlice(inner) => {
            let i = type_tag_exec(inner);
            crate::text::concat2("MutSlice", i.as_str())
        },
        Type::Vec(inner) => {
            let i = type_tag_exec(inner);
            crate::text::concat2("Vec", i.as_str())
        },
        Type::Option(inner) => {
            let i = type_tag_exec(inner);
            crate::text::concat2("Option", i.as_str())
        },
        Type::Result { ok, err } => {
            let o = type_tag_exec(ok);
            let e = type_tag_exec(err);
            crate::text::concat3("Result", o.as_str(), e.as_str())
        },
        Type::Enum(n) | Type::Record(n) | Type::Object(n) | Type::BoxedTrait(n) => crate::text::copy_string(n),
        Type::Closure(sig) => {
            let mut acc = String::new();
            let mut i: usize = 0;
            while i < sig.params.len()
                invariant
                    i <= sig.params@.len(),
                    acc@ == type_tag_list(sig.params@.subrange(0, i as int)),
                decreases sig.params@.len() - i,
            {
                proof {
                    assert(decreases_to!(*t => *sig));
                    assert(decreases_to!(*sig => sig.params));
                    assert(decreases_to!(sig.params => sig.params@));
                    assert(decreases_to!(sig.params@ => sig.params@[i as int]));
                }
                let x = type_tag_exec(&sig.params[i]);
                crate::text::push_str(&mut acc, x.as_str());
                proof {
                    assert(sig.params@.subrange(0, i + 1).subrange(0, i as int)
                        =~= sig.params@.subrange(0, i as int));
                }
                i = i + 1;
            }
            assert(sig.params@.subrange(0, i as int) =~= sig.params@);
            let ret = type_tag_exec(&sig.returns);
            let mut r = crate::text::concat3("Fn", acc.as_str(), "To");
            crate::text::push_str(&mut r, ret.as_str());
            r
        },
    }
}

impl ClosureSignature {
    /// The signature's identifier.
    pub fn signature_id(&self) -> (r: String)
        ensures
            r@ == spec_signature_id(*self),
    {
        let mut acc = String::new();
        let mut i: usize = 0;
        while i < self.params.len()
            invariant
                i <= self.params@.len(),
                acc@ == type_tag_list(self.params@.subrange(0, i as int)),
            decreases self.params@.len() - i,
        {
            let x = type_tag_exec(&self.params[i]);
            crate::text::push_str(&mut acc, x.as_str());
            proof {
                assert(self.params@.subrange(0, i + 1).subrange(0, i as int)
                    =~= self.params@.subrange(0, i as int));
            }
            i = i + 1;
        }
        assert(self.params@.subrange(0, i as int) =~= self.params@);
        let ret = type_tag_exec(&self.returns);
        let mut r = crate::text::concat3("Fn", acc.as_str(), "To");
        crate::text::push_str(&mut r, ret.as_str());
        r
    }

    /// A closure of one argument that returns nothing.
    pub fn single_param(ty: Type) -> (r: Self)
        ensures
            r.params@ == seq![ty],
            *r.returns == Type::Void,
    {
        let mut params = Vec::new();
        params.push(ty);
        ClosureSignature { params, returns: Box::new(Type::Void) }
    }
}

// ---------------------------------------------------------------------------
// Return types
// ---------------------------------------------------------------------------

/// The successful value type, if any.
pub open spec fn spec_ok_type(r: ReturnType) -> Option<Type> {
    match r {
        ReturnType::Void => None,
        ReturnType::Value(t) => Some(t),
        ReturnType::Fallible { ok, .. } => Some(ok),
    }
}

/// Whether a call produces a value (a non-void successful type).
pub open spec fn spec_has_return_value(r: ReturnType) -> bool {
    match spec_ok_type(r) {
        Some(t) => !(t is Void),
        None => false,
    }
}

impl ReturnType {
    /// A plain value result.
    pub fn value(ty: Type) -> (r: Self)
        ensures
            r == ReturnType::Value(ty),
    {
        ReturnType::Value(ty)
    }

    /// A result that is either `ok` or the error `err`.
    pub fn fallible(ok: Type, err: Type) -> (r: Self)
        ensures
            r == (ReturnType::Fallible { ok, err }),
    {
        ReturnType::Fallible { ok, err }
    }

    /// The successful value type, if any.
    pub fn ok_type(&self) -> (r: Option<&Type>)
        ensures
            r == (match *self {
                ReturnType::Void => None,
                ReturnType::Value(t) => Some(&t),
                ReturnType::Fallible { ok, .. } => Some(&ok),
            }),
    {
        match self {
            ReturnType::Void => None,
            ReturnType::Value(t) => Some(t),
            ReturnType::Fallible { ok, .. } => Some(ok),
        }
    }

    /// The success and error types of a fallible result.
    pub fn as_result_types(&self) -> (r: Option<(&Type, &Type)>)
        ensures
            r == (match *self {
                ReturnType::Fallible { ok, err } => Some((&ok, &err)),
                _ => None,
            }),
    {
        match self {
            ReturnType::Fallible { ok, err } => Some((ok, err)),
            _ => None,
        }
    }

    /// Whether a call produces a value.
    pub fn has_return_value(&self) -> (r: bool)
        ensures
            r == spec_has_return_value(*self),
    {
        match self.ok_type() {
            Some(t) => !t.is_void(),
            None => false,
        }
    }

    /// Whether this is a fallible result.
    pub fn is_fallible(&self) -> (r: bool)
        ensures
            r == (*self is Fallible),
    {
        matches!(self, ReturnType::Fallible { .. })
    }
}

// ---------------------------------------------------------------------------
// Records and their C layout
// ---------------------------------------------------------------------------

/// Size and alignment of a field in the C layout: a primitive takes its own
/// size; anything else is carried as an 8-byte handle.
pub open spec fn field_size(t: Type) -> nat {
    match t {
        Type::Primitive(p) => primitive_size(p),
        _ => 8,
    }
}

/// `off` rounded up to a multiple of `align`.
pub open spec fn align_up(off: nat, align: nat) -> nat {
    if align == 0 || off % align == 0 {
        off
    } else {
        (off + (align - off % align)) as nat
    }
}

/// The end offset after laying out `fields` in order.
pub open spec fn layout_end(fields: Seq<RecordField>) -> nat
    decreases fields.len(),
{
    if fields.len() == 0 {
        0
    } else {
        let last = fields.last().field_type;
        align_up(layout_end(fields.drop_last()), field_size(last)) + field_size(last)
    }
}

/// The offset of field `i`: the end of the fields before it, aligned.
pub open spec fn field_offset(fields: Seq<RecordField>, i: int) -> nat {
    align_up(layout_end(fields.take(i)), field_size(fields[i].field_type))
}

/// The largest field size (the record's alignment), at least 1.
pub open spec fn max_align(fields: Seq<RecordField>) -> nat
    decreases fields.len(),
{
    if fields.len() == 0 {
        1
    } else {
        let a = field_size(fields.last().field_type);
        let m = max_align(fields.drop_last());
        if a > m {
            a
        } else {
            m
        }
    }
}

/// The record's size: the end of the last field rounded up to the alignment.
pub open spec fn spec_struct_size(fields: Seq<RecordField>) -> nat {
    align_up(layout_end(fields), max_align(fields))
}

/// Whether every field is a primitive.
pub open spec fn spec_is_blittable(fields: Seq<RecordField>) -> bool {
    forall|i: int| 0 <= i < fields.len() ==> #[trigger] fields[i].field_type is Primitive
}

/// Whether the record layout of `fields` fits the machine's `usize`.
pub open spec fn record_layout_fits(fields: Seq<RecordField>) -> bool {
    spec_struct_size(fields) <= usize::MAX
}

proof fn lemma_layout_bounds(fields: Seq<RecordField>)
    ensures
        layout_end(fields) <= 16 * fields.len(),
        1 <= max_align(fields) <= 8,
    decreases fields.len(),
{
    if fields.len() > 0 {
        lemma_layout_bounds(fields.drop_last());
    }
}

proof fn lemma_align_up_bounds(off: nat, align: nat)
    requires
        align >= 1,
    ensures
        off <= align_up(off, align) <= off + align - 1,
{
    assert(off % align < align) by (nonlinear_arith)
        requires
            align >= 1,
    ;
}

proof fn lemma_field_size_bounds(t: Type)
    ensures
        1 <= field_size(t) <= 8,
{
}

/// Laying out a prefix of the fields ends no later than laying out all of them.
proof fn lemma_layout_end_prefix(fields: Seq<RecordField>, i: int)
    requires
        0 <= i <= fields.len(),
    ensures
        layout_end(fields.take(i)) <= layout_end(fields),
    decreases fields.len(),
{
    if i == fields.len() {
        assert(fields.take(i) =~= fields);
    } else {
        assert(fields.drop_last().take(i) =~= fields.take(i));
        lemma_layout_end_prefix(fields.drop_last(), i);
        lemma_field_size_bounds(fields.last().field_type);
        lemma_align_up_bounds(layout_end(fields.drop_last()), field_size(fields.last().field_type));
    }
}

/// Field `i` ends no later than the whole layout.
proof fn lemma_field_within_layout(fields: Seq<RecordField>, i: int)
    requires
        0 <= i < fields.len(),
    ensures
        field_offset(fields, i) + field_size(fields[i].field_type) == layout_end(fields.take(i + 1)),
        field_offset(fields, i) + field_size(fields[i].field_type) <= layout_end(fields),
        layout_end(fields) <= spec_struct_size(fields),
{
    assert(fields.take(i + 1).drop_last() =~= fields.take(i));
    assert(fields.take(i + 1).last() == fields[i]);
    lemma_layout_end_prefix(fields, i + 1);
    lemma_layout_end_is_within_size(fields);
}

proof fn lemma_layout_end_is_within_size(fields: Seq<RecordField>)
    ensures
        layout_end(fields) <= spec_struct_size(fields),
{
    lemma_layout_bounds(fields);
    lemma_align_up_bounds(layout_end(fields), max_align(fields));
}

/// Rounding up lands on a multiple of the alignment.
proof fn lemma_align_up_aligned(off: nat, align: nat)
    requires
        align >= 1,
    ensures
        align_up(off, align) % align == 0,
{
    let a = align as int;
    let x = off as int;
    vstd::arithmetic::div_mod::lemma_fundamental_div_mod(x, a);
    if x % a != 0 {
        assert(x + (a - x % a) == (x / a + 1) * a) by (nonlinear_arith)
            requires
                x == a * (x / a) + (x % a),
        ;
        vstd::arithmetic::div_mod::lemma_mod_multiples_basic(x / a + 1, a);
    }
}

/// In the C layout of a record every field starts at a multiple of its
/// size, each field ends before the next one starts, and the record's size
/// covers every field and is a multiple of the record's alignment.
pub proof fn lemma_record_layout_sound(fields: Seq<RecordField>, i: int, j: int)
    requires
        0 <= i < j < fields.len(),
    ensures
        field_offset(fields, i) % field_size(fields[i].field_type) == 0,
        field_offset(fields, i) + field_size(fields[i].field_type) <= field_offset(fields, j),
        field_offset(fields, j) + field_size(fields[j].field_type) <= spec_struct_size(fields),
        spec_struct_size(fields) % max_align(fields) == 0,
{
    lemma_field_size_bounds(fields[i].field_type);
    lemma_field_size_bounds(fields[j].field_type);
    lemma_align_up_aligned(layout_end(fields.take(i)), field_size(fields[i].field_type));
    lemma_field_within_layout(fields, i);
    lemma_field_within_layout(fields, j);
    assert(fields.take(j).take(i + 1) =~= fields.take(i + 1));
    lemma_layout_end_prefix(fields.take(j), i + 1);
    lemma_align_up_bounds(layout_end(fields.take(j)), field_size(fields[j].field_type));
    lemma_layout_bounds(fields);
    lemma_align_up_aligned(layout_end(fields), max_align(fields));
}

fn field_size_exec(t: &Type) -> (r: usize)
    ensures
        r == field_size(*t),
        1 <= r <= 8,
{
    match t {
        Type::Primitive(p) => p.size(),
        _ => 8,
    }
}

fn align_up_exec(off: usize, align: usize) -> (r: usize)
    requires
        1 <= align <= 8,
        align_up(off as nat, align as nat) <= usize::MAX,
    ensures
        r == align_up(off as nat, align as nat),
        r <= off + 7,
{
    proof {
        lemma_align_up_bounds(off as nat, align as nat);
    }
    let rem = off % align;
    if rem == 0 {
        off
    } else {
        off + (align - rem)
    }
}

impl RecordField {
    /// A field of the given name and type.
    pub fn new(name: &str, field_type: Type) -> (r: Self)
        ensures
            r.name@ == name@,
            r.field_type == field_type,
    {
        RecordField { name: string_of(name), field_type }
    }
}

impl Record {
    /// A record without fields.
    pub fn new(name: &str) -> (r: Self)
        ensures
            r.name@ == name@,
            r.fields@.len() == 0,
    {
        Record { name: string_of(name), fields: Vec::new() }
    }

    /// The record with `field` appended.
    pub fn with_field(self, field: RecordField) -> (r: Self)
        ensures
            r.name == self.name,
            r.fields@ == self.fields@.push(field),
    {
        let mut s = self;
        s.fields.push(field);
        s
    }

    /// Whether every field is a primitive, so that the record can be copied
    /// as raw memory.
    pub fn is_blittable(&self) -> (r: bool)
        ensures
            r == spec_is_blittable(self.fields@),
    {
        let mut i: usize = 0;
        while i < self.fields.len()
            invariant
                i <= self.fields@.len(),
                forall|j: int| 0 <= j < i ==> #[trigger] self.fields@[j].field_type is Primitive,
            decreases self.fields@.len() - i,
        {
            if !matches!(self.fields[i].field_type, Type::Primitive(_)) {
                return false;
            }
            i = i + 1;
        }
        true
    }

    /// The byte offset of each field in the C layout.
    pub fn field_offsets(&self) -> (r: Vec<usize>)
        requires
            record_layout_fits(self.fields@),
        ensures
            r@.len() == self.fields@.len(),
            forall|i: int| 0 <= i < r@.len() ==> r@[i] == field_offset(self.fields@, i),
    {
        layout_offsets(&self.fields)
    }

    /// The record's size in the C layout.
    pub fn struct_size(&self) -> (r: usize)
        requires
            record_layout_fits(self.fields@),
        ensures
            r == spec_struct_size(self.fields@),
    {
        layout_size(&self.fields)
    }
}

/// The byte offset of each field of `fields` laid out in order.
pub fn layout_offsets(fields: &Vec<RecordField>) -> (r: Vec<usize>)
    requires
        record_layout_fits(fields@),
    ensures
        r@.len() == fields@.len(),
        forall|i: int| 0 <= i < r@.len() ==> r@[i] == field_offset(fields@, i),
{
    let mut r: Vec<usize> = Vec::new();
    let mut end: usize = 0;
    let mut i: usize = 0;
    while i < fields.len()
        invariant
            i <= fields@.len(),
            record_layout_fits(fields@),
            end == layout_end(fields@.take(i as int)),
            r@.len() == i,
            forall|j: int| 0 <= j < i ==> r@[j] == field_offset(fields@, j),
        decreases fields@.len() - i,
    {
        proof {
            lemma_field_within_layout(fields@, i as int);
            lemma_field_size_bounds(fields@[i as int].field_type);
        }
        let size = field_size_exec(&fields[i].field_type);
        let off = align_up_exec(end, size);
        r.push(off);
        end = off + size;
        i = i + 1;
    }
    r
}

/// The size of `fields` laid out in order, rounded up to their alignment.
pub fn layout_size(fields: &Vec<RecordField>) -> (r: usize)
    requires
        record_layout_fits(fields@),
    ensures
        r == spec_struct_size(fields@),
        r <= 16 * fields@.len() + 8,
{
    let mut end: usize = 0;
    let mut align: usize = 1;
    let mut i: usize = 0;
    while i < fields.len()
        invariant
            i <= fields@.len(),
            record_layout_fits(fields@),
            end == layout_end(fields@.take(i as int)),
            align == max_align(fields@.take(i as int)),
        decreases fields@.len() - i,
    {
        proof {
            lemma_layout_bounds(fields@.take(i as int));
            lemma_field_within_layout(fields@, i as int);
            lemma_field_size_bounds(fields@[i as int].field_type);
            assert(fields@.take(i + 1).drop_last() =~= fields@.take(i as int));
        }
        let size = field_size_exec(&fields[i].field_type);
        let off = align_up_exec(end, size);
        end = off + size;
        if size > align {
            align = size;
        }
        i = i + 1;
    }
    proof {
        assert(fields@.take(i as int) =~= fields@);
        lemma_layout_bounds(fields@);
        lemma_align_up_bounds(layout_end(fields@), max_align(fields@));
    }
    align_up_exec(end, align)
}

/// The record-layout alignment of `fields`, as an executable value.
pub fn layout_align(fields: &Vec<RecordField>) -> (r: usize)
    ensures
        r == max_align(fields@),
        1 <= r <= 8,
{
    let mut align: usize = 1;
    let mut i: usize = 0;
    while i < fields.len()
        invariant
            i <= fields@.len(),
            align == max_align(fields@.take(i as int)),
            1 <= align <= 8,
        decreases fields@.len() - i,
    {
        proof {
            assert(fields@.take(i + 1).drop_last() =~= fields@.take(i as int));
        }
        let size = field_size_exec(&fields[i].field_type);
        if size > align {
            align = size;
        }
        i = i + 1;
    }
    assert(fields@.take(i as int) =~= fields@);
    align
}

// ---------------------------------------------------------------------------
// Enumerations
// ---------------------------------------------------------------------------

/// Whether no variant carries fields.
pub open spec fn spec_is_c_style(variants: Seq<Variant>) -> bool {
    forall|i: int| 0 <= i < variants.len() ==> #[trigger] variants[i].fields@.len() == 0
}

impl Variant {
    /// A variant without discriminant or fields.
    pub fn new(name: &str) -> (r: Self)
        ensures
            r.name@ == name@,
            r.discriminant is None,
            r.fields@.len() == 0,
    {
        Variant { name: string_of(name), discriminant: None, fields: Vec::new() }
    }

    /// The variant with the given discriminant.
    pub fn with_discriminant(self, value: i64) -> (r: Self)
        ensures
            r.name == self.name,
            r.discriminant == Some(value),
            r.fields == self.fields,
    {
        let mut s = self;
        s.discriminant = Some(value);
        s
    }

    /// The variant with `field` appended.
    pub fn with_field(self, field: RecordField) -> (r: Self)
        ensures
            r.name == self.name,
            r.discriminant == self.discriminant,
            r.fields@ == self.fields@.push(field),
    {
        let mut s = self;
        s.fields.push(field);
        s
    }
}

impl Enumeration {
    /// An enumeration without variants.
    pub fn new(name: &str) -> (r: Self)
        ensures
            r.name@ == name@,
            r.variants@.len() == 0,
            !r.is_error,
    {
        Enumeration { name: string_of(name), variants: Vec::new(), is_error: false }
    }

    /// The enumeration with `variant` appended.
    pub fn with_variant(self, variant: Variant) -> (r: Self)
        ensures
            r.name == self.name,
            r.variants@ == self.variants@.push(variant),
            r.is_error == self.is_error,
    {
        let mut s = self;
        s.variants.push(variant);
        s
    }

    /// The enumeration marked as an error type.
    pub fn as_error(self) -> (r: Self)
        ensures
            r.name == self.name,
            r.variants == self.variants,
            r.is_error,
    {
        let mut s = self;
        s.is_error = true;
        s
    }

    /// Whether no variant carries fields.
    pub fn is_c_style(&self) -> (r: bool)
        ensures
            r == spec_is_c_style(self.variants@),
    {
        let mut i: usize = 0;
        while i < self.variants.len()
            invariant
                i <= self.variants@.len(),
                forall|j: int| 0 <= j < i ==> #[trigger] self.variants@[j].fields@.len() == 0,
            decreases self.variants@.len() - i,
        {
            if self.variants[i].fields.len() != 0 {
                return false;
            }
            i = i + 1;
        }
        true
    }

    /// Whether some variant carries fields.
    pub fn is_data_enum(&self) -> (r: bool)
        ensures
            r == !spec_is_c_style(self.variants@),
    {
        !self.is_c_style()
    }
}

// ---------------------------------------------------------------------------
// The C layout of a data-carrying enumeration: an `i32` tag at offset 0,
// then a payload area that holds any one variant's fields laid out as a record.
// ---------------------------------------------------------------------------

/// The largest record alignment among the variants' fields (at least 1).
pub open spec fn payload_align(vs: Seq<Variant>) -> nat
    decreases vs.len(),
{
    if vs.len() == 0 {
        1
    } else {
        let a = max_align(vs.last().fields@);
        let m = payload_align(vs.drop_last());
        if a > m {
            a
        } else {
            m
        }
    }
}

/// The largest record size among the variants' fields.
pub open spec fn payload_size(vs: Seq<Variant>) -> nat
    decreases vs.len(),
{
    if vs.len() == 0 {
        0
    } else {
        let a = spec_struct_size(vs.last().fields@);
        let m = payload_size(vs.drop_last());
        if a > m {
            a
        } else {
            m
        }
    }
}

/// Where the payload starts: after the 4-byte tag, aligned for the payload.
pub open spec fn spec_payload_offset(vs: Seq<Variant>) -> nat {
    align_up(4, payload_align(vs))
}

/// The whole enumeration's size, rounded up to its alignment (at least the
/// tag's).
pub open spec fn spec_enum_struct_size(vs: Seq<Variant>) -> nat {
    let a = payload_align(vs);
    align_up(spec_payload_offset(vs) + payload_size(vs), if a > 4 { a } else { 4 })
}

/// The offset of field `f` of variant `v` within the enumeration.
pub open spec fn spec_enum_field_offset(vs: Seq<Variant>, v: int, f: int) -> nat {
    spec_payload_offset(vs) + field_offset(vs[v].fields@, f)
}

/// Whether the layout of a data-carrying enumeration with these variants
/// fits the machine's `usize`.
pub open spec fn enum_layout_fits(vs: Seq<Variant>) -> bool {
    spec_enum_struct_size(vs) <= usize::MAX
}

proof fn lemma_payload_bounds(vs: Seq<Variant>)
    ensures
        1 <= payload_align(vs) <= 8,
        forall|i: int|
            0 <= i < vs.len() ==> spec_struct_size(#[trigger] vs[i].fields@) <= payload_size(vs),
    decreases vs.len(),
{
    if vs.len() > 0 {
        lemma_payload_bounds(vs.drop_last());
        lemma_layout_bounds(vs.last().fields@);
        assert(vs.last() == vs[vs.len() - 1]);
        assert forall|i: int| 0 <= i < vs.len() - 1 implies #[trigger] vs[i] == vs.drop_last()[i] by {}
    }
}

/// Every variant's record layout lies within the enumeration's payload, and
/// the payload within the enumeration.
proof fn lemma_enum_layout_bounds(vs: Seq<Variant>)
    ensures
        1 <= payload_align(vs) <= 8,
        spec_payload_offset(vs) <= 11,
        spec_payload_offset(vs) + payload_size(vs) <= spec_enum_struct_size(vs),
        forall|i: int|
            0 <= i < vs.len() ==> spec_struct_size(#[trigger] vs[i].fields@) <= payload_size(vs),
{
    lemma_payload_bounds(vs);
    lemma_align_up_bounds(4, payload_align(vs));
    let a = payload_align(vs);
    lemma_align_up_bounds(spec_payload_offset(vs) + payload_size(vs), if a > 4 { a } else { 4 });
}

/// The C layout of a data-carrying enumeration.
pub struct DataEnumLayout {
    pub payload_offset: usize,
    pub struct_size: usize,
    pub field_offsets: Vec<Vec<usize>>,
}

impl DataEnumLayout {
    /// The layout of `enumeration`; `None` when no variant carries data.
    pub fn from_enum(enumeration: &Enumeration) -> (r: Option<Self>)
        requires
            enum_layout_fits(enumeration.variants@),
        ensures
            r is None <==> spec_is_c_style(enumeration.variants@),
            r matches Some(l) ==> {
                &&& l.payload_offset == spec_payload_offset(enumeration.variants@)
                &&& l.struct_size == spec_enum_struct_size(enumeration.variants@)
                &&& l.field_offsets@.len() == enumeration.variants@.len()
                &&& forall|v: int|
                    0 <= v < l.field_offsets@.len() ==> {
                        &&& (#[trigger] l.field_offsets@[v])@.len()
                            == enumeration.variants@[v].fields@.len()
                        &&& forall|f: int|
                            0 <= f < l.field_offsets@[v]@.len() ==> l.field_offsets@[v]@[f]
                                == spec_enum_field_offset(enumeration.variants@, v, f)
                    }
            },
    {
        if enumeration.is_c_style() {
            return None;
        }
        let vs = &enumeration.variants;
        let mut align: usize = 1;
        let mut size: usize = 0;
        let mut i: usize = 0;
        while i < vs.len()
            invariant
                i <= vs@.len(),
                enum_layout_fits(vs@),
                align == payload_align(vs@.take(i as int)),
                size == payload_size(vs@.take(i as int)),
            decreases vs@.len() - i,
        {
            proof {
                assert(vs@.take(i + 1).drop_last() =~= vs@.take(i as int));
                assert(vs@.take(i + 1).last() == vs@[i as int]);
                lemma_enum_layout_bounds(vs@);
                assert(spec_struct_size(vs@[i as int].fields@) <= payload_size(vs@));
            }
            let a = layout_align(&vs[i].fields);
            let s = layout_size(&vs[i].fields);
            if a > align {
                align = a;
            }
            if s > size {
                size = s;
            }
            i = i + 1;
        }
        proof {
            assert(vs@.take(i as int) =~= vs@);
            lemma_enum_layout_bounds(vs@);
        }
        let payload_offset = align_up_exec(4, align);
        let whole_align = if align > 4 {
            align
        } else {
            4
        };
        let struct_size = align_up_exec(payload_offset + size, whole_align);
        let mut field_offsets: Vec<Vec<usize>> = Vec::new();
        let mut v: usize = 0;
        while v < vs.len()
            invariant
                v <= vs@.len(),
                enum_layout_fits(vs@),
                payload_offset == spec_payload_offset(vs@),
                payload_offset <= 11,
                field_offsets@.len() == v,
                forall|k: int|
                    0 <= k < v ==> {
                        &&& (#[trigger] field_offsets@[k])@.len() == vs@[k].fields@.len()
                        &&& forall|f: int|
                            0 <= f < field_offsets@[k]@.len() ==> field_offsets@[k]@[f]
                                == spec_enum_field_offset(vs@, k, f)
                    },
            decreases vs@.len() - v,
        {
            proof {
                lemma_enum_layout_bounds(vs@);
                assert(spec_struct_size(vs@[v as int].fields@) <= payload_size(vs@));
            }
            let inner = layout_offsets(&vs[v].fields);
            let mut shifted: Vec<usize> = Vec::new();
            let mut f: usize = 0;
            while f < inner.len()
                invariant
                    f <= inner@.len(),
                    v < vs@.len(),
                    enum_layout_fits(vs@),
                    payload_offset == spec_payload_offset(vs@),
                    payload_offset <= 11,
                    inner@.len() == vs@[v as int].fields@.len(),
                    forall|k: int| 0 <= k < inner@.len() ==> inner@[k] == field_offset(vs@[v as int].fields@, k),
                    shifted@.len() == f,
                    forall|k: int|
                        0 <= k < f ==> shifted@[k] == spec_enum_field_offset(vs@, v as int, k),
                decreases inner@.len() - f,
            {
                proof {
                    lemma_field_within_layout(vs@[v as int].fields@, f as int);
                    lemma_enum_layout_bounds(vs@);
                    assert(spec_struct_size(vs@[v as int].fields@) <= payload_size(vs@));
                }
                shifted.push(payload_offset + inner[f]);
                f = f + 1;
            }
            field_offsets.push(shifted);
            v = v + 1;
        }
        Some(DataEnumLayout { payload_offset, struct_size, field_offsets })
    }

    /// Where the payload starts.
    pub fn payload_offset(&self) -> (r: usize)
        ensures
            r == self.payload_offset,
    {
        self.payload_offset
    }

    /// The whole enumeration's size.
    pub fn struct_size(&self) -> (r: usize)
        ensures
            r == self.struct_size,
    {
        self.struct_size
    }

    /// The offset of field `field` of variant `variant`, if both exist.
    pub fn field_offset(&self, variant: usize, field: usize) -> (r: Option<usize>)
        ensures
            r == (if variant < self.field_offsets@.len() && field < self.field_offsets@[variant as int]@.len() {
                Some(self.field_offsets@[variant as int]@[field as int])
            } else {
                None
            }),
    {
        if variant < self.field_offsets.len() && field < self.field_offsets[variant].len() {
            Some(self.field_offsets[variant][field])
        } else {
            None
        }
    }
}

// ---------------------------------------------------------------------------
// Functions, methods, classes, traits
// ---------------------------------------------------------------------------

impl Parameter {
    /// A parameter of the given name and type.
    pub fn new(name: &str, param_type: Type) -> (r: Self)
        ensures
            r.name@ == name@,
            r.param_type == param_type,
    {
        Parameter { name: string_of(name), param_type }
    }
}

impl ConstructorParam {
    /// A constructor parameter of the given name and type.
    pub fn new(name: &str, param_type: Type) -> (r: Self)
        ensures
            r.name@ == name@,
            r.param_type == param_type,
    {
        ConstructorParam { name: string_of(name), param_type }
    }
}

impl Function {
    /// A synchronous function without parameters that returns nothing.
    pub fn new(name: &str) -> (r: Self)
        ensures
            r.name@ == name@,
            r.inputs@.len() == 0,
            r.returns == ReturnType::Void,
            !r.is_async,
    {
        Function { name: string_of(name), inputs: Vec::new(), returns: ReturnType::Void, is_async: false }
    }

    /// The function with `param` appended.
    pub fn with_param(self, param: Parameter) -> (r: Self)
        ensures
            r.name == self.name,
            r.inputs@ == self.inputs@.push(param),
            r.returns == self.returns,
            r.is_async == self.is_async,
    {
        let mut s = self;
        s.inputs.push(param);
        s
    }

    /// The function returning a value of type `ty`.
    pub fn with_output(self, ty: Type) -> (r: Self)
        ensures
            r.name == self.name,
            r.inputs == self.inputs,
            r.returns == ReturnType::Value(ty),
            r.is_async == self.is_async,
    {
        let mut s = self;
        s.returns = ReturnType::Value(ty);
        s
    }

    /// The function with the given result.
    pub fn with_return(self, result: ReturnType) -> (r: Self)
        ensures
            r.name == self.name,
            r.inputs == self.inputs,
            r.returns == result,
            r.is_async == self.is_async,
    {
        let mut s = self;
        s.returns = result;
        s
    }

    /// The function made asynchronous.
    pub fn make_async(self) -> (r: Self)
        ensures
            r.name == self.name,
            r.inputs == self.inputs,
            r.returns == self.returns,
            r.is_async,
    {
        let mut s = self;
        s.is_async = true;
        s
    }

    /// Whether the function can fail.
    pub fn throws(&self) -> (r: bool)
        ensures
            r == (self.returns is Fallible),
    {
        self.returns.is_fallible()
    }
}

impl Method {
    /// A synchronous method without parameters that returns nothing.
    pub fn new(name: &str, receiver: Receiver) -> (r: Self)
        ensures
            r.name@ == name@,
            r.receiver == receiver,
            r.inputs@.len() == 0,
            r.returns == ReturnType::Void,
            !r.is_async,
            r.doc is None,
            r.deprecated is None,
    {
        Method {
            name: string_of(name),
            receiver,
            inputs: Vec::new(),
            returns: ReturnType::Void,
            is_async: false,
            doc: None,
            deprecated: None,
        }
    }

    /// The method marked deprecated, with an optional message.
    pub fn with_deprecation(self, message: Option<&str>) -> (r: Self)
        ensures
            r.name == self.name,
            r.receiver == self.receiver,
            r.inputs == self.inputs,
            r.returns == self.returns,
            r.is_async == self.is_async,
            r.doc == self.doc,
            r.deprecated matches Some(d) && match message {
                Some(m) => d.message matches Some(t) && t@ == m@,
                None => d.message is None,
            },
    {
        let mut s = self;
        s.deprecated = Some(
            Deprecation {
                message: match message {
                    Some(m) => Some(string_of(m)),
                    None => None,
                },
            },
        );
        s
    }

    /// The method with a doc comment.
    pub fn with_doc(self, doc: &str) -> (r: Self)
        ensures
            r.name == self.name,
            r.receiver == self.receiver,
            r.inputs == self.inputs,
            r.returns == self.returns,
            r.is_async == self.is_async,
            r.doc matches Some(d) && d@ == doc@,
            r.deprecated == self.deprecated,
    {
        let mut s = self;
        s.doc = Some(string_of(doc));
        s
    }

    /// The method with `param` appended.
    pub fn with_param(self, param: Parameter) -> (r: Self)
        ensures
            r.name == self.name,
            r.receiver == self.receiver,
            r.inputs@ == self.inputs@.push(param),
            r.returns == self.returns,
            r.is_async == self.is_async,
            r.doc == self.doc,
            r.deprecated == self.deprecated,
    {
        let mut s = self;
        s.inputs.push(param);
        s
    }

    /// The method returning a value of type `ty`.
    pub fn with_output(self, ty: Type) -> (r: Self)
        ensures
            r.name == self.name,
            r.receiver == self.receiver,
            r.inputs == self.inputs,
            r.returns == ReturnType::Value(ty),
            r.is_async == self.is_async,
            r.doc == self.doc,
            r.deprecated == self.deprecated,
    {
        let mut s = self;
        s.returns = ReturnType::Value(ty);
        s
    }

    /// The method with the given result.
    pub fn with_return(self, result: ReturnType) -> (r: Self)
        ensures
            r.name == self.name,
            r.receiver == self.receiver,
            r.inputs == self.inputs,
            r.returns == result,
            r.is_async == self.is_async,
            r.doc == self.doc,
            r.deprecated == self.deprecated,
    {
        let mut s = self;
        s.returns = result;
        s
    }

    /// The method made asynchronous.
    pub fn make_async(self) -> (r: Self)
        ensures
            r.name == self.name,
            r.receiver == self.receiver,
            r.inputs == self.inputs,
            r.returns == self.returns,
            r.is_async,
            r.doc == self.doc,
            r.deprecated == self.deprecated,
    {
        let mut s = self;
        s.is_async = true;
        s
    }

    /// Whether the method takes no receiver.
    pub fn is_static(&self) -> (r: bool)
        ensures
            r == (self.receiver == Receiver::Static),
    {
        self.receiver == Receiver::Static
    }

    /// Whether the method can fail.
    pub fn throws(&self) -> (r: bool)
        ensures
            r == (self.returns is Fallible),
    {
        self.returns.is_fallible()
    }
}

impl Constructor {
    /// The default constructor (`new`), without parameters.
    pub fn new() -> (r: Self)
        ensures
            r.name@ == "new"@,
            r.inputs@.len() == 0,
    {
        Constructor { name: string_of("new"), inputs: Vec::new(), doc: None }
    }

    /// A named factory constructor, without parameters.
    pub fn named(name: &str) -> (r: Self)
        ensures
            r.name@ == name@,
            r.inputs@.len() == 0,
    {
        Constructor { name: string_of(name), inputs: Vec::new(), doc: None }
    }

    /// The constructor with `param` appended.
    pub fn with_param(self, param: ConstructorParam) -> (r: Self)
        ensures
            r.name == self.name,
            r.inputs@ == self.inputs@.push(param),
    {
        let mut s = self;
        s.inputs.push(param);
        s
    }

    /// Whether this is the default constructor `new`.
    pub fn is_default(&self) -> (r: bool)
        ensures
            r == (self.name@ == "new"@),
    {
        crate::text::text_is(&self.name, "new")
    }
}

impl StreamMethod {
    /// A stream of the given name, item type and mode.
    pub fn new(name: &str, item_type: Type, mode: StreamMode) -> (r: Self)
        ensures
            r.name@ == name@,
            r.item_type == item_type,
            r.mode == mode,
    {
        StreamMethod { name: string_of(name), item_type, mode, doc: None }
    }
}

impl Class {
    /// A class without members.
    pub fn new(name: &str) -> (r: Self)
        ensures
            r.name@ == name@,
            r.doc is None,
            r.deprecated is None,
            r.constructors@.len() == 0,
            r.methods@.len() == 0,
            r.streams@.len() == 0,
    {
        Class {
            name: string_of(name),
            doc: None,
            deprecated: None,
            constructors: Vec::new(),
            methods: Vec::new(),
            streams: Vec::new(),
        }
    }

    /// The class with `ctor` appended.
    pub fn with_constructor(self, ctor: Constructor) -> (r: Self)
        ensures
            r.name == self.name,
            r.doc == self.doc,
            r.deprecated == self.deprecated,
            r.constructors@ == self.constructors@.push(ctor),
            r.methods == self.methods,
            r.streams == self.streams,
    {
        let mut s = self;
        s.constructors.push(ctor);
        s
    }

    /// The class with `method` appended.
    pub fn with_method(self, method: Method) -> (r: Self)
        ensures
            r.name == self.name,
            r.doc == self.doc,
            r.deprecated == self.deprecated,
            r.constructors == self.constructors,
            r.methods@ == self.methods@.push(method),
            r.streams == self.streams,
    {
        let mut s = self;
        s.methods.push(method);
        s
    }

    /// The class with `stream` appended.
    pub fn with_stream(self, stream: StreamMethod) -> (r: Self)
        ensures
            r.name == self.name,
            r.doc == self.doc,
            r.deprecated == self.deprecated,
            r.constructors == self.constructors,
            r.methods == self.methods,
            r.streams@ == self.streams@.push(stream),
    {
        let mut s = self;
        s.streams.push(stream);
        s
    }

    /// The class with the given documentation.
    pub fn with_doc(self, doc: &str) -> (r: Self)
        ensures
            r.name == self.name,
            r.doc matches Some(d) && d@ == doc@,
            r.deprecated == self.deprecated,
            r.constructors == self.constructors,
            r.methods == self.methods,
            r.streams == self.streams,
    {
        let mut s = self;
        s.doc = Some(string_of(doc));
        s
    }

    /// The class marked deprecated, with an optional message.
    pub fn with_deprecation(self, message: Option<&str>) -> (r: Self)
        ensures
            r.name == self.name,
            r.doc == self.doc,
            r.deprecated matches Some(d) && match message {
                Some(m) => d.message matches Some(t) && t@ == m@,
                None => d.message is None,
            },
            r.constructors == self.constructors,
            r.methods == self.methods,
            r.streams == self.streams,
    {
        let mut s = self;
        s.deprecated = Some(
            Deprecation {
                message: match message {
                    Some(m) => Some(string_of(m)),
                    None => None,
                },
            },
        );
        s
    }
}

impl TraitMethodParam {
    /// A parameter of the given name and type.
    pub fn new(name: &str, param_type: Type) -> (r: Self)
        ensures
            r.name@ == name@,
            r.param_type == param_type,
    {
        TraitMethodParam { name: string_of(name), param_type }
    }
}

impl TraitMethod {
    /// A synchronous method without parameters that returns nothing.
    pub fn new(name: &str) -> (r: Self)
        ensures
            r.name@ == name@,
            r.inputs@.len() == 0,
            r.returns == ReturnType::Void,
            !r.is_async,
    {
        TraitMethod { name: string_of(name), inputs: Vec::new(), returns: ReturnType::Void, is_async: false }
    }

    /// The method with `param` appended.
    pub fn with_param(self, param: TraitMethodParam) -> (r: Self)
        ensures
            r.name == self.name,
            r.inputs@ == self.inputs@.push(param),
            r.returns == self.returns,
            r.is_async == self.is_async,
    {
        let mut s = self;
        s.inputs.push(param);
        s
    }

    /// The method with the given result.
    pub fn with_return(self, result: ReturnType) -> (r: Self)
        ensures
            r.name == self.name,
            r.inputs == self.inputs,
            r.returns == result,
            r.is_async == self.is_async,
    {
        let mut s = self;
        s.returns = result;
        s
    }

    /// The method made asynchronous.
    pub fn make_async(self) -> (r: Self)
        ensures
            r.name == self.name,
            r.inputs == self.inputs,
            r.returns == self.returns,
            r.is_async,
    {
        let mut s = self;
        s.is_async = true;
        s
    }

    /// Whether the method produces a value.
    pub fn has_return(&self) -> (r: bool)
        ensures
            r == spec_has_return_value(self.returns),
    {
        self.returns.has_return_value()
    }

    /// Whether the method can fail.
    pub fn throws(&self) -> (r: bool)
        ensures
            r == (self.returns is Fallible),
    {
        self.returns.is_fallible()
    }
}

impl CallbackTrait {
    /// A trait without methods.
    pub fn new(name: &str) -> (r: Self)
        ensures
            r.name@ == name@,
            r.doc is None,
            r.methods@.len() == 0,
    {
        CallbackTrait { name: string_of(name), doc: None, methods: Vec::new() }
    }

    /// The trait with `method` appended.
    pub fn with_method(self, method: TraitMethod) -> (r: Self)
        ensures
            r.name == self.name,
            r.doc == self.doc,
            r.methods@ == self.methods@.push(method),
    {
        let mut s = self;
        s.methods.push(method);
        s
    }

    /// Whether some method is asynchronous.
    pub fn has_async_methods(&self) -> (r: bool)
        ensures
            r == (exists|i: int| 0 <= i < self.methods@.len() && #[trigger] self.methods@[i].is_async),
    {
        let mut i: usize = 0;
        while i < self.methods.len()
            invariant
                i <= self.methods@.len(),
                forall|j: int| 0 <= j < i ==> !(#[trigger] self.methods@[j].is_async),
            decreases self.methods@.len() - i,
        {
            if self.methods[i].is_async {
                return true;
            }
            i = i + 1;
        }
        false
    }
}

impl Module {
    /// A module without items.
    pub fn new(name: &str) -> (r: Self)
        ensures
            r.name@ == name@,
            r.enums@.len() == 0,
            r.records@.len() == 0,
            r.functions@.len() == 0,
            r.classes@.len() == 0,
            r.callback_traits@.len() == 0,
    {
        Module {
            name: string_of(name),
            enums: Vec::new(),
            records: Vec::new(),
            functions: Vec::new(),
            classes: Vec::new(),
            callback_traits: Vec::new(),
        }
    }

    /// The module with `record` appended.
    pub fn with_record(self, record: Record) -> (r: Self)
        ensures
            r.name == self.name,
            r.enums == self.enums,
            r.records@ == self.records@.push(record),
            r.functions == self.functions,
            r.classes == self.classes,
            r.callback_traits == self.callback_traits,
    {
        let mut s = self;
        s.records.push(record);
        s
    }

    /// The module with `enumeration` appended.
    pub fn with_enum(self, enumeration: Enumeration) -> (r: Self)
        ensures
            r.name == self.name,
            r.enums@ == self.enums@.push(enumeration),
            r.records == self.records,
            r.functions == self.functions,
            r.classes == self.classes,
            r.callback_traits == self.callback_traits,
    {
        let mut s = self;
        s.enums.push(enumeration);
        s
    }

    /// The module with `function` appended.
    pub fn with_function(self, function: Function) -> (r: Self)
        ensures
            r.name == self.name,
            r.enums == self.enums,
            r.records == self.records,
            r.functions@ == self.functions@.push(function),
            r.classes == self.classes,
            r.callback_traits == self.callback_traits,
    {
        let mut s = self;
        s.functions.push(function);
        s
    }

    /// The module with `class` appended.
    pub fn with_class(self, class: Class) -> (r: Self)
        ensures
            r.name == self.name,
            r.enums == self.enums,
            r.records == self.records,
            r.functions == self.functions,
            r.classes@ == self.classes@.push(class),
            r.callback_traits == self.callback_traits,
    {
        let mut s = self;
        s.classes.push(class);
        s
    }

    /// The module with `callback_trait` appended.
    pub fn with_callback_trait(self, callback_trait: CallbackTrait) -> (r: Self)
        ensures
            r.name == self.name,
            r.enums == self.enums,
            r.records == self.records,
            r.functions == self.functions,
            r.classes == self.classes,
            r.callback_traits@ == self.callback_traits@.push(callback_trait),
    {
        let mut s = self;
        s.callback_traits.push(callback_trait);
        s
    }
}

/// Whether the module declares a record of this name and it is blittable.
pub open spec fn spec_record_blittable(records: Seq<Record>, name: Seq<char>) -> bool {
    exists|i: int|
        0 <= i < records.len() && #[trigger] records[i].name@ == name && spec_is_blittable(
            records[i].fields@,
        ) && forall|j: int| 0 <= j < i ==> #[trigger] records[j].name@ != name
}

/// Whether the module declares an enumeration of this name (first match) that
/// carries data.
pub open spec fn spec_enum_is_data(enums: Seq<Enumeration>, name: Seq<char>) -> bool {
    exists|i: int|
        0 <= i < enums.len() && #[trigger] enums[i].name@ == name && !spec_is_c_style(
            enums[i].variants@,
        ) && forall|j: int| 0 <= j < i ==> #[trigger] enums[j].name@ != name
}

/// Whether the module declares an enumeration of this name.
pub open spec fn spec_has_enum(enums: Seq<Enumeration>, name: Seq<char>) -> bool {
    exists|i: int| 0 <= i < enums.len() && #[trigger] enums[i].name@ == name
}

/// Whether some enumeration of this name has no data-carrying variant.
pub open spec fn spec_has_c_style_enum(enums: Seq<Enumeration>, name: Seq<char>) -> bool {
    exists|i: int|
        0 <= i < enums.len() && #[trigger] enums[i].name@ == name && spec_is_c_style(
            enums[i].variants@,
        )
}

impl Module {
    /// Whether some enumeration of this name has no data-carrying variant.
    pub fn has_c_style_enum(&self, name: &String) -> (r: bool)
        ensures
            r == spec_has_c_style_enum(self.enums@, name@),
    {
        let mut i: usize = 0;
        while i < self.enums.len()
            invariant
                i <= self.enums@.len(),
                forall|j: int|
                    0 <= j < i ==> !(#[trigger] self.enums@[j].name@ == name@ && spec_is_c_style(
                        self.enums@[j].variants@,
                    )),
            decreases self.enums@.len() - i,
        {
            if crate::text::text_eq(&self.enums[i].name, name) && self.enums[i].is_c_style() {
                return true;
            }
            i = i + 1;
        }
        false
    }

    /// Whether the first record of this name is blittable (false when there is
    /// none).
    pub fn record_is_blittable(&self, name: &String) -> (r: bool)
        ensures
            r == spec_record_blittable(self.records@, name@),
    {
        let mut i: usize = 0;
        while i < self.records.len()
            invariant
                i <= self.records@.len(),
                forall|j: int| 0 <= j < i ==> #[trigger] self.records@[j].name@ != name@,
            decreases self.records@.len() - i,
        {
            if crate::text::text_eq(&self.records[i].name, name) {
                return self.records[i].is_blittable();
            }
            i = i + 1;
        }
        false
    }

    /// Whether the first enumeration of this name carries data (false when
    /// there is none).
    pub fn enum_is_data(&self, name: &String) -> (r: bool)
        ensures
            r == spec_enum_is_data(self.enums@, name@),
    {
        let mut i: usize = 0;
        while i < self.enums.len()
            invariant
                i <= self.enums@.len(),
                forall|j: int| 0 <= j < i ==> #[trigger] self.enums@[j].name@ != name@,
            decreases self.enums@.len() - i,
        {
            if crate::text::text_eq(&self.enums[i].name, name) {
                return self.enums[i].is_data_enum();
            }
            i = i + 1;
        }
        false
    }

    /// Whether an enumeration of this name exists.
    pub fn has_enum(&self, name: &String) -> (r: bool)
        ensures
            r == spec_has_enum(self.enums@, name@),
    {
        let mut i: usize = 0;
        while i < self.enums.len()
            invariant
                i <= self.enums@.len(),
                forall|j: int| 0 <= j < i ==> #[trigger] self.enums@[j].name@ != name@,
            decreases self.enums@.len() - i,
        {
            if crate::text::text_eq(&self.enums[i].name, name) {
                return true;
            }
            i = i + 1;
        }
        false
    }
}

} // verus!
