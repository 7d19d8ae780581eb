//! The plan of a Java binding: what the source text is generated from.

use vstd::prelude::*;
use crate::text::{concat2, replace_all, replace_text};
use super::JavaVersion;

verus! {

/// The binding of one module.
#[derive(Debug)]
pub struct JavaModule {
    pub package_name: String,
    pub class_name: String,
    pub lib_name: String,
    pub java_version: JavaVersion,
    pub prefix: String,
    pub records: Vec<JavaRecord>,
    pub functions: Vec<JavaFunction>,
}

impl JavaModule {
    /// The package as a directory path: each `.` becomes `/`.
    pub fn package_path(&self) -> (r: String)
        ensures
            r@ == replace_all(self.package_name@, "."@, "/"@),
    {
        replace_text(self.package_name.as_str(), ".", "/")
    }

    /// Whether some function encodes a parameter on the wire.
    pub fn has_wire_params(&self) -> (r: bool)
        ensures
            r == exists|i: int|
                0 <= i < self.functions@.len() && (#[trigger] self.functions@[i]).wire_writers@.len() > 0,
    {
        let mut i: usize = 0;
        while i < self.functions.len()
            invariant
                i <= self.functions@.len(),
                forall|k: int| 0 <= k < i ==> (#[trigger] self.functions@[k]).wire_writers@.len() == 0,
            decreases self.functions@.len() - i,
        {
            if self.functions[i].wire_writers.len() > 0 {
                return true;
            }
            i = i + 1;
        }
        false
    }

    /// Whether the binding needs the wire writer: a parameter is encoded,
    /// or there is a record.
    pub fn needs_wire_writer(&self) -> (r: bool)
        ensures
            r == ((exists|i: int|
                0 <= i < self.functions@.len() && (#[trigger] self.functions@[i]).wire_writers@.len()
                    > 0) || self.records@.len() > 0),
    {
        self.has_wire_params() || self.records.len() > 0
    }
}

/// A record's Java class.
#[derive(Debug)]
pub struct JavaRecord {
    pub shape: JavaRecordShape,
    pub class_name: String,
    pub fields: Vec<JavaRecordField>,
}

impl JavaRecord {
    /// Whether the record has no field.
    pub fn is_empty(&self) -> (r: bool)
        ensures
            r == (self.fields@.len() == 0),
    {
        self.fields.len() == 0
    }

    /// Whether the record is written as a Java `record`.
    pub fn uses_native_record_syntax(&self) -> (r: bool)
        ensures
            r == (self.shape == JavaRecordShape::NativeRecord),
    {
        matches!(self.shape, JavaRecordShape::NativeRecord)
    }
}

/// How a record is written in Java.
#[derive(Debug, Clone, Copy, PartialEq, Eq, Structural)]
pub enum JavaRecordShape {
    /// A final class with fields, `equals` and `hashCode`.
    ClassicClass,
    /// A `record` (Java 16 on).
    NativeRecord,
}

/// A field of a record, with its wire codec expressions.
#[derive(Debug)]
pub struct JavaRecordField {
    pub name: String,
    pub java_type: String,
    pub wire_decode_expr: String,
    pub wire_size_expr: String,
    pub wire_encode_expr: String,
    pub equals_expr: String,
    pub hash_expr: String,
}

/// How a function's result comes back.
#[derive(Debug)]
pub enum JavaReturnStrategy {
    /// Nothing.
    Void,
    /// The JNI value itself.
    Direct,
    /// Bytes decoded by `decode_expr`.
    WireDecode { decode_expr: String },
}

impl JavaReturnStrategy {
    /// Whether nothing comes back.
    pub fn is_void(&self) -> (r: bool)
        ensures
            r == (*self is Void),
    {
        matches!(self, JavaReturnStrategy::Void)
    }

    /// Whether the JNI value comes back.
    pub fn is_direct(&self) -> (r: bool)
        ensures
            r == (*self is Direct),
    {
        matches!(self, JavaReturnStrategy::Direct)
    }

    /// Whether encoded bytes come back.
    pub fn is_wire(&self) -> (r: bool)
        ensures
            r == (*self is WireDecode),
    {
        matches!(self, JavaReturnStrategy::WireDecode { .. })
    }

    /// The decoding expression (empty unless encoded).
    pub fn decode_expr(&self) -> (r: &str)
        ensures
            r@ == (match *self {
                JavaReturnStrategy::WireDecode { decode_expr } => decode_expr@,
                _ => ""@,
            }),
    {
        match self {
            JavaReturnStrategy::WireDecode { decode_expr } => decode_expr.as_str(),
            _ => "",
        }
    }

    /// The type the native method returns for a function returning
    /// `return_type`.
    pub fn native_return_type<'a>(&self, return_type: &'a str) -> (r: &'a str)
        ensures
            r@ == native_return_of(*self, return_type@),
    {
        match self {
            JavaReturnStrategy::Void => "void",
            JavaReturnStrategy::Direct => return_type,
            JavaReturnStrategy::WireDecode { .. } => "byte[]",
        }
    }
}

/// The type the native method returns under strategy `s`.
pub open spec fn native_return_of(s: JavaReturnStrategy, return_type: Seq<char>) -> Seq<char> {
    match s {
        JavaReturnStrategy::Void => "void"@,
        JavaReturnStrategy::Direct => return_type,
        JavaReturnStrategy::WireDecode { .. } => "byte[]"@,
    }
}

/// A function of the binding.
#[derive(Debug)]
pub struct JavaFunction {
    pub name: String,
    pub ffi_name: String,
    pub params: Vec<JavaParam>,
    pub return_type: String,
    pub strategy: JavaReturnStrategy,
    pub wire_writers: Vec<JavaWireWriter>,
}

impl JavaFunction {
    /// The type the native method returns.
    pub fn native_return_type(&self) -> (r: &str)
        ensures
            r@ == native_return_of(self.strategy, self.return_type@),
    {
        self.strategy.native_return_type(self.return_type.as_str())
    }
}

/// The encoding of one parameter before the call.
#[derive(Debug)]
pub struct JavaWireWriter {
    pub binding_name: String,
    pub param_name: String,
    pub size_expr: String,
    pub encode_expr: String,
}

/// How a parameter is passed.
#[derive(Debug, PartialEq, Eq)]
pub enum JavaParamKind {
    /// As it is.
    Direct,
    /// As the UTF-8 bytes of a string.
    Utf8Bytes,
    /// As the buffer of the wire writer `binding_name`.
    WireEncoded { binding_name: String },
}

/// A parameter of a function.
#[derive(Debug)]
pub struct JavaParam {
    pub name: String,
    pub java_type: String,
    pub native_type: String,
    pub kind: JavaParamKind,
}

/// The expression passed to the native method for `p`.
pub open spec fn native_expr_of(p: JavaParam) -> Seq<char> {
    match p.kind {
        JavaParamKind::Direct => p.name@,
        JavaParamKind::Utf8Bytes => p.name@ + ".getBytes(java.nio.charset.StandardCharsets.UTF_8)"@,
        JavaParamKind::WireEncoded { binding_name } => binding_name@ + ".toBuffer()"@,
    }
}

impl JavaParam {
    /// Whether the parameter is converted before the call.
    pub fn needs_conversion(&self) -> (r: bool)
        ensures
            r == !(self.kind is Direct),
    {
        !matches!(self.kind, JavaParamKind::Direct)
    }

    /// The expression passed to the native method.
    pub fn to_native_expr(&self) -> (r: String)
        ensures
            r@ == native_expr_of(*self),
    {
        match &self.kind {
            JavaParamKind::Direct => crate::text::copy_string(&self.name),
            JavaParamKind::Utf8Bytes => concat2(
                self.name.as_str(),
                ".getBytes(java.nio.charset.StandardCharsets.UTF_8)",
            ),
            JavaParamKind::WireEncoded { binding_name } => concat2(binding_name.as_str(), ".toBuffer()"),
        }
    }
}

/// A parameter needs a conversion exactly when the expression passed is
/// not its own name: strings are passed as bytes, encoded values as
/// buffers.
pub proof fn lemma_direct_params_pass_themselves(p: JavaParam)
    requires
        p.kind is Direct,
    ensures
        native_expr_of(p) == p.name@,
{
}

/// A package's directory path has the length of its name and no `.`: each
/// `.` of the name became a `/`, every other character stayed.
pub proof fn lemma_package_path_shape(name: Seq<char>)
    ensures
        replace_all(name, "."@, "/"@).len() == name.len(),
        forall|i: int|
            0 <= i < name.len() ==> (#[trigger] replace_all(name, "."@, "/"@)[i]) == (if name[i] == '.' {
                '/'
            } else {
                name[i]
            }),
    decreases name.len(),
{
    reveal_strlit(".");
    reveal_strlit("/");
    if name.len() > 0 {
        let rest = name.skip(1);
        lemma_package_path_shape(rest);
        let r = replace_all(name, "."@, "/"@);
        if "."@.is_prefix_of(name) {
            assert(name.subrange(0, 1)[0] == "."@[0]);
            assert(name[0] == '.');
            assert(r == "/"@ + replace_all(rest, "."@, "/"@));
        } else {
            assert(name[0] != '.') by {
                if name[0] == '.' {
                    assert("."@ =~= name.subrange(0, 1));
                }
            }
            assert(r == seq![name[0]] + replace_all(rest, "."@, "/"@));
        }
        assert forall|i: int| 0 <= i < name.len() implies (#[trigger] r[i]) == (if name[i] == '.' {
            '/'
        } else {
            name[i]
        }) by {
            if i > 0 {
                assert(rest[i - 1] == name[i]);
            }
        }
    }
}

} // verus!
