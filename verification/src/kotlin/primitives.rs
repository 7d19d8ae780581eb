//! How each primitive is spelled and converted on the Kotlin side of JNI.

use vstd::prelude::*;
use crate::model::Primitive;

verus! {

/// The Kotlin type of a primitive.
pub open spec fn kotlin_primitive(p: Primitive) -> Seq<char> {
    match p {
        Primitive::Bool => "Boolean"@,
        Primitive::I8 => "Byte"@,
        Primitive::U8 => "UByte"@,
        Primitive::I16 => "Short"@,
        Primitive::U16 => "UShort"@,
        Primitive::I32 => "Int"@,
        Primitive::U32 => "UInt"@,
        Primitive::I64 => "Long"@,
        Primitive::U64 => "ULong"@,
        Primitive::Isize => "Long"@,
        Primitive::Usize => "ULong"@,
        Primitive::F32 => "Float"@,
        Primitive::F64 => "Double"@,
    }
}

/// The JNI-side (signed) Kotlin type of a primitive.
pub open spec fn jni_primitive(p: Primitive) -> Seq<char> {
    match p {
        Primitive::Bool => "Boolean"@,
        Primitive::I8 | Primitive::U8 => "Byte"@,
        Primitive::I16 | Primitive::U16 => "Short"@,
        Primitive::I32 | Primitive::U32 => "Int"@,
        Primitive::I64 | Primitive::U64 | Primitive::Isize | Primitive::Usize => "Long"@,
        Primitive::F32 => "Float"@,
        Primitive::F64 => "Double"@,
    }
}

/// The JNI array type carrying a vector of a primitive.
pub open spec fn jni_array(p: Primitive) -> Seq<char> {
    match p {
        Primitive::Bool => "BooleanArray"@,
        Primitive::I8 | Primitive::U8 => "ByteArray"@,
        Primitive::I16 | Primitive::U16 => "ShortArray"@,
        Primitive::I32 | Primitive::U32 => "IntArray"@,
        Primitive::I64 | Primitive::U64 | Primitive::Isize | Primitive::Usize => "LongArray"@,
        Primitive::F32 => "FloatArray"@,
        Primitive::F64 => "DoubleArray"@,
    }
}

/// The conversion from the JNI value to an unsigned Kotlin value.
pub open spec fn to_unsigned(p: Primitive) -> Option<Seq<char>> {
    match p {
        Primitive::U8 => Some("toUByte()"@),
        Primitive::U16 => Some("toUShort()"@),
        Primitive::U32 => Some("toUInt()"@),
        Primitive::U64 | Primitive::Usize => Some("toULong()"@),
        _ => None,
    }
}

/// The conversion from a JNI array to a list of unsigned values.
pub open spec fn vec_to_unsigned(p: Primitive) -> Option<Seq<char>> {
    match p {
        Primitive::U8 => Some("map { it.toUByte() }"@),
        Primitive::U16 => Some("map { it.toUShort() }"@),
        Primitive::U32 => Some("map { it.toUInt() }"@),
        Primitive::U64 | Primitive::Usize => Some("map { it.toULong() }"@),
        _ => None,
    }
}

/// The conversion from a Kotlin value to its JNI value.
pub open spec fn to_signed(p: Primitive) -> Option<Seq<char>> {
    match p {
        Primitive::U8 => Some("toByte()"@),
        Primitive::U16 => Some("toShort()"@),
        Primitive::U32 => Some("toInt()"@),
        Primitive::U64 | Primitive::Usize => Some("toLong()"@),
        _ => None,
    }
}

/// The suffix of the async callback invoker that completes with a value of
/// this primitive.
pub open spec fn invoker_suffix(p: Primitive) -> Seq<char> {
    match p {
        Primitive::Bool => "Bool"@,
        Primitive::I8 | Primitive::U8 => "I8"@,
        Primitive::I16 | Primitive::U16 => "I16"@,
        Primitive::I32 | Primitive::U32 => "I32"@,
        Primitive::I64 | Primitive::U64 | Primitive::Isize | Primitive::Usize => "I64"@,
        Primitive::F32 => "F32"@,
        Primitive::F64 => "F64"@,
    }
}

/// The value a callback returns when its handle is gone.
pub open spec fn callback_default(p: Primitive) -> Seq<char> {
    match p {
        Primitive::Bool => "false"@,
        Primitive::I8 | Primitive::I16 | Primitive::I32 => "0"@,
        Primitive::U8 | Primitive::U16 | Primitive::U32 => "0u"@,
        Primitive::I64 | Primitive::Isize => "0L"@,
        Primitive::U64 | Primitive::Usize => "0uL"@,
        Primitive::F32 => "0.0f"@,
        Primitive::F64 => "0.0"@,
    }
}

/// The `ByteBuffer` getter that reads a primitive.
pub open spec fn buffer_getter(p: Primitive) -> Seq<char> {
    match p {
        Primitive::Bool | Primitive::I8 | Primitive::U8 => "get"@,
        Primitive::I16 | Primitive::U16 => "getShort"@,
        Primitive::I32 | Primitive::U32 => "getInt"@,
        Primitive::I64 | Primitive::U64 | Primitive::Isize | Primitive::Usize => "getLong"@,
        Primitive::F32 => "getFloat"@,
        Primitive::F64 => "getDouble"@,
    }
}

/// The `ByteBuffer` putter that writes a primitive.
pub open spec fn buffer_putter(p: Primitive) -> Seq<char> {
    match p {
        Primitive::Bool | Primitive::I8 | Primitive::U8 => "put"@,
        Primitive::I16 | Primitive::U16 => "putShort"@,
        Primitive::I32 | Primitive::U32 => "putInt"@,
        Primitive::I64 | Primitive::U64 | Primitive::Isize | Primitive::Usize => "putLong"@,
        Primitive::F32 => "putFloat"@,
        Primitive::F64 => "putDouble"@,
    }
}

/// What follows a buffer read to turn it into the Kotlin value.
pub open spec fn buffer_conversion(p: Primitive) -> Seq<char> {
    match p {
        Primitive::Bool => " != 0.toByte()"@,
        Primitive::U8 => ".toUByte()"@,
        Primitive::U16 => ".toUShort()"@,
        Primitive::U32 => ".toUInt()"@,
        Primitive::U64 | Primitive::Usize => ".toULong()"@,
        _ => ""@,
    }
}

/// The expression written to a buffer for the Kotlin value `e`.
pub open spec fn buffer_value_expr(p: Primitive, e: Seq<char>) -> Seq<char> {
    match p {
        Primitive::Bool => "(if ("@ + e + ") 1 else 0).toByte()"@,
        Primitive::U8 => e + ".toByte()"@,
        Primitive::U16 => e + ".toShort()"@,
        Primitive::U32 => e + ".toInt()"@,
        Primitive::U64 | Primitive::Usize => e + ".toLong()"@,
        _ => e,
    }
}

/// The Kotlin facts about one primitive.
pub struct KotlinPrimitiveInfo {
    pub kotlin_type: &'static str,
    pub jni_type: &'static str,
    pub array_type: &'static str,
    pub to_unsigned: Option<&'static str>,
    pub vec_to_unsigned: Option<&'static str>,
    pub to_signed: Option<&'static str>,
    pub invoker_suffix: &'static str,
    pub callback_default: &'static str,
    pub buffer_getter: &'static str,
    pub buffer_putter: &'static str,
    pub buffer_conversion: &'static str,
}

/// The view of an optional static text.
pub open spec fn opt_view(o: Option<&'static str>) -> Option<Seq<char>> {
    match o {
        Some(s) => Some(s@),
        None => None,
    }
}

/// Whether `i` describes `p`.
pub open spec fn describes(i: KotlinPrimitiveInfo, p: Primitive) -> bool {
    &&& i.kotlin_type@ == kotlin_primitive(p)
    &&& i.jni_type@ == jni_primitive(p)
    &&& i.array_type@ == jni_array(p)
    &&& opt_view(i.to_unsigned) == to_unsigned(p)
    &&& opt_view(i.vec_to_unsigned) == vec_to_unsigned(p)
    &&& opt_view(i.to_signed) == to_signed(p)
    &&& i.invoker_suffix@ == invoker_suffix(p)
    &&& i.callback_default@ == callback_default(p)
    &&& i.buffer_getter@ == buffer_getter(p)
    &&& i.buffer_putter@ == buffer_putter(p)
    &&& i.buffer_conversion@ == buffer_conversion(p)
}

/// The Kotlin facts about `p`.
pub fn info(p: Primitive) -> (r: KotlinPrimitiveInfo)
    ensures
        describes(r, p),
{
    let r = match p {
        Primitive::Bool => KotlinPrimitiveInfo {
            kotlin_type: "Boolean",
            jni_type: "Boolean",
            array_type: "BooleanArray",
            to_unsigned: None,
            vec_to_unsigned: None,
            to_signed: None,
            invoker_suffix: "Bool",
            callback_default: "false",
            buffer_getter: "get",
            buffer_putter: "put",
            buffer_conversion: " != 0.toByte()",
        },
        Primitive::I8 => KotlinPrimitiveInfo {
            kotlin_type: "Byte",
            jni_type: "Byte",
            array_type: "ByteArray",
            to_unsigned: None,
            vec_to_unsigned: None,
            to_signed: None,
            invoker_suffix: "I8",
            callback_default: "0",
            buffer_getter: "get",
            buffer_putter: "put",
            buffer_conversion: "",
        },
        Primitive::U8 => KotlinPrimitiveInfo {
            kotlin_type: "UByte",
            jni_type: "Byte",
            array_type: "ByteArray",
            to_unsigned: Some("toUByte()"),
            vec_to_unsigned: Some("map { it.toUByte() }"),
            to_signed: Some("toByte()"),
            invoker_suffix: "I8",
            callback_default: "0u",
            buffer_getter: "get",
            buffer_putter: "put",
            buffer_conversion: ".toUByte()",
        },
        Primitive::I16 => KotlinPrimitiveInfo {
            kotlin_type: "Short",
            jni_type: "Short",
            array_type: "ShortArray",
            to_unsigned: None,
            vec_to_unsigned: None,
            to_signed: None,
            invoker_suffix: "I16",
            callback_default: "0",
            buffer_getter: "getShort",
            buffer_putter: "putShort",
            buffer_conversion: "",
        },
        Primitive::U16 => KotlinPrimitiveInfo {
            kotlin_type: "UShort",
            jni_type: "Short",
            array_type: "ShortArray",
            to_unsigned: Some("toUShort()"),
            vec_to_unsigned: Some("map { it.toUShort() }"),
            to_signed: Some("toShort()"),
            invoker_suffix: "I16",
            callback_default: "0u",
            buffer_getter: "getShort",
            buffer_putter: "putShort",
            buffer_conversion: ".toUShort()",
        },
        Primitive::I32 => KotlinPrimitiveInfo {
            kotlin_type: "Int",
            jni_type: "Int",
            array_type: "IntArray",
            to_unsigned: None,
            vec_to_unsigned: None,
            to_signed: None,
            invoker_suffix: "I32",
            callback_default: "0",
            buffer_getter: "getInt",
            buffer_putter: "putInt",
            buffer_conversion: "",
        },
        Primitive::U32 => KotlinPrimitiveInfo {
            kotlin_type: "UInt",
            jni_type: "Int",
            array_type: "IntArray",
            to_unsigned: Some("toUInt()"),
            vec_to_unsigned: Some("map { it.toUInt() }"),
            to_signed: Some("toInt()"),
            invoker_suffix: "I32",
            callback_default: "0u",
            buffer_getter: "getInt",
            buffer_putter: "putInt",
            buffer_conversion: ".toUInt()",
        },
        Primitive::I64 => KotlinPrimitiveInfo {
            kotlin_type: "Long",
            jni_type: "Long",
            array_type: "LongArray",
            to_unsigned: None,
            vec_to_unsigned: None,
            to_signed: None,
            invoker_suffix: "I64",
            callback_default: "0L",
            buffer_getter: "getLong",
            buffer_putter: "putLong",
            buffer_conversion: "",
        },
        Primitive::U64 => KotlinPrimitiveInfo {
            kotlin_type: "ULong",
            jni_type: "Long",
            array_type: "LongArray",
            to_unsigned: Some("toULong()"),
            vec_to_unsigned: Some("map { it.toULong() }"),
            to_signed: Some("toLong()"),
            invoker_suffix: "I64",
            callback_default: "0uL",
            buffer_getter: "getLong",
            buffer_putter: "putLong",
            buffer_conversion: ".toULong()",
        },
        Primitive::Isize => KotlinPrimitiveInfo {
            kotlin_type: "Long",
            jni_type: "Long",
            array_type: "LongArray",
            to_unsigned: None,
            vec_to_unsigned: None,
            to_signed: None,
            invoker_suffix: "I64",
            callback_default: "0L",
            buffer_getter: "getLong",
            buffer_putter: "putLong",
            buffer_conversion: "",
        },
        Primitive::Usize => KotlinPrimitiveInfo {
            kotlin_type: "ULong",
            jni_type: "Long",
            array_type: "LongArray",
            to_unsigned: Some("toULong()"),
            vec_to_unsigned: Some("map { it.toULong() }"),
            to_signed: Some("toLong()"),
            invoker_suffix: "I64",
            callback_default: "0uL",
            buffer_getter: "getLong",
            buffer_putter: "putLong",
            buffer_conversion: ".toULong()",
        },
        Primitive::F32 => KotlinPrimitiveInfo {
            kotlin_type: "Float",
            jni_type: "Float",
            array_type: "FloatArray",
            to_unsigned: None,
            vec_to_unsigned: None,
            to_signed: None,
            invoker_suffix: "F32",
            callback_default: "0.0f",
            buffer_getter: "getFloat",
            buffer_putter: "putFloat",
            buffer_conversion: "",
        },
        Primitive::F64 => KotlinPrimitiveInfo {
            kotlin_type: "Double",
            jni_type: "Double",
            array_type: "DoubleArray",
            to_unsigned: None,
            vec_to_unsigned: None,
            to_signed: None,
            invoker_suffix: "F64",
            callback_default: "0.0",
            buffer_getter: "getDouble",
            buffer_putter: "putDouble",
            buffer_conversion: "",
        },
    };
    r
}

} // verus!
