//! Swift facts about primitives.

use vstd::prelude::*;
use crate::model::Primitive;

verus! {

/// The Swift type of a primitive.
pub open spec fn swift_primitive(p: Primitive) -> Seq<char> {
    match p {
        Primitive::Bool => "Bool"@,
        Primitive::I8 => "Int8"@,
        Primitive::U8 => "UInt8"@,
        Primitive::I16 => "Int16"@,
        Primitive::U16 => "UInt16"@,
        Primitive::I32 => "Int32"@,
        Primitive::U32 => "UInt32"@,
        Primitive::I64 => "Int64"@,
        Primitive::U64 => "UInt64"@,
        Primitive::Isize => "Int"@,
        Primitive::Usize => "UInt"@,
        Primitive::F32 => "Float"@,
        Primitive::F64 => "Double"@,
    }
}

/// What Swift knows about a primitive.
#[derive(Debug, Clone, Copy)]
pub struct SwiftPrimitiveInfo {
    pub swift_type: &'static str,
}

/// The Swift facts about `p`.
pub fn info(p: Primitive) -> (r: SwiftPrimitiveInfo)
    ensures
        r.swift_type@ == swift_primitive(p),
{
    match p {
        Primitive::Bool => SwiftPrimitiveInfo { swift_type: "Bool" },
        Primitive::I8 => SwiftPrimitiveInfo { swift_type: "Int8" },
        Primitive::U8 => SwiftPrimitiveInfo { swift_type: "UInt8" },
        Primitive::I16 => SwiftPrimitiveInfo { swift_type: "Int16" },
        Primitive::U16 => SwiftPrimitiveInfo { swift_type: "UInt16" },
        Primitive::I32 => SwiftPrimitiveInfo { swift_type: "Int32" },
        Primitive::U32 => SwiftPrimitiveInfo { swift_type: "UInt32" },
        Primitive::I64 => SwiftPrimitiveInfo { swift_type: "Int64" },
        Primitive::U64 => SwiftPrimitiveInfo { swift_type: "UInt64" },
        Primitive::Isize => SwiftPrimitiveInfo { swift_type: "Int" },
        Primitive::Usize => SwiftPrimitiveInfo { swift_type: "UInt" },
        Primitive::F32 => SwiftPrimitiveInfo { swift_type: "Float" },
        Primitive::F64 => SwiftPrimitiveInfo { swift_type: "Double" },
    }
}

} // verus!
