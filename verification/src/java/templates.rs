//! The Java source text of a binding plan.

use vstd::prelude::*;
use crate::text::{
    concat2, concat3, concat4, concat_all, join, push_str, render_all, seq_concat, seq_join,
    string_of,
};
use super::plan::{
    native_expr_of, native_return_of, JavaFunction, JavaModule, JavaParam, JavaRecord,
    JavaRecordField, JavaRecordShape, JavaReturnStrategy, JavaWireWriter,
};

verus! {

/// The header of the binding's files.
pub struct PreambleTemplate<'a> {
    pub module: &'a JavaModule,
}

/// The file of one record.
pub struct RecordTemplate<'a> {
    pub record: &'a JavaRecord,
    pub package_name: &'a str,
}

/// The class of native methods.
pub struct NativeTemplate<'a> {
    pub module: &'a JavaModule,
}

/// The public class of the module's functions.
pub struct FunctionsTemplate<'a> {
    pub module: &'a JavaModule,
}

// ---------------------------------------------------------------------------
// The text
// ---------------------------------------------------------------------------

/// The header: the package and the buffer imports.
pub open spec fn preamble_text(m: JavaModule) -> Seq<char> {
    "package "@ + m.package_name@ + ";\n\nimport java.nio.ByteBuffer;\nimport java.nio.ByteOrder;\n"@
}

/// A record component, `Type name`.
pub open spec fn component_text(f: JavaRecordField) -> Seq<char> {
    f.java_type@ + " "@ + f.name@
}

/// A final field of a classic record class.
pub open spec fn field_decl_text(f: JavaRecordField) -> Seq<char> {
    "    public final "@ + f.java_type@ + " "@ + f.name@ + ";\n"@
}

/// The assignment of a field in a classic record's constructor.
pub open spec fn field_assign_text(f: JavaRecordField) -> Seq<char> {
    "        this."@ + f.name@ + " = "@ + f.name@ + ";\n"@
}

/// The statement encoding a field.
pub open spec fn field_encode_text(f: JavaRecordField) -> Seq<char> {
    "        "@ + f.wire_encode_expr@ + ";\n"@
}

/// `fields` mapped by `g` and joined by `sep`, or `empty` when there is no
/// field.
pub open spec fn joined_or(fields: Seq<JavaRecordField>, g: spec_fn(JavaRecordField) -> Seq<char>, sep: Seq<char>, empty: Seq<char>) -> Seq<char> {
    if fields.len() == 0 {
        empty
    } else {
        seq_join(fields.map_values(g), sep)
    }
}

/// A record's file.
pub open spec fn record_text(r: JavaRecord, package: Seq<char>) -> Seq<char> {
    let c = r.class_name@;
    let fs = r.fields@;
    let components = seq_join(fs.map_values(|f: JavaRecordField| component_text(f)), ", "@);
    "package "@ + package + ";\n\n"@ + (if r.shape == JavaRecordShape::NativeRecord {
        "public record "@ + c + "("@ + components + ") {\n"@
    } else {
        "public final class "@ + c + " {\n"@ + seq_concat(
            fs.map_values(|f: JavaRecordField| field_decl_text(f)),
        ) + "\n    public "@ + c + "("@ + components + ") {\n"@ + seq_concat(
            fs.map_values(|f: JavaRecordField| field_assign_text(f)),
        ) + "    }\n"@
    }) + "\n    public static "@ + c + " decode(WireReader reader) {\n        return new "@ + c + "("@
        + seq_join(fs.map_values(|f: JavaRecordField| f.wire_decode_expr@), ", "@)
        + ");\n    }\n\n    public int wireSize() {\n        return "@ + joined_or(
        fs,
        |f: JavaRecordField| f.wire_size_expr@,
        " + "@,
        "0"@,
    ) + ";\n    }\n\n    public void encode(WireWriter writer) {\n"@ + seq_concat(
        fs.map_values(|f: JavaRecordField| field_encode_text(f)),
    ) + "    }\n"@ + (if r.shape == JavaRecordShape::NativeRecord {
        ""@
    } else {
        "\n    @Override\n    public boolean equals(Object o) {\n        if (this == o) return true;\n        if (!(o instanceof "@
            + c + ")) return false;\n        "@ + c + " other = ("@ + c + ") o;\n        return "@
            + joined_or(fs, |f: JavaRecordField| f.equals_expr@, " && "@, "true"@)
            + ";\n    }\n\n    @Override\n    public int hashCode() {\n        return java.util.Objects.hash("@
            + seq_join(fs.map_values(|f: JavaRecordField| f.hash_expr@), ", "@) + ");\n    }\n"@
    }) + "}\n"@
}

/// A parameter of the native method, `NativeType name`.
pub open spec fn native_param_text(p: JavaParam) -> Seq<char> {
    p.native_type@ + " "@ + p.name@
}

/// A parameter of the public method, `JavaType name`.
pub open spec fn java_param_text(p: JavaParam) -> Seq<char> {
    p.java_type@ + " "@ + p.name@
}

/// The declaration of a function's native method.
pub open spec fn native_decl_text(f: JavaFunction) -> Seq<char> {
    "    static native "@ + native_return_of(f.strategy, f.return_type@) + " "@ + f.ffi_name@ + "("@
        + seq_join(f.params@.map_values(|p: JavaParam| native_param_text(p)), ", "@) + ");\n"@
}

/// The class of native methods.
pub open spec fn native_text(m: JavaModule) -> Seq<char> {
    "final class Native {\n    static {\n        System.loadLibrary(\""@ + m.lib_name@
        + "\");\n    }\n\n"@ + seq_concat(m.functions@.map_values(|f: JavaFunction| native_decl_text(f)))
        + "}\n"@
}

/// The statements filling one wire writer.
pub open spec fn writer_text(w: JavaWireWriter) -> Seq<char> {
    "        WireWriter "@ + w.binding_name@ + " = new WireWriter("@ + w.size_expr@ + ");\n        "@
        + w.encode_expr@ + ";\n"@
}

/// A public method calling its native method.
pub open spec fn function_text(f: JavaFunction) -> Seq<char> {
    let call = "Native."@ + f.ffi_name@ + "("@ + seq_join(
        f.params@.map_values(|p: JavaParam| native_expr_of(p)),
        ", "@,
    ) + ")"@;
    "\n    public static "@ + f.return_type@ + " "@ + f.name@ + "("@ + seq_join(
        f.params@.map_values(|p: JavaParam| java_param_text(p)),
        ", "@,
    ) + ") {\n"@ + seq_concat(f.wire_writers@.map_values(|w: JavaWireWriter| writer_text(w)))
        + (match f.strategy {
        JavaReturnStrategy::Void => "        "@ + call + ";\n"@,
        JavaReturnStrategy::Direct => "        return "@ + call + ";\n"@,
        JavaReturnStrategy::WireDecode { decode_expr } => "        byte[] bytes = "@ + call
            + ";\n        return "@ + decode_expr@ + ";\n"@,
    }) + "    }\n"@
}

/// The public class of the module's functions.
pub open spec fn functions_text(m: JavaModule) -> Seq<char> {
    "public final class "@ + m.class_name@ + " {\n    private "@ + m.class_name@ + "() {}\n"@
        + seq_concat(m.functions@.map_values(|f: JavaFunction| function_text(f))) + "}\n"@
}

// ---------------------------------------------------------------------------
// Rendering
// ---------------------------------------------------------------------------

impl JavaRecordField {
    /// The record component.
    pub fn render_component(&self) -> (r: String)
        ensures
            r@ == component_text(*self),
    {
        concat3(self.java_type.as_str(), " ", self.name.as_str())
    }

    /// The final field declaration.
    pub fn render_decl(&self) -> (r: String)
        ensures
            r@ == field_decl_text(*self),
    {
        let mut r = concat4("    public final ", self.java_type.as_str(), " ", self.name.as_str());
        push_str(&mut r, ";\n");
        r
    }

    /// The constructor's assignment.
    pub fn render_assign(&self) -> (r: String)
        ensures
            r@ == field_assign_text(*self),
    {
        let mut r = concat4("        this.", self.name.as_str(), " = ", self.name.as_str());
        push_str(&mut r, ";\n");
        r
    }

    /// The encoding statement.
    pub fn render_encode(&self) -> (r: String)
        ensures
            r@ == field_encode_text(*self),
    {
        concat3("        ", self.wire_encode_expr.as_str(), ";\n")
    }

    /// The decoding expression.
    pub fn render_decode(&self) -> (r: String)
        ensures
            r@ == self.wire_decode_expr@,
    {
        crate::text::copy_string(&self.wire_decode_expr)
    }

    /// The size expression.
    pub fn render_size(&self) -> (r: String)
        ensures
            r@ == self.wire_size_expr@,
    {
        crate::text::copy_string(&self.wire_size_expr)
    }

    /// The equality test.
    pub fn render_equals(&self) -> (r: String)
        ensures
            r@ == self.equals_expr@,
    {
        crate::text::copy_string(&self.equals_expr)
    }

    /// The hash term.
    pub fn render_hash(&self) -> (r: String)
        ensures
            r@ == self.hash_expr@,
    {
        crate::text::copy_string(&self.hash_expr)
    }
}

impl<'a> PreambleTemplate<'a> {
    /// The header of the binding's files.
    pub fn render(&self) -> (r: String)
        ensures
            r@ == preamble_text(*self.module),
    {
        concat3(
            "package ",
            self.module.package_name.as_str(),
            ";\n\nimport java.nio.ByteBuffer;\nimport java.nio.ByteOrder;\n",
        )
    }
}

impl<'a> RecordTemplate<'a> {
    /// The record's file.
    pub fn render(&self) -> (r: String)
        ensures
            r@ == record_text(*self.record, self.package_name@),
    {
        let rec = self.record;
        let c = rec.class_name.as_str();
        let fs = &rec.fields;
        let native = rec.uses_native_record_syntax();
        let comps = render_all(fs, JavaRecordField::render_component, Ghost(|f: JavaRecordField| component_text(f)));
        let comps = join(&comps, ", ");
        let mut r = concat3("package ", self.package_name, ";\n\n");
        if native {
            push_str(&mut r, "public record ");
            push_str(&mut r, c);
            push_str(&mut r, "(");
            push_str(&mut r, comps.as_str());
            push_str(&mut r, ") {\n");
        } else {
            let decls = render_all(fs, JavaRecordField::render_decl, Ghost(|f: JavaRecordField| field_decl_text(f)));
            let decls = concat_all(&decls);
            let assigns = render_all(fs, JavaRecordField::render_assign, Ghost(|f: JavaRecordField| field_assign_text(f)));
            let assigns = concat_all(&assigns);
            let mut head = concat3("public final class ", c, " {\n");
            push_str(&mut head, decls.as_str());
            push_str(&mut head, "\n    public ");
            push_str(&mut head, c);
            push_str(&mut head, "(");
            push_str(&mut head, comps.as_str());
            push_str(&mut head, ") {\n");
            push_str(&mut head, assigns.as_str());
            push_str(&mut head, "    }\n");
            push_str(&mut r, head.as_str());
        }
        let decodes = render_all(fs, JavaRecordField::render_decode, Ghost(|f: JavaRecordField| f.wire_decode_expr@));
        let decodes = join(&decodes, ", ");
        let sizes = if fs.len() == 0 {
            string_of("0")
        } else {
            let s = render_all(fs, JavaRecordField::render_size, Ghost(|f: JavaRecordField| f.wire_size_expr@));
            join(&s, " + ")
        };
        let encodes = render_all(fs, JavaRecordField::render_encode, Ghost(|f: JavaRecordField| field_encode_text(f)));
        let encodes = concat_all(&encodes);
        push_str(&mut r, "\n    public static ");
        push_str(&mut r, c);
        push_str(&mut r, " decode(WireReader reader) {\n        return new ");
        push_str(&mut r, c);
        push_str(&mut r, "(");
        push_str(&mut r, decodes.as_str());
        push_str(&mut r, ");\n    }\n\n    public int wireSize() {\n        return ");
        push_str(&mut r, sizes.as_str());
        push_str(&mut r, ";\n    }\n\n    public void encode(WireWriter writer) {\n");
        push_str(&mut r, encodes.as_str());
        push_str(&mut r, "    }\n");
        if native {
            push_str(&mut r, "");
        } else {
            let equals = if fs.len() == 0 {
                string_of("true")
            } else {
                let e = render_all(fs, JavaRecordField::render_equals, Ghost(|f: JavaRecordField| f.equals_expr@));
                join(&e, " && ")
            };
            let hashes = render_all(fs, JavaRecordField::render_hash, Ghost(|f: JavaRecordField| f.hash_expr@));
            let hashes = join(&hashes, ", ");
            let mut tail = concat3(
                "\n    @Override\n    public boolean equals(Object o) {\n        if (this == o) return true;\n        if (!(o instanceof ",
                c,
                ")) return false;\n        ",
            );
            push_str(&mut tail, c);
            push_str(&mut tail, " other = (");
            push_str(&mut tail, c);
            push_str(&mut tail, ") o;\n        return ");
            push_str(&mut tail, equals.as_str());
            push_str(
                &mut tail,
                ";\n    }\n\n    @Override\n    public int hashCode() {\n        return java.util.Objects.hash(",
            );
            push_str(&mut tail, hashes.as_str());
            push_str(&mut tail, ");\n    }\n");
            push_str(&mut r, tail.as_str());
        }
        push_str(&mut r, "}\n");
        r
    }
}

impl JavaParam {
    /// The native method's parameter.
    pub fn render_native(&self) -> (r: String)
        ensures
            r@ == native_param_text(*self),
    {
        concat3(self.native_type.as_str(), " ", self.name.as_str())
    }

    /// The public method's parameter.
    pub fn render_java(&self) -> (r: String)
        ensures
            r@ == java_param_text(*self),
    {
        concat3(self.java_type.as_str(), " ", self.name.as_str())
    }
}

impl JavaWireWriter {
    /// The statements filling the writer.
    pub fn render(&self) -> (r: String)
        ensures
            r@ == writer_text(*self),
    {
        let mut r = concat4(
            "        WireWriter ",
            self.binding_name.as_str(),
            " = new WireWriter(",
            self.size_expr.as_str(),
        );
        push_str(&mut r, ");\n        ");
        push_str(&mut r, self.encode_expr.as_str());
        push_str(&mut r, ";\n");
        r
    }
}

impl JavaFunction {
    /// The declaration of the native method.
    pub fn render_native_decl(&self) -> (r: String)
        ensures
            r@ == native_decl_text(*self),
    {
        let ps = render_all(&self.params, JavaParam::render_native, Ghost(|p: JavaParam| native_param_text(p)));
        let ps = join(&ps, ", ");
        let mut r = concat4("    static native ", self.native_return_type(), " ", self.ffi_name.as_str());
        push_str(&mut r, "(");
        push_str(&mut r, ps.as_str());
        push_str(&mut r, ");\n");
        r
    }

    /// The public method.
    pub fn render(&self) -> (r: String)
        ensures
            r@ == function_text(*self),
    {
        let args = render_all(&self.params, JavaParam::to_native_expr, Ghost(|p: JavaParam| native_expr_of(p)));
        let args = join(&args, ", ");
        let call = concat4("Native.", self.ffi_name.as_str(), "(", args.as_str());
        let call = concat2(call.as_str(), ")");
        let ps = render_all(&self.params, JavaParam::render_java, Ghost(|p: JavaParam| java_param_text(p)));
        let ps = join(&ps, ", ");
        let ws = render_all(&self.wire_writers, JavaWireWriter::render, Ghost(|w: JavaWireWriter| writer_text(w)));
        let ws = concat_all(&ws);
        let mut r = concat4("\n    public static ", self.return_type.as_str(), " ", self.name.as_str());
        push_str(&mut r, "(");
        push_str(&mut r, ps.as_str());
        push_str(&mut r, ") {\n");
        push_str(&mut r, ws.as_str());
        let body = match &self.strategy {
            JavaReturnStrategy::Void => concat3("        ", call.as_str(), ";\n"),
            JavaReturnStrategy::Direct => concat3("        return ", call.as_str(), ";\n"),
            JavaReturnStrategy::WireDecode { decode_expr } => {
                let mut b = concat3("        byte[] bytes = ", call.as_str(), ";\n        return ");
                push_str(&mut b, decode_expr.as_str());
                push_str(&mut b, ";\n");
                b
            },
        };
        push_str(&mut r, body.as_str());
        push_str(&mut r, "    }\n");
        r
    }
}

impl<'a> NativeTemplate<'a> {
    /// The class of native methods.
    pub fn render(&self) -> (r: String)
        ensures
            r@ == native_text(*self.module),
    {
        let m = self.module;
        let decls = render_all(&m.functions, JavaFunction::render_native_decl, Ghost(|f: JavaFunction| native_decl_text(f)));
        let decls = concat_all(&decls);
        let mut r = concat3(
            "final class Native {\n    static {\n        System.loadLibrary(\"",
            m.lib_name.as_str(),
            "\");\n    }\n\n",
        );
        push_str(&mut r, decls.as_str());
        push_str(&mut r, "}\n");
        r
    }
}

impl<'a> FunctionsTemplate<'a> {
    /// The public class of the module's functions.
    pub fn render(&self) -> (r: String)
        ensures
            r@ == functions_text(*self.module),
    {
        let m = self.module;
        let fs = render_all(&m.functions, JavaFunction::render, Ghost(|f: JavaFunction| function_text(f)));
        let fs = concat_all(&fs);
        let mut r = concat4("public final class ", m.class_name.as_str(), " {\n    private ", m.class_name.as_str());
        push_str(&mut r, "() {}\n");
        push_str(&mut r, fs.as_str());
        push_str(&mut r, "}\n");
        r
    }
}

} // verus!
