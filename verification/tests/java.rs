use riff_bindgen::java::{
    FunctionsTemplate, JavaFunction, JavaModule, JavaOptions, JavaParam, JavaParamKind,
    JavaRecord, JavaRecordField, JavaRecordShape, JavaReturnStrategy, JavaVersion,
    JavaWireWriter, NativeTemplate, PreambleTemplate, RecordTemplate,
};

fn field(name: &str, ty: &str) -> JavaRecordField {
    JavaRecordField {
        name: name.to_string(),
        java_type: ty.to_string(),
        wire_decode_expr: format!("reader.read{}()", ty),
        wire_size_expr: "4".to_string(),
        wire_encode_expr: format!("writer.write{}(this.{})", ty, name),
        equals_expr: format!("this.{} == other.{}", name, name),
        hash_expr: name.to_string(),
    }
}

fn function(name: &str, params: Vec<JavaParam>, strategy: JavaReturnStrategy, ret: &str) -> JavaFunction {
    JavaFunction {
        name: name.to_string(),
        ffi_name: format!("riff_{}", name),
        params,
        return_type: ret.to_string(),
        strategy,
        wire_writers: vec![],
    }
}

fn module(functions: Vec<JavaFunction>) -> JavaModule {
    JavaModule {
        package_name: "com.example.demo".to_string(),
        class_name: "Demo".to_string(),
        lib_name: "demo".to_string(),
        java_version: JavaVersion::java_17(),
        prefix: "riff".to_string(),
        records: vec![],
        functions,
    }
}

#[test]
fn versions_and_features() {
    assert!(!JavaVersion::java_8().supports_records());
    assert!(!JavaVersion::java_11().supports_sealed());
    assert!(JavaVersion::java_17().supports_records());
    assert!(JavaVersion::java_17().supports_sealed());
    assert!(JavaVersion(16).supports_records());
    assert!(!JavaVersion(16).supports_sealed());
    assert!(JavaVersion::java_21() > JavaVersion::java_11());
    assert_eq!(JavaVersion::default(), JavaVersion::java_8());
    let opts = JavaOptions::default();
    assert!(opts.library_name.is_none());
    assert_eq!(opts.min_java_version, JavaVersion(8));
}

#[test]
fn package_path_replaces_dots() {
    assert_eq!(module(vec![]).package_path(), "com/example/demo");
}

#[test]
fn wire_params_and_writers() {
    let plain = module(vec![function("ping", vec![], JavaReturnStrategy::Void, "void")]);
    assert!(!plain.has_wire_params());
    assert!(!plain.needs_wire_writer());
    let mut f = function("send", vec![], JavaReturnStrategy::Void, "void");
    f.wire_writers.push(JavaWireWriter {
        binding_name: "w0".to_string(),
        param_name: "point".to_string(),
        size_expr: "point.wireSize()".to_string(),
        encode_expr: "point.encode(w0)".to_string(),
    });
    let with_writer = module(vec![f]);
    assert!(with_writer.has_wire_params());
    assert!(with_writer.needs_wire_writer());
}

#[test]
fn parameters_convert_to_native() {
    let direct = JavaParam {
        name: "count".to_string(),
        java_type: "int".to_string(),
        native_type: "int".to_string(),
        kind: JavaParamKind::Direct,
    };
    assert!(!direct.needs_conversion());
    assert_eq!(direct.to_native_expr(), "count");
    let text = JavaParam {
        name: "label".to_string(),
        java_type: "String".to_string(),
        native_type: "byte[]".to_string(),
        kind: JavaParamKind::Utf8Bytes,
    };
    assert!(text.needs_conversion());
    assert_eq!(
        text.to_native_expr(),
        "label.getBytes(java.nio.charset.StandardCharsets.UTF_8)"
    );
    let wire = JavaParam {
        name: "point".to_string(),
        java_type: "Point".to_string(),
        native_type: "ByteBuffer".to_string(),
        kind: JavaParamKind::WireEncoded { binding_name: "w0".to_string() },
    };
    assert_eq!(wire.to_native_expr(), "w0.toBuffer()");
}

#[test]
fn return_strategies() {
    let wire = JavaReturnStrategy::WireDecode { decode_expr: "Point.decode(r)".to_string() };
    assert!(wire.is_wire());
    assert_eq!(wire.decode_expr(), "Point.decode(r)");
    assert_eq!(wire.native_return_type("Point"), "byte[]");
    assert_eq!(JavaReturnStrategy::Void.native_return_type("void"), "void");
    assert_eq!(JavaReturnStrategy::Direct.native_return_type("long"), "long");
    assert_eq!(JavaReturnStrategy::Direct.decode_expr(), "");
    assert!(JavaReturnStrategy::Void.is_void());
    assert!(JavaReturnStrategy::Direct.is_direct());
}

#[test]
fn preamble_names_the_package() {
    let m = module(vec![]);
    assert_eq!(
        PreambleTemplate { module: &m }.render(),
        "package com.example.demo;\n\nimport java.nio.ByteBuffer;\nimport java.nio.ByteOrder;\n"
    );
}

#[test]
fn native_record_rendering() {
    let rec = JavaRecord {
        shape: JavaRecordShape::NativeRecord,
        class_name: "Point".to_string(),
        fields: vec![field("x", "Int"), field("y", "Int")],
    };
    assert!(rec.uses_native_record_syntax());
    assert!(!rec.is_empty());
    let text = RecordTemplate { record: &rec, package_name: "com.example" }.render();
    assert!(text.starts_with("package com.example;\n\npublic record Point(Int x, Int y) {\n"));
    assert!(text.contains("return new Point(reader.readInt(), reader.readInt());"));
    assert!(text.contains("return 4 + 4;"));
    assert!(!text.contains("hashCode"));
    assert!(text.ends_with("}\n"));
}

#[test]
fn classic_record_rendering() {
    let rec = JavaRecord {
        shape: JavaRecordShape::ClassicClass,
        class_name: "Empty".to_string(),
        fields: vec![],
    };
    assert!(rec.is_empty());
    let text = RecordTemplate { record: &rec, package_name: "p" }.render();
    assert!(text.contains("public final class Empty {"));
    assert!(text.contains("return 0;"));
    assert!(text.contains("return true;"));
    assert!(text.contains("java.util.Objects.hash()"));
}

#[test]
fn native_and_functions_classes() {
    let m = module(vec![
        function("add", vec![
            JavaParam {
                name: "a".to_string(),
                java_type: "int".to_string(),
                native_type: "int".to_string(),
                kind: JavaParamKind::Direct,
            },
        ], JavaReturnStrategy::Direct, "int"),
        function("reset", vec![], JavaReturnStrategy::Void, "void"),
    ]);
    let native = NativeTemplate { module: &m }.render();
    assert!(native.starts_with("final class Native {\n    static {\n        System.loadLibrary(\"demo\");\n    }\n\n"));
    assert!(native.contains("    static native int riff_add(int a);\n"));
    assert!(native.contains("    static native void riff_reset();\n"));
    let functions = FunctionsTemplate { module: &m }.render();
    assert!(functions.starts_with("public final class Demo {\n    private Demo() {}\n"));
    assert!(functions.contains("    public static int add(int a) {\n        return Native.riff_add(a);\n    }\n"));
    assert!(functions.contains("    public static void reset() {\n        Native.riff_reset();\n    }\n"));
}
