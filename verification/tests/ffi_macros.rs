use riff_bindgen::ffi_macros::{
    classify_return, classify_string_param, derive_ffi_type, ffi_class, ffi_export,
    generate_method_export, strip_spaces, to_snake_case, transform_params, AttrInfo, ExportClass,
    ExportFn, ExportMethod, ExportParam, ExportType, FfiClassError, ReturnKind, StringParamKind,
};
use riff_bindgen::ffi_macros::{classify_param, ParamKind};

fn param(name: &str, ty: &str) -> ExportParam {
    ExportParam { name: Some(name.to_string()), pattern: name.to_string(), type_text: ty.to_string() }
}

fn plain_type(text: &str) -> ExportType {
    ExportType { text: text.to_string(), last_segment: Some(text.to_string()), first_type_arg: None }
}

fn generic_type(text: &str, head: &str, arg: &str) -> ExportType {
    ExportType {
        text: text.to_string(),
        last_segment: Some(head.to_string()),
        first_type_arg: Some(arg.to_string()),
    }
}

#[test]
fn spaces_are_stripped() {
    assert_eq!(strip_spaces(&"& 'a str".to_string()), "&'astr");
    assert_eq!(strip_spaces(&"".to_string()), "");
}

#[test]
fn string_parameters_are_recognised() {
    assert_eq!(classify_string_param(&"& str".to_string()), StringParamKind::StrRef);
    assert_eq!(classify_string_param(&"& 'a str".to_string()), StringParamKind::StrRef);
    assert_eq!(classify_string_param(&"String".to_string()), StringParamKind::OwnedString);
    assert_eq!(
        classify_string_param(&"std :: string :: String".to_string()),
        StringParamKind::OwnedString
    );
    assert_eq!(classify_string_param(&"i32".to_string()), StringParamKind::Plain);
    assert_eq!(classify_string_param(&"& [u8]".to_string()), StringParamKind::Plain);
}

#[test]
fn return_kinds() {
    assert!(matches!(classify_return(&None), ReturnKind::Unit));
    assert!(matches!(classify_return(&Some(plain_type("String"))), ReturnKind::String));
    assert!(matches!(classify_return(&Some(plain_type("u32"))), ReturnKind::Primitive));
    match classify_return(&Some(generic_type("Vec < f64 >", "Vec", "f64"))) {
        ReturnKind::Vec(inner) => assert_eq!(inner, "f64"),
        _ => panic!("expected a vector"),
    }
    assert!(matches!(
        classify_return(&Some(generic_type("Result < String , E >", "Result", "String"))),
        ReturnKind::ResultString
    ));
    assert!(matches!(
        classify_return(&Some(generic_type("Result < () , E >", "Result", "( )"))),
        ReturnKind::Unit
    ));
    match classify_return(&Some(generic_type("Result < i64 , E >", "Result", "i64"))) {
        ReturnKind::ResultPrimitive(inner) => assert_eq!(inner, "i64"),
        _ => panic!("expected a value result"),
    }
    assert!(matches!(
        classify_return(&Some(ExportType {
            text: "Option < i32 >".to_string(),
            last_segment: Some("Option".to_string()),
            first_type_arg: Some("i32".to_string()),
        })),
        ReturnKind::Primitive
    ));
}

#[test]
fn parameters_are_transformed() {
    let params = vec![
        param("count", "u32"),
        param("label", "& str"),
        ExportParam { name: None, pattern: "_".to_string(), type_text: "u8".to_string() },
        param("owned", "String"),
    ];
    let p = transform_params(&params);
    assert_eq!(
        p.ffi_params,
        vec![
            "count: u32",
            "label_ptr: *const u8",
            "label_len: usize",
            "owned_ptr: *const u8",
            "owned_len: usize"
        ]
    );
    assert_eq!(p.call_args, vec!["count", "label", "owned"]);
    assert_eq!(p.conversions.len(), 2);
    assert!(p.conversions[0].contains("let label: &str = if label_ptr.is_null()"));
    assert!(p.conversions[1].contains("let owned: String = if owned_ptr.is_null()"));
    assert!(p.conversions[1].contains("Ok(s) => s.to_string()"));
    assert!(p.conversions[1].contains("crate::FfiStatus::INVALID_ARG"));
}

#[test]
fn export_of_a_string_function() {
    let f = ExportFn {
        name: "greet".to_string(),
        visibility: "pub".to_string(),
        params: vec![param("name", "& str")],
        output: Some(plain_type("String")),
    };
    let lines = [
        "#[unsafe(no_mangle)]",
        "pub unsafe extern \"C\" fn mffi_greet(name_ptr: *const u8, name_len: usize, out: *mut crate::FfiString) -> crate::FfiStatus {",
        "    if out.is_null() {",
        "        return crate::FfiStatus::NULL_POINTER;",
        "    }",
        "    let name: &str = if name_ptr.is_null() {",
        "        \"\"",
        "    } else {",
        "        match core::str::from_utf8(core::slice::from_raw_parts(name_ptr, name_len)) {",
        "            Ok(s) => s,",
        "            Err(_) => return crate::fail_with_error(crate::FfiStatus::INVALID_ARG, concat!(stringify!(name), \" is not valid UTF-8\")),",
        "        }",
        "    };",
        "    let result = greet(name);",
        "    *out = crate::FfiString::from(result);",
        "    crate::FfiStatus::OK",
        "}",
        "",
    ];
    let expected = lines.join("\n");
    assert_eq!(ffi_export(&f), expected);
}

#[test]
fn export_of_a_unit_function_without_parameters() {
    let f = ExportFn {
        name: "reset".to_string(),
        visibility: String::new(),
        params: vec![],
        output: None,
    };
    assert_eq!(
        ffi_export(&f),
        "#[unsafe(no_mangle)]\nextern \"C\" fn mffi_reset() -> crate::FfiStatus {\n    reset();\n    crate::FfiStatus::OK\n}\n"
    );
}

#[test]
fn export_of_a_primitive_function() {
    let f = ExportFn {
        name: "add".to_string(),
        visibility: "pub".to_string(),
        params: vec![param("a", "i32"), param("b", "i32")],
        output: Some(plain_type("i32")),
    };
    assert_eq!(
        ffi_export(&f),
        "#[unsafe(no_mangle)]\npub extern \"C\" fn mffi_add(a: i32, b: i32) -> i32 {\n    add(a, b)\n}\n"
    );
}

#[test]
fn export_of_a_result_function() {
    let f = ExportFn {
        name: "parse".to_string(),
        visibility: "pub".to_string(),
        params: vec![param("text", "String")],
        output: Some(generic_type("Result < i64 , Error >", "Result", "i64")),
    };
    let out = ffi_export(&f);
    assert!(out.contains("pub unsafe extern \"C\" fn mffi_parse(text_ptr: *const u8, text_len: usize, out: *mut i64) -> crate::FfiStatus {"));
    assert!(out.contains("    match parse(text) {\n        Ok(value) => {\n            *out = value;"));
    assert!(out.contains("crate::FfiStatus::INTERNAL_ERROR"));
}

#[test]
fn export_of_a_vector_function() {
    let f = ExportFn {
        name: "samples".to_string(),
        visibility: "pub".to_string(),
        params: vec![],
        output: Some(generic_type("Vec < f32 >", "Vec", "f32")),
    };
    let out = ffi_export(&f);
    assert!(out.starts_with(
        "#[unsafe(no_mangle)]\npub extern \"C\" fn mffi_samples_len() -> usize {\n    samples().len()\n}\n\n"
    ));
    assert!(out.contains(
        "pub unsafe extern \"C\" fn mffi_samples_copy_into(dst: *mut f32, dst_cap: usize, written: *mut usize) -> crate::FfiStatus {"
    ));
    assert!(out.contains("crate::FfiStatus::BUFFER_TOO_SMALL"));
}

#[test]
fn snake_case_names() {
    assert_eq!(to_snake_case("SensorManager"), "sensor_manager");
    assert_eq!(to_snake_case("sensor"), "sensor");
    assert_eq!(to_snake_case("HTTPClient"), "h_t_t_p_client");
    assert_eq!(to_snake_case(""), "");
}

#[test]
fn method_exports_need_a_receiver() {
    let with_self = ExportMethod {
        name: "read".to_string(),
        is_pub: true,
        has_receiver: true,
        params: vec![param("channel", "u8")],
        output: Some("f64".to_string()),
    };
    let text = generate_method_export(&"Sensor".to_string(), &"sensor".to_string(), &with_self).unwrap();
    assert_eq!(
        text,
        "#[unsafe(no_mangle)]\npub unsafe extern \"C\" fn mffi_sensor_read(handle: *mut Sensor, channel: u8) -> f64 {\n    (*handle).read(channel)\n}\n"
    );
    let associated = ExportMethod {
        name: "create".to_string(),
        is_pub: true,
        has_receiver: false,
        params: vec![],
        output: None,
    };
    assert!(generate_method_export(&"Sensor".to_string(), &"sensor".to_string(), &associated).is_none());
}

#[test]
fn class_exports() {
    let class = ExportClass {
        ty_name: Some("DataStore".to_string()),
        methods: vec![
            ExportMethod {
                name: "len".to_string(),
                is_pub: true,
                has_receiver: true,
                params: vec![],
                output: Some("usize".to_string()),
            },
            ExportMethod {
                name: "secret".to_string(),
                is_pub: false,
                has_receiver: true,
                params: vec![],
                output: None,
            },
        ],
    };
    let out = ffi_class(&class).unwrap();
    assert!(out.starts_with(
        "#[unsafe(no_mangle)]\npub extern \"C\" fn mffi_data_store_new() -> *mut DataStore {\n    Box::into_raw(Box::new(DataStore::new()))\n}\n"
    ));
    assert!(out.contains("pub unsafe extern \"C\" fn mffi_data_store_free(handle: *mut DataStore) {"));
    assert!(out.contains("fn mffi_data_store_len(handle: *mut DataStore) -> usize {\n    (*handle).len()\n}"));
    assert!(!out.contains("secret"));
    let unnamed = ExportClass { ty_name: None, methods: vec![] };
    assert_eq!(ffi_class(&unnamed), Err(FfiClassError::UnnamedType));
    assert_eq!(FfiClassError::UnnamedType.message(), "ffi_class requires a named type");
}

#[test]
fn ffi_type_requires_repr_c() {
    let ok = vec![
        AttrInfo { is_repr: false, ident_arg: Some("C".to_string()) },
        AttrInfo { is_repr: true, ident_arg: Some("C".to_string()) },
    ];
    assert_eq!(derive_ffi_type(&ok), Ok(String::new()));
    let bad = vec![
        AttrInfo { is_repr: true, ident_arg: Some("u8".to_string()) },
        AttrInfo { is_repr: true, ident_arg: None },
    ];
    assert_eq!(derive_ffi_type(&bad), Err("FfiType requires #[repr(C)]".to_string()));
    assert_eq!(derive_ffi_type(&vec![]), Err("FfiType requires #[repr(C)]".to_string()));
}

#[test]
fn first_parameter_classification() {
    match classify_param(&param("label", "& 'a str")) {
        ParamKind::StrRef(n) => assert_eq!(n, "label"),
        _ => panic!("expected a string"),
    }
    let unnamed = ExportParam { name: None, pattern: "_".to_string(), type_text: "& str".to_string() };
    match classify_param(&unnamed) {
        ParamKind::StrRef(n) => assert_eq!(n, "arg"),
        _ => panic!("expected a string"),
    }
    match classify_param(&param("count", "u32")) {
        ParamKind::Primitive { pattern, type_text } => {
            assert_eq!(pattern, "count");
            assert_eq!(type_text, "u32");
        }
        _ => panic!("expected a plain parameter"),
    }
}
