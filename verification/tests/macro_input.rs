use riff_bindgen::class_exports::{class_lifecycle_exports, generate_stream_exports};
use riff_bindgen::ffi_macros::{ffi_class, ffi_export, ExportClass, ExportFn, ExportMethod, ExportParam, ExportType};
use riff_bindgen::macro_input::{derive_ffi_type_item, ffi_class_impl, ffi_class_item, ffi_export_item};

fn param(name: &str, ty: &str) -> ExportParam {
    ExportParam { name: Some(name.to_string()), pattern: name.to_string(), type_text: ty.to_string() }
}

#[test]
fn export_item_reads_the_function() {
    let text = ffi_export_item("pub fn add(a: i32, b: i32) -> i32 { a + b }").unwrap();
    let expected = ffi_export(&ExportFn {
        name: "add".to_string(),
        visibility: "pub".to_string(),
        params: vec![param("a", "i32"), param("b", "i32")],
        output: Some(ExportType {
            text: "i32".to_string(),
            last_segment: Some("i32".to_string()),
            first_type_arg: None,
        }),
    });
    assert_eq!(text, expected);
    assert!(text.contains("fn mffi_add("));
}

#[test]
fn export_item_reads_the_return_type_path() {
    let text = ffi_export_item("pub fn load(path: &str) -> Result<Vec<u8>, String> { todo!() }").unwrap();
    let expected = ffi_export(&ExportFn {
        name: "load".to_string(),
        visibility: "pub".to_string(),
        params: vec![param("path", "& str")],
        output: Some(ExportType {
            text: "Result < Vec < u8 > , String >".to_string(),
            last_segment: Some("Result".to_string()),
            first_type_arg: Some("Vec < u8 >".to_string()),
        }),
    });
    assert_eq!(text, expected);
}

#[test]
fn export_item_refuses_what_is_not_a_function() {
    assert!(ffi_export_item("struct S;").is_err());
    assert!(ffi_export_item("fn (").is_err());
}

#[test]
fn class_item_reads_the_impl_block() {
    let source = "impl Counter { pub fn new() -> Self { Counter } pub fn get(&self) -> u32 { 0 } fn hidden(&self) {} const N: u8 = 1; }";
    let text = ffi_class_item(source).unwrap();
    let method = |name: &str, is_pub: bool, has_receiver: bool, output: Option<&str>| ExportMethod {
        name: name.to_string(),
        is_pub,
        has_receiver,
        params: vec![],
        output: output.map(|o| o.to_string()),
    };
    let expected = ffi_class(&ExportClass {
        ty_name: Some("Counter".to_string()),
        methods: vec![
            method("new", true, false, Some("Self")),
            method("get", true, true, Some("u32")),
            method("hidden", false, true, None),
        ],
    })
    .unwrap();
    assert_eq!(text, expected);
    assert!(text.contains("fn mffi_counter_get("));
    assert!(!text.contains("mffi_counter_hidden"));
}

#[test]
fn class_item_needs_a_named_type() {
    assert_eq!(ffi_class_item("impl [u8] { }"), Err("ffi_class requires a named type".to_string()));
    assert!(ffi_class_item("fn f() {}").is_err());
}

#[test]
fn derive_needs_repr_c() {
    assert_eq!(derive_ffi_type_item("#[repr(C)] struct P { x: i32 }"), Ok(String::new()));
    assert_eq!(
        derive_ffi_type_item("#[derive(Debug)] #[repr(u8)] enum Q { A }"),
        Err("FfiType requires #[repr(C)]".to_string())
    );
    assert!(derive_ffi_type_item("not a type").is_err());
}

#[test]
fn class_impl_exports_streams_and_lists_methods() {
    let source = "impl Sensor {
        pub fn new() -> Self { Sensor }
        #[ffi_stream(item = Reading)]
        pub fn readings(&self) -> Arc<EventSubscription<Reading>> { todo!() }
        pub fn value(&self) -> u32 { 0 }
        pub async fn fetch(&self) -> u32 { 0 }
        #[skip]
        pub fn skipped(&self) {}
        fn private(&self) {}
        pub fn assoc() {}
    }";
    let exports = ffi_class_impl(source).unwrap();
    let sensor = "Sensor".to_string();
    let mut expected = class_lifecycle_exports(&Some(sensor.clone())).unwrap();
    expected.push('\n');
    expected.push_str(&generate_stream_exports(&sensor, &sensor, &"readings".to_string(), &"Reading".to_string()));
    assert_eq!(exports.items, expected);
    assert_eq!(exports.sync_methods, vec!["value".to_string()]);
    assert_eq!(exports.async_methods, vec!["fetch".to_string()]);
    assert!(ffi_class_impl("impl [u8] { }").is_err());
}
