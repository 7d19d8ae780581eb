use riff_bindgen::class_exports::{
    class_lifecycle_exports, classify_class_method, extract_ffi_stream_item,
    generate_stream_exports, ClassMethod, MethodExport, StreamAttr,
};
use riff_bindgen::ffi_macros::FfiClassError;

fn method(name: &str, is_pub: bool, is_async: bool, skip: bool, attrs: Vec<StreamAttr>) -> ClassMethod {
    ClassMethod { name: name.to_string(), is_pub, is_async, has_skip_attr: skip, attrs }
}

#[test]
fn stream_item_of_attributes() {
    let attrs = vec![
        StreamAttr { is_ffi_stream: false, item: Some("u8".to_string()) },
        StreamAttr { is_ffi_stream: true, item: None },
        StreamAttr { is_ffi_stream: true, item: Some("Event".to_string()) },
        StreamAttr { is_ffi_stream: true, item: Some("Other".to_string()) },
    ];
    assert_eq!(extract_ffi_stream_item(&attrs), Some("Event".to_string()));
    assert_eq!(extract_ffi_stream_item(&vec![]), None);
}

#[test]
fn method_exports_by_kind() {
    let stream = method("events", true, false, false, vec![StreamAttr { is_ffi_stream: true, item: Some("Tick".to_string()) }]);
    match classify_class_method(&stream) {
        Some(MethodExport::Stream { item }) => assert_eq!(item, "Tick"),
        other => panic!("unexpected {:?}", other),
    }
    assert!(matches!(classify_class_method(&method("load", true, true, false, vec![])), Some(MethodExport::Async)));
    assert!(matches!(classify_class_method(&method("get", true, false, false, vec![])), Some(MethodExport::Sync)));
    assert!(classify_class_method(&method("get", false, false, false, vec![])).is_none());
    assert!(classify_class_method(&method("get", true, false, true, vec![])).is_none());
}

#[test]
fn lifecycle_entry_points() {
    let text = class_lifecycle_exports(&Some("DataStore".to_string())).unwrap();
    assert_eq!(
        text,
        "#[unsafe(no_mangle)]\npub extern \"C\" fn riff_data_store_new() -> *mut DataStore {\n    Box::into_raw(Box::new(DataStore::new()))\n}\n\n#[unsafe(no_mangle)]\npub unsafe extern \"C\" fn riff_data_store_free(handle: *mut DataStore) {\n    if !handle.is_null() {\n        drop(Box::from_raw(handle));\n    }\n}\n"
    );
    assert_eq!(class_lifecycle_exports(&None), Err(FfiClassError::UnnamedType));
}

#[test]
fn stream_entry_points() {
    let text = generate_stream_exports(
        &"Sensor".to_string(),
        &"Sensor".to_string(),
        &"readings".to_string(),
        &"Reading".to_string(),
    );
    assert!(text.starts_with(
        "#[unsafe(no_mangle)]\npub unsafe extern \"C\" fn riff_sensor_readings_subscribe(handle: *const Sensor) -> crate::SubscriptionHandle {\n"
    ));
    assert!(text.contains("    let subscription = instance.readings();\n"));
    assert!(text.contains("fn riff_sensor_readings_pop_batch(subscription_handle: crate::SubscriptionHandle, output_ptr: *mut Reading, output_capacity: usize) -> usize {"));
    assert!(text.contains("fn riff_sensor_readings_wait(subscription_handle: crate::SubscriptionHandle, timeout_milliseconds: u32) -> i32 {"));
    assert!(text.contains("fn riff_sensor_readings_poll(subscription_handle: crate::SubscriptionHandle, callback_data: u64, callback: crate::StreamContinuationCallback) {"));
    assert!(text.contains("fn riff_sensor_readings_unsubscribe(subscription_handle: crate::SubscriptionHandle) {"));
    assert!(text.contains("fn riff_sensor_readings_free(subscription_handle: crate::SubscriptionHandle) {"));
    assert!(text.contains("crate::EventSubscription<Reading>"));
    assert_eq!(text.matches("#[unsafe(no_mangle)]").count(), 6);
}
