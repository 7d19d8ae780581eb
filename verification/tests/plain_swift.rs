use riff_bindgen::model::{
    Class, Enumeration, Method, Module, Primitive, Receiver, Record, RecordField, Type, Variant,
};
use riff_bindgen::plain_swift::Swift;

#[test]
fn record_becomes_a_struct() {
    let record = Record::new("sensor_reading")
        .with_field(RecordField::new("time_stamp", Type::Primitive(Primitive::U64)))
        .with_field(RecordField::new("value", Type::Primitive(Primitive::F64)));
    let text = Swift::render_record(&record);
    assert_eq!(
        text,
        "public struct SensorReading {\n    public var timeStamp: UInt64\n    public var value: Double\n\n    public init(timeStamp: UInt64, value: Double) {\n        self.timeStamp = timeStamp\n        self.value = value\n    }\n}\n"
    );
}

#[test]
fn plain_enumeration_numbers_its_cases() {
    let e = Enumeration::new("status")
        .with_variant(Variant::new("idle"))
        .with_variant(Variant::new("busy").with_discriminant(7));
    assert_eq!(
        Swift::render_enum(&e),
        "public enum Status: Int64 {\n    case idle = 0\n    case busy = 7\n}\n"
    );
}

#[test]
fn data_enumeration_carries_values() {
    let e = Enumeration::new("shape")
        .with_variant(Variant::new("circle").with_field(RecordField::new("radius", Type::Primitive(Primitive::F32))))
        .with_variant(Variant::new("empty"));
    assert_eq!(
        Swift::render_enum(&e),
        "public enum Shape {\n    case circle(radius: Float)\n    case empty\n}\n"
    );
}

#[test]
fn class_keeps_its_handle_and_frees_it() {
    let class = Class::new("sensor")
        .with_method(Method::new("read", Receiver::Ref).with_output(Type::Primitive(Primitive::F64)));
    let module = Module::new("demo").with_class(Class::new("sensor"));
    let text = Swift::render_class(&class, &module);
    assert!(text.starts_with("public final class Sensor {\n    let handle: OpaquePointer\n"));
    assert!(text.contains("mffi_sensor_read"));
    assert!(text.ends_with("\n    deinit {\n        mffi_sensor_free(handle)\n    }\n}\n"));
}

#[test]
fn class_calls_the_symbols_the_export_attribute_declares() {
    let class = Class::new("TempSensor")
        .with_method(Method::new("read", Receiver::Ref).with_output(Type::Primitive(Primitive::F64)));
    let module = Module::new("demo").with_class(Class::new("TempSensor"));
    let text = Swift::render_class(&class, &module);
    assert!(text.contains("mffi_temp_sensor_read(handle)"));
    assert!(text.contains("mffi_temp_sensor_free(handle)"));
    assert!(!text.contains("riff_"));
}
