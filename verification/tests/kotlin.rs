use riff_bindgen::kotlin::{Kotlin, KotlinOptions, NamingConvention, TypeMapper};
use riff_bindgen::model::{
    Class, Constructor, Enumeration, Function, Method, Module, Parameter, Primitive, Receiver,
    Record, RecordField, Type, Variant,
};

#[test]
fn test_kotlin_type_mapping() {
    assert_eq!(TypeMapper::map_type(&Type::Primitive(Primitive::I32)), "Int");
    assert_eq!(TypeMapper::map_type(&Type::Primitive(Primitive::I64)), "Long");
    assert_eq!(TypeMapper::map_type(&Type::Primitive(Primitive::Bool)), "Boolean");
    assert_eq!(TypeMapper::map_type(&Type::String), "String");
    assert_eq!(TypeMapper::map_type(&Type::Bytes), "ByteArray");
    assert_eq!(
        TypeMapper::map_type(&Type::Vec(Box::new(Type::Primitive(Primitive::F64)))),
        "List<Double>"
    );
}

#[test]
fn test_kotlin_naming() {
    assert_eq!(NamingConvention::class_name("sensor_manager"), "SensorManager");
    assert_eq!(NamingConvention::method_name("get_reading"), "getReading");
    assert_eq!(NamingConvention::enum_entry_name("active"), "ACTIVE");
}

#[test]
fn test_kotlin_keyword_escaping() {
    assert_eq!(NamingConvention::escape_keyword("value"), "`value`");
    assert_eq!(NamingConvention::escape_keyword("count"), "count");
}

#[test]
fn test_render_c_style_enum() {
    let status = Enumeration::new("sensor_status")
        .with_variant(Variant::new("idle").with_discriminant(0))
        .with_variant(Variant::new("active").with_discriminant(1))
        .with_variant(Variant::new("error").with_discriminant(2));

    let output = Kotlin::render_enum(&status);
    assert!(output.contains("enum class SensorStatus"));
    assert!(output.contains("IDLE(0)"));
    assert!(output.contains("ACTIVE(1)"));
    assert!(output.contains("fromValue(value: Int)"));
}

#[test]
fn test_render_sealed_class_enum() {
    let result_enum = Enumeration::new("api_result")
        .with_variant(Variant::new("success"))
        .with_variant(
            Variant::new("error")
                .with_field(RecordField::new("code", Type::Primitive(Primitive::I32))),
        );

    let output = Kotlin::render_enum(&result_enum);
    assert!(output.contains("sealed class ApiResult"));
    assert!(output.contains("data object Success"));
    assert!(output.contains("data class Error"));
    assert!(output.contains("val code: Int"));
}

#[test]
fn test_render_record() {
    let reading = Record::new("sensor_reading")
        .with_field(RecordField::new("timestamp", Type::Primitive(Primitive::U64)))
        .with_field(RecordField::new("temperature", Type::Primitive(Primitive::F64)));

    let output = Kotlin::render_record(&reading);
    assert!(output.contains("data class SensorReading"));
    assert!(output.contains("val timestamp: ULong"));
    assert!(output.contains("val temperature: Double"));
}

#[test]
fn test_render_function() {
    let function = Function::new("get_sensor_value")
        .with_param(Parameter::new("sensor_id", Type::Primitive(Primitive::I32)))
        .with_output(Type::Primitive(Primitive::F64));

    let module = Module::new("test");
    let output = Kotlin::render_function(&function, &module);
    assert!(output.contains("fun getSensorValue"));
    assert!(output.contains("sensorId: Int"));
    assert!(output.contains(": Double"));
}

#[test]
fn test_render_class() {
    let sensor_class = Class::new("sensor")
        .with_constructor(Constructor::new())
        .with_method(
            Method::new("get_reading", Receiver::Ref).with_output(Type::Primitive(Primitive::F64)),
        );

    let module = Module::new("test");
    let output = Kotlin::render_class(&sensor_class, &module, &KotlinOptions::default());
    assert!(output.contains("class Sensor"));
    assert!(output.contains("private val handle: Long"));
    assert!(output.contains("override fun close()"));
    assert!(output.contains("fun getReading()"));
}

#[test]
fn test_render_string_function() {
    let function = Function::new("fetch_data").with_output(Type::String);

    let module = Module::new("test");
    let output = Kotlin::render_function(&function, &module);
    assert!(output.contains("fun fetchData(): String"));
    assert!(output.contains("Native.riff_fetch_data"));
}

#[test]
fn test_render_native() {
    let module = Module::new("mylib")
        .with_function(Function::new("get_version").with_output(Type::Primitive(Primitive::I32)))
        .with_class(
            Class::new("sensor")
                .with_constructor(Constructor::new())
                .with_method(Method::new("read", Receiver::Ref)),
        );

    let output = Kotlin::render_native(&module);
    assert!(output.contains("private object Native"));
    assert!(output.contains("System.loadLibrary"));
    assert!(output.contains("@JvmStatic external fun riff_get_version"));
    assert!(output.contains("@JvmStatic external fun riff_sensor_new"));
    assert!(output.contains("@JvmStatic external fun riff_sensor_free"));
    assert!(output.contains("@JvmStatic external fun riff_sensor_read"));
}

#[test]
fn module_sections_are_trimmed_and_separated() {
    let module = Module::new("demo")
        .with_record(
            Record::new("point")
                .with_field(RecordField::new("x", Type::Primitive(Primitive::I32))),
        )
        .with_function(Function::new("ping").with_output(Type::Primitive(Primitive::I32)));
    let out = Kotlin::render_module(&module);
    assert!(out.contains("data class Point"));
    assert!(out.contains("fun ping(): Int"));
    assert!(out.contains("private object Native"));
    assert!(!out.contains("\n\n\n"));
    assert!(out.ends_with("\n"));
    assert!(!out.ends_with("\n\n"));
    assert!(!out.starts_with('\n'));
}

#[test]
fn wrappers_call_the_declared_native_symbols() {
    let module = Module::new("demo")
        .with_function(Function::new("read_level").with_output(Type::Primitive(Primitive::U8)))
        .with_class(
            Class::new("sensor")
                .with_constructor(Constructor::new())
                .with_method(Method::new("poll_now", Receiver::Ref)),
        );
    let function = Function::new("read_level").with_output(Type::Primitive(Primitive::U8));
    let wrapper = Kotlin::render_function(&function, &module);
    let native = Kotlin::render_native(&module);
    assert!(wrapper.contains("Native.riff_read_level("));
    assert!(native.contains("external fun riff_read_level("));
    assert!(native.contains("external fun riff_sensor_new("));
    assert!(native.contains("external fun riff_sensor_free("));
    assert!(native.contains("external fun riff_sensor_poll_now("));
    let class = Class::new("sensor")
        .with_constructor(Constructor::new())
        .with_method(Method::new("poll_now", Receiver::Ref));
    let class_text = Kotlin::render_class(&class, &module, &KotlinOptions::default());
    assert!(class_text.contains("Native.riff_sensor_free(handle)"));
    assert!(class_text.contains("Native.riff_sensor_poll_now("));
}

#[test]
fn codec_tags_fall_back_to_the_position() {
    let e = Enumeration::new("shape")
        .with_variant(
            Variant::new("circle")
                .with_discriminant(5_000_000_000)
                .with_field(RecordField::new("radius", Type::Primitive(Primitive::F64))),
        )
        .with_variant(Variant::new("square").with_discriminant(-3))
        .with_variant(Variant::new("empty"));
    let text = Kotlin::render_data_enum_codec(&e);
    assert!(text.contains("    const val TAG_CIRCLE = 0\n"));
    assert!(text.contains("    const val TAG_SQUARE = -3\n"));
    assert!(text.contains("    const val TAG_EMPTY = 2\n"));
    assert!(text.contains("buf.getDouble(base + 8)"));
}

#[test]
fn record_layout_offsets_and_size() {
    let r = Record::new("point")
        .with_field(RecordField::new("flag", Type::Primitive(Primitive::U8)))
        .with_field(RecordField::new("x", Type::Primitive(Primitive::F64)))
        .with_field(RecordField::new("y", Type::Primitive(Primitive::I32)));
    assert_eq!(r.field_offsets(), vec![0, 8, 16]);
    assert_eq!(r.struct_size(), 24);
}
