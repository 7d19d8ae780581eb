use riff_bindgen::model::{Module, Primitive, ReturnType, Type};
use riff_bindgen::swift::primitives::info;
use riff_bindgen::swift::{
    NamingConvention, ParamConversion, ParamsInfo, ReturnAbi, SwiftType, SyncCallBuilder,
    TypeMapper,
};
use riff_bindgen::swift::ReturnKind;
use riff_bindgen::model::{Function, Parameter};
use riff_bindgen::swift::FunctionTemplate;
use riff_bindgen::model::{CallbackTrait, TraitMethod, TraitMethodParam};
use riff_bindgen::swift::functions::to_camel_case;
use riff_bindgen::swift::CallbackTraitTemplate;

#[test]
fn swift_names() {
    assert_eq!(NamingConvention::class_name("sensor_manager"), "SensorManager");
    assert_eq!(NamingConvention::method_name("get_reading"), "getReading");
    assert_eq!(NamingConvention::param_name("default"), "`default`");
    assert_eq!(NamingConvention::property_name("self"), "`self`");
    assert_eq!(NamingConvention::enum_case_name("active"), "active");
    assert!(NamingConvention::is_keyword("protocol"));
    assert!(!NamingConvention::is_keyword("value"));
    assert_eq!(NamingConvention::escape_keyword("in"), "`in`");
    assert_eq!(NamingConvention::escape_keyword("count"), "count");
}

#[test]
fn swift_type_spellings() {
    assert_eq!(info(Primitive::U64).swift_type, "UInt64");
    assert_eq!(TypeMapper::map_type(&Type::Primitive(Primitive::I32)), "Int32");
    assert_eq!(TypeMapper::map_type(&Type::Primitive(Primitive::Usize)), "UInt");
    assert_eq!(TypeMapper::map_type(&Type::String), "String");
    assert_eq!(TypeMapper::map_type(&Type::Bytes), "Data");
    assert_eq!(
        TypeMapper::map_type(&Type::Vec(Box::new(Type::Primitive(Primitive::F64)))),
        "[Double]"
    );
    assert_eq!(
        TypeMapper::map_type(&Type::Option(Box::new(Type::Record("sensor_reading".to_string())))),
        "SensorReading?"
    );
    assert_eq!(TypeMapper::map_type(&Type::BoxedTrait("listener".to_string())), "ListenerProtocol");
    assert_eq!(
        TypeMapper::map_type(&Type::Result {
            ok: Box::new(Type::String),
            err: Box::new(Type::Enum("err".to_string())),
        }),
        "String"
    );
}

#[test]
fn swift_type_model() {
    let t = SwiftType::from_model(&Type::Option(Box::new(Type::Primitive(Primitive::Bool))));
    assert_eq!(t.swift_type(), "Bool?");
    assert_eq!(t.default_value(), "nil");
    assert!(!t.is_void());
    let v = SwiftType::from_model(&Type::Void);
    assert!(v.is_void());
    assert_eq!(v.default_value(), "()");
    let s = SwiftType::from_model(&Type::String);
    assert_eq!(s.cbindgen_name(), "FfiString");
    assert_eq!(s.ffi_type_suffix(), "string");
    let r = SwiftType::from_model(&Type::Record("Point".to_string()));
    assert!(r.is_struct());
    assert_eq!(r.default_value(), "Point()");
    let vec = SwiftType::from_model(&Type::Vec(Box::new(Type::Primitive(Primitive::U8))));
    assert_eq!(vec.swift_type(), "[UInt8]");
    assert!(vec.inner_type().is_some());
}

#[test]
fn string_parameters_are_pinned() {
    let c = ParamConversion::from_param("user_name", &Type::String);
    assert_eq!(c.name, "userName");
    assert_eq!(c.swift_type, "String");
    assert_eq!(c.wrapper_pre.as_deref(), Some("userName.withCString { userNamePtr in"));
    assert_eq!(c.wrapper_post.as_deref(), Some("}"));
    assert_eq!(
        c.ffi_args,
        vec![
            "UnsafeRawPointer(userNamePtr).assumingMemoryBound(to: UInt8.self)",
            "UInt(userName.utf8.count)"
        ]
    );
    assert!(c.needs_wrapper());
    let p = ParamConversion::from_param("count", &Type::Primitive(Primitive::U32));
    assert!(!p.needs_wrapper());
    assert_eq!(p.ffi_args, vec!["count"]);
    let e = ParamConversion::from_param("mode", &Type::Enum("mode".to_string()));
    assert_eq!(e.ffi_args, vec!["mode.cValue"]);
    let m = ParamConversion::from_param("buf", &Type::MutSlice(Box::new(Type::Primitive(Primitive::U8))));
    assert!(m.is_mutable);
}

#[test]
fn call_builder_nests_wrappers() {
    let s = Type::String;
    let d = Type::Bytes;
    let n = Type::Primitive(Primitive::I32);
    let params: Vec<(&str, &Type)> = vec![("name", &s), ("data", &d), ("id", &n)];
    let b = SyncCallBuilder::new("riff_do", true).with_params(&params);
    assert!(b.has_wrappers());
    assert_eq!(
        b.build_wrappers_open(),
        "name.withCString { namePtr in\ndata.withUnsafeBytes { dataPtr in"
    );
    assert_eq!(b.build_wrappers_close(), "}\n}");
    assert_eq!(
        b.build_ffi_args(),
        "handle, UnsafeRawPointer(namePtr).assumingMemoryBound(to: UInt8.self), UInt(name.utf8.count), dataPtr.baseAddress!.assumingMemoryBound(to: UInt8.self), UInt(data.count), id"
    );
    let plain = SyncCallBuilder::new("riff_x", false);
    assert!(!plain.has_wrappers());
    assert_eq!(plain.build_ffi_args(), "");
}

#[test]
fn return_abi_kinds() {
    let m = Module::new("demo");
    let unit = ReturnAbi::from_return_type(&ReturnType::Void, &m);
    assert!(unit.is_unit());
    assert!(unit.swift_type().is_none());
    let prim = ReturnAbi::from_return_type(&ReturnType::Value(Type::Primitive(Primitive::I64)), &m);
    assert!(prim.is_direct());
    assert_eq!(prim.swift_type(), Some("Int64"));
    assert_eq!(prim.direct_call_expr("riff_f()"), "riff_f()");
    assert!(!prim.throws());
    let text = ReturnAbi::from_return_type(&ReturnType::Value(Type::String), &m);
    assert!(text.is_wire_encoded());
    assert_eq!(text.swift_type(), Some("String"));
}

#[test]
fn params_info_collects_wrappers() {
    let s = Type::String;
    let n = Type::Primitive(Primitive::U8);
    let inputs: Vec<(&str, &Type)> = vec![("title", &s), ("level", &n)];
    let info = ParamsInfo::from_inputs(&inputs, "SetTitle");
    assert_eq!(info.params.len(), 2);
    assert!(info.params[0].needs_wrapper());
    assert!(!info.params[1].needs_wrapper());
}

#[test]
fn return_kinds_of_results() {
    let m = Module::new("demo");
    let void = ReturnType::Void;
    assert!(ReturnKind::from_returns(&void, "f", &m).is_void());
    let prim = ReturnType::Value(Type::Primitive(Primitive::I32));
    assert!(ReturnKind::from_returns(&prim, "f", &m).is_direct());
    let text = ReturnType::Value(Type::String);
    assert!(ReturnKind::from_returns(&text, "f", &m).is_string());
    let rec = ReturnType::Value(Type::Record("sensor_reading".to_string()));
    let k = ReturnKind::from_returns(&rec, "f", &m);
    assert!(k.is_record());
    assert_eq!(k.named_type(), Some("SensorReading"));
    let vec = ReturnType::Value(Type::Vec(Box::new(Type::Record("point".to_string()))));
    let k = ReturnKind::from_returns(&vec, "f", &m);
    assert!(k.is_vec());
    assert!(k.vec_is_struct());
    assert_eq!(k.inner_type(), Some("Point"));
    assert_eq!(k.vec_buf_type(), Some("FfiBuf_point"));
    assert_eq!(k.vec_free_fn(), Some("riff_free_buf_point"));
    let opt = ReturnType::Value(Type::Option(Box::new(Type::Primitive(Primitive::U8))));
    let k = ReturnKind::from_returns(&opt, "f", &m);
    assert!(k.is_option());
    assert!(k.is_option_scalar());
    assert!(k.is_option_packed());
    assert!(!k.is_option_large_primitive());
    assert!(!k.throws());
    assert_eq!(k.inner_type(), Some("UInt8"));
    let opt_vec = ReturnType::Value(Type::Option(Box::new(Type::Vec(Box::new(Type::String)))));
    let k = ReturnKind::from_returns(&opt_vec, "f", &m);
    assert!(k.is_option_vec());
    assert!(k.option_vec_is_string());
    assert_eq!(k.option_vec_buf_type(), Some("FfiBuf_FfiString"));
    let fallible = ReturnType::Fallible { ok: Type::Vec(Box::new(Type::Primitive(Primitive::F64))), err: Type::String };
    let k = ReturnKind::from_returns(&fallible, "f", &m);
    assert!(k.is_result());
    assert!(k.throws());
    assert!(k.result_ok_is_vec());
    assert_eq!(k.inner_type(), Some("[Double]"));
    let unit_err = ReturnType::Fallible { ok: Type::Void, err: Type::String };
    assert_eq!(ReturnKind::from_returns(&unit_err, "f", &m).inner_type(), Some("Void"));
}

#[test]
fn swift_function_view() {
    let m = Module::new("demo");
    let f = Function::new("set_title")
        .with_param(Parameter::new("title", Type::String))
        .with_param(Parameter::new("level", Type::Primitive(Primitive::U8)))
        .with_output(Type::Primitive(Primitive::I32));
    let t = FunctionTemplate::from_function(&f, &m);
    assert_eq!(t.prefix, "riff");
    assert_eq!(t.func_name, "setTitle");
    assert_eq!(t.ffi_name, "riff_set_title");
    assert_eq!(t.return_type.as_deref(), Some("Int32"));
    assert_eq!(t.wrappers_open, "title.withCString { titlePtr in");
    assert_eq!(t.wrappers_close, "}");
    assert_eq!(
        t.ffi_args,
        "UnsafeRawPointer(titlePtr).assumingMemoryBound(to: UInt8.self), UInt(title.utf8.count), level"
    );
    assert_eq!(t.direct_call, format!("riff_set_title({})", t.ffi_args));
    assert!(t.has_wrappers());
    assert!(!t.throws);
    assert!(!t.has_callbacks);
    assert_eq!(t.callback_args, "");
    assert_eq!(t.ffi_poll, "riff_set_title_poll");
    assert_eq!(t.ffi_cancel, "riff_set_title_cancel");
    assert_eq!(t.params.len(), 2);
}

#[test]
fn swift_callback_trait_view() {
    let m = Module::new("demo");
    let cb = CallbackTrait::new("DataListener")
        .with_method(
            TraitMethod::new("on_data")
                .with_param(TraitMethodParam::new("payload", Type::String))
                .with_return(ReturnType::Value(Type::Record("ack".to_string()))),
        )
        .with_method(TraitMethod::new("on_done").make_async());
    let t = CallbackTraitTemplate::from_trait(&cb, &m);
    assert_eq!(t.protocol_name, "DataListenerProtocol");
    assert_eq!(t.wrapper_class, "DataListenerWrapper");
    assert_eq!(t.vtable_var, "dataListenerVTableInstance");
    assert_eq!(t.vtable_type, "DataListenerVTable");
    assert_eq!(t.bridge_name, "DataListenerBridge");
    assert_eq!(t.foreign_type, "ForeignDataListener");
    assert_eq!(t.register_fn, "riff_register_data_listener_vtable");
    assert_eq!(t.create_fn, "riff_create_data_listener_handle");
    assert_eq!(t.methods.len(), 2);
    let on_data = &t.methods[0];
    assert_eq!(on_data.swift_name, "onData");
    assert_eq!(on_data.ffi_name, "on_data");
    assert_eq!(on_data.return_type.as_deref(), Some("Ack"));
    assert!(on_data.has_return);
    assert!(on_data.has_out_param);
    assert!(on_data.wire_encoded_return);
    assert_eq!(on_data.params[0].swift_type, "String");
    assert_eq!(on_data.params[0].label, "payload");
    let on_done = &t.methods[1];
    assert!(on_done.is_async);
    assert!(!on_done.has_return);
    assert!(!on_done.has_out_param);
    assert_eq!(to_camel_case("Listener"), "listener");
    assert_eq!(to_camel_case(""), "");
}

#[test]
fn suffixes_are_lowercased() {
    let r = SwiftType::from_model(&Type::Record("SensorReading".to_string()));
    assert_eq!(r.ffi_type_suffix(), "sensorreading");
    assert_eq!(r.cbindgen_name(), "SensorReading");
}
