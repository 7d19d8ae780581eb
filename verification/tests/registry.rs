use riff_bindgen::callback_registry::{
    build_registry, is_callback_trait, is_object_safe, module_path_for_rs_file,
    normalize_segments, registry_from_texts, source_file, CallbackTraitEntry,
    CallbackTraitRegistry, RegistryError, SourceFile, SourceItem, SourceTrait,
};

fn strings(parts: &[&str]) -> Vec<String> {
    parts.iter().map(|p| p.to_string()).collect()
}

fn entry(module: &[&str], name: &str, safe: bool) -> CallbackTraitEntry {
    CallbackTraitEntry {
        module_parts: strings(module),
        trait_name: name.to_string(),
        is_object_safe: safe,
    }
}

fn attrs(parts: &[&str]) -> Vec<Option<String>> {
    parts.iter().map(|p| Some(p.to_string())).collect()
}

fn methods(asyncs: &[bool]) -> Vec<Option<bool>> {
    asyncs.iter().map(|a| Some(*a)).collect()
}

fn exported_trait(name: &str, attributes: &[&str], asyncs: &[bool]) -> SourceItem {
    SourceItem::Trait(SourceTrait {
        name: name.to_string(),
        attributes: attrs(attributes),
        items: methods(asyncs),
    })
}

#[test]
fn normalize_drops_one_leading_root() {
    assert_eq!(normalize_segments(&strings(&["crate", "a", "T"])), strings(&["a", "T"]));
    assert_eq!(normalize_segments(&strings(&["self", "T"])), strings(&["T"]));
    assert_eq!(normalize_segments(&strings(&["super", "T"])), strings(&["T"]));
    assert_eq!(normalize_segments(&strings(&["crate", "self", "T"])), strings(&["self", "T"]));
    assert_eq!(normalize_segments(&strings(&["a", "T"])), strings(&["a", "T"]));
    assert_eq!(normalize_segments(&strings(&[])), strings(&[]));
}

#[test]
fn module_path_of_files() {
    let root = strings(&["home", "proj", "src"]);
    assert_eq!(
        module_path_for_rs_file(&root, &strings(&["home", "proj", "src", "lib.rs"])),
        Ok(strings(&[]))
    );
    assert_eq!(
        module_path_for_rs_file(&root, &strings(&["home", "proj", "src", "net", "mod.rs"])),
        Ok(strings(&["net"]))
    );
    assert_eq!(
        module_path_for_rs_file(&root, &strings(&["home", "proj", "src", "net", "http.rs"])),
        Ok(strings(&["net", "http"]))
    );
    assert_eq!(
        module_path_for_rs_file(&root, &strings(&["home", "proj", "src", "a.rs.rs"])),
        Ok(strings(&["a"]))
    );
    assert_eq!(
        module_path_for_rs_file(&root, &strings(&["home", "proj", "src", "notes.txt"])),
        Ok(strings(&[]))
    );
    assert_eq!(module_path_for_rs_file(&root, &root), Ok(strings(&[])));
}

#[test]
fn module_path_outside_root_is_an_error() {
    let root = strings(&["home", "proj", "src"]);
    let r = module_path_for_rs_file(&root, &strings(&["home", "other", "src", "lib.rs"]));
    assert_eq!(r, Err(RegistryError::PathNotUnderSrc));
    assert_eq!(RegistryError::PathNotUnderSrc.message(), "path not under src");
    let short = module_path_for_rs_file(&root, &strings(&["home"]));
    assert_eq!(short, Err(RegistryError::PathNotUnderSrc));
}

#[test]
fn export_attributes_and_object_safety() {
    let t = SourceTrait {
        name: "Listener".to_string(),
        attributes: attrs(&["export"]),
        items: methods(&[false, false]),
    };
    assert!(is_callback_trait(&t));
    assert!(is_object_safe(&t));
    let t2 = SourceTrait {
        name: "Fetcher".to_string(),
        attributes: attrs(&["ffi_trait"]),
        items: methods(&[false, true]),
    };
    assert!(is_callback_trait(&t2));
    assert!(!is_object_safe(&t2));
    let t3 = SourceTrait {
        name: "Fetcher".to_string(),
        attributes: attrs(&["ffi_trait", "async_trait"]),
        items: methods(&[true]),
    };
    assert!(is_object_safe(&t3));
    let t4 = SourceTrait {
        name: "Plain".to_string(),
        attributes: attrs(&["derive"]),
        items: vec![],
    };
    assert!(!is_callback_trait(&t4));
    let t5 = SourceTrait {
        name: "Mixed".to_string(),
        attributes: vec![None, Some("export".to_string())],
        items: vec![None, Some(false)],
    };
    assert!(is_callback_trait(&t5));
    assert!(is_object_safe(&t5));
}

#[test]
fn resolve_unique_and_qualified_paths() {
    let registry = CallbackTraitRegistry::from_entries(vec![
        entry(&[], "Listener", true),
        entry(&["net"], "Fetcher", false),
    ]);
    let r = registry.resolve(&strings(&["crate", "net", "Fetcher"])).unwrap();
    assert_eq!(r.foreign_path, strings(&["crate", "net", "ForeignFetcher"]));
    assert!(!r.is_object_safe);
    let r2 = registry.resolve(&strings(&["Fetcher"])).unwrap();
    assert_eq!(r2.foreign_path, strings(&["crate", "net", "ForeignFetcher"]));
    let r3 = registry.resolve(&strings(&["self", "Listener"])).unwrap();
    assert_eq!(r3.foreign_path, strings(&["crate", "ForeignListener"]));
    assert!(r3.is_object_safe);
    assert!(registry.resolve(&strings(&["other", "Fetcher"])).is_none());
    assert!(registry.resolve(&strings(&["Missing"])).is_none());
    assert!(registry.resolve(&strings(&["crate"])).is_none());
    assert!(registry.resolve(&strings(&[])).is_none());
}

#[test]
fn resolve_ambiguous_name_gives_nothing() {
    let registry = CallbackTraitRegistry::from_entries(vec![
        entry(&["a"], "Sink", true),
        entry(&["b"], "Sink", true),
    ]);
    assert!(registry.resolve(&strings(&["Sink"])).is_none());
    let r = registry.resolve(&strings(&["crate", "b", "Sink"])).unwrap();
    assert_eq!(r.foreign_path, strings(&["crate", "b", "ForeignSink"]));
}

#[test]
fn build_registry_walks_inline_modules() {
    let files = vec![
        SourceFile {
            module_parts: strings(&[]),
            items: vec![
                exported_trait("Listener", &["export"], &[false]),
                SourceItem::Other,
                SourceItem::Mod {
                    name: "inner".to_string(),
                    content: Some(vec![
                        exported_trait("Deep", &["riff", "export"], &[true]),
                        exported_trait("Hidden", &[], &[]),
                    ]),
                },
                SourceItem::Mod { name: "outlined".to_string(), content: None },
            ],
        },
        SourceFile {
            module_parts: strings(&["net"]),
            items: vec![exported_trait("Fetcher", &["ffi_trait"], &[])],
        },
    ];
    let registry = build_registry(&files);
    let entries = registry.entries();
    assert_eq!(entries.len(), 3);
    assert_eq!(entries[0].trait_name, "Listener");
    assert!(entries[0].module_parts.is_empty());
    assert_eq!(entries[1].trait_name, "Deep");
    assert_eq!(entries[1].module_parts, strings(&["inner"]));
    assert!(!entries[1].is_object_safe);
    assert_eq!(entries[2].module_parts, strings(&["net"]));
    let r = registry.resolve(&strings(&["crate", "inner", "Deep"])).unwrap();
    assert_eq!(r.foreign_path, strings(&["crate", "inner", "ForeignDeep"]));
    assert!(registry.resolve(&strings(&["Hidden"])).is_none());
}

#[test]
fn foreign_path_of_an_entry() {
    let e = entry(&["a", "b"], "Cb", true);
    assert_eq!(e.foreign_path(), strings(&["crate", "a", "b", "ForeignCb"]));
}

#[test]
fn registry_from_source_texts() {
    let files = vec![
        (
            strings(&[]),
            "#[riff::export]\npub trait Listener { fn on_event(&self, x: i32); }\n\
             pub struct Plain;\n\
             mod inner {\n    #[ffi_trait]\n    pub trait Deep { type Out; async fn fetch(&self); }\n}\n"
                .to_string(),
        ),
        (
            strings(&["net"]),
            "#[export]\n#[async_trait::async_trait]\npub trait Fetcher { const N: u8; async fn get(&self); }\n\
             pub trait Hidden { fn f(&self); }\n"
                .to_string(),
        ),
    ];
    let registry = registry_from_texts(&files).unwrap();
    let entries = registry.entries();
    assert_eq!(entries.len(), 3);
    assert_eq!(entries[0].trait_name, "Listener");
    assert!(entries[0].module_parts.is_empty());
    assert!(entries[0].is_object_safe);
    assert_eq!(entries[1].trait_name, "Deep");
    assert_eq!(entries[1].module_parts, strings(&["inner"]));
    assert!(!entries[1].is_object_safe);
    assert_eq!(entries[2].trait_name, "Fetcher");
    assert_eq!(entries[2].module_parts, strings(&["net"]));
    assert!(entries[2].is_object_safe);
    assert!(registry.resolve(&strings(&["Hidden"])).is_none());
}

#[test]
fn registry_from_texts_refuses_text_that_does_not_parse() {
    let files = vec![
        (strings(&[]), "#[export] pub trait Listener {}".to_string()),
        (strings(&["bad"]), "pub trait {".to_string()),
    ];
    assert!(registry_from_texts(&files).is_none());
    assert!(source_file(strings(&["bad"]), "fn (").is_none());
}

#[test]
fn source_file_reads_each_item() {
    let f = source_file(strings(&["a"]), "#[derive(Debug)] trait T { fn m(&self); } fn g() {}").unwrap();
    assert_eq!(f.module_parts, strings(&["a"]));
    assert_eq!(f.items.len(), 2);
    match &f.items[0] {
        SourceItem::Trait(t) => {
            assert_eq!(t.name, "T");
            assert_eq!(t.attributes, vec![Some("derive".to_string())]);
            assert_eq!(t.items, vec![Some(false)]);
        }
        other => panic!("unexpected item {:?}", other),
    }
    assert!(matches!(f.items[1], SourceItem::Other));
}
