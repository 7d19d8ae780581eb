//! The Kotlin source templates: each gathers what one piece of output needs
//! from the model and renders it to text.

use vstd::prelude::*;
use crate::case::{
    lowercase, shouty_snake_case, to_lowercase, to_shouty_snake_case, upper_camel_case,
};
use crate::model::{
    field_offset, enum_layout_fits, record_layout_fits, spec_enum_field_offset, spec_enum_struct_size, spec_payload_offset,
    DataEnumLayout, spec_is_c_style, spec_struct_size, Enumeration, Module, Primitive, Record,
    RecordField, Type, Variant,
};
use crate::naming::{ffi_prefix, spec_ffi_prefix};
use crate::text::{
    concat2, concat3, concat4, concat_all, i64_text, int_text, join, push_str, render_all, nat_text,
    seq_concat, seq_join, string_of, usize_text, views,
};
use super::names::{kotlin_member, NamingConvention};
use super::primitives::{buffer_conversion, buffer_getter, buffer_putter, buffer_value_expr, info};
use super::types::{kotlin_type, TypeMapper};

verus! {

// ---------------------------------------------------------------------------
// Preamble
// ---------------------------------------------------------------------------

/// The package header and the imports every file needs.
pub struct PreambleTemplate {
    pub package_name: String,
    pub prefix: String,
    pub extra_imports: Vec<String>,
}

/// One import line.
pub open spec fn import_text(i: String) -> Seq<char> {
    "import "@ + i@ + "\n"@
}

/// The preamble's text.
pub open spec fn preamble_text(t: PreambleTemplate) -> Seq<char> {
    "package "@ + t.package_name@ + "\n\nimport java.nio.ByteBuffer\nimport java.nio.ByteOrder\n"@
        + seq_concat(t.extra_imports@.map_values(|i: String| import_text(i)))
        + "\nclass FfiException(val code: Int, message: String) : Exception(message)\n"@
}

/// The imports that coroutine-based callbacks need.
pub open spec fn coroutine_imports() -> Seq<Seq<char>> {
    seq![
        "kotlinx.coroutines.DelicateCoroutinesApi"@,
        "kotlinx.coroutines.GlobalScope"@,
        "kotlinx.coroutines.launch"@,
    ]
}

/// Whether some callback trait of the module has an async method.
pub open spec fn has_async_callbacks(module: Module) -> bool {
    exists|i: int, j: int|
        0 <= i < module.callback_traits@.len() && 0 <= j
            < module.callback_traits@[i].methods@.len()
            && #[trigger] module.callback_traits@[i].methods@[j].is_async
}

/// The imports a module needs beyond the fixed ones.
pub open spec fn extra_imports_for(module: Module) -> Seq<Seq<char>> {
    if has_async_callbacks(module) {
        coroutine_imports()
    } else {
        Seq::empty()
    }
}

/// One import line.
fn import_line(i: &String) -> (r: String)
    ensures
        r@ == import_text(*i),
{
    concat3("import ", i.as_str(), "\n")
}

/// Whether `t` is the preamble of `module` in package `package`.
pub open spec fn preamble_of(t: PreambleTemplate, package: Seq<char>, module: Module) -> bool {
    &&& t.package_name@ == package
    &&& t.prefix@ == spec_ffi_prefix()
    &&& views(t.extra_imports@) == extra_imports_for(module)
}

/// The preamble text of `module` in package `package`.
pub open spec fn preamble_source(package: Seq<char>, module: Module) -> Seq<char> {
    "package "@ + package + "\n\nimport java.nio.ByteBuffer\nimport java.nio.ByteOrder\n"@
        + seq_concat(extra_imports_for(module).map_values(|i: Seq<char>| "import "@ + i + "\n"@))
        + "\nclass FfiException(val code: Int, message: String) : Exception(message)\n"@
}

/// Any preamble of `module` renders to its source text.
pub proof fn lemma_preamble_text(t: PreambleTemplate, package: Seq<char>, module: Module)
    requires
        preamble_of(t, package, module),
    ensures
        preamble_text(t) == preamble_source(package, module),
{
    assert(t.extra_imports@.map_values(|i: String| import_text(i)) =~= extra_imports_for(
        module,
    ).map_values(|i: Seq<char>| "import "@ + i + "\n"@)) by {
        assert(forall|k: int|
            0 <= k < t.extra_imports@.len() ==> #[trigger] views(t.extra_imports@)[k]
                == t.extra_imports@[k]@);
    }
}

impl PreambleTemplate {
    /// The preamble for a module, in the package named after it.
    pub fn from_module(module: &Module) -> (r: Self)
        ensures
            preamble_of(r, lowercase(upper_camel_case(module.name@)), *module),
    {
        let class = NamingConvention::class_name(module.name.as_str());
        Self {
            package_name: to_lowercase(class.as_str()),
            prefix: string_of(ffi_prefix()),
            extra_imports: Self::collect_imports(module),
        }
    }

    /// The preamble for a package, without extra imports.
    pub fn with_package(package_name: &str) -> (r: Self)
        ensures
            r.package_name@ == package_name@,
            r.prefix@ == spec_ffi_prefix(),
            r.extra_imports@.len() == 0,
    {
        Self {
            package_name: string_of(package_name),
            prefix: string_of(ffi_prefix()),
            extra_imports: Vec::new(),
        }
    }

    /// The preamble for a module in the given package.
    pub fn with_package_and_module(package_name: &str, module: &Module) -> (r: Self)
        ensures
            preamble_of(r, package_name@, *module),
    {
        Self {
            package_name: string_of(package_name),
            prefix: string_of(ffi_prefix()),
            extra_imports: Self::collect_imports(module),
        }
    }

    fn collect_imports(module: &Module) -> (r: Vec<String>)
        ensures
            views(r@) == extra_imports_for(*module),
    {
        let mut found = false;
        let mut i: usize = 0;
        while i < module.callback_traits.len()
            invariant
                i <= module.callback_traits@.len(),
                found == exists|a: int, j: int|
                    0 <= a < i && 0 <= j < module.callback_traits@[a].methods@.len()
                        && #[trigger] module.callback_traits@[a].methods@[j].is_async,
            decreases module.callback_traits@.len() - i,
        {
            if module.callback_traits[i].has_async_methods() {
                found = true;
            }
            i = i + 1;
        }
        let mut r: Vec<String> = Vec::new();
        if found {
            r.push(string_of("kotlinx.coroutines.DelicateCoroutinesApi"));
            r.push(string_of("kotlinx.coroutines.GlobalScope"));
            r.push(string_of("kotlinx.coroutines.launch"));
            assert(views(r@) =~= coroutine_imports());
        } else {
            assert(views(r@) =~= Seq::<Seq<char>>::empty());
        }
        r
    }

    /// The preamble's text.
    pub fn render(&self) -> (r: String)
        ensures
            r@ == preamble_text(*self),
    {
        let lines = render_all(&self.extra_imports, import_line, Ghost(|i: String| import_text(i)));
        let imports = concat_all(&lines);
        let mut r = concat3(
            "package ",
            self.package_name.as_str(),
            "\n\nimport java.nio.ByteBuffer\nimport java.nio.ByteOrder\n",
        );
        push_str(&mut r, imports.as_str());
        push_str(&mut r, "\nclass FfiException(val code: Int, message: String) : Exception(message)\n");
        r
    }
}

// ---------------------------------------------------------------------------
// C-style enums
// ---------------------------------------------------------------------------

/// A Kotlin `enum class` for an enumeration whose variants carry no data.
pub struct CStyleEnumTemplate {
    pub class_name: String,
    pub variants: Vec<EnumVariantView>,
    pub is_error: bool,
}

/// One entry of an `enum class`.
pub struct EnumVariantView {
    pub name: String,
    pub value: i64,
}

/// The discriminant of variant `i`: its own, or its position.
pub open spec fn discriminant_or_index(d: Option<i64>, i: int) -> int {
    match d {
        Some(v) => v as int,
        None => i,
    }
}

/// One entry's text.
pub open spec fn c_style_variant_text(v: EnumVariantView) -> Seq<char> {
    "    "@ + v.name@ + "("@ + int_text(v.value as int) + ")"@
}

/// The `enum class` text.
pub open spec fn c_style_enum_text(t: CStyleEnumTemplate) -> Seq<char> {
    "enum class "@ + t.class_name@ + "(val value: Int) {\n"@ + seq_join(
        t.variants@.map_values(|v: EnumVariantView| c_style_variant_text(v)),
        ",\n"@,
    ) + ";\n\n    companion object {\n        fun fromValue(value: Int): "@ + t.class_name@
        + " = entries.first { it.value == value }\n    }\n}\n"@
}

/// Whether `t` is the `enum class` of `e`: shouty entry names, and each
/// discriminant or, where there is none, the variant's position.
pub open spec fn c_style_enum_of(t: CStyleEnumTemplate, e: Enumeration) -> bool {
    &&& t.class_name@ == upper_camel_case(e.name@)
    &&& t.is_error == e.is_error
    &&& t.variants@.len() == e.variants@.len()
    &&& forall|i: int|
        0 <= i < t.variants@.len() ==> {
            &&& (#[trigger] t.variants@[i]).name@ == shouty_snake_case(e.variants@[i].name@)
            &&& t.variants@[i].value == discriminant_or_index(e.variants@[i].discriminant, i)
        }
}

/// The `enum class` text of `e`.
pub open spec fn c_style_enum_source(e: Enumeration) -> Seq<char> {
    c_style_enum_text(choose|t: CStyleEnumTemplate| c_style_enum_of(t, e))
}

/// Every `enum class` template of `e` renders to the same text.
pub proof fn lemma_c_style_enum_text(t: CStyleEnumTemplate, e: Enumeration)
    requires
        c_style_enum_of(t, e),
    ensures
        c_style_enum_text(t) == c_style_enum_source(e),
{
    let u = choose|u: CStyleEnumTemplate| c_style_enum_of(u, e);
    assert(t.variants@.map_values(|v: EnumVariantView| c_style_variant_text(v)) =~= u.variants@.map_values(
        |v: EnumVariantView| c_style_variant_text(v),
    ));
}

impl EnumVariantView {
    /// The entry's text.
    pub fn render(&self) -> (r: String)
        ensures
            r@ == c_style_variant_text(*self),
    {
        let v = i64_text(self.value);
        let mut r = concat4("    ", self.name.as_str(), "(", v.as_str());
        push_str(&mut r, ")");
        r
    }
}

impl CStyleEnumTemplate {
    /// The entries of an enumeration: shouty names, and each discriminant or,
    /// where there is none, the variant's position.
    pub fn from_enum(enumeration: &Enumeration) -> (r: Self)
        requires
            enumeration.variants@.len() <= i64::MAX,
        ensures
            c_style_enum_of(r, *enumeration),
    {
        let mut variants: Vec<EnumVariantView> = Vec::new();
        let mut i: usize = 0;
        while i < enumeration.variants.len()
            invariant
                i <= enumeration.variants@.len() <= i64::MAX,
                variants@.len() == i,
                forall|j: int|
                    0 <= j < i ==> {
                        &&& (#[trigger] variants@[j]).name@ == shouty_snake_case(
                            enumeration.variants@[j].name@,
                        )
                        &&& variants@[j].value == discriminant_or_index(
                            enumeration.variants@[j].discriminant,
                            j,
                        )
                    },
            decreases enumeration.variants@.len() - i,
        {
            let v = &enumeration.variants[i];
            let value = match v.discriminant {
                Some(d) => d,
                None => i as i64,
            };
            variants.push(
                EnumVariantView { name: NamingConvention::enum_entry_name(v.name.as_str()), value },
            );
            i = i + 1;
        }
        Self {
            class_name: NamingConvention::class_name(enumeration.name.as_str()),
            variants,
            is_error: enumeration.is_error,
        }
    }

    /// The `enum class` text.
    pub fn render(&self) -> (r: String)
        ensures
            r@ == c_style_enum_text(*self),
    {
        let lines = render_all(
            &self.variants,
            EnumVariantView::render,
            Ghost(|v: EnumVariantView| c_style_variant_text(v)),
        );
        let body = join(&lines, ",\n");
        let mut r = concat3("enum class ", self.class_name.as_str(), "(val value: Int) {\n");
        push_str(&mut r, body.as_str());
        push_str(&mut r, ";\n\n    companion object {\n        fun fromValue(value: Int): ");
        push_str(&mut r, self.class_name.as_str());
        push_str(&mut r, " = entries.first { it.value == value }\n    }\n}\n");
        r
    }
}

// ---------------------------------------------------------------------------
// Sealed-class enums
// ---------------------------------------------------------------------------

/// Whether a field name is positional (`_0`, `_1`, ...): an underscore
/// followed by a digit.
pub open spec fn is_tuple_name(s: Seq<char>) -> bool {
    s.len() >= 2 && s[0] == '_' && '0' <= s[1] && s[1] <= '9'
}

/// Whether a field name is positional.
pub fn is_tuple_field_name(name: &String) -> (r: bool)
    ensures
        r == is_tuple_name(name@),
{
    let cs = crate::text::chars_of(name.as_str());
    cs.len() >= 2 && cs[0] == '_' && '0' <= cs[1] && cs[1] <= '9'
}

/// Whether some field of the variant is positional.
pub open spec fn variant_is_tuple(v: Variant) -> bool {
    exists|j: int| 0 <= j < v.fields@.len() && is_tuple_name(#[trigger] v.fields@[j].name@)
}

/// A Kotlin `sealed class` for an enumeration whose variants carry data (or
/// that is an error).
pub struct SealedEnumTemplate {
    pub class_name: String,
    pub variants: Vec<SealedVariantView>,
    pub is_error: bool,
}

/// One subclass of the sealed class.
pub struct SealedVariantView {
    pub name: String,
    pub is_tuple: bool,
    pub fields: Vec<SealedFieldView>,
}

/// One property of a subclass.
pub struct SealedFieldView {
    pub name: String,
    pub index: usize,
    pub kotlin_type: String,
    pub is_tuple: bool,
}

/// Whether `f` is the view of field `i` of a variant.
pub open spec fn sealed_field_of(f: SealedFieldView, field: RecordField, i: int) -> bool {
    &&& f.name@ == kotlin_member(field.name@)
    &&& f.index == i
    &&& f.kotlin_type@ == kotlin_type(field.field_type)
    &&& f.is_tuple == is_tuple_name(field.name@)
}

/// Whether `v` is the view of `variant`.
pub open spec fn sealed_variant_of(v: SealedVariantView, variant: Variant) -> bool {
    &&& v.name@ == upper_camel_case(variant.name@)
    &&& v.is_tuple == variant_is_tuple(variant)
    &&& v.fields@.len() == variant.fields@.len()
    &&& forall|j: int|
        0 <= j < v.fields@.len() ==> sealed_field_of(#[trigger] v.fields@[j], variant.fields@[j], j)
}

/// A property declaration.
pub open spec fn sealed_field_text(f: SealedFieldView) -> Seq<char> {
    "val "@ + (if f.is_tuple {
        "value"@ + crate::text::nat_text(f.index as nat)
    } else {
        f.name@
    }) + ": "@ + f.kotlin_type@
}

/// A subclass declaration.
pub open spec fn sealed_variant_text(v: SealedVariantView, class: String) -> Seq<char> {
    if v.fields@.len() == 0 {
        "    data object "@ + v.name@ + " : "@ + class@ + "()"@
    } else {
        "    data class "@ + v.name@ + "("@ + seq_join(
            v.fields@.map_values(|f: SealedFieldView| sealed_field_text(f)),
            ", "@,
        ) + ") : "@ + class@ + "()"@
    }
}

/// The `sealed class` text.
pub open spec fn sealed_enum_text(t: SealedEnumTemplate) -> Seq<char> {
    "sealed class "@ + t.class_name@ + (if t.is_error {
        " : Exception()"@
    } else {
        ""@
    }) + " {\n"@ + seq_join(
        t.variants@.map_values(|v: SealedVariantView| sealed_variant_text(v, t.class_name)),
        "\n"@,
    ) + "\n}\n"@
}

/// Whether `t` is the `sealed class` of `e`, one subclass per variant.
pub open spec fn sealed_enum_of(t: SealedEnumTemplate, e: Enumeration) -> bool {
    &&& t.class_name@ == upper_camel_case(e.name@)
    &&& t.is_error == e.is_error
    &&& t.variants@.len() == e.variants@.len()
    &&& forall|i: int|
        0 <= i < t.variants@.len() ==> sealed_variant_of(#[trigger] t.variants@[i], e.variants@[i])
}

/// The `sealed class` text of `e`.
pub open spec fn sealed_enum_source(e: Enumeration) -> Seq<char> {
    sealed_enum_text(choose|t: SealedEnumTemplate| sealed_enum_of(t, e))
}

/// Every `sealed class` template of `e` renders to the same text.
pub proof fn lemma_sealed_enum_text(t: SealedEnumTemplate, e: Enumeration)
    requires
        sealed_enum_of(t, e),
    ensures
        sealed_enum_text(t) == sealed_enum_source(e),
{
    let u = choose|u: SealedEnumTemplate| sealed_enum_of(u, e);
    assert forall|i: int| 0 <= i < t.variants@.len() implies sealed_variant_text(
        #[trigger] t.variants@[i],
        t.class_name,
    ) == sealed_variant_text(u.variants@[i], u.class_name) by {
        assert(t.variants@[i].fields@.map_values(|f: SealedFieldView| sealed_field_text(f))
            =~= u.variants@[i].fields@.map_values(|f: SealedFieldView| sealed_field_text(f)));
    }
    assert(t.variants@.map_values(|v: SealedVariantView| sealed_variant_text(v, t.class_name))
        =~= u.variants@.map_values(|v: SealedVariantView| sealed_variant_text(v, u.class_name)));
}

impl SealedFieldView {
    /// The property declaration.
    pub fn render(&self) -> (r: String)
        ensures
            r@ == sealed_field_text(*self),
    {
        let mut r = string_of("val ");
        if self.is_tuple {
            push_str(&mut r, "value");
            let n = crate::text::usize_text(self.index);
            push_str(&mut r, n.as_str());
        } else {
            push_str(&mut r, self.name.as_str());
        }
        push_str(&mut r, ": ");
        push_str(&mut r, self.kotlin_type.as_str());
        r
    }
}

impl SealedVariantView {
    /// The subclass declaration.
    pub fn render(&self, class: &String) -> (r: String)
        ensures
            r@ == sealed_variant_text(*self, *class),
    {
        if self.fields.len() == 0 {
            let mut r = concat4("    data object ", self.name.as_str(), " : ", class.as_str());
            push_str(&mut r, "()");
            r
        } else {
            let parts = render_all(
                &self.fields,
                SealedFieldView::render,
                Ghost(|f: SealedFieldView| sealed_field_text(f)),
            );
            let fields = join(&parts, ", ");
            let mut r = concat4("    data class ", self.name.as_str(), "(", fields.as_str());
            push_str(&mut r, ") : ");
            push_str(&mut r, class.as_str());
            push_str(&mut r, "()");
            r
        }
    }
}

impl SealedEnumTemplate {
    /// The subclasses of an enumeration, one per variant.
    pub fn from_enum(enumeration: &Enumeration) -> (r: Self)
        ensures
            sealed_enum_of(r, *enumeration),
    {
        let mut variants: Vec<SealedVariantView> = Vec::new();
        let mut i: usize = 0;
        while i < enumeration.variants.len()
            invariant
                i <= enumeration.variants@.len(),
                variants@.len() == i,
                forall|k: int|
                    0 <= k < i ==> sealed_variant_of(
                        #[trigger] variants@[k],
                        enumeration.variants@[k],
                    ),
            decreases enumeration.variants@.len() - i,
        {
            let variant = &enumeration.variants[i];
            let mut fields: Vec<SealedFieldView> = Vec::new();
            let mut any_tuple = false;
            let mut j: usize = 0;
            while j < variant.fields.len()
                invariant
                    j <= variant.fields@.len(),
                    fields@.len() == j,
                    forall|k: int|
                        0 <= k < j ==> sealed_field_of(#[trigger] fields@[k], variant.fields@[k], k),
                    any_tuple == exists|k: int|
                        0 <= k < j && is_tuple_name(#[trigger] variant.fields@[k].name@),
                decreases variant.fields@.len() - j,
            {
                let field = &variant.fields[j];
                let field_is_tuple = is_tuple_field_name(&field.name);
                if field_is_tuple {
                    any_tuple = true;
                }
                fields.push(
                    SealedFieldView {
                        name: NamingConvention::property_name(field.name.as_str()),
                        index: j,
                        kotlin_type: TypeMapper::map_type(&field.field_type),
                        is_tuple: field_is_tuple,
                    },
                );
                j = j + 1;
            }
            variants.push(
                SealedVariantView {
                    name: NamingConvention::class_name(variant.name.as_str()),
                    is_tuple: any_tuple,
                    fields,
                },
            );
            i = i + 1;
        }
        Self {
            class_name: NamingConvention::class_name(enumeration.name.as_str()),
            variants,
            is_error: enumeration.is_error,
        }
    }

    /// The `sealed class` text.
    pub fn render(&self) -> (r: String)
        ensures
            r@ == sealed_enum_text(*self),
    {
        let parts = crate::text::render_all_ctx(
            &self.variants,
            &self.class_name,
            SealedVariantView::render,
            Ghost(|v: SealedVariantView, c: String| sealed_variant_text(v, c)),
        );
        assert(views(parts@) =~= self.variants@.map_values(
            |v: SealedVariantView| sealed_variant_text(v, self.class_name),
        ));
        let body = join(&parts, "\n");
        let mut r = concat2("sealed class ", self.class_name.as_str());
        if self.is_error {
            push_str(&mut r, " : Exception()");
        } else {
            push_str(&mut r, "");
        }
        push_str(&mut r, " {\n");
        push_str(&mut r, body.as_str());
        push_str(&mut r, "\n}\n");
        r
    }
}

// ---------------------------------------------------------------------------
// Records
// ---------------------------------------------------------------------------

/// A Kotlin `data class` for a record.
pub struct RecordTemplate {
    pub class_name: String,
    pub fields: Vec<FieldView>,
}

/// One property of a record.
pub struct FieldView {
    pub name: String,
    pub kotlin_type: String,
}

/// A record property declaration.
pub open spec fn record_field_text(f: FieldView) -> Seq<char> {
    "    val "@ + f.name@ + ": "@ + f.kotlin_type@
}

/// The record's text: a `data class`, or a plain `class` when it has no
/// fields (a data class needs at least one property).
pub open spec fn record_text(t: RecordTemplate) -> Seq<char> {
    if t.fields@.len() == 0 {
        "class "@ + t.class_name@ + "\n"@
    } else {
        "data class "@ + t.class_name@ + "(\n"@ + seq_join(
            t.fields@.map_values(|f: FieldView| record_field_text(f)),
            ",\n"@,
        ) + "\n)\n"@
    }
}

/// Whether `t` is the `data class` of `record`, one property per field.
pub open spec fn record_template_of(t: RecordTemplate, record: Record) -> bool {
    &&& t.class_name@ == upper_camel_case(record.name@)
    &&& t.fields@.len() == record.fields@.len()
    &&& forall|i: int|
        0 <= i < t.fields@.len() ==> {
            &&& (#[trigger] t.fields@[i]).name@ == kotlin_member(record.fields@[i].name@)
            &&& t.fields@[i].kotlin_type@ == kotlin_type(record.fields@[i].field_type)
        }
}

/// The `data class` text of `record`.
pub open spec fn record_source(record: Record) -> Seq<char> {
    record_text(choose|t: RecordTemplate| record_template_of(t, record))
}

/// Every record template of `record` renders to the same text.
pub proof fn lemma_record_text(t: RecordTemplate, record: Record)
    requires
        record_template_of(t, record),
    ensures
        record_text(t) == record_source(record),
{
    let u = choose|u: RecordTemplate| record_template_of(u, record);
    assert(t.fields@.map_values(|f: FieldView| record_field_text(f)) =~= u.fields@.map_values(
        |f: FieldView| record_field_text(f),
    ));
}

impl FieldView {
    /// The property declaration.
    pub fn render(&self) -> (r: String)
        ensures
            r@ == record_field_text(*self),
    {
        concat4("    val ", self.name.as_str(), ": ", self.kotlin_type.as_str())
    }
}

impl RecordTemplate {
    /// The properties of a record, one per field.
    pub fn from_record(record: &Record) -> (r: Self)
        ensures
            record_template_of(r, *record),
    {
        let mut fields: Vec<FieldView> = Vec::new();
        let mut i: usize = 0;
        while i < record.fields.len()
            invariant
                i <= record.fields@.len(),
                fields@.len() == i,
                forall|k: int|
                    0 <= k < i ==> {
                        &&& (#[trigger] fields@[k]).name@ == kotlin_member(record.fields@[k].name@)
                        &&& fields@[k].kotlin_type@ == kotlin_type(record.fields@[k].field_type)
                    },
            decreases record.fields@.len() - i,
        {
            let field = &record.fields[i];
            fields.push(
                FieldView {
                    name: NamingConvention::property_name(field.name.as_str()),
                    kotlin_type: TypeMapper::map_type(&field.field_type),
                },
            );
            i = i + 1;
        }
        Self { class_name: NamingConvention::class_name(record.name.as_str()), fields }
    }

    /// The record's text.
    pub fn render(&self) -> (r: String)
        ensures
            r@ == record_text(*self),
    {
        if self.fields.len() == 0 {
            concat3("class ", self.class_name.as_str(), "\n")
        } else {
            let parts = render_all(
                &self.fields,
                FieldView::render,
                Ghost(|f: FieldView| record_field_text(f)),
            );
            let body = join(&parts, ",\n");
            let mut r = concat4("data class ", self.class_name.as_str(), "(\n", body.as_str());
            push_str(&mut r, "\n)\n");
            r
        }
    }
}

// ---------------------------------------------------------------------------
// Record readers and writers (blittable records through direct buffers)
// ---------------------------------------------------------------------------

/// The buffer getter for a field type (non-primitives travel as 8-byte
/// handles).
pub open spec fn field_getter(t: Type) -> Seq<char> {
    match t {
        Type::Primitive(p) => buffer_getter(p),
        _ => "getLong"@,
    }
}

/// The conversion after a buffer read of a field type.
pub open spec fn field_conversion(t: Type) -> Seq<char> {
    match t {
        Type::Primitive(p) => buffer_conversion(p),
        _ => ""@,
    }
}

/// The buffer putter for a field type.
pub open spec fn field_putter(t: Type) -> Seq<char> {
    match t {
        Type::Primitive(p) => buffer_putter(p),
        _ => "putLong"@,
    }
}

/// The expression written to a buffer for the value `e` of a field type.
pub open spec fn field_value_expr(t: Type, e: Seq<char>) -> Seq<char> {
    match t {
        Type::Primitive(p) => buffer_value_expr(p, e),
        _ => e,
    }
}

fn getter_for(t: &Type) -> (r: String)
    ensures
        r@ == field_getter(*t),
{
    match t {
        Type::Primitive(p) => string_of(info(*p).buffer_getter),
        _ => string_of("getLong"),
    }
}

fn conversion_for(t: &Type) -> (r: String)
    ensures
        r@ == field_conversion(*t),
{
    match t {
        Type::Primitive(p) => string_of(info(*p).buffer_conversion),
        _ => string_of(""),
    }
}

fn putter_for(t: &Type) -> (r: String)
    ensures
        r@ == field_putter(*t),
{
    match t {
        Type::Primitive(p) => string_of(info(*p).buffer_putter),
        _ => string_of("putLong"),
    }
}

/// The expression written to a buffer for the Kotlin value `e`.
pub fn value_expr_for(t: &Type, e: &str) -> (r: String)
    ensures
        r@ == field_value_expr(*t, e@),
{
    match t {
        Type::Primitive(p) => match p {
            Primitive::Bool => concat3("(if (", e, ") 1 else 0).toByte()"),
            Primitive::U8 => concat2(e, ".toByte()"),
            Primitive::U16 => concat2(e, ".toShort()"),
            Primitive::U32 => concat2(e, ".toInt()"),
            Primitive::U64 | Primitive::Usize => concat2(e, ".toLong()"),
            _ => string_of(e),
        },
        _ => string_of(e),
    }
}

/// Reads blittable records out of a direct buffer.
pub struct RecordReaderTemplate {
    pub reader_name: String,
    pub class_name: String,
    pub struct_size: usize,
    pub fields: Vec<ReaderFieldView>,
}

/// One field read.
pub struct ReaderFieldView {
    pub name: String,
    pub const_name: String,
    pub offset: usize,
    pub getter: String,
    pub conversion: String,
}

/// Whether `v` reads field `i` of `fields`.
pub open spec fn reader_field_of(v: ReaderFieldView, fields: Seq<RecordField>, i: int) -> bool {
    &&& v.name@ == kotlin_member(fields[i].name@)
    &&& v.const_name@ == shouty_snake_case(fields[i].name@)
    &&& v.offset == field_offset(fields, i)
    &&& v.getter@ == field_getter(fields[i].field_type)
    &&& v.conversion@ == field_conversion(fields[i].field_type)
}

/// An offset constant.
pub open spec fn offset_const_text(const_name: Seq<char>, offset: usize) -> Seq<char> {
    "    const val OFFSET_"@ + const_name + " = "@ + nat_text(offset as nat) + "\n"@
}

/// One constructor argument read from the buffer.
pub open spec fn reader_field_text(f: ReaderFieldView) -> Seq<char> {
    "        "@ + f.name@ + " = buf."@ + f.getter@ + "(base + OFFSET_"@ + f.const_name@ + ")"@
        + f.conversion@
}

/// The reader's text.
pub open spec fn reader_text(t: RecordReaderTemplate) -> Seq<char> {
    "internal object "@ + t.reader_name@ + " {\n    const val STRUCT_SIZE = "@ + nat_text(
        t.struct_size as nat,
    ) + "\n"@ + seq_concat(
        t.fields@.map_values(|f: ReaderFieldView| offset_const_text(f.const_name@, f.offset)),
    ) + "\n    fun read(buf: ByteBuffer, base: Int): "@ + t.class_name@ + " = "@ + t.class_name@
        + "(\n"@ + seq_join(t.fields@.map_values(|f: ReaderFieldView| reader_field_text(f)), ",\n"@)
        + "\n    )\n\n    fun readAll(buf: ByteBuffer): List<"@ + t.class_name@
        + "> {\n        buf.order(ByteOrder.nativeOrder())\n        return List(buf.capacity() / STRUCT_SIZE) { read(buf, it * STRUCT_SIZE) }\n    }\n}\n"@
}

fn offset_const(const_name: &String, offset: usize) -> (r: String)
    ensures
        r@ == offset_const_text(const_name@, offset),
{
    let n = usize_text(offset);
    let mut r = concat4("    const val OFFSET_", const_name.as_str(), " = ", n.as_str());
    push_str(&mut r, "\n");
    r
}

/// Whether `t` is the reader of `record`, each field at its C-layout offset.
pub open spec fn reader_of(t: RecordReaderTemplate, record: Record) -> bool {
    &&& t.reader_name@ == upper_camel_case(record.name@) + "Reader"@
    &&& t.class_name@ == upper_camel_case(record.name@)
    &&& t.struct_size == spec_struct_size(record.fields@)
    &&& t.fields@.len() == record.fields@.len()
    &&& forall|i: int|
        0 <= i < t.fields@.len() ==> reader_field_of(#[trigger] t.fields@[i], record.fields@, i)
}

/// The reader text of `record`.
pub open spec fn reader_source(record: Record) -> Seq<char> {
    reader_text(choose|t: RecordReaderTemplate| reader_of(t, record))
}

/// Every reader of `record` renders to the same text.
pub proof fn lemma_reader_text(t: RecordReaderTemplate, record: Record)
    requires
        reader_of(t, record),
    ensures
        reader_text(t) == reader_source(record),
{
    let u = choose|u: RecordReaderTemplate| reader_of(u, record);
    assert(t.fields@.map_values(|f: ReaderFieldView| offset_const_text(f.const_name@, f.offset))
        =~= u.fields@.map_values(|f: ReaderFieldView| offset_const_text(f.const_name@, f.offset)));
    assert(t.fields@.map_values(|f: ReaderFieldView| reader_field_text(f)) =~= u.fields@.map_values(
        |f: ReaderFieldView| reader_field_text(f),
    ));
}

impl ReaderFieldView {
    /// The offset constant of this field.
    pub fn render_const(&self) -> (r: String)
        ensures
            r@ == offset_const_text(self.const_name@, self.offset),
    {
        offset_const(&self.const_name, self.offset)
    }

    /// The constructor argument read from the buffer.
    pub fn render(&self) -> (r: String)
        ensures
            r@ == reader_field_text(*self),
    {
        let mut r = concat4("        ", self.name.as_str(), " = buf.", self.getter.as_str());
        push_str(&mut r, "(base + OFFSET_");
        push_str(&mut r, self.const_name.as_str());
        push_str(&mut r, ")");
        push_str(&mut r, self.conversion.as_str());
        r
    }
}

impl RecordReaderTemplate {
    /// The reader of a record, with each field at its C-layout offset.
    pub fn from_record(record: &Record) -> (r: Self)
        requires
            record_layout_fits(record.fields@),
        ensures
            reader_of(r, *record),
    {
        let offsets = record.field_offsets();
        let mut fields: Vec<ReaderFieldView> = Vec::new();
        let mut i: usize = 0;
        while i < record.fields.len()
            invariant
                i <= record.fields@.len(),
                offsets@.len() == record.fields@.len(),
                forall|k: int|
                    0 <= k < offsets@.len() ==> offsets@[k] == field_offset(record.fields@, k),
                fields@.len() == i,
                forall|k: int|
                    0 <= k < i ==> reader_field_of(#[trigger] fields@[k], record.fields@, k),
            decreases record.fields@.len() - i,
        {
            let field = &record.fields[i];
            fields.push(
                ReaderFieldView {
                    name: NamingConvention::property_name(field.name.as_str()),
                    const_name: to_shouty_snake_case(field.name.as_str()),
                    offset: offsets[i],
                    getter: getter_for(&field.field_type),
                    conversion: conversion_for(&field.field_type),
                },
            );
            i = i + 1;
        }
        let class_name = NamingConvention::class_name(record.name.as_str());
        Self {
            reader_name: concat2(class_name.as_str(), "Reader"),
            class_name,
            struct_size: record.struct_size(),
            fields,
        }
    }

    /// The reader's text.
    pub fn render(&self) -> (r: String)
        ensures
            r@ == reader_text(*self),
    {
        let consts = render_all(
            &self.fields,
            ReaderFieldView::render_const,
            Ghost(|f: ReaderFieldView| offset_const_text(f.const_name@, f.offset)),
        );
        let reads = render_all(
            &self.fields,
            ReaderFieldView::render,
            Ghost(|f: ReaderFieldView| reader_field_text(f)),
        );
        let size = usize_text(self.struct_size);
        let consts_text = concat_all(&consts);
        let reads_text = join(&reads, ",\n");
        let mut r = concat4(
            "internal object ",
            self.reader_name.as_str(),
            " {\n    const val STRUCT_SIZE = ",
            size.as_str(),
        );
        push_str(&mut r, "\n");
        push_str(&mut r, consts_text.as_str());
        push_str(&mut r, "\n    fun read(buf: ByteBuffer, base: Int): ");
        push_str(&mut r, self.class_name.as_str());
        push_str(&mut r, " = ");
        push_str(&mut r, self.class_name.as_str());
        push_str(&mut r, "(\n");
        push_str(&mut r, reads_text.as_str());
        push_str(&mut r, "\n    )\n\n    fun readAll(buf: ByteBuffer): List<");
        push_str(&mut r, self.class_name.as_str());
        push_str(
            &mut r,
            "> {\n        buf.order(ByteOrder.nativeOrder())\n        return List(buf.capacity() / STRUCT_SIZE) { read(buf, it * STRUCT_SIZE) }\n    }\n}\n",
        );
        r
    }
}

/// Writes blittable records into a buffer.
pub struct RecordWriterTemplate {
    pub writer_name: String,
    pub class_name: String,
    pub struct_size: usize,
    pub fields: Vec<WriterFieldView>,
}

/// One field write.
pub struct WriterFieldView {
    pub name: String,
    pub const_name: String,
    pub offset: usize,
    pub putter: String,
    pub value_expr: String,
}

/// Whether `v` writes field `i` of `fields`.
pub open spec fn writer_field_of(v: WriterFieldView, fields: Seq<RecordField>, i: int) -> bool {
    &&& v.name@ == kotlin_member(fields[i].name@)
    &&& v.const_name@ == shouty_snake_case(fields[i].name@)
    &&& v.offset == field_offset(fields, i)
    &&& v.putter@ == field_putter(fields[i].field_type)
    &&& v.value_expr@ == field_value_expr(
        fields[i].field_type,
        "item."@ + kotlin_member(fields[i].name@),
    )
}

/// One field write statement.
pub open spec fn writer_field_text(f: WriterFieldView) -> Seq<char> {
    "        buf."@ + f.putter@ + "(base + OFFSET_"@ + f.const_name@ + ", "@ + f.value_expr@
        + ")\n"@
}

/// The writer's text.
pub open spec fn writer_text(t: RecordWriterTemplate) -> Seq<char> {
    "internal object "@ + t.writer_name@ + " {\n    const val STRUCT_SIZE = "@ + nat_text(
        t.struct_size as nat,
    ) + "\n"@ + seq_concat(
        t.fields@.map_values(|f: WriterFieldView| offset_const_text(f.const_name@, f.offset)),
    ) + "\n    fun write(buf: ByteBuffer, base: Int, item: "@ + t.class_name@ + ") {\n"@
        + seq_concat(t.fields@.map_values(|f: WriterFieldView| writer_field_text(f)))
        + "    }\n\n    fun pack(items: List<"@ + t.class_name@
        + ">): ByteArray {\n        val buf = ByteBuffer.allocate(items.size * STRUCT_SIZE).order(ByteOrder.nativeOrder())\n        items.forEachIndexed { i, item -> write(buf, i * STRUCT_SIZE, item) }\n        return buf.array()\n    }\n}\n"@
}

/// Whether `t` is the writer of `record`, each field at its C-layout offset.
pub open spec fn writer_of(t: RecordWriterTemplate, record: Record) -> bool {
    &&& t.writer_name@ == upper_camel_case(record.name@) + "Writer"@
    &&& t.class_name@ == upper_camel_case(record.name@)
    &&& t.struct_size == spec_struct_size(record.fields@)
    &&& t.fields@.len() == record.fields@.len()
    &&& forall|i: int|
        0 <= i < t.fields@.len() ==> writer_field_of(#[trigger] t.fields@[i], record.fields@, i)
}

/// The writer text of `record`.
pub open spec fn writer_source(record: Record) -> Seq<char> {
    writer_text(choose|t: RecordWriterTemplate| writer_of(t, record))
}

/// Every writer of `record` renders to the same text.
pub proof fn lemma_writer_text(t: RecordWriterTemplate, record: Record)
    requires
        writer_of(t, record),
    ensures
        writer_text(t) == writer_source(record),
{
    let u = choose|u: RecordWriterTemplate| writer_of(u, record);
    assert(t.fields@.map_values(|f: WriterFieldView| offset_const_text(f.const_name@, f.offset))
        =~= u.fields@.map_values(|f: WriterFieldView| offset_const_text(f.const_name@, f.offset)));
    assert(t.fields@.map_values(|f: WriterFieldView| writer_field_text(f)) =~= u.fields@.map_values(
        |f: WriterFieldView| writer_field_text(f),
    ));
}

impl WriterFieldView {
    /// The offset constant of this field.
    pub fn render_const(&self) -> (r: String)
        ensures
            r@ == offset_const_text(self.const_name@, self.offset),
    {
        offset_const(&self.const_name, self.offset)
    }

    /// The write statement.
    pub fn render(&self) -> (r: String)
        ensures
            r@ == writer_field_text(*self),
    {
        let mut r = concat4("        buf.", self.putter.as_str(), "(base + OFFSET_", self.const_name.as_str());
        push_str(&mut r, ", ");
        push_str(&mut r, self.value_expr.as_str());
        push_str(&mut r, ")\n");
        r
    }
}

impl RecordWriterTemplate {
    /// The writer of a record, with each field at its C-layout offset.
    pub fn from_record(record: &Record) -> (r: Self)
        requires
            record_layout_fits(record.fields@),
        ensures
            writer_of(r, *record),
    {
        let offsets = record.field_offsets();
        let mut fields: Vec<WriterFieldView> = Vec::new();
        let mut i: usize = 0;
        while i < record.fields.len()
            invariant
                i <= record.fields@.len(),
                offsets@.len() == record.fields@.len(),
                forall|k: int|
                    0 <= k < offsets@.len() ==> offsets@[k] == field_offset(record.fields@, k),
                fields@.len() == i,
                forall|k: int|
                    0 <= k < i ==> writer_field_of(#[trigger] fields@[k], record.fields@, k),
            decreases record.fields@.len() - i,
        {
            let field = &record.fields[i];
            let field_name = NamingConvention::property_name(field.name.as_str());
            let item_expr = concat2("item.", field_name.as_str());
            fields.push(
                WriterFieldView {
                    const_name: to_shouty_snake_case(field.name.as_str()),
                    offset: offsets[i],
                    putter: putter_for(&field.field_type),
                    value_expr: value_expr_for(&field.field_type, item_expr.as_str()),
                    name: field_name,
                },
            );
            i = i + 1;
        }
        let class_name = NamingConvention::class_name(record.name.as_str());
        Self {
            writer_name: concat2(class_name.as_str(), "Writer"),
            class_name,
            struct_size: record.struct_size(),
            fields,
        }
    }

    /// The writer's text.
    pub fn render(&self) -> (r: String)
        ensures
            r@ == writer_text(*self),
    {
        let consts = render_all(
            &self.fields,
            WriterFieldView::render_const,
            Ghost(|f: WriterFieldView| offset_const_text(f.const_name@, f.offset)),
        );
        let writes = render_all(
            &self.fields,
            WriterFieldView::render,
            Ghost(|f: WriterFieldView| writer_field_text(f)),
        );
        let size = usize_text(self.struct_size);
        let consts_text = concat_all(&consts);
        let writes_text = concat_all(&writes);
        let mut r = concat4(
            "internal object ",
            self.writer_name.as_str(),
            " {\n    const val STRUCT_SIZE = ",
            size.as_str(),
        );
        push_str(&mut r, "\n");
        push_str(&mut r, consts_text.as_str());
        push_str(&mut r, "\n    fun write(buf: ByteBuffer, base: Int, item: ");
        push_str(&mut r, self.class_name.as_str());
        push_str(&mut r, ") {\n");
        push_str(&mut r, writes_text.as_str());
        push_str(&mut r, "    }\n\n    fun pack(items: List<");
        push_str(&mut r, self.class_name.as_str());
        push_str(
            &mut r,
            ">): ByteArray {\n        val buf = ByteBuffer.allocate(items.size * STRUCT_SIZE).order(ByteOrder.nativeOrder())\n        items.forEachIndexed { i, item -> write(buf, i * STRUCT_SIZE, item) }\n        return buf.array()\n    }\n}\n",
        );
        r
    }
}

// ---------------------------------------------------------------------------
// Data-enum codecs (a data-carrying enum packed in its C layout)
// ---------------------------------------------------------------------------

/// Reads and writes a data-carrying enumeration in its C layout.
pub struct DataEnumCodecTemplate {
    pub codec_name: String,
    pub class_name: String,
    pub struct_size: usize,
    pub payload_offset: usize,
    pub variants: Vec<DataEnumVariantView>,
}

/// One variant of the codec.
pub struct DataEnumVariantView {
    pub name: String,
    pub const_name: String,
    pub tag_value: i32,
    pub fields: Vec<DataEnumFieldView>,
}

/// One field of a variant in the codec.
pub struct DataEnumFieldView {
    pub param_name: String,
    pub offset: usize,
    pub getter: String,
    pub conversion: String,
    pub putter: String,
    pub value_expr: String,
}

/// The tag of variant `i`: its discriminant when that fits in 32 bits, else
/// its position taken as an `i32`.
pub open spec fn codec_tag(d: Option<i64>, i: int) -> int {
    match d {
        Some(v) => if i32::MIN <= v <= i32::MAX {
            v as int
        } else {
            (i as i32) as int
        },
        None => (i as i32) as int,
    }
}

/// The Kotlin property that holds field `j` of a variant.
pub open spec fn codec_param_name(field: RecordField, j: int) -> Seq<char> {
    if is_tuple_name(field.name@) {
        "value"@ + nat_text(j as nat)
    } else {
        kotlin_member(field.name@)
    }
}

/// Whether `f` describes field `j` of variant `v` of `vs`.
pub open spec fn codec_field_of(f: DataEnumFieldView, vs: Seq<Variant>, v: int, j: int) -> bool {
    let field = vs[v].fields@[j];
    let raw = "value."@ + codec_param_name(field, j);
    &&& f.param_name@ == codec_param_name(field, j)
    &&& f.offset == spec_enum_field_offset(vs, v, j)
    &&& f.getter@ == field_getter(field.field_type)
    &&& f.conversion@ == field_conversion(field.field_type)
    &&& f.putter@ == field_putter(field.field_type)
    &&& f.value_expr@ == field_value_expr(field.field_type, raw)
}

/// Whether `view` describes variant `v` of `vs`.
pub open spec fn codec_variant_of(view: DataEnumVariantView, vs: Seq<Variant>, v: int) -> bool {
    &&& view.name@ == upper_camel_case(vs[v].name@)
    &&& view.const_name@ == shouty_snake_case(vs[v].name@)
    &&& view.tag_value == codec_tag(vs[v].discriminant, v)
    &&& view.fields@.len() == vs[v].fields@.len()
    &&& forall|j: int| 0 <= j < view.fields@.len() ==> codec_field_of(#[trigger] view.fields@[j], vs, v, j)
}

/// A tag constant.
pub open spec fn codec_const_text(v: DataEnumVariantView) -> Seq<char> {
    "    const val TAG_"@ + v.const_name@ + " = "@ + int_text(v.tag_value as int) + "\n"@
}

/// A field read.
pub open spec fn codec_read_arg(f: DataEnumFieldView) -> Seq<char> {
    "buf."@ + f.getter@ + "(base + "@ + nat_text(f.offset as nat) + ")"@ + f.conversion@
}

/// The branch that reads one variant.
pub open spec fn codec_read_text(v: DataEnumVariantView, class: String) -> Seq<char> {
    "        TAG_"@ + v.const_name@ + " -> "@ + class@ + "."@ + v.name@ + (if v.fields@.len() == 0 {
        ""@
    } else {
        "("@ + seq_join(v.fields@.map_values(|f: DataEnumFieldView| codec_read_arg(f)), ", "@)
            + ")"@
    }) + "\n"@
}

/// A field write.
pub open spec fn codec_write_field(f: DataEnumFieldView) -> Seq<char> {
    "                buf."@ + f.putter@ + "(base + "@ + nat_text(f.offset as nat) + ", "@
        + f.value_expr@ + ")\n"@
}

/// The branch that writes one variant.
pub open spec fn codec_write_text(v: DataEnumVariantView, class: String) -> Seq<char> {
    "            is "@ + class@ + "."@ + v.name@ + " -> {\n                buf.putInt(base, TAG_"@
        + v.const_name@ + ")\n"@ + seq_concat(
        v.fields@.map_values(|f: DataEnumFieldView| codec_write_field(f)),
    ) + "            }\n"@
}

/// The codec's text.
pub open spec fn codec_text(t: DataEnumCodecTemplate) -> Seq<char> {
    "internal object "@ + t.codec_name@ + " {\n    const val STRUCT_SIZE = "@ + nat_text(
        t.struct_size as nat,
    ) + "\n    const val PAYLOAD_OFFSET = "@ + nat_text(t.payload_offset as nat) + "\n"@ + seq_concat(
        t.variants@.map_values(|v: DataEnumVariantView| codec_const_text(v)),
    ) + "\n    fun read(buf: ByteBuffer, base: Int): "@ + t.class_name@
        + " = when (buf.getInt(base)) {\n"@ + seq_concat(
        t.variants@.map_values(|v: DataEnumVariantView| codec_read_text(v, t.class_name)),
    ) + "        else -> throw FfiException(-1, \"Unknown variant tag\")\n    }\n\n    fun write(buf: ByteBuffer, base: Int, value: "@
        + t.class_name@ + ") {\n        when (value) {\n"@ + seq_concat(
        t.variants@.map_values(|v: DataEnumVariantView| codec_write_text(v, t.class_name)),
    ) + "        }\n    }\n\n    fun pack(value: "@ + t.class_name@
        + "): ByteArray {\n        val buf = ByteBuffer.allocate(STRUCT_SIZE).order(ByteOrder.nativeOrder())\n        write(buf, 0, value)\n        return buf.array()\n    }\n}\n"@
}

/// Whether `t` is the codec of `e`, each field at its C-layout offset.
pub open spec fn codec_of(t: DataEnumCodecTemplate, e: Enumeration) -> bool {
    &&& t.class_name@ == upper_camel_case(e.name@)
    &&& t.codec_name@ == upper_camel_case(e.name@) + "Codec"@
    &&& t.payload_offset == spec_payload_offset(e.variants@)
    &&& t.struct_size == spec_enum_struct_size(e.variants@)
    &&& t.variants@.len() == e.variants@.len()
    &&& forall|v: int|
        0 <= v < t.variants@.len() ==> codec_variant_of(#[trigger] t.variants@[v], e.variants@, v)
}

/// The codec text of `e`.
pub open spec fn codec_source(e: Enumeration) -> Seq<char> {
    codec_text(choose|t: DataEnumCodecTemplate| codec_of(t, e))
}

/// Every codec of `e` renders to the same text.
pub proof fn lemma_codec_text(t: DataEnumCodecTemplate, e: Enumeration)
    requires
        codec_of(t, e),
    ensures
        codec_text(t) == codec_source(e),
{
    let u = choose|u: DataEnumCodecTemplate| codec_of(u, e);
    assert(t.variants@.map_values(|v: DataEnumVariantView| codec_const_text(v)) =~= u.variants@.map_values(
        |v: DataEnumVariantView| codec_const_text(v),
    ));
    assert forall|i: int| 0 <= i < t.variants@.len() implies codec_read_text(
        #[trigger] t.variants@[i],
        t.class_name,
    ) == codec_read_text(u.variants@[i], u.class_name) && codec_write_text(
        t.variants@[i],
        t.class_name,
    ) == codec_write_text(u.variants@[i], u.class_name) by {
        assert(t.variants@[i].fields@.map_values(|f: DataEnumFieldView| codec_read_arg(f))
            =~= u.variants@[i].fields@.map_values(|f: DataEnumFieldView| codec_read_arg(f)));
        assert(t.variants@[i].fields@.map_values(|f: DataEnumFieldView| codec_write_field(f))
            =~= u.variants@[i].fields@.map_values(|f: DataEnumFieldView| codec_write_field(f)));
    }
    assert(t.variants@.map_values(|v: DataEnumVariantView| codec_read_text(v, t.class_name))
        =~= u.variants@.map_values(|v: DataEnumVariantView| codec_read_text(v, u.class_name)));
    assert(t.variants@.map_values(|v: DataEnumVariantView| codec_write_text(v, t.class_name))
        =~= u.variants@.map_values(|v: DataEnumVariantView| codec_write_text(v, u.class_name)));
}

impl DataEnumFieldView {
    /// The field read.
    pub fn render_read(&self) -> (r: String)
        ensures
            r@ == codec_read_arg(*self),
    {
        let n = usize_text(self.offset);
        let mut r = concat4("buf.", self.getter.as_str(), "(base + ", n.as_str());
        push_str(&mut r, ")");
        push_str(&mut r, self.conversion.as_str());
        r
    }

    /// The field write.
    pub fn render_write(&self) -> (r: String)
        ensures
            r@ == codec_write_field(*self),
    {
        let n = usize_text(self.offset);
        let mut r = concat4("                buf.", self.putter.as_str(), "(base + ", n.as_str());
        push_str(&mut r, ", ");
        push_str(&mut r, self.value_expr.as_str());
        push_str(&mut r, ")\n");
        r
    }
}

impl DataEnumVariantView {
    /// The tag constant.
    pub fn render_const(&self) -> (r: String)
        ensures
            r@ == codec_const_text(*self),
    {
        let t = i64_text(self.tag_value as i64);
        let mut r = concat4("    const val TAG_", self.const_name.as_str(), " = ", t.as_str());
        push_str(&mut r, "\n");
        r
    }

    /// The read branch.
    pub fn render_read(&self, class: &String) -> (r: String)
        ensures
            r@ == codec_read_text(*self, *class),
    {
        let mut r = concat4("        TAG_", self.const_name.as_str(), " -> ", class.as_str());
        push_str(&mut r, ".");
        push_str(&mut r, self.name.as_str());
        if self.fields.len() == 0 {
            push_str(&mut r, "");
        } else {
            let args = render_all(
                &self.fields,
                DataEnumFieldView::render_read,
                Ghost(|f: DataEnumFieldView| codec_read_arg(f)),
            );
            let joined = join(&args, ", ");
            push_str(&mut r, "(");
            push_str(&mut r, joined.as_str());
            push_str(&mut r, ")");
        }
        push_str(&mut r, "\n");
        r
    }

    /// The write branch.
    pub fn render_write(&self, class: &String) -> (r: String)
        ensures
            r@ == codec_write_text(*self, *class),
    {
        let writes = render_all(
            &self.fields,
            DataEnumFieldView::render_write,
            Ghost(|f: DataEnumFieldView| codec_write_field(f)),
        );
        let body = concat_all(&writes);
        let mut r = concat4("            is ", class.as_str(), ".", self.name.as_str());
        push_str(&mut r, " -> {\n                buf.putInt(base, TAG_");
        push_str(&mut r, self.const_name.as_str());
        push_str(&mut r, ")\n");
        push_str(&mut r, body.as_str());
        push_str(&mut r, "            }\n");
        r
    }
}

impl DataEnumCodecTemplate {
    /// The codec of a data-carrying enumeration, with each field at its
    /// C-layout offset.
    pub fn from_enum(enumeration: &Enumeration) -> (r: Self)
        requires
            !spec_is_c_style(enumeration.variants@),
            enum_layout_fits(enumeration.variants@),
        ensures
            codec_of(r, *enumeration),
    {
        let layout = match DataEnumLayout::from_enum(enumeration) {
            Some(l) => l,
            None => {
                assert(false);
                return DataEnumCodecTemplate {
                    codec_name: String::new(),
                    class_name: String::new(),
                    struct_size: 0,
                    payload_offset: 0,
                    variants: Vec::new(),
                };
            },
        };
        let vs = &enumeration.variants;
        let mut variants: Vec<DataEnumVariantView> = Vec::new();
        let mut v: usize = 0;
        while v < vs.len()
            invariant
                v <= vs@.len(),
                layout.field_offsets@.len() == vs@.len(),
                forall|k: int|
                    0 <= k < layout.field_offsets@.len() ==> {
                        &&& (#[trigger] layout.field_offsets@[k])@.len() == vs@[k].fields@.len()
                        &&& forall|f: int|
                            0 <= f < layout.field_offsets@[k]@.len() ==> layout.field_offsets@[k]@[f]
                                == spec_enum_field_offset(vs@, k, f)
                    },
                variants@.len() == v,
                forall|k: int| 0 <= k < v ==> codec_variant_of(#[trigger] variants@[k], vs@, k),
            decreases vs@.len() - v,
        {
            let variant = &vs[v];
            let tag = match variant.discriminant {
                Some(d) => if -2147483648i64 <= d && d <= 2147483647i64 {
                    d as i32
                } else {
                    v as i32
                },
                None => v as i32,
            };
            let mut fields: Vec<DataEnumFieldView> = Vec::new();
            let mut j: usize = 0;
            while j < variant.fields.len()
                invariant
                    v < vs@.len(),
                    *variant == vs@[v as int],
                    j <= variant.fields@.len(),
                    layout.field_offsets@.len() == vs@.len(),
                    layout.field_offsets@[v as int]@.len() == vs@[v as int].fields@.len(),
                    forall|f: int|
                        0 <= f < layout.field_offsets@[v as int]@.len() ==> layout.field_offsets@[v as int]@[f]
                            == spec_enum_field_offset(vs@, v as int, f),
                    fields@.len() == j,
                    forall|k: int| 0 <= k < j ==> codec_field_of(#[trigger] fields@[k], vs@, v as int, k),
                decreases variant.fields@.len() - j,
            {
                let field = &variant.fields[j];
                let param_name = if is_tuple_field_name(&field.name) {
                    let n = usize_text(j);
                    concat2("value", n.as_str())
                } else {
                    NamingConvention::property_name(field.name.as_str())
                };
                let raw = concat2("value.", param_name.as_str());
                let offset = match layout.field_offset(v, j) {
                    Some(o) => o,
                    None => 0,
                };
                fields.push(
                    DataEnumFieldView {
                        offset,
                        getter: getter_for(&field.field_type),
                        conversion: conversion_for(&field.field_type),
                        putter: putter_for(&field.field_type),
                        value_expr: value_expr_for(&field.field_type, raw.as_str()),
                        param_name,
                    },
                );
                j = j + 1;
            }
            variants.push(
                DataEnumVariantView {
                    name: NamingConvention::class_name(variant.name.as_str()),
                    const_name: to_shouty_snake_case(variant.name.as_str()),
                    tag_value: tag,
                    fields,
                },
            );
            v = v + 1;
        }
        let class_name = NamingConvention::class_name(enumeration.name.as_str());
        Self {
            codec_name: concat2(class_name.as_str(), "Codec"),
            class_name,
            struct_size: layout.struct_size(),
            payload_offset: layout.payload_offset(),
            variants,
        }
    }

    /// The codec's text.
    pub fn render(&self) -> (r: String)
        ensures
            r@ == codec_text(*self),
    {
        let consts = render_all(
            &self.variants,
            DataEnumVariantView::render_const,
            Ghost(|v: DataEnumVariantView| codec_const_text(v)),
        );
        let reads = crate::text::render_all_ctx(
            &self.variants,
            &self.class_name,
            DataEnumVariantView::render_read,
            Ghost(|v: DataEnumVariantView, c: String| codec_read_text(v, c)),
        );
        let writes = crate::text::render_all_ctx(
            &self.variants,
            &self.class_name,
            DataEnumVariantView::render_write,
            Ghost(|v: DataEnumVariantView, c: String| codec_write_text(v, c)),
        );
        assert(views(reads@) =~= self.variants@.map_values(
            |v: DataEnumVariantView| codec_read_text(v, self.class_name),
        ));
        assert(views(writes@) =~= self.variants@.map_values(
            |v: DataEnumVariantView| codec_write_text(v, self.class_name),
        ));
        let size = usize_text(self.struct_size);
        let po = usize_text(self.payload_offset);
        let consts_text = concat_all(&consts);
        let reads_text = concat_all(&reads);
        let writes_text = concat_all(&writes);
        let mut r = concat4(
            "internal object ",
            self.codec_name.as_str(),
            " {\n    const val STRUCT_SIZE = ",
            size.as_str(),
        );
        push_str(&mut r, "\n    const val PAYLOAD_OFFSET = ");
        push_str(&mut r, po.as_str());
        push_str(&mut r, "\n");
        push_str(&mut r, consts_text.as_str());
        push_str(&mut r, "\n    fun read(buf: ByteBuffer, base: Int): ");
        push_str(&mut r, self.class_name.as_str());
        push_str(&mut r, " = when (buf.getInt(base)) {\n");
        push_str(&mut r, reads_text.as_str());
        push_str(
            &mut r,
            "        else -> throw FfiException(-1, \"Unknown variant tag\")\n    }\n\n    fun write(buf: ByteBuffer, base: Int, value: ",
        );
        push_str(&mut r, self.class_name.as_str());
        push_str(&mut r, ") {\n        when (value) {\n");
        push_str(&mut r, writes_text.as_str());
        push_str(&mut r, "        }\n    }\n\n    fun pack(value: ");
        push_str(&mut r, self.class_name.as_str());
        push_str(
            &mut r,
            "): ByteArray {\n        val buf = ByteBuffer.allocate(STRUCT_SIZE).order(ByteOrder.nativeOrder())\n        write(buf, 0, value)\n        return buf.array()\n    }\n}\n",
        );
        r
    }
}

} // verus!
