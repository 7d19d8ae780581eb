//! Plain Swift declarations: records as structs, enumerations, and classes
//! whose methods call the C symbols directly.

use vstd::prelude::*;
use crate::case::upper_camel_case;
use crate::model::{Enumeration, Record, RecordField, Type};
use crate::text::{
    concat2, concat3, concat4, concat_all, i64_text, int_text, join, push_str, render_all,
    seq_concat, seq_join, views,
};
use crate::swift::names::{swift_member, NamingConvention};
use crate::swift::types::{swift_type_text, TypeMapper};

verus! {

// ---------------------------------------------------------------------------
// Records
// ---------------------------------------------------------------------------

/// A record as a Swift struct.
pub struct RecordTemplate {
    pub class_name: String,
    pub fields: Vec<FieldView>,
}

/// A stored property or an associated value.
pub struct FieldView {
    pub swift_name: String,
    pub swift_type: String,
}

/// Whether `v` is the view of field `name` of type `t`.
pub open spec fn field_view_of(v: FieldView, name: Seq<char>, t: Type) -> bool {
    v.swift_name@ == swift_member(name) && v.swift_type@ == swift_type_text(t)
}

/// Whether `t` is the struct of record `r`.
pub open spec fn record_of(t: RecordTemplate, r: Record) -> bool {
    &&& t.class_name@ == upper_camel_case(r.name@)
    &&& t.fields@.len() == r.fields@.len()
    &&& forall|i: int|
        0 <= i < t.fields@.len() ==> field_view_of(
            #[trigger] t.fields@[i],
            r.fields@[i].name@,
            r.fields@[i].field_type,
        )
}

/// `name: Type`.
pub open spec fn field_param_text(f: FieldView) -> Seq<char> {
    f.swift_name@ + ": "@ + f.swift_type@
}

/// A stored property.
pub open spec fn field_decl_text(f: FieldView) -> Seq<char> {
    "    public var "@ + f.swift_name@ + ": "@ + f.swift_type@ + "\n"@
}

/// The initializer's assignment of a property.
pub open spec fn field_init_text(f: FieldView) -> Seq<char> {
    "        self."@ + f.swift_name@ + " = "@ + f.swift_name@ + "\n"@
}

/// The struct's text.
pub open spec fn record_text(t: RecordTemplate) -> Seq<char> {
    "public struct "@ + t.class_name@ + " {\n"@ + seq_concat(
        t.fields@.map_values(|f: FieldView| field_decl_text(f)),
    ) + "\n    public init("@ + seq_join(t.fields@.map_values(|f: FieldView| field_param_text(f)), ", "@)
        + ") {\n"@ + seq_concat(t.fields@.map_values(|f: FieldView| field_init_text(f))) + "    }\n}\n"@
}

/// The struct text of record `r`.
pub open spec fn record_source(r: Record) -> Seq<char> {
    record_text(choose|t: RecordTemplate| record_of(t, r))
}

/// Two field lists with the same texts render alike.
proof fn lemma_fields_same(a: Seq<FieldView>, b: Seq<FieldView>)
    requires
        a.len() == b.len(),
        forall|i: int|
            0 <= i < a.len() ==> (#[trigger] a[i]).swift_name@ == b[i].swift_name@ && a[i].swift_type@
                == b[i].swift_type@,
    ensures
        a.map_values(|f: FieldView| field_decl_text(f)) == b.map_values(|f: FieldView| field_decl_text(f)),
        a.map_values(|f: FieldView| field_param_text(f)) == b.map_values(
            |f: FieldView| field_param_text(f),
        ),
        a.map_values(|f: FieldView| field_init_text(f)) == b.map_values(|f: FieldView| field_init_text(f)),
{
    assert(a.map_values(|f: FieldView| field_decl_text(f)) =~= b.map_values(
        |f: FieldView| field_decl_text(f),
    ));
    assert(a.map_values(|f: FieldView| field_param_text(f)) =~= b.map_values(
        |f: FieldView| field_param_text(f),
    ));
    assert(a.map_values(|f: FieldView| field_init_text(f)) =~= b.map_values(
        |f: FieldView| field_init_text(f),
    ));
}

/// Every struct template of `r` renders to the same text.
pub proof fn lemma_record_text(t: RecordTemplate, r: Record)
    requires
        record_of(t, r),
    ensures
        record_text(t) == record_source(r),
{
    let u = choose|u: RecordTemplate| record_of(u, r);
    lemma_fields_same(t.fields@, u.fields@);
}

/// The views of record fields.
fn field_views(fields: &Vec<RecordField>, enum_case: bool) -> (r: Vec<FieldView>)
    ensures
        r@.len() == fields@.len(),
        forall|i: int|
            0 <= i < r@.len() ==> field_view_of(#[trigger] r@[i], fields@[i].name@, fields@[i].field_type),
{
    let mut r: Vec<FieldView> = Vec::new();
    let mut i: usize = 0;
    while i < fields.len()
        invariant
            i <= fields@.len(),
            r@.len() == i,
            forall|k: int|
                0 <= k < i ==> field_view_of(#[trigger] r@[k], fields@[k].name@, fields@[k].field_type),
        decreases fields@.len() - i,
    {
        let f = &fields[i];
        let swift_name = if enum_case {
            NamingConvention::param_name(f.name.as_str())
        } else {
            NamingConvention::property_name(f.name.as_str())
        };
        r.push(FieldView { swift_name, swift_type: TypeMapper::map_type(&f.field_type) });
        i = i + 1;
    }
    r
}

impl FieldView {
    /// `name: Type`.
    pub fn render_param(&self) -> (r: String)
        ensures
            r@ == field_param_text(*self),
    {
        concat3(self.swift_name.as_str(), ": ", self.swift_type.as_str())
    }

    /// The stored property.
    pub fn render_decl(&self) -> (r: String)
        ensures
            r@ == field_decl_text(*self),
    {
        let mut r = concat4("    public var ", self.swift_name.as_str(), ": ", self.swift_type.as_str());
        push_str(&mut r, "\n");
        r
    }

    /// The initializer's assignment.
    pub fn render_init(&self) -> (r: String)
        ensures
            r@ == field_init_text(*self),
    {
        let mut r = concat4("        self.", self.swift_name.as_str(), " = ", self.swift_name.as_str());
        push_str(&mut r, "\n");
        r
    }
}

/// `name: Type` for each field, separated by `, `.
fn render_field_params(fs: &Vec<FieldView>) -> (r: String)
    ensures
        r@ == seq_join(fs@.map_values(|f: FieldView| field_param_text(f)), ", "@),
{
    let ps = render_all(fs, FieldView::render_param, Ghost(|f: FieldView| field_param_text(f)));
    join(&ps, ", ")
}

impl RecordTemplate {
    /// The struct of a record.
    pub fn from_record(record: &Record) -> (r: Self)
        ensures
            record_of(r, *record),
    {
        RecordTemplate {
            class_name: NamingConvention::class_name(record.name.as_str()),
            fields: field_views(&record.fields, false),
        }
    }

    /// The struct's text.
    pub fn render(&self) -> (r: String)
        ensures
            r@ == record_text(*self),
    {
        let decls = render_all(&self.fields, FieldView::render_decl, Ghost(|f: FieldView| field_decl_text(f)));
        let decls = concat_all(&decls);
        let params = render_field_params(&self.fields);
        let inits = render_all(&self.fields, FieldView::render_init, Ghost(|f: FieldView| field_init_text(f)));
        let inits = concat_all(&inits);
        let mut r = concat3("public struct ", self.class_name.as_str(), " {\n");
        push_str(&mut r, decls.as_str());
        push_str(&mut r, "\n    public init(");
        push_str(&mut r, params.as_str());
        push_str(&mut r, ") {\n");
        push_str(&mut r, inits.as_str());
        push_str(&mut r, "    }\n}\n");
        r
    }
}

// ---------------------------------------------------------------------------
// Enumerations
// ---------------------------------------------------------------------------

/// A plain enumeration, backed by its discriminant.
pub struct CStyleEnumTemplate {
    pub class_name: String,
    pub variants: Vec<CStyleVariantView>,
}

/// A case with its discriminant.
pub struct CStyleVariantView {
    pub swift_name: String,
    pub discriminant: i64,
}

/// Whether `t` is the plain enumeration of `e`.
pub open spec fn c_style_of(t: CStyleEnumTemplate, e: Enumeration) -> bool {
    &&& t.class_name@ == upper_camel_case(e.name@)
    &&& t.variants@.len() == e.variants@.len()
    &&& forall|i: int|
        0 <= i < t.variants@.len() ==> {
            &&& (#[trigger] t.variants@[i]).swift_name@ == swift_member(e.variants@[i].name@)
            &&& t.variants@[i].discriminant == match e.variants@[i].discriminant {
                Some(d) => d as int,
                None => i,
            }
        }
}

/// A case line.
pub open spec fn c_style_case_text(v: CStyleVariantView) -> Seq<char> {
    "    case "@ + v.swift_name@ + " = "@ + int_text(v.discriminant as int) + "\n"@
}

/// The enumeration's text.
pub open spec fn c_style_text(t: CStyleEnumTemplate) -> Seq<char> {
    "public enum "@ + t.class_name@ + ": Int64 {\n"@ + seq_concat(
        t.variants@.map_values(|v: CStyleVariantView| c_style_case_text(v)),
    ) + "}\n"@
}

/// The enumeration text of `e`.
pub open spec fn c_style_source(e: Enumeration) -> Seq<char> {
    c_style_text(choose|t: CStyleEnumTemplate| c_style_of(t, e))
}

/// Every template of plain enumeration `e` renders to the same text.
pub proof fn lemma_c_style_text(t: CStyleEnumTemplate, e: Enumeration)
    requires
        c_style_of(t, e),
    ensures
        c_style_text(t) == c_style_source(e),
{
    let u = choose|u: CStyleEnumTemplate| c_style_of(u, e);
    assert(t.variants@.map_values(|v: CStyleVariantView| c_style_case_text(v)) =~= u.variants@.map_values(
        |v: CStyleVariantView| c_style_case_text(v),
    ));
}

impl CStyleVariantView {
    /// The case line.
    pub fn render(&self) -> (r: String)
        ensures
            r@ == c_style_case_text(*self),
    {
        let d = i64_text(self.discriminant);
        let mut r = concat4("    case ", self.swift_name.as_str(), " = ", d.as_str());
        push_str(&mut r, "\n");
        r
    }
}

impl CStyleEnumTemplate {
    /// The plain enumeration: each case with its discriminant, or its
    /// position when it has none.
    pub fn from_enum(enumeration: &Enumeration) -> (r: Self)
        requires
            enumeration.variants@.len() <= i64::MAX,
        ensures
            c_style_of(r, *enumeration),
    {
        let mut variants: Vec<CStyleVariantView> = Vec::new();
        let mut i: usize = 0;
        while i < enumeration.variants.len()
            invariant
                i <= enumeration.variants@.len(),
                enumeration.variants@.len() <= i64::MAX,
                variants@.len() == i,
                forall|k: int|
                    0 <= k < i ==> {
                        &&& (#[trigger] variants@[k]).swift_name@ == swift_member(
                            enumeration.variants@[k].name@,
                        )
                        &&& variants@[k].discriminant == match enumeration.variants@[k].discriminant {
                            Some(d) => d as int,
                            None => k,
                        }
                    },
            decreases enumeration.variants@.len() - i,
        {
            let v = &enumeration.variants[i];
            let discriminant = match v.discriminant {
                Some(d) => d,
                None => i as i64,
            };
            variants.push(
                CStyleVariantView {
                    swift_name: NamingConvention::enum_case_name(v.name.as_str()),
                    discriminant,
                },
            );
            i = i + 1;
        }
        CStyleEnumTemplate { class_name: NamingConvention::class_name(enumeration.name.as_str()), variants }
    }

    /// The enumeration's text.
    pub fn render(&self) -> (r: String)
        ensures
            r@ == c_style_text(*self),
    {
        let cases = render_all(&self.variants, CStyleVariantView::render, Ghost(|v: CStyleVariantView| c_style_case_text(v)));
        let cases = concat_all(&cases);
        let mut r = concat3("public enum ", self.class_name.as_str(), ": Int64 {\n");
        push_str(&mut r, cases.as_str());
        push_str(&mut r, "}\n");
        r
    }
}

/// An enumeration whose cases carry values.
pub struct DataEnumTemplate {
    pub class_name: String,
    pub variants: Vec<DataVariantView>,
}

/// A case with its associated values.
pub struct DataVariantView {
    pub swift_name: String,
    pub fields: Vec<FieldView>,
}

/// Whether `t` is the enumeration of `e`.
pub open spec fn data_enum_of(t: DataEnumTemplate, e: Enumeration) -> bool {
    &&& t.class_name@ == upper_camel_case(e.name@)
    &&& t.variants@.len() == e.variants@.len()
    &&& forall|i: int|
        0 <= i < t.variants@.len() ==> {
            &&& (#[trigger] t.variants@[i]).swift_name@ == swift_member(e.variants@[i].name@)
            &&& t.variants@[i].fields@.len() == e.variants@[i].fields@.len()
            &&& forall|j: int|
                0 <= j < t.variants@[i].fields@.len() ==> field_view_of(
                    #[trigger] t.variants@[i].fields@[j],
                    e.variants@[i].fields@[j].name@,
                    e.variants@[i].fields@[j].field_type,
                )
        }
}

/// A case line, with its associated values when it has any.
pub open spec fn data_case_text(v: DataVariantView) -> Seq<char> {
    "    case "@ + v.swift_name@ + (if v.fields@.len() == 0 {
        ""@
    } else {
        "("@ + seq_join(v.fields@.map_values(|f: FieldView| field_param_text(f)), ", "@) + ")"@
    }) + "\n"@
}

/// The enumeration's text.
pub open spec fn data_enum_text(t: DataEnumTemplate) -> Seq<char> {
    "public enum "@ + t.class_name@ + " {\n"@ + seq_concat(
        t.variants@.map_values(|v: DataVariantView| data_case_text(v)),
    ) + "}\n"@
}

/// The enumeration text of `e`.
pub open spec fn data_enum_source(e: Enumeration) -> Seq<char> {
    data_enum_text(choose|t: DataEnumTemplate| data_enum_of(t, e))
}

/// Every template of enumeration `e` renders to the same text.
pub proof fn lemma_data_enum_text(t: DataEnumTemplate, e: Enumeration)
    requires
        data_enum_of(t, e),
    ensures
        data_enum_text(t) == data_enum_source(e),
{
    let u = choose|u: DataEnumTemplate| data_enum_of(u, e);
    assert forall|i: int| 0 <= i < t.variants@.len() implies data_case_text(#[trigger] t.variants@[i])
        == data_case_text(u.variants@[i]) by {
        lemma_fields_same(t.variants@[i].fields@, u.variants@[i].fields@);
    }
    assert(t.variants@.map_values(|v: DataVariantView| data_case_text(v)) =~= u.variants@.map_values(
        |v: DataVariantView| data_case_text(v),
    ));
}

impl DataVariantView {
    /// The case line.
    pub fn render(&self) -> (r: String)
        ensures
            r@ == data_case_text(*self),
    {
        let mut r = concat2("    case ", self.swift_name.as_str());
        if self.fields.len() == 0 {
            push_str(&mut r, "");
        } else {
            let ps = render_field_params(&self.fields);
            let values = concat3("(", ps.as_str(), ")");
            push_str(&mut r, values.as_str());
        }
        push_str(&mut r, "\n");
        r
    }
}

impl DataEnumTemplate {
    /// The enumeration of a data-carrying enum.
    pub fn from_enum(enumeration: &Enumeration) -> (r: Self)
        ensures
            data_enum_of(r, *enumeration),
    {
        let mut variants: Vec<DataVariantView> = Vec::new();
        let mut i: usize = 0;
        while i < enumeration.variants.len()
            invariant
                i <= enumeration.variants@.len(),
                variants@.len() == i,
                forall|k: int|
                    0 <= k < i ==> {
                        &&& (#[trigger] variants@[k]).swift_name@ == swift_member(
                            enumeration.variants@[k].name@,
                        )
                        &&& variants@[k].fields@.len() == enumeration.variants@[k].fields@.len()
                        &&& forall|j: int|
                            0 <= j < variants@[k].fields@.len() ==> field_view_of(
                                #[trigger] variants@[k].fields@[j],
                                enumeration.variants@[k].fields@[j].name@,
                                enumeration.variants@[k].fields@[j].field_type,
                            )
                    },
            decreases enumeration.variants@.len() - i,
        {
            let v = &enumeration.variants[i];
            variants.push(
                DataVariantView {
                    swift_name: NamingConvention::enum_case_name(v.name.as_str()),
                    fields: field_views(&v.fields, true),
                },
            );
            i = i + 1;
        }
        DataEnumTemplate { class_name: NamingConvention::class_name(enumeration.name.as_str()), variants }
    }

    /// The enumeration's text.
    pub fn render(&self) -> (r: String)
        ensures
            r@ == data_enum_text(*self),
    {
        let cases = render_all(&self.variants, DataVariantView::render, Ghost(|v: DataVariantView| data_case_text(v)));
        let cases = concat_all(&cases);
        let mut r = concat3("public enum ", self.class_name.as_str(), " {\n");
        push_str(&mut r, cases.as_str());
        push_str(&mut r, "}\n");
        r
    }
}

} // verus!
