//! The items that the export attributes annotate, read from their source
//! text. `syn` parses the text; each parsed node is read field for field
//! into the plain descriptions below (`RawFn`, `RawImpl`, `RawAttr`), and
//! everything the attributes decide from them is verified here: which
//! parameters are typed, the return type's last path segment and first
//! generic argument, which methods are `pub`, take a receiver or are
//! marked `skip` or `ffi_stream`, and whether a type is `#[repr(C)]`.

use vstd::prelude::*;
use quote::ToTokens;
use syn::Type as SynTy;
use crate::class_exports::{
    classify_class_method, class_lifecycle_exports, generate_stream_exports, spec_lifecycle_exports,
    spec_method_export, spec_stream_exports, ClassMethod, MethodExport, StreamAttr,
};
use crate::ffi_macros::{
    derive_ffi_type, ffi_class, ffi_export, spec_ffi_class, spec_ffi_export, AttrInfo, ExportClass,
    ExportFn, ExportMethod, ExportParam, ExportType,
};
use crate::text::{copy_string, flat_map, lemma_filter_step, lemma_flat_map_step, push_str, seq_concat, views};

verus! {

// ---------------------------------------------------------------------------
// The plain descriptions of parsed items
// ---------------------------------------------------------------------------

/// A segment of a path: its identifier, whether it carries no arguments,
/// and, when it has arguments in angle brackets, each of them as its token
/// text when it is a type.
#[derive(Debug)]
pub struct RawSegment {
    pub ident: String,
    pub plain: bool,
    pub angle_args: Option<Vec<Option<String>>>,
}

/// A path: whether it starts with `::`, and its segments.
#[derive(Debug)]
pub struct RawPath {
    pub leading_colon: bool,
    pub segments: Vec<RawSegment>,
}

/// A type: its token text, and its path when it is written as a path.
#[derive(Debug)]
pub struct RawType {
    pub text: String,
    pub path: Option<RawPath>,
}

/// An input of a signature: a receiver, or a typed parameter with the
/// identifier its pattern binds (when the pattern is an identifier), the
/// pattern's token text and the type.
#[derive(Debug)]
pub enum RawArg {
    Receiver,
    Typed { ident: Option<String>, pattern: String, ty: RawType },
}

/// A signature: name, whether it is `async`, inputs and declared return
/// type.
#[derive(Debug)]
pub struct RawSig {
    pub name: String,
    pub is_async: bool,
    pub inputs: Vec<RawArg>,
    pub output: Option<RawType>,
}

/// A function item: its visibility's token text and its signature.
#[derive(Debug)]
pub struct RawFn {
    pub visibility: String,
    pub sig: RawSig,
}

/// An attribute: its path, its argument when the argument is a single
/// identifier, and the `item = <type>` argument (as token text) that its
/// nested arguments give, if any.
#[derive(Debug)]
pub struct RawAttr {
    pub path: RawPath,
    pub ident_arg: Option<String>,
    pub stream_item: Option<String>,
}

/// A function of an `impl` block: whether it is `pub`, its attributes and
/// its signature.
#[derive(Debug)]
pub struct RawMethod {
    pub is_pub: bool,
    pub attrs: Vec<RawAttr>,
    pub sig: RawSig,
}

/// An `impl` block: the type it is for, and each of its items (`None` for
/// an item that is not a function).
#[derive(Debug)]
pub struct RawImpl {
    pub self_ty: RawType,
    pub items: Vec<Option<RawMethod>>,
}

// ---------------------------------------------------------------------------
// Parsing (syn) and reading syn's nodes
// ---------------------------------------------------------------------------

#[verifier::external_type_specification]
#[verifier::external_body]
pub struct ExSynSignature(syn::Signature);

#[verifier::external_type_specification]
#[verifier::external_body]
pub struct ExSynFnArg(syn::FnArg);

#[verifier::external_type_specification]
#[verifier::external_body]
pub struct ExSynType(SynTy);

#[verifier::external_type_specification]
#[verifier::external_body]
pub struct ExSynPath(syn::Path);

#[verifier::external_type_specification]
#[verifier::external_body]
pub struct ExSynPathSegment(syn::PathSegment);

#[verifier::external_type_specification]
#[verifier::external_body]
pub struct ExSynImplItem(syn::ImplItem);

#[verifier::external_type_specification]
#[verifier::external_body]
pub struct ExSynAttribute(syn::Attribute);

/// Parses `item` with `syn::parse_str::<syn::ItemFn>` and reads it; syn's
/// error message when it does not parse. Nothing is stated of the result:
/// what syn's grammar accepts, and how the text is lexed, is syn's.
#[verifier::external_body]
fn parse_fn_item(item: &str) -> (r: Result<RawFn, String>) {
    syn::parse_str::<syn::ItemFn>(item)
        .map(|f| RawFn { visibility: f.vis.to_token_stream().to_string(), sig: raw_sig(&f.sig) })
        .map_err(|e| e.to_string())
}

/// Parses `item` with `syn::parse_str::<syn::ItemImpl>` and reads it;
/// syn's error message when it does not parse. Nothing is stated of the
/// result.
#[verifier::external_body]
fn parse_impl_item(item: &str) -> (r: Result<RawImpl, String>) {
    syn::parse_str::<syn::ItemImpl>(item)
        .map(|i| RawImpl { self_ty: raw_type(&i.self_ty), items: i.items.iter().map(raw_impl_item).collect() })
        .map_err(|e| e.to_string())
}

/// Parses `item` with `syn::parse_str::<syn::DeriveInput>` and reads its
/// attributes; syn's error message when it does not parse. Nothing is
/// stated of the result.
#[verifier::external_body]
fn parse_derive_attrs(item: &str) -> (r: Result<Vec<RawAttr>, String>) {
    syn::parse_str::<syn::DeriveInput>(item)
        .map(|d| d.attrs.iter().map(raw_attr).collect())
        .map_err(|e| e.to_string())
}

/// Reads syn's signature field for field.
#[verifier::external_body]
fn raw_sig(sig: &syn::Signature) -> RawSig {
    RawSig {
        name: sig.ident.to_string(),
        is_async: sig.asyncness.is_some(),
        inputs: sig.inputs.iter().map(raw_arg).collect(),
        output: match &sig.output {
            syn::ReturnType::Default => None,
            syn::ReturnType::Type(_, ty) => Some(raw_type(ty)),
        },
    }
}

/// Reads syn's signature input field for field.
#[verifier::external_body]
fn raw_arg(arg: &syn::FnArg) -> RawArg {
    match arg {
        syn::FnArg::Receiver(_) => RawArg::Receiver,
        syn::FnArg::Typed(p) => RawArg::Typed {
            ident: match p.pat.as_ref() {
                syn::Pat::Ident(i) => Some(i.ident.to_string()),
                _ => None,
            },
            pattern: p.pat.to_token_stream().to_string(),
            ty: raw_type(&p.ty),
        },
    }
}

/// Reads syn's type: its token text and, for a path type, the path.
#[verifier::external_body]
fn raw_type(ty: &SynTy) -> RawType {
    RawType {
        text: ty.to_token_stream().to_string(),
        path: match ty {
            SynTy::Path(p) => Some(raw_path(&p.path)),
            _ => None,
        },
    }
}

/// Reads syn's path field for field.
#[verifier::external_body]
fn raw_path(path: &syn::Path) -> RawPath {
    RawPath { leading_colon: path.leading_colon.is_some(), segments: path.segments.iter().map(raw_segment).collect() }
}

/// Reads syn's path segment field for field.
#[verifier::external_body]
fn raw_segment(s: &syn::PathSegment) -> RawSegment {
    RawSegment {
        ident: s.ident.to_string(),
        plain: s.arguments.is_none(),
        angle_args: match &s.arguments {
            syn::PathArguments::AngleBracketed(a) => Some(a.args.iter().map(|g| match g {
                syn::GenericArgument::Type(t) => Some(t.to_token_stream().to_string()),
                _ => None,
            }).collect()),
            _ => None,
        },
    }
}

/// Reads syn's `impl` item: a function field for field, anything else as
/// `None`.
#[verifier::external_body]
fn raw_impl_item(item: &syn::ImplItem) -> Option<RawMethod> {
    match item {
        syn::ImplItem::Fn(m) => Some(RawMethod {
            is_pub: matches!(m.vis, syn::Visibility::Public(_)),
            attrs: m.attrs.iter().map(raw_attr).collect(),
            sig: raw_sig(&m.sig),
        }),
        _ => None,
    }
}

/// Reads syn's attribute: its path, `Attribute::parse_args::<syn::Ident>`
/// when it succeeds, and the stream item its nested arguments give.
#[verifier::external_body]
fn raw_attr(a: &syn::Attribute) -> RawAttr {
    RawAttr {
        path: raw_path(a.path()),
        ident_arg: a.parse_args::<syn::Ident>().ok().map(|i| i.to_string()),
        stream_item: stream_item_arg(a),
    }
}

/// The type (as token text) that `Attribute::parse_nested_meta` reads as
/// the value of an `item = <type>` argument; the last one when there are
/// several, `None` when there is none or the arguments stop parsing first.
#[verifier::external_body]
fn stream_item_arg(a: &syn::Attribute) -> Option<String> {
    let mut item = None;
    let _ = a.parse_nested_meta(|meta| {
        if meta.path.is_ident("item") {
            item = Some(meta.value()?.parse::<SynTy>()?.to_token_stream().to_string());
        }
        Ok(())
    });
    item
}

// ---------------------------------------------------------------------------
// What the attributes read from the descriptions
// ---------------------------------------------------------------------------

/// The text of an optional string.
pub open spec fn opt_text(o: Option<String>) -> Option<Seq<char>> {
    match o {
        Some(s) => Some(s@),
        None => None,
    }
}

/// Whether a path is the single identifier `name` (as syn's `is_ident`
/// decides): no leading `::`, one segment, without arguments.
pub open spec fn spec_is_ident(p: RawPath, name: Seq<char>) -> bool {
    &&& !p.leading_colon
    &&& p.segments@.len() == 1
    &&& p.segments@[0].plain
    &&& p.segments@[0].ident@ == name
}

/// Whether a path is the single identifier `name`.
pub fn path_is_ident(p: &RawPath, name: &str) -> (r: bool)
    ensures
        r == spec_is_ident(*p, name@),
{
    !p.leading_colon && p.segments.len() == 1 && p.segments[0].plain && crate::text::text_is(
        &p.segments[0].ident,
        name,
    )
}

/// The last segment of a type's path, if it is a path with segments.
pub open spec fn spec_last_segment(t: RawType) -> Option<RawSegment> {
    match t.path {
        Some(p) => if p.segments@.len() > 0 {
            Some(p.segments@.last())
        } else {
            None
        },
        None => None,
    }
}

/// The identifier of a type's last path segment.
pub open spec fn spec_last_ident(t: RawType) -> Option<Seq<char>> {
    match spec_last_segment(t) {
        Some(s) => Some(s.ident@),
        None => None,
    }
}

/// The token text of the first generic argument of a type's last path
/// segment, when that argument is a type.
pub open spec fn spec_first_type_arg(t: RawType) -> Option<Seq<char>> {
    match spec_last_segment(t) {
        Some(s) => match s.angle_args {
            Some(v) => if v@.len() > 0 {
                opt_text(v@[0])
            } else {
                None
            },
            None => None,
        },
        None => None,
    }
}

/// Whether `e` describes the declared type `t`.
pub open spec fn type_matches(e: ExportType, t: RawType) -> bool {
    &&& e.text@ == t.text@
    &&& opt_text(e.last_segment) == spec_last_ident(t)
    &&& opt_text(e.first_type_arg) == spec_first_type_arg(t)
}

fn copy_opt(o: &Option<String>) -> (r: Option<String>)
    ensures
        opt_text(r) == opt_text(*o),
{
    match o {
        Some(s) => Some(copy_string(s)),
        None => None,
    }
}

/// The description of a declared type that the export attribute reads:
/// its text, its last path segment and that segment's first type argument.
pub fn export_type_of(t: &RawType) -> (r: ExportType)
    ensures
        type_matches(r, *t),
{
    let mut last_segment: Option<String> = None;
    let mut first_type_arg: Option<String> = None;
    match &t.path {
        Some(p) => {
            if p.segments.len() > 0 {
                let s = &p.segments[p.segments.len() - 1];
                assert(p.segments@.last() == *s);
                last_segment = Some(copy_string(&s.ident));
                match &s.angle_args {
                    Some(v) => {
                        if v.len() > 0 {
                            first_type_arg = copy_opt(&v[0]);
                        }
                    },
                    None => {},
                }
            }
        },
        None => {},
    }
    ExportType { text: copy_string(&t.text), last_segment, first_type_arg }
}

/// Whether an input is a typed parameter.
pub open spec fn is_typed() -> spec_fn(RawArg) -> bool {
    |a: RawArg| a is Typed
}

/// Whether `p` describes the typed input `a`.
pub open spec fn param_matches(p: ExportParam, a: RawArg) -> bool {
    match a {
        RawArg::Typed { ident, pattern, ty } => {
            &&& opt_text(p.name) == opt_text(ident)
            &&& p.pattern@ == pattern@
            &&& p.type_text@ == ty.text@
        },
        RawArg::Receiver => false,
    }
}

/// Whether `ps` describe the typed inputs among `args`, in order.
pub open spec fn params_match(ps: Seq<ExportParam>, args: Seq<RawArg>) -> bool {
    let typed = args.filter(is_typed());
    &&& ps.len() == typed.len()
    &&& forall|i: int| 0 <= i < ps.len() ==> param_matches(#[trigger] ps[i], typed[i])
}

/// The inputs after the first one (none when there are none).
pub open spec fn after_first(args: Seq<RawArg>) -> Seq<RawArg> {
    if args.len() > 0 {
        args.drop_first()
    } else {
        args
    }
}

/// The typed parameters among `args` from position `start` on.
fn export_params_of(args: &Vec<RawArg>, start: usize) -> (r: Vec<ExportParam>)
    requires
        start <= args@.len(),
    ensures
        params_match(r@, args@.subrange(start as int, args@.len() as int)),
{
    let ghost s = args@.subrange(start as int, args@.len() as int);
    let mut r: Vec<ExportParam> = Vec::new();
    let mut k: usize = start;
    while k < args.len()
        invariant
            start <= k <= args@.len(),
            s == args@.subrange(start as int, args@.len() as int),
            params_match(r@, s.take(k - start)),
        decreases args@.len() - k,
    {
        proof {
            lemma_filter_step(s, is_typed(), k - start);
            assert(s[k - start] == args@[k as int]);
        }
        match &args[k] {
            RawArg::Typed { ident, pattern, ty } => {
                let ghost before = r@;
                r.push(ExportParam { name: copy_opt(ident), pattern: copy_string(pattern), type_text: copy_string(&ty.text) });
                assert forall|i: int| 0 <= i < r@.len() implies param_matches(
                    #[trigger] r@[i],
                    s.take(k + 1 - start).filter(is_typed())[i],
                ) by {
                    if i < before.len() {
                        assert(r@[i] == before[i]);
                    }
                }
            },
            RawArg::Receiver => {},
        }
        k = k + 1;
    }
    assert(s.take(k - start) =~= s);
    r
}

/// Whether `f` describes the function item `raw`.
pub open spec fn fn_matches(f: ExportFn, raw: RawFn) -> bool {
    &&& f.name@ == raw.sig.name@
    &&& f.visibility@ == raw.visibility@
    &&& params_match(f.params@, raw.sig.inputs@)
    &&& match (f.output, raw.sig.output) {
        (Some(e), Some(t)) => type_matches(e, t),
        (None, None) => true,
        _ => false,
    }
}

/// The description of a function item that the export attribute reads:
/// name, visibility, typed parameters and declared return type.
pub fn export_fn_of(raw: &RawFn) -> (r: ExportFn)
    ensures
        fn_matches(r, *raw),
{
    let params = export_params_of(&raw.sig.inputs, 0);
    assert(raw.sig.inputs@.subrange(0, raw.sig.inputs@.len() as int) =~= raw.sig.inputs@);
    let output = match &raw.sig.output {
        Some(t) => Some(export_type_of(t)),
        None => None,
    };
    ExportFn { name: copy_string(&raw.sig.name), visibility: copy_string(&raw.visibility), params, output }
}

/// What the `ffi_export` attribute adds after the function whose source
/// text is `item`: its C entry points; syn's message when the text is not a
/// function item.
pub fn ffi_export_item(item: &str) -> (r: Result<String, String>)
    ensures
        r matches Ok(t) ==> exists|raw: RawFn, f: ExportFn| fn_matches(f, raw) && t@ == spec_ffi_export(f),
{
    match parse_fn_item(item) {
        Ok(raw) => {
            let f = export_fn_of(&raw);
            Ok(ffi_export(&f))
        },
        Err(e) => Err(e),
    }
}

/// Whether `a` describes the attribute `r` as the `FfiType` derive reads
/// it.
pub open spec fn attr_matches(a: AttrInfo, r: RawAttr) -> bool {
    &&& a.is_repr == spec_is_ident(r.path, "repr"@)
    &&& opt_text(a.ident_arg) == opt_text(r.ident_arg)
}

/// The attributes as the `FfiType` derive reads them.
pub fn attr_infos_of(raws: &Vec<RawAttr>) -> (r: Vec<AttrInfo>)
    ensures
        r@.len() == raws@.len(),
        forall|i: int| 0 <= i < r@.len() ==> attr_matches(#[trigger] r@[i], raws@[i]),
{
    let mut r: Vec<AttrInfo> = Vec::new();
    let mut i: usize = 0;
    while i < raws.len()
        invariant
            i <= raws@.len(),
            r@.len() == i,
            forall|k: int| 0 <= k < i ==> attr_matches(#[trigger] r@[k], raws@[k]),
        decreases raws@.len() - i,
    {
        proof {
            reveal_strlit("repr");
        }
        let a = &raws[i];
        r.push(AttrInfo { is_repr: path_is_ident(&a.path, "repr"), ident_arg: copy_opt(&a.ident_arg) });
        i = i + 1;
    }
    r
}

/// What the `FfiType` derive gives the type whose source text is `item`:
/// nothing for a `#[repr(C)]` type, else the error message; syn's message
/// when the text is not a type definition.
pub fn derive_ffi_type_item(item: &str) -> (r: Result<String, String>)
    ensures
        r matches Ok(t) ==> t@ == Seq::<char>::empty() && exists|raws: Seq<RawAttr>, infos: Seq<AttrInfo>|
            infos.len() == raws.len() && (forall|i: int| 0 <= i < infos.len() ==> attr_matches(
                #[trigger] infos[i],
                raws[i],
            )) && crate::ffi_macros::spec_has_repr_c(infos),
{
    match parse_derive_attrs(item) {
        Ok(raws) => {
            let infos = attr_infos_of(&raws);
            derive_ffi_type(&infos)
        },
        Err(e) => Err(e),
    }
}

// ---------------------------------------------------------------------------
// `impl` blocks: the export attribute of a type
// ---------------------------------------------------------------------------

/// Whether a method's first input is a receiver.
pub open spec fn raw_receiver(m: RawMethod) -> bool {
    m.sig.inputs@.len() > 0 && m.sig.inputs@[0] is Receiver
}

/// Whether `e` describes the method `m`.
pub open spec fn method_matches(e: ExportMethod, m: RawMethod) -> bool {
    &&& e.name@ == m.sig.name@
    &&& e.is_pub == m.is_pub
    &&& e.has_receiver == raw_receiver(m)
    &&& params_match(e.params@, after_first(m.sig.inputs@))
    &&& opt_text(e.output) == (match m.sig.output {
        Some(t) => Some(t.text@),
        None => None::<Seq<char>>,
    })
}

/// Whether an item of an `impl` block is a function.
pub open spec fn is_fn_item() -> spec_fn(Option<RawMethod>) -> bool {
    |o: Option<RawMethod>| o is Some
}

/// Whether `es` describe the functions among `items`, in order.
pub open spec fn methods_match(es: Seq<ExportMethod>, items: Seq<Option<RawMethod>>) -> bool {
    let fns = items.filter(is_fn_item());
    &&& es.len() == fns.len()
    &&& forall|i: int| 0 <= i < es.len() ==> method_matches(#[trigger] es[i], fns[i]->0)
}

/// Whether `c` describes the `impl` block `raw`: the last segment of the
/// type's path, and its functions.
pub open spec fn class_matches(c: ExportClass, raw: RawImpl) -> bool {
    &&& opt_text(c.ty_name) == spec_last_ident(raw.self_ty)
    &&& methods_match(c.methods@, raw.items@)
}

/// The identifier of a type's last path segment.
fn last_ident(t: &RawType) -> (r: Option<String>)
    ensures
        opt_text(r) == spec_last_ident(*t),
{
    match &t.path {
        Some(p) => {
            if p.segments.len() > 0 {
                assert(p.segments@.last() == p.segments@[p.segments@.len() - 1]);
                Some(copy_string(&p.segments[p.segments.len() - 1].ident))
            } else {
                None
            }
        },
        None => None,
    }
}

/// The description of a method that the export attribute of a type reads.
pub fn export_method_of(m: &RawMethod) -> (r: ExportMethod)
    ensures
        method_matches(r, *m),
{
    let n = m.sig.inputs.len();
    let start: usize = if n > 0 { 1 } else { 0 };
    let params = export_params_of(&m.sig.inputs, start);
    proof {
        if n > 0 {
            assert(m.sig.inputs@.subrange(1, n as int) =~= m.sig.inputs@.drop_first());
        } else {
            assert(m.sig.inputs@.subrange(0, 0) =~= m.sig.inputs@);
        }
    }
    let has_receiver = n > 0 && matches!(m.sig.inputs[0], RawArg::Receiver);
    let output = match &m.sig.output {
        Some(t) => Some(copy_string(&t.text)),
        None => None,
    };
    ExportMethod { name: copy_string(&m.sig.name), is_pub: m.is_pub, has_receiver, params, output }
}

/// The description of an `impl` block that the export attribute of a type
/// reads: the type's name and each function.
pub fn export_class_of(raw: &RawImpl) -> (r: ExportClass)
    ensures
        class_matches(r, *raw),
{
    let ghost items = raw.items@;
    let mut methods: Vec<ExportMethod> = Vec::new();
    let mut i: usize = 0;
    while i < raw.items.len()
        invariant
            i <= items.len(),
            items == raw.items@,
            methods_match(methods@, items.take(i as int)),
        decreases items.len() - i,
    {
        proof {
            lemma_filter_step(items, is_fn_item(), i as int);
        }
        match &raw.items[i] {
            Some(m) => {
                let ghost before = methods@;
                methods.push(export_method_of(m));
                assert forall|k: int| 0 <= k < methods@.len() implies method_matches(
                    #[trigger] methods@[k],
                    items.take(i + 1).filter(is_fn_item())[k]->0,
                ) by {
                    if k < before.len() {
                        assert(methods@[k] == before[k]);
                    }
                }
            },
            None => {},
        }
        i = i + 1;
    }
    assert(items.take(i as int) =~= items);
    ExportClass { ty_name: last_ident(&raw.self_ty), methods }
}

/// What the `ffi_class` attribute adds after the `impl` block whose source
/// text is `item`: the type's constructor, destructor and method entry
/// points; the error message when the type is not named by a path, and
/// syn's message when the text is not an `impl` block.
pub fn ffi_class_item(item: &str) -> (r: Result<String, String>)
    ensures
        r matches Ok(t) ==> exists|raw: RawImpl, c: ExportClass|
            class_matches(c, raw) && (c.ty_name matches Some(n) && t@ == spec_ffi_class(n@, c.methods@)),
{
    match parse_impl_item(item) {
        Ok(raw) => {
            let c = export_class_of(&raw);
            match ffi_class(&c) {
                Ok(t) => Ok(t),
                Err(e) => Err(e.message()),
            }
        },
        Err(e) => Err(e),
    }
}

// ---------------------------------------------------------------------------
// `impl` blocks: the class attribute of the callback-trait crate
// ---------------------------------------------------------------------------

/// Whether one of the attributes is the single identifier `name`.
pub open spec fn raw_has_attr(attrs: Seq<RawAttr>, name: Seq<char>) -> bool {
    exists|i: int| 0 <= i < attrs.len() && spec_is_ident(attrs[i].path, name)
}

/// The item type of the first `ffi_stream` attribute that gives one.
pub open spec fn raw_stream_item(attrs: Seq<RawAttr>) -> Option<Seq<char>>
    decreases attrs.len(),
{
    if attrs.len() == 0 {
        None
    } else if spec_is_ident(attrs[0].path, "ffi_stream"@) && attrs[0].stream_item is Some {
        Some(attrs[0].stream_item->0@)
    } else {
        raw_stream_item(attrs.drop_first())
    }
}

/// The entry points a method gets: none when it is marked `skip` or is not
/// `pub`; a stream's when an `ffi_stream` attribute gives its item type;
/// else an async or a synchronous method's.
pub open spec fn raw_method_export(m: RawMethod) -> Option<(nat, Seq<char>)> {
    if raw_has_attr(m.attrs@, "skip"@) || !m.is_pub {
        None
    } else if raw_stream_item(m.attrs@) is Some {
        Some((0, raw_stream_item(m.attrs@)->0))
    } else if m.sig.is_async {
        Some((1, Seq::empty()))
    } else {
        Some((2, Seq::empty()))
    }
}

/// Whether `s` describes the attribute `a` as the class attribute reads it.
pub open spec fn stream_attr_matches(s: StreamAttr, a: RawAttr) -> bool {
    &&& s.is_ffi_stream == spec_is_ident(a.path, "ffi_stream"@)
    &&& opt_text(s.item) == opt_text(a.stream_item)
}

proof fn lemma_stream_item_matches(cs: Seq<StreamAttr>, rs: Seq<RawAttr>)
    requires
        cs.len() == rs.len(),
        forall|i: int| 0 <= i < cs.len() ==> stream_attr_matches(#[trigger] cs[i], rs[i]),
    ensures
        crate::class_exports::spec_stream_item(cs) == raw_stream_item(rs),
    decreases cs.len(),
{
    if cs.len() > 0 {
        assert forall|i: int| 0 <= i < cs.drop_first().len() implies stream_attr_matches(
            #[trigger] cs.drop_first()[i],
            rs.drop_first()[i],
        ) by {
            assert(cs.drop_first()[i] == cs[i + 1]);
            assert(rs.drop_first()[i] == rs[i + 1]);
        }
        lemma_stream_item_matches(cs.drop_first(), rs.drop_first());
        assert(stream_attr_matches(cs[0], rs[0]));
    }
}

/// The description of a method that the class attribute reads, with the
/// entry points it gives the method.
pub fn class_method_of(m: &RawMethod) -> (r: ClassMethod)
    ensures
        r.name@ == m.sig.name@,
        spec_method_export(r) == raw_method_export(*m),
{
    proof {
        reveal_strlit("skip");
        reveal_strlit("ffi_stream");
    }
    let mut attrs: Vec<StreamAttr> = Vec::new();
    let mut skip = false;
    let mut i: usize = 0;
    while i < m.attrs.len()
        invariant
            i <= m.attrs@.len(),
            attrs@.len() == i,
            forall|k: int| 0 <= k < i ==> stream_attr_matches(#[trigger] attrs@[k], m.attrs@[k]),
            skip == (exists|k: int| 0 <= k < i && spec_is_ident(m.attrs@[k].path, "skip"@)),
        decreases m.attrs@.len() - i,
    {
        let a = &m.attrs[i];
        if path_is_ident(&a.path, "skip") {
            skip = true;
        }
        attrs.push(StreamAttr { is_ffi_stream: path_is_ident(&a.path, "ffi_stream"), item: copy_opt(&a.stream_item) });
        i = i + 1;
    }
    proof {
        lemma_stream_item_matches(attrs@, m.attrs@);
    }
    ClassMethod { name: copy_string(&m.sig.name), is_pub: m.is_pub, is_async: m.sig.is_async, has_skip_attr: skip, attrs }
}

/// What the class attribute exports of an `impl` block: the text of the
/// type's constructor and destructor followed by each stream method's
/// entry points, and the names of the synchronous and async methods with a
/// receiver, which get entry points of their own.
#[derive(Debug)]
pub struct ClassImplExports {
    pub items: String,
    pub sync_methods: Vec<String>,
    pub async_methods: Vec<String>,
}

/// The stream entry points of an item of an `impl` block for the type `t`.
pub open spec fn stream_part(t: Seq<char>) -> spec_fn(Option<RawMethod>) -> Seq<Seq<char>> {
    |o: Option<RawMethod>| match o {
        Some(m) => match raw_method_export(m) {
            Some(k) => if k.0 == 0 {
                seq!["\n"@ + spec_stream_exports(t, t, m.sig.name@, k.1)]
            } else {
                Seq::empty()
            },
            None => Seq::empty(),
        },
        None => Seq::empty(),
    }
}

/// The name of an item of an `impl` block when it is a method with a
/// receiver whose entry points are of kind `kind` (1 async, 2 synchronous).
pub open spec fn kind_names(kind: nat) -> spec_fn(Option<RawMethod>) -> Seq<Seq<char>> {
    |o: Option<RawMethod>| match o {
        Some(m) => if raw_method_export(m) matches Some(k) && k.0 == kind && raw_receiver(m) {
            seq![m.sig.name@]
        } else {
            Seq::empty()
        },
        None => Seq::empty(),
    }
}

/// The exported text for the type `t` with these items: its constructor
/// and destructor, then each stream method's entry points, in order.
pub open spec fn spec_class_impl_items(t: Seq<char>, items: Seq<Option<RawMethod>>) -> Seq<char> {
    spec_lifecycle_exports(t) + seq_concat(flat_map(items, stream_part(t)))
}

/// What the class attribute exports of the `impl` block `raw`; an error
/// when its type is not named by a path.
pub fn class_impl_exports(raw: &RawImpl) -> (r: Result<ClassImplExports, crate::ffi_macros::FfiClassError>)
    ensures
        match spec_last_ident(raw.self_ty) {
            Some(t) => r matches Ok(x) && x.items@ == spec_class_impl_items(t, raw.items@)
                && views(x.sync_methods@) == flat_map(raw.items@, kind_names(2))
                && views(x.async_methods@) == flat_map(raw.items@, kind_names(1)),
            None => r == Err::<ClassImplExports, crate::ffi_macros::FfiClassError>(
                crate::ffi_macros::FfiClassError::UnnamedType,
            ),
        },
{
    let name = last_ident(&raw.self_ty);
    let mut text = match class_lifecycle_exports(&name) {
        Ok(t) => t,
        Err(e) => {
            return Err(e);
        },
    };
    let t = match name {
        Some(t) => t,
        None => {
            return Err(crate::ffi_macros::FfiClassError::UnnamedType);
        },
    };
    let ghost items = raw.items@;
    let ghost head = text@;
    let mut sync_methods: Vec<String> = Vec::new();
    let mut async_methods: Vec<String> = Vec::new();
    let mut i: usize = 0;
    while i < raw.items.len()
        invariant
            i <= items.len(),
            items == raw.items@,
            head == spec_lifecycle_exports(t@),
            text@ == head + seq_concat(flat_map(items.take(i as int), stream_part(t@))),
            views(sync_methods@) == flat_map(items.take(i as int), kind_names(2)),
            views(async_methods@) == flat_map(items.take(i as int), kind_names(1)),
        decreases items.len() - i,
    {
        proof {
            lemma_flat_map_step(items, stream_part(t@), i as int);
            lemma_flat_map_step(items, kind_names(2), i as int);
            lemma_flat_map_step(items, kind_names(1), i as int);
        }
        let ghost before = flat_map(items.take(i as int), stream_part(t@));
        let ghost text0 = text@;
        let ghost sync0 = views(sync_methods@);
        let ghost async0 = views(async_methods@);
        match &raw.items[i] {
            Some(m) => {
                let c = class_method_of(m);
                let has_receiver = m.sig.inputs.len() > 0 && matches!(m.sig.inputs[0], RawArg::Receiver);
                match classify_class_method(&c) {
                    Some(MethodExport::Stream { item }) => {
                        let part = generate_stream_exports(&t, &t, &c.name, &item);
                        push_str(&mut text, "\n");
                        push_str(&mut text, part.as_str());
                        proof {
                            reveal_strlit("\n");
                            let x = "\n"@ + part@;
                            assert(seq_concat(before + seq![x]) == seq_concat(before) + x) by {
                                assert((before + seq![x]).drop_last() =~= before);
                            }
                            assert(text@ =~= text0 + x);
                        }
                    },
                    Some(MethodExport::Async) => {
                        if has_receiver {
                            async_methods.push(copy_string(&c.name));
                            assert(views(async_methods@) =~= async0.push(m.sig.name@));
                        }
                    },
                    Some(MethodExport::Sync) => {
                        if has_receiver {
                            sync_methods.push(copy_string(&c.name));
                            assert(views(sync_methods@) =~= sync0.push(m.sig.name@));
                        }
                    },
                    None => {},
                }
                proof {
                    assert(before + Seq::<Seq<char>>::empty() =~= before);
                    assert(sync0 + Seq::<Seq<char>>::empty() =~= sync0);
                    assert(async0 + Seq::<Seq<char>>::empty() =~= async0);
                    assert(sync0 + seq![m.sig.name@] =~= sync0.push(m.sig.name@));
                    assert(async0 + seq![m.sig.name@] =~= async0.push(m.sig.name@));
                }
            },
            None => {
                proof {
                    assert(before + Seq::<Seq<char>>::empty() =~= before);
                    assert(sync0 + Seq::<Seq<char>>::empty() =~= sync0);
                    assert(async0 + Seq::<Seq<char>>::empty() =~= async0);
                }
            },
        }
        i = i + 1;
    }
    assert(items.take(i as int) =~= items);
    Ok(ClassImplExports { items: text, sync_methods, async_methods })
}

/// What the class attribute exports of the `impl` block whose source text
/// is `item`; the error message when its type is not named by a path, and
/// syn's message when the text is not an `impl` block.
pub fn ffi_class_impl(item: &str) -> (r: Result<ClassImplExports, String>)
    ensures
        r matches Ok(x) ==> exists|raw: RawImpl| (#[trigger] spec_last_ident(raw.self_ty) matches Some(t)
            && x.items@ == spec_class_impl_items(t, raw.items@)
            && views(x.sync_methods@) == flat_map(raw.items@, kind_names(2))
            && views(x.async_methods@) == flat_map(raw.items@, kind_names(1))),
{
    match parse_impl_item(item) {
        Ok(raw) => match class_impl_exports(&raw) {
            Ok(x) => Ok(x),
            Err(e) => Err(e.message()),
        },
        Err(e) => Err(e),
    }
}

} // verus!
