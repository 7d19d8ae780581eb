//! The code that the export attributes add to a crate: for an exported
//! function, a C entry point that converts string arguments, calls the
//! function and hands its result back through an out-pointer; for an
//! exported type, constructor, destructor and method entry points; for a
//! derived FFI type, the `#[repr(C)]` check.
//!
//! The caller parses the annotated item and describes it with the plain
//! values below (identifiers, and the token text of types and patterns);
//! the generated items come back as Rust source text.

use vstd::prelude::*;
use crate::text::{
    ascii_lower, chars_of, occurs_in, to_ascii_lower, concat2, concat3, concat_all, copy_string, flat_map, join, lemma_filter_step,
    lemma_flat_map_step, push_char, push_str, seq_concat, seq_join, string_of, text_is, views,
};

verus! {

/// A typed parameter: its name when the pattern is a plain identifier, the
/// token text of the pattern, and the token text of its type.
#[derive(Debug)]
pub struct ExportParam {
    pub name: Option<String>,
    pub pattern: String,
    pub type_text: String,
}

/// A declared return type: its token text and, when it is a path, the last
/// segment's name and the token text of that segment's first generic type
/// argument.
#[derive(Debug)]
pub struct ExportType {
    pub text: String,
    pub last_segment: Option<String>,
    pub first_type_arg: Option<String>,
}

/// An exported function: name, visibility (token text, empty when
/// inherited), typed parameters and declared return type.
#[derive(Debug)]
pub struct ExportFn {
    pub name: String,
    pub visibility: String,
    pub params: Vec<ExportParam>,
    pub output: Option<ExportType>,
}

/// How a parameter crosses the boundary: as a borrowed or owned string,
/// or as itself.
#[derive(Debug, PartialEq, Eq, Structural)]
pub enum StringParamKind {
    Plain,
    StrRef,
    OwnedString,
}

/// How the result of an exported function is handed back.
#[derive(Debug)]
pub enum ReturnKind {
    Unit,
    Primitive,
    String,
    ResultPrimitive(String),
    ResultString,
    Vec(String),
}

/// The code of an exported function's C entry point: its parameters, the
/// statements that convert them, and the arguments of the call.
#[derive(Debug)]
pub struct FfiParams {
    pub ffi_params: Vec<String>,
    pub conversions: Vec<String>,
    pub call_args: Vec<String>,
}

/// Whether a character is kept when spaces are dropped.
pub open spec fn not_space() -> spec_fn(char) -> bool {
    |c: char| c != ' '
}

/// `s` without its spaces.
pub open spec fn no_spaces(s: Seq<char>) -> Seq<char> {
    s.filter(not_space())
}

/// Whether `s` ends with `suffix`.
pub open spec fn ends_with(s: Seq<char>, suffix: Seq<char>) -> bool {
    suffix.len() <= s.len() && s.subrange(s.len() - suffix.len(), s.len() as int) == suffix
}

/// Whether a type's text, without spaces, names `String`.
pub open spec fn is_string_text(t: Seq<char>) -> bool {
    t == "String"@ || t == "std::string::String"@
}

/// How a parameter of type text `ty` crosses the boundary: a `&str` (with or
/// without a lifetime) as a borrowed string, a `String` as an owned one.
pub open spec fn spec_string_param_kind(ty: Seq<char>) -> StringParamKind {
    let t = no_spaces(ty);
    if t == "&str"@ || ("&'"@.is_prefix_of(t) && ends_with(t, "str"@)) {
        StringParamKind::StrRef
    } else if is_string_text(t) {
        StringParamKind::OwnedString
    } else {
        StringParamKind::Plain
    }
}

/// The codes of the return kinds.
pub open spec fn kind_unit() -> nat { 0 }
pub open spec fn kind_primitive() -> nat { 1 }
pub open spec fn kind_string() -> nat { 2 }
pub open spec fn kind_result_primitive() -> nat { 3 }
pub open spec fn kind_result_string() -> nat { 4 }
pub open spec fn kind_vec() -> nat { 5 }

impl View for ReturnKind {
    type V = (nat, Seq<char>);

    /// The kind's code and the type text it carries (empty when none).
    open spec fn view(&self) -> (nat, Seq<char>) {
        match self {
            ReturnKind::Unit => (kind_unit(), Seq::empty()),
            ReturnKind::Primitive => (kind_primitive(), Seq::empty()),
            ReturnKind::String => (kind_string(), Seq::empty()),
            ReturnKind::ResultPrimitive(t) => (kind_result_primitive(), t@),
            ReturnKind::ResultString => (kind_result_string(), Seq::empty()),
            ReturnKind::Vec(t) => (kind_vec(), t@),
        }
    }
}

/// How the result of a function with the given return type is handed back:
/// nothing for no type; a string for `String`; the elements for `Vec<T>`;
/// for `Result<T, _>`, a string, nothing (for `()`) or a `T`; else the value
/// itself.
pub open spec fn spec_classify_return(out: Option<ExportType>) -> (nat, Seq<char>) {
    match out {
        None => (kind_unit(), Seq::empty()),
        Some(t) => if is_string_text(no_spaces(t.text@)) {
            (kind_string(), Seq::empty())
        } else if t.last_segment matches Some(seg) && seg@ == "Vec"@ && t.first_type_arg is Some {
            (kind_vec(), t.first_type_arg->0@)
        } else if t.last_segment matches Some(seg) && seg@ == "Result"@ && t.first_type_arg is Some {
            let inner = no_spaces(t.first_type_arg->0@);
            if is_string_text(inner) {
                (kind_result_string(), Seq::empty())
            } else if inner == "()"@ {
                (kind_unit(), Seq::empty())
            } else {
                (kind_result_primitive(), t.first_type_arg->0@)
            }
        } else {
            (kind_primitive(), Seq::empty())
        },
    }
}

/// `s` without its spaces.
pub fn strip_spaces(s: &String) -> (r: String)
    ensures
        r@ == no_spaces(s@),
{
    let cs = chars_of(s.as_str());
    let ghost keep = not_space();
    let mut r = String::new();
    let mut i: usize = 0;
    while i < cs.len()
        invariant
            i <= cs@.len(),
            cs@ == s@,
            keep == not_space(),
            r@ == cs@.take(i as int).filter(keep),
        decreases cs@.len() - i,
    {
        proof {
            lemma_filter_step(cs@, keep, i as int);
        }
        if cs[i] != ' ' {
            push_char(&mut r, cs[i]);
        }
        i = i + 1;
    }
    assert(cs@.take(i as int) =~= cs@);
    r
}

/// Whether `s` starts with `prefix`.
fn has_prefix(s: &Vec<char>, prefix: &Vec<char>) -> (r: bool)
    ensures
        r == prefix@.is_prefix_of(s@),
{
    if prefix.len() > s.len() {
        return false;
    }
    let mut i: usize = 0;
    while i < prefix.len()
        invariant
            i <= prefix@.len() <= s@.len(),
            forall|k: int| 0 <= k < i ==> prefix@[k] == s@[k],
        decreases prefix@.len() - i,
    {
        if prefix[i] != s[i] {
            return false;
        }
        i = i + 1;
    }
    true
}

/// Whether `s` ends with `suffix`.
fn has_suffix(s: &Vec<char>, suffix: &Vec<char>) -> (r: bool)
    ensures
        r == ends_with(s@, suffix@),
{
    if suffix.len() > s.len() {
        return false;
    }
    let off: usize = s.len() - suffix.len();
    let mut i: usize = 0;
    while i < suffix.len()
        invariant
            i <= suffix@.len(),
            off + suffix@.len() == s@.len(),
            s@.len() == s.len(),
            forall|k: int| 0 <= k < i ==> suffix@[k] == s@[off + k],
        decreases suffix@.len() - i,
    {
        if suffix[i] != s[off + i] {
            assert(s@.subrange(off as int, s@.len() as int)[i as int] == s@[off + i]);
            return false;
        }
        i = i + 1;
    }
    assert(s@.subrange(off as int, s@.len() as int) =~= suffix@);
    true
}

/// Whether the text names `String`.
fn is_string_type(t: &String) -> (r: bool)
    ensures
        r == is_string_text(t@),
{
    text_is(t, "String") || text_is(t, "std::string::String")
}

/// How a parameter of type text `ty` crosses the boundary as a string.
pub fn classify_string_param(ty: &String) -> (r: StringParamKind)
    ensures
        r == spec_string_param_kind(ty@),
{
    let t = strip_spaces(ty);
    let cs = chars_of(t.as_str());
    let amp = chars_of("&'");
    let suffix = chars_of("str");
    if text_is(&t, "&str") || (has_prefix(&cs, &amp) && has_suffix(&cs, &suffix)) {
        StringParamKind::StrRef
    } else if is_string_type(&t) {
        StringParamKind::OwnedString
    } else {
        StringParamKind::Plain
    }
}

/// The element type of a `Vec<T>` return type.
pub fn extract_vec_inner(ty: &ExportType) -> (r: Option<String>)
    ensures
        match r {
            Some(inner) => ty.last_segment matches Some(seg) && seg@ == "Vec"@
                && ty.first_type_arg is Some && inner@ == ty.first_type_arg->0@,
            None => !(ty.last_segment matches Some(seg) && seg@ == "Vec"@ && ty.first_type_arg is Some),
        },
{
    match &ty.last_segment {
        Some(seg) => {
            if text_is(seg, "Vec") {
                match &ty.first_type_arg {
                    Some(inner) => Some(copy_string(inner)),
                    None => None,
                }
            } else {
                None
            }
        },
        None => None,
    }
}

/// How the result of a function with return type `output` is handed back.
pub fn classify_return(output: &Option<ExportType>) -> (r: ReturnKind)
    ensures
        r@ == spec_classify_return(*output),
{
    match output {
        None => ReturnKind::Unit,
        Some(t) => {
            let text = strip_spaces(&t.text);
            if is_string_type(&text) {
                return ReturnKind::String;
            }
            match extract_vec_inner(t) {
                Some(inner) => {
                    return ReturnKind::Vec(inner);
                },
                None => {},
            }
            match (&t.last_segment, &t.first_type_arg) {
                (Some(seg), Some(inner)) => {
                    if text_is(seg, "Result") {
                        let inner_text = strip_spaces(inner);
                        if is_string_type(&inner_text) {
                            return ReturnKind::ResultString;
                        } else if text_is(&inner_text, "()") {
                            return ReturnKind::Unit;
                        } else {
                            return ReturnKind::ResultPrimitive(copy_string(inner));
                        }
                    }
                },
                _ => {},
            }
            ReturnKind::Primitive
        },
    }
}

/// The statement that turns the pointer and length parameters of the
/// string parameter `name` back into a string (an owned one when `owned`):
/// an empty string for a null pointer, an early `INVALID_ARG` failure when
/// the bytes are not UTF-8.
pub open spec fn spec_string_conversion(name: Seq<char>, owned: bool) -> Seq<char> {
    "    let "@ + name + (if owned {
        ": String = if "@
    } else {
        ": &str = if "@
    }) + name + "_ptr.is_null() {\n        "@ + (if owned {
        "String::new()"@
    } else {
        "\"\""@
    }) + "\n    } else {\n        match core::str::from_utf8(core::slice::from_raw_parts("@ + name
        + "_ptr, "@ + name + "_len)) {\n            Ok(s) => "@ + (if owned {
        "s.to_string()"@
    } else {
        "s"@
    })
        + ",\n            Err(_) => return crate::fail_with_error(crate::FfiStatus::INVALID_ARG, concat!(stringify!("@
        + name + "), \" is not valid UTF-8\")),\n        }\n    };\n"@
}

/// The entry-point parameters that one parameter becomes: a pointer and a
/// length for a string, itself otherwise; none when its pattern is not a
/// plain identifier.
pub open spec fn param_ffi(p: ExportParam) -> Seq<Seq<char>> {
    match p.name {
        None => Seq::empty(),
        Some(n) => if spec_string_param_kind(p.type_text@) == StringParamKind::Plain {
            seq![n@ + ": "@ + p.type_text@]
        } else {
            seq![n@ + "_ptr: *const u8"@, n@ + "_len: usize"@]
        },
    }
}

/// The conversion statements that one parameter needs.
pub open spec fn param_conversion(p: ExportParam) -> Seq<Seq<char>> {
    match p.name {
        None => Seq::empty(),
        Some(n) => if spec_string_param_kind(p.type_text@) == StringParamKind::Plain {
            Seq::empty()
        } else {
            seq![spec_string_conversion(n@, spec_string_param_kind(p.type_text@) == StringParamKind::OwnedString)]
        },
    }
}

/// The call arguments that one parameter gives.
pub open spec fn param_call_arg(p: ExportParam) -> Seq<Seq<char>> {
    match p.name {
        None => Seq::empty(),
        Some(n) => seq![n@],
    }
}

/// `param_ffi` as a function value.
pub open spec fn param_ffi_fn() -> spec_fn(ExportParam) -> Seq<Seq<char>> {
    |p: ExportParam| param_ffi(p)
}

/// `param_conversion` as a function value.
pub open spec fn param_conversion_fn() -> spec_fn(ExportParam) -> Seq<Seq<char>> {
    |p: ExportParam| param_conversion(p)
}

/// `param_call_arg` as a function value.
pub open spec fn param_call_arg_fn() -> spec_fn(ExportParam) -> Seq<Seq<char>> {
    |p: ExportParam| param_call_arg(p)
}

/// The statement that converts the string parameter `name`.
fn string_conversion(name: &String, owned: bool) -> (r: String)
    ensures
        r@ == spec_string_conversion(name@, owned),
{
    let n = name.as_str();
    let mut r = string_of("    let ");
    push_str(&mut r, n);
    push_str(&mut r, if owned { ": String = if " } else { ": &str = if " });
    push_str(&mut r, n);
    push_str(&mut r, "_ptr.is_null() {\n        ");
    push_str(&mut r, if owned { "String::new()" } else { "\"\"" });
    push_str(&mut r, "\n    } else {\n        match core::str::from_utf8(core::slice::from_raw_parts(");
    push_str(&mut r, n);
    push_str(&mut r, "_ptr, ");
    push_str(&mut r, n);
    push_str(&mut r, "_len)) {\n            Ok(s) => ");
    push_str(&mut r, if owned { "s.to_string()" } else { "s" });
    push_str(&mut r, ",\n            Err(_) => return crate::fail_with_error(crate::FfiStatus::INVALID_ARG, concat!(stringify!(");
    push_str(&mut r, n);
    push_str(&mut r, "), \" is not valid UTF-8\")),\n        }\n    };\n");
    r
}

/// The entry-point parameters, conversion statements and call arguments
/// of an exported function's typed parameters, in order; a parameter whose
/// pattern is not a plain identifier is left out.
pub fn transform_params(params: &Vec<ExportParam>) -> (r: FfiParams)
    ensures
        views(r.ffi_params@) == flat_map(params@, param_ffi_fn()),
        views(r.conversions@) == flat_map(params@, param_conversion_fn()),
        views(r.call_args@) == flat_map(params@, param_call_arg_fn()),
{
    let mut ffi_params: Vec<String> = Vec::new();
    let mut conversions: Vec<String> = Vec::new();
    let mut call_args: Vec<String> = Vec::new();
    let mut i: usize = 0;
    while i < params.len()
        invariant
            i <= params@.len(),
            views(ffi_params@) == flat_map(params@.take(i as int), param_ffi_fn()),
            views(conversions@) == flat_map(params@.take(i as int), param_conversion_fn()),
            views(call_args@) == flat_map(params@.take(i as int), param_call_arg_fn()),
        decreases params@.len() - i,
    {
        proof {
            lemma_flat_map_step(params@, param_ffi_fn(), i as int);
            lemma_flat_map_step(params@, param_conversion_fn(), i as int);
            lemma_flat_map_step(params@, param_call_arg_fn(), i as int);
        }
        let p = &params[i];
        let ghost f0 = ffi_params@;
        let ghost c0 = conversions@;
        let ghost a0 = call_args@;
        match &p.name {
            None => {
                assert(views(ffi_params@) =~= views(f0) + param_ffi(*p));
                assert(views(conversions@) =~= views(c0) + param_conversion(*p));
                assert(views(call_args@) =~= views(a0) + param_call_arg(*p));
            },
            Some(name) => {
                let kind = classify_string_param(&p.type_text);
                match kind {
                    StringParamKind::Plain => {
                        ffi_params.push(concat3(name.as_str(), ": ", p.type_text.as_str()));
                        assert(views(ffi_params@) =~= views(f0) + param_ffi(*p));
                        assert(views(conversions@) =~= views(c0) + param_conversion(*p));
                    },
                    _ => {
                        ffi_params.push(concat2(name.as_str(), "_ptr: *const u8"));
                        ffi_params.push(concat2(name.as_str(), "_len: usize"));
                        let owned = kind == StringParamKind::OwnedString;
                        conversions.push(string_conversion(name, owned));
                        assert(views(ffi_params@) =~= views(f0) + param_ffi(*p));
                        assert(views(conversions@) =~= views(c0) + param_conversion(*p));
                    },
                }
                call_args.push(copy_string(name));
                assert(views(call_args@) =~= views(a0) + param_call_arg(*p));
            },
        }
        i = i + 1;
    }
    assert(params@.take(i as int) =~= params@);
    FfiParams { ffi_params, conversions, call_args }
}

/// `vis` followed by a space, or nothing for an inherited visibility.
pub open spec fn spec_vis_prefix(vis: Seq<char>) -> Seq<char> {
    if vis.len() == 0 {
        Seq::empty()
    } else {
        vis + " "@
    }
}

/// An unmangled `extern "C"` function item: visibility, `unsafe` when
/// asked, name, parameters, the return part (`ret`, with its arrow) and the
/// body's statements.
pub open spec fn spec_extern_fn(
    vis: Seq<char>,
    is_unsafe: bool,
    ident: Seq<char>,
    params: Seq<Seq<char>>,
    ret: Seq<char>,
    body: Seq<char>,
) -> Seq<char> {
    "#[unsafe(no_mangle)]\n"@ + spec_vis_prefix(vis) + (if is_unsafe {
        "unsafe "@
    } else {
        Seq::empty()
    }) + "extern \"C\" fn "@ + ident + "("@ + seq_join(params, ", "@) + ")"@ + ret + " {\n"@ + body
        + "}\n"@
}

/// The check that returns `NULL_POINTER` when `out` is null.
pub open spec fn spec_out_check() -> Seq<char> {
    "    if out.is_null() {\n        return crate::FfiStatus::NULL_POINTER;\n    }\n"@
}

/// The check that returns `NULL_POINTER` when `dst` or `written` is null.
pub open spec fn spec_dst_check() -> Seq<char> {
    "    if dst.is_null() || written.is_null() {\n        return crate::FfiStatus::NULL_POINTER;\n    }\n"@
}

/// The statements that hand a `Result` back: the value through `out`
/// (stored as `store`), the error's text through the error slot.
pub open spec fn spec_result_match(call: Seq<char>, store: Seq<char>) -> Seq<char> {
    "    match "@ + call + " {\n        Ok(value) => {\n            *out = "@ + store
        + ";\n            crate::FfiStatus::OK\n        }\n        Err(e) => crate::fail_with_error(crate::FfiStatus::INTERNAL_ERROR, &e.to_string())\n    }\n"@
}

/// The statements that copy the returned elements into `dst`, as many as
/// fit, report how many through `written`, and report `BUFFER_TOO_SMALL`
/// when some did not fit.
pub open spec fn spec_copy_items(call: Seq<char>) -> Seq<char> {
    "    let items = "@ + call
        + ";\n    let to_copy = items.len().min(dst_cap);\n    core::ptr::copy_nonoverlapping(items.as_ptr(), dst, to_copy);\n    *written = to_copy;\n    if to_copy < items.len() {\n        crate::FfiStatus::BUFFER_TOO_SMALL\n    } else {\n        crate::FfiStatus::OK\n    }\n"@
}

/// The items that the export attribute adds for `f` (besides `f` itself):
/// `mffi_<name>` taking the converted parameters and, for a string,
/// `Result` or value out-parameter, the out-pointer; for a `Vec<T>` result,
/// `mffi_<name>_len` and `mffi_<name>_copy_into`. The entry points are
/// `unsafe` when they take parameters (for a plain value, when they convert
/// one).
pub open spec fn spec_ffi_export(f: ExportFn) -> Seq<char> {
    let name = f.name@;
    let vis = f.visibility@;
    let ident = "mffi_"@ + name;
    let fp = flat_map(f.params@, param_ffi_fn());
    let conv = flat_map(f.params@, param_conversion_fn());
    let cv = seq_concat(conv);
    let call = name + "("@ + seq_join(flat_map(f.params@, param_call_arg_fn()), ", "@) + ")"@;
    let has_params = fp.len() > 0;
    let kind = spec_classify_return(f.output);
    let status = " -> crate::FfiStatus"@;
    if kind.0 == kind_string() {
        spec_extern_fn(vis, true, ident, fp.push("out: *mut crate::FfiString"@), status,
            spec_out_check() + cv + "    let result = "@ + call
                + ";\n    *out = crate::FfiString::from(result);\n    crate::FfiStatus::OK\n"@)
    } else if kind.0 == kind_result_string() {
        spec_extern_fn(vis, true, ident, fp.push("out: *mut crate::FfiString"@), status,
            spec_out_check() + cv + spec_result_match(call, "crate::FfiString::from(value)"@))
    } else if kind.0 == kind_result_primitive() {
        spec_extern_fn(vis, true, ident, fp.push("out: *mut "@ + kind.1), status,
            spec_out_check() + cv + spec_result_match(call, "value"@))
    } else if kind.0 == kind_unit() {
        spec_extern_fn(vis, has_params, ident, fp, status,
            cv + "    "@ + call + ";\n    crate::FfiStatus::OK\n"@)
    } else if kind.0 == kind_primitive() {
        spec_extern_fn(vis, has_params && conv.len() > 0, ident, fp,
            " -> "@ + f.output->0.text@, cv + "    "@ + call + "\n"@)
    } else {
        spec_extern_fn(vis, has_params, ident + "_len"@, fp, " -> usize"@,
            cv + "    "@ + call + ".len()\n"@) + "\n"@ + spec_extern_fn(vis, true,
            ident + "_copy_into"@,
            fp + seq!["dst: *mut "@ + kind.1, "dst_cap: usize"@, "written: *mut usize"@], status,
            spec_dst_check() + cv + spec_copy_items(call))
    }
}

/// An unmangled `extern "C"` function item.
pub(crate) fn extern_fn(
    vis: &String,
    is_unsafe: bool,
    ident: &String,
    params: &Vec<String>,
    ret: &str,
    body: &String,
) -> (r: String)
    ensures
        r@ == spec_extern_fn(vis@, is_unsafe, ident@, views(params@), ret@, body@),
{
    let mut r = string_of("#[unsafe(no_mangle)]\n");
    if vis.as_str().is_empty() {
        assert(spec_vis_prefix(vis@) =~= Seq::<char>::empty());
    } else {
        push_str(&mut r, vis.as_str());
        push_str(&mut r, " ");
    }
    if is_unsafe {
        push_str(&mut r, "unsafe ");
    }
    push_str(&mut r, "extern \"C\" fn ");
    push_str(&mut r, ident.as_str());
    push_str(&mut r, "(");
    let ps = join(params, ", ");
    push_str(&mut r, ps.as_str());
    push_str(&mut r, ")");
    push_str(&mut r, ret);
    push_str(&mut r, " {\n");
    push_str(&mut r, body.as_str());
    push_str(&mut r, "}\n");
    r
}

/// The call of `name` with the given arguments.
fn call_text(name: &String, args: &Vec<String>) -> (r: String)
    ensures
        r@ == name@ + "("@ + seq_join(views(args@), ", "@) + ")"@,
{
    let a = join(args, ", ");
    let mut r = concat2(name.as_str(), "(");
    push_str(&mut r, a.as_str());
    push_str(&mut r, ")");
    r
}

/// `spec_result_match` as code.
fn result_match(call: &String, store: &str) -> (r: String)
    ensures
        r@ == spec_result_match(call@, store@),
{
    let mut r = string_of("    match ");
    push_str(&mut r, call.as_str());
    push_str(&mut r, " {\n        Ok(value) => {\n            *out = ");
    push_str(&mut r, store);
    push_str(&mut r, ";\n            crate::FfiStatus::OK\n        }\n        Err(e) => crate::fail_with_error(crate::FfiStatus::INTERNAL_ERROR, &e.to_string())\n    }\n");
    r
}

/// `spec_copy_items` as code.
fn copy_items(call: &String) -> (r: String)
    ensures
        r@ == spec_copy_items(call@),
{
    let mut r = string_of("    let items = ");
    push_str(&mut r, call.as_str());
    push_str(&mut r, ";\n    let to_copy = items.len().min(dst_cap);\n    core::ptr::copy_nonoverlapping(items.as_ptr(), dst, to_copy);\n    *written = to_copy;\n    if to_copy < items.len() {\n        crate::FfiStatus::BUFFER_TOO_SMALL\n    } else {\n        crate::FfiStatus::OK\n    }\n");
    r
}

/// The items that the export attribute adds for the function `f`.
#[verifier::rlimit(40)]
pub fn ffi_export(f: &ExportFn) -> (r: String)
    ensures
        r@ == spec_ffi_export(*f),
{
    let vis = &f.visibility;
    let ident = concat2("mffi_", f.name.as_str());
    let FfiParams { ffi_params, conversions, call_args } = transform_params(&f.params);
    let cv = concat_all(&conversions);
    let call = call_text(&f.name, &call_args);
    let has_params = ffi_params.len() > 0;
    let has_conversions = conversions.len() > 0;
    let kind = classify_return(&f.output);
    match kind {
        ReturnKind::String => {
            let mut ps = ffi_params;
            ps.push(string_of("out: *mut crate::FfiString"));
            let mut body = string_of("    if out.is_null() {\n        return crate::FfiStatus::NULL_POINTER;\n    }\n");
            push_str(&mut body, cv.as_str());
            push_str(&mut body, "    let result = ");
            push_str(&mut body, call.as_str());
            push_str(&mut body, ";\n    *out = crate::FfiString::from(result);\n    crate::FfiStatus::OK\n");
            proof {
                assert(views(ps@) =~= flat_map(f.params@, param_ffi_fn()).push("out: *mut crate::FfiString"@));
            }
            extern_fn(vis, true, &ident, &ps, " -> crate::FfiStatus", &body)
        },
        ReturnKind::ResultString => {
            let mut ps = ffi_params;
            ps.push(string_of("out: *mut crate::FfiString"));
            let mut body = string_of("    if out.is_null() {\n        return crate::FfiStatus::NULL_POINTER;\n    }\n");
            push_str(&mut body, cv.as_str());
            let m = result_match(&call, "crate::FfiString::from(value)");
            push_str(&mut body, m.as_str());
            proof {
                assert(views(ps@) =~= flat_map(f.params@, param_ffi_fn()).push("out: *mut crate::FfiString"@));
            }
            extern_fn(vis, true, &ident, &ps, " -> crate::FfiStatus", &body)
        },
        ReturnKind::ResultPrimitive(inner) => {
            let mut ps = ffi_params;
            ps.push(concat2("out: *mut ", inner.as_str()));
            let mut body = string_of("    if out.is_null() {\n        return crate::FfiStatus::NULL_POINTER;\n    }\n");
            push_str(&mut body, cv.as_str());
            let m = result_match(&call, "value");
            push_str(&mut body, m.as_str());
            proof {
                assert(views(ps@) =~= flat_map(f.params@, param_ffi_fn()).push("out: *mut "@ + inner@));
            }
            extern_fn(vis, true, &ident, &ps, " -> crate::FfiStatus", &body)
        },
        ReturnKind::Unit => {
            let mut body = copy_string(&cv);
            push_str(&mut body, "    ");
            push_str(&mut body, call.as_str());
            push_str(&mut body, ";\n    crate::FfiStatus::OK\n");
            extern_fn(vis, has_params, &ident, &ffi_params, " -> crate::FfiStatus", &body)
        },
        ReturnKind::Primitive => {
            let ret = match &f.output {
                Some(t) => concat2(" -> ", t.text.as_str()),
                None => String::new(),
            };
            let mut body = copy_string(&cv);
            push_str(&mut body, "    ");
            push_str(&mut body, call.as_str());
            push_str(&mut body, "\n");
            extern_fn(vis, has_params && has_conversions, &ident, &ffi_params, ret.as_str(), &body)
        },
        ReturnKind::Vec(inner) => {
            let len_ident = concat2(ident.as_str(), "_len");
            let copy_ident = concat2(ident.as_str(), "_copy_into");
            let mut len_body = copy_string(&cv);
            push_str(&mut len_body, "    ");
            push_str(&mut len_body, call.as_str());
            push_str(&mut len_body, ".len()\n");
            let len_fn = extern_fn(vis, has_params, &len_ident, &ffi_params, " -> usize", &len_body);
            let mut ps = ffi_params;
            ps.push(concat2("dst: *mut ", inner.as_str()));
            ps.push(string_of("dst_cap: usize"));
            ps.push(string_of("written: *mut usize"));
            proof {
                assert(views(ps@) =~= flat_map(f.params@, param_ffi_fn()) + seq![
                    "dst: *mut "@ + inner@,
                    "dst_cap: usize"@,
                    "written: *mut usize"@,
                ]);
            }
            let mut copy_body = string_of("    if dst.is_null() || written.is_null() {\n        return crate::FfiStatus::NULL_POINTER;\n    }\n");
            push_str(&mut copy_body, cv.as_str());
            let c = copy_items(&call);
            push_str(&mut copy_body, c.as_str());
            let copy_fn = extern_fn(vis, true, &copy_ident, &ps, " -> crate::FfiStatus", &copy_body);
            let mut r = len_fn;
            push_str(&mut r, "\n");
            push_str(&mut r, copy_fn.as_str());
            r
        },
    }
}

/// Whether `c` has the Unicode `Uppercase` property, as `char::is_uppercase`
/// reports it.
pub uninterp spec fn uppercase_property(c: char) -> bool;

/// Whether `c` is uppercase: among ASCII characters, exactly `A` to `Z`;
/// beyond them, as the Unicode `Uppercase` property says.
pub open spec fn is_uppercase_char(c: char) -> bool {
    if (c as u32) < 128 {
        'A' <= c && c <= 'Z'
    } else {
        uppercase_property(c)
    }
}

/// `char::is_uppercase`: whether `c` has the Unicode `Uppercase` property;
/// among ASCII characters, exactly `A` to `Z` have it.
#[verifier::external_body]
fn char_is_uppercase(c: char) -> (r: bool)
    ensures
        (c as u32) < 128 ==> (r <==> ('A' <= c && c <= 'Z')),
        (c as u32) >= 128 ==> r == uppercase_property(c),
{
    c.is_uppercase()
}

/// `name` in snake case: each uppercase character becomes its ASCII
/// lowercase, preceded by `_` unless it is the first character.
pub open spec fn spec_to_snake_case(name: Seq<char>) -> Seq<char>
    decreases name.len(),
{
    if name.len() == 0 {
        Seq::empty()
    } else {
        let c = name.last();
        let front = spec_to_snake_case(name.drop_last());
        if is_uppercase_char(c) {
            front + (if name.len() > 1 {
                seq!['_']
            } else {
                Seq::empty()
            }) + seq![ascii_lower(c)]
        } else {
            front.push(c)
        }
    }
}

/// `name` in snake case, as the export attributes name a type's entry
/// points.
pub fn to_snake_case(name: &str) -> (r: String)
    ensures
        r@ == spec_to_snake_case(name@),
{
    let cs = chars_of(name);
    let mut r = String::new();
    let mut i: usize = 0;
    while i < cs.len()
        invariant
            i <= cs@.len(),
            cs@ == name@,
            r@ == spec_to_snake_case(cs@.take(i as int)),
        decreases cs@.len() - i,
    {
        let c = cs[i];
        proof {
            assert(cs@.take(i + 1).drop_last() =~= cs@.take(i as int));
            assert(cs@.take(i + 1).last() == c);
        }
        if char_is_uppercase(c) {
            if i > 0 {
                push_char(&mut r, '_');
            }
            push_char(&mut r, to_ascii_lower(c));
        } else {
            push_char(&mut r, c);
        }
        i = i + 1;
    }
    assert(cs@.take(i as int) =~= cs@);
    r
}

/// A method of an exported type: name, whether it is `pub`, whether its
/// first parameter is a receiver, its typed parameters after that, and the
/// token text of its declared return type.
#[derive(Debug)]
pub struct ExportMethod {
    pub name: String,
    pub is_pub: bool,
    pub has_receiver: bool,
    pub params: Vec<ExportParam>,
    pub output: Option<String>,
}

/// An `impl` block of an exported type: the type's name when it is written
/// as a path, and the functions of the block.
#[derive(Debug)]
pub struct ExportClass {
    pub ty_name: Option<String>,
    pub methods: Vec<ExportMethod>,
}

/// Why the export attribute of a type failed.
#[derive(Debug, PartialEq, Eq, Structural)]
pub enum FfiClassError {
    UnnamedType,
}

impl FfiClassError {
    /// The message that reports the error.
    pub fn message(&self) -> (r: String)
        ensures
            r@ == "ffi_class requires a named type"@,
    {
        string_of("ffi_class requires a named type")
    }
}

/// The parameter text of a typed parameter: its pattern and type.
pub open spec fn spec_param_decl(p: ExportParam) -> Seq<char> {
    p.pattern@ + ": "@ + p.type_text@
}

/// The parameter declarations of the typed parameters.
pub open spec fn param_decls(ps: Seq<ExportParam>) -> Seq<Seq<char>> {
    ps.map_values(|p: ExportParam| spec_param_decl(p))
}

/// The entry point of a `pub` method that takes a receiver: it takes the
/// handle and the method's parameters and calls the method on the handle
/// with the parameters that are plain identifiers.
pub open spec fn spec_method_export(ty_name: Seq<char>, snake: Seq<char>, m: ExportMethod) -> Seq<
    char,
> {
    spec_extern_fn(
        "pub"@,
        true,
        "mffi_"@ + snake + "_"@ + m.name@,
        seq!["handle: *mut "@ + ty_name] + param_decls(m.params@),
        match m.output {
            Some(t) => " -> "@ + t@,
            None => Seq::empty(),
        },
        "    (*handle)."@ + m.name@ + "("@ + seq_join(flat_map(m.params@, param_call_arg_fn()), ", "@)
            + ")\n"@,
    )
}

/// The entry point of one method, when it gets one: a `pub` method with a
/// receiver.
pub open spec fn method_items(ty_name: Seq<char>, snake: Seq<char>, m: ExportMethod) -> Seq<
    Seq<char>,
> {
    if m.is_pub && m.has_receiver {
        seq![spec_method_export(ty_name, snake, m)]
    } else {
        Seq::empty()
    }
}

/// `method_items` as a function value.
pub open spec fn method_items_fn(ty_name: Seq<char>, snake: Seq<char>) -> spec_fn(ExportMethod) -> Seq<
    Seq<char>,
> {
    |m: ExportMethod| method_items(ty_name, snake, m)
}

/// The constructor entry point `mffi_<snake>_new` of a type.
pub open spec fn spec_new_fn(ty_name: Seq<char>, snake: Seq<char>) -> Seq<char> {
    spec_extern_fn("pub"@, false, "mffi_"@ + snake + "_new"@, Seq::empty(), " -> *mut "@ + ty_name,
        "    Box::into_raw(Box::new("@ + ty_name + "::new()))\n"@)
}

/// The destructor entry point `mffi_<snake>_free` of a type.
pub open spec fn spec_free_fn(ty_name: Seq<char>, snake: Seq<char>) -> Seq<char> {
    spec_extern_fn("pub"@, true, "mffi_"@ + snake + "_free"@, seq!["handle: *mut "@ + ty_name],
        Seq::empty(),
        "    if !handle.is_null() {\n        drop(Box::from_raw(handle));\n    }\n"@)
}

/// The items that the export attribute adds for a type's `impl` block:
/// constructor, destructor, then the entry point of each `pub` method with
/// a receiver, in order, separated by blank lines.
pub open spec fn spec_ffi_class(ty_name: Seq<char>, methods: Seq<ExportMethod>) -> Seq<char> {
    let snake = spec_to_snake_case(ty_name);
    seq_join(
        seq![spec_new_fn(ty_name, snake), spec_free_fn(ty_name, snake)] + flat_map(
            methods,
            method_items_fn(ty_name, snake),
        ),
        "\n"@,
    )
}

/// The entry point of a method of the type `ty_name`, whose snake-case
/// name is `snake`; none for a method without a receiver.
pub fn generate_method_export(ty_name: &String, snake: &String, method: &ExportMethod) -> (r:
    Option<String>)
    ensures
        match r {
            Some(t) => method.has_receiver && t@ == spec_method_export(ty_name@, snake@, *method),
            None => !method.has_receiver,
        },
{
    if !method.has_receiver {
        return None;
    }
    let mut ident = concat3("mffi_", snake.as_str(), "_");
    push_str(&mut ident, method.name.as_str());
    let mut params: Vec<String> = Vec::new();
    params.push(concat2("handle: *mut ", ty_name.as_str()));
    let mut idents: Vec<String> = Vec::new();
    let mut i: usize = 0;
    while i < method.params.len()
        invariant
            i <= method.params@.len(),
            views(params@) == seq!["handle: *mut "@ + ty_name@] + param_decls(method.params@.take(i as int)),
            views(idents@) == flat_map(method.params@.take(i as int), param_call_arg_fn()),
        decreases method.params@.len() - i,
    {
        proof {
            lemma_flat_map_step(method.params@, param_call_arg_fn(), i as int);
        }
        let p = &method.params[i];
        let ghost p0 = params@;
        let ghost a0 = idents@;
        params.push(concat3(p.pattern.as_str(), ": ", p.type_text.as_str()));
        proof {
            assert(param_decls(method.params@.take(i + 1)) =~= param_decls(method.params@.take(i as int)).push(spec_param_decl(*p)));
            assert(views(params@) =~= views(p0).push(spec_param_decl(*p)));
        }
        match &p.name {
            Some(n) => {
                idents.push(copy_string(n));
            },
            None => {},
        }
        assert(views(idents@) =~= views(a0) + param_call_arg(*p));
        i = i + 1;
    }
    assert(method.params@.take(i as int) =~= method.params@);
    let ret = match &method.output {
        Some(t) => concat2(" -> ", t.as_str()),
        None => String::new(),
    };
    let a = join(&idents, ", ");
    let mut body = string_of("    (*handle).");
    push_str(&mut body, method.name.as_str());
    push_str(&mut body, "(");
    push_str(&mut body, a.as_str());
    push_str(&mut body, ")\n");
    let vis = string_of("pub");
    Some(extern_fn(&vis, true, &ident, &params, ret.as_str(), &body))
}

/// The items that the export attribute adds for a type's `impl` block; an
/// error when the type is not written as a path.
pub fn ffi_class(class: &ExportClass) -> (r: Result<String, FfiClassError>)
    ensures
        match class.ty_name {
            Some(t) => r matches Ok(text) && text@ == spec_ffi_class(t@, class.methods@),
            None => r == Err::<String, FfiClassError>(FfiClassError::UnnamedType),
        },
{
    let ty_name = match &class.ty_name {
        Some(t) => t,
        None => {
            return Err(FfiClassError::UnnamedType);
        },
    };
    let snake = to_snake_case(ty_name.as_str());
    let ghost tn = ty_name@;
    let ghost sn = snake@;
    let mut items: Vec<String> = Vec::new();
    let new_ident = concat3("mffi_", snake.as_str(), "_new");
    let new_body = concat3("    Box::into_raw(Box::new(", ty_name.as_str(), "::new()))\n");
    let no_params: Vec<String> = Vec::new();
    let pub_vis = string_of("pub");
    let new_ret = concat2(" -> *mut ", ty_name.as_str());
    assert(views(no_params@) =~= Seq::<Seq<char>>::empty());
    items.push(extern_fn(&pub_vis, false, &new_ident, &no_params, new_ret.as_str(), &new_body));
    let free_ident = concat3("mffi_", snake.as_str(), "_free");
    let mut free_params: Vec<String> = Vec::new();
    free_params.push(concat2("handle: *mut ", ty_name.as_str()));
    assert(views(free_params@) =~= seq!["handle: *mut "@ + tn]);
    let free_body = string_of("    if !handle.is_null() {\n        drop(Box::from_raw(handle));\n    }\n");
    items.push(extern_fn(&pub_vis, true, &free_ident, &free_params, "", &free_body));
    proof {
        reveal_strlit("");
        assert(items@[0]@ == spec_new_fn(tn, sn));
        assert(items@[1]@ == spec_free_fn(tn, sn));
    }
    assert(views(items@) =~= seq![spec_new_fn(tn, sn), spec_free_fn(tn, sn)]);
    let mut i: usize = 0;
    while i < class.methods.len()
        invariant
            i <= class.methods@.len(),
            tn == ty_name@,
            sn == snake@,
            sn == spec_to_snake_case(tn),
            views(items@) == seq![spec_new_fn(tn, sn), spec_free_fn(tn, sn)] + flat_map(
                class.methods@.take(i as int),
                method_items_fn(tn, sn),
            ),
        decreases class.methods@.len() - i,
    {
        proof {
            lemma_flat_map_step(class.methods@, method_items_fn(tn, sn), i as int);
        }
        let m = &class.methods[i];
        let ghost before = items@;
        if m.is_pub {
            match generate_method_export(ty_name, &snake, m) {
                Some(t) => {
                    items.push(t);
                },
                None => {},
            }
        }
        assert(views(items@) =~= views(before) + method_items(tn, sn, *m));
        i = i + 1;
    }
    assert(class.methods@.take(i as int) =~= class.methods@);
    Ok(join(&items, "\n"))
}

/// An attribute of a type that derives the FFI marker: whether its path is
/// the single identifier `repr`, and its argument when that parses as one
/// identifier.
#[derive(Debug)]
pub struct AttrInfo {
    pub is_repr: bool,
    pub ident_arg: Option<String>,
}

/// Whether one of the attributes is `#[repr(C)]`.
pub open spec fn spec_has_repr_c(attrs: Seq<AttrInfo>) -> bool {
    exists|i: int| 0 <= i < attrs.len() && attrs[i].is_repr && (attrs[i].ident_arg matches Some(a) && a@ == "C"@)
}

/// What deriving the FFI marker adds: nothing, for a type that carries
/// `#[repr(C)]`; else an error that says the attribute is required.
pub fn derive_ffi_type(attrs: &Vec<AttrInfo>) -> (r: Result<String, String>)
    ensures
        match r {
            Ok(text) => spec_has_repr_c(attrs@) && text@ == Seq::<char>::empty(),
            Err(msg) => !spec_has_repr_c(attrs@) && msg@ == "FfiType requires #[repr(C)]"@,
        },
{
    let mut i: usize = 0;
    while i < attrs.len()
        invariant
            i <= attrs@.len(),
            forall|k: int| 0 <= k < i ==> !(#[trigger] attrs@[k].is_repr && (attrs@[k].ident_arg matches Some(a) && a@ == "C"@)),
        decreases attrs@.len() - i,
    {
        let a = &attrs[i];
        if a.is_repr {
            match &a.ident_arg {
                Some(arg) => {
                    if text_is(arg, "C") {
                        return Ok(String::new());
                    }
                },
                None => {},
            }
        }
        i = i + 1;
    }
    Err(string_of("FfiType requires #[repr(C)]"))
}

/// Every parameter of the entry point comes from a call argument or a
/// conversion: a plain parameter passes as itself, a string one as a
/// pointer and a length with one conversion.
pub proof fn lemma_ffi_param_count(params: Seq<ExportParam>)
    ensures
        flat_map(params, param_ffi_fn()).len() == flat_map(params, param_call_arg_fn()).len()
            + flat_map(params, param_conversion_fn()).len(),
    decreases params.len(),
{
    if params.len() > 0 {
        lemma_ffi_param_count(params.drop_last());
    }
}

/// A name without ASCII capitals, made only of ASCII characters, is its own
/// snake case.
pub proof fn lemma_snake_case_of_lowercase(name: Seq<char>)
    requires
        forall|i: int| 0 <= i < name.len() ==> (name[i] as u32) < 128 && !('A' <= #[trigger] name[i] && name[i] <= 'Z'),
    ensures
        spec_to_snake_case(name) == name,
    decreases name.len(),
{
    if name.len() > 0 {
        assert forall|i: int| 0 <= i < name.drop_last().len() implies (name.drop_last()[i] as u32) < 128
            && !('A' <= #[trigger] name.drop_last()[i] && name.drop_last()[i] <= 'Z') by {
            assert(name.drop_last()[i] == name[i]);
        }
        lemma_snake_case_of_lowercase(name.drop_last());
        let c = name.last();
        assert(c == name[name.len() - 1]);
        assert(name.drop_last().push(c) =~= name);
    }
}

/// How a parameter was first classified: a borrowed string, by its name
/// (`arg` when the pattern is no plain identifier), or anything else, kept
/// as it is written.
#[derive(Debug)]
pub enum ParamKind {
    StrRef(String),
    Primitive { pattern: String, type_text: String },
}

/// Whether `pat` occurs somewhere in `s`.
fn has_substring(s: &Vec<char>, pat: &Vec<char>) -> (r: bool)
    requires
        s@.len() < usize::MAX,
    ensures
        r == occurs_in(s@, pat@),
{
    let mut i: usize = 0;
    while i <= s.len()
        invariant
            i <= s@.len() + 1,
            s@.len() < usize::MAX,
            forall|k: int| 0 <= k < i ==> !pat@.is_prefix_of(#[trigger] s@.skip(k)),
        decreases s@.len() + 1 - i,
    {
        if crate::text::occurs_at(s, i, pat) {
            return true;
        }
        i = i + 1;
    }
    false
}

/// Whether the type text, without spaces, mentions a borrowed string.
pub open spec fn mentions_str_ref(ty: Seq<char>) -> bool {
    let t = no_spaces(ty);
    occurs_in(t, "&str"@) || (occurs_in(t, "&'"@) && occurs_in(t, "str"@))
}

/// How a parameter was first classified: a borrowed string when its type
/// mentions `&str` (or a lifetime and `str`), anything else otherwise.
pub fn classify_param(p: &ExportParam) -> (r: ParamKind)
    requires
        p.type_text@.len() < usize::MAX,
    ensures
        match r {
            ParamKind::StrRef(n) => mentions_str_ref(p.type_text@) && n@ == (match p.name {
                Some(name) => name@,
                None => "arg"@,
            }),
            ParamKind::Primitive { pattern, type_text } => !mentions_str_ref(p.type_text@)
                && pattern@ == p.pattern@ && type_text@ == p.type_text@,
        },
{
    let t = strip_spaces(&p.type_text);
    let cs = chars_of(t.as_str());
    proof {
        assert(no_spaces(p.type_text@).len() <= p.type_text@.len()) by {
            p.type_text@.lemma_filter_len(not_space());
        }
    }
    let is_ref = has_substring(&cs, &chars_of("&str"))
        || (has_substring(&cs, &chars_of("&'")) && has_substring(&cs, &chars_of("str")));
    if is_ref {
        let name = match &p.name {
            Some(n) => copy_string(n),
            None => string_of("arg"),
        };
        ParamKind::StrRef(name)
    } else {
        ParamKind::Primitive { pattern: copy_string(&p.pattern), type_text: copy_string(&p.type_text) }
    }
}

/// An entry point declares its name: `fn <ident>(` occurs in its text.
pub proof fn lemma_extern_fn_declares(
    vis: Seq<char>,
    is_unsafe: bool,
    ident: Seq<char>,
    params: Seq<Seq<char>>,
    ret: Seq<char>,
    body: Seq<char>,
)
    ensures
        occurs_in(spec_extern_fn(vis, is_unsafe, ident, params, ret, body), "fn "@ + ident + "("@),
{
    reveal_strlit("extern \"C\" fn ");
    reveal_strlit("extern \"C\" ");
    reveal_strlit("fn ");
    let head = "#[unsafe(no_mangle)]\n"@ + spec_vis_prefix(vis) + (if is_unsafe {
        "unsafe "@
    } else {
        Seq::empty()
    }) + "extern \"C\" "@;
    let tail = seq_join(params, ", "@) + ")"@ + ret + " {\n"@ + body + "}\n"@;
    assert("extern \"C\" fn "@ =~= "extern \"C\" "@ + "fn "@);
    assert(spec_extern_fn(vis, is_unsafe, ident, params, ret, body) =~= head + ("fn "@ + ident + "("@)
        + tail);
    crate::text::lemma_occurs_middle(head, "fn "@ + ident + "("@, tail);
}

/// The export attribute gives every function an entry point `mffi_<name>`,
/// or, for a function returning a vector, `mffi_<name>_len` and
/// `mffi_<name>_copy_into`.
pub proof fn lemma_export_declares_entry(f: ExportFn)
    ensures
        spec_classify_return(f.output).0 != kind_vec() ==> occurs_in(
            spec_ffi_export(f),
            "fn "@ + ("mffi_"@ + f.name@) + "("@,
        ),
        spec_classify_return(f.output).0 == kind_vec() ==> occurs_in(
            spec_ffi_export(f),
            "fn "@ + ("mffi_"@ + f.name@ + "_len"@) + "("@,
        ) && occurs_in(spec_ffi_export(f), "fn "@ + ("mffi_"@ + f.name@ + "_copy_into"@) + "("@),
{
    let name = f.name@;
    let vis = f.visibility@;
    let ident = "mffi_"@ + name;
    let fp = flat_map(f.params@, param_ffi_fn());
    let conv = flat_map(f.params@, param_conversion_fn());
    let cv = seq_concat(conv);
    let call = name + "("@ + seq_join(flat_map(f.params@, param_call_arg_fn()), ", "@) + ")"@;
    let has_params = fp.len() > 0;
    let kind = spec_classify_return(f.output);
    let status = " -> crate::FfiStatus"@;
    if kind.0 == kind_string() {
        lemma_extern_fn_declares(vis, true, ident, fp.push("out: *mut crate::FfiString"@), status,
            spec_out_check() + cv + "    let result = "@ + call
                + ";\n    *out = crate::FfiString::from(result);\n    crate::FfiStatus::OK\n"@);
    } else if kind.0 == kind_result_string() {
        lemma_extern_fn_declares(vis, true, ident, fp.push("out: *mut crate::FfiString"@), status,
            spec_out_check() + cv + spec_result_match(call, "crate::FfiString::from(value)"@));
    } else if kind.0 == kind_result_primitive() {
        lemma_extern_fn_declares(vis, true, ident, fp.push("out: *mut "@ + kind.1), status,
            spec_out_check() + cv + spec_result_match(call, "value"@));
    } else if kind.0 == kind_unit() {
        lemma_extern_fn_declares(vis, has_params, ident, fp, status,
            cv + "    "@ + call + ";\n    crate::FfiStatus::OK\n"@);
    } else if kind.0 == kind_primitive() {
        lemma_extern_fn_declares(vis, has_params && conv.len() > 0, ident, fp,
            " -> "@ + f.output->0.text@, cv + "    "@ + call + "\n"@);
    } else {
        let len_fn = spec_extern_fn(vis, has_params, ident + "_len"@, fp, " -> usize"@,
            cv + "    "@ + call + ".len()\n"@);
        let copy_fn = spec_extern_fn(vis, true, ident + "_copy_into"@,
            fp + seq!["dst: *mut "@ + kind.1, "dst_cap: usize"@, "written: *mut usize"@], status,
            spec_dst_check() + cv + spec_copy_items(call));
        lemma_extern_fn_declares(vis, has_params, ident + "_len"@, fp, " -> usize"@,
            cv + "    "@ + call + ".len()\n"@);
        lemma_extern_fn_declares(vis, true, ident + "_copy_into"@,
            fp + seq!["dst: *mut "@ + kind.1, "dst_cap: usize"@, "written: *mut usize"@], status,
            spec_dst_check() + cv + spec_copy_items(call));
        crate::text::lemma_occurs_middle(Seq::empty(), len_fn, "\n"@ + copy_fn);
        assert(Seq::<char>::empty() + len_fn + ("\n"@ + copy_fn) =~= spec_ffi_export(f));
        crate::text::lemma_occurs_trans("fn "@ + (ident + "_len"@) + "("@, len_fn, spec_ffi_export(f));
        crate::text::lemma_occurs_middle(len_fn + "\n"@, copy_fn, Seq::empty());
        assert(len_fn + "\n"@ + copy_fn + Seq::<char>::empty() =~= spec_ffi_export(f));
        crate::text::lemma_occurs_trans("fn "@ + (ident + "_copy_into"@) + "("@, copy_fn, spec_ffi_export(f));
    }
}

/// The export attribute of a type gives it `mffi_<snake>_new` and
/// `mffi_<snake>_free`, and every `pub` method with a receiver an entry
/// point `mffi_<snake>_<method>`, where `<snake>` is the snake case of the
/// type's name.
pub proof fn lemma_class_declares_entries(ty_name: Seq<char>, methods: Seq<ExportMethod>)
    ensures
        occurs_in(
            spec_ffi_class(ty_name, methods),
            "fn "@ + ("mffi_"@ + spec_to_snake_case(ty_name) + "_new"@) + "("@,
        ),
        occurs_in(
            spec_ffi_class(ty_name, methods),
            "fn "@ + ("mffi_"@ + spec_to_snake_case(ty_name) + "_free"@) + "("@,
        ),
        forall|i: int|
            0 <= i < methods.len() && (#[trigger] methods[i]).is_pub && methods[i].has_receiver
                ==> occurs_in(
                spec_ffi_class(ty_name, methods),
                "fn "@ + ("mffi_"@ + spec_to_snake_case(ty_name) + "_"@ + methods[i].name@) + "("@,
            ),
{
    let snake = spec_to_snake_case(ty_name);
    let exports = flat_map(methods, method_items_fn(ty_name, snake));
    let items = seq![spec_new_fn(ty_name, snake), spec_free_fn(ty_name, snake)] + exports;
    let text = spec_ffi_class(ty_name, methods);
    assert(text == seq_join(items, "\n"@));
    lemma_extern_fn_declares("pub"@, false, "mffi_"@ + snake + "_new"@, Seq::empty(), " -> *mut "@ + ty_name,
        "    Box::into_raw(Box::new("@ + ty_name + "::new()))\n"@);
    crate::text::lemma_join_part_occurs(items, "\n"@, 0);
    crate::text::lemma_occurs_trans("fn "@ + ("mffi_"@ + snake + "_new"@) + "("@, items[0], text);
    lemma_extern_fn_declares("pub"@, true, "mffi_"@ + snake + "_free"@, seq!["handle: *mut "@ + ty_name],
        Seq::empty(), "    if !handle.is_null() {\n        drop(Box::from_raw(handle));\n    }\n"@);
    crate::text::lemma_join_part_occurs(items, "\n"@, 1);
    crate::text::lemma_occurs_trans("fn "@ + ("mffi_"@ + snake + "_free"@) + "("@, items[1], text);
    assert forall|i: int|
        0 <= i < methods.len() && (#[trigger] methods[i]).is_pub && methods[i].has_receiver implies occurs_in(
        text,
        "fn "@ + ("mffi_"@ + snake + "_"@ + methods[i].name@) + "("@,
    ) by {
        let m = methods[i];
        let e = spec_method_export(ty_name, snake, m);
        lemma_flat_map_index(methods, method_items_fn(ty_name, snake), i);
        assert(method_items_fn(ty_name, snake)(methods[i])[0] == e);
        assert(exports.contains(e));
        let w = choose|w: int| 0 <= w < exports.len() && exports[w] == e;
        assert(items[2 + w] == e);
        crate::text::lemma_join_part_occurs(items, "\n"@, 2 + w);
        lemma_extern_fn_declares(
            "pub"@,
            true,
            "mffi_"@ + snake + "_"@ + m.name@,
            seq!["handle: *mut "@ + ty_name] + param_decls(m.params@),
            match m.output {
                Some(t) => " -> "@ + t@,
                None => Seq::empty(),
            },
            "    (*handle)."@ + m.name@ + "("@ + seq_join(flat_map(m.params@, param_call_arg_fn()), ", "@)
                + ")\n"@,
        );
        crate::text::lemma_occurs_trans("fn "@ + ("mffi_"@ + snake + "_"@ + m.name@) + "("@, e, text);
    }
}

/// The image of one item is a part of the flattened result.
proof fn lemma_flat_map_index<A, B>(s: Seq<A>, f: spec_fn(A) -> Seq<B>, i: int)
    requires
        0 <= i < s.len(),
    ensures
        forall|k: int| 0 <= k < f(s[i]).len() ==> flat_map(s, f).contains(#[trigger] f(s[i])[k]),
    decreases s.len(),
{
    let n = s.len() - 1;
    let front = flat_map(s.drop_last(), f);
    assert(flat_map(s, f) == front + f(s.last()));
    if i == n {
        assert forall|k: int| 0 <= k < f(s[i]).len() implies flat_map(s, f).contains(#[trigger] f(s[i])[k]) by {
            assert(flat_map(s, f)[front.len() + k] == f(s[i])[k]);
        }
    } else {
        assert(s.drop_last()[i] == s[i]);
        lemma_flat_map_index(s.drop_last(), f, i);
        assert forall|k: int| 0 <= k < f(s[i]).len() implies flat_map(s, f).contains(#[trigger] f(s[i])[k]) by {
            assert(front.contains(f(s[i])[k]));
            let w = choose|w: int| 0 <= w < front.len() && front[w] == f(s[i])[k];
            assert(flat_map(s, f)[w] == front[w]);
        }
    }
}

/// An extern function item holds its whole declaration from `fn` on: the
/// name, the parameters, the return type and the body.
pub proof fn lemma_extern_fn_whole(
    vis: Seq<char>,
    is_unsafe: bool,
    ident: Seq<char>,
    params: Seq<Seq<char>>,
    ret: Seq<char>,
    body: Seq<char>,
)
    ensures
        occurs_in(
            spec_extern_fn(vis, is_unsafe, ident, params, ret, body),
            "fn "@ + ident + "("@ + seq_join(params, ", "@) + ")"@ + ret + " {\n"@ + body + "}\n"@,
        ),
{
    reveal_strlit("extern \"C\" fn ");
    reveal_strlit("extern \"C\" ");
    reveal_strlit("fn ");
    let head = "#[unsafe(no_mangle)]\n"@ + spec_vis_prefix(vis) + (if is_unsafe {
        "unsafe "@
    } else {
        Seq::empty()
    }) + "extern \"C\" "@;
    let whole = "fn "@ + ident + "("@ + seq_join(params, ", "@) + ")"@ + ret + " {\n"@ + body + "}\n"@;
    assert("extern \"C\" fn "@ =~= "extern \"C\" "@ + "fn "@);
    assert(spec_extern_fn(vis, is_unsafe, ident, params, ret, body) =~= head + whole + Seq::<char>::empty());
    crate::text::lemma_occurs_middle(head, whole, Seq::<char>::empty());
}

/// The destructor that the export attribute of a type declares frees the
/// boxed object exactly when the handle is not null: its body is
/// `if !handle.is_null() { drop(Box::from_raw(handle)); }` and nothing else.
pub proof fn lemma_class_destructor_frees_non_null(ty_name: Seq<char>, methods: Seq<ExportMethod>)
    ensures
        occurs_in(
            spec_ffi_class(ty_name, methods),
            "fn "@ + ("mffi_"@ + spec_to_snake_case(ty_name) + "_free"@) + "("@ + ("handle: *mut "@ + ty_name)
                + ")"@ + " {\n"@ + "    if !handle.is_null() {\n        drop(Box::from_raw(handle));\n    }\n"@
                + "}\n"@,
        ),
{
    let snake = spec_to_snake_case(ty_name);
    let ident = "mffi_"@ + snake + "_free"@;
    let params = seq!["handle: *mut "@ + ty_name];
    let body = "    if !handle.is_null() {\n        drop(Box::from_raw(handle));\n    }\n"@;
    lemma_extern_fn_whole("pub"@, true, ident, params, Seq::empty(), body);
    assert(seq_join(params, ", "@) == params[0]);
    assert(")"@ + Seq::<char>::empty() =~= ")"@);
    let exports = flat_map(methods, method_items_fn(ty_name, snake));
    let items = seq![spec_new_fn(ty_name, snake), spec_free_fn(ty_name, snake)] + exports;
    assert(items[1] == spec_free_fn(ty_name, snake));
    crate::text::lemma_join_part_occurs(items, "\n"@, 1);
    let pat = "fn "@ + ident + "("@ + params[0] + ")"@ + " {\n"@ + body + "}\n"@;
    assert(pat =~= "fn "@ + ident + "("@ + seq_join(params, ", "@) + ")"@ + Seq::<char>::empty() + " {\n"@
        + body + "}\n"@);
    crate::text::lemma_occurs_trans(pat, spec_free_fn(ty_name, snake), spec_ffi_class(ty_name, methods));
}

/// A function returning `Result<String, _>` gets an entry point that takes
/// an `FfiString` out-pointer and, on success, writes through it the
/// `FfiString` made from the returned string (as for a plain `String`
/// result), never the string itself.
pub proof fn lemma_result_string_converted(f: ExportFn)
    requires
        f.output matches Some(t) && !is_string_text(no_spaces(t.text@)) && (t.last_segment matches Some(seg)
            && seg@ == "Result"@) && (t.first_type_arg matches Some(a) && is_string_text(no_spaces(a@))),
    ensures
        occurs_in(spec_ffi_export(f), "out: *mut crate::FfiString"@),
        occurs_in(spec_ffi_export(f), "*out = "@ + "crate::FfiString::from(value)"@ + ";"@),
{
    reveal_strlit("Vec");
    reveal_strlit("Result");
    let t = f.output->0;
    assert(t.last_segment->0@ == "Result"@);
    assert("Result"@.len() == 6 && "Vec"@.len() == 3);
    assert(t.last_segment->0@ != "Vec"@);
    let name = f.name@;
    let vis = f.visibility@;
    let ident = "mffi_"@ + name;
    let fp = flat_map(f.params@, param_ffi_fn());
    let cv = seq_concat(flat_map(f.params@, param_conversion_fn()));
    let call = name + "("@ + seq_join(flat_map(f.params@, param_call_arg_fn()), ", "@) + ")"@;
    let store = "crate::FfiString::from(value)"@;
    let body = spec_out_check() + cv + spec_result_match(call, store);
    let ps = fp.push("out: *mut crate::FfiString"@);
    assert(spec_ffi_export(f) == spec_extern_fn(vis, true, ident, ps, " -> crate::FfiStatus"@, body));
    lemma_extern_fn_whole(vis, true, ident, ps, " -> crate::FfiStatus"@, body);
    let whole = "fn "@ + ident + "("@ + seq_join(ps, ", "@) + ")"@ + " -> crate::FfiStatus"@ + " {\n"@ + body
        + "}\n"@;
    // The out-pointer is the last parameter.
    crate::text::lemma_join_part_occurs(ps, ", "@, ps.len() - 1);
    crate::text::lemma_occurs_middle("fn "@ + ident + "("@, seq_join(ps, ", "@), ")"@ + " -> crate::FfiStatus"@
        + " {\n"@ + body + "}\n"@);
    assert(whole =~= "fn "@ + ident + "("@ + seq_join(ps, ", "@) + (")"@ + " -> crate::FfiStatus"@ + " {\n"@
        + body + "}\n"@));
    crate::text::lemma_occurs_trans("out: *mut crate::FfiString"@, seq_join(ps, ", "@), whole);
    crate::text::lemma_occurs_trans("out: *mut crate::FfiString"@, whole, spec_ffi_export(f));
    // The success arm stores the converted value.
    reveal_strlit("    match ");
    reveal_strlit(" {\n        Ok(value) => {\n            *out = ");
    reveal_strlit(" {\n        Ok(value) => {\n            ");
    reveal_strlit("*out = ");
    let open = " {\n        Ok(value) => {\n            *out = "@;
    assert(open =~= " {\n        Ok(value) => {\n            "@ + "*out = "@);
    let rest = ";\n            crate::FfiStatus::OK\n        }\n        Err(e) => crate::fail_with_error(crate::FfiStatus::INTERNAL_ERROR, &e.to_string())\n    }\n"@;
    reveal_strlit(";\n            crate::FfiStatus::OK\n        }\n        Err(e) => crate::fail_with_error(crate::FfiStatus::INTERNAL_ERROR, &e.to_string())\n    }\n");
    reveal_strlit(";");
    reveal_strlit("\n            crate::FfiStatus::OK\n        }\n        Err(e) => crate::fail_with_error(crate::FfiStatus::INTERNAL_ERROR, &e.to_string())\n    }\n");
    assert(rest =~= ";"@ + "\n            crate::FfiStatus::OK\n        }\n        Err(e) => crate::fail_with_error(crate::FfiStatus::INTERNAL_ERROR, &e.to_string())\n    }\n"@);
    let pat = "*out = "@ + store + ";"@;
    let before = "    match "@ + call + " {\n        Ok(value) => {\n            "@;
    let after = "\n            crate::FfiStatus::OK\n        }\n        Err(e) => crate::fail_with_error(crate::FfiStatus::INTERNAL_ERROR, &e.to_string())\n    }\n"@;
    assert(spec_result_match(call, store) =~= before + pat + after);
    crate::text::lemma_occurs_middle(before, pat, after);
    crate::text::lemma_occurs_middle(spec_out_check() + cv, spec_result_match(call, store), Seq::<char>::empty());
    assert(body + Seq::<char>::empty() =~= body);
    crate::text::lemma_occurs_trans(pat, spec_result_match(call, store), body);
    crate::text::lemma_occurs_middle("fn "@ + ident + "("@ + seq_join(ps, ", "@) + ")"@ + " -> crate::FfiStatus"@
        + " {\n"@, body, "}\n"@);
    crate::text::lemma_occurs_trans(pat, body, whole);
    crate::text::lemma_occurs_trans(pat, whole, spec_ffi_export(f));
}

/// A function returning `String` gets an entry point that takes an
/// `FfiString` out-pointer and writes through it the `FfiString` made from
/// the returned string.
pub proof fn lemma_string_result_converted(f: ExportFn)
    requires
        f.output matches Some(t) && is_string_text(no_spaces(t.text@)),
    ensures
        occurs_in(spec_ffi_export(f), "out: *mut crate::FfiString"@),
        occurs_in(spec_ffi_export(f), "*out = "@ + "crate::FfiString::from(result)"@ + ";"@),
{
    let name = f.name@;
    let vis = f.visibility@;
    let ident = "mffi_"@ + name;
    let fp = flat_map(f.params@, param_ffi_fn());
    let cv = seq_concat(flat_map(f.params@, param_conversion_fn()));
    let call = name + "("@ + seq_join(flat_map(f.params@, param_call_arg_fn()), ", "@) + ")"@;
    let tail = ";\n    *out = crate::FfiString::from(result);\n    crate::FfiStatus::OK\n"@;
    let body = spec_out_check() + cv + "    let result = "@ + call + tail;
    let ps = fp.push("out: *mut crate::FfiString"@);
    assert(spec_ffi_export(f) == spec_extern_fn(vis, true, ident, ps, " -> crate::FfiStatus"@, body));
    lemma_extern_fn_whole(vis, true, ident, ps, " -> crate::FfiStatus"@, body);
    let whole = "fn "@ + ident + "("@ + seq_join(ps, ", "@) + ")"@ + " -> crate::FfiStatus"@ + " {\n"@ + body
        + "}\n"@;
    crate::text::lemma_join_part_occurs(ps, ", "@, ps.len() - 1);
    crate::text::lemma_occurs_middle("fn "@ + ident + "("@, seq_join(ps, ", "@), ")"@ + " -> crate::FfiStatus"@
        + " {\n"@ + body + "}\n"@);
    assert(whole =~= "fn "@ + ident + "("@ + seq_join(ps, ", "@) + (")"@ + " -> crate::FfiStatus"@ + " {\n"@
        + body + "}\n"@));
    crate::text::lemma_occurs_trans("out: *mut crate::FfiString"@, seq_join(ps, ", "@), whole);
    crate::text::lemma_occurs_trans("out: *mut crate::FfiString"@, whole, spec_ffi_export(f));
    reveal_strlit(";\n    *out = crate::FfiString::from(result);\n    crate::FfiStatus::OK\n");
    reveal_strlit(";\n    ");
    reveal_strlit("*out = ");
    reveal_strlit("crate::FfiString::from(result)");
    reveal_strlit(";");
    reveal_strlit("\n    crate::FfiStatus::OK\n");
    let pat = "*out = "@ + "crate::FfiString::from(result)"@ + ";"@;
    assert(tail =~= ";\n    "@ + pat + "\n    crate::FfiStatus::OK\n"@);
    let before = spec_out_check() + cv + "    let result = "@ + call + ";\n    "@;
    assert(body =~= before + pat + "\n    crate::FfiStatus::OK\n"@);
    crate::text::lemma_occurs_middle(before, pat, "\n    crate::FfiStatus::OK\n"@);
    crate::text::lemma_occurs_middle("fn "@ + ident + "("@ + seq_join(ps, ", "@) + ")"@ + " -> crate::FfiStatus"@
        + " {\n"@, body, "}\n"@);
    crate::text::lemma_occurs_trans(pat, body, whole);
    crate::text::lemma_occurs_trans(pat, whole, spec_ffi_export(f));
}

} // verus!
