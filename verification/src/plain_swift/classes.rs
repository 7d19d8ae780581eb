//! Plain Swift classes: a handle, initializers, methods and streams that
//! call the C symbols directly.

use vstd::prelude::*;
use crate::case::upper_camel_case;
use crate::model::{
    spec_has_return_value, spec_ok_type, Class, Constructor, ConstructorParam, Method, Module,
    Parameter, Receiver, StreamMethod, Type,
};
use crate::naming::{
    export_member_suffixed, export_member_symbol, export_type_symbol, spec_export_member,
    spec_export_type_prefix,
};
use crate::text::{
    concat2, concat3, concat4, concat_all, join, push_str, render_all, seq_concat, seq_join,
    string_of, views,
};
use crate::swift::names::{swift_member, NamingConvention};
use crate::ffi_macros::{lemma_class_declares_entries, spec_ffi_class, spec_to_snake_case, ExportMethod};
use crate::swift::types::{swift_type_text, TypeMapper};

verus! {

// ---------------------------------------------------------------------------
// Method bodies
// ---------------------------------------------------------------------------

/// The arguments of a call: the handle, then the parameters.
pub open spec fn call_args(args: Seq<Seq<char>>) -> Seq<char> {
    seq_join(seq!["handle"@] + args, ", "@)
}

/// The Swift names of a method's parameters.
pub open spec fn arg_names(ps: Seq<Parameter>) -> Seq<Seq<char>> {
    ps.map_values(|p: Parameter| swift_member(p.name@))
}

/// The Swift type a method's call produces (`Void` when nothing).
pub open spec fn result_type(m: Method) -> Seq<char> {
    match spec_ok_type(m.returns) {
        Some(t) => swift_type_text(t),
        None => "Void"@,
    }
}

/// The body of a synchronous method.
pub struct SyncMethodBodyTemplate {
    pub ffi_name: String,
    pub args: Vec<String>,
    pub has_return: bool,
}

/// The body of a fallible method.
pub struct ThrowingMethodBodyTemplate {
    pub ffi_name: String,
    pub args: Vec<String>,
    pub return_type: String,
}

/// The body of an async method.
pub struct AsyncMethodBodyTemplate {
    pub ffi_name: String,
    pub ffi_poll: String,
    pub ffi_complete: String,
    pub ffi_cancel: String,
    pub ffi_free: String,
    pub args: Vec<String>,
    pub return_type: String,
}

/// The body of a fallible async method.
pub struct AsyncThrowingMethodBodyTemplate {
    pub ffi_name: String,
    pub ffi_poll: String,
    pub ffi_complete: String,
    pub ffi_cancel: String,
    pub ffi_free: String,
    pub args: Vec<String>,
    pub return_type: String,
}

/// The synchronous body.
pub open spec fn sync_body_text(t: SyncMethodBodyTemplate) -> Seq<char> {
    "        "@ + (if t.has_return {
        "return "@
    } else {
        ""@
    }) + t.ffi_name@ + "("@ + call_args(views(t.args@)) + ")\n"@
}

/// The fallible body.
pub open spec fn throwing_body_text(t: ThrowingMethodBodyTemplate) -> Seq<char> {
    "        return try callThrowing("@ + t.return_type@ + ".self) { status in "@ + t.ffi_name@ + "("@
        + call_args(views(t.args@)) + ", status) }\n"@
}

/// The part of an async body after the keywords.
pub open spec fn async_call_text(
    ffi_name: String,
    poll: String,
    complete: String,
    cancel: String,
    free: String,
    args: Seq<String>,
    return_type: String,
) -> Seq<char> {
    "("@ + return_type@ + ".self, start: "@ + ffi_name@ + "("@ + call_args(views(args)) + "), poll: "@
        + poll@ + ", complete: "@ + complete@ + ", cancel: "@ + cancel@ + ", free: "@ + free@ + ")\n"@
}

/// The async body.
pub open spec fn async_body_text(t: AsyncMethodBodyTemplate) -> Seq<char> {
    "        return await callAsync"@ + async_call_text(
        t.ffi_name,
        t.ffi_poll,
        t.ffi_complete,
        t.ffi_cancel,
        t.ffi_free,
        t.args@,
        t.return_type,
    )
}

/// The fallible async body.
pub open spec fn async_throwing_body_text(t: AsyncThrowingMethodBodyTemplate) -> Seq<char> {
    "        return try await callAsyncThrowing"@ + async_call_text(
        t.ffi_name,
        t.ffi_poll,
        t.ffi_complete,
        t.ffi_cancel,
        t.ffi_free,
        t.args@,
        t.return_type,
    )
}

/// The async part of a body for method `m` of class `c`.
pub open spec fn async_call_of(m: Method, c: Seq<char>) -> Seq<char> {
    let f = spec_export_member(c, m.name@);
    "("@ + result_type(m) + ".self, start: "@ + f + "("@ + call_args(arg_names(m.inputs@))
        + "), poll: "@ + f + "_poll"@ + ", complete: "@ + f + "_complete"@ + ", cancel: "@ + f
        + "_cancel"@ + ", free: "@ + f + "_free"@ + ")\n"@
}

/// The body of method `m` of class `c`: async or not, fallible or not.
pub open spec fn method_body_of(m: Method, c: Seq<char>) -> Seq<char> {
    let f = spec_export_member(c, m.name@);
    let args = call_args(arg_names(m.inputs@));
    if m.is_async {
        if m.returns is Fallible {
            "        return try await callAsyncThrowing"@ + async_call_of(m, c)
        } else {
            "        return await callAsync"@ + async_call_of(m, c)
        }
    } else if m.returns is Fallible {
        "        return try callThrowing("@ + result_type(m) + ".self) { status in "@ + f + "("@ + args
            + ", status) }\n"@
    } else {
        "        "@ + (if spec_has_return_value(m.returns) {
            "return "@
        } else {
            ""@
        }) + f + "("@ + args + ")\n"@
    }
}

/// The Swift names of the parameters.
fn param_names(inputs: &Vec<Parameter>) -> (r: Vec<String>)
    ensures
        views(r@) == arg_names(inputs@),
{
    let mut r: Vec<String> = Vec::new();
    let mut i: usize = 0;
    while i < inputs.len()
        invariant
            i <= inputs@.len(),
            views(r@) == arg_names(inputs@.take(i as int)),
        decreases inputs@.len() - i,
    {
        let ghost before = views(r@);
        r.push(NamingConvention::param_name(inputs[i].name.as_str()));
        assert(views(r@) =~= before.push(swift_member(inputs@[i as int].name@)));
        assert(arg_names(inputs@.take(i + 1)) =~= arg_names(inputs@.take(i as int)).push(
            swift_member(inputs@[i as int].name@),
        ));
        i = i + 1;
    }
    assert(inputs@.take(i as int) =~= inputs@);
    r
}

/// The arguments of a call: the handle, then `args`.
fn render_call_args(args: &Vec<String>) -> (r: String)
    ensures
        r@ == call_args(views(args@)),
{
    let mut all: Vec<String> = Vec::new();
    all.push(string_of("handle"));
    let mut i: usize = 0;
    while i < args.len()
        invariant
            i <= args@.len(),
            views(all@) == seq!["handle"@] + views(args@.take(i as int)),
        decreases args@.len() - i,
    {
        let ghost before = views(all@);
        all.push(crate::text::copy_string(&args[i]));
        assert(views(all@) =~= before.push(args@[i as int]@));
        assert(views(args@.take(i + 1)) =~= views(args@.take(i as int)).push(args@[i as int]@));
        i = i + 1;
    }
    assert(args@.take(i as int) =~= args@);
    join(&all, ", ")
}

/// The Swift type a method's call produces.
fn render_result_type(method: &Method) -> (r: String)
    ensures
        r@ == result_type(*method),
{
    match method.returns.ok_type() {
        Some(t) => TypeMapper::map_type(t),
        None => string_of("Void"),
    }
}

impl SyncMethodBodyTemplate {
    /// The body of a synchronous method of `class`.
    pub fn from_method(method: &Method, class: &Class, module: &Module) -> (r: Self)
        ensures
            r.ffi_name@ == spec_export_member(class.name@, method.name@),
            views(r.args@) == arg_names(method.inputs@),
            r.has_return == spec_has_return_value(method.returns),
    {
        SyncMethodBodyTemplate {
            ffi_name: export_member_symbol(class.name.as_str(), method.name.as_str()),
            args: param_names(&method.inputs),
            has_return: method.returns.has_return_value(),
        }
    }

    /// The body's text.
    pub fn render(&self) -> (r: String)
        ensures
            r@ == sync_body_text(*self),
    {
        let args = render_call_args(&self.args);
        let mut r = string_of("        ");
        if self.has_return {
            push_str(&mut r, "return ");
        } else {
            push_str(&mut r, "");
        }
        push_str(&mut r, self.ffi_name.as_str());
        push_str(&mut r, "(");
        push_str(&mut r, args.as_str());
        push_str(&mut r, ")\n");
        r
    }
}

impl ThrowingMethodBodyTemplate {
    /// The body of a fallible method of `class`.
    pub fn from_method(method: &Method, class: &Class, module: &Module) -> (r: Self)
        ensures
            r.ffi_name@ == spec_export_member(class.name@, method.name@),
            views(r.args@) == arg_names(method.inputs@),
            r.return_type@ == result_type(*method),
    {
        ThrowingMethodBodyTemplate {
            ffi_name: export_member_symbol(class.name.as_str(), method.name.as_str()),
            args: param_names(&method.inputs),
            return_type: render_result_type(method),
        }
    }

    /// The body's text.
    pub fn render(&self) -> (r: String)
        ensures
            r@ == throwing_body_text(*self),
    {
        let args = render_call_args(&self.args);
        let mut r = concat3("        return try callThrowing(", self.return_type.as_str(), ".self) { status in ");
        push_str(&mut r, self.ffi_name.as_str());
        push_str(&mut r, "(");
        push_str(&mut r, args.as_str());
        push_str(&mut r, ", status) }\n");
        r
    }
}

/// The part of an async body after the keywords.
fn render_async_call(
    ffi_name: &String,
    poll: &String,
    complete: &String,
    cancel: &String,
    free: &String,
    args: &Vec<String>,
    return_type: &String,
) -> (r: String)
    ensures
        r@ == async_call_text(*ffi_name, *poll, *complete, *cancel, *free, args@, *return_type),
{
    let a = render_call_args(args);
    let mut r = concat4("(", return_type.as_str(), ".self, start: ", ffi_name.as_str());
    push_str(&mut r, "(");
    push_str(&mut r, a.as_str());
    push_str(&mut r, "), poll: ");
    push_str(&mut r, poll.as_str());
    push_str(&mut r, ", complete: ");
    push_str(&mut r, complete.as_str());
    push_str(&mut r, ", cancel: ");
    push_str(&mut r, cancel.as_str());
    push_str(&mut r, ", free: ");
    push_str(&mut r, free.as_str());
    push_str(&mut r, ")\n");
    r
}

/// Whether the async symbols are those of method `m` of class `c`.
pub open spec fn async_symbols(
    ffi_name: String,
    poll: String,
    complete: String,
    cancel: String,
    free: String,
    c: Seq<char>,
    m: Seq<char>,
) -> bool {
    &&& ffi_name@ == spec_export_member(c, m)
    &&& poll@ == spec_export_member(c, m) + "_poll"@
    &&& complete@ == spec_export_member(c, m) + "_complete"@
    &&& cancel@ == spec_export_member(c, m) + "_cancel"@
    &&& free@ == spec_export_member(c, m) + "_free"@
}

impl AsyncMethodBodyTemplate {
    /// The body of an async method of `class`.
    pub fn from_method(method: &Method, class: &Class, module: &Module) -> (r: Self)
        ensures
            async_symbols(r.ffi_name, r.ffi_poll, r.ffi_complete, r.ffi_cancel, r.ffi_free, class.name@, method.name@),
            views(r.args@) == arg_names(method.inputs@),
            r.return_type@ == result_type(*method),
    {
        let c = class.name.as_str();
        let m = method.name.as_str();
        AsyncMethodBodyTemplate {
            ffi_name: export_member_symbol(c, m),
            ffi_poll: export_member_suffixed(c, m, "_poll"),
            ffi_complete: export_member_suffixed(c, m, "_complete"),
            ffi_cancel: export_member_suffixed(c, m, "_cancel"),
            ffi_free: export_member_suffixed(c, m, "_free"),
            args: param_names(&method.inputs),
            return_type: render_result_type(method),
        }
    }

    /// The body's text.
    pub fn render(&self) -> (r: String)
        ensures
            r@ == async_body_text(*self),
    {
        let call = render_async_call(
            &self.ffi_name,
            &self.ffi_poll,
            &self.ffi_complete,
            &self.ffi_cancel,
            &self.ffi_free,
            &self.args,
            &self.return_type,
        );
        concat2("        return await callAsync", call.as_str())
    }
}

impl AsyncThrowingMethodBodyTemplate {
    /// The body of a fallible async method of `class`.
    pub fn from_method(method: &Method, class: &Class, module: &Module) -> (r: Self)
        ensures
            async_symbols(r.ffi_name, r.ffi_poll, r.ffi_complete, r.ffi_cancel, r.ffi_free, class.name@, method.name@),
            views(r.args@) == arg_names(method.inputs@),
            r.return_type@ == result_type(*method),
    {
        let c = class.name.as_str();
        let m = method.name.as_str();
        AsyncThrowingMethodBodyTemplate {
            ffi_name: export_member_symbol(c, m),
            ffi_poll: export_member_suffixed(c, m, "_poll"),
            ffi_complete: export_member_suffixed(c, m, "_complete"),
            ffi_cancel: export_member_suffixed(c, m, "_cancel"),
            ffi_free: export_member_suffixed(c, m, "_free"),
            args: param_names(&method.inputs),
            return_type: render_result_type(method),
        }
    }

    /// The body's text.
    pub fn render(&self) -> (r: String)
        ensures
            r@ == async_throwing_body_text(*self),
    {
        let call = render_async_call(
            &self.ffi_name,
            &self.ffi_poll,
            &self.ffi_complete,
            &self.ffi_cancel,
            &self.ffi_free,
            &self.args,
            &self.return_type,
        );
        concat2("        return try await callAsyncThrowing", call.as_str())
    }
}

/// The body of method `method` of `class`: async or not, fallible or not.
fn render_method_body(method: &Method, class: &Class, module: &Module) -> (r: String)
    ensures
        r@ == method_body_of(*method, class.name@),
{
    if method.is_async {
        if method.throws() {
            AsyncThrowingMethodBodyTemplate::from_method(method, class, module).render()
        } else {
            AsyncMethodBodyTemplate::from_method(method, class, module).render()
        }
    } else if method.throws() {
        ThrowingMethodBodyTemplate::from_method(method, class, module).render()
    } else {
        SyncMethodBodyTemplate::from_method(method, class, module).render()
    }
}

// ---------------------------------------------------------------------------
// Streams
// ---------------------------------------------------------------------------

/// The body of a stream accessor.
pub struct StreamBodyTemplate {
    pub item_type: String,
    pub subscribe_fn: String,
    pub pop_batch_fn: String,
    pub wait_fn: String,
    pub free_fn: String,
}

/// The body of a stream accessor.
pub open spec fn stream_body_text(t: StreamBodyTemplate) -> Seq<char> {
    "        return subscribeStream("@ + t.item_type@ + ".self, subscription: "@ + t.subscribe_fn@
        + "(handle), popBatch: "@ + t.pop_batch_fn@ + ", wait: "@ + t.wait_fn@ + ", free: "@
        + t.free_fn@ + ")\n"@
}

/// The body of the accessor of stream `s` of class `c`.
pub open spec fn stream_body_of(s: StreamMethod, c: Seq<char>) -> Seq<char> {
    let f = spec_export_member(c, s.name@);
    "        return subscribeStream("@ + swift_type_text(s.item_type) + ".self, subscription: "@ + f
        + "_subscribe"@ + "(handle), popBatch: "@ + f + "_pop_batch"@ + ", wait: "@ + f + "_wait"@
        + ", free: "@ + f + "_free"@ + ")\n"@
}

impl StreamBodyTemplate {
    /// The body of the accessor of `stream` of `class`.
    pub fn from_stream(stream: &StreamMethod, class: &Class, module: &Module) -> (r: Self)
        ensures
            r.item_type@ == swift_type_text(stream.item_type),
            r.subscribe_fn@ == spec_export_member(class.name@, stream.name@) + "_subscribe"@,
            r.pop_batch_fn@ == spec_export_member(class.name@, stream.name@) + "_pop_batch"@,
            r.wait_fn@ == spec_export_member(class.name@, stream.name@) + "_wait"@,
            r.free_fn@ == spec_export_member(class.name@, stream.name@) + "_free"@,
    {
        let c = class.name.as_str();
        let s = stream.name.as_str();
        StreamBodyTemplate {
            item_type: TypeMapper::map_type(&stream.item_type),
            subscribe_fn: export_member_suffixed(c, s, "_subscribe"),
            pop_batch_fn: export_member_suffixed(c, s, "_pop_batch"),
            wait_fn: export_member_suffixed(c, s, "_wait"),
            free_fn: export_member_suffixed(c, s, "_free"),
        }
    }

    /// The body's text.
    pub fn render(&self) -> (r: String)
        ensures
            r@ == stream_body_text(*self),
    {
        let mut r = concat3("        return subscribeStream(", self.item_type.as_str(), ".self, subscription: ");
        push_str(&mut r, self.subscribe_fn.as_str());
        push_str(&mut r, "(handle), popBatch: ");
        push_str(&mut r, self.pop_batch_fn.as_str());
        push_str(&mut r, ", wait: ");
        push_str(&mut r, self.wait_fn.as_str());
        push_str(&mut r, ", free: ");
        push_str(&mut r, self.free_fn.as_str());
        push_str(&mut r, ")\n");
        r
    }
}

/// The body of the accessor of `stream` of `class`.
fn render_stream_body(stream: &StreamMethod, class: &Class, module: &Module) -> (r: String)
    ensures
        r@ == stream_body_of(*stream, class.name@),
{
    let t = StreamBodyTemplate::from_stream(stream, class, module);
    let r = t.render();
    assert(r@ =~= stream_body_of(*stream, class.name@));
    r
}

// ---------------------------------------------------------------------------
// Classes
// ---------------------------------------------------------------------------

/// A class over a Rust object.
pub struct ClassTemplate {
    pub class_name: String,
    pub doc: Option<String>,
    pub deprecated: bool,
    pub deprecated_message: Option<String>,
    pub ffi_free: String,
    pub constructors: Vec<ConstructorView>,
    pub methods: Vec<MethodView>,
    pub streams: Vec<StreamView>,
}

/// A parameter of an initializer or method.
pub struct ParamView {
    pub swift_name: String,
    pub swift_type: String,
}

/// An initializer.
pub struct ConstructorView {
    pub doc: Option<String>,
    pub ffi_name: String,
    pub is_failable: bool,
    pub params: Vec<ParamView>,
}

/// A method.
pub struct MethodView {
    pub doc: Option<String>,
    pub deprecated: bool,
    pub deprecated_message: Option<String>,
    pub swift_name: String,
    pub is_static: bool,
    pub is_async: bool,
    pub throws: bool,
    pub return_type: Option<String>,
    pub params: Vec<ParamView>,
    pub body: String,
}

/// A stream accessor.
pub struct StreamView {
    pub doc: Option<String>,
    pub swift_name: String,
    pub item_type: String,
    pub body: String,
}

/// The view of an optional string.
pub open spec fn opt_text(o: Option<String>) -> Option<Seq<char>> {
    match o {
        Some(s) => Some(s@),
        None => None,
    }
}

/// Whether `v` is the view of parameter `name` of type `t`.
pub open spec fn param_view_of(v: ParamView, name: Seq<char>, t: Type) -> bool {
    v.swift_name@ == swift_member(name) && v.swift_type@ == swift_type_text(t)
}

/// Whether `v` is the initializer of constructor `k` of class `c`.
pub open spec fn ctor_view_of(v: ConstructorView, k: Constructor, c: Seq<char>) -> bool {
    &&& opt_text(v.doc) == opt_text(k.doc)
    &&& v.ffi_name@ == (if k.name@ == "new"@ {
        spec_export_type_prefix(c) + "_new"@
    } else {
        spec_export_member(c, k.name@)
    })
    &&& !v.is_failable
    &&& v.params@.len() == k.inputs@.len()
    &&& forall|i: int|
        0 <= i < v.params@.len() ==> param_view_of(#[trigger] v.params@[i], k.inputs@[i].name@, k.inputs@[i].param_type)
}

/// Whether `v` is the view of method `m` of class `c`.
pub open spec fn method_view_of(v: MethodView, m: Method, c: Seq<char>) -> bool {
    &&& opt_text(v.doc) == opt_text(m.doc)
    &&& v.deprecated == (m.deprecated is Some)
    &&& opt_text(v.deprecated_message) == (match m.deprecated {
        Some(d) => opt_text(d.message),
        None => None,
    })
    &&& v.swift_name@ == swift_member(m.name@)
    &&& v.is_static == (m.receiver == Receiver::Static)
    &&& v.is_async == m.is_async
    &&& v.throws == (m.returns is Fallible)
    &&& opt_text(v.return_type) == (match spec_ok_type(m.returns) {
        Some(t) => if t is Void {
            None
        } else {
            Some(swift_type_text(t))
        },
        None => None,
    })
    &&& v.params@.len() == m.inputs@.len()
    &&& (forall|i: int|
        0 <= i < v.params@.len() ==> param_view_of(#[trigger] v.params@[i], m.inputs@[i].name@, m.inputs@[i].param_type))
    &&& v.body@ == method_body_of(m, c)
}

/// Whether `v` is the accessor of stream `s` of class `c`.
pub open spec fn stream_view_of(v: StreamView, s: StreamMethod, c: Seq<char>) -> bool {
    &&& opt_text(v.doc) == opt_text(s.doc)
    &&& v.swift_name@ == swift_member(s.name@)
    &&& v.item_type@ == swift_type_text(s.item_type)
    &&& v.body@ == stream_body_of(s, c)
}

/// Whether `t` is the template of class `c`.
pub open spec fn class_of(t: ClassTemplate, c: Class) -> bool {
    &&& t.class_name@ == upper_camel_case(c.name@)
    &&& opt_text(t.doc) == opt_text(c.doc)
    &&& t.deprecated == (c.deprecated is Some)
    &&& opt_text(t.deprecated_message) == (match c.deprecated {
        Some(d) => opt_text(d.message),
        None => None,
    })
    &&& t.ffi_free@ == spec_export_type_prefix(c.name@) + "_free"@
    &&& t.constructors@.len() == c.constructors@.len()
    &&& (forall|i: int|
        0 <= i < t.constructors@.len() ==> ctor_view_of(#[trigger] t.constructors@[i], c.constructors@[i], c.name@))
    &&& t.methods@.len() == c.methods@.len()
    &&& (forall|i: int|
        0 <= i < t.methods@.len() ==> method_view_of(#[trigger] t.methods@[i], c.methods@[i], c.name@))
    &&& t.streams@.len() == c.streams@.len()
    &&& forall|i: int|
        0 <= i < t.streams@.len() ==> stream_view_of(#[trigger] t.streams@[i], c.streams@[i], c.name@)
}

/// `name: Type`.
pub open spec fn param_text(p: ParamView) -> Seq<char> {
    p.swift_name@ + ": "@ + p.swift_type@
}

/// Declared parameters, separated by `, `.
pub open spec fn params_text(ps: Seq<ParamView>) -> Seq<char> {
    seq_join(ps.map_values(|p: ParamView| param_text(p)), ", "@)
}

/// The parameters' names, separated by `, `.
pub open spec fn param_names_text(ps: Seq<ParamView>) -> Seq<char> {
    seq_join(ps.map_values(|p: ParamView| p.swift_name@), ", "@)
}

/// A member's doc comment line.
pub open spec fn doc_line(d: Option<String>) -> Seq<char> {
    match d {
        Some(s) => "    /// "@ + s@ + "\n"@,
        None => ""@,
    }
}

/// A deprecation attribute line, with `indent` before it.
pub open spec fn deprecated_line(dep: bool, msg: Option<String>, indent: Seq<char>) -> Seq<char> {
    if dep {
        indent + "@available(*, deprecated"@ + (match msg {
            Some(m) => ", message: \""@ + m@ + "\""@,
            None => ""@,
        }) + ")\n"@
    } else {
        ""@
    }
}

/// An initializer.
pub open spec fn ctor_text(v: ConstructorView) -> Seq<char> {
    "\n"@ + doc_line(v.doc) + "    public convenience init("@ + params_text(v.params@)
        + ") {\n        self.init(handle: "@ + v.ffi_name@ + "("@ + param_names_text(v.params@)
        + "))\n    }\n"@
}

/// A method.
pub open spec fn method_text(v: MethodView) -> Seq<char> {
    "\n"@ + doc_line(v.doc) + deprecated_line(v.deprecated, v.deprecated_message, "    "@)
        + "    public "@ + (if v.is_static {
        "static "@
    } else {
        ""@
    }) + "func "@ + v.swift_name@ + "("@ + params_text(v.params@) + ")"@ + (if v.is_async {
        " async"@
    } else {
        ""@
    }) + (if v.throws {
        " throws"@
    } else {
        ""@
    }) + (match v.return_type {
        Some(t) => " -> "@ + t@,
        None => ""@,
    }) + " {\n"@ + v.body@ + "    }\n"@
}

/// A stream accessor.
pub open spec fn stream_text(v: StreamView) -> Seq<char> {
    "\n"@ + doc_line(v.doc) + "    public func "@ + v.swift_name@ + "() -> AsyncStream<"@ + v.item_type@
        + "> {\n"@ + v.body@ + "    }\n"@
}

/// The class's text.
pub open spec fn class_text(t: ClassTemplate) -> Seq<char> {
    (match t.doc {
        Some(d) => "/// "@ + d@ + "\n"@,
        None => ""@,
    }) + deprecated_line(t.deprecated, t.deprecated_message, ""@) + "public final class "@
        + t.class_name@
        + " {\n    let handle: OpaquePointer\n\n    init(handle: OpaquePointer) {\n        self.handle = handle\n    }\n"@
        + seq_concat(t.constructors@.map_values(|v: ConstructorView| ctor_text(v))) + seq_concat(
        t.methods@.map_values(|v: MethodView| method_text(v)),
    ) + seq_concat(t.streams@.map_values(|v: StreamView| stream_text(v))) + "\n    deinit {\n        "@
        + t.ffi_free@ + "(handle)\n    }\n}\n"@
}

/// The class text of `c`.
pub open spec fn class_source(c: Class) -> Seq<char> {
    class_text(choose|t: ClassTemplate| class_of(t, c))
}

/// Two parameter lists with the same texts render alike.
proof fn lemma_params_same(a: Seq<ParamView>, b: Seq<ParamView>)
    requires
        a.len() == b.len(),
        forall|i: int|
            0 <= i < a.len() ==> (#[trigger] a[i]).swift_name@ == b[i].swift_name@ && a[i].swift_type@
                == b[i].swift_type@,
    ensures
        params_text(a) == params_text(b),
        param_names_text(a) == param_names_text(b),
{
    assert(a.map_values(|p: ParamView| param_text(p)) =~= b.map_values(|p: ParamView| param_text(p)));
    assert(a.map_values(|p: ParamView| p.swift_name@) =~= b.map_values(|p: ParamView| p.swift_name@));
}

/// An optional string is determined by its view, for the texts here.
proof fn lemma_opt_lines(a: Option<String>, b: Option<String>)
    requires
        opt_text(a) == opt_text(b),
    ensures
        doc_line(a) == doc_line(b),
        forall|dep: bool, indent: Seq<char>| deprecated_line(dep, a, indent) == deprecated_line(dep, b, indent),
{
}

/// Every template of class `c` renders to the same text.
pub proof fn lemma_class_text(t: ClassTemplate, c: Class)
    requires
        class_of(t, c),
    ensures
        class_text(t) == class_source(c),
{
    let u = choose|u: ClassTemplate| class_of(u, c);
    assert forall|i: int| 0 <= i < t.constructors@.len() implies ctor_text(#[trigger] t.constructors@[i])
        == ctor_text(u.constructors@[i]) by {
        lemma_params_same(t.constructors@[i].params@, u.constructors@[i].params@);
        lemma_opt_lines(t.constructors@[i].doc, u.constructors@[i].doc);
    }
    assert forall|i: int| 0 <= i < t.methods@.len() implies method_text(#[trigger] t.methods@[i])
        == method_text(u.methods@[i]) by {
        lemma_params_same(t.methods@[i].params@, u.methods@[i].params@);
        lemma_opt_lines(t.methods@[i].doc, u.methods@[i].doc);
        lemma_opt_lines(t.methods@[i].deprecated_message, u.methods@[i].deprecated_message);
    }
    assert forall|i: int| 0 <= i < t.streams@.len() implies stream_text(#[trigger] t.streams@[i])
        == stream_text(u.streams@[i]) by {
        lemma_opt_lines(t.streams@[i].doc, u.streams@[i].doc);
    }
    lemma_opt_lines(t.deprecated_message, u.deprecated_message);
    assert(t.constructors@.map_values(|v: ConstructorView| ctor_text(v)) =~= u.constructors@.map_values(
        |v: ConstructorView| ctor_text(v),
    ));
    assert(t.methods@.map_values(|v: MethodView| method_text(v)) =~= u.methods@.map_values(
        |v: MethodView| method_text(v),
    ));
    assert(t.streams@.map_values(|v: StreamView| stream_text(v)) =~= u.streams@.map_values(
        |v: StreamView| stream_text(v),
    ));
}

/// A copy of an optional string.
fn copy_opt(o: &Option<String>) -> (r: Option<String>)
    ensures
        opt_text(r) == opt_text(*o),
{
    match o {
        Some(s) => Some(crate::text::copy_string(s)),
        None => None,
    }
}

/// The views of a method's parameters.
fn method_params(inputs: &Vec<Parameter>) -> (r: Vec<ParamView>)
    ensures
        r@.len() == inputs@.len(),
        forall|i: int| 0 <= i < r@.len() ==> param_view_of(#[trigger] r@[i], inputs@[i].name@, inputs@[i].param_type),
{
    let mut r: Vec<ParamView> = Vec::new();
    let mut i: usize = 0;
    while i < inputs.len()
        invariant
            i <= inputs@.len(),
            r@.len() == i,
            forall|k: int| 0 <= k < i ==> param_view_of(#[trigger] r@[k], inputs@[k].name@, inputs@[k].param_type),
        decreases inputs@.len() - i,
    {
        let p = &inputs[i];
        r.push(
            ParamView {
                swift_name: NamingConvention::param_name(p.name.as_str()),
                swift_type: TypeMapper::map_type(&p.param_type),
            },
        );
        i = i + 1;
    }
    r
}

/// The views of a constructor's parameters.
fn ctor_params(inputs: &Vec<ConstructorParam>) -> (r: Vec<ParamView>)
    ensures
        r@.len() == inputs@.len(),
        forall|i: int| 0 <= i < r@.len() ==> param_view_of(#[trigger] r@[i], inputs@[i].name@, inputs@[i].param_type),
{
    let mut r: Vec<ParamView> = Vec::new();
    let mut i: usize = 0;
    while i < inputs.len()
        invariant
            i <= inputs@.len(),
            r@.len() == i,
            forall|k: int| 0 <= k < i ==> param_view_of(#[trigger] r@[k], inputs@[k].name@, inputs@[k].param_type),
        decreases inputs@.len() - i,
    {
        let p = &inputs[i];
        r.push(
            ParamView {
                swift_name: NamingConvention::param_name(p.name.as_str()),
                swift_type: TypeMapper::map_type(&p.param_type),
            },
        );
        i = i + 1;
    }
    r
}

impl ClassTemplate {
    /// The template of a class of `module`.
    pub fn from_class(class: &Class, module: &Module) -> (r: Self)
        ensures
            class_of(r, *class),
    {
        let c = class.name.as_str();
        let mut constructors: Vec<ConstructorView> = Vec::new();
        let mut i: usize = 0;
        while i < class.constructors.len()
            invariant
                i <= class.constructors@.len(),
                c@ == class.name@,
                constructors@.len() == i,
                forall|k: int|
                    0 <= k < i ==> ctor_view_of(#[trigger] constructors@[k], class.constructors@[k], class.name@),
            decreases class.constructors@.len() - i,
        {
            let ctor = &class.constructors[i];
            let ffi_name = if ctor.is_default() {
                export_type_symbol(c, "_new")
            } else {
                export_member_symbol(c, ctor.name.as_str())
            };
            constructors.push(
                ConstructorView {
                    doc: copy_opt(&ctor.doc),
                    ffi_name,
                    is_failable: false,
                    params: ctor_params(&ctor.inputs),
                },
            );
            i = i + 1;
        }
        let mut methods: Vec<MethodView> = Vec::new();
        let mut j: usize = 0;
        while j < class.methods.len()
            invariant
                j <= class.methods@.len(),
                methods@.len() == j,
                forall|k: int| 0 <= k < j ==> method_view_of(#[trigger] methods@[k], class.methods@[k], class.name@),
            decreases class.methods@.len() - j,
        {
            let m = &class.methods[j];
            let return_type = match m.returns.ok_type() {
                Some(t) => if t.is_void() {
                    None
                } else {
                    Some(TypeMapper::map_type(t))
                },
                None => None,
            };
            let deprecated_message = match &m.deprecated {
                Some(d) => copy_opt(&d.message),
                None => None,
            };
            methods.push(
                MethodView {
                    doc: copy_opt(&m.doc),
                    deprecated: m.deprecated.is_some(),
                    deprecated_message,
                    swift_name: NamingConvention::method_name(m.name.as_str()),
                    is_static: m.is_static(),
                    is_async: m.is_async,
                    throws: m.throws(),
                    return_type,
                    params: method_params(&m.inputs),
                    body: render_method_body(m, class, module),
                },
            );
            j = j + 1;
        }
        let mut streams: Vec<StreamView> = Vec::new();
        let mut k: usize = 0;
        while k < class.streams.len()
            invariant
                k <= class.streams@.len(),
                streams@.len() == k,
                forall|n: int| 0 <= n < k ==> stream_view_of(#[trigger] streams@[n], class.streams@[n], class.name@),
            decreases class.streams@.len() - k,
        {
            let s = &class.streams[k];
            streams.push(
                StreamView {
                    doc: copy_opt(&s.doc),
                    swift_name: NamingConvention::method_name(s.name.as_str()),
                    item_type: TypeMapper::map_type(&s.item_type),
                    body: render_stream_body(s, class, module),
                },
            );
            k = k + 1;
        }
        let deprecated_message = match &class.deprecated {
            Some(d) => copy_opt(&d.message),
            None => None,
        };
        ClassTemplate {
            class_name: NamingConvention::class_name(c),
            doc: copy_opt(&class.doc),
            deprecated: class.deprecated.is_some(),
            deprecated_message,
            ffi_free: export_type_symbol(c, "_free"),
            constructors,
            methods,
            streams,
        }
    }
}

// ---------------------------------------------------------------------------
// Rendering
// ---------------------------------------------------------------------------

impl ParamView {
    /// `name: Type`.
    pub fn render(&self) -> (r: String)
        ensures
            r@ == param_text(*self),
    {
        concat3(self.swift_name.as_str(), ": ", self.swift_type.as_str())
    }

    /// The name.
    pub fn render_name(&self) -> (r: String)
        ensures
            r@ == self.swift_name@,
    {
        crate::text::copy_string(&self.swift_name)
    }
}

/// Declared parameters.
fn render_params(ps: &Vec<ParamView>) -> (r: String)
    ensures
        r@ == params_text(ps@),
{
    let parts = render_all(ps, ParamView::render, Ghost(|p: ParamView| param_text(p)));
    join(&parts, ", ")
}

/// The parameters' names.
fn render_param_names(ps: &Vec<ParamView>) -> (r: String)
    ensures
        r@ == param_names_text(ps@),
{
    let parts = render_all(ps, ParamView::render_name, Ghost(|p: ParamView| p.swift_name@));
    join(&parts, ", ")
}

/// A member's doc comment line.
fn render_doc_line(d: &Option<String>) -> (r: String)
    ensures
        r@ == doc_line(*d),
{
    match d {
        Some(s) => concat3("    /// ", s.as_str(), "\n"),
        None => string_of(""),
    }
}

/// A deprecation attribute line.
fn render_deprecated_line(dep: bool, msg: &Option<String>, indent: &str) -> (r: String)
    ensures
        r@ == deprecated_line(dep, *msg, indent@),
{
    if dep {
        let mut r = concat2(indent, "@available(*, deprecated");
        match msg {
            Some(m) => {
                let t = concat3(", message: \"", m.as_str(), "\"");
                push_str(&mut r, t.as_str());
            },
            None => push_str(&mut r, ""),
        }
        push_str(&mut r, ")\n");
        r
    } else {
        string_of("")
    }
}

impl ConstructorView {
    /// The initializer.
    pub fn render(&self) -> (r: String)
        ensures
            r@ == ctor_text(*self),
    {
        let doc = render_doc_line(&self.doc);
        let ps = render_params(&self.params);
        let names = render_param_names(&self.params);
        let mut r = concat3("\n", doc.as_str(), "    public convenience init(");
        push_str(&mut r, ps.as_str());
        push_str(&mut r, ") {\n        self.init(handle: ");
        push_str(&mut r, self.ffi_name.as_str());
        push_str(&mut r, "(");
        push_str(&mut r, names.as_str());
        push_str(&mut r, "))\n    }\n");
        r
    }
}

impl MethodView {
    /// The method.
    pub fn render(&self) -> (r: String)
        ensures
            r@ == method_text(*self),
    {
        let doc = render_doc_line(&self.doc);
        let dep = render_deprecated_line(self.deprecated, &self.deprecated_message, "    ");
        let ps = render_params(&self.params);
        let mut r = concat4("\n", doc.as_str(), dep.as_str(), "    public ");
        push_str(
            &mut r,
            if self.is_static {
                "static "
            } else {
                ""
            },
        );
        push_str(&mut r, "func ");
        push_str(&mut r, self.swift_name.as_str());
        push_str(&mut r, "(");
        push_str(&mut r, ps.as_str());
        push_str(&mut r, ")");
        push_str(
            &mut r,
            if self.is_async {
                " async"
            } else {
                ""
            },
        );
        push_str(
            &mut r,
            if self.throws {
                " throws"
            } else {
                ""
            },
        );
        match &self.return_type {
            Some(t) => {
                let a = concat2(" -> ", t.as_str());
                push_str(&mut r, a.as_str());
            },
            None => push_str(&mut r, ""),
        }
        push_str(&mut r, " {\n");
        push_str(&mut r, self.body.as_str());
        push_str(&mut r, "    }\n");
        r
    }
}

impl StreamView {
    /// The stream accessor.
    pub fn render(&self) -> (r: String)
        ensures
            r@ == stream_text(*self),
    {
        let doc = render_doc_line(&self.doc);
        let mut r = concat3("\n", doc.as_str(), "    public func ");
        push_str(&mut r, self.swift_name.as_str());
        push_str(&mut r, "() -> AsyncStream<");
        push_str(&mut r, self.item_type.as_str());
        push_str(&mut r, "> {\n");
        push_str(&mut r, self.body.as_str());
        push_str(&mut r, "    }\n");
        r
    }
}

impl ClassTemplate {
    /// The class's text.
    pub fn render(&self) -> (r: String)
        ensures
            r@ == class_text(*self),
    {
        let mut r = match &self.doc {
            Some(d) => concat3("/// ", d.as_str(), "\n"),
            None => string_of(""),
        };
        let dep = render_deprecated_line(self.deprecated, &self.deprecated_message, "");
        push_str(&mut r, dep.as_str());
        push_str(&mut r, "public final class ");
        push_str(&mut r, self.class_name.as_str());
        push_str(
            &mut r,
            " {\n    let handle: OpaquePointer\n\n    init(handle: OpaquePointer) {\n        self.handle = handle\n    }\n",
        );
        let ctors = render_all(&self.constructors, ConstructorView::render, Ghost(|v: ConstructorView| ctor_text(v)));
        let ctors = concat_all(&ctors);
        push_str(&mut r, ctors.as_str());
        let methods = render_all(&self.methods, MethodView::render, Ghost(|v: MethodView| method_text(v)));
        let methods = concat_all(&methods);
        push_str(&mut r, methods.as_str());
        let streams = render_all(&self.streams, StreamView::render, Ghost(|v: StreamView| stream_text(v)));
        let streams = concat_all(&streams);
        push_str(&mut r, streams.as_str());
        push_str(&mut r, "\n    deinit {\n        ");
        push_str(&mut r, self.ffi_free.as_str());
        push_str(&mut r, "(handle)\n    }\n}\n");
        r
    }
}

/// The symbols that the plain Swift bindings of class `c` call are the ones
/// that the export attribute of the type `c` declares: a `pub` method with
/// a receiver is called by its entry point, and the handle is released by
/// the type's `_free` entry point.
pub proof fn lemma_calls_exported_symbols(c: Seq<char>, methods: Seq<ExportMethod>, i: int)
    requires
        0 <= i < methods.len(),
        methods[i].is_pub,
        methods[i].has_receiver,
    ensures
        crate::text::occurs_in(spec_ffi_class(c, methods), "fn "@ + spec_export_member(c, methods[i].name@) + "("@),
        crate::text::occurs_in(spec_ffi_class(c, methods), "fn "@ + (spec_export_type_prefix(c) + "_free"@) + "("@),
{
    lemma_class_declares_entries(c, methods);
    reveal_strlit("mffi");
    reveal_strlit("mffi_");
    reveal_strlit("_");
    let snake = spec_to_snake_case(c);
    assert(spec_export_member(c, methods[i].name@) =~= "mffi_"@ + snake + "_"@ + methods[i].name@);
    assert(spec_export_type_prefix(c) + "_free"@ =~= "mffi_"@ + snake + "_free"@) by {
        reveal_strlit("_free");
    }
}

} // verus!
