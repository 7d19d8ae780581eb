//! The Kotlin class that owns a Rust object through its handle.

use vstd::prelude::*;
use crate::case::upper_camel_case;
use crate::model::{spec_ok_type, Class, Constructor, ConstructorParam, Method, Module, Type};
use crate::naming::{
    class_ffi_free, class_ffi_new, method_ffi_cancel, method_ffi_complete, method_ffi_free,
    method_ffi_name, method_ffi_poll, spec_class_ffi_prefix, spec_method_ffi_name,
};
use crate::text::{
    concat2, concat3, concat4, concat_all, join, lemma_filter_step, push_str, render_all,
    render_all_ctx, seq_concat, seq_join, string_of, views, occurs_in,
};
use super::functions::{
    complete_expr_of, ok_kotlin_type, ok_type_text, opt_text, param_arg_text, param_decl_text,
    params_args, params_decl, plain_param_of, plain_params, render_params_args,
    render_params_decl, unsigned_conversion, AsyncFunctionTemplate, ParamView,
};
use super::generator::{FactoryStyle, KotlinOptions};
use super::marshal::{param_to_ffi, ParamConversion};
use super::names::{kotlin_member, NamingConvention};
use super::primitives::{info, to_unsigned};
use super::support::{is_supported_async_output, supported_async_output};
use super::types::TypeMapper;

verus! {

/// A Kotlin class over a Rust object, closed through `AutoCloseable`.
pub struct ClassTemplate {
    pub class_name: String,
    pub doc: Option<String>,
    pub ffi_free: String,
    pub constructors: Vec<ConstructorView>,
    pub has_factory_ctors: bool,
    pub use_companion_methods: bool,
    pub methods: Vec<MethodView>,
}

/// A constructor of the class: the default one, or a named factory.
pub struct ConstructorView {
    pub name: String,
    pub ffi_name: String,
    pub params: Vec<ParamView>,
    pub is_factory: bool,
}

/// A method of the class.
pub struct MethodView {
    pub name: String,
    pub ffi_name: String,
    pub params: Vec<ParamView>,
    pub return_type: Option<String>,
    pub body: String,
    pub is_async: bool,
    pub ffi_poll: String,
    pub ffi_complete: String,
    pub ffi_cancel: String,
    pub ffi_free: String,
    pub complete_expr: String,
}

/// Whether a constructor can be bound: all its parameters are primitives.
pub open spec fn ctor_supported(c: Constructor) -> bool {
    forall|i: int| 0 <= i < c.inputs@.len() ==> (#[trigger] c.inputs@[i]).param_type is Primitive
}

/// Whether a method's result can be returned.
pub open spec fn method_output_supported(m: Method, module: Module) -> bool {
    if m.is_async {
        supported_async_output(m.returns, module)
    } else {
        match spec_ok_type(m.returns) {
            Some(t) => t is Void || t is Primitive,
            None => true,
        }
    }
}

/// Whether a method can be bound: a supported result, and only primitives
/// and closures as parameters.
pub open spec fn method_supported(m: Method, module: Module) -> bool {
    &&& method_output_supported(m, module)
    &&& forall|i: int|
        0 <= i < m.inputs@.len() ==> {
            let t = (#[trigger] m.inputs@[i]).param_type;
            t is Primitive || t is Closure
        }
}

/// The constructor filter.
pub open spec fn ctor_filter() -> spec_fn(Constructor) -> bool {
    |c: Constructor| ctor_supported(c)
}

/// The method filter of a module.
pub open spec fn method_filter(module: Module) -> spec_fn(Method) -> bool {
    |m: Method| method_supported(m, module)
}

/// The constructors that can be bound, in order.
pub open spec fn supported_ctors(c: Class) -> Seq<Constructor> {
    c.constructors@.filter(ctor_filter())
}

/// The methods that can be bound, in order.
pub open spec fn supported_methods(c: Class, module: Module) -> Seq<Method> {
    c.methods@.filter(method_filter(module))
}

/// Whether `v` is the view of constructor `c` of class `class`.
pub open spec fn ctor_view_of(v: ConstructorView, c: Constructor, class: Seq<char>) -> bool {
    &&& v.name@ == kotlin_member(c.name@)
    &&& v.is_factory == (c.name@ != "new"@)
    &&& v.ffi_name@ == (if v.is_factory {
        spec_method_ffi_name(class, c.name@)
    } else {
        spec_class_ffi_prefix(class) + "_new"@
    })
    &&& v.params@.len() == c.inputs@.len()
    &&& forall|i: int|
        0 <= i < v.params@.len() ==> plain_param_of(
            #[trigger] v.params@[i],
            c.inputs@[i].name@,
            c.inputs@[i].param_type,
        )
}

/// The arguments of a method call: the handle, then each parameter.
pub open spec fn method_args(m: Method) -> Seq<char> {
    seq_join(
        seq!["handle"@] + m.inputs@.map_values(
            |p: crate::model::Parameter| param_to_ffi(kotlin_member(p.name@), p.param_type),
        ),
        ", "@,
    )
}

/// The body of a synchronous method calling `ffi`.
pub open spec fn method_body_of(m: Method, ffi: Seq<char>) -> Seq<char> {
    let call = "Native."@ + ffi + "("@ + method_args(m) + ")"@;
    match spec_ok_type(m.returns) {
        Some(t) => match t {
            Type::Primitive(p) => "return "@ + unsigned_conversion(call, p),
            _ => "return "@ + call,
        },
        None => call,
    }
}

/// Whether `v` is the view of method `m` of class `class`.
pub open spec fn method_view_of(v: MethodView, m: Method, class: Seq<char>) -> bool {
    let ffi = spec_method_ffi_name(class, m.name@);
    &&& v.name@ == kotlin_member(m.name@)
    &&& v.ffi_name@ == ffi
    &&& v.params@.len() == m.inputs@.len()
    &&& (forall|i: int|
        0 <= i < v.params@.len() ==> plain_param_of(
            #[trigger] v.params@[i],
            m.inputs@[i].name@,
            m.inputs@[i].param_type,
        ))
    &&& opt_text(v.return_type) == ok_kotlin_type(m.returns)
    &&& v.body@ == method_body_of(m, ffi)
    &&& v.is_async == m.is_async
    &&& v.ffi_poll@ == ffi + "_poll"@
    &&& v.ffi_complete@ == ffi + "_complete"@
    &&& v.ffi_cancel@ == ffi + "_cancel"@
    &&& v.ffi_free@ == ffi + "_free"@
    &&& v.complete_expr@ == (if m.is_async {
        complete_expr_of(m.returns, m.name@, Some(class))
    } else {
        ""@
    })
}

/// Whether a constructor is offered in the companion object.
pub open spec fn in_companion(c: ConstructorView, companion_style: bool) -> bool {
    c.is_factory && (companion_style || c.params@.len() == 0)
}

/// Whether `t` is the template of class `c` in module `m` with options `o`.
pub open spec fn class_of(t: ClassTemplate, c: Class, m: Module, o: KotlinOptions) -> bool {
    &&& t.class_name@ == upper_camel_case(c.name@)
    &&& opt_text(t.doc) == opt_text(c.doc)
    &&& t.ffi_free@ == spec_class_ffi_prefix(c.name@) + "_free"@
    &&& t.use_companion_methods == (o.factory_style == FactoryStyle::CompanionMethods)
    &&& t.constructors@.len() == supported_ctors(c).len()
    &&& (forall|i: int|
        0 <= i < t.constructors@.len() ==> ctor_view_of(
            #[trigger] t.constructors@[i],
            supported_ctors(c)[i],
            c.name@,
        ))
    &&& t.methods@.len() == supported_methods(c, m).len()
    &&& (forall|i: int|
        0 <= i < t.methods@.len() ==> method_view_of(
            #[trigger] t.methods@[i],
            supported_methods(c, m)[i],
            c.name@,
        ))
    &&& t.has_factory_ctors == exists|i: int|
        0 <= i < t.constructors@.len() && in_companion(
            #[trigger] t.constructors@[i],
            t.use_companion_methods,
        )
}

/// A doc comment, when there is one.
pub open spec fn doc_text(d: Option<String>) -> Seq<char> {
    match d {
        Some(s) => "/** "@ + s@ + " */\n"@,
        None => ""@,
    }
}

/// A secondary constructor (nothing for a companion factory).
pub open spec fn ctor_text(c: ConstructorView, t: ClassTemplate) -> Seq<char> {
    if in_companion(c, t.use_companion_methods) {
        ""@
    } else {
        "    constructor("@ + params_decl(c.params@) + ") : this(Native."@ + c.ffi_name@ + "("@
            + params_args(c.params@) + "))\n"@
    }
}

/// A companion factory (nothing for a secondary constructor).
pub open spec fn factory_text(c: ConstructorView, t: ClassTemplate) -> Seq<char> {
    if in_companion(c, t.use_companion_methods) {
        "        fun "@ + c.name@ + "("@ + params_decl(c.params@) + "): "@ + t.class_name@ + " = "@
            + t.class_name@ + "(Native."@ + c.ffi_name@ + "("@ + params_args(c.params@) + "))\n"@
    } else {
        ""@
    }
}

/// The handle followed by the arguments of the parameters.
pub open spec fn handle_args(ps: Seq<ParamView>) -> Seq<char> {
    if ps.len() == 0 {
        "handle"@
    } else {
        "handle, "@ + params_args(ps)
    }
}

/// A method's text.
pub open spec fn method_text(v: MethodView) -> Seq<char> {
    if v.is_async {
        "\n    suspend fun "@ + v.name@ + "("@ + params_decl(v.params@) + "): "@ + (match v.return_type {
            Some(r) => r@,
            None => "Unit"@,
        }) + " {\n        val future = Native."@ + v.ffi_name@ + "("@ + handle_args(v.params@)
            + ")\n        return pollFuture(\n            future,\n            poll = { f, cont -> Native."@
            + v.ffi_poll@ + "(f, cont) },\n            cancel = { Native."@ + v.ffi_cancel@
            + "(it) },\n            free = { Native."@ + v.ffi_free@ + "(it) },\n        ) { "@
            + v.complete_expr@ + " }\n    }\n"@
    } else {
        "\n    fun "@ + v.name@ + "("@ + params_decl(v.params@) + ")"@ + (match v.return_type {
            Some(r) => ": "@ + r@,
            None => ""@,
        }) + " {\n        "@ + v.body@ + "\n    }\n"@
    }
}

/// The companion object holding the factories, when there is one.
pub open spec fn companion_text(t: ClassTemplate) -> Seq<char> {
    if t.has_factory_ctors {
        "\n    companion object {\n"@ + seq_concat(
            t.constructors@.map_values(|c: ConstructorView| factory_text(c, t)),
        ) + "    }\n"@
    } else {
        ""@
    }
}

/// The class's text.
pub open spec fn class_text(t: ClassTemplate) -> Seq<char> {
    doc_text(t.doc) + "class "@ + t.class_name@
        + " private constructor(private val handle: Long) : AutoCloseable {\n"@ + seq_concat(
        t.constructors@.map_values(|c: ConstructorView| ctor_text(c, t)),
    ) + companion_text(t) + "\n    override fun close() {\n        Native."@ + t.ffi_free@
        + "(handle)\n    }\n"@ + seq_concat(t.methods@.map_values(|v: MethodView| method_text(v)))
        + "}\n"@
}

/// The class text of `c` in `m` with options `o`.
pub open spec fn class_source(c: Class, m: Module, o: KotlinOptions) -> Seq<char> {
    class_text(choose|t: ClassTemplate| class_of(t, c, m, o))
}

/// Two parameter lists with the same texts give the same declarations and
/// arguments.
proof fn lemma_params_same(a: Seq<ParamView>, b: Seq<ParamView>)
    requires
        a.len() == b.len(),
        forall|i: int|
            0 <= i < a.len() ==> (#[trigger] a[i]).name@ == b[i].name@ && a[i].kotlin_type@
                == b[i].kotlin_type@ && a[i].conversion@ == b[i].conversion@,
    ensures
        params_decl(a) == params_decl(b),
        params_args(a) == params_args(b),
{
    assert(a.map_values(|p: ParamView| param_decl_text(p)) =~= b.map_values(
        |p: ParamView| param_decl_text(p),
    ));
    assert(a.map_values(|p: ParamView| param_arg_text(p)) =~= b.map_values(
        |p: ParamView| param_arg_text(p),
    ));
}

/// Every template of class `c` renders to the same text.
pub proof fn lemma_class_text(t: ClassTemplate, c: Class, m: Module, o: KotlinOptions)
    requires
        class_of(t, c, m, o),
    ensures
        class_text(t) == class_source(c, m, o),
{
    let u = choose|u: ClassTemplate| class_of(u, c, m, o);
    assert forall|i: int| 0 <= i < t.constructors@.len() implies {
        &&& ctor_text(#[trigger] t.constructors@[i], t) == ctor_text(u.constructors@[i], u)
        &&& factory_text(t.constructors@[i], t) == factory_text(u.constructors@[i], u)
        &&& in_companion(t.constructors@[i], t.use_companion_methods) == in_companion(
            u.constructors@[i],
            u.use_companion_methods,
        )
    } by {
        lemma_params_same(t.constructors@[i].params@, u.constructors@[i].params@);
    }
    assert forall|i: int| 0 <= i < t.methods@.len() implies method_text(#[trigger] t.methods@[i])
        == method_text(u.methods@[i]) by {
        lemma_params_same(t.methods@[i].params@, u.methods@[i].params@);
    }
    assert(t.constructors@.map_values(|x: ConstructorView| ctor_text(x, t)) =~= u.constructors@.map_values(
        |x: ConstructorView| ctor_text(x, u),
    ));
    assert(t.constructors@.map_values(|x: ConstructorView| factory_text(x, t))
        =~= u.constructors@.map_values(|x: ConstructorView| factory_text(x, u)));
    assert(t.methods@.map_values(|v: MethodView| method_text(v)) =~= u.methods@.map_values(
        |v: MethodView| method_text(v),
    ));
    if t.has_factory_ctors {
        let i = choose|i: int|
            0 <= i < t.constructors@.len() && in_companion(
                #[trigger] t.constructors@[i],
                t.use_companion_methods,
            );
        assert(in_companion(u.constructors@[i], u.use_companion_methods));
    }
    if u.has_factory_ctors {
        let i = choose|i: int|
            0 <= i < u.constructors@.len() && in_companion(
                #[trigger] u.constructors@[i],
                u.use_companion_methods,
            );
        assert(in_companion(t.constructors@[i], t.use_companion_methods));
    }
}

/// The Kotlin parameters of a constructor.
fn ctor_params(inputs: &Vec<ConstructorParam>) -> (r: Vec<ParamView>)
    ensures
        r@.len() == inputs@.len(),
        forall|i: int|
            0 <= i < r@.len() ==> plain_param_of(
                #[trigger] r@[i],
                inputs@[i].name@,
                inputs@[i].param_type,
            ),
{
    let mut params: Vec<ParamView> = Vec::new();
    let mut i: usize = 0;
    while i < inputs.len()
        invariant
            i <= inputs@.len(),
            params@.len() == i,
            forall|k: int|
                0 <= k < i ==> plain_param_of(
                    #[trigger] params@[k],
                    inputs@[k].name@,
                    inputs@[k].param_type,
                ),
        decreases inputs@.len() - i,
    {
        let param = &inputs[i];
        let name = NamingConvention::param_name(param.name.as_str());
        let conversion = ParamConversion::to_ffi(name.as_str(), &param.param_type);
        params.push(
            ParamView { name, kotlin_type: TypeMapper::map_type(&param.param_type), conversion },
        );
        i = i + 1;
    }
    params
}

impl ConstructorView {
    /// The view of constructor `ctor` of class `class`.
    pub fn from_constructor(ctor: &Constructor, class: &str) -> (r: Self)
        ensures
            ctor_view_of(r, *ctor, class@),
    {
        let is_factory = !ctor.is_default();
        let ffi_name = if is_factory {
            method_ffi_name(class, ctor.name.as_str())
        } else {
            class_ffi_new(class)
        };
        ConstructorView {
            name: NamingConvention::method_name(ctor.name.as_str()),
            ffi_name,
            params: ctor_params(&ctor.inputs),
            is_factory,
        }
    }

    /// Whether this constructor goes to the companion object.
    pub fn is_in_companion(&self, companion_style: bool) -> (r: bool)
        ensures
            r == in_companion(*self, companion_style),
    {
        self.is_factory && (companion_style || self.params.len() == 0)
    }

    /// The secondary constructor (empty for a companion factory).
    pub fn render_ctor(&self, t: &ClassTemplate) -> (r: String)
        ensures
            r@ == ctor_text(*self, *t),
    {
        if self.is_in_companion(t.use_companion_methods) {
            string_of("")
        } else {
            let decl = render_params_decl(&self.params);
            let args = render_params_args(&self.params);
            let mut r = concat4("    constructor(", decl.as_str(), ") : this(Native.", self.ffi_name.as_str());
            push_str(&mut r, "(");
            push_str(&mut r, args.as_str());
            push_str(&mut r, "))\n");
            r
        }
    }

    /// The companion factory (empty for a secondary constructor).
    pub fn render_factory(&self, t: &ClassTemplate) -> (r: String)
        ensures
            r@ == factory_text(*self, *t),
    {
        if self.is_in_companion(t.use_companion_methods) {
            let decl = render_params_decl(&self.params);
            let args = render_params_args(&self.params);
            let mut r = concat4("        fun ", self.name.as_str(), "(", decl.as_str());
            push_str(&mut r, "): ");
            push_str(&mut r, t.class_name.as_str());
            push_str(&mut r, " = ");
            push_str(&mut r, t.class_name.as_str());
            push_str(&mut r, "(Native.");
            push_str(&mut r, self.ffi_name.as_str());
            push_str(&mut r, "(");
            push_str(&mut r, args.as_str());
            push_str(&mut r, "))\n");
            r
        } else {
            string_of("")
        }
    }
}

/// The handle followed by the arguments of the parameters.
fn render_handle_args(ps: &Vec<ParamView>) -> (r: String)
    ensures
        r@ == handle_args(ps@),
{
    if ps.len() == 0 {
        string_of("handle")
    } else {
        let args = render_params_args(ps);
        concat2("handle, ", args.as_str())
    }
}

impl MethodView {
    /// The method's text.
    pub fn render(&self) -> (r: String)
        ensures
            r@ == method_text(*self),
    {
        let decl = render_params_decl(&self.params);
        if self.is_async {
            let args = render_handle_args(&self.params);
            let mut r = concat4("\n    suspend fun ", self.name.as_str(), "(", decl.as_str());
            push_str(&mut r, "): ");
            match &self.return_type {
                Some(t) => push_str(&mut r, t.as_str()),
                None => push_str(&mut r, "Unit"),
            }
            push_str(&mut r, " {\n        val future = Native.");
            push_str(&mut r, self.ffi_name.as_str());
            push_str(&mut r, "(");
            push_str(&mut r, args.as_str());
            push_str(
                &mut r,
                ")\n        return pollFuture(\n            future,\n            poll = { f, cont -> Native.",
            );
            push_str(&mut r, self.ffi_poll.as_str());
            push_str(&mut r, "(f, cont) },\n            cancel = { Native.");
            push_str(&mut r, self.ffi_cancel.as_str());
            push_str(&mut r, "(it) },\n            free = { Native.");
            push_str(&mut r, self.ffi_free.as_str());
            push_str(&mut r, "(it) },\n        ) { ");
            push_str(&mut r, self.complete_expr.as_str());
            push_str(&mut r, " }\n    }\n");
            r
        } else {
            let mut r = concat4("\n    fun ", self.name.as_str(), "(", decl.as_str());
            push_str(&mut r, ")");
            match &self.return_type {
                Some(t) => {
                    push_str(&mut r, ": ");
                    push_str(&mut r, t.as_str());
                },
                None => push_str(&mut r, ""),
            }
            push_str(&mut r, " {\n        ");
            push_str(&mut r, self.body.as_str());
            push_str(&mut r, "\n    }\n");
            r
        }
    }
}

impl ClassTemplate {
    /// The template of a class: the constructors whose parameters are all
    /// primitives, and the methods that can be bound, in order.
    pub fn from_class(class: &Class, module: &Module, options: &KotlinOptions) -> (r: Self)
        ensures
            class_of(r, *class, *module, *options),
    {
        let name = class.name.as_str();
        let use_companion_methods = options.factory_style == FactoryStyle::CompanionMethods;
        let mut constructors: Vec<ConstructorView> = Vec::new();
        let mut has_factory_ctors = false;
        let mut i: usize = 0;
        while i < class.constructors.len()
            invariant
                i <= class.constructors@.len(),
                name@ == class.name@,
                constructors@.len() == class.constructors@.take(i as int).filter(ctor_filter()).len(),
                forall|k: int|
                    0 <= k < constructors@.len() ==> ctor_view_of(
                        #[trigger] constructors@[k],
                        class.constructors@.take(i as int).filter(ctor_filter())[k],
                        class.name@,
                    ),
                has_factory_ctors == exists|k: int|
                    0 <= k < constructors@.len() && in_companion(
                        #[trigger] constructors@[k],
                        use_companion_methods,
                    ),
            decreases class.constructors@.len() - i,
        {
            proof {
                lemma_filter_step(class.constructors@, ctor_filter(), i as int);
            }
            let ctor = &class.constructors[i];
            let ghost prefix = class.constructors@.take(i as int).filter(ctor_filter());
            if Self::is_supported_constructor(ctor) {
                let view = ConstructorView::from_constructor(ctor, name);
                let member = view.is_in_companion(use_companion_methods);
                let ghost before = constructors@;
                let ghost v = view;
                constructors.push(view);
                proof {
                    let next = class.constructors@.take(i + 1).filter(ctor_filter());
                    assert(next == prefix.push(class.constructors@[i as int]));
                    assert forall|k: int| 0 <= k < constructors@.len() implies ctor_view_of(
                        #[trigger] constructors@[k],
                        next[k],
                        class.name@,
                    ) by {
                        if k < before.len() {
                            assert(constructors@[k] == before[k]);
                        } else {

                            assert(constructors@[k] == v);
                            assert(next[k] == class.constructors@[i as int]);
                        }
                    }
                    if has_factory_ctors {
                        let k = choose|k: int|
                            0 <= k < before.len() && in_companion(
                                #[trigger] before[k],
                                use_companion_methods,
                            );
                        assert(constructors@[k] == before[k]);
                    }
                    if member {
                        assert(in_companion(constructors@[before.len() as int], use_companion_methods));
                    }
                    if !has_factory_ctors && !member {
                        assert forall|k: int| 0 <= k < constructors@.len() implies !in_companion(
                            #[trigger] constructors@[k],
                            use_companion_methods,
                        ) by {
                            if k < before.len() {
                                assert(constructors@[k] == before[k]);
                            }
                        }
                    }
                }
                has_factory_ctors = has_factory_ctors || member;
            }
            i = i + 1;
        }
        assert(class.constructors@.take(i as int) =~= class.constructors@);
        assert(class.constructors@.take(i as int).filter(ctor_filter()) == supported_ctors(*class));
        let mut methods: Vec<MethodView> = Vec::new();
        let mut j: usize = 0;
        while j < class.methods.len()
            invariant
                j <= class.methods@.len(),
                name@ == class.name@,
                methods@.len() == class.methods@.take(j as int).filter(method_filter(*module)).len(),
                forall|k: int|
                    0 <= k < methods@.len() ==> method_view_of(
                        #[trigger] methods@[k],
                        class.methods@.take(j as int).filter(method_filter(*module))[k],
                        class.name@,
                    ),
            decreases class.methods@.len() - j,
        {
            proof {
                lemma_filter_step(class.methods@, method_filter(*module), j as int);
            }
            let method = &class.methods[j];
            let ghost prefix = class.methods@.take(j as int).filter(method_filter(*module));
            if Self::is_supported_method(method, module) {
                let ghost before = methods@;
                let view = Self::method_view(method, name);
                let ghost v = view;
                methods.push(view);
                proof {
                    let next = class.methods@.take(j + 1).filter(method_filter(*module));
                    assert(next == prefix.push(class.methods@[j as int]));
                    assert forall|k: int| 0 <= k < methods@.len() implies method_view_of(
                        #[trigger] methods@[k],
                        next[k],
                        class.name@,
                    ) by {
                        if k < before.len() {
                            assert(methods@[k] == before[k]);
                        } else {
                            assert(methods@[k] == v);
                            assert(next[k] == class.methods@[j as int]);
                        }
                    }
                }
            }
            j = j + 1;
        }
        assert(class.methods@.take(j as int) =~= class.methods@);
        assert(class.methods@.take(j as int).filter(method_filter(*module)) == supported_methods(
            *class,
            *module,
        ));
        let doc = match &class.doc {
            Some(d) => Some(crate::text::copy_string(d)),
            None => None,
        };
        let r = ClassTemplate {
            class_name: NamingConvention::class_name(name),
            doc,
            ffi_free: class_ffi_free(name),
            constructors,
            has_factory_ctors,
            use_companion_methods,
            methods,
        };
        assert(r.class_name@ == upper_camel_case(class.name@));
        assert(opt_text(r.doc) == opt_text(class.doc));
        assert(r.ffi_free@ == spec_class_ffi_prefix(class.name@) + "_free"@);
        assert(r.use_companion_methods == (options.factory_style == FactoryStyle::CompanionMethods));
        assert(r.constructors@.len() == supported_ctors(*class).len());
        assert(r.methods@.len() == supported_methods(*class, *module).len());
        assert(r.has_factory_ctors == exists|i: int|
            0 <= i < r.constructors@.len() && in_companion(
                #[trigger] r.constructors@[i],
                r.use_companion_methods,
            ));
        r
    }

    /// Whether all parameters of a constructor are primitives.
    pub fn is_supported_constructor(ctor: &Constructor) -> (r: bool)
        ensures
            r == ctor_supported(*ctor),
    {
        let mut i: usize = 0;
        while i < ctor.inputs.len()
            invariant
                i <= ctor.inputs@.len(),
                forall|k: int| 0 <= k < i ==> (#[trigger] ctor.inputs@[k]).param_type is Primitive,
            decreases ctor.inputs@.len() - i,
        {
            if !matches!(&ctor.inputs[i].param_type, Type::Primitive(_)) {
                return false;
            }
            i = i + 1;
        }
        true
    }

    /// Whether a method can be bound.
    pub fn is_supported_method(method: &Method, module: &Module) -> (r: bool)
        ensures
            r == method_supported(*method, *module),
    {
        let supported_output = if method.is_async {
            is_supported_async_output(&method.returns, module)
        } else {
            match method.returns.ok_type() {
                None => true,
                Some(Type::Void) => true,
                Some(Type::Primitive(_)) => true,
                _ => false,
            }
        };
        if !supported_output {
            return false;
        }
        let mut i: usize = 0;
        while i < method.inputs.len()
            invariant
                i <= method.inputs@.len(),
                forall|k: int|
                    0 <= k < i ==> {
                        let t = (#[trigger] method.inputs@[k]).param_type;
                        t is Primitive || t is Closure
                    },
            decreases method.inputs@.len() - i,
        {
            if !matches!(&method.inputs[i].param_type, Type::Primitive(_) | Type::Closure(_)) {
                return false;
            }
            i = i + 1;
        }
        true
    }

    /// The view of a method of class `class`.
    fn method_view(method: &Method, class: &str) -> (r: MethodView)
        ensures
            method_view_of(r, *method, class@),
    {
        let m = method.name.as_str();
        let ffi_name = method_ffi_name(class, m);
        let body = Self::generate_method_body(method, ffi_name.as_str());
        let complete_expr = if method.is_async {
            AsyncFunctionTemplate::generate_complete_expr_for_returns(&method.returns, m, Some(class))
        } else {
            string_of("")
        };
        MethodView {
            name: NamingConvention::method_name(m),
            ffi_name,
            params: plain_params(&method.inputs),
            return_type: ok_type_text(&method.returns),
            body,
            is_async: method.is_async,
            ffi_poll: method_ffi_poll(class, m),
            ffi_complete: method_ffi_complete(class, m),
            ffi_cancel: method_ffi_cancel(class, m),
            ffi_free: method_ffi_free(class, m),
            complete_expr,
        }
    }

    /// The body of a synchronous method calling `ffi_name`.
    pub fn generate_method_body(method: &Method, ffi_name: &str) -> (r: String)
        ensures
            r@ == method_body_of(*method, ffi_name@),
    {
        let mut parts: Vec<String> = Vec::new();
        parts.push(string_of("handle"));
        let mut i: usize = 0;
        while i < method.inputs.len()
            invariant
                i <= method.inputs@.len(),
                views(parts@) =~= seq!["handle"@] + method.inputs@.take(i as int).map_values(
                    |p: crate::model::Parameter| param_to_ffi(kotlin_member(p.name@), p.param_type),
                ),
            decreases method.inputs@.len() - i,
        {
            let p = &method.inputs[i];
            let n = NamingConvention::param_name(p.name.as_str());
            let ghost before = parts@;
            parts.push(ParamConversion::to_ffi(n.as_str(), &p.param_type));
            proof {
                assert(views(parts@) =~= views(before).push(parts@[before.len() as int]@));
                assert(method.inputs@.take(i + 1).map_values(
                    |p: crate::model::Parameter| param_to_ffi(kotlin_member(p.name@), p.param_type),
                ) =~= method.inputs@.take(i as int).map_values(
                    |p: crate::model::Parameter| param_to_ffi(kotlin_member(p.name@), p.param_type),
                ).push(param_to_ffi(kotlin_member(method.inputs@[i as int].name@), method.inputs@[i as int].param_type)));
            }
            i = i + 1;
        }
        assert(method.inputs@.take(i as int) =~= method.inputs@);
        let args = join(&parts, ", ");
        let call = concat4("Native.", ffi_name, "(", args.as_str());
        let call = concat2(call.as_str(), ")");
        match method.returns.ok_type() {
            Some(Type::Primitive(p)) => {
                let converted = match info(*p).to_unsigned {
                    Some(conv) => concat3(call.as_str(), ".", conv),
                    None => call,
                };
                concat2("return ", converted.as_str())
            },
            Some(_) => concat2("return ", call.as_str()),
            None => call,
        }
    }

    /// The class's text.
    pub fn render(&self) -> (r: String)
        ensures
            r@ == class_text(*self),
    {
        let mut r = match &self.doc {
            Some(d) => concat3("/** ", d.as_str(), " */\n"),
            None => string_of(""),
        };
        push_str(&mut r, "class ");
        push_str(&mut r, self.class_name.as_str());
        push_str(&mut r, " private constructor(private val handle: Long) : AutoCloseable {\n");
        let ctors = render_all_ctx(
            &self.constructors,
            self,
            ConstructorView::render_ctor,
            Ghost(|c: ConstructorView, t: ClassTemplate| ctor_text(c, t)),
        );
        assert(views(ctors@) =~= self.constructors@.map_values(
            |c: ConstructorView| ctor_text(c, *self),
        ));
        let ctors = concat_all(&ctors);
        push_str(&mut r, ctors.as_str());
        if self.has_factory_ctors {
            let factories = render_all_ctx(
                &self.constructors,
                self,
                ConstructorView::render_factory,
                Ghost(|c: ConstructorView, t: ClassTemplate| factory_text(c, t)),
            );
            assert(views(factories@) =~= self.constructors@.map_values(
                |c: ConstructorView| factory_text(c, *self),
            ));
            let factories = concat_all(&factories);
            push_str(&mut r, "\n    companion object {\n");
            push_str(&mut r, factories.as_str());
            push_str(&mut r, "    }\n");
        } else {
            push_str(&mut r, "");
        }
        push_str(&mut r, "\n    override fun close() {\n        Native.");
        push_str(&mut r, self.ffi_free.as_str());
        push_str(&mut r, "(handle)\n    }\n");
        let methods = render_all(&self.methods, MethodView::render, Ghost(|v: MethodView| method_text(v)));
        let methods = concat_all(&methods);
        push_str(&mut r, methods.as_str());
        push_str(&mut r, "}\n");
        r
    }
}

/// `x` is part of `a + x + b`.
proof fn lemma_part(a: Seq<char>, x: Seq<char>, b: Seq<char>, whole: Seq<char>)
    requires
        whole =~= a + x + b,
    ensures
        occurs_in(whole, x),
{
    crate::text::lemma_occurs_middle(a, x, b);
}

/// A method's text calls its native symbol.
proof fn lemma_method_calls_native(v: MethodView, m: Method, class: Seq<char>)
    requires
        method_view_of(v, m, class),
    ensures
        occurs_in(method_text(v), "Native."@ + spec_method_ffi_name(class, m.name@) + "("@),
{
    let target = "Native."@ + v.ffi_name@ + "("@;
    let mt = method_text(v);
    if v.is_async {
        let head = "\n    suspend fun "@ + v.name@ + "("@ + params_decl(v.params@) + "): "@ + (match v.return_type {
            Some(r) => r@,
            None => "Unit"@,
        }) + " {\n        val future = "@;
        let tail = handle_args(v.params@)
            + ")\n        return pollFuture(\n            future,\n            poll = { f, cont -> Native."@
            + v.ffi_poll@ + "(f, cont) },\n            cancel = { Native."@ + v.ffi_cancel@
            + "(it) },\n            free = { Native."@ + v.ffi_free@ + "(it) },\n        ) { "@
            + v.complete_expr@ + " }\n    }\n"@;
        reveal_strlit(" {\n        val future = Native.");
        reveal_strlit(" {\n        val future = ");
        reveal_strlit("Native.");
        assert(" {\n        val future = Native."@ =~= " {\n        val future = "@ + "Native."@);
        lemma_part(head, target, tail, mt);
    } else {
        let call = target + method_args(m) + ")"@;
        lemma_part(Seq::empty(), target, method_args(m) + ")"@, call);
        let body = method_body_of(m, v.ffi_name@);
        match spec_ok_type(m.returns) {
            Some(t) => match t {
                Type::Primitive(p) => {
                    let conv = unsigned_conversion(call, p);
                    match to_unsigned(p) {
                        Some(c) => lemma_part(Seq::empty(), call, "."@ + c, conv),
                        None => lemma_part(Seq::empty(), call, Seq::empty(), conv),
                    }
                    lemma_part("return "@, conv, Seq::empty(), body);
                    crate::text::lemma_occurs_trans(call, conv, body);
                },
                _ => lemma_part("return "@, call, Seq::empty(), body),
            },
            None => lemma_part(Seq::empty(), call, Seq::empty(), body),
        }
        crate::text::lemma_occurs_trans(target, call, body);
        let head = "\n    fun "@ + v.name@ + "("@ + params_decl(v.params@) + ")"@ + (match v.return_type {
            Some(r) => ": "@ + r@,
            None => ""@,
        }) + " {\n        "@;
        lemma_part(head, v.body@, "\n    }\n"@, mt);
        crate::text::lemma_occurs_trans(target, v.body@, mt);
    }
}

/// A Kotlin class releases its handle through `Native.riff_<class>_free` and
/// each method it binds calls `Native.riff_<class>_<method>(`: the symbols
/// that the `Native` object declares for the same methods.
pub proof fn lemma_class_calls_native(t: ClassTemplate, c: Class, m: Module, o: KotlinOptions)
    requires
        class_of(t, c, m, o),
    ensures
        occurs_in(
            class_source(c, m, o),
            "Native."@ + (spec_class_ffi_prefix(c.name@) + "_free"@) + "(handle)"@,
        ),
        forall|j: int|
            0 <= j < supported_methods(c, m).len() ==> occurs_in(
                class_source(c, m, o),
                "Native."@ + spec_method_ffi_name(c.name@, (#[trigger] supported_methods(c, m)[j]).name@)
                    + "("@,
            ),
{
    lemma_class_text(t, c, m, o);
    let text = class_text(t);
    let head = doc_text(t.doc) + "class "@ + t.class_name@
        + " private constructor(private val handle: Long) : AutoCloseable {\n"@ + seq_concat(
        t.constructors@.map_values(|cv: ConstructorView| ctor_text(cv, t)),
    ) + companion_text(t) + "\n    override fun close() {\n        "@;
    let ms = seq_concat(t.methods@.map_values(|v: MethodView| method_text(v)));
    reveal_strlit("\n    override fun close() {\n        Native.");
    reveal_strlit("\n    override fun close() {\n        ");
    reveal_strlit("Native.");
    reveal_strlit("(handle)\n    }\n");
    reveal_strlit("(handle)");
    reveal_strlit("\n    }\n");
    assert("\n    override fun close() {\n        Native."@ =~= "\n    override fun close() {\n        "@
        + "Native."@);
    assert("(handle)\n    }\n"@ =~= "(handle)"@ + "\n    }\n"@);
    lemma_part(head, "Native."@ + t.ffi_free@ + "(handle)"@, "\n    }\n"@ + ms + "}\n"@, text);
    let before = head + "Native."@ + t.ffi_free@ + "(handle)\n    }\n"@;
    lemma_part(before, ms, "}\n"@, text);
    assert forall|j: int| 0 <= j < supported_methods(c, m).len() implies occurs_in(
        text,
        "Native."@ + spec_method_ffi_name(c.name@, (#[trigger] supported_methods(c, m)[j]).name@) + "("@,
    ) by {
        let v = t.methods@[j];
        lemma_method_calls_native(v, supported_methods(c, m)[j], c.name@);
        assert(t.methods@.map_values(|v: MethodView| method_text(v))[j] == method_text(v));
        crate::text::lemma_concat_part_occurs(t.methods@.map_values(|v: MethodView| method_text(v)), j);
        crate::text::lemma_occurs_trans(
            "Native."@ + spec_method_ffi_name(c.name@, supported_methods(c, m)[j].name@) + "("@,
            method_text(v),
            ms,
        );
        crate::text::lemma_occurs_trans(
            "Native."@ + spec_method_ffi_name(c.name@, supported_methods(c, m)[j].name@) + "("@,
            ms,
            text,
        );
    }
}

} // verus!
