//! The Kotlin generator's entry points: one section per declaration of a
//! module, assembled into one source file.

use vstd::prelude::*;
use crate::case::{lowercase, upper_camel_case};
use crate::model::{
    spec_is_c_style, spec_ok_type, enum_layout_fits, record_layout_fits, CallbackTrait, Class, ClosureSignature, Enumeration,
    Function, Module, Parameter, Record, ReturnType, Type, spec_signature_id,
};
use crate::text::{
    contains_text, flat_map, join, lemma_filter_step, lemma_flat_map_step, push_char, seq_join,
    trim_text, trimmed, views, is_white_space, lemma_trimmed_ends, lemma_filter_preserves, tight,
    lemma_join_last, lemma_trim_nonblank, lemma_flat_map_has,
};
use super::callbacks::{callback_trait_source, lemma_callback_trait_text, CallbackTraitTemplate};
use super::classes::{class_source, lemma_class_text, ClassTemplate};
use super::functions::{
    async_function_source, closure_interface_source, function_source, lemma_async_function_text,
    lemma_closure_interface_text, lemma_function_text, AsyncFunctionTemplate,
    ClosureInterfaceTemplate, FunctionTemplate,
};
use super::native::{lemma_native_text, native_source, NativeTemplate};
use super::support::{
    blittable, is_supported_async_output as supported_async_output_exec,
    is_supported_function as supported_function_exec, supported_async_output, supported_function,
};
use super::templates::{
    c_style_enum_source, codec_source, lemma_c_style_enum_text, lemma_codec_text,
    lemma_preamble_text, lemma_reader_text, lemma_record_text, lemma_sealed_enum_text,
    lemma_writer_text, preamble_source, reader_source, record_source, sealed_enum_source,
    writer_source, CStyleEnumTemplate, DataEnumCodecTemplate, PreambleTemplate,
    RecordReaderTemplate, RecordTemplate, RecordWriterTemplate, SealedEnumTemplate,
};

verus! {

/// How named constructors are offered.
#[derive(Debug, Clone, Copy, PartialEq, Eq, Structural)]
pub enum FactoryStyle {
    /// Secondary constructors, with parameterless factories in a companion.
    Constructors,
    /// Every named constructor as a companion method.
    CompanionMethods,
}

impl Default for FactoryStyle {
    fn default() -> (r: Self)
        ensures
            r == FactoryStyle::Constructors,
    {
        FactoryStyle::Constructors
    }
}

/// Options of the Kotlin generator.
#[derive(Debug, Clone, Copy)]
pub struct KotlinOptions {
    pub factory_style: FactoryStyle,
}

impl Default for KotlinOptions {
    fn default() -> (r: Self)
        ensures
            r.factory_style == FactoryStyle::Constructors,
    {
        KotlinOptions { factory_style: FactoryStyle::Constructors }
    }
}

/// The Kotlin generator.
pub struct Kotlin;

// ---------------------------------------------------------------------------
// The sections of a module
// ---------------------------------------------------------------------------

/// The text of an enumeration: an `enum class` for a plain enumeration that
/// is no error type, a sealed class otherwise.
pub open spec fn enum_source(e: Enumeration) -> Seq<char> {
    if spec_is_c_style(e.variants@) && !e.is_error {
        c_style_enum_source(e)
    } else {
        sealed_enum_source(e)
    }
}

/// Whether an enumeration gets a codec: it carries data or is an error type.
pub open spec fn needs_codec(e: Enumeration) -> bool {
    !spec_is_c_style(e.variants@) || e.is_error
}

/// Whether a module can be rendered: every enumeration that gets a codec
/// carries data and has a layout whose size fits a `usize`, every
/// enumeration has at most `i64::MAX` variants, and every record that gets a
/// reader or a writer has a layout whose size fits a `usize`.
pub open spec fn renderable(m: Module) -> bool {
    &&& forall|i: int|
        0 <= i < m.enums@.len() ==> {
            &&& (#[trigger] m.enums@[i]).variants@.len() <= i64::MAX
            &&& needs_codec(m.enums@[i]) ==> !spec_is_c_style(m.enums@[i].variants@)
                && enum_layout_fits(m.enums@[i].variants@)
        }
    &&& forall|i: int|
        0 <= i < m.records@.len() && record_needs_layout(#[trigger] m.records@[i], m)
            ==> record_layout_fits(m.records@[i].fields@)
}

/// Whether a record gets a reader or a writer in the module.
pub open spec fn record_needs_layout(r: Record, m: Module) -> bool {
    ||| vec_return_names(m).contains(r.name@)
    ||| async_return_names(m).contains(r.name@)
    ||| vec_param_names(m).contains(r.name@)
}

/// The sections of one enumeration.
pub open spec fn enum_parts(e: Enumeration) -> Seq<Seq<char>> {
    if needs_codec(e) {
        seq![enum_source(e), codec_source(e)]
    } else {
        seq![enum_source(e)]
    }
}

/// The blittable record a function returns a vector of, if any.
pub open spec fn vec_return_name(f: Function, m: Module) -> Seq<Seq<char>> {
    match spec_ok_type(f.returns) {
        Some(t) => match t {
            Type::Vec(inner) => match *inner {
                Type::Record(n) => if blittable(m, n@) {
                    seq![n@]
                } else {
                    Seq::empty()
                },
                _ => Seq::empty(),
            },
            _ => Seq::empty(),
        },
        None => Seq::empty(),
    }
}

/// The blittable record an async function returns, if any.
pub open spec fn async_return_name(f: Function, m: Module) -> Seq<Seq<char>> {
    if f.is_async {
        match spec_ok_type(f.returns) {
            Some(t) => match t {
                Type::Record(n) => if blittable(m, n@) {
                    seq![n@]
                } else {
                    Seq::empty()
                },
                _ => Seq::empty(),
            },
            None => Seq::empty(),
        }
    } else {
        Seq::empty()
    }
}

/// The blittable record a parameter passes a vector or slice of, if any.
pub open spec fn param_record_name(p: Parameter, m: Module) -> Seq<Seq<char>> {
    let inner = match p.param_type {
        Type::Vec(inner) => Some(*inner),
        Type::Slice(inner) => Some(*inner),
        _ => None,
    };
    match inner {
        Some(t) => match t {
            Type::Record(n) => if blittable(m, n@) {
                seq![n@]
            } else {
                Seq::empty()
            },
            _ => Seq::empty(),
        },
        None => Seq::empty(),
    }
}

/// `vec_return_name` in a module.
pub open spec fn vec_return_fn(m: Module) -> spec_fn(Function) -> Seq<Seq<char>> {
    |f: Function| vec_return_name(f, m)
}

/// `async_return_name` in a module.
pub open spec fn async_return_fn(m: Module) -> spec_fn(Function) -> Seq<Seq<char>> {
    |f: Function| async_return_name(f, m)
}

/// `param_record_name` in a module.
pub open spec fn param_record_fn(m: Module) -> spec_fn(Parameter) -> Seq<Seq<char>> {
    |p: Parameter| param_record_name(p, m)
}

/// The records a function passes as vectors or slices.
pub open spec fn fn_param_records_fn(m: Module) -> spec_fn(Function) -> Seq<Seq<char>> {
    |f: Function| flat_map(f.inputs@, param_record_fn(m))
}

/// The records the functions return vectors of, in function order.
pub open spec fn vec_return_names(m: Module) -> Seq<Seq<char>> {
    flat_map(m.functions@, vec_return_fn(m))
}

/// The records async functions return, in function order.
pub open spec fn async_return_names(m: Module) -> Seq<Seq<char>> {
    flat_map(m.functions@, async_return_fn(m))
}

/// The records passed as vectors or slices, in parameter order.
pub open spec fn vec_param_names(m: Module) -> Seq<Seq<char>> {
    flat_map(m.functions@, fn_param_records_fn(m))
}

/// The sections of one record: the class, then its reader where a vector
/// of it or an async result is read, then its writer where a vector of it
/// is passed.
pub open spec fn record_parts(r: Record, m: Module) -> Seq<Seq<char>> {
    seq![record_source(r)] + (if vec_return_names(m).contains(r.name@) || async_return_names(
        m,
    ).contains(r.name@) {
        seq![reader_source(r)]
    } else {
        Seq::empty()
    }) + (if vec_param_names(m).contains(r.name@) {
        seq![writer_source(r)]
    } else {
        Seq::empty()
    })
}

/// The closure signature of a parameter, if it is one.
pub open spec fn param_closure(p: Parameter) -> Seq<ClosureSignature> {
    match p.param_type {
        Type::Closure(sig) => seq![sig],
        _ => Seq::empty(),
    }
}

/// `param_closure` as a value.
pub open spec fn param_closure_fn() -> spec_fn(Parameter) -> Seq<ClosureSignature> {
    |p: Parameter| param_closure(p)
}

/// The closure signatures among the parameters.
pub open spec fn closure_sigs(ps: Seq<Parameter>) -> Seq<ClosureSignature> {
    flat_map(ps, param_closure_fn())
}

/// The closure signatures of a function's parameters.
pub open spec fn fn_closures_fn() -> spec_fn(Function) -> Seq<ClosureSignature> {
    |f: Function| closure_sigs(f.inputs@)
}

/// The closure signatures of a method's parameters.
pub open spec fn method_closures_fn() -> spec_fn(crate::model::Method) -> Seq<ClosureSignature> {
    |meth: crate::model::Method| closure_sigs(meth.inputs@)
}

/// The closure signatures of a class's methods' parameters.
pub open spec fn class_closures_fn() -> spec_fn(Class) -> Seq<ClosureSignature> {
    |c: Class| flat_map(c.methods@, method_closures_fn())
}

/// The closure signatures of the functions' parameters, then of the
/// methods' parameters, in order.
pub open spec fn all_closure_sigs(m: Module) -> Seq<ClosureSignature> {
    flat_map(m.functions@, fn_closures_fn()) + flat_map(m.classes@, class_closures_fn())
}

/// The identifiers of signatures.
pub open spec fn sig_ids(s: Seq<ClosureSignature>) -> Seq<Seq<char>> {
    s.map_values(|x: ClosureSignature| spec_signature_id(x))
}

/// The signatures of `s` with one per identifier, each where its
/// identifier first occurs.
pub open spec fn dedup_sigs(s: Seq<ClosureSignature>) -> Seq<ClosureSignature>
    decreases s.len(),
{
    if s.len() == 0 {
        s
    } else {
        let d = dedup_sigs(s.drop_last());
        if sig_ids(d).contains(spec_signature_id(s.last())) {
            d
        } else {
            d.push(s.last())
        }
    }
}

/// The signatures behind references.
pub open spec fn derefs(s: Seq<&ClosureSignature>) -> Seq<ClosureSignature> {
    s.map_values(|x: &ClosureSignature| *x)
}

/// The closure signatures of a module, one per identifier.
pub open spec fn unique_closures(m: Module) -> Seq<ClosureSignature> {
    dedup_sigs(all_closure_sigs(m))
}

/// The text of a function: async or not.
pub open spec fn kotlin_function_source(f: Function, m: Module) -> Seq<char> {
    if f.is_async {
        async_function_source(f)
    } else {
        function_source(f, m)
    }
}

/// The section of a function, if it can be bound.
pub open spec fn function_part(f: Function, m: Module) -> Seq<Seq<char>> {
    if supported_function(f, m) {
        seq![kotlin_function_source(f, m)]
    } else {
        Seq::empty()
    }
}

/// `enum_parts` as a value.
pub open spec fn enum_parts_fn() -> spec_fn(Enumeration) -> Seq<Seq<char>> {
    |e: Enumeration| enum_parts(e)
}

/// `record_parts` in a module.
pub open spec fn record_parts_fn(m: Module) -> spec_fn(Record) -> Seq<Seq<char>> {
    |r: Record| record_parts(r, m)
}

/// `function_part` in a module.
pub open spec fn function_part_fn(m: Module) -> spec_fn(Function) -> Seq<Seq<char>> {
    |f: Function| function_part(f, m)
}

/// The sections of a module, before trimming: the preamble, each
/// enumeration, each record, each closure interface, each bound function,
/// each class, each callback trait, and the `Native` object.
pub open spec fn module_sections(m: Module, package: Seq<char>, o: KotlinOptions) -> Seq<Seq<char>> {
    seq![preamble_source(package, m)] + flat_map(m.enums@, enum_parts_fn()) + flat_map(
        m.records@,
        record_parts_fn(m),
    ) + unique_closures(m).map_values(|s: ClosureSignature| closure_interface_source(s))
        + flat_map(m.functions@, function_part_fn(m)) + m.classes@.map_values(
        |c: Class| class_source(c, m, o),
    ) + m.callback_traits@.map_values(|c: CallbackTrait| callback_trait_source(c))
        + seq![native_source(m)]
}

/// Non-empty texts.
pub open spec fn nonempty() -> spec_fn(Seq<char>) -> bool {
    |s: Seq<char>| s.len() > 0
}

/// The module's sections, trimmed, without the empty ones.
pub open spec fn module_parts(m: Module, package: Seq<char>, o: KotlinOptions) -> Seq<Seq<char>> {
    module_sections(m, package, o).map_values(|s: Seq<char>| trimmed(s)).filter(nonempty())
}

/// The module's source: the trimmed sections that are not empty, separated
/// by a blank line, ending with a newline.
pub open spec fn module_source(m: Module, package: Seq<char>, o: KotlinOptions) -> Seq<char> {
    seq_join(module_parts(m, package, o), "\n\n"@) + "\n"@
}

/// The module text is made of at least one section; every section is
/// non-empty and begins and ends with a character that is not white space,
/// and the text ends with exactly one newline, right after the last
/// section's last character.
pub proof fn lemma_module_source_shape(m: Module, package: Seq<char>, o: KotlinOptions)
    ensures
        module_parts(m, package, o).len() > 0,
        forall|i: int|
            0 <= i < module_parts(m, package, o).len() ==> {
                let p = #[trigger] module_parts(m, package, o)[i];
                &&& p.len() > 0
                &&& !is_white_space(p[0])
                &&& !is_white_space(p.last())
            },
        module_source(m, package, o).len() >= 2,
        module_source(m, package, o).last() == '\n',
        !is_white_space(module_source(m, package, o)[module_source(m, package, o).len() - 2]),
{
    let sections = module_sections(m, package, o);
    let all = sections.map_values(|s: Seq<char>| trimmed(s));
    let parts = module_parts(m, package, o);
    assert forall|i: int| 0 <= i < all.len() implies #[trigger] tight()(all[i]) by {
        lemma_trimmed_ends(sections[i]);
    }
    lemma_filter_preserves(all, nonempty(), tight());
    assert forall|i: int| 0 <= i < parts.len() implies #[trigger] parts[i].len() > 0 by {
        all.lemma_filter_pred(nonempty(), i);
    }
    // The preamble starts with a letter, so it survives trimming.
    let pre = preamble_source(package, m);
    reveal_strlit("package ");
    assert(pre[0] == 'p');
    lemma_trimmed_ends(pre);
    lemma_trim_nonblank(pre);
    assert(all[0] == trimmed(pre));
    all.lemma_filter_contains(nonempty(), 0);
    assert(parts.len() > 0);
    assert(tight()(parts[parts.len() - 1]));
    assert(parts.last() == parts[parts.len() - 1]);
    lemma_join_last(parts, "\n\n"@);
    reveal_strlit("\n");
    let j = seq_join(parts, "\n\n"@);
    assert(module_source(m, package, o) == j + "\n"@);
    assert((j + "\n"@)[(j + "\n"@).len() - 2] == j.last());
}

// ---------------------------------------------------------------------------
// Building it
// ---------------------------------------------------------------------------

/// Appends the closure signatures of `params` not seen yet.
fn add_closures<'a>(
    params: &'a Vec<Parameter>,
    seen: &mut Vec<String>,
    out: &mut Vec<&'a ClosureSignature>,
    Ghost(pre): Ghost<Seq<ClosureSignature>>,
)
    requires
        derefs(old(out)@) == dedup_sigs(pre),
        views(old(seen)@) == sig_ids(derefs(old(out)@)),
    ensures
        derefs(final(out)@) == dedup_sigs(pre + closure_sigs(params@)),
        views(final(seen)@) == sig_ids(derefs(final(out)@)),
{
    let ghost g = param_closure_fn();
    assert(pre + flat_map(params@.take(0), g) =~= pre);
    let mut i: usize = 0;
    while i < params.len()
        invariant
            g == param_closure_fn(),
            i <= params@.len(),
            derefs(out@) == dedup_sigs(pre + flat_map(params@.take(i as int), g)),
            views(seen@) == sig_ids(derefs(out@)),
        decreases params@.len() - i,
    {
        proof {
            lemma_flat_map_step(params@, g, i as int);
        }
        let ghost before = pre + flat_map(params@.take(i as int), g);
        match &params[i].param_type {
            Type::Closure(sig) => {
                let id = sig.signature_id();
                let ghost next = before.push(*sig);
                assert(g(params@[i as int]) == seq![*sig]);
                assert(pre + flat_map(params@.take(i + 1), g) =~= next);
                assert(next.drop_last() =~= before);
                if !contains_text(seen, &id) {
                    let ghost old_out = out@;
                    let ghost old_seen = seen@;
                    out.push(sig);
                    seen.push(id);
                    assert(views(seen@) =~= views(old_seen).push(spec_signature_id(*sig)));
                    assert(derefs(out@) =~= derefs(old_out).push(*sig));
                    assert(sig_ids(derefs(out@)) =~= sig_ids(derefs(old_out)).push(
                        spec_signature_id(*sig),
                    ));
                }
            },
            _ => {
                assert(g(params@[i as int]) =~= Seq::<ClosureSignature>::empty());
                assert(pre + flat_map(params@.take(i + 1), g) =~= before);
            },
        }
        i = i + 1;
    }
    assert(params@.take(i as int) =~= params@);
}

impl Kotlin {
    /// The module's source, in the package named after the module.
    pub fn render_module(module: &Module) -> (r: String)
        requires
            renderable(*module),
        ensures
            r@ == module_source(*module, module.name@, KotlinOptions { factory_style: FactoryStyle::Constructors }),
    {
        Self::render_module_with_package(module, module.name.as_str())
    }

    /// The module's source in `package_name`, with the default options.
    pub fn render_module_with_package(module: &Module, package_name: &str) -> (r: String)
        requires
            renderable(*module),
        ensures
            r@ == module_source(*module, package_name@, KotlinOptions { factory_style: FactoryStyle::Constructors }),
    {
        Self::render_module_with_options(module, package_name, &KotlinOptions::default())
    }

    /// The module's source in `package_name` with `options`.
    pub fn render_module_with_options(
        module: &Module,
        package_name: &str,
        options: &KotlinOptions,
    ) -> (r: String)
        requires
            renderable(*module),
        ensures
            r@ == module_source(*module, package_name@, *options),
    {
        let sections = Self::module_sections(module, package_name, options);
        let ghost all = views(sections@).map_values(|s: Seq<char>| trimmed(s));
        let mut parts: Vec<String> = Vec::new();
        let mut k: usize = 0;
        while k < sections.len()
            invariant
                k <= sections@.len(),
                all == views(sections@).map_values(|s: Seq<char>| trimmed(s)),
                views(parts@) == all.take(k as int).filter(nonempty()),
            decreases sections@.len() - k,
        {
            proof {
                lemma_filter_step(all, nonempty(), k as int);
            }
            let t = trim_text(sections[k].as_str());
            assert(t@ == all[k as int]);
            if !t.as_str().is_empty() {
                let ghost before = parts@;
                parts.push(t);
                assert(views(parts@) =~= views(before).push(all[k as int]));
            }
            k = k + 1;
        }
        assert(all.take(k as int) =~= all);
        let mut output = join(&parts, "\n\n");
        push_char(&mut output, '\n');
        proof {
            reveal_strlit("\n");
        }
        assert(output@ =~= seq_join(views(parts@), "\n\n"@) + "\n"@);
        output
    }

    /// The sections of a module, in order.
    fn module_sections(module: &Module, package_name: &str, options: &KotlinOptions) -> (r: Vec<String>)
        requires
            renderable(*module),
        ensures
            views(r@) == module_sections(*module, package_name@, *options),
    {
        let m = module;
        let mut sections: Vec<String> = Vec::new();
        sections.push(Self::render_preamble_with_package(package_name, m));
        let ghost head = seq![preamble_source(package_name@, *m)];
        assert(views(sections@) =~= head);
        // Enumerations.
        let ghost fe = enum_parts_fn();
        let mut i: usize = 0;
        while i < m.enums.len()
            invariant
                fe == enum_parts_fn(),
                renderable(*m),
                i <= m.enums@.len(),
                views(sections@) == head + flat_map(m.enums@.take(i as int), fe),
            decreases m.enums@.len() - i,
        {
            proof {
                lemma_flat_map_step(m.enums@, fe, i as int);
            }
            let e = &m.enums[i];
            let ghost before = views(sections@);
            sections.push(Self::render_enum(e));
            if e.is_data_enum() || e.is_error {
                sections.push(Self::render_data_enum_codec(e));
                assert(views(sections@) =~= before + enum_parts(*e));
            } else {
                assert(views(sections@) =~= before + enum_parts(*e));
            }
            i = i + 1;
        }
        assert(m.enums@.take(i as int) =~= m.enums@);
        let ghost head = head + flat_map(m.enums@, fe);
        // Records.
        let vec_returns = Self::find_blittable_vec_return_records(m);
        let vec_params = Self::find_blittable_vec_param_records(m);
        let async_returns = Self::find_async_return_records(m);
        let ghost fr = record_parts_fn(*m);
        let mut i: usize = 0;
        while i < m.records.len()
            invariant
                fe == enum_parts_fn(),
                fr == record_parts_fn(*m),
                renderable(*m),
                i <= m.records@.len(),
                views(vec_returns@) == vec_return_names(*m),
                views(vec_params@) == vec_param_names(*m),
                views(async_returns@) == async_return_names(*m),
                views(sections@) == head + flat_map(m.records@.take(i as int), fr),
            decreases m.records@.len() - i,
        {
            proof {
                lemma_flat_map_step(m.records@, fr, i as int);
            }
            let r = &m.records[i];
            let ghost before = views(sections@);
            let rec = Self::render_record(r);
            sections.push(rec);
            let ghost mid = views(sections@);
            let needs_reader = contains_text(&vec_returns, &r.name) || contains_text(
                &async_returns,
                &r.name,
            );
            if needs_reader {
                assert(record_needs_layout(m.records@[i as int], *m));
                sections.push(Self::render_record_reader(r));
            }
            let ghost mid2 = views(sections@);
            if contains_text(&vec_params, &r.name) {
                assert(record_needs_layout(m.records@[i as int], *m));
                sections.push(Self::render_record_writer(r));
            }
            assert(views(sections@) =~= before + record_parts(*r, *m));
            i = i + 1;
        }
        assert(m.records@.take(i as int) =~= m.records@);
        let ghost head = head + flat_map(m.records@, fr);
        // Closure interfaces.
        let closures = Self::collect_unique_closures(m);
        let mut i: usize = 0;
        while i < closures.len()
            invariant
                fe == enum_parts_fn(),
                fr == record_parts_fn(*m),
                i <= closures@.len(),
                derefs(closures@) == unique_closures(*m),
                views(sections@) == head + derefs(closures@).take(i as int).map_values(
                    |s: ClosureSignature| closure_interface_source(s),
                ),
            decreases closures@.len() - i,
        {
            let ghost before = views(sections@);
            let text = Self::render_closure_interface(closures[i]);
            sections.push(text);
            assert(views(sections@) =~= before.push(closure_interface_source(*closures@[i as int])));
            assert(derefs(closures@)[i as int] == *closures@[i as int]);
            assert(derefs(closures@).take(i + 1).map_values(
                |s: ClosureSignature| closure_interface_source(s),
            ) =~= derefs(closures@).take(i as int).map_values(
                |s: ClosureSignature| closure_interface_source(s),
            ).push(closure_interface_source(*closures@[i as int])));
            i = i + 1;
        }
        assert(derefs(closures@).take(i as int) =~= derefs(closures@));
        let ghost head = head + unique_closures(*m).map_values(
            |s: ClosureSignature| closure_interface_source(s),
        );
        // Functions.
        let ghost ff = function_part_fn(*m);
        let mut i: usize = 0;
        while i < m.functions.len()
            invariant
                fe == enum_parts_fn(),
                fr == record_parts_fn(*m),
                ff == function_part_fn(*m),
                i <= m.functions@.len(),
                views(sections@) == head + flat_map(m.functions@.take(i as int), ff),
            decreases m.functions@.len() - i,
        {
            proof {
                lemma_flat_map_step(m.functions@, ff, i as int);
            }
            let f = &m.functions[i];
            let ghost before = views(sections@);
            if Self::is_supported_function(f, m) {
                sections.push(Self::render_function(f, m));
                assert(views(sections@) =~= before + ff(*f));
            } else {
                assert(views(sections@) =~= before + ff(*f));
            }
            i = i + 1;
        }
        assert(m.functions@.take(i as int) =~= m.functions@);
        let ghost head = head + flat_map(m.functions@, ff);
        // Classes.
        let mut i: usize = 0;
        while i < m.classes.len()
            invariant
                fe == enum_parts_fn(),
                fr == record_parts_fn(*m),
                ff == function_part_fn(*m),
                i <= m.classes@.len(),
                views(sections@) == head + m.classes@.take(i as int).map_values(
                    |c: Class| class_source(c, *m, *options),
                ),
            decreases m.classes@.len() - i,
        {
            let ghost before = views(sections@);
            let text = Self::render_class(&m.classes[i], m, options);
            sections.push(text);
            assert(views(sections@) =~= before.push(class_source(m.classes@[i as int], *m, *options)));
            assert(m.classes@.take(i + 1).map_values(|c: Class| class_source(c, *m, *options))
                =~= m.classes@.take(i as int).map_values(|c: Class| class_source(c, *m, *options)).push(
                class_source(m.classes@[i as int], *m, *options),
            ));
            i = i + 1;
        }
        assert(m.classes@.take(i as int) =~= m.classes@);
        let ghost head = head + m.classes@.map_values(|c: Class| class_source(c, *m, *options));
        // Callback traits.
        let mut i: usize = 0;
        while i < m.callback_traits.len()
            invariant
                fe == enum_parts_fn(),
                fr == record_parts_fn(*m),
                ff == function_part_fn(*m),
                i <= m.callback_traits@.len(),
                views(sections@) == head + m.callback_traits@.take(i as int).map_values(
                    |c: CallbackTrait| callback_trait_source(c),
                ),
            decreases m.callback_traits@.len() - i,
        {
            let ghost before = views(sections@);
            let text = Self::render_callback_trait(&m.callback_traits[i], m);
            sections.push(text);
            assert(views(sections@) =~= before.push(callback_trait_source(m.callback_traits@[i as int])));
            assert(m.callback_traits@.take(i + 1).map_values(
                |c: CallbackTrait| callback_trait_source(c),
            ) =~= m.callback_traits@.take(i as int).map_values(
                |c: CallbackTrait| callback_trait_source(c),
            ).push(callback_trait_source(m.callback_traits@[i as int])));
            i = i + 1;
        }
        assert(m.callback_traits@.take(i as int) =~= m.callback_traits@);
        sections.push(Self::render_native(m));
        assert(views(sections@) =~= module_sections(*m, package_name@, *options));
        sections
    }

    /// The preamble, in the package named after the module.
    pub fn render_preamble(module: &Module) -> (r: String)
        ensures
            r@ == preamble_source(lowercase(upper_camel_case(module.name@)), *module),
    {
        let t = PreambleTemplate::from_module(module);
        proof {
            lemma_preamble_text(t, lowercase(upper_camel_case(module.name@)), *module);
        }
        t.render()
    }

    /// The preamble in `package_name`.
    pub fn render_preamble_with_package(package_name: &str, module: &Module) -> (r: String)
        ensures
            r@ == preamble_source(package_name@, *module),
    {
        let t = PreambleTemplate::with_package_and_module(package_name, module);
        proof {
            lemma_preamble_text(t, package_name@, *module);
        }
        t.render()
    }

    /// An enumeration: an `enum class` when plain and no error type, a
    /// sealed class otherwise.
    pub fn render_enum(enumeration: &Enumeration) -> (r: String)
        requires
            enumeration.variants@.len() <= i64::MAX,
        ensures
            r@ == enum_source(*enumeration),
    {
        if enumeration.is_c_style() && !enumeration.is_error {
            let t = CStyleEnumTemplate::from_enum(enumeration);
            proof {
                lemma_c_style_enum_text(t, *enumeration);
            }
            t.render()
        } else {
            let t = SealedEnumTemplate::from_enum(enumeration);
            proof {
                lemma_sealed_enum_text(t, *enumeration);
            }
            t.render()
        }
    }

    /// The codec of a data-carrying enumeration.
    pub fn render_data_enum_codec(enumeration: &Enumeration) -> (r: String)
        requires
            !spec_is_c_style(enumeration.variants@),
            enum_layout_fits(enumeration.variants@),
        ensures
            r@ == codec_source(*enumeration),
    {
        let t = DataEnumCodecTemplate::from_enum(enumeration);
        proof {
            lemma_codec_text(t, *enumeration);
        }
        t.render()
    }

    /// A record's data class.
    pub fn render_record(record: &Record) -> (r: String)
        ensures
            r@ == record_source(*record),
    {
        let t = RecordTemplate::from_record(record);
        proof {
            lemma_record_text(t, *record);
        }
        t.render()
    }

    /// A record's reader.
    pub fn render_record_reader(record: &Record) -> (r: String)
        requires
            record_layout_fits(record.fields@),
        ensures
            r@ == reader_source(*record),
    {
        let t = RecordReaderTemplate::from_record(record);
        proof {
            lemma_reader_text(t, *record);
        }
        t.render()
    }

    /// A record's writer.
    pub fn render_record_writer(record: &Record) -> (r: String)
        requires
            record_layout_fits(record.fields@),
        ensures
            r@ == writer_source(*record),
    {
        let t = RecordWriterTemplate::from_record(record);
        proof {
            lemma_writer_text(t, *record);
        }
        t.render()
    }

    /// The interface of a closure signature.
    pub fn render_closure_interface(sig: &ClosureSignature) -> (r: String)
        ensures
            r@ == closure_interface_source(*sig),
    {
        let t = ClosureInterfaceTemplate::from_signature(sig, "");
        proof {
            lemma_closure_interface_text(t, *sig);
        }
        t.render()
    }

    /// The closure signatures of the module's parameters, one per
    /// identifier, in the order their identifiers first occur.
    pub fn collect_unique_closures(module: &Module) -> (r: Vec<&ClosureSignature>)
        ensures
            derefs(r@) == unique_closures(*module),
    {
        let mut seen: Vec<String> = Vec::new();
        let mut closures: Vec<&ClosureSignature> = Vec::new();
        let ghost ff = fn_closures_fn();
        let ghost fc = class_closures_fn();
        let ghost fm = method_closures_fn();
        assert(flat_map(module.functions@.take(0), ff) =~= Seq::<ClosureSignature>::empty());
        assert(views(seen@) =~= sig_ids(derefs(closures@)));
        let mut i: usize = 0;
        while i < module.functions.len()
            invariant
                ff == fn_closures_fn(),
                fc == class_closures_fn(),
                fm == method_closures_fn(),
                i <= module.functions@.len(),
                derefs(closures@) == dedup_sigs(flat_map(module.functions@.take(i as int), ff)),
                views(seen@) == sig_ids(derefs(closures@)),
            decreases module.functions@.len() - i,
        {
            proof {
                lemma_flat_map_step(module.functions@, ff, i as int);
            }
            add_closures(
                &module.functions[i].inputs,
                &mut seen,
                &mut closures,
                Ghost(flat_map(module.functions@.take(i as int), ff)),
            );
            i = i + 1;
        }
        assert(module.functions@.take(i as int) =~= module.functions@);
        let ghost base = flat_map(module.functions@, ff);
        assert(base + flat_map(module.classes@.take(0), fc) =~= base);
        let mut c: usize = 0;
        while c < module.classes.len()
            invariant
                ff == fn_closures_fn(),
                fc == class_closures_fn(),
                fm == method_closures_fn(),
                c <= module.classes@.len(),
                base == flat_map(module.functions@, ff),
                derefs(closures@) == dedup_sigs(base + flat_map(module.classes@.take(c as int), fc)),
                views(seen@) == sig_ids(derefs(closures@)),
            decreases module.classes@.len() - c,
        {
            proof {
                lemma_flat_map_step(module.classes@, fc, c as int);
            }
            let class = &module.classes[c];
            let ghost pre = base + flat_map(module.classes@.take(c as int), fc);
            assert(pre + flat_map(class.methods@.take(0), fm) =~= pre);
            let mut j: usize = 0;
            while j < class.methods.len()
                invariant
                    ff == fn_closures_fn(),
                    fc == class_closures_fn(),
                    fm == method_closures_fn(),
                    j <= class.methods@.len(),
                    derefs(closures@) == dedup_sigs(pre + flat_map(class.methods@.take(j as int), fm)),
                    views(seen@) == sig_ids(derefs(closures@)),
                decreases class.methods@.len() - j,
            {
                proof {
                    lemma_flat_map_step(class.methods@, fm, j as int);
                }
                let ghost p2 = pre + flat_map(class.methods@.take(j as int), fm);
                add_closures(&class.methods[j].inputs, &mut seen, &mut closures, Ghost(p2));
                assert(p2 + closure_sigs(class.methods@[j as int].inputs@) =~= pre + flat_map(
                    class.methods@.take(j + 1),
                    fm,
                ));
                j = j + 1;
            }
            assert(class.methods@.take(j as int) =~= class.methods@);
            assert(fc(*class) == flat_map(class.methods@, fm));
            assert(pre + flat_map(class.methods@, fm) =~= base + flat_map(
                module.classes@.take(c + 1),
                fc,
            ));
            c = c + 1;
        }
        assert(module.classes@.take(c as int) =~= module.classes@);
        closures
    }

    /// A function: async or not.
    pub fn render_function(function: &Function, module: &Module) -> (r: String)
        ensures
            r@ == kotlin_function_source(*function, *module),
    {
        if function.is_async {
            let t = AsyncFunctionTemplate::from_function(function, module);
            proof {
                lemma_async_function_text(t, *function);
            }
            t.render()
        } else {
            let t = FunctionTemplate::from_function(function, module);
            proof {
                lemma_function_text(t, *function, *module);
            }
            t.render()
        }
    }

    /// A class.
    pub fn render_class(class: &Class, module: &Module, options: &KotlinOptions) -> (r: String)
        ensures
            r@ == class_source(*class, *module, *options),
    {
        let t = ClassTemplate::from_class(class, module, options);
        proof {
            lemma_class_text(t, *class, *module, *options);
        }
        t.render()
    }

    /// The `Native` object.
    pub fn render_native(module: &Module) -> (r: String)
        ensures
            r@ == native_source(*module),
    {
        let t = NativeTemplate::from_module(module);
        proof {
            lemma_native_text(t, *module);
        }
        t.render()
    }

    /// A callback trait.
    pub fn render_callback_trait(callback_trait: &CallbackTrait, module: &Module) -> (r: String)
        ensures
            r@ == callback_trait_source(*callback_trait),
    {
        let t = CallbackTraitTemplate::from_trait(callback_trait, module);
        proof {
            lemma_callback_trait_text(t, *callback_trait);
        }
        t.render()
    }

    /// The blittable records that functions return vectors of, in function
    /// order (a name may repeat).
    pub fn find_blittable_vec_return_records(module: &Module) -> (r: Vec<String>)
        ensures
            views(r@) == vec_return_names(*module),
    {
        let ghost f = vec_return_fn(*module);
        let mut r: Vec<String> = Vec::new();
        let mut i: usize = 0;
        while i < module.functions.len()
            invariant
                f == vec_return_fn(*module),
                i <= module.functions@.len(),
                views(r@) == flat_map(module.functions@.take(i as int), f),
            decreases module.functions@.len() - i,
        {
            proof {
                lemma_flat_map_step(module.functions@, f, i as int);
            }
            let func = &module.functions[i];
            let ghost before = views(r@);
            if let Some(Type::Vec(inner)) = func.returns.ok_type() {
                if let Type::Record(name) = &**inner {
                    if module.record_is_blittable(name) {
                        r.push(crate::text::copy_string(name));
                    }
                }
            }
            assert(views(r@) =~= before + f(*func));
            i = i + 1;
        }
        assert(module.functions@.take(i as int) =~= module.functions@);
        r
    }

    /// The blittable records passed as vectors or slices, in parameter
    /// order (a name may repeat).
    pub fn find_blittable_vec_param_records(module: &Module) -> (r: Vec<String>)
        ensures
            views(r@) == vec_param_names(*module),
    {
        let ghost g = param_record_fn(*module);
        let ghost f = fn_param_records_fn(*module);
        let mut r: Vec<String> = Vec::new();
        let mut i: usize = 0;
        while i < module.functions.len()
            invariant
                g == param_record_fn(*module),
                f == fn_param_records_fn(*module),
                i <= module.functions@.len(),
                views(r@) == flat_map(module.functions@.take(i as int), f),
            decreases module.functions@.len() - i,
        {
            proof {
                lemma_flat_map_step(module.functions@, f, i as int);
            }
            let func = &module.functions[i];
            let ghost base = views(r@);
            assert(base + flat_map(func.inputs@.take(0), g) =~= base);
            let mut j: usize = 0;
            while j < func.inputs.len()
                invariant
                    g == param_record_fn(*module),
                    f == fn_param_records_fn(*module),
                    j <= func.inputs@.len(),
                    views(r@) == base + flat_map(func.inputs@.take(j as int), g),
                decreases func.inputs@.len() - j,
            {
                proof {
                    lemma_flat_map_step(func.inputs@, g, j as int);
                }
                let p = &func.inputs[j];
                let ghost before = views(r@);
                let inner = match &p.param_type {
                    Type::Vec(inner) | Type::Slice(inner) => Some(&**inner),
                    _ => None,
                };
                if let Some(Type::Record(name)) = inner {
                    if module.record_is_blittable(name) {
                        r.push(crate::text::copy_string(name));
                    }
                }
                assert(views(r@) =~= before + g(*p));
                j = j + 1;
            }
            assert(func.inputs@.take(j as int) =~= func.inputs@);
            i = i + 1;
        }
        assert(module.functions@.take(i as int) =~= module.functions@);
        r
    }

    /// The blittable records that async functions return, in function order
    /// (a name may repeat).
    pub fn find_async_return_records(module: &Module) -> (r: Vec<String>)
        ensures
            views(r@) == async_return_names(*module),
    {
        let ghost f = async_return_fn(*module);
        let mut r: Vec<String> = Vec::new();
        let mut i: usize = 0;
        while i < module.functions.len()
            invariant
                f == async_return_fn(*module),
                i <= module.functions@.len(),
                views(r@) == flat_map(module.functions@.take(i as int), f),
            decreases module.functions@.len() - i,
        {
            proof {
                lemma_flat_map_step(module.functions@, f, i as int);
            }
            let func = &module.functions[i];
            let ghost before = views(r@);
            if func.is_async {
                if let Some(Type::Record(name)) = func.returns.ok_type() {
                    if module.record_is_blittable(name) {
                        r.push(crate::text::copy_string(name));
                    }
                }
            }
            assert(views(r@) =~= before + f(*func));
            i = i + 1;
        }
        assert(module.functions@.take(i as int) =~= module.functions@);
        r
    }

    /// Whether a function can be bound.
    pub fn is_supported_function(func: &Function, module: &Module) -> (r: bool)
        ensures
            r == supported_function(*func, *module),
    {
        supported_function_exec(func, module)
    }

    /// Whether an async call's result can be completed.
    pub fn is_supported_async_output(result: &ReturnType, module: &Module) -> (r: bool)
        ensures
            r == supported_async_output(*result, *module),
    {
        supported_async_output_exec(result, module)
    }
}

/// Every function that the generator binds has its Kotlin source among the
/// module's sections.
pub proof fn lemma_bound_function_in_sections(m: Module, package: Seq<char>, o: KotlinOptions, i: int)
    requires
        0 <= i < m.functions@.len(),
        supported_function(m.functions@[i], m),
    ensures
        module_sections(m, package, o).contains(kotlin_function_source(m.functions@[i], m)),
{
    let f = m.functions@[i];
    let x = kotlin_function_source(f, m);
    let fm = function_part_fn(m);
    assert(fm(f) == seq![x]);
    assert(fm(f)[0] == x);
    lemma_flat_map_has(m.functions@, fm, i, x);
    let fs = flat_map(m.functions@, fm);
    let w = choose|w: int| 0 <= w < fs.len() && fs[w] == x;
    let head = seq![preamble_source(package, m)] + flat_map(m.enums@, enum_parts_fn()) + flat_map(
        m.records@,
        record_parts_fn(m),
    ) + unique_closures(m).map_values(|s: ClosureSignature| closure_interface_source(s));
    let tail = m.classes@.map_values(|c: Class| class_source(c, m, o)) + m.callback_traits@.map_values(
        |c: CallbackTrait| callback_trait_source(c),
    ) + seq![native_source(m)];
    let all = module_sections(m, package, o);
    assert(all =~= head + fs + tail);
    assert(all[head.len() + w] == x);
}

} // verus!
