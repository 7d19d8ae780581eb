//! How parameters cross the C ABI from Swift: the closures that pin a
//! buffer for the call, and the arguments passed.

use vstd::prelude::*;
use crate::case::upper_camel_case;
use crate::model::Type;
use crate::text::{
    concat2, concat3, concat4, flat_map, join, lemma_flat_map_step, seq_join, string_of, views,
};
use super::names::{swift_member, NamingConvention};
use super::types::{lemma_models_text, swift_type_text, SwiftType};

verus! {

/// How one parameter is passed.
pub struct ParamConversion {
    pub name: String,
    pub swift_type: String,
    pub wrapper_pre: Option<String>,
    pub wrapper_post: Option<String>,
    pub ffi_args: Vec<String>,
    pub is_mutable: bool,
    pub is_escaping: bool,
}

/// The closure opened around the call to pin parameter `n` of type `t`,
/// if it needs one.
pub open spec fn wrapper_open(n: Seq<char>, t: Type) -> Option<Seq<char>> {
    match t {
        Type::String => Some(n + ".withCString { "@ + n + "Ptr in"@),
        Type::Bytes => Some(n + ".withUnsafeBytes { "@ + n + "Ptr in"@),
        Type::Slice(_) => Some(n + ".withUnsafeBufferPointer { "@ + n + "Ptr in"@),
        Type::Vec(_) => Some(n + ".withUnsafeBufferPointer { "@ + n + "Ptr in"@),
        Type::MutSlice(_) => Some(n + ".withUnsafeMutableBufferPointer { "@ + n + "Ptr in"@),
        _ => None,
    }
}

/// The arguments passed for parameter `n` of type `t`.
pub open spec fn ffi_args_of(n: Seq<char>, t: Type) -> Seq<Seq<char>> {
    match t {
        Type::String => seq![
            "UnsafeRawPointer("@ + n + "Ptr).assumingMemoryBound(to: UInt8.self)"@,
            "UInt("@ + n + ".utf8.count)"@,
        ],
        Type::Bytes => seq![
            n + "Ptr.baseAddress!.assumingMemoryBound(to: UInt8.self)"@,
            "UInt("@ + n + ".count)"@,
        ],
        Type::Slice(_) => seq![n + "Ptr.baseAddress"@, "UInt("@ + n + "Ptr.count)"@],
        Type::Vec(_) => seq![n + "Ptr.baseAddress"@, "UInt("@ + n + "Ptr.count)"@],
        Type::MutSlice(_) => seq![n + "Ptr.baseAddress"@, "UInt("@ + n + "Ptr.count)"@],
        Type::Enum(_) => seq![n + ".cValue"@],
        Type::BoxedTrait(tn) => seq![upper_camel_case(tn@) + "Bridge.create("@ + n + ")"@],
        _ => seq![n],
    }
}

/// The view of an optional string.
pub open spec fn opt_view(o: Option<String>) -> Option<Seq<char>> {
    match o {
        Some(s) => Some(s@),
        None => None,
    }
}

/// Whether `c` passes parameter `name` of type `t`.
pub open spec fn conversion_of(c: ParamConversion, name: Seq<char>, t: Type) -> bool {
    let n = swift_member(name);
    &&& c.name@ == n
    &&& c.swift_type@ == swift_type_text(t)
    &&& opt_view(c.wrapper_pre) == wrapper_open(n, t)
    &&& opt_view(c.wrapper_post) == (if wrapper_open(n, t) is Some {
        Some("}"@)
    } else {
        None
    })
    &&& views(c.ffi_args@) == ffi_args_of(n, t)
    &&& c.is_mutable == (t is MutSlice)
    &&& c.is_escaping == (t is Closure)
}

/// Builds one argument list.
fn args2(a: String, b: String) -> (r: Vec<String>)
    ensures
        views(r@) == seq![a@, b@],
{
    let mut r: Vec<String> = Vec::new();
    r.push(a);
    r.push(b);
    assert(views(r@) =~= seq![a@, b@]);
    r
}

/// Builds one argument list of one argument.
fn args1(a: String) -> (r: Vec<String>)
    ensures
        views(r@) == seq![a@],
{
    let mut r: Vec<String> = Vec::new();
    r.push(a);
    assert(views(r@) =~= seq![a@]);
    r
}

impl ParamConversion {
    /// How parameter `name` of type `ty` is passed.
    pub fn from_param(name: &str, ty: &Type) -> (r: Self)
        ensures
            conversion_of(r, name@, *ty),
    {
        let swift_ty = SwiftType::from_model(ty);
        proof {
            lemma_models_text(swift_ty, *ty);
        }
        let n = NamingConvention::param_name(name);
        let s = n.as_str();
        let (wrapper_pre, ffi_args, wrapper_post, is_mutable) = match &swift_ty {
            SwiftType::String => (
                Some(concat4(s, ".withCString { ", s, "Ptr in")),
                args2(
                    concat3("UnsafeRawPointer(", s, "Ptr).assumingMemoryBound(to: UInt8.self)"),
                    concat3("UInt(", s, ".utf8.count)"),
                ),
                Some(string_of("}")),
                false,
            ),
            SwiftType::Bytes => (
                Some(concat4(s, ".withUnsafeBytes { ", s, "Ptr in")),
                args2(
                    concat2(s, "Ptr.baseAddress!.assumingMemoryBound(to: UInt8.self)"),
                    concat3("UInt(", s, ".count)"),
                ),
                Some(string_of("}")),
                false,
            ),
            SwiftType::Slice { mutable: false, .. } | SwiftType::Vec(_) => (
                Some(concat4(s, ".withUnsafeBufferPointer { ", s, "Ptr in")),
                args2(concat2(s, "Ptr.baseAddress"), concat3("UInt(", s, "Ptr.count)")),
                Some(string_of("}")),
                false,
            ),
            SwiftType::Slice { mutable: true, .. } => (
                Some(concat4(s, ".withUnsafeMutableBufferPointer { ", s, "Ptr in")),
                args2(concat2(s, "Ptr.baseAddress"), concat3("UInt(", s, "Ptr.count)")),
                Some(string_of("}")),
                true,
            ),
            SwiftType::Enum(_) => (None, args1(concat2(s, ".cValue")), None, false),
            SwiftType::BoxedTrait(trait_name) => {
                let c = NamingConvention::class_name(trait_name.as_str());
                (None, args1(concat4(c.as_str(), "Bridge.create(", s, ")")), None, false)
            },
            _ => (None, args1(string_of(s)), None, false),
        };
        let is_escaping = matches!(&swift_ty, SwiftType::Closure { .. });
        ParamConversion {
            swift_type: swift_ty.swift_type(),
            name: n,
            wrapper_pre,
            wrapper_post,
            ffi_args,
            is_mutable,
            is_escaping,
        }
    }

    /// Whether the call must be wrapped in a closure pinning this parameter.
    pub fn needs_wrapper(&self) -> (r: bool)
        ensures
            r == (self.wrapper_pre is Some),
    {
        self.wrapper_pre.is_some()
    }
}

/// The opening line of a conversion's wrapper, if any.
pub open spec fn open_lines_fn() -> spec_fn(ParamConversion) -> Seq<Seq<char>> {
    |p: ParamConversion| match p.wrapper_pre {
        Some(s) => seq![s@],
        None => Seq::empty(),
    }
}

/// The closing line of a conversion's wrapper, if any.
pub open spec fn close_lines_fn() -> spec_fn(ParamConversion) -> Seq<Seq<char>> {
    |p: ParamConversion| match p.wrapper_post {
        Some(s) => seq![s@],
        None => Seq::empty(),
    }
}

/// The arguments of a conversion.
pub open spec fn args_fn() -> spec_fn(ParamConversion) -> Seq<Seq<char>> {
    |p: ParamConversion| views(p.ffi_args@)
}

/// The opening lines of the wrappers, in parameter order.
pub open spec fn opens(ps: Seq<ParamConversion>) -> Seq<Seq<char>> {
    flat_map(ps, open_lines_fn())
}

/// The closing lines of the wrappers, in parameter order.
pub open spec fn closes(ps: Seq<ParamConversion>) -> Seq<Seq<char>> {
    flat_map(ps, close_lines_fn())
}

/// All arguments of the parameters, in order.
pub open spec fn all_args(ps: Seq<ParamConversion>) -> Seq<Seq<char>> {
    flat_map(ps, args_fn())
}

/// Builds the arguments and wrappers of a synchronous call.
pub struct SyncCallBuilder {
    params: Vec<ParamConversion>,
    include_handle: bool,
}

impl SyncCallBuilder {
    /// The parameters' conversions.
    pub closed spec fn params_spec(self) -> Seq<ParamConversion> {
        self.params@
    }

    /// Whether the call passes the object's handle first.
    pub closed spec fn include_handle_spec(self) -> bool {
        self.include_handle
    }

    /// A builder without parameters.
    pub fn new(_ffi_name: &str, include_handle: bool) -> (r: Self)
        ensures
            r.params_spec().len() == 0,
            r.include_handle_spec() == include_handle,
    {
        SyncCallBuilder { params: Vec::new(), include_handle }
    }

    /// The builder with the conversions of `params` (name and type each).
    pub fn with_params(self, params: &Vec<(&str, &Type)>) -> (r: Self)
        ensures
            r.include_handle_spec() == self.include_handle_spec(),
            r.params_spec().len() == params@.len(),
            forall|i: int|
                0 <= i < params@.len() ==> conversion_of(
                    #[trigger] r.params_spec()[i],
                    params@[i].0@,
                    *params@[i].1,
                ),
    {
        let mut convs: Vec<ParamConversion> = Vec::new();
        let mut i: usize = 0;
        while i < params.len()
            invariant
                i <= params@.len(),
                convs@.len() == i,
                forall|k: int|
                    0 <= k < i ==> conversion_of(#[trigger] convs@[k], params@[k].0@, *params@[k].1),
            decreases params@.len() - i,
        {
            let (n, t) = params[i];
            convs.push(ParamConversion::from_param(n, t));
            i = i + 1;
        }
        SyncCallBuilder { params: convs, include_handle: self.include_handle }
    }

    /// Whether some parameter needs a wrapper.
    pub fn has_wrappers(&self) -> (r: bool)
        ensures
            r == exists|i: int|
                0 <= i < self.params_spec().len() && (#[trigger] self.params_spec()[i]).wrapper_pre is Some,
    {
        let mut i: usize = 0;
        while i < self.params.len()
            invariant
                i <= self.params@.len(),
                forall|k: int| 0 <= k < i ==> (#[trigger] self.params@[k]).wrapper_pre is None,
            decreases self.params@.len() - i,
        {
            if self.params[i].needs_wrapper() {
                return true;
            }
            i = i + 1;
        }
        false
    }

    /// The opening lines of the wrappers, one per line, in parameter order.
    pub fn build_wrappers_open(&self) -> (r: String)
        ensures
            r@ == seq_join(opens(self.params_spec()), "\n"@),
    {
        let ghost f = open_lines_fn();
        let mut lines: Vec<String> = Vec::new();
        let mut i: usize = 0;
        while i < self.params.len()
            invariant
                i <= self.params@.len(),
                f == open_lines_fn(),
                views(lines@) == flat_map(self.params@.take(i as int), f),
            decreases self.params@.len() - i,
        {
            proof {
                lemma_flat_map_step(self.params@, f, i as int);
            }
            let ghost before = views(lines@);
            match &self.params[i].wrapper_pre {
                Some(s) => lines.push(crate::text::copy_string(s)),
                None => {},
            }
            assert(views(lines@) =~= before + f(self.params@[i as int]));
            i = i + 1;
        }
        assert(self.params@.take(i as int) =~= self.params@);
        join(&lines, "\n")
    }

    /// The closing lines of the wrappers, one per line, innermost first.
    pub fn build_wrappers_close(&self) -> (r: String)
        ensures
            r@ == seq_join(closes(self.params_spec()).reverse(), "\n"@),
    {
        let ghost f = close_lines_fn();
        let mut fwd: Vec<String> = Vec::new();
        let mut i: usize = 0;
        while i < self.params.len()
            invariant
                i <= self.params@.len(),
                f == close_lines_fn(),
                views(fwd@) == flat_map(self.params@.take(i as int), f),
            decreases self.params@.len() - i,
        {
            proof {
                lemma_flat_map_step(self.params@, f, i as int);
            }
            let ghost before = views(fwd@);
            match &self.params[i].wrapper_post {
                Some(s) => fwd.push(crate::text::copy_string(s)),
                None => {},
            }
            assert(views(fwd@) =~= before + f(self.params@[i as int]));
            i = i + 1;
        }
        assert(self.params@.take(i as int) =~= self.params@);
        let n = fwd.len();
        let mut lines: Vec<String> = Vec::new();
        let mut k: usize = 0;
        while k < n
            invariant
                k <= n,
                n == fwd@.len(),
                views(lines@) == views(fwd@).reverse().take(k as int),
            decreases n - k,
        {
            let ghost before = views(lines@);
            lines.push(crate::text::copy_string(&fwd[n - 1 - k]));
            assert(views(lines@) =~= before.push(fwd@[n - 1 - k]@));
            assert(views(fwd@).reverse()[k as int] == fwd@[n - 1 - k]@);
            assert(views(lines@) =~= views(fwd@).reverse().take(k + 1));
            k = k + 1;
        }
        assert(views(fwd@).reverse().take(n as int) =~= views(fwd@).reverse());
        join(&lines, "\n")
    }

    /// The arguments of the call: the handle when asked for, then each
    /// parameter's arguments, separated by `, `.
    pub fn build_ffi_args(&self) -> (r: String)
        ensures
            r@ == seq_join(
                (if self.include_handle_spec() {
                    seq!["handle"@]
                } else {
                    Seq::empty()
                }) + all_args(self.params_spec()),
                ", "@,
            ),
    {
        let ghost f = args_fn();
        let mut parts: Vec<String> = Vec::new();
        if self.include_handle {
            parts.push(string_of("handle"));
        }
        let ghost head = views(parts@);
        assert(head + flat_map(self.params@.take(0), f) =~= head);
        let mut i: usize = 0;
        while i < self.params.len()
            invariant
                i <= self.params@.len(),
                f == args_fn(),
                views(parts@) == head + flat_map(self.params@.take(i as int), f),
            decreases self.params@.len() - i,
        {
            proof {
                lemma_flat_map_step(self.params@, f, i as int);
            }
            let args = &self.params[i].ffi_args;
            let ghost base = views(parts@);
            let mut j: usize = 0;
            while j < args.len()
                invariant
                    j <= args@.len(),
                    views(parts@) == base + views(args@.take(j as int)),
                decreases args@.len() - j,
            {
                let ghost b2 = views(parts@);
                parts.push(crate::text::copy_string(&args[j]));
                assert(views(parts@) =~= b2.push(args@[j as int]@));
                assert(views(args@.take(j + 1)) =~= views(args@.take(j as int)).push(args@[j as int]@));
                j = j + 1;
            }
            assert(args@.take(j as int) =~= args@);
            assert(views(parts@) =~= head + flat_map(self.params@.take(i + 1), f));
            i = i + 1;
        }
        assert(self.params@.take(i as int) =~= self.params@);
        assert(head =~= (if self.include_handle {
            seq!["handle"@]
        } else {
            Seq::<Seq<char>>::empty()
        }));
        join(&parts, ", ")
    }
}

/// Every wrapper opened around a call is closed: for the conversions of a
/// parameter list, there are as many closing lines as opening lines, and
/// each closing line is `}`.
pub proof fn lemma_wrappers_balanced(ps: Seq<ParamConversion>, names: Seq<Seq<char>>, types: Seq<Type>)
    requires
        ps.len() == names.len(),
        ps.len() == types.len(),
        forall|i: int| 0 <= i < ps.len() ==> conversion_of(#[trigger] ps[i], names[i], types[i]),
    ensures
        closes(ps).len() == opens(ps).len(),
        forall|k: int| 0 <= k < closes(ps).len() ==> closes(ps)[k] == "}"@,
    decreases ps.len(),
{
    if ps.len() > 0 {
        let n = (ps.len() - 1) as int;
        lemma_wrappers_balanced(ps.drop_last(), names.drop_last(), types.drop_last());
        assert(conversion_of(ps[n], names[n], types[n]));
        assert(ps.last() == ps[n]);
    }
}

/// A buffer parameter (a vector or a slice) is pinned by a closure that
/// binds `<name>Ptr`, and is passed as the C entry point takes a buffer:
/// first that pointer's base address, then its element count as a `UInt`.
pub proof fn lemma_buffer_passed_as_pointer_then_count(c: ParamConversion, name: Seq<char>, t: Type)
    requires
        conversion_of(c, name, t),
        t is Vec || t is Slice || t is MutSlice,
    ensures
        c.wrapper_pre matches Some(w) && w@.len() >= (swift_member(name) + "Ptr in"@).len() && w@.subrange(
            w@.len() - (swift_member(name) + "Ptr in"@).len(),
            w@.len() as int,
        ) == swift_member(name) + "Ptr in"@,
        c.ffi_args@.len() == 2,
        c.ffi_args@[0]@ == swift_member(name) + "Ptr"@ + ".baseAddress"@,
        c.ffi_args@[1]@ == "UInt("@ + (swift_member(name) + "Ptr"@) + ".count"@ + ")"@,
{
    let n = swift_member(name);
    reveal_strlit("Ptr.baseAddress");
    reveal_strlit("Ptr");
    reveal_strlit(".baseAddress");
    reveal_strlit("Ptr.count)");
    reveal_strlit(".count");
    reveal_strlit(")");
    reveal_strlit("Ptr in");
    assert(n + "Ptr.baseAddress"@ =~= n + "Ptr"@ + ".baseAddress"@);
    assert("UInt("@ + n + "Ptr.count)"@ =~= "UInt("@ + (n + "Ptr"@) + ".count"@ + ")"@);
    assert(ffi_args_of(n, t).len() == 2);
    assert(views(c.ffi_args@).len() == c.ffi_args@.len());
    assert(views(c.ffi_args@)[0] == c.ffi_args@[0]@);
    assert(views(c.ffi_args@)[1] == c.ffi_args@[1]@);
    let w = c.wrapper_pre->0@;
    let open = wrapper_open(n, t)->0;
    assert(w == open);
    let tail = n + "Ptr in"@;
    if t is MutSlice {
        assert(open =~= (n + ".withUnsafeMutableBufferPointer { "@) + tail);
    } else {
        assert(open =~= (n + ".withUnsafeBufferPointer { "@) + tail);
    }
    assert(open.subrange(open.len() - tail.len(), open.len() as int) =~= tail);
}

/// A string or a byte buffer is passed as the C entry point takes text:
/// first a pointer to its UTF-8 bytes (`<name>Ptr` bound by the pinning
/// closure), then its length in bytes as a `UInt`.
pub proof fn lemma_text_passed_as_pointer_then_length(c: ParamConversion, name: Seq<char>, t: Type)
    requires
        conversion_of(c, name, t),
        t is String || t is Bytes,
    ensures
        c.ffi_args@.len() == 2,
        t is String ==> c.ffi_args@[0]@ == "UnsafeRawPointer("@ + (swift_member(name) + "Ptr"@)
            + ").assumingMemoryBound(to: UInt8.self)"@,
        t is String ==> c.ffi_args@[1]@ == "UInt("@ + swift_member(name) + ".utf8.count"@ + ")"@,
        t is Bytes ==> c.ffi_args@[0]@ == (swift_member(name) + "Ptr"@)
            + ".baseAddress!.assumingMemoryBound(to: UInt8.self)"@,
        t is Bytes ==> c.ffi_args@[1]@ == "UInt("@ + swift_member(name) + ".count"@ + ")"@,
{
    let n = swift_member(name);
    assert(ffi_args_of(n, t).len() == 2);
    assert(views(c.ffi_args@).len() == c.ffi_args@.len());
    assert(views(c.ffi_args@)[0] == c.ffi_args@[0]@);
    assert(views(c.ffi_args@)[1] == c.ffi_args@[1]@);
    reveal_strlit("Ptr).assumingMemoryBound(to: UInt8.self)");
    reveal_strlit("Ptr");
    reveal_strlit(").assumingMemoryBound(to: UInt8.self)");
    reveal_strlit(".utf8.count)");
    reveal_strlit(".utf8.count");
    reveal_strlit(")");
    reveal_strlit("Ptr.baseAddress!.assumingMemoryBound(to: UInt8.self)");
    reveal_strlit(".baseAddress!.assumingMemoryBound(to: UInt8.self)");
    reveal_strlit(".count)");
    reveal_strlit(".count");
    assert("UnsafeRawPointer("@ + n + "Ptr).assumingMemoryBound(to: UInt8.self)"@ =~= "UnsafeRawPointer("@
        + (n + "Ptr"@) + ").assumingMemoryBound(to: UInt8.self)"@);
    assert("UInt("@ + n + ".utf8.count)"@ =~= "UInt("@ + n + ".utf8.count"@ + ")"@);
    assert(n + "Ptr.baseAddress!.assumingMemoryBound(to: UInt8.self)"@ =~= (n + "Ptr"@)
        + ".baseAddress!.assumingMemoryBound(to: UInt8.self)"@);
    assert("UInt("@ + n + ".count)"@ =~= "UInt("@ + n + ".count"@ + ")"@);
}

} // verus!
