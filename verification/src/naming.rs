//! The symbol names of the C boundary: every generator and the exporting
//! macros derive the same names from the same Rust names.

use vstd::prelude::*;
use crate::case::{snake_case, to_snake_case, to_upper_camel_case, upper_camel_case};
use crate::text::{concat2, concat3, concat4, push_str};
use crate::ffi_macros::spec_to_snake_case;

verus! {

/// The prefix of every exported symbol.
pub open spec fn spec_ffi_prefix() -> Seq<char> {
    "riff"@
}

/// `riff_<function>`.
pub open spec fn spec_function_ffi_name(f: Seq<char>) -> Seq<char> {
    spec_ffi_prefix() + "_"@ + f
}

/// `riff_<snake class>`.
pub open spec fn spec_class_ffi_prefix(c: Seq<char>) -> Seq<char> {
    spec_ffi_prefix() + "_"@ + snake_case(c)
}

/// `riff_<snake class>_<method>`.
pub open spec fn spec_method_ffi_name(c: Seq<char>, m: Seq<char>) -> Seq<char> {
    spec_class_ffi_prefix(c) + "_"@ + m
}

/// The prefix of every exported symbol.
pub fn ffi_prefix() -> (r: &'static str)
    ensures
        r@ == spec_ffi_prefix(),
{
    "riff"
}

/// The symbol of a free function.
pub fn function_ffi_name(f: &str) -> (r: String)
    ensures
        r@ == spec_function_ffi_name(f@),
{
    concat3(ffi_prefix(), "_", f)
}

/// The poll entry point of an async free function.
pub fn function_ffi_poll(f: &str) -> (r: String)
    ensures
        r@ == spec_function_ffi_name(f@) + "_poll"@,
{
    let mut r = function_ffi_name(f);
    push_str(&mut r, "_poll");
    r
}

/// The completion entry point of an async free function.
pub fn function_ffi_complete(f: &str) -> (r: String)
    ensures
        r@ == spec_function_ffi_name(f@) + "_complete"@,
{
    let mut r = function_ffi_name(f);
    push_str(&mut r, "_complete");
    r
}

/// The cancellation entry point of an async free function.
pub fn function_ffi_cancel(f: &str) -> (r: String)
    ensures
        r@ == spec_function_ffi_name(f@) + "_cancel"@,
{
    let mut r = function_ffi_name(f);
    push_str(&mut r, "_cancel");
    r
}

/// The release entry point of an async free function.
pub fn function_ffi_free(f: &str) -> (r: String)
    ensures
        r@ == spec_function_ffi_name(f@) + "_free"@,
{
    let mut r = function_ffi_name(f);
    push_str(&mut r, "_free");
    r
}

/// The common prefix of a class's symbols.
pub fn class_ffi_prefix(c: &str) -> (r: String)
    ensures
        r@ == spec_class_ffi_prefix(c@),
{
    let s = to_snake_case(c);
    concat3(ffi_prefix(), "_", s.as_str())
}

/// The default constructor of a class.
pub fn class_ffi_new(c: &str) -> (r: String)
    ensures
        r@ == spec_class_ffi_prefix(c@) + "_new"@,
{
    let mut r = class_ffi_prefix(c);
    push_str(&mut r, "_new");
    r
}

/// The destructor of a class.
pub fn class_ffi_free(c: &str) -> (r: String)
    ensures
        r@ == spec_class_ffi_prefix(c@) + "_free"@,
{
    let mut r = class_ffi_prefix(c);
    push_str(&mut r, "_free");
    r
}

/// The symbol of a method (or a named constructor).
pub fn method_ffi_name(c: &str, m: &str) -> (r: String)
    ensures
        r@ == spec_method_ffi_name(c@, m@),
{
    let mut r = class_ffi_prefix(c);
    push_str(&mut r, "_");
    push_str(&mut r, m);
    r
}

/// A method symbol followed by `suffix`.
fn method_ffi_with(c: &str, m: &str, suffix: &str) -> (r: String)
    ensures
        r@ == spec_method_ffi_name(c@, m@) + suffix@,
{
    let mut r = method_ffi_name(c, m);
    push_str(&mut r, suffix);
    r
}

/// The poll entry point of an async method.
pub fn method_ffi_poll(c: &str, m: &str) -> (r: String)
    ensures
        r@ == spec_method_ffi_name(c@, m@) + "_poll"@,
{
    method_ffi_with(c, m, "_poll")
}

/// The completion entry point of an async method.
pub fn method_ffi_complete(c: &str, m: &str) -> (r: String)
    ensures
        r@ == spec_method_ffi_name(c@, m@) + "_complete"@,
{
    method_ffi_with(c, m, "_complete")
}

/// The cancellation entry point of an async method.
pub fn method_ffi_cancel(c: &str, m: &str) -> (r: String)
    ensures
        r@ == spec_method_ffi_name(c@, m@) + "_cancel"@,
{
    method_ffi_with(c, m, "_cancel")
}

/// The release entry point of an async method.
pub fn method_ffi_free(c: &str, m: &str) -> (r: String)
    ensures
        r@ == spec_method_ffi_name(c@, m@) + "_free"@,
{
    method_ffi_with(c, m, "_free")
}

/// The subscription entry point of a stream.
pub fn stream_ffi_subscribe(c: &str, s: &str) -> (r: String)
    ensures
        r@ == spec_method_ffi_name(c@, s@) + "_subscribe"@,
{
    method_ffi_with(c, s, "_subscribe")
}

/// The batch-pop entry point of a stream.
pub fn stream_ffi_pop_batch(c: &str, s: &str) -> (r: String)
    ensures
        r@ == spec_method_ffi_name(c@, s@) + "_pop_batch"@,
{
    method_ffi_with(c, s, "_pop_batch")
}

/// The poll entry point of a stream.
pub fn stream_ffi_poll(c: &str, s: &str) -> (r: String)
    ensures
        r@ == spec_method_ffi_name(c@, s@) + "_poll"@,
{
    method_ffi_with(c, s, "_poll")
}

/// The blocking-wait entry point of a stream.
pub fn stream_ffi_wait(c: &str, s: &str) -> (r: String)
    ensures
        r@ == spec_method_ffi_name(c@, s@) + "_wait"@,
{
    method_ffi_with(c, s, "_wait")
}

/// The unsubscribe entry point of a stream.
pub fn stream_ffi_unsubscribe(c: &str, s: &str) -> (r: String)
    ensures
        r@ == spec_method_ffi_name(c@, s@) + "_unsubscribe"@,
{
    method_ffi_with(c, s, "_unsubscribe")
}

/// The release entry point of a stream subscription.
pub fn stream_ffi_free(c: &str, s: &str) -> (r: String)
    ensures
        r@ == spec_method_ffi_name(c@, s@) + "_free"@,
{
    method_ffi_with(c, s, "_free")
}

/// The vtable type of a callback trait.
pub fn callback_vtable_name(t: &str) -> (r: String)
    ensures
        r@ == upper_camel_case(t@) + "VTable"@,
{
    let u = to_upper_camel_case(t);
    concat2(u.as_str(), "VTable")
}

/// The Rust type that wraps a foreign implementation of a callback trait.
pub fn callback_foreign_name(t: &str) -> (r: String)
    ensures
        r@ == "Foreign"@ + upper_camel_case(t@),
{
    let u = to_upper_camel_case(t);
    concat2("Foreign", u.as_str())
}

/// The entry point that registers a callback trait's vtable.
pub fn callback_register_fn(t: &str) -> (r: String)
    ensures
        r@ == spec_ffi_prefix() + "_register_"@ + snake_case(t@) + "_vtable"@,
{
    let s = to_snake_case(t);
    let mut r = concat3(ffi_prefix(), "_register_", s.as_str());
    push_str(&mut r, "_vtable");
    r
}

/// The entry point that wraps a foreign handle of a callback trait.
pub fn callback_create_fn(t: &str) -> (r: String)
    ensures
        r@ == spec_ffi_prefix() + "_create_"@ + snake_case(t@) + "_handle"@,
{
    let s = to_snake_case(t);
    concat4(ffi_prefix(), "_create_", s.as_str(), "_handle")
}

/// The snake_case form of a name.
pub fn to_snake(name: &str) -> (r: String)
    ensures
        r@ == snake_case(name@),
{
    to_snake_case(name)
}

/// The buffer-release entry point of the runtime.
pub fn free_buf_fn() -> (r: String)
    ensures
        r@ == spec_ffi_prefix() + "_free_buf"@,
{
    concat2(ffi_prefix(), "_free_buf")
}

// ---------------------------------------------------------------------------
// The symbols that the export attributes give a crate (`mffi_...`), which the
// plain Swift bindings call.
// ---------------------------------------------------------------------------

/// The prefix of the symbols that the export attributes declare.
pub open spec fn spec_export_prefix() -> Seq<char> {
    "mffi"@
}

/// `mffi_<snake type>`, in the export attributes' snake case.
pub open spec fn spec_export_type_prefix(ty: Seq<char>) -> Seq<char> {
    spec_export_prefix() + "_"@ + spec_to_snake_case(ty)
}

/// `mffi_<snake type>_<member>`.
pub open spec fn spec_export_member(ty: Seq<char>, m: Seq<char>) -> Seq<char> {
    spec_export_type_prefix(ty) + "_"@ + m
}

/// `mffi_<snake type>` followed by `suffix`.
pub fn export_type_symbol(ty: &str, suffix: &str) -> (r: String)
    ensures
        r@ == spec_export_type_prefix(ty@) + suffix@,
{
    let snake = crate::ffi_macros::to_snake_case(ty);
    let mut r = concat3("mffi", "_", snake.as_str());
    push_str(&mut r, suffix);
    proof {
        reveal_strlit("mffi");
    }
    r
}

/// `mffi_<snake type>_<member>`.
pub fn export_member_symbol(ty: &str, m: &str) -> (r: String)
    ensures
        r@ == spec_export_member(ty@, m@),
{
    let mut r = export_type_symbol(ty, "_");
    push_str(&mut r, m);
    r
}

/// `mffi_<snake type>_<member>` followed by `suffix`.
pub fn export_member_suffixed(ty: &str, m: &str, suffix: &str) -> (r: String)
    ensures
        r@ == spec_export_member(ty@, m@) + suffix@,
{
    let mut r = export_member_symbol(ty, m);
    push_str(&mut r, suffix);
    r
}

} // verus!
