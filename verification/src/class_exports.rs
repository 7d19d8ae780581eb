//! The C entry points that the class attribute adds for an exported type:
//! which entry points each method gets, the type's constructor and
//! destructor, and the six entry points of an event stream.

use vstd::prelude::*;
use crate::ffi_macros::{lemma_extern_fn_declares, lemma_extern_fn_whole, spec_extern_fn, FfiClassError};
use crate::naming::{
    class_ffi_free, class_ffi_new, spec_class_ffi_prefix, spec_method_ffi_name, stream_ffi_free,
    stream_ffi_poll, stream_ffi_pop_batch, stream_ffi_subscribe, stream_ffi_unsubscribe,
    stream_ffi_wait,
};
use crate::text::{
    concat2, concat3, copy_string, join, lemma_join_part_occurs, lemma_occurs_trans, occurs_in,
    push_str, seq_join, string_of, views,
};

verus! {

/// An attribute of a method: whether it is `#[ffi_stream(..)]`, and the
/// type given as its `item`, when one is.
#[derive(Debug)]
pub struct StreamAttr {
    pub is_ffi_stream: bool,
    pub item: Option<String>,
}

/// A function of an exported type's `impl` block, as the class attribute
/// reads it.
#[derive(Debug)]
pub struct ClassMethod {
    pub name: String,
    pub is_pub: bool,
    pub is_async: bool,
    pub has_skip_attr: bool,
    pub attrs: Vec<StreamAttr>,
}

/// Which entry points a method gets.
#[derive(Debug)]
pub enum MethodExport {
    /// The six entry points of a stream of `item`s.
    Stream { item: String },
    /// The entry points of an async method.
    Async,
    /// The entry point of a synchronous method.
    Sync,
}

/// The item type of the first `#[ffi_stream(item = ..)]` attribute that
/// gives one.
pub open spec fn spec_stream_item(attrs: Seq<StreamAttr>) -> Option<Seq<char>>
    decreases attrs.len(),
{
    if attrs.len() == 0 {
        None
    } else if attrs[0].is_ffi_stream && attrs[0].item is Some {
        Some(attrs[0].item->0@)
    } else {
        spec_stream_item(attrs.drop_first())
    }
}

/// The item type of the first `#[ffi_stream(item = ..)]` attribute that
/// gives one.
pub fn extract_ffi_stream_item(attrs: &Vec<StreamAttr>) -> (r: Option<String>)
    ensures
        match r {
            Some(t) => spec_stream_item(attrs@) == Some(t@),
            None => spec_stream_item(attrs@) is None,
        },
{
    let mut i: usize = 0;
    assert(attrs@.skip(0) =~= attrs@);
    while i < attrs.len()
        invariant
            i <= attrs@.len(),
            spec_stream_item(attrs@) == spec_stream_item(attrs@.skip(i as int)),
        decreases attrs@.len() - i,
    {
        assert(attrs@.skip(i as int)[0] == attrs@[i as int]);
        assert(attrs@.skip(i as int).drop_first() =~= attrs@.skip(i + 1));
        let a = &attrs[i];
        if a.is_ffi_stream {
            match &a.item {
                Some(t) => {
                    return Some(copy_string(t));
                },
                None => {},
            }
        }
        i = i + 1;
    }
    None
}

/// The entry points a method gets: none for a method marked `skip` or not
/// `pub`; the stream entry points when it is marked as a stream; else the
/// async or the synchronous entry points.
pub open spec fn spec_method_export(m: ClassMethod) -> Option<(nat, Seq<char>)> {
    if m.has_skip_attr || !m.is_pub {
        None
    } else if spec_stream_item(m.attrs@) is Some {
        Some((0, spec_stream_item(m.attrs@)->0))
    } else if m.is_async {
        Some((1, Seq::empty()))
    } else {
        Some((2, Seq::empty()))
    }
}

impl View for MethodExport {
    type V = (nat, Seq<char>);

    /// The kind (0 stream, 1 async, 2 synchronous) and the stream's item.
    open spec fn view(&self) -> (nat, Seq<char>) {
        match self {
            MethodExport::Stream { item } => (0, item@),
            MethodExport::Async => (1, Seq::empty()),
            MethodExport::Sync => (2, Seq::empty()),
        }
    }
}

/// The entry points a method gets.
pub fn classify_class_method(m: &ClassMethod) -> (r: Option<MethodExport>)
    ensures
        match r {
            Some(e) => spec_method_export(*m) == Some(e@),
            None => spec_method_export(*m) is None,
        },
{
    if m.has_skip_attr || !m.is_pub {
        return None;
    }
    match extract_ffi_stream_item(&m.attrs) {
        Some(item) => Some(MethodExport::Stream { item }),
        None => if m.is_async {
            Some(MethodExport::Async)
        } else {
            Some(MethodExport::Sync)
        },
    }
}

/// The constructor and destructor entry points of the type `ty_name`.
pub open spec fn spec_lifecycle_exports(ty_name: Seq<char>) -> Seq<char> {
    spec_extern_fn("pub"@, false, spec_class_ffi_prefix(ty_name) + "_new"@, Seq::empty(),
        " -> *mut "@ + ty_name, "    Box::into_raw(Box::new("@ + ty_name + "::new()))\n"@) + "\n"@
        + spec_extern_fn("pub"@, true, spec_class_ffi_prefix(ty_name) + "_free"@,
        seq!["handle: *mut "@ + ty_name], Seq::empty(),
        "    if !handle.is_null() {\n        drop(Box::from_raw(handle));\n    }\n"@)
}

/// The constructor and destructor entry points of the type of an `impl`
/// block; an error when the type is not written as a path.
pub fn class_lifecycle_exports(ty_name: &Option<String>) -> (r: Result<String, FfiClassError>)
    ensures
        match *ty_name {
            Some(t) => r matches Ok(text) && text@ == spec_lifecycle_exports(t@),
            None => r == Err::<String, FfiClassError>(FfiClassError::UnnamedType),
        },
{
    let t = match ty_name {
        Some(t) => t,
        None => {
            return Err(FfiClassError::UnnamedType);
        },
    };
    let pub_vis = string_of("pub");
    let no_params: Vec<String> = Vec::new();
    let new_ident = class_ffi_new(t.as_str());
    let new_ret = concat2(" -> *mut ", t.as_str());
    let new_body = concat3("    Box::into_raw(Box::new(", t.as_str(), "::new()))\n");
    assert(views(no_params@) =~= Seq::<Seq<char>>::empty());
    let mut r = crate::ffi_macros::extern_fn(&pub_vis, false, &new_ident, &no_params, new_ret.as_str(), &new_body);
    push_str(&mut r, "\n");
    let free_ident = class_ffi_free(t.as_str());
    let mut free_params: Vec<String> = Vec::new();
    free_params.push(concat2("handle: *mut ", t.as_str()));
    assert(views(free_params@) =~= seq!["handle: *mut "@ + t@]);
    let free_body = string_of("    if !handle.is_null() {\n        drop(Box::from_raw(handle));\n    }\n");
    proof {
        reveal_strlit("");
    }
    let free_fn = crate::ffi_macros::extern_fn(&pub_vis, true, &free_ident, &free_params, "", &free_body);
    push_str(&mut r, free_fn.as_str());
    Ok(r)
}

/// The statement that borrows the subscription behind its handle.
pub open spec fn spec_subscription_borrow(item: Seq<char>) -> Seq<char> {
    "    let subscription = unsafe {\n        &*(subscription_handle as *const crate::EventSubscription<"@
        + item + ">)\n    };\n"@
}

/// The parameter carrying a subscription handle.
pub open spec fn spec_handle_param() -> Seq<char> {
    "subscription_handle: crate::SubscriptionHandle"@
}

/// The six entry points of a stream, in order: subscribe, pop a batch,
/// wait, poll, unsubscribe, free (the parts that `spec_stream_exports`
/// joins).
pub open spec fn stream_items(ty_name: Seq<char>, class_name: Seq<char>, method: Seq<char>, item: Seq<char>) -> Seq<Seq<char>> {
    let base = spec_method_ffi_name(class_name, method);
    let items = seq![
        spec_extern_fn("pub"@, true, base + "_subscribe"@, seq!["handle: *const "@ + ty_name],
            " -> crate::SubscriptionHandle"@,
            "    if handle.is_null() {\n        return std::ptr::null_mut();\n    }\n    let instance = unsafe { &*handle };\n    let subscription = instance."@
                + method + "();\n    std::sync::Arc::into_raw(subscription) as crate::SubscriptionHandle\n"@),
        spec_extern_fn("pub"@, true, base + "_pop_batch"@,
            seq![spec_handle_param(), "output_ptr: *mut "@ + item, "output_capacity: usize"@],
            " -> usize"@,
            "    if subscription_handle.is_null() || output_ptr.is_null() || output_capacity == 0 {\n        return 0;\n    }\n"@
                + spec_subscription_borrow(item)
                + "    let output_slice = unsafe {\n        std::slice::from_raw_parts_mut(output_ptr as *mut std::mem::MaybeUninit<"@
                + item + ">, output_capacity)\n    };\n    subscription.pop_batch_into(output_slice)\n"@),
        spec_extern_fn("pub"@, true, base + "_wait"@, seq![spec_handle_param(), "timeout_milliseconds: u32"@],
            " -> i32"@,
            "    if subscription_handle.is_null() {\n        return crate::WaitResult::Unsubscribed as i32;\n    }\n"@
                + spec_subscription_borrow(item)
                + "    subscription.wait_for_events(timeout_milliseconds) as i32\n"@),
        spec_extern_fn("pub"@, true, base + "_poll"@,
            seq![spec_handle_param(), "callback_data: u64"@, "callback: crate::StreamContinuationCallback"@],
            Seq::empty(),
            "    if subscription_handle.is_null() {\n        callback(callback_data, crate::StreamPollResult::Closed);\n        return;\n    }\n"@
                + spec_subscription_borrow(item) + "    subscription.poll(callback_data, callback);\n"@),
        spec_extern_fn("pub"@, true, base + "_unsubscribe"@, seq![spec_handle_param()], Seq::empty(),
            "    if subscription_handle.is_null() {\n        return;\n    }\n"@ + spec_subscription_borrow(item)
                + "    subscription.unsubscribe();\n"@),
        spec_extern_fn("pub"@, true, base + "_free"@, seq![spec_handle_param()], Seq::empty(),
            "    if subscription_handle.is_null() {\n        return;\n    }\n    drop(unsafe {\n        std::sync::Arc::from_raw(subscription_handle as *const crate::EventSubscription<"@
                + item + ">)\n    });\n"@),
    ];
    items
}

/// The six entry points of the stream method `method` of the type `ty_name`
/// (whose symbols are named after `class_name`), streaming `item`s:
/// subscribe, pop a batch into a buffer, wait for events, poll with a
/// continuation, unsubscribe, and release the subscription; each is a
/// no-op (or reports closure) on a null handle.
pub open spec fn spec_stream_exports(
    ty_name: Seq<char>,
    class_name: Seq<char>,
    method: Seq<char>,
    item: Seq<char>,
) -> Seq<char> {
    let base = spec_method_ffi_name(class_name, method);
    let items = seq![
        spec_extern_fn("pub"@, true, base + "_subscribe"@, seq!["handle: *const "@ + ty_name],
            " -> crate::SubscriptionHandle"@,
            "    if handle.is_null() {\n        return std::ptr::null_mut();\n    }\n    let instance = unsafe { &*handle };\n    let subscription = instance."@
                + method + "();\n    std::sync::Arc::into_raw(subscription) as crate::SubscriptionHandle\n"@),
        spec_extern_fn("pub"@, true, base + "_pop_batch"@,
            seq![spec_handle_param(), "output_ptr: *mut "@ + item, "output_capacity: usize"@],
            " -> usize"@,
            "    if subscription_handle.is_null() || output_ptr.is_null() || output_capacity == 0 {\n        return 0;\n    }\n"@
                + spec_subscription_borrow(item)
                + "    let output_slice = unsafe {\n        std::slice::from_raw_parts_mut(output_ptr as *mut std::mem::MaybeUninit<"@
                + item + ">, output_capacity)\n    };\n    subscription.pop_batch_into(output_slice)\n"@),
        spec_extern_fn("pub"@, true, base + "_wait"@, seq![spec_handle_param(), "timeout_milliseconds: u32"@],
            " -> i32"@,
            "    if subscription_handle.is_null() {\n        return crate::WaitResult::Unsubscribed as i32;\n    }\n"@
                + spec_subscription_borrow(item)
                + "    subscription.wait_for_events(timeout_milliseconds) as i32\n"@),
        spec_extern_fn("pub"@, true, base + "_poll"@,
            seq![spec_handle_param(), "callback_data: u64"@, "callback: crate::StreamContinuationCallback"@],
            Seq::empty(),
            "    if subscription_handle.is_null() {\n        callback(callback_data, crate::StreamPollResult::Closed);\n        return;\n    }\n"@
                + spec_subscription_borrow(item) + "    subscription.poll(callback_data, callback);\n"@),
        spec_extern_fn("pub"@, true, base + "_unsubscribe"@, seq![spec_handle_param()], Seq::empty(),
            "    if subscription_handle.is_null() {\n        return;\n    }\n"@ + spec_subscription_borrow(item)
                + "    subscription.unsubscribe();\n"@),
        spec_extern_fn("pub"@, true, base + "_free"@, seq![spec_handle_param()], Seq::empty(),
            "    if subscription_handle.is_null() {\n        return;\n    }\n    drop(unsafe {\n        std::sync::Arc::from_raw(subscription_handle as *const crate::EventSubscription<"@
                + item + ">)\n    });\n"@),
    ];
    seq_join(items, "\n"@)
}

/// The statement that borrows the subscription behind its handle.
fn subscription_borrow(item: &String) -> (r: String)
    ensures
        r@ == spec_subscription_borrow(item@),
{
    concat3(
        "    let subscription = unsafe {\n        &*(subscription_handle as *const crate::EventSubscription<",
        item.as_str(),
        ">)\n    };\n",
    )
}

/// A list of one parameter.
fn list1(a: String) -> (r: Vec<String>)
    ensures
        views(r@) == seq![a@],
{
    let mut r: Vec<String> = Vec::new();
    r.push(a);
    assert(views(r@) =~= seq![a@]);
    r
}

/// A list of two parameters.
fn list2(a: String, b: String) -> (r: Vec<String>)
    ensures
        views(r@) == seq![a@, b@],
{
    let mut r: Vec<String> = Vec::new();
    r.push(a);
    r.push(b);
    assert(views(r@) =~= seq![a@, b@]);
    r
}

/// A list of three parameters.
fn list3(a: String, b: String, c: String) -> (r: Vec<String>)
    ensures
        views(r@) == seq![a@, b@, c@],
{
    let mut r: Vec<String> = Vec::new();
    r.push(a);
    r.push(b);
    r.push(c);
    assert(views(r@) =~= seq![a@, b@, c@]);
    r
}

/// The six entry points of the stream method `method` of the type
/// `ty_name`, streaming `item_type`s.
#[verifier::rlimit(40)]
pub fn generate_stream_exports(
    ty_name: &String,
    class_name: &String,
    method: &String,
    item_type: &String,
) -> (r: String)
    ensures
        r@ == spec_stream_exports(ty_name@, class_name@, method@, item_type@),
{
    let c = class_name.as_str();
    let m = method.as_str();
    let item = item_type.as_str();
    let vis = string_of("pub");
    let borrow = subscription_borrow(item_type);
    let handle = "subscription_handle: crate::SubscriptionHandle";
    let ghost spec = spec_stream_exports(ty_name@, class_name@, method@, item_type@);
    proof {
        reveal_strlit("");
    }

    let subscribe_params = list1(concat2("handle: *const ", ty_name.as_str()));
    let mut body = string_of(
        "    if handle.is_null() {\n        return std::ptr::null_mut();\n    }\n    let instance = unsafe { &*handle };\n    let subscription = instance.",
    );
    push_str(&mut body, m);
    push_str(&mut body, "();\n    std::sync::Arc::into_raw(subscription) as crate::SubscriptionHandle\n");
    let subscribe = crate::ffi_macros::extern_fn(&vis, true, &stream_ffi_subscribe(c, m), &subscribe_params, " -> crate::SubscriptionHandle", &body);

    let pop_params = list3(string_of(handle), concat2("output_ptr: *mut ", item), string_of("output_capacity: usize"));
    let mut body = string_of(
        "    if subscription_handle.is_null() || output_ptr.is_null() || output_capacity == 0 {\n        return 0;\n    }\n",
    );
    push_str(&mut body, borrow.as_str());
    push_str(&mut body, "    let output_slice = unsafe {\n        std::slice::from_raw_parts_mut(output_ptr as *mut std::mem::MaybeUninit<");
    push_str(&mut body, item);
    push_str(&mut body, ">, output_capacity)\n    };\n    subscription.pop_batch_into(output_slice)\n");
    let pop = crate::ffi_macros::extern_fn(&vis, true, &stream_ffi_pop_batch(c, m), &pop_params, " -> usize", &body);

    let wait_params = list2(string_of(handle), string_of("timeout_milliseconds: u32"));
    let mut body = string_of(
        "    if subscription_handle.is_null() {\n        return crate::WaitResult::Unsubscribed as i32;\n    }\n",
    );
    push_str(&mut body, borrow.as_str());
    push_str(&mut body, "    subscription.wait_for_events(timeout_milliseconds) as i32\n");
    let wait = crate::ffi_macros::extern_fn(&vis, true, &stream_ffi_wait(c, m), &wait_params, " -> i32", &body);

    let poll_params = list3(
        string_of(handle),
        string_of("callback_data: u64"),
        string_of("callback: crate::StreamContinuationCallback"),
    );
    let mut body = string_of(
        "    if subscription_handle.is_null() {\n        callback(callback_data, crate::StreamPollResult::Closed);\n        return;\n    }\n",
    );
    push_str(&mut body, borrow.as_str());
    push_str(&mut body, "    subscription.poll(callback_data, callback);\n");
    let poll = crate::ffi_macros::extern_fn(&vis, true, &stream_ffi_poll(c, m), &poll_params, "", &body);

    let unsubscribe_params = list1(string_of(handle));
    let mut body = string_of("    if subscription_handle.is_null() {\n        return;\n    }\n");
    push_str(&mut body, borrow.as_str());
    push_str(&mut body, "    subscription.unsubscribe();\n");
    let unsubscribe = crate::ffi_macros::extern_fn(&vis, true, &stream_ffi_unsubscribe(c, m), &unsubscribe_params, "", &body);

    let free_params = list1(string_of(handle));
    let mut body = string_of(
        "    if subscription_handle.is_null() {\n        return;\n    }\n    drop(unsafe {\n        std::sync::Arc::from_raw(subscription_handle as *const crate::EventSubscription<",
    );
    push_str(&mut body, item);
    push_str(&mut body, ">)\n    });\n");
    let free = crate::ffi_macros::extern_fn(&vis, true, &stream_ffi_free(c, m), &free_params, "", &body);

    let mut items: Vec<String> = Vec::new();
    items.push(subscribe);
    items.push(pop);
    items.push(wait);
    items.push(poll);
    items.push(unsubscribe);
    items.push(free);
    assert(views(items@) =~= seq![subscribe@, pop@, wait@, poll@, unsubscribe@, free@]);
    join(&items, "\n")
}

/// The stream entry points that the class attribute exports declare every
/// symbol that the Swift side of a stream calls: subscribe, pop a batch,
/// wait, poll, unsubscribe and free, each named after the class and the
/// stream method.
pub proof fn lemma_stream_symbols_declared(
    ty_name: Seq<char>,
    class_name: Seq<char>,
    method: Seq<char>,
    item: Seq<char>,
)
    ensures
        forall|k: int|
            0 <= k < 6 ==> occurs_in(
                spec_stream_exports(ty_name, class_name, method, item),
                "fn "@ + spec_method_ffi_name(class_name, method) + #[trigger] stream_suffixes()[k]
                    + "("@,
            ),
{
    let text = spec_stream_exports(ty_name, class_name, method, item);
    let base = spec_method_ffi_name(class_name, method);
    let items = seq![
        spec_extern_fn("pub"@, true, base + "_subscribe"@, seq!["handle: *const "@ + ty_name],
            " -> crate::SubscriptionHandle"@,
            "    if handle.is_null() {\n        return std::ptr::null_mut();\n    }\n    let instance = unsafe { &*handle };\n    let subscription = instance."@
                + method + "();\n    std::sync::Arc::into_raw(subscription) as crate::SubscriptionHandle\n"@),
        spec_extern_fn("pub"@, true, base + "_pop_batch"@,
            seq![spec_handle_param(), "output_ptr: *mut "@ + item, "output_capacity: usize"@],
            " -> usize"@,
            "    if subscription_handle.is_null() || output_ptr.is_null() || output_capacity == 0 {\n        return 0;\n    }\n"@
                + spec_subscription_borrow(item)
                + "    let output_slice = unsafe {\n        std::slice::from_raw_parts_mut(output_ptr as *mut std::mem::MaybeUninit<"@
                + item + ">, output_capacity)\n    };\n    subscription.pop_batch_into(output_slice)\n"@),
        spec_extern_fn("pub"@, true, base + "_wait"@, seq![spec_handle_param(), "timeout_milliseconds: u32"@],
            " -> i32"@,
            "    if subscription_handle.is_null() {\n        return crate::WaitResult::Unsubscribed as i32;\n    }\n"@
                + spec_subscription_borrow(item)
                + "    subscription.wait_for_events(timeout_milliseconds) as i32\n"@),
        spec_extern_fn("pub"@, true, base + "_poll"@,
            seq![spec_handle_param(), "callback_data: u64"@, "callback: crate::StreamContinuationCallback"@],
            Seq::empty(),
            "    if subscription_handle.is_null() {\n        callback(callback_data, crate::StreamPollResult::Closed);\n        return;\n    }\n"@
                + spec_subscription_borrow(item) + "    subscription.poll(callback_data, callback);\n"@),
        spec_extern_fn("pub"@, true, base + "_unsubscribe"@, seq![spec_handle_param()], Seq::empty(),
            "    if subscription_handle.is_null() {\n        return;\n    }\n"@ + spec_subscription_borrow(item)
                + "    subscription.unsubscribe();\n"@),
        spec_extern_fn("pub"@, true, base + "_free"@, seq![spec_handle_param()], Seq::empty(),
            "    if subscription_handle.is_null() {\n        return;\n    }\n    drop(unsafe {\n        std::sync::Arc::from_raw(subscription_handle as *const crate::EventSubscription<"@
                + item + ">)\n    });\n"@),
    ];
    assert(text == seq_join(items, "\n"@));
    assert forall|k: int| 0 <= k < 6 implies occurs_in(text, "fn "@ + base + #[trigger] stream_suffixes()[k] + "("@) by {
        let ident = base + stream_suffixes()[k];
        let it = items[k];
        if k == 0 {
            lemma_extern_fn_declares("pub"@, true, ident, seq!["handle: *const "@ + ty_name],
                " -> crate::SubscriptionHandle"@,
                "    if handle.is_null() {\n        return std::ptr::null_mut();\n    }\n    let instance = unsafe { &*handle };\n    let subscription = instance."@
                    + method + "();\n    std::sync::Arc::into_raw(subscription) as crate::SubscriptionHandle\n"@);
        } else if k == 1 {
            lemma_extern_fn_declares("pub"@, true, ident,
                seq![spec_handle_param(), "output_ptr: *mut "@ + item, "output_capacity: usize"@],
                " -> usize"@,
                "    if subscription_handle.is_null() || output_ptr.is_null() || output_capacity == 0 {\n        return 0;\n    }\n"@
                    + spec_subscription_borrow(item)
                    + "    let output_slice = unsafe {\n        std::slice::from_raw_parts_mut(output_ptr as *mut std::mem::MaybeUninit<"@
                    + item + ">, output_capacity)\n    };\n    subscription.pop_batch_into(output_slice)\n"@);
        } else if k == 2 {
            lemma_extern_fn_declares("pub"@, true, ident, seq![spec_handle_param(), "timeout_milliseconds: u32"@],
                " -> i32"@,
                "    if subscription_handle.is_null() {\n        return crate::WaitResult::Unsubscribed as i32;\n    }\n"@
                    + spec_subscription_borrow(item)
                    + "    subscription.wait_for_events(timeout_milliseconds) as i32\n"@);
        } else if k == 3 {
            lemma_extern_fn_declares("pub"@, true, ident,
                seq![spec_handle_param(), "callback_data: u64"@, "callback: crate::StreamContinuationCallback"@],
                Seq::empty(),
                "    if subscription_handle.is_null() {\n        callback(callback_data, crate::StreamPollResult::Closed);\n        return;\n    }\n"@
                    + spec_subscription_borrow(item) + "    subscription.poll(callback_data, callback);\n"@);
        } else if k == 4 {
            lemma_extern_fn_declares("pub"@, true, ident, seq![spec_handle_param()], Seq::empty(),
                "    if subscription_handle.is_null() {\n        return;\n    }\n"@ + spec_subscription_borrow(item)
                    + "    subscription.unsubscribe();\n"@);
        } else {
            lemma_extern_fn_declares("pub"@, true, ident, seq![spec_handle_param()], Seq::empty(),
                "    if subscription_handle.is_null() {\n        return;\n    }\n    drop(unsafe {\n        std::sync::Arc::from_raw(subscription_handle as *const crate::EventSubscription<"@
                    + item + ">)\n    });\n"@);
        }
        assert("fn "@ + base + stream_suffixes()[k] + "("@ =~= "fn "@ + ident + "("@);
        lemma_join_part_occurs(items, "\n"@, k);
        lemma_occurs_trans("fn "@ + ident + "("@, it, text);
    }
}

/// The suffixes of a stream's six entry points, after the method's symbol.
pub open spec fn stream_suffixes() -> Seq<Seq<char>> {
    seq!["_subscribe"@, "_pop_batch"@, "_wait"@, "_poll"@, "_unsubscribe"@, "_free"@]
}

/// The wait entry point of a stream takes the caller's timeout and hands it,
/// unchanged, to the subscription's `wait_for_events`, whose result it
/// returns.
pub proof fn lemma_wait_forwards_timeout(ty_name: Seq<char>, class_name: Seq<char>, method: Seq<char>, item: Seq<char>)
    ensures
        exists|body: Seq<char>|
            #[trigger] occurs_in(
                spec_stream_exports(ty_name, class_name, method, item),
                "fn "@ + (spec_method_ffi_name(class_name, method) + "_wait"@) + "("@ + spec_handle_param() + ", "@
                    + "timeout_milliseconds: u32"@ + ")"@ + " -> i32"@ + " {\n"@ + body
                    + "    subscription.wait_for_events(timeout_milliseconds) as i32\n"@ + "}\n"@,
            ),
{
    let text = spec_stream_exports(ty_name, class_name, method, item);
    let base = spec_method_ffi_name(class_name, method);
    let ident = base + "_wait"@;
    let params = seq![spec_handle_param(), "timeout_milliseconds: u32"@];
    let lead = "    if subscription_handle.is_null() {\n        return crate::WaitResult::Unsubscribed as i32;\n    }\n"@
        + spec_subscription_borrow(item);
    let call = "    subscription.wait_for_events(timeout_milliseconds) as i32\n"@;
    let wait_fn = spec_extern_fn("pub"@, true, ident, params, " -> i32"@, lead + call);
    lemma_extern_fn_whole("pub"@, true, ident, params, " -> i32"@, lead + call);
    assert(params.drop_last() =~= seq![spec_handle_param()]);
    assert(seq_join(params, ", "@) == spec_handle_param() + ", "@ + "timeout_milliseconds: u32"@);
    let pat = "fn "@ + ident + "("@ + spec_handle_param() + ", "@ + "timeout_milliseconds: u32"@ + ")"@ + " -> i32"@
        + " {\n"@ + lead + call + "}\n"@;
    assert(pat =~= "fn "@ + ident + "("@ + seq_join(params, ", "@) + ")"@ + " -> i32"@ + " {\n"@ + (lead + call)
        + "}\n"@);
    let items = stream_items(ty_name, class_name, method, item);
    assert(items[2] == wait_fn);
    assert(text == seq_join(items, "\n"@));
    lemma_join_part_occurs(items, "\n"@, 2);
    lemma_occurs_trans(pat, wait_fn, text);
}

/// The poll entry point of a stream hands the caller's continuation and its
/// data, unchanged, to the subscription's `poll`, and on a null handle
/// calls that continuation with `Closed`.
pub proof fn lemma_poll_forwards_continuation(ty_name: Seq<char>, class_name: Seq<char>, method: Seq<char>, item: Seq<char>)
    ensures
        exists|borrow: Seq<char>|
            #[trigger] occurs_in(
                spec_stream_exports(ty_name, class_name, method, item),
                "fn "@ + (spec_method_ffi_name(class_name, method) + "_poll"@) + "("@ + spec_handle_param() + ", "@
                    + "callback_data: u64"@ + ", "@ + "callback: crate::StreamContinuationCallback"@ + ")"@ + " {\n"@
                    + "    if subscription_handle.is_null() {\n        callback(callback_data, crate::StreamPollResult::Closed);\n        return;\n    }\n"@
                    + borrow + "    subscription.poll(callback_data, callback);\n"@ + "}\n"@,
            ),
{
    let text = spec_stream_exports(ty_name, class_name, method, item);
    let base = spec_method_ffi_name(class_name, method);
    let ident = base + "_poll"@;
    let params = seq![spec_handle_param(), "callback_data: u64"@, "callback: crate::StreamContinuationCallback"@];
    let guard = "    if subscription_handle.is_null() {\n        callback(callback_data, crate::StreamPollResult::Closed);\n        return;\n    }\n"@;
    let borrow = spec_subscription_borrow(item);
    let call = "    subscription.poll(callback_data, callback);\n"@;
    let body = guard + borrow + call;
    let poll_fn = spec_extern_fn("pub"@, true, ident, params, Seq::empty(), body);
    lemma_extern_fn_whole("pub"@, true, ident, params, Seq::empty(), body);
    assert(params.drop_last() =~= seq![spec_handle_param(), "callback_data: u64"@]);
    assert(params.drop_last().drop_last() =~= seq![spec_handle_param()]);
    assert(seq_join(params.drop_last(), ", "@) == spec_handle_param() + ", "@ + "callback_data: u64"@);
    assert(seq_join(params, ", "@) == spec_handle_param() + ", "@ + "callback_data: u64"@ + ", "@
        + "callback: crate::StreamContinuationCallback"@);
    let pat = "fn "@ + ident + "("@ + spec_handle_param() + ", "@ + "callback_data: u64"@ + ", "@
        + "callback: crate::StreamContinuationCallback"@ + ")"@ + " {\n"@ + guard + borrow + call + "}\n"@;
    assert(pat =~= "fn "@ + ident + "("@ + seq_join(params, ", "@) + ")"@ + Seq::<char>::empty() + " {\n"@ + body
        + "}\n"@);
    let items = stream_items(ty_name, class_name, method, item);
    assert(items[3] == poll_fn);
    assert(text == seq_join(items, "\n"@));
    lemma_join_part_occurs(items, "\n"@, 3);
    lemma_occurs_trans(pat, poll_fn, text);
}

/// The destructor that the class attribute declares for a type frees the
/// boxed object exactly when the handle is not null: its body is
/// `if !handle.is_null() { drop(Box::from_raw(handle)); }` and nothing else.
pub proof fn lemma_lifecycle_destructor_frees_non_null(ty_name: Seq<char>)
    ensures
        occurs_in(
            spec_lifecycle_exports(ty_name),
            "fn "@ + (spec_class_ffi_prefix(ty_name) + "_free"@) + "("@ + ("handle: *mut "@ + ty_name) + ")"@
                + " {\n"@ + "    if !handle.is_null() {\n        drop(Box::from_raw(handle));\n    }\n"@ + "}\n"@,
        ),
{
    let ident = spec_class_ffi_prefix(ty_name) + "_free"@;
    let params = seq!["handle: *mut "@ + ty_name];
    let body = "    if !handle.is_null() {\n        drop(Box::from_raw(handle));\n    }\n"@;
    let free_fn = spec_extern_fn("pub"@, true, ident, params, Seq::empty(), body);
    let new_fn = spec_extern_fn("pub"@, false, spec_class_ffi_prefix(ty_name) + "_new"@, Seq::empty(),
        " -> *mut "@ + ty_name, "    Box::into_raw(Box::new("@ + ty_name + "::new()))\n"@);
    lemma_extern_fn_whole("pub"@, true, ident, params, Seq::empty(), body);
    assert(seq_join(params, ", "@) == params[0]);
    let pat = "fn "@ + ident + "("@ + params[0] + ")"@ + " {\n"@ + body + "}\n"@;
    assert(pat =~= "fn "@ + ident + "("@ + seq_join(params, ", "@) + ")"@ + Seq::<char>::empty() + " {\n"@ + body
        + "}\n"@);
    assert(spec_lifecycle_exports(ty_name) =~= (new_fn + "\n"@) + free_fn + Seq::<char>::empty());
    crate::text::lemma_occurs_middle(new_fn + "\n"@, free_fn, Seq::<char>::empty());
    lemma_occurs_trans(pat, free_fn, spec_lifecycle_exports(ty_name));
}

/// The batch-pop entry point of a stream returns 0 without touching the
/// buffer when the handle or the buffer is null or its capacity is 0, and
/// otherwise pops into exactly the caller's buffer of `output_capacity`
/// items, returning how many were written.
pub proof fn lemma_pop_batch_fills_caller_buffer(ty_name: Seq<char>, class_name: Seq<char>, method: Seq<char>, item: Seq<char>)
    ensures
        exists|borrow: Seq<char>|
            #[trigger] occurs_in(
                spec_stream_exports(ty_name, class_name, method, item),
                "fn "@ + (spec_method_ffi_name(class_name, method) + "_pop_batch"@) + "("@ + spec_handle_param() + ", "@
                    + ("output_ptr: *mut "@ + item) + ", "@ + "output_capacity: usize"@ + ")"@ + " -> usize"@ + " {\n"@
                    + "    if subscription_handle.is_null() || output_ptr.is_null() || output_capacity == 0 {\n        return 0;\n    }\n"@
                    + borrow
                    + "    let output_slice = unsafe {\n        std::slice::from_raw_parts_mut(output_ptr as *mut std::mem::MaybeUninit<"@
                    + item + ">, output_capacity)\n    };\n    subscription.pop_batch_into(output_slice)\n"@ + "}\n"@,
            ),
{
    let text = spec_stream_exports(ty_name, class_name, method, item);
    let base = spec_method_ffi_name(class_name, method);
    let ident = base + "_pop_batch"@;
    let params = seq![spec_handle_param(), "output_ptr: *mut "@ + item, "output_capacity: usize"@];
    let guard = "    if subscription_handle.is_null() || output_ptr.is_null() || output_capacity == 0 {\n        return 0;\n    }\n"@;
    let borrow = spec_subscription_borrow(item);
    let rest = "    let output_slice = unsafe {\n        std::slice::from_raw_parts_mut(output_ptr as *mut std::mem::MaybeUninit<"@
        + item + ">, output_capacity)\n    };\n    subscription.pop_batch_into(output_slice)\n"@;
    let body = guard + borrow + rest;
    let pop_fn = spec_extern_fn("pub"@, true, ident, params, " -> usize"@, body);
    lemma_extern_fn_whole("pub"@, true, ident, params, " -> usize"@, body);
    assert(params.drop_last() =~= seq![spec_handle_param(), "output_ptr: *mut "@ + item]);
    assert(params.drop_last().drop_last() =~= seq![spec_handle_param()]);
    assert(seq_join(params.drop_last(), ", "@) == spec_handle_param() + ", "@ + ("output_ptr: *mut "@ + item));
    assert(seq_join(params, ", "@) == spec_handle_param() + ", "@ + ("output_ptr: *mut "@ + item) + ", "@
        + "output_capacity: usize"@);
    let pat = "fn "@ + ident + "("@ + spec_handle_param() + ", "@ + ("output_ptr: *mut "@ + item) + ", "@
        + "output_capacity: usize"@ + ")"@ + " -> usize"@ + " {\n"@ + guard + borrow + rest + "}\n"@;
    assert(pat =~= "fn "@ + ident + "("@ + seq_join(params, ", "@) + ")"@ + " -> usize"@ + " {\n"@ + body
        + "}\n"@);
    let items = stream_items(ty_name, class_name, method, item);
    assert(items[1] == pop_fn);
    assert(text == seq_join(items, "\n"@));
    lemma_join_part_occurs(items, "\n"@, 1);
    lemma_occurs_trans(pat, pop_fn, text);
    let stated = "fn "@ + (base + "_pop_batch"@) + "("@ + spec_handle_param() + ", "@ + ("output_ptr: *mut "@ + item)
        + ", "@ + "output_capacity: usize"@ + ")"@ + " -> usize"@ + " {\n"@ + guard + borrow
        + "    let output_slice = unsafe {\n        std::slice::from_raw_parts_mut(output_ptr as *mut std::mem::MaybeUninit<"@
        + item + ">, output_capacity)\n    };\n    subscription.pop_batch_into(output_slice)\n"@ + "}\n"@;
    assert(stated =~= pat);
    assert(occurs_in(text, stated));
}

} // verus!
