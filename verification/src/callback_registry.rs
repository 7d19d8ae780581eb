//! The registry of callback traits that a crate exports: which traits carry
//! an export attribute, in which module they live, whether they can be used
//! as trait objects, and how a path written in a macro resolves to one.
//!
//! The crate's source files are read by the caller; their text is parsed
//! here (with `syn`) into the items the registry reads (`SourceItem`).

use vstd::prelude::*;
use crate::text::{
    chars_of, concat2, copy_string, copy_texts, lemma_filter_step, push_char, string_of, text_eq,
    text_is, views, flat_map, lemma_flat_map_step,
};

verus! {

/// What the registry knows of one exported trait: its module path inside
/// the crate, its name, and whether it can be used as a trait object.
pub type EntryView = (Seq<Seq<char>>, Seq<char>, bool);

/// An exported callback trait of the crate.
#[derive(Debug)]
pub struct CallbackTraitEntry {
    pub module_parts: Vec<String>,
    pub trait_name: String,
    pub is_object_safe: bool,
}

impl View for CallbackTraitEntry {
    type V = EntryView;

    open spec fn view(&self) -> EntryView {
        (views(self.module_parts@), self.trait_name@, self.is_object_safe)
    }
}

/// The exported callback traits of a crate, in the order in which they
/// were found.
#[derive(Debug)]
pub struct CallbackTraitRegistry {
    entries: Vec<CallbackTraitEntry>,
}

/// The views of a list of entries.
pub open spec fn entry_views(es: Seq<CallbackTraitEntry>) -> Seq<EntryView> {
    es.map_values(|e: CallbackTraitEntry| e@)
}

impl View for CallbackTraitRegistry {
    type V = Seq<EntryView>;

    closed spec fn view(&self) -> Seq<EntryView> {
        entry_views(self.entries@)
    }
}

/// What a trait path resolves to: the path of the foreign implementation
/// that the macros generate for the trait, and whether the trait can be
/// used as a trait object.
#[derive(Debug)]
pub struct CallbackTraitResolution {
    pub foreign_path: Vec<String>,
    pub is_object_safe: bool,
}

impl View for CallbackTraitResolution {
    type V = (Seq<Seq<char>>, bool);

    open spec fn view(&self) -> (Seq<Seq<char>>, bool) {
        (views(self.foreign_path@), self.is_object_safe)
    }
}

/// A trait declared in a source file, as far as the registry reads it: its
/// name, the last segment of the path of each of its attributes (if the path
/// has one), and, for each item it declares, whether the item is an `async`
/// method (`Some(true)`), another method (`Some(false)`) or not a method
/// (`None`).
#[derive(Debug)]
pub struct SourceTrait {
    pub name: String,
    pub attributes: Vec<Option<String>>,
    pub items: Vec<Option<bool>>,
}

/// The text of an optional string.
pub open spec fn opt_view(o: Option<String>) -> Option<Seq<char>> {
    match o {
        Some(s) => Some(s@),
        None => None,
    }
}

/// The texts of a list of optional strings.
pub open spec fn attr_views(v: Seq<Option<String>>) -> Seq<Option<Seq<char>>> {
    v.map_values(|o: Option<String>| opt_view(o))
}

/// An item of a source file: a trait, a module (with its items when they are
/// written inline), or anything else.
#[derive(Debug)]
pub enum SourceItem {
    Trait(SourceTrait),
    Mod { name: String, content: Option<Vec<SourceItem>> },
    Other,
}

/// A source file of the crate: its module path and its items.
#[derive(Debug)]
pub struct SourceFile {
    pub module_parts: Vec<String>,
    pub items: Vec<SourceItem>,
}

/// Why a source file could not be placed in the crate's module tree.
#[derive(Debug, PartialEq, Eq, Structural)]
pub enum RegistryError {
    PathNotUnderSrc,
}

impl RegistryError {
    /// The message that reports the error.
    pub fn message(&self) -> (r: String)
        ensures
            r@ == "path not under src"@,
    {
        match self {
            RegistryError::PathNotUnderSrc => string_of("path not under src"),
        }
    }
}

/// Whether one of the attributes marks the trait for export: the last
/// segment of its path is `export` or `ffi_trait`.
pub open spec fn spec_is_callback_trait(attributes: Seq<Option<Seq<char>>>) -> bool {
    exists|i: int|
        0 <= i < attributes.len() && (attributes[i] == Some("export"@) || attributes[i] == Some(
            "ffi_trait"@,
        ))
}

/// Whether a trait can be used as a trait object: it declares no `async`
/// method, or it carries the `async_trait` attribute.
pub open spec fn spec_is_object_safe(attributes: Seq<Option<Seq<char>>>, items: Seq<Option<bool>>) -> bool {
    !(exists|i: int| 0 <= i < items.len() && items[i] == Some(true))
        || (exists|i: int| 0 <= i < attributes.len() && attributes[i] == Some("async_trait"@))
}

/// The path with a leading `crate`, `self` or `super` taken off.
pub open spec fn spec_normalize(path: Seq<Seq<char>>) -> Seq<Seq<char>> {
    if path.len() > 0 && (path[0] == "crate"@ || path[0] == "self"@ || path[0] == "super"@) {
        path.drop_first()
    } else {
        path
    }
}

/// Whether `s` ends with `.rs`.
pub open spec fn ends_with_rs(s: Seq<char>) -> bool {
    s.len() >= 3 && s.subrange(s.len() - 3, s.len() as int) == ".rs"@
}

/// `s` with every trailing `.rs` taken off.
pub open spec fn trim_rs(s: Seq<char>) -> Seq<char>
    decreases s.len(),
{
    if ends_with_rs(s) {
        trim_rs(s.subrange(0, s.len() - 3))
    } else {
        s
    }
}

/// Whether a module path part is kept: it is not empty.
pub open spec fn nonempty_fn() -> spec_fn(Seq<char>) -> bool {
    |p: Seq<char>| p.len() > 0
}

/// The module path of a file, from the path components of the file
/// relative to the source root: its directories, then the file's stem
/// unless the file is `lib.rs` or `mod.rs` or is not a `.rs` file; empty
/// parts are dropped.
pub open spec fn spec_module_parts(relative: Seq<Seq<char>>) -> Seq<Seq<char>> {
    let dirs = if relative.len() == 0 { relative } else { relative.drop_last() };
    let file_name = if relative.len() == 0 { Seq::<char>::empty() } else { relative.last() };
    let parts = if file_name == "lib.rs"@ || file_name == "mod.rs"@ {
        dirs
    } else if ends_with_rs(file_name) {
        dirs.push(trim_rs(file_name))
    } else {
        dirs
    };
    parts.filter(nonempty_fn())
}

/// The module path of the file at `file_path` under the source root, both
/// given as path components; an error when the file is not under the root.
pub open spec fn spec_module_path_for_rs_file(root: Seq<Seq<char>>, file: Seq<Seq<char>>) -> Result<
    Seq<Seq<char>>,
    RegistryError,
> {
    if root.is_prefix_of(file) {
        Ok(spec_module_parts(file.skip(root.len() as int)))
    } else {
        Err(RegistryError::PathNotUnderSrc)
    }
}

/// `path` with a leading `crate`, `self` or `super` segment taken off.
pub fn normalize_segments(path: &Vec<String>) -> (r: Vec<String>)
    ensures
        views(r@) == spec_normalize(views(path@)),
{
    let mut r: Vec<String> = Vec::new();
    let mut start: usize = 0;
    if path.len() > 0 && (text_is(&path[0], "crate") || text_is(&path[0], "self") || text_is(
        &path[0],
        "super",
    )) {
        start = 1;
    }
    let mut i: usize = start;
    while i < path.len()
        invariant
            start <= i <= path@.len(),
            start <= 1,
            start == 1 ==> path@.len() > 0,
            views(r@) =~= views(path@).subrange(start as int, i as int),
        decreases path@.len() - i,
    {
        let ghost before = r@;
        r.push(copy_string(&path[i]));
        proof {
            assert(views(r@) =~= views(before).push(path@[i as int]@));
        }
        i = i + 1;
    }
    proof {
        if start == 1 {
            assert(views(path@).subrange(1, path@.len() as int) =~= views(path@).drop_first());
        } else {
            assert(views(path@).subrange(0, path@.len() as int) =~= views(path@));
        }
    }
    r
}

/// The text `name` with every trailing `.rs` taken off.
fn strip_rs_suffixes(name: &String) -> (r: String)
    ensures
        r@ == trim_rs(name@),
{
    let cs = chars_of(name.as_str());
    let mut end: usize = cs.len();
    proof {
        reveal_strlit(".rs");
        assert(cs@.subrange(0, end as int) =~= name@);
    }
    while end >= 3 && cs[end - 3] == '.' && cs[end - 2] == 'r' && cs[end - 1] == 's'
        invariant
            end <= cs@.len(),
            cs@ == name@,
            trim_rs(cs@.subrange(0, end as int)) == trim_rs(name@),
        decreases end,
    {
        proof {
            reveal_strlit(".rs");
            let s = cs@.subrange(0, end as int);
            assert(s.subrange(s.len() - 3, s.len() as int) =~= ".rs"@);
            assert(s.subrange(0, s.len() - 3) =~= cs@.subrange(0, end - 3));
        }
        end = end - 3;
    }
    proof {
        reveal_strlit(".rs");
        let s = cs@.subrange(0, end as int);
        if ends_with_rs(s) {
            assert(s.subrange(s.len() - 3, s.len() as int)[0] == cs@[end - 3]);
            assert(s.subrange(s.len() - 3, s.len() as int)[1] == cs@[end - 2]);
            assert(s.subrange(s.len() - 3, s.len() as int)[2] == cs@[end - 1]);
        }
    }
    let mut r = String::new();
    let mut k: usize = 0;
    while k < end
        invariant
            k <= end <= cs@.len(),
            r@ =~= cs@.subrange(0, k as int),
        decreases end - k,
    {
        push_char(&mut r, cs[k]);
        k = k + 1;
    }
    r
}

/// Whether `name` ends with `.rs`.
fn has_rs_suffix(name: &String) -> (r: bool)
    ensures
        r == ends_with_rs(name@),
{
    let cs = chars_of(name.as_str());
    let end: usize = cs.len();
    proof {
        reveal_strlit(".rs");
    }
    if end >= 3 && cs[end - 3] == '.' && cs[end - 2] == 'r' && cs[end - 1] == 's' {
        assert(name@.subrange(name@.len() - 3, name@.len() as int) =~= ".rs"@);
        true
    } else {
        proof {
            if ends_with_rs(name@) {
                assert(name@.subrange(name@.len() - 3, name@.len() as int)[0] == cs@[end - 3]);
                assert(name@.subrange(name@.len() - 3, name@.len() as int)[1] == cs@[end - 2]);
                assert(name@.subrange(name@.len() - 3, name@.len() as int)[2] == cs@[end - 1]);
            }
        }
        false
    }
}

/// Whether the first `n` texts of `b` are the texts of `a`.
fn same_prefix(a: &Vec<String>, b: &Vec<String>, n: usize) -> (r: bool)
    requires
        n <= b@.len(),
    ensures
        r == (views(a@) == views(b@).take(n as int)),
{
    if a.len() != n {
        proof {
            assert(views(a@).len() != views(b@).take(n as int).len());
        }
        return false;
    }
    let mut i: usize = 0;
    while i < n
        invariant
            i <= n,
            n == a@.len(),
            n <= b@.len(),
            forall|k: int| 0 <= k < i ==> a@[k]@ == b@[k]@,
        decreases n - i,
    {
        if !text_eq(&a[i], &b[i]) {
            proof {
                assert(views(a@)[i as int] != views(b@).take(n as int)[i as int]);
            }
            return false;
        }
        i = i + 1;
    }
    assert(views(a@) =~= views(b@).take(n as int));
    true
}

/// The module path of the file `file_path` under the source root
/// `src_root`, both given as their path components: the directories below
/// the root, then the file's name without its `.rs` endings unless the file
/// is `lib.rs` or `mod.rs` (a file whose name does not end in `.rs` adds
/// nothing); empty parts are dropped.
pub fn module_path_for_rs_file(src_root: &Vec<String>, file_path: &Vec<String>) -> (r: Result<
    Vec<String>,
    RegistryError,
>)
    ensures
        match r {
            Ok(parts) => spec_module_path_for_rs_file(views(src_root@), views(file_path@)) == Ok::<
                Seq<Seq<char>>,
                RegistryError,
            >(views(parts@)),
            Err(e) => spec_module_path_for_rs_file(views(src_root@), views(file_path@)) == Err::<
                Seq<Seq<char>>,
                RegistryError,
            >(e),
        },
{
    let n: usize = src_root.len();
    if n > file_path.len() || !same_prefix(src_root, file_path, n) {
        proof {
            if views(src_root@).is_prefix_of(views(file_path@)) {
                assert(views(file_path@).take(n as int) =~= views(src_root@));
            }
        }
        return Err(RegistryError::PathNotUnderSrc);
    }
    assert(views(src_root@).is_prefix_of(views(file_path@)));
    let ghost relative = views(file_path@).skip(n as int);
    let mut dirs: Vec<String> = Vec::new();
    let m: usize = file_path.len();
    let mut i: usize = n;
    let last: usize = if m > n { m - 1 } else { m };
    while i < last
        invariant
            n <= i <= last <= m,
            m == file_path@.len(),
            m > n ==> last == m - 1,
            m <= n ==> last == m,
            views(dirs@) =~= views(file_path@).subrange(n as int, i as int),
        decreases last - i,
    {
        let ghost before = dirs@;
        dirs.push(copy_string(&file_path[i]));
        proof {
            assert(views(dirs@) =~= views(before).push(file_path@[i as int]@));
        }
        i = i + 1;
    }
    proof {
        if m > n {
            assert(views(dirs@) =~= relative.drop_last());
        } else {
            assert(views(dirs@) =~= relative);
        }
    }
    let file_name = if m > n {
        copy_string(&file_path[m - 1])
    } else {
        String::new()
    };
    proof {
        if m > n {
            assert(file_name@ == relative.last());
        } else {
            assert(file_name@ =~= Seq::<char>::empty());
        }
    }
    let ghost file_view = if relative.len() == 0 { Seq::<char>::empty() } else { relative.last() };
    assert(file_name@ == file_view);
    let ghost dirs_view = views(dirs@);
    if !(text_is(&file_name, "lib.rs") || text_is(&file_name, "mod.rs")) {
        if has_rs_suffix(&file_name) {
            let base = strip_rs_suffixes(&file_name);
            let ghost before = dirs@;
            dirs.push(base);
            proof {
                assert(views(dirs@) =~= views(before).push(trim_rs(file_view)));
            }
        }
    }
    let ghost parts = views(dirs@);
    assert(parts == (if file_view == "lib.rs"@ || file_view == "mod.rs"@ {
        dirs_view
    } else if ends_with_rs(file_view) {
        dirs_view.push(trim_rs(file_view))
    } else {
        dirs_view
    }));
    let mut out: Vec<String> = Vec::new();
    let mut k: usize = 0;
    while k < dirs.len()
        invariant
            k <= dirs@.len(),
            parts == views(dirs@),
            views(out@) == parts.take(k as int).filter(nonempty_fn()),
        decreases dirs@.len() - k,
    {
        proof {
            lemma_filter_step(parts, nonempty_fn(), k as int);
        }
        if !dirs[k].as_str().is_empty() {
            out.push(copy_string(&dirs[k]));
            proof {
                assert(views(out@) =~= parts.take(k as int).filter(nonempty_fn()).push(parts[k as int]));
            }
        }
        k = k + 1;
    }
    assert(parts.take(k as int) =~= parts);
    Ok(out)
}

/// The exported traits among one item of a file whose module path is
/// `path`, in source order; a module written inline adds its own name to
/// the path of its items.
pub open spec fn item_entries(item: SourceItem, path: Seq<Seq<char>>) -> Seq<EntryView>
    decreases item,
{
    match item {
        SourceItem::Trait(t) => if spec_is_callback_trait(attr_views(t.attributes@)) {
            seq![(path, t.name@, spec_is_object_safe(attr_views(t.attributes@), t.items@))]
        } else {
            Seq::empty()
        },
        SourceItem::Mod { name, content } => match content {
            Some(v) => items_entries(v@, path.push(name@)),
            None => Seq::empty(),
        },
        SourceItem::Other => Seq::empty(),
    }
}

/// The exported traits among the items, in source order.
pub open spec fn items_entries(items: Seq<SourceItem>, path: Seq<Seq<char>>) -> Seq<EntryView>
    decreases items,
{
    if items.len() == 0 {
        Seq::empty()
    } else {
        items_entries(items.subrange(0, items.len() - 1), path) + item_entries(
            items[items.len() - 1],
            path,
        )
    }
}

/// The exported traits of one file.
pub open spec fn file_entries_fn() -> spec_fn(SourceFile) -> Seq<EntryView> {
    |f: SourceFile| items_entries(f.items@, views(f.module_parts@))
}

/// Whether the attribute's last path segment is `name`.
fn attribute_is(a: &Option<String>, name: &str) -> (r: bool)
    ensures
        r == (opt_view(*a) == Some(name@)),
{
    match a {
        Some(s) => text_is(s, name),
        None => false,
    }
}

/// Whether one of the trait's attributes marks it for export: the last
/// segment of its path is `export` or `ffi_trait`.
pub fn is_callback_trait(t: &SourceTrait) -> (r: bool)
    ensures
        r == spec_is_callback_trait(attr_views(t.attributes@)),
{
    let ghost av = attr_views(t.attributes@);
    let mut i: usize = 0;
    while i < t.attributes.len()
        invariant
            i <= t.attributes@.len(),
            av == attr_views(t.attributes@),
            forall|k: int| 0 <= k < i ==> av[k] != Some("export"@) && av[k] != Some("ffi_trait"@),
        decreases t.attributes@.len() - i,
    {
        assert(av[i as int] == opt_view(t.attributes@[i as int]));
        if attribute_is(&t.attributes[i], "export") || attribute_is(&t.attributes[i], "ffi_trait") {
            return true;
        }
        i = i + 1;
    }
    false
}

/// Whether the trait can be used as a trait object: it declares no `async`
/// method, or it carries the `async_trait` attribute.
pub fn is_object_safe(t: &SourceTrait) -> (r: bool)
    ensures
        r == spec_is_object_safe(attr_views(t.attributes@), t.items@),
{
    let ghost av = attr_views(t.attributes@);
    let mut has_async = false;
    let mut i: usize = 0;
    while i < t.items.len()
        invariant
            i <= t.items@.len(),
            has_async == (exists|k: int| 0 <= k < i && t.items@[k] == Some(true)),
        decreases t.items@.len() - i,
    {
        if let Some(true) = t.items[i] {
            has_async = true;
        }
        i = i + 1;
    }
    let mut has_attr = false;
    let mut j: usize = 0;
    while j < t.attributes.len()
        invariant
            j <= t.attributes@.len(),
            av == attr_views(t.attributes@),
            has_attr == (exists|k: int| 0 <= k < j && av[k] == Some("async_trait"@)),
        decreases t.attributes@.len() - j,
    {
        assert(av[j as int] == opt_view(t.attributes@[j as int]));
        if attribute_is(&t.attributes[j], "async_trait") {
            has_attr = true;
        }
        j = j + 1;
    }
    !has_async || has_attr
}

/// Appends the exported traits among `item` to `entries`.
fn collect_item(item: &SourceItem, path: &Vec<String>, entries: &mut Vec<CallbackTraitEntry>)
    ensures
        entry_views(final(entries)@) == entry_views(old(entries)@) + item_entries(
            *item,
            views(path@),
        ),
    decreases item,
{
    match item {
        SourceItem::Trait(t) => {
            if is_callback_trait(t) {
                let entry = CallbackTraitEntry {
                    module_parts: copy_texts(path),
                    trait_name: copy_string(&t.name),
                    is_object_safe: is_object_safe(t),
                };
                let ghost before = entries@;
                entries.push(entry);
                proof {
                    assert(entry_views(entries@) =~= entry_views(before).push(entry@));
                }
            } else {
                assert(entry_views(entries@) =~= entry_views(old(entries)@) + Seq::empty());
            }
        },
        SourceItem::Mod { name, content } => {
            match content {
                Some(v) => {
                    let mut next = copy_texts(path);
                    let ghost before = next@;
                    next.push(copy_string(name));
                    proof {
                        assert(views(next@) =~= views(before).push(name@));
                        assert(decreases_to!(*item => *content));
                        assert(decreases_to!(*content => *v));
                    }
                    collect_items(v, &next, entries);
                },
                None => {
                    assert(entry_views(entries@) =~= entry_views(old(entries)@) + Seq::empty());
                },
            }
        },
        SourceItem::Other => {
            assert(entry_views(entries@) =~= entry_views(old(entries)@) + Seq::empty());
        },
    }
}

/// Appends the exported traits among `items` to `entries`, in order.
fn collect_items(items: &Vec<SourceItem>, path: &Vec<String>, entries: &mut Vec<CallbackTraitEntry>)
    ensures
        entry_views(final(entries)@) == entry_views(old(entries)@) + items_entries(
            items@,
            views(path@),
        ),
    decreases items,
{
    let mut i: usize = 0;
    while i < items.len()
        invariant
            i <= items@.len(),
            entry_views(entries@) == entry_views(old(entries)@) + items_entries(
                items@.subrange(0, i as int),
                views(path@),
            ),
        decreases items@.len() - i,
    {
        proof {
            assert(decreases_to!(*items => items@));
            assert(decreases_to!(items@ => items@[i as int]));
        }
        collect_item(&items[i], path, entries);
        proof {
            let next = items@.subrange(0, i + 1);
            assert(next.subrange(0, next.len() - 1) =~= items@.subrange(0, i as int));
            assert(next[next.len() - 1] == items@[i as int]);
        }
        i = i + 1;
    }
    assert(items@.subrange(0, i as int) =~= items@);
}

/// The path of the foreign implementation that the macros generate for an
/// exported trait: `crate`, the trait's module path, then `Foreign`
/// followed by the trait's name.
pub open spec fn spec_foreign_path(e: EntryView) -> Seq<Seq<char>> {
    seq!["crate"@] + e.0 + seq!["Foreign"@ + e.1]
}

/// Whether an entry answers a path whose last segment is `name` and whose
/// other segments are `module`: the names agree, and the module paths agree
/// unless the path names no module.
pub open spec fn entry_matches(e: EntryView, name: Seq<char>, module: Seq<Seq<char>>) -> bool {
    e.1 == name && (module.len() == 0 || e.0 == module)
}

/// `entry_matches` as a predicate on entries.
pub open spec fn matches_fn(name: Seq<char>, module: Seq<Seq<char>>) -> spec_fn(EntryView) -> bool {
    |e: EntryView| entry_matches(e, name, module)
}

/// The entries that answer a path, in registry order.
pub open spec fn spec_matches(entries: Seq<EntryView>, path: Seq<Seq<char>>) -> Seq<EntryView> {
    let segs = spec_normalize(path);
    entries.filter(matches_fn(segs.last(), segs.drop_last()))
}

/// What a trait path resolves to: nothing when the path is empty once a
/// leading `crate`, `self` or `super` is taken off, or when not exactly one
/// entry answers it; else that entry's foreign path and object safety.
pub open spec fn spec_resolve(entries: Seq<EntryView>, path: Seq<Seq<char>>) -> Option<
    (Seq<Seq<char>>, bool),
> {
    if spec_normalize(path).len() == 0 {
        None
    } else {
        let m = spec_matches(entries, path);
        if m.len() == 1 {
            Some((spec_foreign_path(m[0]), m[0].2))
        } else {
            None
        }
    }
}

impl CallbackTraitEntry {
    /// The path of the foreign implementation generated for this trait.
    pub fn foreign_path(&self) -> (r: Vec<String>)
        ensures
            views(r@) == spec_foreign_path(self@),
    {
        let mut r: Vec<String> = Vec::new();
        r.push(string_of("crate"));
        let mut i: usize = 0;
        while i < self.module_parts.len()
            invariant
                i <= self.module_parts@.len(),
                views(r@) =~= seq!["crate"@] + views(self.module_parts@).take(i as int),
            decreases self.module_parts@.len() - i,
        {
            let ghost before = r@;
            r.push(copy_string(&self.module_parts[i]));
            proof {
                assert(views(r@) =~= views(before).push(self.module_parts@[i as int]@));
                assert(views(self.module_parts@).take(i + 1) =~= views(self.module_parts@).take(
                    i as int,
                ).push(self.module_parts@[i as int]@));
            }
            i = i + 1;
        }
        let ghost before = r@;
        r.push(concat2("Foreign", self.trait_name.as_str()));
        proof {
            assert(views(self.module_parts@).take(i as int) =~= views(self.module_parts@));
            assert(views(r@) =~= views(before).push("Foreign"@ + self.trait_name@));
        }
        r
    }
}

impl CallbackTraitRegistry {
    /// A registry of the given entries, in order.
    pub fn from_entries(entries: Vec<CallbackTraitEntry>) -> (r: Self)
        ensures
            r@ == entry_views(entries@),
    {
        CallbackTraitRegistry { entries }
    }

    /// The entries, in order.
    pub fn entries(&self) -> (r: &Vec<CallbackTraitEntry>)
        ensures
            entry_views(r@) == self@,
    {
        &self.entries
    }

    /// What `trait_path` (its segments, as written in a macro) resolves to:
    /// after a leading `crate`, `self` or `super` is taken off, the last
    /// segment names the trait and the others its module; the path resolves
    /// when exactly one exported trait has that name and, unless no module is
    /// named, that module path.
    pub fn resolve(&self, trait_path: &Vec<String>) -> (r: Option<CallbackTraitResolution>)
        ensures
            match r {
                Some(res) => spec_resolve(self@, views(trait_path@)) == Some(res@),
                None => spec_resolve(self@, views(trait_path@)) is None,
            },
    {
        let segments = normalize_segments(trait_path);
        if segments.len() == 0 {
            return None;
        }
        let n: usize = segments.len() - 1;
        let name = &segments[n];
        let ghost segs = views(segments@);
        let ghost module = segs.drop_last();
        let ghost ev = self@;
        let ghost p = matches_fn(segs.last(), module);
        assert(segs.last() == name@);
        let mut count: usize = 0;
        let mut first: usize = 0;
        let mut i: usize = 0;
        while i < self.entries.len()
            invariant
                i <= self.entries@.len(),
                ev == entry_views(self.entries@),
                segs == views(segments@),
                n + 1 == segments@.len(),
                module == segs.drop_last(),
                p == matches_fn(segs.last(), module),
                segs.last() == name@,
                count == ev.take(i as int).filter(p).len(),
                count >= 1 ==> first < i && ev.take(i as int).filter(p)[0] == ev[first as int],
            decreases self.entries@.len() - i,
        {
            proof {
                lemma_filter_step(ev, p, i as int);
            }
            let e = &self.entries[i];
            let name_ok = text_eq(&e.trait_name, name);
            let module_ok = n == 0 || same_prefix(&e.module_parts, &segments, n);
            proof {
                assert(ev[i as int] == e@);
                assert(views(segments@).take(n as int) =~= module);
            }
            if name_ok && module_ok {
                if count == 0 {
                    first = i;
                }
                count = count + 1;
            }
            i = i + 1;
        }
        assert(ev.take(i as int) =~= ev);
        if count == 1 {
            let e = &self.entries[first];
            assert(ev[first as int] == e@);
            Some(CallbackTraitResolution { foreign_path: e.foreign_path(), is_object_safe: e.is_object_safe })
        } else {
            None
        }
    }
}

/// The registry of the exported traits of the given source files, file by
/// file in the given order, each file's items in source order.
pub fn build_registry(files: &Vec<SourceFile>) -> (r: CallbackTraitRegistry)
    ensures
        r@ == flat_map(files@, file_entries_fn()),
{
    let mut entries: Vec<CallbackTraitEntry> = Vec::new();
    let mut i: usize = 0;
    while i < files.len()
        invariant
            i <= files@.len(),
            entry_views(entries@) == flat_map(files@.take(i as int), file_entries_fn()),
        decreases files@.len() - i,
    {
        proof {
            lemma_flat_map_step(files@, file_entries_fn(), i as int);
        }
        collect_items(&files[i].items, &files[i].module_parts, &mut entries);
        i = i + 1;
    }
    assert(files@.take(i as int) =~= files@);
    CallbackTraitRegistry { entries }
}

/// A path resolves to an exported trait when that trait answers it and no
/// other entry does: the result is the trait's foreign path and object
/// safety.
pub proof fn lemma_resolve_unique(entries: Seq<EntryView>, path: Seq<Seq<char>>, k: int)
    requires
        0 <= k < entries.len(),
        spec_normalize(path).len() > 0,
        entry_matches(entries[k], spec_normalize(path).last(), spec_normalize(path).drop_last()),
        forall|j: int|
            0 <= j < entries.len() && j != k ==> !entry_matches(
                #[trigger] entries[j],
                spec_normalize(path).last(),
                spec_normalize(path).drop_last(),
            ),
    ensures
        spec_resolve(entries, path) == Some((spec_foreign_path(entries[k]), entries[k].2)),
{
    let segs = spec_normalize(path);
    let p = matches_fn(segs.last(), segs.drop_last());
    lemma_filter_single(entries, p, k);
}

/// Filtering keeps exactly the one item that passes.
proof fn lemma_filter_single<A>(s: Seq<A>, p: spec_fn(A) -> bool, k: int)
    requires
        0 <= k < s.len(),
        p(s[k]),
        forall|j: int| 0 <= j < s.len() && j != k ==> !p(#[trigger] s[j]),
    ensures
        s.filter(p) == seq![s[k]],
    decreases s.len(),
{
    reveal_with_fuel(Seq::filter, 1);
    let last = s.len() - 1;
    if k == last {
        assert forall|j: int| 0 <= j < s.drop_last().len() implies !p(#[trigger] s.drop_last()[j]) by {
            assert(s.drop_last()[j] == s[j]);
        }
        lemma_filter_none(s.drop_last(), p);
        assert(s.filter(p) =~= seq![s[k]]);
    } else {
        assert forall|j: int| 0 <= j < s.drop_last().len() && j != k implies !p(
            #[trigger] s.drop_last()[j],
        ) by {
            assert(s.drop_last()[j] == s[j]);
        }
        assert(s.drop_last()[k] == s[k]);
        lemma_filter_single(s.drop_last(), p, k);
        assert(!p(s[last]));
    }
}

/// Filtering keeps nothing when nothing passes.
proof fn lemma_filter_none<A>(s: Seq<A>, p: spec_fn(A) -> bool)
    requires
        forall|j: int| 0 <= j < s.len() ==> !p(#[trigger] s[j]),
    ensures
        s.filter(p) == Seq::<A>::empty(),
    decreases s.len(),
{
    reveal_with_fuel(Seq::filter, 1);
    if s.len() > 0 {
        assert forall|j: int| 0 <= j < s.drop_last().len() implies !p(#[trigger] s.drop_last()[j]) by {
            assert(s.drop_last()[j] == s[j]);
        }
        lemma_filter_none(s.drop_last(), p);
        assert(!p(s[s.len() - 1]));
        assert(s.filter(p) =~= Seq::<A>::empty());
    }
}

/// Filtering keeps every item that passes.
proof fn lemma_filter_keeps<A>(s: Seq<A>, p: spec_fn(A) -> bool, k: int)
    requires
        0 <= k < s.len(),
        p(s[k]),
    ensures
        s.filter(p).contains(s[k]),
    decreases s.len(),
{
    reveal_with_fuel(Seq::filter, 1);
    if k == s.len() - 1 {
        assert(s.filter(p).last() == s[k]);
    } else {
        assert(s.drop_last()[k] == s[k]);
        lemma_filter_keeps(s.drop_last(), p, k);
        let i = choose|i: int| 0 <= i < s.drop_last().filter(p).len() && s.drop_last().filter(p)[i] == s[k];
        if p(s.last()) {
            assert(s.filter(p)[i] == s[k]);
        }
    }
}

/// A path that two entries answer resolves to nothing.
pub proof fn lemma_resolve_ambiguous(entries: Seq<EntryView>, path: Seq<Seq<char>>, j: int, k: int)
    requires
        0 <= j < entries.len(),
        0 <= k < entries.len(),
        j != k,
        entry_matches(entries[j], spec_normalize(path).last(), spec_normalize(path).drop_last()),
        entry_matches(entries[k], spec_normalize(path).last(), spec_normalize(path).drop_last()),
    ensures
        spec_resolve(entries, path) is None,
{
    let segs = spec_normalize(path);
    let p = matches_fn(segs.last(), segs.drop_last());
    if segs.len() > 0 {
        lemma_filter_two(entries, p, j, k);
    }
}

/// Filtering keeps at least two items when two pass.
proof fn lemma_filter_two<A>(s: Seq<A>, p: spec_fn(A) -> bool, j: int, k: int)
    requires
        0 <= j < s.len(),
        0 <= k < s.len(),
        j != k,
        p(s[j]),
        p(s[k]),
    ensures
        s.filter(p).len() >= 2,
    decreases s.len(),
{
    reveal_with_fuel(Seq::filter, 1);
    let last = s.len() - 1;
    if j == last {
        assert(s.drop_last()[k] == s[k]);
        lemma_filter_keeps(s.drop_last(), p, k);
    } else if k == last {
        assert(s.drop_last()[j] == s[j]);
        lemma_filter_keeps(s.drop_last(), p, j);
    } else {
        assert(s.drop_last()[j] == s[j]);
        assert(s.drop_last()[k] == s[k]);
        lemma_filter_two(s.drop_last(), p, j, k);
    }
}

/// A leading `crate`, `self` or `super` does not change what a path
/// resolves to, when what follows it does not itself start with one.
pub proof fn lemma_resolve_ignores_root(entries: Seq<EntryView>, root: Seq<char>, rest: Seq<Seq<char>>)
    requires
        root == "crate"@ || root == "self"@ || root == "super"@,
        rest.len() == 0 || !(rest[0] == "crate"@ || rest[0] == "self"@ || rest[0] == "super"@),
    ensures
        spec_resolve(entries, seq![root] + rest) == spec_resolve(entries, rest),
{
    assert((seq![root] + rest).drop_first() =~= rest);
    assert(spec_normalize(rest) == rest);
}

/// A trait carrying an export attribute, written at the top level of one of
/// the files, is in the registry built from them, with that file's module
/// path and its object safety.
pub proof fn lemma_exported_trait_registered(files: Seq<SourceFile>, fi: int, ii: int)
    requires
        0 <= fi < files.len(),
        0 <= ii < files[fi].items@.len(),
        files[fi].items@[ii] is Trait,
        spec_is_callback_trait(attr_views(files[fi].items@[ii]->Trait_0.attributes@)),
    ensures
        flat_map(files, file_entries_fn()).contains(
            (
                views(files[fi].module_parts@),
                files[fi].items@[ii]->Trait_0.name@,
                spec_is_object_safe(
                    attr_views(files[fi].items@[ii]->Trait_0.attributes@),
                    files[fi].items@[ii]->Trait_0.items@,
                ),
            ),
        ),
{
    let f = files[fi];
    let path = views(f.module_parts@);
    let t = f.items@[ii]->Trait_0;
    let e = (path, t.name@, spec_is_object_safe(attr_views(t.attributes@), t.items@));
    assert(item_entries(f.items@[ii], path) == seq![e]);
    assert(item_entries(f.items@[ii], path)[0] == e);
    lemma_items_entries_contain(f.items@, path, ii, e);
    lemma_flat_map_contains(files, file_entries_fn(), fi, e);
}

/// What an item contributes is part of what its list contributes.
proof fn lemma_items_entries_contain(items: Seq<SourceItem>, path: Seq<Seq<char>>, i: int, e: EntryView)
    requires
        0 <= i < items.len(),
        item_entries(items[i], path).contains(e),
    ensures
        items_entries(items, path).contains(e),
    decreases items.len(),
{
    let n = items.len() - 1;
    let front = items.subrange(0, n);
    if i == n {
        let w = choose|w: int| 0 <= w < item_entries(items[i], path).len() && item_entries(items[i], path)[w] == e;
        assert((items_entries(front, path) + item_entries(items[n], path))[items_entries(front, path).len() + w] == e);
    } else {
        assert(front[i] == items[i]);
        lemma_items_entries_contain(front, path, i, e);
        let w = choose|w: int| 0 <= w < items_entries(front, path).len() && items_entries(front, path)[w] == e;
        assert((items_entries(front, path) + item_entries(items[n], path))[w] == e);
    }
}

/// What one item maps to is part of the flattened result.
proof fn lemma_flat_map_contains<A, B>(s: Seq<A>, f: spec_fn(A) -> Seq<B>, i: int, e: B)
    requires
        0 <= i < s.len(),
        f(s[i]).contains(e),
    ensures
        flat_map(s, f).contains(e),
    decreases s.len(),
{
    let n = s.len() - 1;
    if i == n {
        let w = choose|w: int| 0 <= w < f(s[i]).len() && #[trigger] f(s[i])[w] == e;
        assert((flat_map(s.drop_last(), f) + f(s.last()))[flat_map(s.drop_last(), f).len() + w] == e);
    } else {
        assert(s.drop_last()[i] == s[i]);
        lemma_flat_map_contains(s.drop_last(), f, i, e);
        let w = choose|w: int| 0 <= w < flat_map(s.drop_last(), f).len() && flat_map(s.drop_last(), f)[w] == e;
        assert((flat_map(s.drop_last(), f) + f(s.last()))[w] == e);
    }
}

/// Filtering keeps a sequence whole when every item passes.
proof fn lemma_filter_all<A>(s: Seq<A>, p: spec_fn(A) -> bool)
    requires
        forall|i: int| 0 <= i < s.len() ==> p(#[trigger] s[i]),
    ensures
        s.filter(p) == s,
    decreases s.len(),
{
    reveal_with_fuel(Seq::filter, 1);
    if s.len() > 0 {
        assert forall|i: int| 0 <= i < s.drop_last().len() implies p(#[trigger] s.drop_last()[i]) by {
            assert(s.drop_last()[i] == s[i]);
        }
        lemma_filter_all(s.drop_last(), p);
        assert(p(s[s.len() - 1]));
        assert(s.drop_last().push(s.last()) =~= s);
    }
}

/// A file `d1/../dk/stem.rs` below the source root lies in the module
/// `d1::..::dk::stem`, and a `mod.rs` or `lib.rs` there in `d1::..::dk`,
/// when the directory names and the stem are not empty and the stem is
/// neither `lib` nor `mod` nor itself ends in `.rs`.
pub proof fn lemma_module_path_of_file(root: Seq<Seq<char>>, dirs: Seq<Seq<char>>, stem: Seq<char>)
    requires
        forall|i: int| 0 <= i < dirs.len() ==> (#[trigger] dirs[i]).len() > 0,
        stem.len() > 0,
        stem != "lib"@,
        stem != "mod"@,
        !ends_with_rs(stem),
    ensures
        spec_module_path_for_rs_file(root, root + dirs + seq![stem + ".rs"@]) == Ok::<
            Seq<Seq<char>>,
            RegistryError,
        >(dirs.push(stem)),
        spec_module_path_for_rs_file(root, root + dirs + seq!["mod.rs"@]) == Ok::<
            Seq<Seq<char>>,
            RegistryError,
        >(dirs),
        spec_module_path_for_rs_file(root, root + dirs + seq!["lib.rs"@]) == Ok::<
            Seq<Seq<char>>,
            RegistryError,
        >(dirs),
{
    reveal_strlit(".rs");
    reveal_strlit("lib.rs");
    reveal_strlit("mod.rs");
    reveal_strlit("lib");
    reveal_strlit("mod");
    let name = stem + ".rs"@;
    let files = seq![name, "mod.rs"@, "lib.rs"@];
    assert forall|k: int| 0 <= k < 3 implies {
        let file = root + dirs + seq![#[trigger] files[k]];
        &&& root.is_prefix_of(file)
        &&& file.skip(root.len() as int) =~= dirs.push(files[k])
    } by {
        let file = root + dirs + seq![files[k]];
        assert(file.subrange(0, root.len() as int) =~= root);
    }
    assert(dirs.push(name).drop_last() =~= dirs);
    assert(dirs.push("mod.rs"@).drop_last() =~= dirs);
    assert(dirs.push("lib.rs"@).drop_last() =~= dirs);
    // The name is neither `lib.rs` nor `mod.rs`: its stem would be `lib` or `mod`.
    if name == "lib.rs"@ {
        reveal_strlit("lib.rs");
        reveal_strlit(".rs");
        assert("lib.rs"@.len() == 6);
        assert(name.len() == stem.len() + 3);
        assert(stem.len() == 3);
        assert(stem =~= name.subrange(0, 3));
        assert("lib.rs"@.subrange(0, 3) =~= "lib"@);
        assert(false);
    }
    if name == "mod.rs"@ {
        reveal_strlit("mod.rs");
        reveal_strlit(".rs");
        assert("mod.rs"@.len() == 6);
        assert(name.len() == stem.len() + 3);
        assert(stem.len() == 3);
        assert(stem =~= name.subrange(0, 3));
        assert("mod.rs"@.subrange(0, 3) =~= "mod"@);
        assert(false);
    }
    assert(name.subrange(name.len() - 3, name.len() as int) =~= ".rs"@);
    assert(name.subrange(0, name.len() - 3) =~= stem);
    assert(trim_rs(name) == trim_rs(stem));
    assert(trim_rs(stem) == stem);
    lemma_filter_all(dirs, nonempty_fn());
    assert forall|i: int| 0 <= i < dirs.push(stem).len() implies nonempty_fn()(#[trigger] dirs.push(stem)[i]) by {
        if i < dirs.len() {
            assert(dirs.push(stem)[i] == dirs[i]);
        }
    }
    lemma_filter_all(dirs.push(stem), nonempty_fn());
}

// ---------------------------------------------------------------------------
// Reading the source files' text
// ---------------------------------------------------------------------------

/// syn's syntax tree of one item: parsed and read by `parse_source_items`
/// only, never by the proofs.
#[verifier::external_type_specification]
#[verifier::external_body]
pub struct ExSynItem(syn::Item);

/// Parses `text` with `syn::parse_file` and reads each top-level item as a
/// `SourceItem`; `None` when syn does not parse the text. Nothing is stated
/// of the items: which texts syn's grammar accepts, and how the text is
/// lexed (by the compiler inside a macro, by proc-macro2 elsewhere), is
/// syn's.
#[verifier::external_body]
pub(crate) fn parse_source_items(text: &str) -> (r: Option<Vec<SourceItem>>) {
    syn::parse_file(text).ok().map(|file| file.items.iter().map(source_item).collect())
}

/// Reads one of syn's items as a `SourceItem`, field for field (used by
/// `parse_source_items`).
#[verifier::external_body]
fn source_item(item: &syn::Item) -> SourceItem {
    match item {
        syn::Item::Trait(t) => SourceItem::Trait(SourceTrait {
            name: t.ident.to_string(),
            attributes: t.attrs.iter().map(|a| a.path().segments.last().map(|s| s.ident.to_string())).collect(),
            items: t.items.iter().map(|i| match i {
                syn::TraitItem::Fn(f) => Some(f.sig.asyncness.is_some()),
                _ => None,
            }).collect(),
        }),
        syn::Item::Mod(m) => SourceItem::Mod {
            name: m.ident.to_string(),
            content: m.content.as_ref().map(|(_, items)| items.iter().map(source_item).collect()),
        },
        _ => SourceItem::Other,
    }
}

/// The source file at `module_parts` whose text is `text`: `None` when the
/// text does not parse, else the file at that module path with the items
/// the parse read.
pub fn source_file(module_parts: Vec<String>, text: &str) -> (r: Option<SourceFile>)
    ensures
        r matches Some(f) ==> f.module_parts@ == module_parts@,
{
    match parse_source_items(text) {
        Some(items) => Some(SourceFile { module_parts, items }),
        None => None,
    }
}

/// Whether `fs` are the given files, in order, each at its module path.
pub open spec fn files_at(fs: Seq<SourceFile>, files: Seq<(Vec<String>, String)>) -> bool {
    &&& fs.len() == files.len()
    &&& forall|i: int| 0 <= i < fs.len() ==> views((#[trigger] fs[i]).module_parts@) == views(files[i].0@)
}

/// The registry of the crate whose source files are `files`, each given as
/// its module path and its text: `None` when a text does not parse, else
/// the registry built from the parsed files, each at its module path, in
/// the given order.
pub fn registry_from_texts(files: &Vec<(Vec<String>, String)>) -> (r: Option<CallbackTraitRegistry>)
    ensures
        r matches Some(reg) ==> exists|fs: Seq<SourceFile>|
            files_at(fs, files@) && reg@ == #[trigger] flat_map(fs, file_entries_fn()),
{
    let mut parsed: Vec<SourceFile> = Vec::new();
    let mut i: usize = 0;
    while i < files.len()
        invariant
            i <= files@.len(),
            parsed@.len() == i,
            forall|k: int| 0 <= k < i ==> views((#[trigger] parsed@[k]).module_parts@) == views(files@[k].0@),
        decreases files@.len() - i,
    {
        match source_file(copy_texts(&files[i].0), files[i].1.as_str()) {
            Some(f) => {
                let ghost before = parsed@;
                parsed.push(f);
                assert forall|k: int| 0 <= k < i + 1 implies views((#[trigger] parsed@[k]).module_parts@)
                    == views(files@[k].0@) by {
                    if k < i {
                        assert(parsed@[k] == before[k]);
                    }
                }
            },
            None => {
                return None;
            },
        }
        i = i + 1;
    }
    let reg = build_registry(&parsed);
    assert(files_at(parsed@, files@));
    Some(reg)
}

} // verus!
