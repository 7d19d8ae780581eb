//! Text building blocks shared by every generator: joining, decimal
//! formatting and character-level rewriting, each with an exact
//! specification over `Seq<char>`.

use vstd::prelude::*;

verus! {

/// The parts joined by `sep`, in order.
pub open spec fn seq_join(parts: Seq<Seq<char>>, sep: Seq<char>) -> Seq<char>
    decreases parts.len(),
{
    if parts.len() == 0 {
        Seq::empty()
    } else if parts.len() == 1 {
        parts[0]
    } else {
        seq_join(parts.drop_last(), sep) + sep + parts.last()
    }
}

/// The parts concatenated, in order.
pub open spec fn seq_concat(parts: Seq<Seq<char>>) -> Seq<char>
    decreases parts.len(),
{
    if parts.len() == 0 {
        Seq::empty()
    } else {
        seq_concat(parts.drop_last()) + parts.last()
    }
}

/// The text of each string.
pub open spec fn views(v: Seq<String>) -> Seq<Seq<char>> {
    v.map_values(|s: String| s@)
}

/// The decimal digit for `d`, which is below ten.
pub open spec fn digit_char(d: nat) -> char {
    if d == 0 {
        '0'
    } else if d == 1 {
        '1'
    } else if d == 2 {
        '2'
    } else if d == 3 {
        '3'
    } else if d == 4 {
        '4'
    } else if d == 5 {
        '5'
    } else if d == 6 {
        '6'
    } else if d == 7 {
        '7'
    } else if d == 8 {
        '8'
    } else {
        '9'
    }
}

/// The decimal text of `n`, without leading zeros.
pub open spec fn nat_text(n: nat) -> Seq<char>
    decreases n,
{
    if n < 10 {
        seq![digit_char(n)]
    } else {
        nat_text(n / 10).push(digit_char(n % 10))
    }
}

/// The decimal text of `i`, with a leading `-` when it is negative.
pub open spec fn int_text(i: int) -> Seq<char> {
    if i < 0 {
        seq!['-'] + nat_text((-i) as nat)
    } else {
        nat_text(i as nat)
    }
}

/// `s` with every occurrence of `from` replaced by `to`.
pub open spec fn replace_char(s: Seq<char>, from: char, to: Seq<char>) -> Seq<char>
    decreases s.len(),
{
    if s.len() == 0 {
        Seq::empty()
    } else {
        replace_char(s.drop_last(), from, to) + (if s.last() == from {
            to
        } else {
            seq![s.last()]
        })
    }
}

/// `s` with every non-overlapping occurrence of `pat`, scanned from the left,
/// replaced by `rep`.
pub open spec fn replace_all(s: Seq<char>, pat: Seq<char>, rep: Seq<char>) -> Seq<char>
    recommends
        pat.len() > 0,
    decreases s.len(),
{
    if s.len() == 0 || pat.len() == 0 {
        s
    } else if pat.is_prefix_of(s) {
        rep + replace_all(s.skip(pat.len() as int), pat, rep)
    } else {
        seq![s[0]] + replace_all(s.skip(1), pat, rep)
    }
}

/// Appends `t` to `s`.
pub fn push_str(s: &mut String, t: &str)
    ensures
        final(s)@ == old(s)@ + t@,
{
    s.append(t);
}

/// Appends one character to `s` (`String::push`).
#[verifier::external_body]
pub(crate) fn push_char(s: &mut String, c: char)
    ensures
        final(s)@ == old(s)@.push(c),
{
    s.push(c);
}

/// Whether `c` has the Unicode `White_Space` property.
pub open spec fn is_white_space(c: char) -> bool {
    ||| '\u{9}' <= c <= '\u{d}'
    ||| c == ' '
    ||| c == '\u{85}'
    ||| c == '\u{a0}'
    ||| c == '\u{1680}'
    ||| '\u{2000}' <= c <= '\u{200a}'
    ||| c == '\u{2028}'
    ||| c == '\u{2029}'
    ||| c == '\u{202f}'
    ||| c == '\u{205f}'
    ||| c == '\u{3000}'
}

/// `s` without its leading white space.
pub open spec fn trim_start(s: Seq<char>) -> Seq<char>
    decreases s.len(),
{
    if s.len() > 0 && is_white_space(s[0]) {
        trim_start(s.drop_first())
    } else {
        s
    }
}

/// `s` without its trailing white space.
pub open spec fn trim_end(s: Seq<char>) -> Seq<char>
    decreases s.len(),
{
    if s.len() > 0 && is_white_space(s.last()) {
        trim_end(s.drop_last())
    } else {
        s
    }
}

/// `s` without its leading and trailing white space.
pub open spec fn trimmed(s: Seq<char>) -> Seq<char> {
    trim_end(trim_start(s))
}

/// Whether `c` has the Unicode `White_Space` property.
pub fn white_space(c: char) -> (r: bool)
    ensures
        r == is_white_space(c),
{
    ('\u{9}' <= c && c <= '\u{d}') || c == ' ' || c == '\u{85}' || c == '\u{a0}' || c == '\u{1680}'
        || ('\u{2000}' <= c && c <= '\u{200a}') || c == '\u{2028}' || c == '\u{2029}'
        || c == '\u{202f}' || c == '\u{205f}' || c == '\u{3000}'
}

proof fn lemma_trim_start_skip(s: Seq<char>, i: int)
    requires
        0 <= i <= s.len(),
        forall|k: int| 0 <= k < i ==> is_white_space(#[trigger] s[k]),
    ensures
        trim_start(s) == trim_start(s.skip(i)),
    decreases i,
{
    if i > 0 {
        assert(s.drop_first().skip(i - 1) =~= s.skip(i));
        assert forall|k: int| 0 <= k < i - 1 implies is_white_space(#[trigger] s.drop_first()[k]) by {
            assert(s.drop_first()[k] == s[k + 1]);
        }
        lemma_trim_start_skip(s.drop_first(), i - 1);
    } else {
        assert(s.skip(0) =~= s);
    }
}

proof fn lemma_trim_end_take(s: Seq<char>, j: int)
    requires
        0 <= j <= s.len(),
        forall|k: int| j <= k < s.len() ==> is_white_space(#[trigger] s[k]),
    ensures
        trim_end(s) == trim_end(s.take(j)),
    decreases s.len() - j,
{
    if j < s.len() {
        assert(s.drop_last().take(j) =~= s.take(j));
        assert forall|k: int| j <= k < s.len() - 1 implies is_white_space(#[trigger] s.drop_last()[k]) by {
            assert(s.drop_last()[k] == s[k]);
        }
        assert(s.last() == s[s.len() - 1]);
        lemma_trim_end_take(s.drop_last(), j);
    } else {
        assert(s.take(j) =~= s);
    }
}

/// A trimmed text that is not empty begins and ends with a character that
/// is not white space.
pub proof fn lemma_trimmed_ends(s: Seq<char>)
    ensures
        trimmed(s).len() > 0 ==> !is_white_space(trimmed(s)[0]) && !is_white_space(trimmed(s).last()),
{
    lemma_trim_start_first(s);
    lemma_trim_end_prefix(trim_start(s));
}

proof fn lemma_trim_start_first(s: Seq<char>)
    ensures
        trim_start(s).len() > 0 ==> !is_white_space(trim_start(s)[0]),
    decreases s.len(),
{
    if s.len() > 0 && is_white_space(s[0]) {
        lemma_trim_start_first(s.drop_first());
    }
}

proof fn lemma_trim_end_prefix(s: Seq<char>)
    ensures
        trim_end(s).len() <= s.len(),
        trim_end(s) =~= s.take(trim_end(s).len() as int),
        trim_end(s).len() > 0 ==> !is_white_space(trim_end(s).last()),
        s.len() > 0 && !is_white_space(s[0]) ==> trim_end(s).len() > 0,
    decreases s.len(),
{
    if s.len() > 0 && is_white_space(s.last()) {
        lemma_trim_end_prefix(s.drop_last());
        let t = trim_end(s.drop_last());
        assert(s.drop_last().take(t.len() as int) =~= s.take(t.len() as int));
        if s.len() > 1 {
            assert(s.drop_last()[0] == s[0]);
        }
    } else {
        assert(s.take(s.len() as int) =~= s);
    }
}

/// Whether a text is empty or begins and ends with a character that is not
/// white space.
pub open spec fn tight() -> spec_fn(Seq<char>) -> bool {
    |x: Seq<char>| x.len() > 0 ==> !is_white_space(x[0]) && !is_white_space(x.last())
}

/// A text that begins with a character that is not white space keeps at
/// least that character when trimmed.
pub proof fn lemma_trim_nonblank(s: Seq<char>)
    requires
        s.len() > 0,
        !is_white_space(s[0]),
    ensures
        trimmed(s).len() > 0,
{
    lemma_trim_end_prefix(s);
}

/// What holds of every item holds of every item that a filter keeps.
pub proof fn lemma_filter_preserves<A>(s: Seq<A>, pred: spec_fn(A) -> bool, q: spec_fn(A) -> bool)
    requires
        forall|i: int| 0 <= i < s.len() ==> q(#[trigger] s[i]),
    ensures
        forall|i: int| 0 <= i < s.filter(pred).len() ==> q(#[trigger] s.filter(pred)[i]),
    decreases s.len(),
{
    reveal(Seq::filter);
    if s.len() > 0 {
        assert forall|i: int| 0 <= i < s.drop_last().len() implies q(#[trigger] s.drop_last()[i]) by {
            assert(s.drop_last()[i] == s[i]);
        }
        lemma_filter_preserves(s.drop_last(), pred, q);
        assert(s.last() == s[s.len() - 1]);
        let f = s.filter(pred);
        let f0 = s.drop_last().filter(pred);
        assert(f == (if pred(s.last()) { f0.push(s.last()) } else { f0 }));
        assert forall|i: int| 0 <= i < f.len() implies q(#[trigger] f[i]) by {
            if i < f0.len() {
                assert(f[i] == f0[i]);
            } else {
                assert(f[i] == s.last());
            }
        }
    }
}

/// A joined text ends with the last part's last character.
pub proof fn lemma_join_last(parts: Seq<Seq<char>>, sep: Seq<char>)
    requires
        parts.len() > 0,
        parts.last().len() > 0,
    ensures
        seq_join(parts, sep).len() > 0,
        seq_join(parts, sep).last() == parts.last().last(),
{
    if parts.len() == 1 {
        assert(parts[0] == parts.last());
    } else {
        let j = seq_join(parts.drop_last(), sep) + sep;
        assert(seq_join(parts, sep) == j + parts.last());
        assert((j + parts.last()).last() == parts.last().last());
    }
}

/// `s` without its leading and trailing white space (as `str::trim` does).
pub fn trim_text(s: &str) -> (r: String)
    ensures
        r@ == trimmed(s@),
{
    let v = chars_of(s);
    let n = v.len();
    let mut i: usize = 0;
    while i < n && white_space(v[i])
        invariant
            v@ == s@,
            n == v@.len(),
            i <= n,
            forall|k: int| 0 <= k < i ==> is_white_space(#[trigger] v@[k]),
        decreases n - i,
    {
        i = i + 1;
    }
    let mut j: usize = n;
    while j > i && white_space(v[j - 1])
        invariant
            v@ == s@,
            n == v@.len(),
            i <= j <= n,
            forall|k: int| j <= k < n ==> is_white_space(#[trigger] v@[k]),
        decreases j,
    {
        j = j - 1;
    }
    let ghost rest = s@.skip(i as int);
    proof {
        lemma_trim_start_skip(s@, i as int);
        if i < n {
            assert(rest[0] == s@[i as int]);
        }
        assert(trim_start(s@) == rest);
        assert forall|k: int| j - i <= k < rest.len() implies is_white_space(#[trigger] rest[k]) by {
            assert(rest[k] == s@[k + i]);
        }
        lemma_trim_end_take(rest, j - i);
    }
    let mut r = String::new();
    let mut k: usize = i;
    while k < j
        invariant
            v@ == s@,
            i <= k <= j <= n,
            n == v@.len(),
            r@ =~= s@.subrange(i as int, k as int),
        decreases j - k,
    {
        push_char(&mut r, v[k]);
        k = k + 1;
    }
    proof {
        assert(rest.take(j - i) =~= s@.subrange(i as int, j as int));
        if j > i {
            assert(rest.take(j - i).last() == s@[j - 1]);
        }
        lemma_trim_end_stops(rest.take(j - i));
    }
    r
}

proof fn lemma_trim_end_stops(s: Seq<char>)
    requires
        s.len() == 0 || !is_white_space(s.last()),
    ensures
        trim_end(s) == s,
{
}

/// A new string holding `t`.
pub fn string_of(t: &str) -> (r: String)
    ensures
        r@ == t@,
{
    String::from_str(t)
}

/// The concatenation of `a` and `b`.
pub fn concat2(a: &str, b: &str) -> (r: String)
    ensures
        r@ == a@ + b@,
{
    let mut r = String::from_str(a);
    push_str(&mut r, b);
    r
}

/// The concatenation of `a`, `b` and `c`.
pub fn concat3(a: &str, b: &str, c: &str) -> (r: String)
    ensures
        r@ == a@ + b@ + c@,
{
    let mut r = String::from_str(a);
    push_str(&mut r, b);
    push_str(&mut r, c);
    r
}

/// The concatenation of `a`, `b`, `c` and `d`.
pub fn concat4(a: &str, b: &str, c: &str, d: &str) -> (r: String)
    ensures
        r@ == a@ + b@ + c@ + d@,
{
    let mut r = String::from_str(a);
    push_str(&mut r, b);
    push_str(&mut r, c);
    push_str(&mut r, d);
    r
}

/// The concatenation of five texts.
pub fn concat5(a: &str, b: &str, c: &str, d: &str, e: &str) -> (r: String)
    ensures
        r@ == a@ + b@ + c@ + d@ + e@,
{
    let mut r = String::from_str(a);
    push_str(&mut r, b);
    push_str(&mut r, c);
    push_str(&mut r, d);
    push_str(&mut r, e);
    r
}

/// A copy of `s`.
pub fn copy_string(s: &String) -> (r: String)
    ensures
        r == *s,
        r@ == s@,
{
    s.clone()
}

/// Whether the two texts are equal.
pub fn text_eq(a: &String, b: &String) -> (r: bool)
    ensures
        r == (a@ == b@),
{
    *a == *b
}

/// Whether `a` equals the text `b`.
pub fn text_is(a: &String, b: &str) -> (r: bool)
    ensures
        r == (a@ == b@),
{
    let t = String::from_str(b);
    *a == t
}

/// A copy of each string, in order.
pub fn copy_texts(v: &Vec<String>) -> (r: Vec<String>)
    ensures
        views(r@) == views(v@),
{
    let mut r: Vec<String> = Vec::new();
    let mut i: usize = 0;
    while i < v.len()
        invariant
            i <= v@.len(),
            views(r@) =~= views(v@.take(i as int)),
        decreases v@.len() - i,
    {
        r.push(copy_string(&v[i]));
        proof {
            assert(views(v@.take(i + 1)) =~= views(v@.take(i as int)).push(v@[i as int]@));
        }
        i = i + 1;
    }
    assert(v@.take(i as int) =~= v@);
    r
}

/// The parts joined by `sep`.
pub fn join(parts: &Vec<String>, sep: &str) -> (r: String)
    ensures
        r@ == seq_join(views(parts@), sep@),
{
    let mut r = String::new();
    let mut i: usize = 0;
    while i < parts.len()
        invariant
            i <= parts@.len(),
            r@ == seq_join(views(parts@.subrange(0, i as int)), sep@),
        decreases parts@.len() - i,
    {
        if i > 0 {
            push_str(&mut r, sep);
        }
        push_str(&mut r, parts[i].as_str());
        proof {
            let next = views(parts@.subrange(0, i + 1));
            assert(next.drop_last() =~= views(parts@.subrange(0, i as int)));
            assert(next.last() == parts@[i as int]@);
            if i == 0 {
                assert(views(parts@.subrange(0, 0)) =~= Seq::<Seq<char>>::empty());
            }
        }
        i = i + 1;
    }
    assert(parts@.subrange(0, i as int) =~= parts@);
    r
}

/// The parts concatenated.
pub fn concat_all(parts: &Vec<String>) -> (r: String)
    ensures
        r@ == seq_concat(views(parts@)),
{
    let mut r = String::new();
    let mut i: usize = 0;
    while i < parts.len()
        invariant
            i <= parts@.len(),
            r@ == seq_concat(views(parts@.subrange(0, i as int))),
        decreases parts@.len() - i,
    {
        push_str(&mut r, parts[i].as_str());
        proof {
            let next = views(parts@.subrange(0, i + 1));
            assert(next.drop_last() =~= views(parts@.subrange(0, i as int)));
        }
        i = i + 1;
    }
    assert(parts@.subrange(0, i as int) =~= parts@);
    r
}

/// The decimal digit for `d`.
pub fn digit(d: u64) -> (c: char)
    requires
        d < 10,
    ensures
        c == digit_char(d as nat),
{
    if d == 0 {
        '0'
    } else if d == 1 {
        '1'
    } else if d == 2 {
        '2'
    } else if d == 3 {
        '3'
    } else if d == 4 {
        '4'
    } else if d == 5 {
        '5'
    } else if d == 6 {
        '6'
    } else if d == 7 {
        '7'
    } else if d == 8 {
        '8'
    } else {
        '9'
    }
}

/// Appends the decimal text of `n` to `s`.
pub fn push_u64(s: &mut String, n: u64)
    ensures
        final(s)@ == old(s)@ + nat_text(n as nat),
    decreases n,
{
    if n >= 10 {
        push_u64(s, n / 10);
    }
    push_char(s, digit(n % 10));
}

/// The decimal text of `n`.
pub fn u64_text(n: u64) -> (r: String)
    ensures
        r@ == nat_text(n as nat),
{
    let mut r = String::new();
    push_u64(&mut r, n);
    r
}

/// The decimal text of `n`.
pub fn usize_text(n: usize) -> (r: String)
    ensures
        r@ == nat_text(n as nat),
{
    u64_text(n as u64)
}

/// The decimal text of `i`.
pub fn i64_text(i: i64) -> (r: String)
    ensures
        r@ == int_text(i as int),
{
    let mut r = String::new();
    if i < 0 {
        push_char(&mut r, '-');
        let m: i128 = 0i128 - (i as i128);
        push_u64(&mut r, m as u64);
    } else {
        push_u64(&mut r, i as u64);
    }
    r
}

/// `c` with an ASCII capital letter turned into its small letter.
pub open spec fn ascii_lower(c: char) -> char {
    if 'A' <= c && c <= 'Z' {
        ((c as u32) + 32) as char
    } else {
        c
    }
}

/// `c` with an ASCII capital letter turned into its small letter.
pub fn to_ascii_lower(c: char) -> (r: char)
    ensures
        r == ascii_lower(c),
{
    if 'A' <= c && c <= 'Z' {
        let b: u8 = (c as u8) + 32;
        b as char
    } else {
        c
    }
}

/// The characters of `s`, in order.
pub fn chars_of(s: &str) -> (v: Vec<char>)
    ensures
        v@ == s@,
{
    let mut v: Vec<char> = Vec::new();
    for c in it: s.chars()
        invariant
            v@ == it.seq().take(it.index() as int),
            it.seq() == s@,
    {
        v.push(c);
    }
    v
}

/// Renders each item with `f`, in order.
pub fn render_all<T, F: Fn(&T) -> String>(
    items: &Vec<T>,
    f: F,
    Ghost(g): Ghost<spec_fn(T) -> Seq<char>>,
) -> (r: Vec<String>)
    requires
        forall|x: &T| #[trigger] f.requires((x,)),
        forall|x: &T, s: String| #[trigger] f.ensures((x,), s) ==> s@ == g(*x),
    ensures
        views(r@) == items@.map_values(g),
{
    let mut r: Vec<String> = Vec::new();
    let mut i: usize = 0;
    while i < items.len()
        invariant
            i <= items@.len(),
            forall|x: &T| #[trigger] f.requires((x,)),
            forall|x: &T, s: String| #[trigger] f.ensures((x,), s) ==> s@ == g(*x),
            views(r@) =~= items@.subrange(0, i as int).map_values(g),
        decreases items@.len() - i,
    {
        let s = f(&items[i]);
        r.push(s);
        proof {
            assert(items@.subrange(0, i + 1).map_values(g) =~= items@.subrange(0, i as int).map_values(g).push(g(items@[i as int])));
        }
        i = i + 1;
    }
    assert(items@.subrange(0, i as int) =~= items@);
    r
}

/// Renders each item with `f` and the shared context `ctx`, in order.
pub fn render_all_ctx<T, C, F: Fn(&T, &C) -> String>(
    items: &Vec<T>,
    ctx: &C,
    f: F,
    Ghost(g): Ghost<spec_fn(T, C) -> Seq<char>>,
) -> (r: Vec<String>)
    requires
        forall|x: &T, c: &C| #[trigger] f.requires((x, c)),
        forall|x: &T, c: &C, s: String| #[trigger] f.ensures((x, c), s) ==> s@ == g(*x, *c),
    ensures
        views(r@) == items@.map_values(|x: T| g(x, *ctx)),
{
    let mut r: Vec<String> = Vec::new();
    let mut i: usize = 0;
    while i < items.len()
        invariant
            i <= items@.len(),
            forall|x: &T, c: &C| #[trigger] f.requires((x, c)),
            forall|x: &T, c: &C, s: String| #[trigger] f.ensures((x, c), s) ==> s@ == g(*x, *c),
            views(r@) =~= items@.subrange(0, i as int).map_values(|x: T| g(x, *ctx)),
        decreases items@.len() - i,
    {
        let s = f(&items[i], ctx);
        r.push(s);
        proof {
            assert(items@.subrange(0, i + 1).map_values(|x: T| g(x, *ctx)) =~= items@.subrange(
                0,
                i as int,
            ).map_values(|x: T| g(x, *ctx)).push(g(items@[i as int], *ctx)));
        }
        i = i + 1;
    }
    assert(items@.subrange(0, i as int) =~= items@);
    r
}

/// One more item of `s` extends its filtered prefix by that item exactly
/// when the item passes.
pub proof fn lemma_filter_step<A>(s: Seq<A>, p: spec_fn(A) -> bool, i: int)
    requires
        0 <= i < s.len(),
    ensures
        s.take(i + 1).filter(p) == (if p(s[i]) {
            s.take(i).filter(p).push(s[i])
        } else {
            s.take(i).filter(p)
        }),
{
    reveal_with_fuel(Seq::filter, 1);
    assert(s.take(i + 1).drop_last() =~= s.take(i));
}

/// The concatenation of `f` applied to each item of `s`, in order.
pub open spec fn flat_map<A, B>(s: Seq<A>, f: spec_fn(A) -> Seq<B>) -> Seq<B>
    decreases s.len(),
{
    if s.len() == 0 {
        Seq::empty()
    } else {
        flat_map(s.drop_last(), f) + f(s.last())
    }
}

/// One more item of `s` appends its image to the flattened prefix.
pub proof fn lemma_flat_map_step<A, B>(s: Seq<A>, f: spec_fn(A) -> Seq<B>, i: int)
    requires
        0 <= i < s.len(),
    ensures
        flat_map(s.take(i + 1), f) == flat_map(s.take(i), f) + f(s[i]),
{
    assert(s.take(i + 1).drop_last() =~= s.take(i));
}

/// Whether `s` occurs among `v`.
pub fn contains_text(v: &Vec<String>, s: &String) -> (r: bool)
    ensures
        r == views(v@).contains(s@),
{
    let mut i: usize = 0;
    while i < v.len()
        invariant
            i <= v@.len(),
            forall|k: int| 0 <= k < i ==> (#[trigger] v@[k])@ != s@,
        decreases v@.len() - i,
    {
        if text_eq(&v[i], s) {
            assert(views(v@)[i as int] == s@);
            return true;
        }
        i = i + 1;
    }
    assert forall|k: int| 0 <= k < views(v@).len() implies views(v@)[k] != s@ by {
        assert(views(v@)[k] == v@[k]@);
    }
    false
}

/// Whether `pat` occurs in `s` at position `i`.
pub fn occurs_at(s: &Vec<char>, i: usize, pat: &Vec<char>) -> (r: bool)
    requires
        i <= s@.len(),
    ensures
        r == pat@.is_prefix_of(s@.skip(i as int)),
{
    if pat.len() > s.len() - i {
        return false;
    }
    let mut k: usize = 0;
    while k < pat.len()
        invariant
            k <= pat@.len(),
            i + pat@.len() <= s.len(),
            forall|j: int| 0 <= j < k ==> pat@[j] == s@[i + j],
        decreases pat@.len() - k,
    {
        if pat[k] != s[i + k] {
            assert(s@.skip(i as int).subrange(0, pat@.len() as int)[k as int] == s@[i + k]);
            return false;
        }
        k = k + 1;
    }
    assert(pat@ =~= s@.skip(i as int).subrange(0, pat@.len() as int));
    true
}

/// `s` with every non-overlapping occurrence of `pat`, scanned from the
/// left, replaced by `rep` (`s` itself when `pat` is empty).
pub fn replace_text(s: &str, pat: &str, rep: &str) -> (r: String)
    ensures
        r@ == replace_all(s@, pat@, rep@),
{
    if pat.is_empty() {
        return string_of(s);
    }
    let cs = chars_of(s);
    let ps = chars_of(pat);
    let mut r = String::new();
    assert(s@.skip(0) =~= s@);
    assert(r@ + replace_all(s@, pat@, rep@) =~= replace_all(s@, pat@, rep@));
    let mut i: usize = 0;
    while i < cs.len()
        invariant
            cs@ == s@,
            ps@ == pat@,
            pat@.len() > 0,
            i <= cs@.len(),
            r@ + replace_all(s@.skip(i as int), pat@, rep@) == replace_all(s@, pat@, rep@),
        decreases cs@.len() - i,
    {
        let ghost rest = s@.skip(i as int);
        if occurs_at(&cs, i, &ps) {
            push_str(&mut r, rep);
            proof {
                assert(rest.skip(pat@.len() as int) =~= s@.skip(i + pat@.len()));
            }
            i = i + ps.len();
        } else {
            push_char(&mut r, cs[i]);
            proof {
                assert(rest.skip(1) =~= s@.skip(i + 1));
                assert(rest[0] == cs@[i as int]);
            }
            i = i + 1;
        }
    }
    assert(s@.skip(i as int) =~= Seq::<char>::empty());
    r
}

/// Flattening two sequences item by item to the same images gives the
/// same result.
pub proof fn lemma_flat_map_pointwise<A, B, C>(
    a: Seq<A>,
    f: spec_fn(A) -> Seq<C>,
    b: Seq<B>,
    g: spec_fn(B) -> Seq<C>,
)
    requires
        a.len() == b.len(),
        forall|i: int| 0 <= i < a.len() ==> f(a[i]) == g(b[i]),
    ensures
        flat_map(a, f) == flat_map(b, g),
    decreases a.len(),
{
    if a.len() > 0 {
        lemma_flat_map_pointwise(a.drop_last(), f, b.drop_last(), g);
        assert(a.last() == a[a.len() - 1]);
        assert(b.last() == b[b.len() - 1]);
    }
}

/// Filtering two related sequences by predicates that agree item by item
/// keeps them related item by item.
pub proof fn lemma_filter_corresponds<A, B>(
    a: Seq<A>,
    p: spec_fn(A) -> bool,
    b: Seq<B>,
    q: spec_fn(B) -> bool,
    rel: spec_fn(A, B) -> bool,
)
    requires
        a.len() == b.len(),
        forall|i: int| 0 <= i < a.len() ==> rel(a[i], b[i]) && p(a[i]) == q(b[i]),
    ensures
        a.filter(p).len() == b.filter(q).len(),
        forall|k: int| 0 <= k < a.filter(p).len() ==> rel(a.filter(p)[k], b.filter(q)[k]),
    decreases a.len(),
{
    reveal_with_fuel(Seq::filter, 1);
    if a.len() > 0 {
        lemma_filter_corresponds(a.drop_last(), p, b.drop_last(), q, rel);
        assert(a.last() == a[a.len() - 1]);
        assert(b.last() == b[b.len() - 1]);
    }
}

/// Whether `pat` occurs somewhere in `s`.
pub open spec fn occurs_in(s: Seq<char>, pat: Seq<char>) -> bool {
    exists|i: int| 0 <= i <= s.len() && pat.is_prefix_of(#[trigger] s.skip(i))
}

/// A text occurs in any text that surrounds it.
pub proof fn lemma_occurs_middle(a: Seq<char>, x: Seq<char>, b: Seq<char>)
    ensures
        occurs_in(a + x + b, x),
{
    let s = a + x + b;
    assert(s.skip(a.len() as int).subrange(0, x.len() as int) =~= x);
    assert(x.is_prefix_of(s.skip(a.len() as int)));
}

/// Occurring in a text that occurs in `z` is occurring in `z`.
pub proof fn lemma_occurs_trans(x: Seq<char>, y: Seq<char>, z: Seq<char>)
    requires
        occurs_in(y, x),
        occurs_in(z, y),
    ensures
        occurs_in(z, x),
{
    let j = choose|j: int| 0 <= j <= y.len() && x.is_prefix_of(#[trigger] y.skip(j));
    let i = choose|i: int| 0 <= i <= z.len() && y.is_prefix_of(#[trigger] z.skip(i));
    assert(z.skip(i + j).subrange(0, x.len() as int) =~= y.skip(j).subrange(0, x.len() as int));
    assert(x.is_prefix_of(z.skip(i + j)));
}

/// Each part of a joined text occurs in it.
pub proof fn lemma_join_part_occurs(parts: Seq<Seq<char>>, sep: Seq<char>, k: int)
    requires
        0 <= k < parts.len(),
    ensures
        occurs_in(seq_join(parts, sep), parts[k]),
    decreases parts.len(),
{
    if parts.len() == 1 {
        lemma_occurs_middle(Seq::empty(), parts[0], Seq::empty());
        assert(Seq::<char>::empty() + parts[0] + Seq::<char>::empty() =~= parts[0]);
    } else if k == parts.len() - 1 {
        lemma_occurs_middle(seq_join(parts.drop_last(), sep) + sep, parts.last(), Seq::empty());
        assert(seq_join(parts.drop_last(), sep) + sep + parts.last() + Seq::<char>::empty()
            =~= seq_join(parts, sep));
    } else {
        assert(parts.drop_last()[k] == parts[k]);
        lemma_join_part_occurs(parts.drop_last(), sep, k);
        lemma_occurs_middle(Seq::empty(), seq_join(parts.drop_last(), sep), sep + parts.last());
        assert(Seq::<char>::empty() + seq_join(parts.drop_last(), sep) + (sep + parts.last())
            =~= seq_join(parts, sep));
        lemma_occurs_trans(parts[k], seq_join(parts.drop_last(), sep), seq_join(parts, sep));
    }
}

/// Each part of a concatenated text occurs in it.
pub proof fn lemma_concat_part_occurs(parts: Seq<Seq<char>>, k: int)
    requires
        0 <= k < parts.len(),
    ensures
        occurs_in(seq_concat(parts), parts[k]),
    decreases parts.len(),
{
    if k == parts.len() - 1 {
        lemma_occurs_middle(seq_concat(parts.drop_last()), parts.last(), Seq::empty());
        assert(seq_concat(parts.drop_last()) + parts.last() + Seq::<char>::empty() =~= seq_concat(parts));
    } else {
        assert(parts.drop_last()[k] == parts[k]);
        lemma_concat_part_occurs(parts.drop_last(), k);
        lemma_occurs_middle(Seq::empty(), seq_concat(parts.drop_last()), parts.last());
        assert(Seq::<char>::empty() + seq_concat(parts.drop_last()) + parts.last() =~= seq_concat(parts));
        lemma_occurs_trans(parts[k], seq_concat(parts.drop_last()), seq_concat(parts));
    }
}

/// What one item maps to is part of the flattened result.
pub proof fn lemma_flat_map_has<A, B>(s: Seq<A>, f: spec_fn(A) -> Seq<B>, i: int, e: B)
    requires
        0 <= i < s.len(),
        f(s[i]).contains(e),
    ensures
        flat_map(s, f).contains(e),
    decreases s.len(),
{
    let n = s.len() - 1;
    if i == n {
        let w = choose|w: int| 0 <= w < f(s[i]).len() && #[trigger] f(s[i])[w] == e;
        assert((flat_map(s.drop_last(), f) + f(s.last()))[flat_map(s.drop_last(), f).len() + w] == e);
    } else {
        assert(s.drop_last()[i] == s[i]);
        lemma_flat_map_has(s.drop_last(), f, i, e);
        let w = choose|w: int| 0 <= w < flat_map(s.drop_last(), f).len() && flat_map(s.drop_last(), f)[w] == e;
        assert((flat_map(s.drop_last(), f) + f(s.last()))[w] == e);
    }
}

} // verus!
