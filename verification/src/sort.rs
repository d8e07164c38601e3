//! Listing order for both panes: folders first, then by lower-cased name,
//! with entries that compare equal kept in the order they came in.
use vstd::prelude::*;
use crate::entries::{DeviceEntry, DeviceEntryKind, HostEntry};
use crate::pane::Named;
use crate::text::{chars_of, lowercase, to_lowercase};

verus! {

/// An entry that is either a folder or a file.
pub trait Listed: Named {
    /// Whether the entry is a folder.
    spec fn is_folder_view(&self) -> bool;

    /// Whether the entry is a folder.
    fn is_folder(&self) -> (r: bool)
        ensures
            r == self.is_folder_view();
}

impl<P> Listed for HostEntry<P> {
    open spec fn is_folder_view(&self) -> bool {
        self.is_dir
    }

    fn is_folder(&self) -> (r: bool) {
        self.is_dir
    }
}

impl Listed for DeviceEntry {
    open spec fn is_folder_view(&self) -> bool {
        self.kind == DeviceEntryKind::Directory
    }

    fn is_folder(&self) -> (r: bool) {
        match self.kind {
            DeviceEntryKind::Directory => true,
            DeviceEntryKind::File => false,
        }
    }
}

/// Strict lexicographic order on character sequences, by code point.
pub open spec fn lex_lt(a: Seq<char>, b: Seq<char>) -> bool
    decreases a.len(),
{
    if a.len() == 0 {
        b.len() > 0
    } else if b.len() == 0 {
        false
    } else if a[0] != b[0] {
        (a[0] as u32) < (b[0] as u32)
    } else {
        lex_lt(a.drop_first(), b.drop_first())
    }
}

/// The lower-cased name an entry is ordered by.
pub open spec fn order_name<T: Listed>(e: T) -> Seq<char> {
    lowercase(e.name_view())
}

/// `a` is listed strictly before `b`: a folder before a file, otherwise by
/// lower-cased name.
pub open spec fn goes_before<T: Listed>(a: T, b: T) -> bool {
    (a.is_folder_view() && !b.is_folder_view()) || (a.is_folder_view()
        == b.is_folder_view() && lex_lt(order_name(a), order_name(b)))
}

/// `a` and `b` compare equal: same kind and same lower-cased name.
pub open spec fn same_rank<T: Listed>(a: T, b: T) -> bool {
    a.is_folder_view() == b.is_folder_view() && order_name(a) == order_name(b)
}

/// No entry is listed after one that should come after it.
pub open spec fn in_listing_order<T: Listed>(s: Seq<T>) -> bool {
    forall|i: int, j: int| 0 <= i < j < s.len() ==> !goes_before(#[trigger] s[j], #[trigger] s[i])
}

/// The entries of `s` that compare equal to `x`, in their order in `s`.
pub open spec fn rank_class<T: Listed>(s: Seq<T>, x: T) -> Seq<T> {
    s.filter(|e: T| same_rank(e, x))
}

/// `after` holds every group of equal entries of `before`, each in the same order.
pub open spec fn keeps_ties<T: Listed>(before: Seq<T>, after: Seq<T>) -> bool {
    forall|x: T| #[trigger] rank_class(after, x) == rank_class(before, x)
}

proof fn lemma_lex_irreflexive(a: Seq<char>)
    ensures
        !lex_lt(a, a),
    decreases a.len(),
{
    if a.len() > 0 {
        lemma_lex_irreflexive(a.drop_first());
    }
}

proof fn lemma_lex_asymmetric(a: Seq<char>, b: Seq<char>)
    ensures
        !(lex_lt(a, b) && lex_lt(b, a)),
    decreases a.len(),
{
    if a.len() > 0 && b.len() > 0 && a[0] == b[0] {
        lemma_lex_asymmetric(a.drop_first(), b.drop_first());
    }
}

proof fn lemma_lex_transitive(a: Seq<char>, b: Seq<char>, c: Seq<char>)
    requires
        lex_lt(a, b),
        lex_lt(b, c),
    ensures
        lex_lt(a, c),
    decreases a.len(),
{
    if a.len() > 0 && b.len() > 0 && c.len() > 0 && a[0] == b[0] && b[0] == c[0] {
        lemma_lex_transitive(a.drop_first(), b.drop_first(), c.drop_first());
    }
}

proof fn lemma_lex_total(a: Seq<char>, b: Seq<char>)
    requires
        a != b,
    ensures
        lex_lt(a, b) || lex_lt(b, a),
    decreases a.len(),
{
    if a.len() > 0 && b.len() > 0 && a[0] == b[0] {
        if a.drop_first() == b.drop_first() {
            assert(a =~= seq![a[0]] + a.drop_first());
            assert(b =~= seq![b[0]] + b.drop_first());
        }
        lemma_lex_total(a.drop_first(), b.drop_first());
    } else if a.len() > 0 && b.len() > 0 {
        vstd::utf8::char_u32_cast(a[0], a[0] as u32);
        vstd::utf8::char_u32_cast(b[0], b[0] as u32);
    } else if a.len() == 0 && b.len() == 0 {
        assert(a =~= b);
    }
}

/// Exactly one of: `a` before `b`, `b` before `a`, or the two compare equal.
proof fn lemma_rank_trichotomy<T: Listed>(a: T, b: T)
    ensures
        !(goes_before(a, b) && goes_before(b, a)),
        !goes_before(a, b) && !goes_before(b, a) <==> same_rank(a, b),
        same_rank(a, b) ==> !goes_before(a, b),
{
    lemma_lex_asymmetric(order_name(a), order_name(b));
    lemma_lex_irreflexive(order_name(a));
    if order_name(a) != order_name(b) {
        lemma_lex_total(order_name(a), order_name(b));
    }
}

/// Something before `b`, where `c` is not before `b`, is before `c`.
proof fn lemma_before_chain<T: Listed>(a: T, b: T, c: T)
    requires
        goes_before(a, b),
        !goes_before(c, b),
    ensures
        goes_before(a, c),
{
    lemma_rank_trichotomy(b, c);
    if goes_before(b, c) {
        if a.is_folder_view() == b.is_folder_view() && b.is_folder_view() == c.is_folder_view() {
            lemma_lex_transitive(order_name(a), order_name(b), order_name(c));
        }
    }
}

/// Whether the name `a` (already lower-cased for listing) comes strictly
/// before `b`: code point by code point, a proper prefix first.
pub fn lex_less(a: &Vec<char>, b: &Vec<char>) -> (r: bool)
    ensures
        r == lex_lt(a@, b@),
{
    let mut i: usize = 0;
    assert(a@.subrange(0, a@.len() as int) =~= a@);
    assert(b@.subrange(0, b@.len() as int) =~= b@);
    while i < a.len() && i < b.len() && a[i] == b[i]
        invariant
            i <= a@.len(),
            i <= b@.len(),
            a@.subrange(0, i as int) == b@.subrange(0, i as int),
            lex_lt(a@, b@) == lex_lt(a@.subrange(i as int, a@.len() as int), b@.subrange(
                i as int,
                b@.len() as int,
            )),
        decreases a@.len() - i,
    {
        proof {
            let sa = a@.subrange(i as int, a@.len() as int);
            let sb = b@.subrange(i as int, b@.len() as int);
            assert(sa.drop_first() =~= a@.subrange(i + 1, a@.len() as int));
            assert(sb.drop_first() =~= b@.subrange(i + 1, b@.len() as int));
            assert(a@.subrange(0, i + 1) =~= a@.subrange(0, i as int).push(a@[i as int]));
            assert(b@.subrange(0, i + 1) =~= b@.subrange(0, i as int).push(b@[i as int]));
        }
        i = i + 1;
    }
    if i < a.len() && i < b.len() {
        (a[i] as u32) < (b[i] as u32)
    } else {
        i == a.len() && i < b.len()
    }
}

fn goes_before_exec<T: Listed>(a: &T, b: &T) -> (r: bool)
    ensures
        r == goes_before(*a, *b),
{
    let fa = a.is_folder();
    let fb = b.is_folder();
    if fa != fb {
        fa
    } else {
        let la = to_lowercase(a.name());
        let lb = to_lowercase(b.name());
        let ka = chars_of(la.as_str());
        let kb = chars_of(lb.as_str());
        lex_less(&ka, &kb)
    }
}

proof fn lemma_class_of_single<T: Listed>(x: T, y: T)
    ensures
        rank_class(seq![x], y) == (if same_rank(x, y) { seq![x] } else { Seq::<T>::empty() }),
{
    reveal_with_fuel(Seq::filter, 2);
    assert(seq![x].drop_last() =~= Seq::<T>::empty());
}

proof fn lemma_class_none<T: Listed>(s: Seq<T>, y: T)
    requires
        forall|i: int| 0 <= i < s.len() ==> !same_rank(#[trigger] s[i], y),
    ensures
        rank_class(s, y) == Seq::<T>::empty(),
    decreases s.len(),
{
    reveal(Seq::filter);
    if s.len() > 0 {
        lemma_class_none(s.drop_last(), y);
    }
}

proof fn lemma_class_split<T: Listed>(a: Seq<T>, b: Seq<T>, y: T)
    ensures
        rank_class(a + b, y) == rank_class(a, y) + rank_class(b, y),
{
    let f = |e: T| same_rank(e, y);
    Seq::filter_distributes_over_add(a, b, f);
}

/// Inserting `x` where everything after it goes after `x` keeps the order and
/// adds `x` to the end of its group.
proof fn lemma_insert_step<T: Listed>(done: Seq<T>, out: Seq<T>, p: int, x: T)
    requires
        0 <= p <= out.len(),
        in_listing_order(out),
        keeps_ties(done, out),
        forall|i: int| p <= i < out.len() ==> goes_before(x, #[trigger] out[i]),
        forall|i: int| 0 <= i < p ==> !goes_before(x, #[trigger] out[i]),
    ensures
        in_listing_order(out.insert(p, x)),
        keeps_ties(done.push(x), out.insert(p, x)),
{
    let o2 = out.insert(p, x);
    assert forall|i: int, j: int| 0 <= i < j < o2.len() implies !goes_before(
        #[trigger] o2[j],
        #[trigger] o2[i],
    ) by {
        if j < p {
            assert(o2[i] == out[i] && o2[j] == out[j]);
        } else if j == p {
            assert(o2[i] == out[i]);
        } else if i == p {
            assert(o2[j] == out[j - 1]);
            lemma_rank_trichotomy(x, out[j - 1]);
        } else if i < p {
            assert(o2[i] == out[i] && o2[j] == out[j - 1]);
        } else {
            assert(o2[i] == out[i - 1] && o2[j] == out[j - 1]);
        }
    }
    let front = out.subrange(0, p);
    let back = out.subrange(p, out.len() as int);
    assert(out =~= front + back);
    assert(o2 =~= front + seq![x] + back);
    assert forall|y: T| #[trigger] rank_class(o2, y) == rank_class(done.push(x), y) by {
        lemma_class_split(front + seq![x], back, y);
        lemma_class_split(front, seq![x], y);
        lemma_class_split(front, back, y);
        lemma_class_split(done, seq![x], y);
        lemma_class_of_single(x, y);
        assert(done.push(x) =~= done + seq![x]);
        assert(rank_class(out, y) == rank_class(done, y));
        if same_rank(x, y) {
            assert forall|i: int| 0 <= i < back.len() implies !same_rank(#[trigger] back[i], y) by {
                assert(back[i] == out[p + i]);
                lemma_rank_trichotomy(x, back[i]);
                lemma_rank_trichotomy(back[i], y);
                if same_rank(back[i], y) {
                    assert(same_rank(x, back[i]));
                }
            }
            lemma_class_none(back, y);
        }
    }
}

proof fn lemma_class_cons<T: Listed>(x: T, rest: Seq<T>, y: T)
    ensures
        rank_class(seq![x] + rest, y) == (if same_rank(x, y) {
            seq![x] + rank_class(rest, y)
        } else {
            rank_class(rest, y)
        }),
{
    lemma_class_split(seq![x], rest, y);
    lemma_class_of_single(x, y);
    if !same_rank(x, y) {
        assert(Seq::<T>::empty() + rank_class(rest, y) =~= rank_class(rest, y));
    }
}

proof fn lemma_class_member<T: Listed>(s: Seq<T>, y: T) -> (j: int)
    requires
        rank_class(s, y).len() > 0,
    ensures
        0 <= j < s.len(),
        same_rank(s[j], y),
{
    if forall|i: int| 0 <= i < s.len() ==> !same_rank(#[trigger] s[i], y) {
        lemma_class_none(s, y);
        assert(false);
        0
    } else {
        choose|i: int| 0 <= i < s.len() && same_rank(#[trigger] s[i], y)
    }
}

/// The listing order is fully determined: two lists in listing order that hold
/// the same groups of equal entries, each in the same order, are the same list.
/// So sorting gives one answer, and sorting a sorted list changes nothing.
pub proof fn lemma_listing_order_unique<T: Listed>(a: Seq<T>, b: Seq<T>)
    requires
        in_listing_order(a),
        in_listing_order(b),
        keeps_ties(a, b),
    ensures
        a == b,
    decreases a.len() + b.len(),
{
    if a.len() == 0 && b.len() == 0 {
        assert(a =~= b);
        return;
    }
    if a.len() == 0 {
        assert(b =~= seq![b[0]] + b.drop_first());
        lemma_class_cons(b[0], b.drop_first(), b[0]);
        assert(rank_class(b, b[0]) == rank_class(a, b[0]));
        lemma_class_none(a, b[0]);
        assert(false);
    }
    if b.len() == 0 {
        assert(a =~= seq![a[0]] + a.drop_first());
        lemma_class_cons(a[0], a.drop_first(), a[0]);
        assert(rank_class(b, a[0]) == rank_class(a, a[0]));
        lemma_class_none(b, a[0]);
        assert(false);
    }
    let x = a[0];
    let y = b[0];
    assert(a =~= seq![x] + a.drop_first());
    assert(b =~= seq![y] + b.drop_first());
    lemma_class_cons(x, a.drop_first(), x);
    lemma_class_cons(y, b.drop_first(), y);
    assert(rank_class(b, x) == rank_class(a, x));
    assert(rank_class(a, y) == rank_class(b, y));
    lemma_rank_trichotomy(x, y);
    if goes_before(x, y) {
        let j = lemma_class_member(b, x);
        if j > 0 {
            assert(!goes_before(b[j], b[0]));
        }
        assert(false);
    }
    if goes_before(y, x) {
        let j = lemma_class_member(a, y);
        if j > 0 {
            assert(!goes_before(a[j], a[0]));
        }
        assert(false);
    }
    assert(same_rank(x, y));
    lemma_class_cons(x, a.drop_first(), y);
    lemma_class_cons(y, b.drop_first(), x);
    assert(rank_class(a, x)[0] == x);
    assert(rank_class(b, x)[0] == y);
    let a2 = a.drop_first();
    let b2 = b.drop_first();
    assert forall|i: int, j: int| 0 <= i < j < a2.len() implies !goes_before(
        #[trigger] a2[j],
        #[trigger] a2[i],
    ) by {
        assert(a2[i] == a[i + 1] && a2[j] == a[j + 1]);
    }
    assert forall|i: int, j: int| 0 <= i < j < b2.len() implies !goes_before(
        #[trigger] b2[j],
        #[trigger] b2[i],
    ) by {
        assert(b2[i] == b[i + 1] && b2[j] == b[j + 1]);
    }
    assert forall|z: T| #[trigger] rank_class(b2, z) == rank_class(a2, z) by {
        lemma_class_cons(x, a2, z);
        lemma_class_cons(y, b2, z);
        assert(rank_class(b, z) == rank_class(a, z));
        if same_rank(x, z) {
            assert(rank_class(a2, z) =~= rank_class(a, z).drop_first());
            assert(rank_class(b2, z) =~= rank_class(b, z).drop_first());
        }
    }
    lemma_listing_order_unique(a2, b2);
}

/// Sorts `entries` into listing order: folders first, then by lower-cased
/// name; entries that compare equal keep their order.
pub fn sort_listing<T: Listed>(entries: &mut Vec<T>)
    ensures
        in_listing_order(final(entries)@),
        keeps_ties(old(entries)@, final(entries)@),
{
    let mut rest: Vec<T> = Vec::new();
    std::mem::swap(&mut rest, entries);
    let ghost input = rest@;
    let mut out: Vec<T> = Vec::new();
    let mut k: usize = 0;
    assert(input.subrange(0, 0) =~= Seq::<T>::empty());
    while rest.len() > 0
        invariant
            k + rest@.len() == input.len(),
            out@.len() == k,
            rest@ == input.subrange(k as int, input.len() as int),
            in_listing_order(out@),
            keeps_ties(input.subrange(0, k as int), out@),
        decreases rest@.len(),
    {
        let x = rest.remove(0);
        let mut p: usize = out.len();
        while p > 0 && goes_before_exec(&x, &out[p - 1])
            invariant
                p <= out@.len(),
                forall|i: int| p <= i < out@.len() ==> goes_before(x, #[trigger] out@[i]),
            decreases p,
        {
            p = p - 1;
        }
        proof {
            assert forall|i: int| 0 <= i < p implies !goes_before(x, #[trigger] out@[i]) by {
                if goes_before(x, out@[i]) {
                    assert(!goes_before(out@[p - 1], out@[i]));
                    lemma_before_chain(x, out@[i], out@[p - 1]);
                }
            }
            lemma_insert_step(input.subrange(0, k as int), out@, p as int, x);
            assert(input.subrange(0, k + 1) =~= input.subrange(0, k as int).push(x));
        }
        out.insert(p, x);
        k = out.len();
    }
    assert(input.subrange(0, k as int) =~= input);
    *entries = out;
}

/// Sorts device entries into listing order (see [`sort_listing`]).
pub fn sort_device_entries(entries: &mut Vec<DeviceEntry>)
    ensures
        in_listing_order(final(entries)@),
        keeps_ties(old(entries)@, final(entries)@),
{
    sort_listing(entries);
}

/// Sorts host entries into listing order (see [`sort_listing`]).
pub fn sort_host_entries<P>(entries: &mut Vec<HostEntry<P>>)
    ensures
        in_listing_order(final(entries)@),
        keeps_ties(old(entries)@, final(entries)@),
{
    sort_listing(entries);
}

} // verus!
