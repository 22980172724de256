//! The in-app file browser: the directory above the one shown, and the order
//! in which a directory's entries are listed (directories first, then files,
//! each by name).

use vstd::prelude::*;
use crate::paths::{opt_view, path_parent};

verus! {

broadcast use vstd::seq_lib::group_to_multiset_ensures;

/// An entry of a listed directory, as the file system reported it.
pub struct DirEntry {
    pub path: String,
    /// The entry's file name, if it has one.
    pub name: Option<String>,
    pub is_dir: bool,
    pub is_file: bool,
}

/// `x` comes no later than `y` in lexicographic order by code point (which
/// is also the byte order of their UTF-8 encodings).
pub open spec fn lex_le(x: Seq<char>, y: Seq<char>) -> bool
    decreases x.len(),
{
    if x.len() == 0 {
        true
    } else if y.len() == 0 {
        false
    } else if (x[0] as u32) < (y[0] as u32) {
        true
    } else if (x[0] as u32) == (y[0] as u32) {
        lex_le(x.drop_first(), y.drop_first())
    } else {
        false
    }
}

/// Names in order: a missing name first, then by `lex_le`.
pub open spec fn name_le(a: Option<Seq<char>>, b: Option<Seq<char>>) -> bool {
    match a {
        None => true,
        Some(x) => match b {
            None => false,
            Some(y) => lex_le(x, y),
        },
    }
}

/// Entries in listing order: by `(is_file, name)`, so that what is not a
/// file comes before what is, and each group goes by name.
pub open spec fn entry_le(a: DirEntry, b: DirEntry) -> bool {
    if a.is_file != b.is_file {
        !a.is_file
    } else {
        name_le(opt_view(a.name), opt_view(b.name))
    }
}

/// Every entry comes no later than the ones after it.
pub open spec fn sorted_entries(s: Seq<DirEntry>) -> bool {
    forall|i: int, j: int| 0 <= i < j < s.len() ==> entry_le(#[trigger] s[i], #[trigger] s[j])
}

/// Any two sequences are ordered one way or the other.
pub proof fn lemma_lex_total(x: Seq<char>, y: Seq<char>)
    ensures
        lex_le(x, y) || lex_le(y, x),
    decreases x.len(),
{
    if x.len() > 0 && y.len() > 0 && (x[0] as u32) == (y[0] as u32) {
        lemma_lex_total(x.drop_first(), y.drop_first());
    }
}

/// `lex_le` is transitive.
pub proof fn lemma_lex_trans(x: Seq<char>, y: Seq<char>, z: Seq<char>)
    requires
        lex_le(x, y),
        lex_le(y, z),
    ensures
        lex_le(x, z),
    decreases x.len(),
{
    if x.len() > 0 && y.len() > 0 && z.len() > 0 && (x[0] as u32) == (y[0] as u32) && (y[0]
        as u32) == (z[0] as u32) {
        lemma_lex_trans(x.drop_first(), y.drop_first(), z.drop_first());
    }
}

/// Any two entries are ordered one way or the other.
pub proof fn lemma_entry_total(a: DirEntry, b: DirEntry)
    ensures
        entry_le(a, b) || entry_le(b, a),
{
    if a.is_file == b.is_file {
        match (opt_view(a.name), opt_view(b.name)) {
            (Some(x), Some(y)) => lemma_lex_total(x, y),
            _ => {},
        }
    }
}

/// `entry_le` is transitive.
pub proof fn lemma_entry_trans(a: DirEntry, b: DirEntry, c: DirEntry)
    requires
        entry_le(a, b),
        entry_le(b, c),
    ensures
        entry_le(a, c),
{
    if a.is_file == b.is_file && b.is_file == c.is_file {
        match (opt_view(a.name), opt_view(b.name), opt_view(c.name)) {
            (Some(x), Some(y), Some(z)) => lemma_lex_trans(x, y, z),
            _ => {},
        }
    }
}

/// Names are compared by code point: a one-character name comes no later
/// than another exactly when its character's code point is no greater.
pub proof fn law_single_chars_by_code_point(a: char, b: char)
    ensures
        lex_le(seq![a], seq![b]) <==> (a as u32) <= (b as u32),
{
    assert(seq![a].drop_first() =~= Seq::<char>::empty());
    assert(seq![b].drop_first() =~= Seq::<char>::empty());
    assert(lex_le(Seq::<char>::empty(), Seq::<char>::empty()));
    lemma_code_point_injective(a, b);
}

/// Two characters have the same code point only when they are the same.
proof fn lemma_code_point_injective(a: char, b: char)
    ensures
        (a as u32) == (b as u32) <==> a == b,
{
    assert(0 <= (a as int) <= 0x10FFFF);
    assert(0 <= (b as int) <= 0x10FFFF);
    assert((a as u32) as int == a as int);
    assert((b as u32) as int == b as int);
}

/// The first position where two names differ decides their order: the one
/// with the smaller code point there comes first.
pub proof fn law_first_difference_decides(x: Seq<char>, y: Seq<char>, k: int)
    requires
        0 <= k < x.len(),
        k < y.len(),
        x.take(k) == y.take(k),
        x[k] != y[k],
    ensures
        lex_le(x, y) <==> (x[k] as u32) < (y[k] as u32),
    decreases k,
{
    if k > 0 {
        assert(x.take(k)[0] == x[0]);
        assert(y.take(k)[0] == y[0]);
        let xs = x.drop_first();
        let ys = y.drop_first();
        assert(xs.take(k - 1) =~= x.take(k).drop_first());
        assert(ys.take(k - 1) =~= y.take(k).drop_first());
        law_first_difference_decides(xs, ys, k - 1);
        assert(x[0] == y[0]);
        assert(xs[k - 1] == x[k] && ys[k - 1] == y[k]);
        assert(lex_le(x, y) == lex_le(xs, ys));
    } else {
        lemma_code_point_injective(x[0], y[0]);
    }
}

/// A name comes no later than any name that starts with it.
pub proof fn law_prefix_comes_first(x: Seq<char>, z: Seq<char>)
    ensures
        lex_le(x, x + z),
    decreases x.len(),
{
    if x.len() > 0 {
        assert((x + z).drop_first() =~= x.drop_first() + z);
        law_prefix_comes_first(x.drop_first(), z);
    }
}

/// What is not a file is listed before every file; two entries of the same
/// kind, both named, are listed by name.
pub proof fn law_entries_dirs_first_then_by_name(a: DirEntry, b: DirEntry)
    ensures
        !a.is_file && b.is_file ==> entry_le(a, b) && !entry_le(b, a),
        a.is_file == b.is_file ==> match (opt_view(a.name), opt_view(b.name)) {
            (Some(x), Some(y)) => entry_le(a, b) <==> lex_le(x, y),
            _ => true,
        },
{
}

/// `a` and `b` sort as equal.
pub open spec fn entry_equiv(a: DirEntry, b: DirEntry) -> bool {
    entry_le(a, b) && entry_le(b, a)
}

/// The entries that sort as equal to `x`.
pub open spec fn equiv_to(x: DirEntry) -> spec_fn(DirEntry) -> bool {
    |y: DirEntry| entry_equiv(x, y)
}

/// Inserting `e` before entries that all sort strictly after it adds `e` at
/// the end of its class of equal entries, and changes no other class.
proof fn lemma_insert_keeps_classes(s: Seq<DirEntry>, j: int, e: DirEntry, x: DirEntry)
    requires
        0 <= j <= s.len(),
        forall|i: int| j <= i < s.len() ==> !entry_le(#[trigger] s[i], e),
    ensures
        s.insert(j, e).filter(equiv_to(x)) == if entry_equiv(x, e) {
            s.filter(equiv_to(x)).push(e)
        } else {
            s.filter(equiv_to(x))
        },
{
    let p = equiv_to(x);
    let a = s.take(j);
    let b = s.skip(j);
    assert(s.insert(j, e) =~= a.push(e) + b);
    assert(s =~= a + b);
    Seq::filter_distributes_over_add(a.push(e), b, p);
    Seq::filter_distributes_over_add(a, b, p);
    a.lemma_filter_push(e, p);
    if entry_equiv(x, e) {
        assert forall|i: int| 0 <= i < b.len() implies !p(#[trigger] b[i]) by {
            if p(b[i]) {
                lemma_entry_trans(b[i], x, e);
            }
        }
        assert(b.all(|y: DirEntry| !p(y)));
        b.lemma_all_neg_filter_empty(p);
        assert(b.filter(p) =~= Seq::<DirEntry>::empty());
        assert(a.filter(p) + b.filter(p) =~= a.filter(p));
        assert(a.filter(p).push(e) + b.filter(p) =~= a.filter(p).push(e));
    }
}

/// Compares two strings by `lex_le`.
pub fn str_le(a: &str, b: &str) -> (r: bool)
    ensures
        r == lex_le(a@, b@),
{
    let n = a.unicode_len();
    let m = b.unicode_len();
    let mut i: usize = 0;
    assert(a@.skip(0) =~= a@);
    assert(b@.skip(0) =~= b@);
    while i < n && i < m
        invariant
            n == a@.len(),
            m == b@.len(),
            i <= n,
            i <= m,
            lex_le(a@, b@) == lex_le(a@.skip(i as int), b@.skip(i as int)),
        decreases n - i,
    {
        let ca = a.get_char(i) as u32;
        let cb = b.get_char(i) as u32;
        assert(a@.skip(i as int)[0] == a@[i as int]);
        assert(b@.skip(i as int)[0] == b@[i as int]);
        if ca < cb {
            return true;
        }
        if ca != cb {
            return false;
        }
        assert(a@.skip(i as int).drop_first() =~= a@.skip(i + 1));
        assert(b@.skip(i as int).drop_first() =~= b@.skip(i + 1));
        i = i + 1;
    }
    i == n
}

/// Compares two entries by `entry_le`.
pub fn entry_le_exec(a: &DirEntry, b: &DirEntry) -> (r: bool)
    ensures
        r == entry_le(*a, *b),
{
    if a.is_file != b.is_file {
        return !a.is_file;
    }
    match &a.name {
        None => true,
        Some(x) => match &b.name {
            None => false,
            Some(y) => str_le(x.as_str(), y.as_str()),
        },
    }
}

/// Lists a directory's entries in order: what is not a file first, then
/// files, each group by name; entries that sort as equal keep their order.
pub fn sort_dir_entries(entries: Vec<DirEntry>) -> (r: Vec<DirEntry>)
    ensures
        sorted_entries(r@),
        r@.to_multiset() == entries@.to_multiset(),
        forall|x: DirEntry| #[trigger] r@.filter(equiv_to(x)) == entries@.filter(equiv_to(x)),
{
    let ghost all = entries@;
    let mut rest = entries;
    let mut out: Vec<DirEntry> = Vec::new();
    let ghost mut k: int = 0;
    proof {
        assert(all.skip(0) =~= all);
        assert forall|x: DirEntry| #[trigger] out@.filter(equiv_to(x)) == all.take(0).filter(
            equiv_to(x),
        ) by {
            assert(all.take(0) =~= out@);
        }
    }
    while rest.len() > 0
        invariant
            sorted_entries(out@),
            out@.to_multiset().add(rest@.to_multiset()) == all.to_multiset(),
            0 <= k <= all.len(),
            rest@ == all.skip(k),
            forall|x: DirEntry| #[trigger] out@.filter(equiv_to(x)) == all.take(k).filter(equiv_to(x)),
        decreases rest.len(),
    {
        let ghost rest0 = rest@;
        let e = rest.remove(0);
        let mut j: usize = 0;
        while j < out.len() && entry_le_exec(&out[j], &e)
            invariant
                j <= out.len(),
                forall|q: int| 0 <= q < j ==> entry_le(#[trigger] out@[q], e),
            decreases out.len() - j,
        {
            j = j + 1;
        }
        let ghost before = out@;
        proof {
            if j < before.len() {
                lemma_entry_total(before[j as int], e);
            }
            assert forall|k: int| j <= k < before.len() implies entry_le(e, #[trigger] before[k]) by {
                if k > j {
                    lemma_entry_trans(e, before[j as int], before[k]);
                }
            }
        }
        out.insert(j, e);
        proof {
            assert forall|a: int, b: int| 0 <= a < b < out@.len() implies entry_le(
                #[trigger] out@[a],
                #[trigger] out@[b],
            ) by {
                if a < j && b > j {
                    lemma_entry_trans(before[a], e, before[b - 1]);
                }
            }
            assert(rest0.to_multiset() == rest@.to_multiset().insert(e)) by {
                assert(rest@ == rest0.remove(0));
            }
            broadcast use vstd::multiset::group_multiset_axioms;

            assert(e == all[k]);
            assert(all.take(k + 1) =~= all.take(k).push(e));
            assert(rest@ =~= all.skip(k + 1));
            assert forall|i: int| j <= i < before.len() implies !entry_le(#[trigger] before[i], e) by {
                if entry_le(before[i], e) {
                    lemma_entry_trans(before[j as int], before[i], e);
                }
            }
            assert forall|x: DirEntry| #[trigger] out@.filter(equiv_to(x)) == all.take(k + 1).filter(
                equiv_to(x),
            ) by {
                lemma_insert_keeps_classes(before, j as int, e, x);
                all.take(k).lemma_filter_push(e, equiv_to(x));
            }
            k = k + 1;
        }
    }
    proof {
        assert(all.take(k) =~= all);
    }
    out
}

/// The directory above `dir`; `dir` itself when it has none.
pub fn parent_dir(dir: &str) -> (r: String)
    ensures
        r@ == match path_parent(dir@) {
            Some(p) => p,
            None => dir@,
        },
{
    match crate::paths::parent_of(dir) {
        Some(p) => p,
        None => String::from_str(dir),
    }
}

} // verus!
