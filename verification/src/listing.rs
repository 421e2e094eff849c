//! The order of a directory listing, its parent entry, and the chain of
//! ancestors of a path.
use vstd::prelude::*;
use vstd::string::*;
use crate::app::{DirEntry, EntryModel, entry_views};
use crate::path::{parent_of, path_parent};
use crate::text::{lowercase, owned, to_lowercase, views};

verus! {

/// Whether `a` comes before `b` in the lexicographic order of their
/// characters (the order in which `str` compares, since UTF-8 keeps the
/// order of code points).
pub open spec fn seq_less(a: Seq<char>, b: Seq<char>) -> bool
    decreases a.len(),
{
    if a.len() == 0 {
        b.len() > 0
    } else if b.len() == 0 {
        false
    } else if a[0] != b[0] {
        a[0] < b[0]
    } else {
        seq_less(a.drop_first(), b.drop_first())
    }
}

/// Whether the entry `a` is listed before `b`: directories come first, and
/// within each kind the lower-cased names are in order.
pub open spec fn sorts_before(a: EntryModel, b: EntryModel) -> bool {
    ||| (a.is_dir && !b.is_dir)
    ||| (a.is_dir == b.is_dir && seq_less(lowercase(a.name), lowercase(b.name)))
}

/// Whether two entries have the same place in the order.
pub open spec fn same_key(a: EntryModel, b: EntryModel) -> bool {
    a.is_dir == b.is_dir && lowercase(a.name) == lowercase(b.name)
}

/// Whether no entry of `s` is listed before an entry ahead of it.
pub open spec fn in_listing_order(s: Seq<EntryModel>) -> bool {
    forall|i: int, j: int| #![trigger s[i], s[j]] 0 <= i < j < s.len() ==> !sorts_before(s[j], s[i])
}

/// Whether `p` lists each of `0..n` once.
pub open spec fn is_permutation(p: Seq<int>, n: int) -> bool {
    &&& p.len() == n
    &&& forall|i: int| 0 <= i < n ==> 0 <= #[trigger] p[i] < n
    &&& forall|i: int, j: int| #![trigger p[i], p[j]] 0 <= i < j < n ==> p[i] != p[j]
}

/// Whether `out` is `input` rearranged in listing order, with the entries
/// of equal place kept in the order they came in.
pub open spec fn stably_sorted(input: Seq<EntryModel>, out: Seq<EntryModel>) -> bool {
    exists|p: Seq<int>|
        {
            &&& is_permutation(p, input.len() as int)
            &&& out.len() == p.len()
            &&& forall|i: int| 0 <= i < out.len() ==> #[trigger] out[i] == input[p[i]]
            &&& in_listing_order(out)
            &&& forall|i: int, j: int|
                #![trigger out[i], out[j]]
                0 <= i < j < out.len() && same_key(out[i], out[j]) ==> p[i] < p[j]
        }
}

proof fn lemma_seq_less_irreflexive(a: Seq<char>)
    ensures
        !seq_less(a, a),
    decreases a.len(),
{
    if a.len() > 0 {
        lemma_seq_less_irreflexive(a.drop_first());
    }
}

proof fn lemma_seq_less_transitive(a: Seq<char>, b: Seq<char>, c: Seq<char>)
    requires
        seq_less(a, b),
        seq_less(b, c),
    ensures
        seq_less(a, c),
    decreases a.len(),
{
    if a.len() > 0 && b.len() > 0 && c.len() > 0 && a[0] == b[0] && b[0] == c[0] {
        lemma_seq_less_transitive(a.drop_first(), b.drop_first(), c.drop_first());
    }
}

proof fn lemma_sorts_before_order(a: EntryModel, b: EntryModel, c: EntryModel)
    ensures
        !sorts_before(a, a),
        sorts_before(a, b) && sorts_before(b, c) ==> sorts_before(a, c),
{
    lemma_seq_less_irreflexive(lowercase(a.name));
    if sorts_before(a, b) && sorts_before(b, c) && a.is_dir == b.is_dir && b.is_dir == c.is_dir {
        lemma_seq_less_transitive(lowercase(a.name), lowercase(b.name), lowercase(c.name));
    }
}

/// Whether `a` comes before `b` in the order of their characters.
pub fn name_less(a: &str, b: &str) -> (r: bool)
    ensures
        r == seq_less(a@, b@),
{
    let la = a.unicode_len();
    let lb = b.unicode_len();
    let mut i: usize = 0;
    assert(a@.skip(0) =~= a@);
    assert(b@.skip(0) =~= b@);
    while i < la && i < lb
        invariant
            i <= la == a@.len(),
            i <= lb == b@.len(),
            seq_less(a@, b@) == seq_less(a@.skip(i as int), b@.skip(i as int)),
        decreases la - i,
    {
        let ca = a.get_char(i);
        let cb = b.get_char(i);
        assert(a@.skip(i as int)[0] == ca);
        assert(b@.skip(i as int)[0] == cb);
        if ca != cb {
            return ca < cb;
        }
        assert(a@.skip(i as int).drop_first() =~= a@.skip(i + 1));
        assert(b@.skip(i as int).drop_first() =~= b@.skip(i + 1));
        i = i + 1;
    }
    i == la && i < lb
}

/// Whether `a` is listed before `b` (see [`sorts_before`]).
pub fn entry_sorts_before(a: &DirEntry, b: &DirEntry) -> (r: bool)
    ensures
        r == sorts_before(a@, b@),
{
    if a.is_dir && !b.is_dir {
        return true;
    }
    if a.is_dir != b.is_dir {
        return false;
    }
    let la = to_lowercase(a.name.as_str());
    let lb = to_lowercase(b.name.as_str());
    name_less(la.as_str(), lb.as_str())
}

proof fn lemma_insert_sorted(ov: Seq<EntryModel>, p: Seq<int>, x: EntryModel, n: int, k: int)
    requires
        p.len() == ov.len(),
        0 <= k <= ov.len(),
        in_listing_order(ov),
        forall|i: int| 0 <= i < p.len() ==> 0 <= #[trigger] p[i] < n,
        forall|i: int, j: int|
            #![trigger ov[i], ov[j]]
            0 <= i < j < ov.len() && same_key(ov[i], ov[j]) ==> p[i] < p[j],
        forall|j: int| 0 <= j < k ==> !sorts_before(x, #[trigger] ov[j]),
        k < ov.len() ==> sorts_before(x, ov[k]),
    ensures
        in_listing_order(ov.insert(k, x)),
        ({
            let o2 = ov.insert(k, x);
            let p2 = p.insert(k, n);
            forall|i: int, j: int|
                #![trigger o2[i], o2[j]]
                0 <= i < j < o2.len() && same_key(o2[i], o2[j]) ==> p2[i] < p2[j]
        }),
{
    let o2 = ov.insert(k, x);
    let p2 = p.insert(k, n);
    assert forall|i: int, j: int| #![trigger o2[i], o2[j]] 0 <= i < j < o2.len() implies !sorts_before(o2[j], o2[i]) && (same_key(o2[i], o2[j]) ==> p2[i] < p2[j]) by {
        if j < k {
            assert(o2[i] == ov[i] && o2[j] == ov[j]);
        } else if j == k {
            assert(o2[i] == ov[i] && o2[j] == x);
            assert(p2[i] == p[i] && p2[j] == n);
        } else if i < k {
            assert(o2[i] == ov[i] && o2[j] == ov[j - 1]);
        } else if i == k {
            assert(o2[i] == x && o2[j] == ov[j - 1]);
            lemma_sorts_before_order(ov[j - 1], x, ov[k]);
            lemma_sorts_before_order(ov[k], x, ov[k]);
            if k < j - 1 {
                assert(!sorts_before(ov[j - 1], ov[k]));
            }
        } else {
            assert(o2[i] == ov[i - 1] && o2[j] == ov[j - 1]);
            assert(p2[i] == p[i - 1] && p2[j] == p[j - 1]);
        }
    }
}

proof fn lemma_seq_less_total(a: Seq<char>, b: Seq<char>)
    ensures
        seq_less(a, b) || seq_less(b, a) || a == b,
    decreases a.len(),
{
    if a.len() > 0 && b.len() > 0 && a[0] == b[0] {
        lemma_seq_less_total(a.drop_first(), b.drop_first());
        if a.drop_first() == b.drop_first() {
            assert(a =~= seq![a[0]] + a.drop_first());
            assert(b =~= seq![b[0]] + b.drop_first());
        }
    } else if a.len() == 0 && b.len() == 0 {
        assert(a =~= b);
    }
}

/// In a listing in order, what comes after an entry that `x` is listed
/// before also comes after `x`.
proof fn lemma_before_spreads(ov: Seq<EntryModel>, x: EntryModel, j: int, k: int)
    requires
        in_listing_order(ov),
        0 <= j < k < ov.len(),
        sorts_before(x, ov[j]),
    ensures
        sorts_before(x, ov[k]),
{
    assert(!sorts_before(ov[k], ov[j]));
    lemma_seq_less_total(lowercase(ov[j].name), lowercase(ov[k].name));
    lemma_sorts_before_order(x, ov[j], ov[k]);
}

/// The entries that an order of positions lists.
pub open spec fn ordered(input: Seq<EntryModel>, order: Seq<usize>) -> Seq<EntryModel> {
    order.map_values(|k: usize| input[k as int])
}

/// The positions of an order, as integers.
pub open spec fn positions(order: Seq<usize>) -> Seq<int> {
    order.map_values(|k: usize| k as int)
}

fn key_sorts_before(entries: &Vec<DirEntry>, keys: &Vec<String>, a: usize, b: usize) -> (r: bool)
    requires
        a < entries@.len(),
        b < entries@.len(),
        keys@.len() == entries@.len(),
        forall|i: int| 0 <= i < keys@.len() ==> #[trigger] keys@[i]@ == lowercase(entries@[i].name@),
    ensures
        r == sorts_before(entries@[a as int]@, entries@[b as int]@),
{
    let da = entries[a].is_dir;
    let db = entries[b].is_dir;
    if da && !db {
        return true;
    }
    if da != db {
        return false;
    }
    name_less(keys[a].as_str(), keys[b].as_str())
}

/// The entries in listing order: directories first, then by lower-cased
/// name, entries of equal place in the order they came in.
pub fn sort_entries(entries: Vec<DirEntry>) -> (r: Vec<DirEntry>)
    ensures
        stably_sorted(entry_views(entries@), entry_views(r@)),
{
    let ghost input = entry_views(entries@);
    let n = entries.len();
    let mut keys: Vec<String> = Vec::new();
    let mut i: usize = 0;
    while i < n
        invariant
            n == entries@.len(),
            i <= n,
            keys@.len() == i,
            forall|j: int| 0 <= j < i ==> #[trigger] keys@[j]@ == lowercase(entries@[j].name@),
        decreases n - i,
    {
        keys.push(to_lowercase(entries[i].name.as_str()));
        i = i + 1;
    }
    let mut order: Vec<usize> = Vec::new();
    let mut m: usize = 0;
    while m < n
        invariant
            n == entries@.len(),
            input == entry_views(entries@),
            keys@.len() == n,
            forall|j: int| 0 <= j < n ==> #[trigger] keys@[j]@ == lowercase(entries@[j].name@),
            m <= n,
            order@.len() == m,
            forall|j: int| 0 <= j < m ==> #[trigger] order@[j] < m,
            forall|j: int, k: int| #![trigger order@[j], order@[k]] 0 <= j < k < m ==> order@[j] != order@[k],
            in_listing_order(ordered(input, order@)),
            forall|j: int, k: int|
                #![trigger ordered(input, order@)[j], ordered(input, order@)[k]]
                0 <= j < k < m && same_key(ordered(input, order@)[j], ordered(input, order@)[k])
                    ==> order@[j] < order@[k],
        decreases n - m,
    {
        let ghost ov = ordered(input, order@);
        let ghost x = input[m as int];
        let mut lo: usize = 0;
        let mut hi: usize = order.len();
        while lo < hi
            invariant
                n == entries@.len(),
                input == entry_views(entries@),
                keys@.len() == n,
                forall|j: int| 0 <= j < n ==> #[trigger] keys@[j]@ == lowercase(entries@[j].name@),
                m < n,
                x == input[m as int],
                ov == ordered(input, order@),
                order@.len() == m,
                forall|j: int| 0 <= j < m ==> #[trigger] order@[j] < m,
                in_listing_order(ov),
                0 <= lo <= hi <= m,
                forall|j: int| 0 <= j < lo ==> !sorts_before(x, #[trigger] ov[j]),
                forall|j: int| hi <= j < m ==> sorts_before(x, #[trigger] ov[j]),
            decreases hi - lo,
        {
            let mid = lo + (hi - lo) / 2;
            assert(ov[mid as int] == input[order@[mid as int] as int]);
            if key_sorts_before(&entries, &keys, m, order[mid]) {
                assert forall|j: int| mid <= j < m implies sorts_before(x, #[trigger] ov[j]) by {
                    if j > mid {
                        lemma_before_spreads(ov, x, mid as int, j);
                    }
                }
                hi = mid;
            } else {
                assert forall|j: int| 0 <= j < mid + 1 implies !sorts_before(x, #[trigger] ov[j]) by {
                    if j < mid && sorts_before(x, ov[j]) {
                        lemma_before_spreads(ov, x, j, mid as int);
                    }
                }
                lo = mid + 1;
            }
        }
        let k = lo;
        proof {
            assert(positions(order@).len() == ov.len());
            assert forall|a: int, b: int|
                #![trigger ov[a], ov[b]]
                0 <= a < b < ov.len() && same_key(ov[a], ov[b]) implies positions(order@)[a] < positions(order@)[b] by {
                assert(ov[a] == ordered(input, order@)[a]);
            }
            lemma_insert_sorted(ov, positions(order@), x, m as int, k as int);
        }
        let ghost old_order = order@;
        order.insert(k, m);
        assert(ordered(input, order@) =~= ov.insert(k as int, x));
        assert(positions(order@) =~= positions(old_order).insert(k as int, m as int));
        assert forall|j: int| 0 <= j < m + 1 implies #[trigger] order@[j] < m + 1 by {
            if j < k {
                assert(order@[j] == old_order[j]);
            } else if j > k {
                assert(order@[j] == old_order[j - 1]);
            }
        }
        assert forall|j: int, l: int| #![trigger order@[j], order@[l]] 0 <= j < l < m + 1 implies order@[j] != order@[l] by {
            let oj = if j < k { old_order[j] as int } else if j == k { m as int } else { old_order[j - 1] as int };
            let ol = if l < k { old_order[l] as int } else if l == k { m as int } else { old_order[l - 1] as int };
            assert(order@[j] as int == oj && order@[l] as int == ol);
            if j != k && l != k {
                let pj = if j < k { j } else { j - 1 };
                let pl = if l < k { l } else { l - 1 };
                assert(old_order[pj] != old_order[pl]);
            } else if j == k {
                assert(old_order[l - 1] < m);
            } else {
                assert(old_order[j] < m);
            }
        }
        assert forall|j: int, l: int|
            #![trigger ordered(input, order@)[j], ordered(input, order@)[l]]
            0 <= j < l < m + 1 && same_key(ordered(input, order@)[j], ordered(input, order@)[l])
                implies order@[j] < order@[l] by {
            assert(positions(order@)[j] == order@[j] as int);
            assert(positions(order@)[l] == order@[l] as int);
        }
        m = m + 1;
    }
    let mut out: Vec<DirEntry> = Vec::new();
    let mut j: usize = 0;
    while j < n
        invariant
            n == entries@.len(),
            input == entry_views(entries@),
            order@.len() == n,
            forall|t: int| 0 <= t < n ==> #[trigger] order@[t] < n,
            j <= n,
            entry_views(out@) == ordered(input, order@).take(j as int),
        decreases n - j,
    {
        let e = entries[order[j]].duplicate();
        let ghost before = entry_views(out@);
        out.push(e);
        assert(entry_views(out@) =~= ordered(input, order@).take(j + 1)) by {
            assert(entry_views(out@) =~= before.push(e@));
            assert(ordered(input, order@).take(j + 1) =~= ordered(input, order@).take(j as int).push(ordered(input, order@)[j as int]));
        }
        j = j + 1;
    }
    assert(entry_views(out@) =~= ordered(input, order@));
    let ghost p = positions(order@);
    assert(is_permutation(p, input.len() as int)) by {
        assert forall|a: int, b: int| #![trigger p[a], p[b]] 0 <= a < b < input.len() implies p[a] != p[b] by {
            assert(order@[a] != order@[b]);
        }
    }
    assert forall|t: int| 0 <= t < entry_views(out@).len() implies #[trigger] entry_views(out@)[t] == input[p[t]] by {
        assert(entry_views(out@)[t] == ordered(input, order@)[t]);
    }
    assert forall|a: int, b: int|
        #![trigger entry_views(out@)[a], entry_views(out@)[b]]
        0 <= a < b < entry_views(out@).len() && same_key(entry_views(out@)[a], entry_views(out@)[b]) implies p[a] < p[b] by {
        assert(entry_views(out@)[a] == ordered(input, order@)[a]);
        assert(entry_views(out@)[b] == ordered(input, order@)[b]);
    }
    assert(stably_sorted(input, entry_views(out@)));
    out
}

/// The parent entry `..` of a listing whose directory's parent is `p`.
pub open spec fn parent_entry(p: Seq<char>) -> EntryModel {
    EntryModel {
        name: ".."@,
        path: p,
        is_dir: true,
        size: None,
        modified: None,
        permissions: None,
        uid: None,
        gid: None,
        owner: None,
        group: None,
        link_target: None,
        is_dangling: false,
    }
}

/// A listing of `dir` headed by the parent entry, when `dir` has a parent.
pub open spec fn with_parent(dir: Seq<char>, es: Seq<EntryModel>) -> Seq<EntryModel> {
    match path_parent(dir) {
        Some(p) => seq![parent_entry(p)] + es,
        None => es,
    }
}

/// Puts the parent entry `..` at the head of the listing of `dir`, when
/// `dir` has a parent (see [`with_parent`]).
pub fn with_parent_entry(dir: &str, entries: Vec<DirEntry>) -> (r: Vec<DirEntry>)
    ensures
        entry_views(r@) == with_parent(dir@, entry_views(entries@)),
{
    match parent_of(dir) {
        None => entries,
        Some(p) => {
            let mut r: Vec<DirEntry> = Vec::new();
            r.push(DirEntry {
                name: owned(".."),
                path: p,
                is_dir: true,
                size: None,
                modified: None,
                permissions: None,
                uid: None,
                gid: None,
                owner: None,
                group: None,
                link_target: None,
                is_dangling: false,
            });
            let ghost head = entry_views(r@);
            let mut rest = entries;
            let ghost tail = entry_views(rest@);
            r.append(&mut rest);
            assert(entry_views(r@) =~= head + tail);
            r
        },
    }
}

/// `p`, its parent, the parent of that, and so on up to the root.
pub open spec fn ancestors(p: Seq<char>) -> Seq<Seq<char>>
    decreases p.len(),
{
    match path_parent(p) {
        Some(q) => if q.len() < p.len() {
            seq![p] + ancestors(q)
        } else {
            seq![p]
        },
        None => seq![p],
    }
}

/// `path` and its ancestors, nearest first (see [`ancestors`]).
pub fn ancestor_chain(path: &str) -> (r: Vec<String>)
    ensures
        views(r@) == ancestors(path@),
{
    let mut r: Vec<String> = Vec::new();
    let mut cur = owned(path);
    loop
        invariant
            ancestors(path@) == views(r@) + ancestors(cur@),
        decreases cur@.len(),
    {
        let next = parent_of(cur.as_str());
        let ghost before = views(r@);
        let ghost c = cur@;
        r.push(cur);
        assert(views(r@) =~= before.push(c));
        match next {
            None => {
                assert(ancestors(c) == seq![c]);
                assert(views(r@) =~= before + seq![c]);
                return r;
            },
            Some(q) => {
                assert(ancestors(c) == seq![c] + ancestors(q@));
                assert(views(r@) + ancestors(q@) =~= before + (seq![c] + ancestors(q@)));
                cur = q;
            },
        }
    }
}

/// The paths of `chain` that do not exist (`exists[i]` tells whether
/// `chain[i]` does), farthest first.
pub open spec fn missing_first_to_last(chain: Seq<Seq<char>>, exists: Seq<bool>) -> Seq<Seq<char>>
    decreases chain.len(),
{
    if chain.len() == 0 {
        Seq::empty()
    } else {
        let rest = missing_first_to_last(chain.drop_first(), exists.drop_first());
        if exists[0] {
            rest
        } else {
            rest.push(chain[0])
        }
    }
}

/// The ancestors in `chain` that do not exist yet, farthest from the leaf
/// first: the directories that creating the leaf's parent would make.
pub fn collect_missing_ancestors(chain: &[String], exists: &[bool]) -> (r: Vec<String>)
    requires
        chain@.len() == exists@.len(),
    ensures
        views(r@) == missing_first_to_last(views(chain@), exists@),
{
    let mut r: Vec<String> = Vec::new();
    let mut i: usize = chain.len();
    while i > 0
        invariant
            i <= chain@.len() == exists@.len(),
            views(r@) == missing_first_to_last(views(chain@).skip(i as int), exists@.skip(i as int)),
        decreases i,
    {
        i = i - 1;
        let ghost cs = views(chain@).skip(i as int);
        let ghost es = exists@.skip(i as int);
        assert(cs.drop_first() =~= views(chain@).skip(i + 1));
        assert(es.drop_first() =~= exists@.skip(i + 1));
        assert(cs[0] == chain@[i as int]@);
        if !exists[i] {
            let ghost before = views(r@);
            r.push(chain[i].clone());
            assert(views(r@) =~= before.push(chain@[i as int]@));
        }
    }
    assert(views(chain@).skip(0) =~= views(chain@));
    assert(exists@.skip(0) =~= exists@);
    r
}

} // verus!
