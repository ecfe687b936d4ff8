//! The rows of the package list: how they are built, kept in order by name,
//! and narrowed by the search query.

use vstd::prelude::*;

use crate::bindings::{BrewList, Cask, Formula};
use crate::text::{
    chars_of, contains_chars, has_substring, lemma_lex_le_reflexive, lemma_lex_le_total, lemma_lex_le_transitive, lex_le,
    lex_le_chars, line_views, lowercase, split_lines, split_lines_chars, string_of, to_lowercase,
    trim, trim_chars, trimmed, is_ws, lemma_trimmed_edges,
};

verus! {

/// What a row stands for: an installed formula, an installed cask, or an
/// outdated package.
#[derive(Debug, Clone, Copy, PartialEq, Eq, Structural)]
pub enum ItemKind {
    Formula,
    Cask,
    Outdated,
}

/// The one-letter mark that a row shows for its kind.
pub open spec fn kind_label(k: ItemKind) -> Seq<char> {
    match k {
        ItemKind::Formula => "F"@,
        ItemKind::Cask => "C"@,
        ItemKind::Outdated => "O"@,
    }
}

impl ItemKind {
    /// The one-letter mark that a row shows for this kind.
    pub fn label(&self) -> (r: &'static str)
        ensures
            r@ == kind_label(*self),
    {
        match self {
            ItemKind::Formula => "F",
            ItemKind::Cask => "C",
            ItemKind::Outdated => "O",
        }
    }
}

/// One row of the package list.
#[derive(Debug)]
pub struct InstalledItem {
    pub name: String,
    pub version: String,
    pub kind: ItemKind,
}

/// A row as characters.
pub struct ItemView {
    pub name: Seq<char>,
    pub version: Seq<char>,
    pub kind: ItemKind,
}

impl View for InstalledItem {
    type V = ItemView;

    open spec fn view(&self) -> ItemView {
        ItemView { name: self.name@, version: self.version@, kind: self.kind }
    }
}

/// The rows as characters.
pub open spec fn item_views(v: Seq<InstalledItem>) -> Seq<ItemView> {
    v.map_values(|i: InstalledItem| i@)
}

/// Rows are ordered by their names in lower case.
pub open spec fn sort_key(it: ItemView) -> Seq<char> {
    lowercase(it.name)
}

/// `x` put into `t` after every row that does not come later than it, looking
/// from the end: where a stable insertion sort puts it.
pub open spec fn insert_by_name(t: Seq<ItemView>, x: ItemView) -> Seq<ItemView>
    decreases t.len(),
{
    if t.len() == 0 {
        seq![x]
    } else if lex_le(sort_key(t.last()), sort_key(x)) {
        t.push(x)
    } else {
        insert_by_name(t.drop_last(), x).push(t.last())
    }
}

/// What a stable sort by lower-cased name (`sort_by` comparing
/// `to_lowercase()` of the names) makes of `s`.
pub open spec fn sorted_by_name(s: Seq<ItemView>) -> Seq<ItemView>
    decreases s.len(),
{
    if s.len() == 0 {
        s
    } else {
        insert_by_name(sorted_by_name(s.drop_last()), s.last())
    }
}

/// Every row comes no later than the rows after it.
pub open spec fn is_sorted_by_name(s: Seq<ItemView>) -> bool {
    forall|i: int, j: int| 0 <= i < j < s.len() ==> lex_le(sort_key(#[trigger] s[i]), sort_key(#[trigger] s[j]))
}

proof fn lemma_insert_by_name(t: Seq<ItemView>, x: ItemView)
    requires
        is_sorted_by_name(t),
    ensures
        is_sorted_by_name(insert_by_name(t, x)),
        insert_by_name(t, x).len() == t.len() + 1,
        insert_by_name(t, x).to_multiset() == t.to_multiset().insert(x),
        forall|k: int| 0 <= k < insert_by_name(t, x).len() ==> #[trigger] insert_by_name(t, x)[k] == x || t.contains(insert_by_name(t, x)[k]),
    decreases t.len(),
{
    broadcast use vstd::seq_lib::group_seq_properties;
    broadcast use vstd::multiset::group_multiset_axioms;
    if t.len() == 0 {
        assert(seq![x] =~= Seq::<ItemView>::empty().push(x));
    } else if lex_le(sort_key(t.last()), sort_key(x)) {
        let r = t.push(x);
        assert forall|i: int, j: int| 0 <= i < j < r.len() implies lex_le(sort_key(#[trigger] r[i]), sort_key(#[trigger] r[j])) by {
            if j == t.len() {
                if i < t.len() - 1 {
                    lemma_lex_le_transitive(sort_key(t[i]), sort_key(t.last()), sort_key(x));
                }
            }
        }
    } else {
        let d = t.drop_last();
        assert(is_sorted_by_name(d));
        lemma_insert_by_name(d, x);
        let m = insert_by_name(d, x);
        let r = m.push(t.last());
        lemma_lex_le_total(sort_key(t.last()), sort_key(x));
        assert forall|i: int, j: int| 0 <= i < j < r.len() implies lex_le(sort_key(#[trigger] r[i]), sort_key(#[trigger] r[j])) by {
            if j == m.len() {
                if m[i] != x {
                    assert(d.contains(m[i]));
                    let k = choose|k: int| 0 <= k < d.len() && d[k] == m[i];
                    assert(t[k] == d[k]);
                    assert(lex_le(sort_key(t[k]), sort_key(t[t.len() - 1])));
                }
            }
        }
        assert(t =~= d.push(t.last()));
        assert forall|k: int| 0 <= k < r.len() implies #[trigger] r[k] == x || t.contains(r[k]) by {
            if k < m.len() {
                if m[k] != x {
                    let q = choose|q: int| 0 <= q < d.len() && d[q] == m[k];
                    assert(t[q] == d[q]);
                }
            } else {
                assert(t[t.len() - 1] == r[k]);
            }
        }
    }
}

/// A stable sort gives rows in order.
pub proof fn lemma_sorted_by_name(s: Seq<ItemView>)
    ensures
        is_sorted_by_name(sorted_by_name(s)),
        sorted_by_name(s).len() == s.len(),
        sorted_by_name(s).to_multiset() == s.to_multiset(),
    decreases s.len(),
{
    broadcast use vstd::seq_lib::group_seq_properties;
    if s.len() > 0 {
        lemma_sorted_by_name(s.drop_last());
        lemma_insert_by_name(sorted_by_name(s.drop_last()), s.last());
        assert(s =~= s.drop_last().push(s.last()));
    }
}

/// Whether a row's sort key is `k`.
pub open spec fn has_key(k: Seq<char>) -> spec_fn(ItemView) -> bool {
    |x: ItemView| sort_key(x) == k
}

proof fn lemma_insert_by_name_filter(t: Seq<ItemView>, x: ItemView, k: Seq<char>)
    ensures
        insert_by_name(t, x).filter(has_key(k)) == (if sort_key(x) == k {
            t.filter(has_key(k)).push(x)
        } else {
            t.filter(has_key(k))
        }),
    decreases t.len(),
{
    reveal(Seq::filter);
    if t.len() == 0 {
        assert(seq![x].drop_last() =~= t);
    } else if lex_le(sort_key(t.last()), sort_key(x)) {
        assert(t.push(x).drop_last() =~= t);
    } else {
        let d = t.drop_last();
        lemma_insert_by_name_filter(d, x, k);
        let m = insert_by_name(d, x);
        assert(m.push(t.last()).drop_last() =~= m);
        lemma_lex_le_reflexive(sort_key(x));
        assert(sort_key(t.last()) != sort_key(x));
    }
}

/// The sort is stable: the rows that share a sort key come out in the order
/// they went in.
pub proof fn lemma_sorted_by_name_stable(s: Seq<ItemView>, k: Seq<char>)
    ensures
        sorted_by_name(s).filter(has_key(k)) == s.filter(has_key(k)),
    decreases s.len(),
{
    reveal(Seq::filter);
    if s.len() > 0 {
        lemma_sorted_by_name_stable(s.drop_last(), k);
        lemma_insert_by_name_filter(sorted_by_name(s.drop_last()), s.last(), k);
    }
}

/// The sort keys of the rows, kept beside them.
pub open spec fn keys_match(items: Seq<InstalledItem>, keys: Seq<Vec<char>>) -> bool {
    &&& keys.len() == items.len()
    &&& forall|i: int| 0 <= i < items.len() ==> #[trigger] keys[i]@ == sort_key(items[i]@)
}

/// The sort key of a row.
pub fn key_of(it: &InstalledItem) -> (k: Vec<char>)
    ensures
        k@ == sort_key(it@),
{
    let l = to_lowercase(it.name.as_str());
    chars_of(l.as_str())
}

/// Inserts `x` where a stable insertion sort puts it.
pub fn insert_item(items: &mut Vec<InstalledItem>, keys: &mut Vec<Vec<char>>, x: InstalledItem)
    requires
        keys_match(old(items)@, old(keys)@),
    ensures
        keys_match(final(items)@, final(keys)@),
        item_views(final(items)@) == insert_by_name(item_views(old(items)@), x@),
{
    let kx = key_of(&x);
    let ghost t = item_views(items@);
    let mut p: usize = items.len();
    assert(t.take(p as int) =~= t);
    assert(insert_by_name(t, x@) + t.skip(p as int) =~= insert_by_name(t, x@));
    while p > 0 && !lex_le_chars(&keys[p - 1], &kx)
        invariant
            p <= items@.len(),
            items@ == old(items)@,
            keys@ == old(keys)@,
            keys_match(items@, keys@),
            t == item_views(items@),
            kx@ == sort_key(x@),
            insert_by_name(t, x@) == insert_by_name(t.take(p as int), x@) + t.skip(p as int),
        decreases p,
    {
        let ghost tp = t.take(p as int);
        assert(tp.last() == t[p - 1]);
        assert(tp.drop_last() =~= t.take(p - 1));
        assert(t.skip(p - 1) =~= seq![t[p - 1]] + t.skip(p as int));
        assert(insert_by_name(tp, x@) == insert_by_name(t.take(p - 1), x@).push(t[p - 1]));
        assert(insert_by_name(t.take(p - 1), x@).push(t[p - 1]) + t.skip(p as int)
            =~= insert_by_name(t.take(p - 1), x@) + t.skip(p - 1));
        p -= 1;
    }
    proof {
        let tp = t.take(p as int);
        if p > 0 {
            assert(tp.last() == t[p - 1]);
        } else {
            assert(tp =~= Seq::<ItemView>::empty());
        }
        assert(insert_by_name(tp, x@) =~= tp.push(x@));
    }
    items.insert(p, x);
    keys.insert(p, kx);
    assert(item_views(items@) =~= t.take(p as int).push(x@) + t.skip(p as int));
    assert forall|i: int| 0 <= i < items@.len() implies #[trigger] keys@[i]@ == sort_key(items@[i]@) by {
        if i < p {
        } else if i == p {
        } else {
            assert(keys@[i] == old(keys)@[i - 1]);
            assert(items@[i] == old(items)@[i - 1]);
        }
    }
}

/// What the rows are matched against: the search query, trimmed and in lower
/// case.
pub open spec fn search_key(query: Seq<char>) -> Seq<char> {
    lowercase(trimmed(query))
}

/// A row is shown when the key is empty or occurs in its lower-cased name or
/// version.
pub open spec fn item_matches(it: ItemView, key: Seq<char>) -> bool {
    ||| key.len() == 0
    ||| has_substring(lowercase(it.name), key)
    ||| has_substring(lowercase(it.version), key)
}

/// The positions of the rows that `key` lets through, in order.
pub open spec fn visible_indices(items: Seq<ItemView>, key: Seq<char>) -> Seq<int>
    decreases items.len(),
{
    if items.len() == 0 {
        seq![]
    } else {
        let prev = visible_indices(items.drop_last(), key);
        if item_matches(items.last(), key) {
            prev.push(items.len() - 1)
        } else {
            prev
        }
    }
}

/// The positions as integers.
pub open spec fn ints(v: Seq<usize>) -> Seq<int> {
    v.map_values(|i: usize| i as int)
}

/// The visible positions rise strictly, stay below the number of rows, and
/// are exactly the rows that match.
pub proof fn lemma_visible_indices(items: Seq<ItemView>, key: Seq<char>)
    ensures
        visible_indices(items, key).len() <= items.len(),
        forall|k: int| 0 <= k < visible_indices(items, key).len() ==>
            0 <= #[trigger] visible_indices(items, key)[k] < items.len(),
        forall|k: int, l: int| 0 <= k < l < visible_indices(items, key).len() ==>
            #[trigger] visible_indices(items, key)[k] < #[trigger] visible_indices(items, key)[l],
        forall|i: int| 0 <= i < items.len() ==>
            (visible_indices(items, key).contains(i) <==> item_matches(#[trigger] items[i], key)),
    decreases items.len(),
{
    if items.len() > 0 {
        let d = items.drop_last();
        lemma_visible_indices(d, key);
        let prev = visible_indices(d, key);
        assert forall|i: int| 0 <= i < items.len() implies
            (visible_indices(items, key).contains(i) <==> item_matches(#[trigger] items[i], key)) by {
            if i < items.len() - 1 {
                assert(items[i] == d[i]);
                if visible_indices(items, key).contains(i) {
                    let k = choose|k: int| 0 <= k < visible_indices(items, key).len() && visible_indices(items, key)[k] == i;
                    assert(k < prev.len());
                    assert(prev[k] == i);
                }
                if prev.contains(i) {
                    let k = choose|k: int| 0 <= k < prev.len() && prev[k] == i;
                    assert(visible_indices(items, key)[k] == i);
                }
            } else {
                if visible_indices(items, key).contains(i) {
                    let k = choose|k: int| 0 <= k < visible_indices(items, key).len() && visible_indices(items, key)[k] == i;
                    if k < prev.len() {
                        assert(prev[k] < d.len());
                    }
                }
                if item_matches(items[i], key) {
                    assert(visible_indices(items, key)[prev.len() as int] == i);
                }
            }
        }
    }
}

/// Whether the characters of `s`, lower-cased, contain `key`.
fn lower_contains(s: &String, key: &Vec<char>) -> (r: bool)
    ensures
        r == has_substring(lowercase(s@), key@),
{
    let l = to_lowercase(s.as_str());
    let c = chars_of(l.as_str());
    contains_chars(&c, key)
}

/// The positions of the rows that the search query lets through.
pub fn visible_item_indices(items: &Vec<InstalledItem>, query: &str) -> (r: Vec<usize>)
    ensures
        ints(r@) == visible_indices(item_views(items@), search_key(query@)),
{
    let t = trim(query);
    let q = to_lowercase(t.as_str());
    let key = chars_of(q.as_str());
    let ghost v = item_views(items@);
    let mut r: Vec<usize> = Vec::new();
    let mut i: usize = 0;
    while i < items.len()
        invariant
            i <= items@.len(),
            v == item_views(items@),
            key@ == search_key(query@),
            ints(r@) == visible_indices(v.take(i as int), key@),
        decreases items.len() - i,
    {
        let it = &items[i];
        let m = key.len() == 0 || lower_contains(&it.name, &key) || lower_contains(&it.version, &key);
        assert(v.take(i + 1).drop_last() =~= v.take(i as int));
        assert(v.take(i + 1).last() == it@);
        if m {
            r.push(i);
        }
        i += 1;
        assert(ints(r@) =~= visible_indices(v.take(i as int), key@));
    }
    assert(v.take(items@.len() as int) =~= v);
    r
}

/// The version shown for a formula: the linked one, else the first listed,
/// else `-`.
pub open spec fn formula_version(f: Formula) -> Seq<char> {
    match f.linked_version {
        Some(v) => v@,
        None => if f.versions@.len() > 0 {
            f.versions@[0]@
        } else {
            "-"@
        },
    }
}

/// The version shown for a cask: the first listed, else `-`.
pub open spec fn cask_version(c: Cask) -> Seq<char> {
    if c.versions@.len() > 0 {
        c.versions@[0]@
    } else {
        "-"@
    }
}

/// The row of a formula.
pub open spec fn formula_row(f: Formula) -> ItemView {
    ItemView { name: f.name@, version: formula_version(f), kind: ItemKind::Formula }
}

/// The row of a cask.
pub open spec fn cask_row(c: Cask) -> ItemView {
    ItemView { name: c.token@, version: cask_version(c), kind: ItemKind::Cask }
}

/// The rows of a listing: the formulae, then the casks.
pub open spec fn list_rows(l: BrewList) -> Seq<ItemView> {
    l.formulas@.map_values(|f: Formula| formula_row(f)) + l.casks@.map_values(|c: Cask| cask_row(c))
}

fn first_or_dash(v: &Vec<String>) -> (r: String)
    ensures
        r@ == (if v@.len() > 0 { v@[0]@ } else { "-"@ }),
{
    if v.len() > 0 {
        v[0].clone()
    } else {
        String::from_str("-")
    }
}

fn formula_item(f: &Formula) -> (r: InstalledItem)
    ensures
        r@ == formula_row(*f),
{
    let version = match &f.linked_version {
        Some(v) => v.clone(),
        None => first_or_dash(&f.versions),
    };
    InstalledItem { name: f.name.clone(), version, kind: ItemKind::Formula }
}

fn cask_item(c: &Cask) -> (r: InstalledItem)
    ensures
        r@ == cask_row(*c),
{
    InstalledItem { name: c.token.clone(), version: first_or_dash(&c.versions), kind: ItemKind::Cask }
}

/// The rows of a listing, sorted by name.
pub fn list_items(list: &BrewList) -> (r: Vec<InstalledItem>)
    ensures
        item_views(r@) == sorted_by_name(list_rows(*list)),
{
    let ghost rows = list_rows(*list);
    let nf = list.formulas.len();
    let mut items: Vec<InstalledItem> = Vec::new();
    let mut keys: Vec<Vec<char>> = Vec::new();
    assert(rows.take(0) =~= Seq::<ItemView>::empty());
    let mut i: usize = 0;
    while i < nf
        invariant
            nf == list.formulas@.len(),
            i <= nf,
            rows == list_rows(*list),
            keys_match(items@, keys@),
            item_views(items@) == sorted_by_name(rows.take(i as int)),
        decreases nf - i,
    {
        let it = formula_item(&list.formulas[i]);
        assert(rows.take(i + 1).drop_last() =~= rows.take(i as int));
        assert(rows[i as int] == it@);
        insert_item(&mut items, &mut keys, it);
        i += 1;
    }
    let nc = list.casks.len();
    let mut j: usize = 0;
    while j < nc
        invariant
            nf == list.formulas@.len(),
            nc == list.casks@.len(),
            j <= nc,
            rows == list_rows(*list),
            keys_match(items@, keys@),
            item_views(items@) == sorted_by_name(rows.take(nf + j)),
        decreases nc - j,
    {
        let it = cask_item(&list.casks[j]);
        assert(rows.take(nf + j + 1).drop_last() =~= rows.take(nf + j));
        assert(rows[nf + j] == it@);
        insert_item(&mut items, &mut keys, it);
        j += 1;
    }
    assert(rows.take(nf + nc) =~= rows);
    items
}

/// Where the first space in `s` is, if there is one.
pub open spec fn first_space(s: Seq<char>) -> Option<int>
    decreases s.len(),
{
    if s.len() == 0 {
        None
    } else if s[0] == ' ' {
        Some(0)
    } else {
        match first_space(s.drop_first()) {
            Some(i) => Some(i + 1),
            None => None,
        }
    }
}

proof fn lemma_first_space(s: Seq<char>, k: int)
    requires
        0 <= k <= s.len(),
        forall|j: int| 0 <= j < k ==> #[trigger] s[j] != ' ',
    ensures
        k == s.len() ==> first_space(s) is None,
        k < s.len() && s[k] == ' ' ==> first_space(s) == Some(k),
    decreases k,
{
    if k > 0 {
        lemma_first_space(s.drop_first(), k - 1);
    }
}

/// The row for one trimmed, non-blank line of `brew outdated`: the name up to
/// the first space and the rest, trimmed, as the version; a line without a
/// space is a name whose version reads `outdated`.
pub open spec fn outdated_row(t: Seq<char>) -> ItemView {
    match first_space(t) {
        Some(i) => ItemView { name: t.take(i), version: trimmed(t.skip(i + 1)), kind: ItemKind::Outdated },
        None => ItemView { name: t, version: "outdated"@, kind: ItemKind::Outdated },
    }
}

/// The rows for the lines, skipping the blank ones.
pub open spec fn outdated_rows(lines: Seq<Seq<char>>) -> Seq<ItemView>
    decreases lines.len(),
{
    if lines.len() == 0 {
        seq![]
    } else {
        let prev = outdated_rows(lines.drop_last());
        let t = trimmed(lines.last());
        if t.len() == 0 {
            prev
        } else {
            prev.push(outdated_row(t))
        }
    }
}

/// The rows that the output of `brew outdated` lists: one per non-blank line.
pub open spec fn outdated_output_rows(out: Seq<char>) -> Seq<ItemView> {
    outdated_rows(split_lines(out))
}

fn outdated_item(t: &Vec<char>) -> (r: InstalledItem)
    requires
        t@.len() > 0,
    ensures
        r@ == outdated_row(t@),
{
    let n = t.len();
    let mut k: usize = 0;
    while k < n && t[k] != ' '
        invariant
            n == t@.len(),
            k <= n,
            forall|j: int| 0 <= j < k ==> #[trigger] t@[j] != ' ',
        decreases n - k,
    {
        k += 1;
    }
    proof {
        lemma_first_space(t@, k as int);
    }
    if k == n {
        InstalledItem { name: string_of(t), version: String::from_str("outdated"), kind: ItemKind::Outdated }
    } else {
        let mut name: Vec<char> = Vec::new();
        let mut i: usize = 0;
        while i < k
            invariant
                k < n == t@.len(),
                i <= k,
                name@ == t@.take(i as int),
            decreases k - i,
        {
            name.push(t[i]);
            i += 1;
            assert(name@ =~= t@.take(i as int));
        }
        let mut rest: Vec<char> = Vec::new();
        let mut j: usize = k + 1;
        while j < n
            invariant
                k < n == t@.len(),
                k + 1 <= j <= n,
                rest@ == t@.subrange(k + 1, j as int),
            decreases n - j,
        {
            rest.push(t[j]);
            j += 1;
            assert(rest@ =~= t@.subrange(k + 1, j as int));
        }
        assert(rest@ =~= t@.skip(k + 1));
        let version = trim_chars(&rest);
        InstalledItem { name: string_of(&name), version: string_of(&version), kind: ItemKind::Outdated }
    }
}

/// The rows that the output of `brew outdated` lists, sorted by name.
pub fn outdated_items(output: &str) -> (r: Vec<InstalledItem>)
    ensures
        item_views(r@) == sorted_by_name(outdated_output_rows(output@)),
{
    let chars = chars_of(output);
    let lines = split_lines_chars(&chars);
    let ghost ls = line_views(lines@);
    let mut items: Vec<InstalledItem> = Vec::new();
    let mut keys: Vec<Vec<char>> = Vec::new();
    assert(ls.take(0) =~= Seq::<Seq<char>>::empty());
    let mut i: usize = 0;
    while i < lines.len()
        invariant
            i <= lines@.len(),
            ls == line_views(lines@),
            ls == split_lines(output@),
            keys_match(items@, keys@),
            item_views(items@) == sorted_by_name(outdated_rows(ls.take(i as int))),
        decreases lines.len() - i,
    {
        let t = trim_chars(&lines[i]);
        assert(ls.take(i + 1).drop_last() =~= ls.take(i as int));
        assert(ls.take(i + 1).last() == lines@[i as int]@);
        if t.len() > 0 {
            let it = outdated_item(&t);
            let ghost prev = outdated_rows(ls.take(i as int));
            assert(outdated_rows(ls.take(i + 1)) == prev.push(it@));
            assert(prev.push(it@).drop_last() =~= prev);
            insert_item(&mut items, &mut keys, it);
        }
        i += 1;
    }
    assert(ls.take(lines@.len() as int) =~= ls);
    items
}

/// A blank search lets every row through, in order.
pub proof fn lemma_blank_search_shows_all(items: Seq<ItemView>, key: Seq<char>)
    requires
        key.len() == 0,
    ensures
        visible_indices(items, key) == Seq::new(items.len(), |i: int| i),
    decreases items.len(),
{
    if items.len() > 0 {
        lemma_blank_search_shows_all(items.drop_last(), key);
        assert(Seq::new(items.len(), |i: int| i) =~= Seq::new((items.len() - 1) as nat, |i: int| i).push(
            items.len() - 1,
        ));
    } else {
        assert(visible_indices(items, key) =~= Seq::new(0, |i: int| i));
    }
}

proof fn lemma_first_space_found(s: Seq<char>)
    ensures
        match first_space(s) {
            Some(i) => 0 <= i < s.len() && s[i] == ' ' && forall|j: int| 0 <= j < i ==> s[j] != ' ',
            None => forall|j: int| 0 <= j < s.len() ==> s[j] != ' ',
        },
    decreases s.len(),
{
    if s.len() > 0 && s[0] != ' ' {
        lemma_first_space_found(s.drop_first());
        assert forall|j: int| 1 <= j < s.len() implies s[j] == s.drop_first()[j - 1] by {}
    }
}

/// Every row of `brew outdated` output is an outdated package whose name is
/// not empty and holds no space.
pub proof fn lemma_outdated_row_names(lines: Seq<Seq<char>>)
    ensures
        forall|k: int| 0 <= k < outdated_rows(lines).len() ==> {
            &&& (#[trigger] outdated_rows(lines)[k]).name.len() > 0
            &&& !outdated_rows(lines)[k].name.contains(' ')
            &&& outdated_rows(lines)[k].kind == ItemKind::Outdated
        },
    decreases lines.len(),
{
    if lines.len() > 0 {
        lemma_outdated_row_names(lines.drop_last());
        let t = trimmed(lines.last());
        if t.len() > 0 {
            lemma_trimmed_edges(lines.last());
            lemma_first_space_found(t);
            let r = outdated_row(t);
            assert(!is_ws(t[0]));
            assert(r.name.len() > 0);
            assert(!r.name.contains(' '));
        }
    }
}

/// The rows of a listing come out in order, they are the formulae and casks
/// of the listing, each once, and rows whose lower-cased names are equal keep
/// the order of the listing (formulae before casks).
pub proof fn lemma_list_rows_sorted(list: BrewList, k: Seq<char>)
    ensures
        is_sorted_by_name(sorted_by_name(list_rows(list))),
        sorted_by_name(list_rows(list)).to_multiset() == list_rows(list).to_multiset(),
        sorted_by_name(list_rows(list)).len() == list.formulas@.len() + list.casks@.len(),
        sorted_by_name(list_rows(list)).filter(has_key(k)) == list_rows(list).filter(has_key(k)),
{
    lemma_sorted_by_name(list_rows(list));
    lemma_sorted_by_name_stable(list_rows(list), k);
}


/// The search finds the query anywhere: a row is visible exactly when the
/// trimmed, lower-cased query is blank or occurs at some position of the row's
/// lower-cased name or lower-cased version.
pub proof fn lemma_search_finds_substrings(items: Seq<ItemView>, query: Seq<char>, i: int)
    requires
        0 <= i < items.len(),
    ensures
        visible_indices(items, search_key(query)).contains(i) <==> {
            ||| lowercase(trimmed(query)).len() == 0
            ||| exists|j: int| crate::text::occurs_at(lowercase(items[i].name), lowercase(trimmed(query)), j)
            ||| exists|j: int| crate::text::occurs_at(lowercase(items[i].version), lowercase(trimmed(query)), j)
        },
{
    lemma_visible_indices(items, search_key(query));
}

} // verus!
