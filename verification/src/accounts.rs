//! The chart of accounts: the account tree the accounts page lists (children
//! under their parent, ordered by code), the leaf accounts a voucher line may
//! book to, and the labels of account types and balance directions.

use vstd::prelude::*;
use crate::ipc::Account;
use crate::records::clone_opt_string;
use crate::text::str_eq;

verus! {

impl Clone for Account {
    fn clone(&self) -> (r: Self)
        ensures
            r == *self,
    {
        Account {
            id: self.id.clone(),
            code: self.code.clone(),
            name: self.name.clone(),
            parent_id: clone_opt_string(&self.parent_id),
            account_type: self.account_type.clone(),
            balance_direction: self.balance_direction.clone(),
            is_leaf: self.is_leaf,
            is_active: self.is_active,
            description: clone_opt_string(&self.description),
            created_at: self.created_at.clone(),
            updated_at: self.updated_at.clone(),
        }
    }
}

/// Strict lexicographic order of texts by code point (the order of `String`'s `cmp`).
pub open spec fn text_lt(a: Seq<char>, b: Seq<char>) -> bool
    decreases a.len(),
{
    if a.len() == 0 {
        b.len() > 0
    } else if b.len() == 0 {
        false
    } else if a[0] != b[0] {
        (a[0] as u32) < (b[0] as u32)
    } else {
        text_lt(a.drop_first(), b.drop_first())
    }
}

/// `a <= b` in the order of `String`'s `cmp`.
pub open spec fn text_le(a: Seq<char>, b: Seq<char>) -> bool {
    !text_lt(b, a)
}

/// Compares two texts: `a < b`.
pub fn text_less(a: &str, b: &str) -> (r: bool)
    ensures
        r == text_lt(a@, b@),
{
    let n = a.unicode_len();
    let m = b.unicode_len();
    let mut i: usize = 0;
    assert(a@.skip(0) =~= a@);
    assert(b@.skip(0) =~= b@);
    while i < n && i < m
        invariant
            n == a@.len(),
            m == b@.len(),
            i <= n,
            i <= m,
            forall|j: int| 0 <= j < i ==> a@[j] == b@[j],
            text_lt(a@, b@) == text_lt(a@.skip(i as int), b@.skip(i as int)),
        decreases n - i,
    {
        let x = a.get_char(i);
        let y = b.get_char(i);
        assert(a@.skip(i as int)[0] == x);
        assert(b@.skip(i as int)[0] == y);
        if x != y {
            return (x as u32) < (y as u32);
        }
        assert(a@.skip(i as int).drop_first() =~= a@.skip(i + 1));
        assert(b@.skip(i as int).drop_first() =~= b@.skip(i + 1));
        i = i + 1;
    }
    i < m
}

/// The code of the account at `k`.
pub open spec fn code_at(accs: Seq<Account>, k: int) -> Seq<char> {
    accs[k].code@
}

/// Inserts `x` after every element whose code is not greater than its code
/// (into a list ordered by code); equal codes keep their order.
pub open spec fn insert_by_code(accs: Seq<Account>, s: Seq<int>, x: int) -> Seq<int>
    decreases s.len(),
{
    if s.len() == 0 {
        seq![x]
    } else if text_le(code_at(accs, s.last()), code_at(accs, x)) {
        s.push(x)
    } else {
        insert_by_code(accs, s.drop_last(), x).push(s.last())
    }
}

/// The indices ordered by code, equal codes keeping their list order (a stable sort).
pub open spec fn sort_by_code(accs: Seq<Account>, s: Seq<int>) -> Seq<int>
    decreases s.len(),
{
    if s.len() == 0 {
        seq![]
    } else {
        insert_by_code(accs, sort_by_code(accs, s.drop_last()), s.last())
    }
}

/// The text of an optional id.
pub open spec fn opt_view(o: Option<String>) -> Option<Seq<char>> {
    match o {
        Some(s) => Some(s@),
        None => None,
    }
}

/// The indices, in list order, of the first `k` accounts whose parent is `parent`.
pub open spec fn child_indices(accs: Seq<Account>, parent: Option<Seq<char>>, k: int) -> Seq<int>
    decreases k,
{
    if k <= 0 {
        seq![]
    } else {
        let p = child_indices(accs, parent, k - 1);
        if opt_view(accs[k - 1].parent_id) == parent {
            p.push(k - 1)
        } else {
            p
        }
    }
}

/// The children of `parent` (`None`: the top-level accounts), ordered by code.
pub open spec fn children_of(accs: Seq<Account>, parent: Option<Seq<char>>) -> Seq<int> {
    sort_by_code(accs, child_indices(accs, parent, accs.len() as int))
}

/// The rows of the listed subtrees in display order: each account at its
/// depth, followed by its own children one level deeper. The walk goes at most
/// `fuel` levels down; a walk as deep as the number of accounts only exists
/// when some account is its own ancestor, where the tree has no end.
pub open spec fn forest_rows(accs: Seq<Account>, kids: Seq<int>, depth: nat, fuel: nat) -> Seq<
    (int, nat),
>
    decreases fuel, kids.len(),
{
    if fuel == 0 || kids.len() == 0 {
        seq![]
    } else {
        forest_rows(accs, kids.drop_last(), depth, fuel) + seq![(kids.last(), depth)]
            + forest_rows(
            accs,
            children_of(accs, Some(accs[kids.last()].id@)),
            depth + 1,
            (fuel - 1) as nat,
        )
    }
}

/// The account tree as the accounts page lists it: top-level accounts by
/// code, each followed by its subtree.
pub open spec fn account_tree_spec(accs: Seq<Account>) -> Seq<(int, nat)> {
    forest_rows(accs, children_of(accs, None), 0, accs.len())
}

/// One listed row: which account, and how deep it is indented.
#[derive(Clone, Copy, Debug, PartialEq, Eq, Structural)]
pub struct TreeRow {
    pub index: usize,
    pub depth: usize,
}

/// The index and depth of each row.
pub open spec fn tree_row_views(v: Seq<TreeRow>) -> Seq<(int, nat)> {
    v.map_values(|r: TreeRow| (r.index as int, r.depth as nat))
}

/// The rows at the given depth.
pub open spec fn at_depth(d: nat) -> spec_fn((int, nat)) -> bool {
    |p: (int, nat)| p.1 == d
}

/// The accounts of a list of rows.
pub open spec fn row_accounts(rows: Seq<(int, nat)>) -> Seq<int> {
    rows.map_values(|p: (int, nat)| p.0)
}

proof fn lemma_forest_depths(accs: Seq<Account>, kids: Seq<int>, depth: nat, fuel: nat, i: int)
    requires
        0 <= i < forest_rows(accs, kids, depth, fuel).len(),
    ensures
        forest_rows(accs, kids, depth, fuel)[i].1 >= depth,
    decreases fuel, kids.len(),
{
    if !(fuel == 0 || kids.len() == 0) {
        let a = forest_rows(accs, kids.drop_last(), depth, fuel);
        let b = seq![(kids.last(), depth)];
        let c = forest_rows(
            accs,
            children_of(accs, Some(accs[kids.last()].id@)),
            depth + 1,
            (fuel - 1) as nat,
        );
        assert(forest_rows(accs, kids, depth, fuel) == a + b + c);
        if i < a.len() {
            lemma_forest_depths(accs, kids.drop_last(), depth, fuel, i);
        } else if i >= a.len() + 1 {
            lemma_forest_depths(
                accs,
                children_of(accs, Some(accs[kids.last()].id@)),
                depth + 1,
                (fuel - 1) as nat,
                i - a.len() - 1,
            );
        }
    }
}

proof fn lemma_none_at_depth(rows: Seq<(int, nat)>, d: nat)
    requires
        forall|i: int| 0 <= i < rows.len() ==> rows[i].1 > d,
    ensures
        rows.filter(at_depth(d)) == Seq::<(int, nat)>::empty(),
{
    if rows.filter(at_depth(d)).len() > 0 {
        rows.lemma_filter_pred(at_depth(d), 0);
        #[allow(deprecated)]
        rows.filter_lemma(at_depth(d));
        let x = rows.filter(at_depth(d))[0];
        lemma_filter_member(rows, at_depth(d), 0);
        let j = choose|j: int| 0 <= j < rows.len() && rows[j] == x;
        assert(rows[j].1 > d);
    }
}

proof fn lemma_filter_member(s: Seq<(int, nat)>, pred: spec_fn((int, nat)) -> bool, i: int)
    requires
        0 <= i < s.filter(pred).len(),
    ensures
        s.contains(s.filter(pred)[i]),
    decreases s.len(),
{
    reveal_with_fuel(Seq::<(int, nat)>::filter, 1);
    if s.len() > 0 {
        let sub = s.drop_last().filter(pred);
        if i < sub.len() {
            lemma_filter_member(s.drop_last(), pred, i);
            let j = choose|j: int| 0 <= j < s.drop_last().len() && s.drop_last()[j] == sub[i];
            assert(s[j] == sub[i]);
            if pred(s.last()) {
                assert(s.filter(pred)[i] == sub[i]);
            }
        } else {
            assert(s.filter(pred)[i] == s.last());
            assert(s[s.len() - 1] == s.last());
        }
    }
}

proof fn lemma_forest_split(accs: Seq<Account>, kids: Seq<int>, depth: nat, fuel: nat)
    requires
        fuel >= 1,
        kids.len() > 0,
    ensures
        forest_rows(accs, kids, depth, fuel) == forest_rows(accs, kids.drop_last(), depth, fuel)
            + seq![(kids.last(), depth)] + forest_rows(
            accs,
            children_of(accs, Some(accs[kids.last()].id@)),
            depth + 1,
            (fuel - 1) as nat,
        ),
{
}

proof fn lemma_deeper_rows_filtered_out(accs: Seq<Account>, kids: Seq<int>, depth: nat, fuel: nat)
    ensures
        forest_rows(accs, kids, depth + 1, fuel).filter(at_depth(depth)) == Seq::<(int, nat)>::empty(),
{
    let c = forest_rows(accs, kids, depth + 1, fuel);
    assert forall|i: int| 0 <= i < c.len() implies c[i].1 > depth by {
        lemma_forest_depths(accs, kids, depth + 1, fuel, i);
    }
    lemma_none_at_depth(c, depth);
}

proof fn lemma_single_row_kept(x: int, d: nat)
    ensures
        seq![(x, d)].filter(at_depth(d)) == seq![(x, d)],
{
    reveal_with_fuel(Seq::<(int, nat)>::filter, 2);
    assert(seq![(x, d)].drop_last() =~= Seq::<(int, nat)>::empty());
    assert(Seq::<(int, nat)>::empty().push((x, d)) =~= seq![(x, d)]);
}

proof fn lemma_empty_filtered(d: nat)
    ensures
        Seq::<(int, nat)>::empty().filter(at_depth(d)) == Seq::<(int, nat)>::empty(),
{
    reveal_with_fuel(Seq::<(int, nat)>::filter, 1);
}

proof fn lemma_level_of_concat(
    a: Seq<(int, nat)>,
    x: int,
    d: nat,
    c: Seq<(int, nat)>,
    prev: Seq<int>,
)
    requires
        row_accounts(a.filter(at_depth(d))) == prev,
        c.filter(at_depth(d)) == Seq::<(int, nat)>::empty(),
    ensures
        row_accounts((a + seq![(x, d)] + c).filter(at_depth(d))) == prev.push(x),
{
    let b = seq![(x, d)];
    lemma_single_row_kept(x, d);
    Seq::filter_distributes_over_add(a + b, c, at_depth(d));
    Seq::filter_distributes_over_add(a, b, at_depth(d));
    let fa = a.filter(at_depth(d));
    assert((fa + b + Seq::<(int, nat)>::empty()) =~= fa.push((x, d)));
    assert(row_accounts(fa.push((x, d))) =~= row_accounts(fa).push(x));
}

proof fn lemma_forest_level(accs: Seq<Account>, kids: Seq<int>, depth: nat, fuel: nat)
    requires
        fuel >= 1,
    ensures
        row_accounts(forest_rows(accs, kids, depth, fuel).filter(at_depth(depth))) == kids,
    decreases kids.len(),
{
    if kids.len() == 0 {
        lemma_empty_filtered(depth);
        assert(row_accounts(Seq::<(int, nat)>::empty()) =~= kids);
    } else {
        let ch = children_of(accs, Some(accs[kids.last()].id@));
        lemma_forest_split(accs, kids, depth, fuel);
        lemma_forest_level(accs, kids.drop_last(), depth, fuel);
        lemma_deeper_rows_filtered_out(accs, ch, depth, (fuel - 1) as nat);
        lemma_level_of_concat(
            forest_rows(accs, kids.drop_last(), depth, fuel),
            kids.last(),
            depth,
            forest_rows(accs, ch, depth + 1, (fuel - 1) as nat),
            kids.drop_last(),
        );
        assert(kids.drop_last().push(kids.last()) =~= kids);
    }
}

/// The top rows of the tree, those at depth zero, are exactly the accounts
/// without a parent, ordered by code.
pub proof fn law_roots_first_level(accs: Seq<Account>)
    ensures
        row_accounts(account_tree_spec(accs).filter(at_depth(0))) == children_of(accs, None),
{
    if accs.len() == 0 {
        assert(child_indices(accs, None, 0) =~= Seq::<int>::empty());
        assert(children_of(accs, None) =~= Seq::<int>::empty());
        assert(account_tree_spec(accs) == Seq::<(int, nat)>::empty());
        lemma_empty_filtered(0);
        assert(row_accounts(Seq::<(int, nat)>::empty()) =~= Seq::<int>::empty());
    } else {
        lemma_forest_level(accs, children_of(accs, None), 0, accs.len());
    }
}

/// `c` is a line of descent: `c[0]` is a top-level account and each later
/// account is a sub-account of the one before it.
pub open spec fn is_descent(accs: Seq<Account>, c: Seq<int>) -> bool {
    &&& c.len() > 0
    &&& forall|i: int| 0 <= i < c.len() ==> 0 <= #[trigger] c[i] < accs.len()
    &&& accs[c[0]].parent_id is None
    &&& forall|i: int|
        0 < i < c.len() ==> opt_view(#[trigger] accs[c[i]].parent_id) == Some(accs[c[i - 1]].id@)
}

proof fn lemma_child_indices_has(accs: Seq<Account>, parent: Option<Seq<char>>, n: int, k: int)
    requires
        0 <= k < n,
        opt_view(accs[k].parent_id) == parent,
    ensures
        child_indices(accs, parent, n).contains(k),
    decreases n,
{
    let p = child_indices(accs, parent, n - 1);
    if k == n - 1 {
        assert(p.push(k)[p.len() as int] == k);
    } else {
        lemma_child_indices_has(accs, parent, n - 1, k);
        let j = choose|j: int| 0 <= j < p.len() && p[j] == k;
        if opt_view(accs[n - 1].parent_id) == parent {
            assert(p.push(n - 1)[j] == k);
        }
    }
}

proof fn lemma_insert_keeps(accs: Seq<Account>, s: Seq<int>, x: int, y: int)
    requires
        y == x || s.contains(y),
    ensures
        insert_by_code(accs, s, x).contains(y),
    decreases s.len(),
{
    if s.len() == 0 {
        assert(seq![x][0] == x);
    } else if text_le(code_at(accs, s.last()), code_at(accs, x)) {
        if y == x {
            assert(s.push(x)[s.len() as int] == x);
        } else {
            let j = choose|j: int| 0 <= j < s.len() && s[j] == y;
            assert(s.push(x)[j] == y);
        }
    } else {
        let r = insert_by_code(accs, s.drop_last(), x);
        if y == s.last() {
            assert(r.push(s.last())[r.len() as int] == y);
        } else {
            if y != x {
                let j = choose|j: int| 0 <= j < s.len() && s[j] == y;
                assert(j < s.len() - 1);
                assert(s.drop_last()[j] == y);
            }
            lemma_insert_keeps(accs, s.drop_last(), x, y);
            let j = choose|j: int| 0 <= j < r.len() && r[j] == y;
            assert(r.push(s.last())[j] == y);
        }
    }
}

proof fn lemma_sort_keeps(accs: Seq<Account>, s: Seq<int>, y: int)
    requires
        s.contains(y),
    ensures
        sort_by_code(accs, s).contains(y),
    decreases s.len(),
{
    if y != s.last() {
        let j = choose|j: int| 0 <= j < s.len() && s[j] == y;
        assert(j < s.len() - 1);
        assert(s.drop_last()[j] == y);
        lemma_sort_keeps(accs, s.drop_last(), y);
    }
    lemma_insert_keeps(accs, sort_by_code(accs, s.drop_last()), s.last(), y);
}

proof fn lemma_children_of_has(accs: Seq<Account>, parent: Option<Seq<char>>, k: int)
    requires
        0 <= k < accs.len(),
        opt_view(accs[k].parent_id) == parent,
    ensures
        children_of(accs, parent).contains(k),
{
    lemma_child_indices_has(accs, parent, accs.len() as int, k);
    lemma_sort_keeps(accs, child_indices(accs, parent, accs.len() as int), k);
}

/// A listed account's row, and every row of its subtree, are among the rows.
proof fn lemma_forest_has(
    accs: Seq<Account>,
    kids: Seq<int>,
    depth: nat,
    fuel: nat,
    x: int,
    y: (int, nat),
)
    requires
        fuel >= 1,
        kids.contains(x),
        y == (x, depth) || forest_rows(
            accs,
            children_of(accs, Some(accs[x].id@)),
            depth + 1,
            (fuel - 1) as nat,
        ).contains(y),
    ensures
        forest_rows(accs, kids, depth, fuel).contains(y),
    decreases kids.len(),
{
    lemma_forest_split(accs, kids, depth, fuel);
    let a = forest_rows(accs, kids.drop_last(), depth, fuel);
    let b = seq![(kids.last(), depth)];
    let c = forest_rows(
        accs,
        children_of(accs, Some(accs[kids.last()].id@)),
        depth + 1,
        (fuel - 1) as nat,
    );
    if x == kids.last() {
        if y == (x, depth) {
            assert((a + b + c)[a.len() as int] == y);
        } else {
            let j = choose|j: int| 0 <= j < c.len() && c[j] == y;
            assert((a + b + c)[a.len() + 1 + j] == y);
        }
    } else {
        let j = choose|j: int| 0 <= j < kids.len() && kids[j] == x;
        assert(j < kids.len() - 1);
        assert(kids.drop_last()[j] == x);
        lemma_forest_has(accs, kids.drop_last(), depth, fuel, x, y);
        let j2 = choose|j: int| 0 <= j < a.len() && a[j] == y;
        assert((a + b + c)[j2] == y);
    }
}

/// Following a line of descent down from a listed account reaches its last
/// account, one level deeper at each step.
proof fn lemma_descent_listed(
    accs: Seq<Account>,
    c: Seq<int>,
    i: int,
    kids: Seq<int>,
    depth: nat,
    fuel: nat,
)
    requires
        is_descent(accs, c),
        0 <= i < c.len(),
        kids.contains(c[i]),
        fuel >= c.len() - i,
    ensures
        forest_rows(accs, kids, depth, fuel).contains((c.last(), (depth + c.len() - 1 - i) as nat)),
    decreases c.len() - i,
{
    if i == c.len() - 1 {
        lemma_forest_has(accs, kids, depth, fuel, c[i], (c[i], depth));
    } else {
        let parent = Some(accs[c[i]].id@);
        assert(opt_view(accs[c[i + 1]].parent_id) == parent);
        assert(0 <= c[i + 1] < accs.len());
        lemma_children_of_has(accs, parent, c[i + 1]);
        lemma_descent_listed(accs, c, i + 1, children_of(accs, parent), depth + 1, (fuel - 1) as nat);
        assert((depth + 1 + c.len() - 1 - (i + 1)) as nat == (depth + c.len() - 1 - i) as nat);
        lemma_forest_has(accs, kids, depth, fuel, c[i], (c.last(), (depth + c.len() - 1 - i) as nat));
    }
}

/// In a chart where no account is its own ancestor, every account that
/// descends from a top-level account is listed in the tree at its depth: a
/// top-level account at depth zero and each sub-account one level below its
/// parent, however deep the line of descent goes.
pub proof fn law_every_descendant_listed(accs: Seq<Account>, c: Seq<int>)
    requires
        is_descent(accs, c),
        c.no_duplicates(),
    ensures
        account_tree_spec(accs).contains((c.last(), (c.len() - 1) as nat)),
{
    c.unique_seq_to_set();
    vstd::set_lib::lemma_int_range(0, accs.len() as int);
    assert forall|x: int| c.to_set().contains(x) implies vstd::set_lib::set_int_range(
        0,
        accs.len() as int,
    ).contains(x) by {
        let j = choose|j: int| 0 <= j < c.len() && c[j] == x;
        assert(0 <= c[j] < accs.len());
    }
    vstd::set_lib::lemma_len_subset(c.to_set(), vstd::set_lib::set_int_range(0, accs.len() as int));
    assert(0 <= c[0] < accs.len());
    lemma_children_of_has(accs, None, c[0]);
    lemma_descent_listed(accs, c, 0, children_of(accs, None), 0, accs.len());
}

proof fn lemma_child_indices_only(accs: Seq<Account>, parent: Option<Seq<char>>, n: int, y: int)
    requires
        child_indices(accs, parent, n).contains(y),
    ensures
        0 <= y < n,
        opt_view(accs[y].parent_id) == parent,
    decreases n,
{
    if n > 0 {
        let p = child_indices(accs, parent, n - 1);
        let j = choose|j: int|
            0 <= j < child_indices(accs, parent, n).len() && child_indices(accs, parent, n)[j] == y;
        if opt_view(accs[n - 1].parent_id) == parent && j == p.len() {
            assert(y == n - 1);
        } else {
            assert(p[j] == y);
            lemma_child_indices_only(accs, parent, n - 1, y);
        }
    }
}

proof fn lemma_insert_only(accs: Seq<Account>, s: Seq<int>, x: int, y: int)
    requires
        insert_by_code(accs, s, x).contains(y),
    ensures
        y == x || s.contains(y),
    decreases s.len(),
{
    let t = insert_by_code(accs, s, x);
    let j = choose|j: int| 0 <= j < t.len() && t[j] == y;
    if s.len() == 0 {
    } else if text_le(code_at(accs, s.last()), code_at(accs, x)) {
        if j < s.len() {
            assert(s[j] == y);
        }
    } else {
        let r = insert_by_code(accs, s.drop_last(), x);
        if j == r.len() {
            assert(s[s.len() - 1] == y);
        } else {
            assert(r[j] == y);
            lemma_insert_only(accs, s.drop_last(), x, y);
            if y != x {
                let k = choose|k: int| 0 <= k < s.drop_last().len() && s.drop_last()[k] == y;
                assert(s[k] == y);
            }
        }
    }
}

proof fn lemma_sort_only(accs: Seq<Account>, s: Seq<int>, y: int)
    requires
        sort_by_code(accs, s).contains(y),
    ensures
        s.contains(y),
    decreases s.len(),
{
    if s.len() > 0 {
        lemma_insert_only(accs, sort_by_code(accs, s.drop_last()), s.last(), y);
        if y == s.last() {
            assert(s[s.len() - 1] == y);
        } else {
            lemma_sort_only(accs, s.drop_last(), y);
            let k = choose|k: int| 0 <= k < s.drop_last().len() && s.drop_last()[k] == y;
            assert(s[k] == y);
        }
    }
}

proof fn lemma_children_of_only(accs: Seq<Account>, parent: Option<Seq<char>>, y: int)
    requires
        children_of(accs, parent).contains(y),
    ensures
        0 <= y < accs.len(),
        opt_view(accs[y].parent_id) == parent,
{
    lemma_sort_only(accs, child_indices(accs, parent, accs.len() as int), y);
    lemma_child_indices_only(accs, parent, accs.len() as int, y);
}

/// Every row of listed subtrees below the line `pre` ends a line of descent
/// as long as its depth plus one.
proof fn lemma_forest_rows_descend(
    accs: Seq<Account>,
    kids: Seq<int>,
    depth: nat,
    fuel: nat,
    pre: Seq<int>,
    r: int,
)
    requires
        pre.len() == depth,
        forall|j: int| 0 <= j < kids.len() ==> is_descent(accs, #[trigger] pre.push(kids[j])),
        0 <= r < forest_rows(accs, kids, depth, fuel).len(),
    ensures
        exists|c: Seq<int>|
            #![trigger is_descent(accs, c)]
            is_descent(accs, c) && c.len() == forest_rows(accs, kids, depth, fuel)[r].1 + 1
                && c.last() == forest_rows(accs, kids, depth, fuel)[r].0,
    decreases fuel, kids.len(),
{
    lemma_forest_split(accs, kids, depth, fuel);
    let x = kids.last();
    let ch = children_of(accs, Some(accs[x].id@));
    let a = forest_rows(accs, kids.drop_last(), depth, fuel);
    let c = forest_rows(accs, ch, depth + 1, (fuel - 1) as nat);
    let rows = forest_rows(accs, kids, depth, fuel);
    assert(rows == a + seq![(x, depth)] + c);
    if r < a.len() {
        assert forall|j: int| 0 <= j < kids.drop_last().len() implies is_descent(
            accs,
            #[trigger] pre.push(kids.drop_last()[j]),
        ) by {
            assert(kids.drop_last()[j] == kids[j]);
        }
        lemma_forest_rows_descend(accs, kids.drop_last(), depth, fuel, pre, r);
        assert(rows[r] == a[r]);
    } else if r == a.len() {
        assert(is_descent(accs, pre.push(kids[kids.len() - 1])));
        assert(rows[r] == (x, depth));
    } else {
        let line = pre.push(x);
        assert(is_descent(accs, pre.push(kids[kids.len() - 1])));
        assert forall|j: int| 0 <= j < ch.len() implies is_descent(
            accs,
            #[trigger] line.push(ch[j]),
        ) by {
            let y = ch[j];
            assert(ch.contains(y));
            lemma_children_of_only(accs, Some(accs[x].id@), y);
            let ext = line.push(y);
            assert(ext[0] == line[0]);
            assert forall|i: int| 0 <= i < ext.len() implies 0 <= #[trigger] ext[i] < accs.len() by {
                if i < line.len() {
                    assert(ext[i] == line[i]);
                }
            }
            assert forall|i: int| 0 < i < ext.len() implies opt_view(
                #[trigger] accs[ext[i]].parent_id,
            ) == Some(accs[ext[i - 1]].id@) by {
                if i < line.len() {
                    assert(ext[i] == line[i]);
                    assert(ext[i - 1] == line[i - 1]);
                    assert(opt_view(accs[line[i]].parent_id) == Some(accs[line[i - 1]].id@));
                } else {
                    assert(ext[i - 1] == x);
                }
            }
        }
        lemma_forest_rows_descend(accs, ch, depth + 1, (fuel - 1) as nat, line, r - a.len() - 1);
        assert(rows[r] == c[r - a.len() - 1]);
    }
}

/// Every row of the tree ends a line of descent from a top-level account
/// whose length is the row's depth plus one: a row at depth zero is a
/// top-level account, and a row one level deeper is a sub-account of an
/// account the row above it in that line names as parent.
pub proof fn law_listed_rows_descend(accs: Seq<Account>, r: int)
    requires
        0 <= r < account_tree_spec(accs).len(),
    ensures
        exists|c: Seq<int>|
            #![trigger is_descent(accs, c)]
            is_descent(accs, c) && c.len() == account_tree_spec(accs)[r].1 + 1 && c.last()
                == account_tree_spec(accs)[r].0,
{
    let roots = children_of(accs, None);
    let pre = Seq::<int>::empty();
    assert forall|j: int| 0 <= j < roots.len() implies is_descent(
        accs,
        #[trigger] pre.push(roots[j]),
    ) by {
        assert(roots.contains(roots[j]));
        lemma_children_of_only(accs, None, roots[j]);
        assert(pre.push(roots[j]) =~= seq![roots[j]]);
    }
    lemma_forest_rows_descend(accs, roots, 0, accs.len(), pre, r);
}

/// Whether two optional ids read the same.
fn same_parent(a: &Option<String>, b: &Option<String>) -> (r: bool)
    ensures
        r == (opt_view(*a) == opt_view(*b)),
{
    match (a, b) {
        (Some(x), Some(y)) => str_eq(x.as_str(), y.as_str()),
        (None, None) => true,
        _ => false,
    }
}

/// Inserts `x` into a list ordered by code, after the equal codes.
fn insert_child(accs: &Vec<Account>, s: &mut Vec<usize>, x: usize)
    requires
        x < accs@.len(),
        forall|j: int| 0 <= j < old(s)@.len() ==> old(s)@[j] < accs@.len(),
    ensures
        final(s)@.map_values(|i: usize| i as int) == insert_by_code(
            accs@,
            old(s)@.map_values(|i: usize| i as int),
            x as int,
        ),
        forall|j: int| 0 <= j < final(s)@.len() ==> final(s)@[j] < accs@.len(),
{
    let ghost orig = old(s)@.map_values(|i: usize| i as int);
    let mut pos: usize = s.len();
    assert(orig.take(pos as int) =~= orig);
    assert(orig.skip(pos as int) =~= Seq::<int>::empty());
    assert(insert_by_code(accs@, orig, x as int) =~= insert_by_code(accs@, orig, x as int) + Seq::<
        int,
    >::empty());
    while pos > 0 && text_less(accs[x].code.as_str(), accs[s[pos - 1]].code.as_str())
        invariant
            pos <= s@.len(),
            s@ == old(s)@,
            x < accs@.len(),
            forall|j: int| 0 <= j < s@.len() ==> s@[j] < accs@.len(),
            orig == old(s)@.map_values(|i: usize| i as int),
            insert_by_code(accs@, orig, x as int) == insert_by_code(
                accs@,
                orig.take(pos as int),
                x as int,
            ) + orig.skip(pos as int),
        decreases pos,
    {
        let ghost t = orig.take(pos as int);
        assert(t.drop_last() =~= orig.take(pos - 1));
        assert(t.last() == s@[pos - 1] as int);
        assert(insert_by_code(accs@, t, x as int) == insert_by_code(accs@, orig.take(pos - 1), x as int).push(t.last()));
        assert(orig.skip(pos - 1) =~= seq![t.last()] + orig.skip(pos as int));
        assert(insert_by_code(accs@, orig.take(pos - 1), x as int).push(t.last()) + orig.skip(pos as int) =~= insert_by_code(accs@, orig.take(pos - 1), x as int) + orig.skip(pos - 1));
        pos = pos - 1;
    }
    proof {
        let t = orig.take(pos as int);
        if pos > 0 {
            assert(t.last() == s@[pos - 1] as int);
            assert(insert_by_code(accs@, t, x as int) == t.push(x as int));
        } else {
            assert(t =~= Seq::<int>::empty());
            assert(insert_by_code(accs@, t, x as int) == seq![x as int]);
        }
    }
    s.insert(pos, x);
    assert(s@.map_values(|i: usize| i as int) =~= orig.take(pos as int).push(x as int) + orig.skip(
        pos as int,
    ));
}

/// The children of `parent`, ordered by code.
pub fn children_sorted(accs: &Vec<Account>, parent: &Option<String>) -> (r: Vec<usize>)
    ensures
        r@.map_values(|i: usize| i as int) == children_of(accs@, opt_view(*parent)),
        forall|j: int| 0 <= j < r@.len() ==> r@[j] < accs@.len(),
{
    let ghost pv = opt_view(*parent);
    let mut sorted: Vec<usize> = Vec::new();
    let mut k: usize = 0;
    while k < accs.len()
        invariant
            k <= accs@.len(),
            pv == opt_view(*parent),
            sorted@.map_values(|i: usize| i as int) == sort_by_code(
                accs@,
                child_indices(accs@, pv, k as int),
            ),
            forall|j: int| 0 <= j < sorted@.len() ==> sorted@[j] < accs@.len(),
        decreases accs@.len() - k,
    {
        if same_parent(&accs[k].parent_id, parent) {
            let ghost c = child_indices(accs@, pv, k + 1);
            assert(c.drop_last() == child_indices(accs@, pv, k as int));
            insert_child(accs, &mut sorted, k);
        }
        k = k + 1;
    }
    sorted
}

/// Appends the rows of the listed subtrees.
fn push_forest(accs: &Vec<Account>, kids: &Vec<usize>, depth: usize, fuel: usize, out: &mut Vec<
    TreeRow,
>)
    requires
        forall|j: int| 0 <= j < kids@.len() ==> kids@[j] < accs@.len(),
        depth + fuel <= accs.len(),
    ensures
        tree_row_views(final(out)@) == tree_row_views(old(out)@) + forest_rows(
            accs@,
            kids@.map_values(|i: usize| i as int),
            depth as nat,
            fuel as nat,
        ),
    decreases fuel,
{
    let ghost ks = kids@.map_values(|i: usize| i as int);
    if fuel == 0 {
        assert(tree_row_views(out@) =~= tree_row_views(old(out)@) + forest_rows(
            accs@,
            ks,
            depth as nat,
            fuel as nat,
        ));
        return;
    }
    let mut i: usize = 0;
    assert(ks.take(0) =~= Seq::<int>::empty());
    assert(tree_row_views(out@) =~= tree_row_views(old(out)@) + forest_rows(
        accs@,
        ks.take(0),
        depth as nat,
        fuel as nat,
    ));
    while i < kids.len()
        invariant
            i <= kids@.len(),
            fuel > 0,
            depth + fuel <= accs.len(),
            ks == kids@.map_values(|i: usize| i as int),
            forall|j: int| 0 <= j < kids@.len() ==> kids@[j] < accs@.len(),
            tree_row_views(out@) == tree_row_views(old(out)@) + forest_rows(
                accs@,
                ks.take(i as int),
                depth as nat,
                fuel as nat,
            ),
        decreases kids@.len() - i,
    {
        let k = kids[i];
        let ghost t = ks.take(i + 1);
        assert(t.drop_last() =~= ks.take(i as int));
        assert(t.last() == k as int);
        let ghost before = out@;
        out.push(TreeRow { index: k, depth });
        assert(tree_row_views(out@) =~= tree_row_views(before).push((k as int, depth as nat)));
        let grand = children_sorted(accs, &Some(accs[k].id.clone()));
        push_forest(accs, &grand, depth + 1, fuel - 1, out);
        assert(tree_row_views(out@) =~= tree_row_views(old(out)@) + forest_rows(
            accs@,
            t,
            depth as nat,
            fuel as nat,
        ));
        i = i + 1;
    }
    assert(ks.take(kids@.len() as int) =~= ks);
}

/// The rows of the account tree in display order.
pub fn account_tree(accs: &Vec<Account>) -> (r: Vec<TreeRow>)
    ensures
        tree_row_views(r@) == account_tree_spec(accs@),
{
    let roots = children_sorted(accs, &None);
    let mut out: Vec<TreeRow> = Vec::new();
    push_forest(accs, &roots, 0, accs.len(), &mut out);
    assert(tree_row_views(Seq::<TreeRow>::empty()) =~= Seq::<(int, nat)>::empty());
    assert(tree_row_views(out@) =~= account_tree_spec(accs@));
    out
}

/// The leaf accounts, the ones a voucher line may book to, in list order.
pub fn leaf_accounts(accs: &Vec<Account>) -> (r: Vec<Account>)
    ensures
        r@ == accs@.filter(|a: Account| a.is_leaf),
{
    let mut out: Vec<Account> = Vec::new();
    let mut i: usize = 0;
    while i < accs.len()
        invariant
            i <= accs@.len(),
            out@ == accs@.take(i as int).filter(|a: Account| a.is_leaf),
        decreases accs@.len() - i,
    {
        proof {
            reveal_with_fuel(Seq::<Account>::filter, 1);
            assert(accs@.take(i + 1).drop_last() =~= accs@.take(i as int));
        }
        if accs[i].is_leaf {
            out.push(accs[i].clone());
        }
        i = i + 1;
    }
    assert(accs@.take(accs@.len() as int) =~= accs@);
    out
}

/// The label of an account type.
pub fn type_label(t: &str) -> (r: &'static str)
    ensures
        r@ == (if t@ == "asset"@ {
            "资产"@
        } else if t@ == "liability"@ {
            "负债"@
        } else if t@ == "equity"@ {
            "权益"@
        } else if t@ == "cost"@ {
            "成本"@
        } else if t@ == "profit_loss"@ || t@ == "income"@ {
            "损益"@
        } else {
            "—"@
        }),
{
    if str_eq(t, "asset") {
        "资产"
    } else if str_eq(t, "liability") {
        "负债"
    } else if str_eq(t, "equity") {
        "权益"
    } else if str_eq(t, "cost") {
        "成本"
    } else if str_eq(t, "profit_loss") || str_eq(t, "income") {
        "损益"
    } else {
        "—"
    }
}

/// The label of a balance direction.
pub fn direction_label(d: &str) -> (r: &'static str)
    ensures
        r@ == (if d@ == "debit"@ {
            "借"@
        } else if d@ == "credit"@ {
            "贷"@
        } else {
            "自动"@
        }),
{
    if str_eq(d, "debit") {
        "借"
    } else if str_eq(d, "credit") {
        "贷"
    } else {
        "自动"
    }
}

/// The status tag of an account, contact or company: its class and label.
pub fn active_tag(is_active: bool) -> (r: (&'static str, &'static str))
    ensures
        r.0@ == (if is_active {
            "tag-success"@
        } else {
            "tag-draft"@
        }),
        r.1@ == (if is_active {
            "启用"@
        } else {
            "停用"@
        }),
{
    if is_active {
        ("tag-success", "启用")
    } else {
        ("tag-draft", "停用")
    }
}

} // verus!
