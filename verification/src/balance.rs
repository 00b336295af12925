//! The balance-confirmation bar of the bank-flow page: per import batch, how
//! many bank-flow rows it has, how many fail the balance-continuity check and
//! how many of those are confirmed; which batch is selected; which actions
//! are open.

use vstd::prelude::*;
use crate::ipc::RawRecord;
use crate::number::{dec_int, fmt_i64};
use crate::text::str_eq;
use std::collections::BTreeMap;

verus! {

/// The counts of one import batch.
#[derive(Clone, Copy, Debug, PartialEq, Eq, Structural)]
pub struct BatchStats {
    pub batch_id: i64,
    pub total: i64,
    pub mismatch: i64,
    pub confirmed_count: i64,
}

/// The record is a bank-flow row.
pub open spec fn is_bank(r: RawRecord) -> bool {
    r.source_type@ == "bank_flow"@
}

/// The record failed the balance-continuity check.
pub open spec fn is_mismatch(r: RawRecord) -> bool {
    r.balance_check_status matches Some(s) && s@ == "mismatch"@
}

/// The record's balance was confirmed by hand.
pub open spec fn is_confirmed(r: RawRecord) -> bool {
    r.balance_confirmed_at is Some
}

/// How many bank-flow rows of the batch are among the records.
pub open spec fn bank_count(items: Seq<RawRecord>, id: i64) -> int
    decreases items.len(),
{
    if items.len() == 0 {
        0
    } else {
        bank_count(items.drop_last(), id) + (if is_bank(items.last())
            && items.last().import_batch_id == id {
            1int
        } else {
            0
        })
    }
}

/// How many bank-flow rows of the batch fail the balance check.
pub open spec fn mismatch_count(items: Seq<RawRecord>, id: i64) -> int
    decreases items.len(),
{
    if items.len() == 0 {
        0
    } else {
        mismatch_count(items.drop_last(), id) + (if is_bank(items.last())
            && items.last().import_batch_id == id && is_mismatch(items.last()) {
            1int
        } else {
            0
        })
    }
}

/// How many bank-flow rows of the batch are confirmed.
pub open spec fn confirmed_count(items: Seq<RawRecord>, id: i64) -> int
    decreases items.len(),
{
    if items.len() == 0 {
        0
    } else {
        confirmed_count(items.drop_last(), id) + (if is_bank(items.last())
            && items.last().import_batch_id == id && is_confirmed(items.last()) {
            1int
        } else {
            0
        })
    }
}

/// The statistics describe exactly the batches of the bank-flow rows among
/// the records: one entry per batch, by ascending batch id, with its counts.
pub open spec fn describes_batches(stats: Seq<BatchStats>, items: Seq<RawRecord>) -> bool {
    &&& forall|i: int, j: int| 0 <= i < j < stats.len() ==> stats[i].batch_id < stats[j].batch_id
    &&& forall|i: int|
        #![trigger stats[i]]
        0 <= i < stats.len() ==> {
            &&& stats[i].total == bank_count(items, stats[i].batch_id)
            &&& stats[i].mismatch == mismatch_count(items, stats[i].batch_id)
            &&& stats[i].confirmed_count == confirmed_count(items, stats[i].batch_id)
            &&& stats[i].total > 0
        }
    &&& forall|k: int|
        #![trigger items[k]]
        0 <= k < items.len() && is_bank(items[k]) ==> exists|i: int|
            0 <= i < stats.len() && stats[i].batch_id == items[k].import_batch_id
}

/// A batch without bank-flow rows among the records counts zero everywhere.
pub proof fn lemma_absent_batch_counts_zero(items: Seq<RawRecord>, id: i64)
    requires
        forall|k: int|
            0 <= k < items.len() && is_bank(items[k]) ==> items[k].import_batch_id != id,
    ensures
        bank_count(items, id) == 0,
        mismatch_count(items, id) == 0,
        confirmed_count(items, id) == 0,
    decreases items.len(),
{
    if items.len() > 0 {
        lemma_absent_batch_counts_zero(items.drop_last(), id);
    }
}

/// The counts never exceed the number of records.
pub proof fn lemma_counts_bounded(items: Seq<RawRecord>, id: i64)
    ensures
        0 <= mismatch_count(items, id) <= items.len(),
        0 <= confirmed_count(items, id) <= items.len(),
        0 <= bank_count(items, id) <= items.len(),
    decreases items.len(),
{
    if items.len() > 0 {
        lemma_counts_bounded(items.drop_last(), id);
    }
}

/// `s` holds the batch `id` with its exact counts among `items`, and the
/// batch has a bank-flow row there.
pub open spec fn counts_match(s: BatchStats, items: Seq<RawRecord>, id: i64) -> bool {
    &&& s.batch_id == id
    &&& s.total == bank_count(items, id)
    &&& s.mismatch == mismatch_count(items, id)
    &&& s.confirmed_count == confirmed_count(items, id)
    &&& s.total > 0
}

/// Counts the bank-flow rows of each import batch, kept in a map by batch
/// id and listed in ascending id order.
pub fn batch_stats(items: &Vec<RawRecord>) -> (r: Vec<BatchStats>)
    requires
        items@.len() <= i64::MAX,
    ensures
        describes_batches(r@, items@),
{
    broadcast use vstd::std_specs::btree::group_btree_axioms;

    let mut seen: BTreeMap<i64, BatchStats> = BTreeMap::new();
    let mut i: usize = 0;
    while i < items.len()
        invariant
            i <= items@.len(),
            items@.len() <= i64::MAX,
            forall|k: i64| #[trigger]
                seen@.contains_key(k) ==> counts_match(seen@[k], items@.take(i as int), k),
            forall|x: int|
                0 <= x < i && is_bank(#[trigger] items@[x]) ==> seen@.contains_key(
                    items@[x].import_batch_id,
                ),
        decreases items@.len() - i,
    {
        proof {
            lemma_i64_keys_ordered();
        }
        let ghost pre = items@.take(i as int);
        let ghost nxt = items@.take(i + 1);
        assert(nxt.drop_last() =~= pre);
        let r = &items[i];
        assert(nxt.last() == *r);
        let bank = str_eq(r.source_type.as_str(), "bank_flow");
        let mism = match &r.balance_check_status {
            Some(s) => str_eq(s.as_str(), "mismatch"),
            None => false,
        };
        let conf = r.balance_confirmed_at.is_some();
        let b = r.import_batch_id;
        let ghost before = seen@;
        proof {
            lemma_counts_bounded(pre, b);
        }
        if bank {
            let cur = match seen.get(&b) {
                Some(st) => *st,
                None => {
                    proof {
                        assert forall|k: int|
                            0 <= k < pre.len() && is_bank(pre[k]) implies pre[k].import_batch_id
                            != b by {
                            assert(pre[k] == items@[k]);
                        }
                        lemma_absent_batch_counts_zero(pre, b);
                    }
                    BatchStats { batch_id: b, total: 0, mismatch: 0, confirmed_count: 0 }
                },
            };
            let ne = BatchStats {
                batch_id: b,
                total: cur.total + 1,
                mismatch: if mism {
                    cur.mismatch + 1
                } else {
                    cur.mismatch
                },
                confirmed_count: if conf {
                    cur.confirmed_count + 1
                } else {
                    cur.confirmed_count
                },
            };
            seen.insert(b, ne);
        }
        proof {
            assert forall|k: i64| #[trigger] seen@.contains_key(k) implies counts_match(
                seen@[k],
                nxt,
                k,
            ) by {
                if !(bank && k == b) {
                    assert(before.contains_key(k));
                }
            }
            assert forall|x: int| 0 <= x < i + 1 && is_bank(#[trigger] items@[x]) implies seen@.contains_key(
                items@[x].import_batch_id,
            ) by {
                if x < i {
                    assert(before.contains_key(items@[x].import_batch_id));
                }
            }
        }
        i = i + 1;
    }
    assert(items@.take(items@.len() as int) =~= items@);
    proof {
        lemma_i64_keys_ordered();
    }
    let mut out: Vec<BatchStats> = Vec::new();
    let it0 = seen.iter();
    let ghost pairs = vstd::std_specs::iter::IteratorSpec::remaining(&it0);
    let ghost ids = pairs.map_values(|kv: (&i64, &BatchStats)| *kv.0);
    proof {
        lemma_increasing_ids(ids);
    }
    for kv in it: it0
        invariant
            pairs == it.seq(),
            ids == pairs.map_values(|kv: (&i64, &BatchStats)| *kv.0),
            forall|x: int, y: int| 0 <= x < y < ids.len() ==> ids[x] < ids[y],
            forall|x: int|
                #![trigger pairs[x]]
                0 <= x < pairs.len() ==> seen@.contains_key(*pairs[x].0) && seen@[*pairs[x].0]
                    == *pairs[x].1,
            out@ == pairs.take(it.index() as int).map_values(|kv: (&i64, &BatchStats)| *kv.1),
    {
        let ghost before = out@;
        out.push(*kv.1);
        assert(pairs.take(it.index() as int + 1).map_values(|kv: (&i64, &BatchStats)| *kv.1)
            =~= before.push(*kv.1));
    }
    proof {
        assert(pairs.take(pairs.len() as int) =~= pairs);
        assert forall|x: int| 0 <= x < out@.len() implies (#[trigger] out@[x]).batch_id
            == ids[x] by {
            assert(out@[x] == *pairs[x].1);
            assert(seen@.contains_key(*pairs[x].0));
        }
        assert forall|x: int, y: int| 0 <= x < y < out@.len() implies out@[x].batch_id
            < out@[y].batch_id by {
            assert(out@[x].batch_id == ids[x]);
            assert(out@[y].batch_id == ids[y]);
        }
        assert forall|x: int| #![trigger out@[x]] 0 <= x < out@.len() implies {
            &&& out@[x].total == bank_count(items@, out@[x].batch_id)
            &&& out@[x].mismatch == mismatch_count(items@, out@[x].batch_id)
            &&& out@[x].confirmed_count == confirmed_count(items@, out@[x].batch_id)
            &&& out@[x].total > 0
        } by {
            assert(out@[x] == *pairs[x].1);
            let k = *pairs[x].0;
            assert(seen@.contains_key(k));
            assert(counts_match(seen@[k], items@, k));
        }
        assert forall|x: int| #![trigger items@[x]] 0 <= x < items@.len() && is_bank(items@[x]) implies exists|
            j: int,
        | 0 <= j < out@.len() && out@[j].batch_id == items@[x].import_batch_id by {
            let k = items@[x].import_batch_id;
            assert(seen@.contains_key(k));
            assert(pairs.contains((&k, &seen@[k])));
            let j = choose|j: int| 0 <= j < pairs.len() && pairs[j] == (&k, &seen@[k]);
            assert(out@[j] == *pairs[j].1);
            assert(counts_match(seen@[k], items@, k));
        }
    }
    out
}

/// The batch the bar shows: the one already chosen while it is still listed,
/// otherwise the first listed batch (none when no batch is listed).
pub open spec fn shown_batch_spec(stats: Seq<BatchStats>, current: Option<i64>) -> Option<i64> {
    let listed = current matches Some(c) && exists|i: int|
        0 <= i < stats.len() && stats[i].batch_id == c;
    if listed {
        current
    } else if stats.len() > 0 {
        Some(stats[0].batch_id)
    } else {
        None
    }
}

/// Picks the batch the bar shows.
pub fn shown_batch(stats: &Vec<BatchStats>, current: Option<i64>) -> (r: Option<i64>)
    ensures
        r == shown_batch_spec(stats@, current),
{
    match current {
        Some(c) => {
            let mut i: usize = 0;
            while i < stats.len()
                invariant
                    i <= stats@.len(),
                    current == Some(c),
                    forall|j: int| 0 <= j < i ==> stats@[j].batch_id != c,
                decreases stats@.len() - i,
            {
                if stats[i].batch_id == c {
                    assert(stats@[i as int].batch_id == c);
                    return current;
                }
                i = i + 1;
            }
        },
        None => {},
    }
    if stats.len() > 0 {
        Some(stats[0].batch_id)
    } else {
        None
    }
}

/// The counts of a listed batch.
pub fn stats_of(stats: &Vec<BatchStats>, id: Option<i64>) -> (r: Option<BatchStats>)
    ensures
        match r {
            Some(s) => id == Some(s.batch_id) && exists|i: int|
                0 <= i < stats@.len() && stats@[i] == s,
            None => id is None || forall|i: int|
                0 <= i < stats@.len() ==> stats@[i].batch_id != id->0,
        },
{
    match id {
        Some(c) => {
            let mut i: usize = 0;
            while i < stats.len()
                invariant
                    i <= stats@.len(),
                    id == Some(c),
                    forall|j: int| 0 <= j < i ==> stats@[j].batch_id != c,
                decreases stats@.len() - i,
            {
                if stats[i].batch_id == c {
                    assert(stats@[i as int] == stats[i as int]);
                    return Some(stats[i]);
                }
                i = i + 1;
            }
            None
        },
        None => None,
    }
}

/// Every failing row of the batch is confirmed (and there is at least one):
/// the bar offers to undo the confirmation.
pub open spec fn all_confirmed_spec(s: Option<BatchStats>) -> bool {
    s matches Some(st) && st.mismatch > 0 && st.confirmed_count >= st.mismatch
}

/// Whether the bar shows the batch as confirmed.
pub fn is_all_confirmed(s: Option<BatchStats>) -> (r: bool)
    ensures
        r == all_confirmed_spec(s),
{
    match s {
        Some(st) => st.mismatch > 0 && st.confirmed_count >= st.mismatch,
        None => false,
    }
}

/// The bar shows a batch as confirmed only when it has failing rows and at
/// least as many confirmed rows as failing ones: with fewer confirmations
/// than failures, with no failure, or with no batch it offers to confirm.
/// Read against the records, a described batch is shown confirmed exactly
/// when its bank-flow rows include a failure and no fewer confirmed rows.
pub proof fn law_confirmed_only_when_failures_are(
    s: Option<BatchStats>,
    stats: Seq<BatchStats>,
    items: Seq<RawRecord>,
    i: int,
)
    ensures
        s is None ==> !all_confirmed_spec(s),
        s matches Some(st) && st.confirmed_count < st.mismatch ==> !all_confirmed_spec(s),
        s matches Some(st) && st.mismatch <= 0 ==> !all_confirmed_spec(s),
        s matches Some(st) && 0 < st.mismatch <= st.confirmed_count ==> all_confirmed_spec(s),
        describes_batches(stats, items) && 0 <= i < stats.len() ==> (all_confirmed_spec(
            Some(stats[i]),
        ) <==> (mismatch_count(items, stats[i].batch_id) > 0 && confirmed_count(
            items,
            stats[i].batch_id,
        ) >= mismatch_count(items, stats[i].batch_id))),
{
}

/// The confirm button is disabled while a request runs, or when the batch has
/// no failing row (or no batch is shown).
pub fn confirm_disabled(pending: bool, s: Option<BatchStats>) -> (r: bool)
    ensures
        r == (pending || match s {
            Some(st) => st.mismatch == 0,
            None => true,
        }),
{
    pending || match s {
        Some(st) => st.mismatch == 0,
        None => true,
    }
}

/// The batch has rows failing the balance check.
pub fn has_mismatch(s: &BatchStats) -> (r: bool)
    ensures
        r == (s.mismatch > 0),
{
    s.mismatch > 0
}

/// Every row of the batch passes the balance check.
pub fn all_pass(s: &BatchStats) -> (r: bool)
    ensures
        r == (s.mismatch == 0 && s.total > 0),
{
    s.mismatch == 0 && s.total > 0
}

/// The option text of a batch in the selector.
pub open spec fn batch_option_text(s: BatchStats) -> Seq<char> {
    "批次 "@ + dec_int(s.batch_id as int) + " · 共 "@ + dec_int(s.total as int) + " 行 · 余额不平 "@
        + dec_int(s.mismatch as int) + " 行"@
}

/// `format!("批次 {} · 共 {} 行 · 余额不平 {} 行", id, total, mismatch)`.
pub fn batch_option_label(s: &BatchStats) -> (r: String)
    ensures
        r@ == batch_option_text(*s),
{
    let mut out = String::from_str("批次 ");
    let a = fmt_i64(s.batch_id);
    out.append(a.as_str());
    out.append(" · 共 ");
    let b = fmt_i64(s.total);
    out.append(b.as_str());
    out.append(" 行 · 余额不平 ");
    let c = fmt_i64(s.mismatch);
    out.append(c.as_str());
    out.append(" 行");
    out
}

/// `format!("该批次有 {} 行余额不平", mismatch)`.
pub fn mismatch_notice(s: &BatchStats) -> (r: String)
    ensures
        r@ == "该批次有 "@ + dec_int(s.mismatch as int) + " 行余额不平"@,
{
    let mut out = String::from_str("该批次有 ");
    let a = fmt_i64(s.mismatch);
    out.append(a.as_str());
    out.append(" 行余额不平");
    out
}

/// The batch after a choice in the selector: the chosen value read as
/// `i64`, or the batch already shown when the value does not read.
pub fn batch_choice(current: Option<i64>, value: &str) -> (r: Option<i64>)
    ensures
        r == (match crate::number::parse_i64_spec(value@) {
            Some(id) => Some(id),
            None => current,
        }),
{
    match crate::number::parse_i64(value) {
        Some(id) => Some(id),
        None => current,
    }
}

} // verus!
verus! {

/// Integer keys are totally ordered, which the map's ordered walk relies on.
proof fn lemma_i64_keys_ordered()
    ensures
        vstd::laws_cmp::obeys_cmp::<i64>(),
{
}

/// The keys of an ordered walk over a map keyed by `i64` ascend.
proof fn lemma_increasing_ids(keys: Seq<i64>)
    requires
        vstd::std_specs::btree::increasing_seq(keys),
    ensures
        forall|i: int, j: int| 0 <= i < j < keys.len() ==> keys[i] < keys[j],
{
    broadcast use vstd::std_specs::btree::group_btree_axioms;

    lemma_i64_keys_ordered();
    assert forall|i: int, j: int| 0 <= i < j < keys.len() implies keys[i] < keys[j] by {
        assert(vstd::std_specs::cmp::OrdSpec::cmp_spec(&keys[i], &keys[j]) is Less);
    }
}

} // verus!
