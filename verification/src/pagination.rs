//! The page buttons under a list: how many pages there are and which page
//! numbers (and gaps) the pager shows.

use vstd::prelude::*;
use crate::number::{dec_int, framed_int};

verus! {

/// The page number that stands for an ellipsis in the pager.
pub const GAP: i32 = -1;

/// Integer division rounded toward zero, as Rust's `/` on signed integers.
pub open spec fn trunc_div(a: int, b: int) -> int {
    let q = (if a >= 0 {
        a
    } else {
        -a
    }) / (if b >= 0 {
        b
    } else {
        -b
    });
    if (a >= 0) == (b >= 0) {
        q
    } else {
        -q
    }
}

/// The number of pages: `(total + page_size - 1) / page_size`.
pub open spec fn page_count_spec(total: int, page_size: int) -> int {
    trunc_div(total + page_size - 1, page_size)
}

/// A list with consecutive repeats removed (`Vec::dedup`).
pub open spec fn dedup_spec(s: Seq<int>) -> Seq<int>
    decreases s.len(),
{
    if s.len() <= 1 {
        s
    } else {
        let d = dedup_spec(s.drop_last());
        if d.last() == s.last() {
            d
        } else {
            d.push(s.last())
        }
    }
}

/// The buttons the pager shows: every page when there are at most seven;
/// otherwise pages 1 to 5, or the current page with its two neighbours when it
/// lies well inside, then a gap when the shown pages stop short of the
/// second-to-last page, then the last page.
pub open spec fn visible_pages_spec(total: int, current: int, page_size: int) -> Seq<int> {
    let pages = page_count_spec(total, page_size);
    if pages <= 7 {
        Seq::new(
            if pages > 0 {
                pages as nat
            } else {
                0
            },
            |i: int| i + 1,
        )
    } else {
        let v = if current > 3 && current < pages - 2 {
            seq![current - 1, current, current + 1]
        } else {
            seq![1, 2, 3, 4, 5]
        };
        let with_gap = if v.last() < pages - 1 {
            v.push(GAP as int)
        } else {
            v
        };
        dedup_spec(with_gap.push(pages))
    }
}

/// The number of pages of a list.
pub fn page_count(total: i32, page_size: i32) -> (r: i32)
    requires
        page_size != 0,
        i32::MIN <= total + page_size - 1 <= i32::MAX,
        !(total + page_size - 1 == i32::MIN && page_size == -1),
    ensures
        r as int == page_count_spec(total as int, page_size as int),
{
    let a: i64 = total as i64 + page_size as i64 - 1;
    let b: i64 = page_size as i64;
    let ua: u64 = if a >= 0 {
        a as u64
    } else {
        (-a) as u64
    };
    let ub: u64 = if b >= 0 {
        b as u64
    } else {
        (-b) as u64
    };
    let q = ua / ub;
    assert(q <= ua) by (nonlinear_arith)
        requires
            q == ua / ub,
            ub >= 1,
    ;
    if (a >= 0) == (b >= 0) {
        assert(q <= i32::MAX) by (nonlinear_arith)
            requires
                q == ua / ub,
                ub >= 1,
                ua <= 0x8000_0000,
                ua == 0x8000_0000 ==> ub >= 2,
        ;
        q as i32
    } else {
        let nq: i64 = -(q as i64);
        nq as i32
    }
}

/// Removes consecutive repeats.
pub fn dedup(v: Vec<i32>) -> (r: Vec<i32>)
    ensures
        r@.map_values(|x: i32| x as int) == dedup_spec(v@.map_values(|x: i32| x as int)),
{
    let ghost s = v@.map_values(|x: i32| x as int);
    let mut out: Vec<i32> = Vec::new();
    if v.len() == 0 {
        assert(out@.map_values(|x: i32| x as int) =~= s);
        return out;
    }
    out.push(v[0]);
    assert(s.take(1) =~= seq![s[0]]);
    assert(out@.map_values(|x: i32| x as int) =~= dedup_spec(s.take(1)));
    let mut i: usize = 1;
    while i < v.len()
        invariant
            1 <= i <= v@.len(),
            s == v@.map_values(|x: i32| x as int),
            out@.len() > 0,
            out@.map_values(|x: i32| x as int) == dedup_spec(s.take(i as int)),
            out@.last() == v@[i - 1],
        decreases v@.len() - i,
    {
        let ghost t = s.take(i + 1);
        assert(t.drop_last() =~= s.take(i as int));
        assert(t.last() == v@[i as int] as int);
        let ghost d = dedup_spec(s.take(i as int));
        assert(d.last() == out@.map_values(|x: i32| x as int).last());
        if out[out.len() - 1] != v[i] {
            out.push(v[i]);
            assert(out@.map_values(|x: i32| x as int) =~= d.push(v@[i as int] as int));
        }
        i = i + 1;
    }
    assert(s.take(v@.len() as int) =~= s);
    out
}

/// The page buttons of the pager, `GAP` standing for an ellipsis.
pub fn visible_pages(total: i32, current: i32, page_size: i32) -> (r: Vec<i32>)
    requires
        page_size != 0,
        i32::MIN <= total + page_size - 1 <= i32::MAX,
        !(total + page_size - 1 == i32::MIN && page_size == -1),
    ensures
        r@.map_values(|x: i32| x as int) == visible_pages_spec(
            total as int,
            current as int,
            page_size as int,
        ),
{
    let pages = page_count(total, page_size);
    if pages <= 7 {
        let mut out: Vec<i32> = Vec::new();
        let mut p: i32 = 1;
        while p <= pages
            invariant
                pages <= 7,
                1 <= p <= (if pages >= 1 {
                    pages + 1
                } else {
                    1
                }),
                out@.map_values(|x: i32| x as int) =~= Seq::new((p - 1) as nat, |i: int| i + 1),
            decreases pages + 1 - p,
        {
            let ghost before = out@;
            out.push(p);
            assert(out@.map_values(|x: i32| x as int) =~= before.map_values(|x: i32| x as int).push(
                p as int,
            ));
            p = p + 1;
            assert(out@.map_values(|x: i32| x as int) =~= Seq::new((p - 1) as nat, |i: int| i + 1));
        }
        return out;
    }
    let mut v: Vec<i32> = if current > 3 && current < pages - 2 {
        vec![current - 1, current, current + 1]
    } else {
        vec![1, 2, 3, 4, 5]
    };
    let last = v[v.len() - 1];
    if last < pages - 1 {
        v.push(GAP);
    }
    v.push(pages);
    let ghost pg = pages as int;
    let ghost vv = if current > 3 && current < pg - 2 {
        seq![current - 1, current as int, current + 1]
    } else {
        seq![1int, 2, 3, 4, 5]
    };
    let ghost wg = if vv.last() < pg - 1 {
        vv.push(GAP as int)
    } else {
        vv
    };
    assert(v@.map_values(|x: i32| x as int) =~= wg.push(pg));
    dedup(v)
}

/// The pager never shows more than seven buttons, and, when there is at
/// least one page, always shows the last page as its final button.
pub proof fn law_pager_shape(total: int, current: int, page_size: int)
    requires
        page_size != 0,
    ensures
        visible_pages_spec(total, current, page_size).len() <= 7,
        page_count_spec(total, page_size) >= 1 ==> visible_pages_spec(
            total,
            current,
            page_size,
        ).last() == page_count_spec(total, page_size),
{
    let pages = page_count_spec(total, page_size);
    if pages > 7 {
        let v = if current > 3 && current < pages - 2 {
            seq![current - 1, current, current + 1]
        } else {
            seq![1, 2, 3, 4, 5]
        };
        let with_gap = if v.last() < pages - 1 {
            v.push(GAP as int)
        } else {
            v
        };
        let w = with_gap.push(pages);
        lemma_dedup_keeps_last(w);
        lemma_dedup_len(w);
    }
}

/// Removing repeats keeps the last element.
pub proof fn lemma_dedup_keeps_last(s: Seq<int>)
    requires
        s.len() >= 1,
    ensures
        dedup_spec(s).len() >= 1,
        dedup_spec(s).last() == s.last(),
    decreases s.len(),
{
    if s.len() > 1 {
        lemma_dedup_keeps_last(s.drop_last());
    }
}

/// Removing repeats never lengthens a list.
pub proof fn lemma_dedup_len(s: Seq<int>)
    ensures
        dedup_spec(s).len() <= s.len(),
    decreases s.len(),
{
    if s.len() > 1 {
        lemma_dedup_len(s.drop_last());
    }
}

/// Every element of a list survives the removal of repeats.
pub proof fn lemma_dedup_contains(s: Seq<int>, x: int)
    requires
        s.contains(x),
    ensures
        dedup_spec(s).contains(x),
    decreases s.len(),
{
    if s.len() > 1 {
        let d = dedup_spec(s.drop_last());
        if s.last() == x {
            lemma_dedup_keeps_last(s.drop_last());
            if d.last() == s.last() {
                assert(d[d.len() - 1] == x);
            } else {
                assert(d.push(s.last())[d.len() as int] == x);
            }
        } else {
            let j = choose|j: int| 0 <= j < s.len() && s[j] == x;
            assert(s.drop_last()[j] == x);
            lemma_dedup_contains(s.drop_last(), x);
            let k = choose|k: int| 0 <= k < d.len() && d[k] == x;
            if d.last() != s.last() {
                assert(d.push(s.last())[k] == x);
            }
        }
    }
}

/// The current page is among the buttons whenever it is a page of the list,
/// except on a long list (more than seven pages) where it is one of the two
/// pages just before the last: there the pager jumps back to pages 1 to 5.
pub proof fn law_current_page_shown(total: int, current: int, page_size: int)
    requires
        page_size != 0,
        1 <= current <= page_count_spec(total, page_size),
        !(page_count_spec(total, page_size) > 7 && (current == page_count_spec(total, page_size) - 2
            || current == page_count_spec(total, page_size) - 1)),
    ensures
        visible_pages_spec(total, current, page_size).contains(current),
{
    let pages = page_count_spec(total, page_size);
    if pages <= 7 {
        let v = visible_pages_spec(total, current, page_size);
        assert(v[current - 1] == current);
    } else {
        let v = if current > 3 && current < pages - 2 {
            seq![current - 1, current, current + 1]
        } else {
            seq![1, 2, 3, 4, 5]
        };
        let with_gap = if v.last() < pages - 1 {
            v.push(GAP as int)
        } else {
            v
        };
        let w = with_gap.push(pages);
        if current == pages {
            assert(w[w.len() - 1] == current);
        } else if current > 3 && current < pages - 2 {
            assert(w[1] == current);
        } else {
            assert(w[current - 1] == current);
        }
        lemma_dedup_contains(w, current);
    }
}

/// The texts around the page buttons: the row count, the page size choice
/// and the "go to" note.
pub fn pager_texts(total: i32, current: i32, page_size: i32) -> (r: (String, String, String))
    ensures
        r.0@ == "共 "@ + dec_int(total as int) + " 条"@,
        r.1@ == dec_int(page_size as int) + "条/页"@,
        r.2@ == "前往 "@ + dec_int(current as int) + " 页"@,
{
    proof {
        reveal_strlit("");
        assert(""@ =~= Seq::<char>::empty());
        assert(""@ + dec_int(page_size as int) + "条/页"@ =~= dec_int(page_size as int) + "条/页"@);
    }
    (
        framed_int("共 ", total as i64, " 条"),
        framed_int("", page_size as i64, "条/页"),
        framed_int("前往 ", current as i64, " 页"),
    )
}

} // verus!
