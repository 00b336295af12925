//! The reconciliation centre: the date check before a run, the summary of a
//! run, the review states of a difference and the query of the difference
//! list.

use vstd::prelude::*;
use crate::number::{dec_nat, framed_count};
use crate::search::{FieldKind, SearchField, SelectOption, select_field_is, text_field_is};
use crate::text::{condition_of, is_blank, is_blank_seq, non_empty, opt_text, str_eq};

verus! {

/// One day on which the bank and the orders disagree.
#[derive(Clone, Debug)]
pub struct ReconciliationItem {
    pub id: i64,
    pub summary_date: String,
    pub bank_amount: String,
    pub order_amount: String,
    pub diff_amount: String,
    pub review_status: String,
    pub voucher_no: Option<String>,
}

/// The outcome of a reconciliation run: the days that matched and those
/// that differ.
#[derive(Clone, Debug)]
pub struct ReconcileResult {
    pub matched_dates: Vec<String>,
    pub diff_dates: Vec<String>,
}

/// The Chinese name of a review state; an unknown state keeps its code.
pub open spec fn status_cn_spec(status: Seq<char>) -> Seq<char> {
    if status == "pending"@ {
        "待审核"@
    } else if status == "auto_matched"@ {
        "自动匹配"@
    } else if status == "approved"@ {
        "已通过"@
    } else if status == "rejected"@ {
        "已驳回"@
    } else {
        status
    }
}

/// The Chinese name of a review state.
pub fn status_cn(status: &str) -> (r: String)
    ensures
        r@ == status_cn_spec(status@),
{
    if str_eq(status, "pending") {
        String::from_str("待审核")
    } else if str_eq(status, "auto_matched") {
        String::from_str("自动匹配")
    } else if str_eq(status, "approved") {
        String::from_str("已通过")
    } else if str_eq(status, "rejected") {
        String::from_str("已驳回")
    } else {
        String::from_str(status)
    }
}

/// The text colour of a review state.
pub fn status_class(status: &str) -> (r: &'static str)
    ensures
        r@ == (if status@ == "pending"@ {
            "text-warning"@
        } else if status@ == "auto_matched"@ || status@ == "approved"@ {
            "text-success"@
        } else if status@ == "rejected"@ {
            "text-danger"@
        } else {
            "text-tertiary"@
        }),
{
    if str_eq(status, "pending") {
        "text-warning"
    } else if str_eq(status, "auto_matched") || str_eq(status, "approved") {
        "text-success"
    } else if str_eq(status, "rejected") {
        "text-danger"
    } else {
        "text-tertiary"
    }
}

/// A difference can be reviewed while it is pending.
pub fn can_review(item: &ReconciliationItem) -> (r: bool)
    ensures
        r == (item.review_status@ == "pending"@),
{
    str_eq(item.review_status.as_str(), "pending")
}

/// The refusal of a reconciliation run: a blank date is refused.
pub fn reconcile_date_error(date: &str) -> (r: Option<&'static str>)
    ensures
        match r {
            Some(m) => is_blank_seq(date@) && m@ == "请选择对账日期"@,
            None => !is_blank_seq(date@),
        },
{
    if is_blank(date) {
        Some("请选择对账日期")
    } else {
        None
    }
}

/// The lines that sum up a run: matched days, differing days, and the
/// colour of the second line (a warning when some day differs).
pub fn reconcile_summary(r: &ReconcileResult) -> (out: (String, String, &'static str))
    ensures
        out.0@ == "自动匹配 "@ + dec_nat(r.matched_dates@.len()) + " 天"@,
        out.1@ == "差异 "@ + dec_nat(r.diff_dates@.len()) + " 天"@,
        out.2@ == (if r.diff_dates@.len() > 0 {
            "text-warning"@
        } else {
            "text-tertiary"@
        }),
{
    let matched = r.matched_dates.len();
    let diff = r.diff_dates.len();
    let a = framed_count("自动匹配 ", matched as u64, " 天");
    let b = framed_count("差异 ", diff as u64, " 天");
    let class = if diff > 0 {
        "text-warning"
    } else {
        "text-tertiary"
    };
    (a, b, class)
}

/// The query of the difference list: date and state, an empty text meaning
/// no condition, on pages of twenty.
pub struct DiffQuery {
    pub date: Option<String>,
    pub status: Option<String>,
    pub page: i32,
    pub page_size: i32,
}

/// The difference list query for the entered date and state.
pub fn diff_query(date: String, status: String, page: i32) -> (r: DiffQuery)
    ensures
        opt_text(r.date) == condition_of(date@),
        opt_text(r.status) == condition_of(status@),
        r.page == page,
        r.page_size == 20,
{
    DiffQuery { date: non_empty(date), status: non_empty(status), page, page_size: 20 }
}

/// The position of the first item with the given id.
pub open spec fn item_index(items: Seq<ReconciliationItem>, id: i64) -> Option<int>
    decreases items.len(),
{
    if items.len() == 0 {
        None
    } else if items[0].id == id {
        Some(0)
    } else {
        match item_index(items.drop_first(), id) {
            Some(k) => Some(k + 1),
            None => None,
        }
    }
}

proof fn lemma_item_index_step(items: Seq<ReconciliationItem>, id: i64, k: int)
    requires
        0 <= k < items.len(),
        forall|j: int| 0 <= j < k ==> items[j].id != id,
    ensures
        items[k].id == id ==> item_index(items, id) == Some(k),
    decreases k,
{
    if k > 0 {
        lemma_item_index_step(items.drop_first(), id, k - 1);
    }
}

/// The difference the review dialog shows: the first one with the selected
/// id, if any.
pub fn selected_item(items: &Vec<ReconciliationItem>, selected: Option<i64>) -> (r: Option<usize>)
    ensures
        match selected {
            Some(id) => match r {
                Some(i) => item_index(items@, id) == Some(i as int),
                None => item_index(items@, id) is None,
            },
            None => r is None,
        },
{
    if selected.is_none() {
        return None;
    }
    let id = selected.unwrap();
    let mut i: usize = 0;
    while i < items.len()
        invariant
            selected == Some(id),
            i <= items@.len(),
            forall|j: int| 0 <= j < i ==> items@[j].id != id,
        decreases items@.len() - i,
    {
        proof {
            lemma_item_index_step(items@, id, i as int);
        }
        if items[i].id == id {
            return Some(i);
        }
        i = i + 1;
    }
    proof {
        lemma_item_index_none(items@, id);
    }
    None
}

proof fn lemma_item_index_none(items: Seq<ReconciliationItem>, id: i64)
    requires
        forall|j: int| 0 <= j < items.len() ==> items[j].id != id,
    ensures
        item_index(items, id) is None,
    decreases items.len(),
{
    if items.len() > 0 {
        lemma_item_index_none(items.drop_first(), id);
    }
}

/// The review request the dialog sends for a decision: the selected
/// difference's id, the decision and the entered comment (sent even when
/// empty); nothing without a selected difference.
pub fn review_request(item: &Option<ReconciliationItem>, approve: bool, comment: String) -> (r: Option<
    (i64, bool, Option<String>),
>)
    ensures
        match *item {
            Some(it) => r matches Some(q) && q.0 == it.id && q.1 == approve && q.2 == Some(comment),
            None => r is None,
        },
{
    match item {
        Some(it) => Some((it.id, approve, Some(comment))),
        None => None,
    }
}

/// The search form of the difference list: the date and the review state.
pub fn diff_search_fields() -> (r: Vec<SearchField>)
    ensures
        r@.len() == 2,
        text_field_is(r@[0], "date"@, "对账日期"@, "YYYY-MM-DD"@),
        select_field_is(
            r@[1],
            "status"@,
            "状态"@,
            seq![
                ("pending"@, "待审核"@),
                ("auto_matched"@, "自动匹配"@),
                ("approved"@, "已通过"@),
                ("rejected"@, "已驳回"@),
            ],
        ),
{
    let options = vec![
        SelectOption { value: "pending", label: "待审核" },
        SelectOption { value: "auto_matched", label: "自动匹配" },
        SelectOption { value: "approved", label: "已通过" },
        SelectOption { value: "rejected", label: "已驳回" },
    ];
    vec![
        SearchField {
            key: "date",
            label: "对账日期",
            kind: FieldKind::Text { placeholder: Some("YYYY-MM-DD") },
            width: None,
        },
        SearchField {
            key: "status",
            label: "状态",
            kind: FieldKind::Select { options, placeholder: Some("全部") },
            width: None,
        },
    ]
}

} // verus!
