//! Voucher management and audit: the query a list starts from, the status
//! names and badges of a voucher, the figures summed over a page, the labels
//! of the detail panel, and the overview page with its sample vouchers.

use vstd::prelude::*;
use crate::ipc::{Voucher, VoucherFilter};
use crate::number::{amount_or_zero, amount_of, dec_int, dec_nat, framed_count, framed_int, parse_usize, parse_usize_spec};
use crate::search::{FieldKind, SearchField, SelectOption, select_field_is, text_field_is};
use crate::text::str_eq;
use crate::voucher_entry::{prefix_sums_fit, sum_ints};
use crate::widgets::TabItem;

verus! {

/// The Chinese name of a voucher status; an unknown status keeps its code.
pub open spec fn status_cn_spec(s: Seq<char>) -> Seq<char> {
    if s == "draft"@ {
        "草稿"@
    } else if s == "unaudited"@ {
        "未审核"@
    } else if s == "audited"@ {
        "已审核"@
    } else if s == "posted"@ {
        "已过账"@
    } else {
        s
    }
}

/// The Chinese name of a voucher status, as the detail panel shows it.
pub fn status_cn(s: &str) -> (r: String)
    ensures
        r@ == status_cn_spec(s@),
{
    if str_eq(s, "draft") {
        String::from_str("草稿")
    } else if str_eq(s, "unaudited") {
        String::from_str("未审核")
    } else if str_eq(s, "audited") {
        String::from_str("已审核")
    } else if str_eq(s, "posted") {
        String::from_str("已过账")
    } else {
        String::from_str(s)
    }
}

/// The status badge text of a row of the list; an unknown status shows a dash.
pub fn row_status_label(s: &str) -> (r: String)
    ensures
        r@ == (if s@ == "draft"@ || s@ == "unaudited"@ || s@ == "audited"@ || s@ == "posted"@ {
            status_cn_spec(s@)
        } else {
            "—"@
        }),
{
    if str_eq(s, "draft") || str_eq(s, "unaudited") || str_eq(s, "audited") || str_eq(s, "posted") {
        status_cn(s)
    } else {
        String::from_str("—")
    }
}

/// The audit button of the detail panel: an audited voucher is un-audited.
pub fn audit_button_label(status: &str) -> (r: &'static str)
    ensures
        r@ == (if status@ == "audited"@ {
            "反审核"@
        } else {
            "审核"@
        }),
{
    if str_eq(status, "audited") {
        "反审核"
    } else {
        "审核"
    }
}

/// The title of an audit log entry of a voucher.
pub fn log_title(action: &str) -> (r: &'static str)
    ensures
        r@ == (if action@ == "audit"@ {
            "审核通过"@
        } else if action@ == "unaudit"@ {
            "反审核"@
        } else {
            "操作"@
        }),
{
    if str_eq(action, "audit") {
        "审核通过"
    } else if str_eq(action, "unaudit") {
        "反审核"
    } else {
        "操作"
    }
}

/// The query a voucher list starts from, and returns to on reset: pages of
/// twenty, no condition but, on the audit page, the unaudited vouchers.
pub fn initial_filter(audit_mode: bool) -> (r: VoucherFilter)
    ensures
        r.date_from is None,
        r.date_to is None,
        r.voucher_no is None,
        r.voucher_type is None,
        audit_mode ==> (r.status matches Some(s) && s@ == "unaudited"@),
        !audit_mode ==> r.status is None,
        r.page is None,
        r.page_size == Some(20i32),
{
    VoucherFilter {
        date_from: None,
        date_to: None,
        voucher_no: None,
        voucher_type: None,
        status: if audit_mode {
            Some(String::from_str("unaudited"))
        } else {
            None
        },
        page: None,
        page_size: Some(20),
    }
}

/// The query for one page: the filter with the page number set.
pub fn with_page(filter: VoucherFilter, page: i32) -> (r: VoucherFilter)
    ensures
        r == (VoucherFilter { page: Some(page), ..filter }),
{
    let mut f = filter;
    f.page = Some(page);
    f
}

/// The tabs above the list; the second names the page's purpose.
pub fn voucher_tabs(audit_mode: bool) -> (r: Vec<TabItem>)
    ensures
        r@.len() == 2,
        r@[0].key@ == "voucher_overview"@,
        r@[0].label@ == "凭证概览"@,
        r@[0].closable,
        r@[1].key@ == "voucher_management"@,
        r@[1].label@ == (if audit_mode {
            "凭证审核"@
        } else {
            "凭证管理"@
        }),
        !r@[1].closable,
{
    vec![
        TabItem { key: "voucher_overview", label: "凭证概览", closable: true },
        TabItem {
            key: "voucher_management",
            label: if audit_mode {
                "凭证审核"
            } else {
                "凭证管理"
            },
            closable: false,
        },
    ]
}

/// The search form of the voucher list.
pub fn search_fields() -> (r: Vec<SearchField>)
    ensures
        r@.len() == 5,
        text_field_is(r@[0], "date_from"@, "开始日期"@, "2024-06-01"@),
        text_field_is(r@[1], "date_to"@, "结束日期"@, "2024-06-30"@),
        text_field_is(r@[2], "voucher_no"@, "凭证字号"@, "凭证字号"@),
        select_field_is(
            r@[3],
            "voucher_type"@,
            "凭证类型"@,
            seq![
                ("记账"@, "记账凭证"@),
                ("付款"@, "付款凭证"@),
                ("收款"@, "收款凭证"@),
                ("转账"@, "转账凭证"@),
            ],
        ),
        select_field_is(
            r@[4],
            "status"@,
            "审核状态"@,
            seq![
                ("draft"@, "草稿"@),
                ("unaudited"@, "未审核"@),
                ("audited"@, "已审核"@),
                ("posted"@, "已过账"@),
            ],
        ),
{
    let types = vec![
        SelectOption { value: "记账", label: "记账凭证" },
        SelectOption { value: "付款", label: "付款凭证" },
        SelectOption { value: "收款", label: "收款凭证" },
        SelectOption { value: "转账", label: "转账凭证" },
    ];
    let states = vec![
        SelectOption { value: "draft", label: "草稿" },
        SelectOption { value: "unaudited", label: "未审核" },
        SelectOption { value: "audited", label: "已审核" },
        SelectOption { value: "posted", label: "已过账" },
    ];
    vec![
        SearchField {
            key: "date_from",
            label: "开始日期",
            kind: FieldKind::Text { placeholder: Some("2024-06-01") },
            width: None,
        },
        SearchField {
            key: "date_to",
            label: "结束日期",
            kind: FieldKind::Text { placeholder: Some("2024-06-30") },
            width: None,
        },
        SearchField {
            key: "voucher_no",
            label: "凭证字号",
            kind: FieldKind::Text { placeholder: Some("凭证字号") },
            width: None,
        },
        SearchField {
            key: "voucher_type",
            label: "凭证类型",
            kind: FieldKind::Select { options: types, placeholder: Some("全部") },
            width: None,
        },
        SearchField {
            key: "status",
            label: "审核状态",
            kind: FieldKind::Select { options: states, placeholder: Some("全部") },
            width: None,
        },
    ]
}

/// How many vouchers are audited.
pub open spec fn audited_count(items: Seq<Voucher>) -> int
    decreases items.len(),
{
    if items.len() == 0 {
        0
    } else {
        audited_count(items.drop_last()) + (if items.last().status@ == "audited"@ {
            1int
        } else {
            0int
        })
    }
}

/// The debit totals of the vouchers, each read as `parse::<i64>().unwrap_or(0)`.
pub open spec fn debit_amounts(items: Seq<Voucher>) -> Seq<int> {
    items.map_values(|v: Voucher| amount_of(v.debit_total@))
}

/// The credit totals of the vouchers, read in the same way.
pub open spec fn credit_amounts(items: Seq<Voucher>) -> Seq<int> {
    items.map_values(|v: Voucher| amount_of(v.credit_total@))
}

/// The figures of one page of vouchers.
#[derive(Clone, Copy, Debug)]
pub struct PageStats {
    pub count: usize,
    pub audited: usize,
    pub unaudited: usize,
    pub debit: i64,
    pub credit: i64,
    pub difference: i64,
}

/// The sums of a page stay within `i64`, in every running total and in
/// their difference.
pub open spec fn page_sums_fit(items: Seq<Voucher>) -> bool {
    &&& prefix_sums_fit(debit_amounts(items))
    &&& prefix_sums_fit(credit_amounts(items))
    &&& i64::MIN <= sum_ints(debit_amounts(items)) - sum_ints(credit_amounts(items)) <= i64::MAX
}

proof fn lemma_audited_count_bounds(items: Seq<Voucher>)
    ensures
        0 <= audited_count(items) <= items.len(),
    decreases items.len(),
{
    if items.len() > 0 {
        lemma_audited_count_bounds(items.drop_last());
    }
}

/// The figures of a page: how many vouchers, how many audited and not, the
/// debit and credit sums and their difference; none where a sum would leave
/// `i64`.
pub fn page_stats(items: &Vec<Voucher>) -> (r: Option<PageStats>)
    ensures
        match r {
            Some(s) => {
                &&& page_sums_fit(items@)
                &&& s.count == items@.len()
                &&& s.audited == audited_count(items@)
                &&& s.unaudited == items@.len() - audited_count(items@)
                &&& s.debit == sum_ints(debit_amounts(items@))
                &&& s.credit == sum_ints(credit_amounts(items@))
                &&& s.difference == s.debit - s.credit
            },
            None => !page_sums_fit(items@),
        },
{
    let ghost ds = debit_amounts(items@);
    let ghost cs = credit_amounts(items@);
    let mut audited: usize = 0;
    let mut debit: i64 = 0;
    let mut credit: i64 = 0;
    let mut i: usize = 0;
    assert(ds.take(0) =~= Seq::<int>::empty());
    assert(cs.take(0) =~= Seq::<int>::empty());
    assert(items@.take(0) =~= Seq::<Voucher>::empty());
    while i < items.len()
        invariant
            i <= items@.len(),
            ds == debit_amounts(items@),
            cs == credit_amounts(items@),
            ds.len() == items@.len(),
            cs.len() == items@.len(),
            audited as int == audited_count(items@.take(i as int)),
            audited <= i,
            debit as int == sum_ints(ds.take(i as int)),
            credit as int == sum_ints(cs.take(i as int)),
            forall|k: int| 0 <= k <= i ==> i64::MIN <= #[trigger] sum_ints(ds.take(k)) <= i64::MAX,
            forall|k: int| 0 <= k <= i ==> i64::MIN <= #[trigger] sum_ints(cs.take(k)) <= i64::MAX,
        decreases items@.len() - i,
    {
        let v = &items[i];
        assert(items@.take(i + 1).drop_last() =~= items@.take(i as int));
        assert(ds.take(i + 1).drop_last() =~= ds.take(i as int));
        assert(cs.take(i + 1).drop_last() =~= cs.take(i as int));
        if str_eq(v.status.as_str(), "audited") {
            audited = audited + 1;
        }
        let d = amount_or_zero(v.debit_total.as_str());
        let c = amount_or_zero(v.credit_total.as_str());
        assert(ds[i as int] == d as int);
        assert(cs[i as int] == c as int);
        match debit.checked_add(d) {
            Some(x) => {
                debit = x;
            },
            None => {
                assert(!(i64::MIN <= sum_ints(ds.take(i + 1)) <= i64::MAX));
                return None;
            },
        }
        match credit.checked_add(c) {
            Some(x) => {
                credit = x;
            },
            None => {
                assert(!(i64::MIN <= sum_ints(cs.take(i + 1)) <= i64::MAX));
                return None;
            },
        }
        i = i + 1;
    }
    assert(ds.take(items@.len() as int) =~= ds);
    assert(cs.take(items@.len() as int) =~= cs);
    assert(items@.take(items@.len() as int) =~= items@);
    proof {
        lemma_audited_count_bounds(items@);
    }
    match debit.checked_sub(credit) {
        Some(difference) => Some(
            PageStats {
                count: items.len(),
                audited,
                unaudited: items.len() - audited,
                debit,
                credit,
                difference,
            },
        ),
        None => None,
    }
}

/// The lines under the figure cards: rows on the page, audited, unaudited,
/// debit, credit and difference in cents.
pub fn stats_lines(s: &PageStats) -> (r: Vec<String>)
    ensures
        r@.len() == 6,
        r@[0]@ == "本页 "@ + dec_nat(s.count as nat) + " 条"@,
        r@[1]@ == "已审核 "@ + dec_nat(s.audited as nat),
        r@[2]@ == "未审核 "@ + dec_nat(s.unaudited as nat),
        r@[3]@ == "借方 "@ + dec_int(s.debit as int) + " 分"@,
        r@[4]@ == "贷方 "@ + dec_int(s.credit as int) + " 分"@,
        r@[5]@ == "差额 "@ + dec_int(s.difference as int) + " 分"@,
{
    let a = framed_count("本页 ", s.count as u64, " 条");
    let b = framed_count("已审核 ", s.audited as u64, "");
    let c = framed_count("未审核 ", s.unaudited as u64, "");
    let d = framed_int("借方 ", s.debit, " 分");
    let e = framed_int("贷方 ", s.credit, " 分");
    let f = framed_int("差额 ", s.difference, " 分");
    proof {
        reveal_strlit("");
        assert(""@ =~= Seq::<char>::empty());
        assert("已审核 "@ + dec_nat(s.audited as nat) + ""@ =~= "已审核 "@ + dec_nat(s.audited as nat));
        assert("未审核 "@ + dec_nat(s.unaudited as nat) + ""@ =~= "未审核 "@ + dec_nat(s.unaudited as nat));
    }
    vec![a, b, c, d, e, f]
}

/// One voucher of the overview page's sample list.
#[derive(Clone, Debug)]
pub struct VoucherRow {
    pub index: String,
    pub no: String,
    pub date: String,
    pub summary: String,
    pub vtype: String,
    pub debit: String,
    pub credit: String,
    pub operator: String,
    pub auditor: String,
    pub status: String,
}

/// The texts of a sample row, in column order.
pub open spec fn row_texts(r: VoucherRow) -> Seq<Seq<char>> {
    seq![r.index@, r.no@, r.date@, r.summary@, r.vtype@, r.debit@, r.credit@, r.operator@, r.auditor@, r.status@]
}

fn sample_row(
    index: &str,
    no: &str,
    date: &str,
    summary: &str,
    vtype: &str,
    debit: &str,
    credit: &str,
    operator: &str,
    auditor: &str,
    status: &str,
) -> (r: VoucherRow)
    ensures
        row_texts(r) == seq![index@, no@, date@, summary@, vtype@, debit@, credit@, operator@, auditor@, status@],
{
    VoucherRow {
        index: String::from_str(index),
        no: String::from_str(no),
        date: String::from_str(date),
        summary: String::from_str(summary),
        vtype: String::from_str(vtype),
        debit: String::from_str(debit),
        credit: String::from_str(credit),
        operator: String::from_str(operator),
        auditor: String::from_str(auditor),
        status: String::from_str(status),
    }
}

/// The sample vouchers of the overview page.
pub fn sample_rows() -> (r: Vec<VoucherRow>)
    ensures
        r@.len() == 5,
        row_texts(r@[0]) == seq![
            "1"@, "记-2024-06-0001"@, "2024-06-01"@, "购买办公用品"@, "记账凭证"@,
            "1,250.00"@, "1,250.00"@, "张会计"@, "李主管"@, "已审核"@,
        ],
        row_texts(r@[1]) == seq![
            "2"@, "记-2024-06-0002"@, "2024-06-02"@, "支付供应商货款"@, "记账凭证"@,
            "125,000.00"@, "125,000.00"@, "张会计"@, "李主管"@, "已审核"@,
        ],
        row_texts(r@[2]) == seq![
            "3"@, "记-2024-06-0003"@, "2024-06-03"@, "销售商品收入"@, "记账凭证"@,
            "0.00"@, "250,000.00"@, "张会计"@, "李主管"@, "已审核"@,
        ],
        row_texts(r@[3]) == seq![
            "4"@, "转-2024-06-0001"@, "2024-06-05"@, "计提工资"@, "转账凭证"@,
            "85,000.00"@, "85,000.00"@, "张会计"@, "李主管"@, "未审核"@,
        ],
        row_texts(r@[4]) == seq![
            "5"@, "记-2024-06-0004"@, "2024-06-06"@, "收取客户货款"@, "记账凭证"@,
            "300,000.00"@, "300,000.00"@, "张会计"@, "—"@, "未审核"@,
        ],
{
    let a = sample_row(
        "1", "记-2024-06-0001", "2024-06-01", "购买办公用品", "记账凭证",
        "1,250.00", "1,250.00", "张会计", "李主管", "已审核",
    );
    let b = sample_row(
        "2", "记-2024-06-0002", "2024-06-02", "支付供应商货款", "记账凭证",
        "125,000.00", "125,000.00", "张会计", "李主管", "已审核",
    );
    let c = sample_row(
        "3", "记-2024-06-0003", "2024-06-03", "销售商品收入", "记账凭证",
        "0.00", "250,000.00", "张会计", "李主管", "已审核",
    );
    let d = sample_row(
        "4", "转-2024-06-0001", "2024-06-05", "计提工资", "转账凭证",
        "85,000.00", "85,000.00", "张会计", "李主管", "未审核",
    );
    let e = sample_row(
        "5", "记-2024-06-0004", "2024-06-06", "收取客户货款", "记账凭证",
        "300,000.00", "300,000.00", "张会计", "—", "未审核",
    );
    vec![a, b, c, d, e]
}

/// The number a sample row carries: its index text read as `usize`, one
/// where it does not read.
pub open spec fn row_number(index: Seq<char>) -> int {
    match parse_usize_spec(index) {
        Some(n) => n as int,
        None => 1,
    }
}

/// The selection a click on a row makes: the row's number less one, never
/// below zero.
pub fn selection_of(row: &VoucherRow) -> (r: usize)
    ensures
        r == (if row_number(row.index@) > 0 {
            row_number(row.index@) - 1
        } else {
            0
        }),
{
    let n = match parse_usize(row.index.as_str()) {
        Some(n) => n,
        None => 1,
    };
    n.saturating_sub(1)
}

/// Whether a sample row starts ticked: the third one is.
pub fn starts_checked(row: &VoucherRow) -> (r: bool)
    ensures
        r == (row_number(row.index@) == 3),
{
    let n = match parse_usize(row.index.as_str()) {
        Some(n) => n,
        None => 1,
    };
    n == 3
}

/// The heading of the detail panel for the selected row: its number,
/// summary and date, each a dash when no row is at that position.
pub fn detail_heading(rows: &Vec<VoucherRow>, selected: usize) -> (r: (String, String, String))
    ensures
        selected < rows@.len() ==> {
            &&& r.0@ == rows@[selected as int].no@
            &&& r.1@ == rows@[selected as int].summary@
            &&& r.2@ == rows@[selected as int].date@
        },
        selected >= rows@.len() ==> r.0@ == "—"@ && r.1@ == "—"@ && r.2@ == "—"@,
{
    if selected < rows.len() {
        let row = &rows[selected];
        (row.no.clone(), row.summary.clone(), row.date.clone())
    } else {
        (String::from_str("—"), String::from_str("—"), String::from_str("—"))
    }
}

} // verus!
