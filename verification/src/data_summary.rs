//! The data summary pages: the origin tag of a summary row (read from its
//! JSON source note), payment method names, the edit dialog, the fee rate
//! form, and the date range of an automatic summary run.

use vstd::prelude::*;
use crate::accounts::text_lt;
use crate::forms::text_or_empty;
use crate::number::{iso_date, iso_date_text};
use crate::text::{condition_of, is_blank, is_blank_seq, non_empty, opt_text, or_empty, str_eq};

verus! {

/// The string stored under `key` in the JSON object a text holds, as
/// `serde_json` reads it: none when the text is not valid JSON, is not an
/// object, lacks the key, or holds something other than a string there.
pub uninterp spec fn json_string_field(text: Seq<char>, key: Seq<char>) -> Option<Seq<char>>;

/// Parses `text` with `serde_json::from_str::<serde_json::Value>` and picks
/// the string under `key` (`Value::get`, kept only when it is a
/// `Value::String`). Its result is named, not described: nothing here
/// restates the JSON grammar.
#[verifier::external_body]
fn json_string_field_of(text: &str, key: &str) -> (r: Option<String>)
    ensures
        opt_text(r) == json_string_field(text@, key@),
{
    match serde_json::from_str::<serde_json::Value>(text) {
        Ok(v) => match v.get(key) {
            Some(serde_json::Value::String(s)) => Some(s.clone()),
            _ => None,
        },
        Err(_) => None,
    }
}

/// The origin label and tag class of a summary row whose source note has
/// the given `type` tag.
pub open spec fn source_label_spec(tag: Option<Seq<char>>) -> (Seq<char>, Seq<char>) {
    match tag {
        Some(t) => if t == "manual"@ {
            ("手工录入"@, "tag-draft"@)
        } else if t == "order_flow"@ {
            ("订单流水"@, "tag-brand"@)
        } else if t == "bank_flow"@ {
            ("银行流水"@, "tag-brand"@)
        } else if t == "import"@ {
            ("文件导入"@, "tag-success"@)
        } else {
            ("来源未知"@, "tag-pending"@)
        },
        None => ("来源未知"@, "tag-pending"@),
    }
}

/// The origin label and tag class for a `type` tag already read.
pub fn source_label_for_tag(tag: &Option<String>) -> (r: (&'static str, &'static str))
    ensures
        (r.0@, r.1@) == source_label_spec(opt_text(*tag)),
{
    match tag {
        Some(t) => {
            if str_eq(t.as_str(), "manual") {
                ("手工录入", "tag-draft")
            } else if str_eq(t.as_str(), "order_flow") {
                ("订单流水", "tag-brand")
            } else if str_eq(t.as_str(), "bank_flow") {
                ("银行流水", "tag-brand")
            } else if str_eq(t.as_str(), "import") {
                ("文件导入", "tag-success")
            } else {
                ("来源未知", "tag-pending")
            }
        },
        None => ("来源未知", "tag-pending"),
    }
}

/// The origin label and tag class of a summary row: its source note is read
/// as JSON and its `type` decides; a row without a note is of unknown origin.
pub fn source_label(info: &Option<String>) -> (r: (&'static str, &'static str))
    ensures
        (r.0@, r.1@) == source_label_spec(
            match *info {
                Some(s) => json_string_field(s@, "type"@),
                None => None,
            },
        ),
{
    let tag = match info {
        Some(s) => json_string_field_of(s.as_str(), "type"),
        None => None,
    };
    source_label_for_tag(&tag)
}

/// The Chinese name of a payment method; an unknown method keeps its code.
pub open spec fn payment_method_spec(m: Seq<char>) -> Seq<char> {
    if m == "debit_card"@ {
        "借记卡"@
    } else if m == "credit_card"@ {
        "信用卡"@
    } else if m == "wechat"@ {
        "微信"@
    } else if m == "alipay"@ {
        "支付宝"@
    } else {
        m
    }
}

/// The Chinese name of a payment method.
pub fn payment_method_label(m: &str) -> (r: String)
    ensures
        r@ == payment_method_spec(m@),
{
    if str_eq(m, "debit_card") {
        String::from_str("借记卡")
    } else if str_eq(m, "credit_card") {
        String::from_str("信用卡")
    } else if str_eq(m, "wechat") {
        String::from_str("微信")
    } else if str_eq(m, "alipay") {
        String::from_str("支付宝")
    } else {
        String::from_str(m)
    }
}

/// The tag class of a summary category: income in green, the rest grey.
pub fn category_class(category: &str) -> (r: &'static str)
    ensures
        r@ == (if category@ == "收入"@ {
            "tag-success"@
        } else {
            "tag-draft"@
        }),
{
    if str_eq(category, "收入") {
        "tag-success"
    } else {
        "tag-draft"
    }
}

/// One row of the data summary.
#[derive(Clone, Debug)]
pub struct DataSummaryRecord {
    pub id: i64,
    pub summary_date: String,
    pub receipt_no: Option<String>,
    pub category: String,
    pub project: String,
    pub reason: Option<String>,
    pub payment_method: Option<String>,
    pub payment_amount: String,
    pub fee: String,
    pub actual_income: String,
    pub expense: String,
    pub balance: Option<String>,
    pub remarks: Option<String>,
    pub source_info: Option<String>,
}

/// The record the summary dialog saves.
#[derive(Clone, Debug)]
pub struct DataSummaryInput {
    pub summary_date: String,
    pub receipt_no: Option<String>,
    pub category: String,
    pub project: String,
    pub reason: Option<String>,
    pub payment_method: Option<String>,
    pub payment_amount: Option<String>,
    pub fee: Option<String>,
    pub actual_income: Option<String>,
    pub expense: Option<String>,
    pub balance: Option<String>,
    pub remarks: Option<String>,
}

/// The fields of the summary dialog.
#[derive(Clone, Debug)]
pub struct DataSummaryForm {
    pub summary_date: String,
    pub receipt_no: String,
    pub category: String,
    pub project: String,
    pub reason: String,
    pub payment_method: String,
    pub payment_amount: String,
    pub fee: String,
    pub actual_income: String,
    pub expense: String,
    pub balance: String,
    pub remarks: String,
}

impl DataSummaryForm {
    /// The dialog for a new row: income, every other field empty.
    pub fn blank() -> (r: Self)
        ensures
            r.summary_date@.len() == 0,
            r.receipt_no@.len() == 0,
            r.category@ == "收入"@,
            r.project@.len() == 0,
            r.reason@.len() == 0,
            r.payment_method@.len() == 0,
            r.payment_amount@.len() == 0,
            r.fee@.len() == 0,
            r.actual_income@.len() == 0,
            r.expense@.len() == 0,
            r.balance@.len() == 0,
            r.remarks@.len() == 0,
    {
        DataSummaryForm {
            summary_date: String::new(),
            receipt_no: String::new(),
            category: String::from_str("收入"),
            project: String::new(),
            reason: String::new(),
            payment_method: String::new(),
            payment_amount: String::new(),
            fee: String::new(),
            actual_income: String::new(),
            expense: String::new(),
            balance: String::new(),
            remarks: String::new(),
        }
    }

    /// The dialog for an existing row: its fields, absent ones empty.
    pub fn from_record(r0: &DataSummaryRecord) -> (r: Self)
        ensures
            r.summary_date@ == r0.summary_date@,
            r.receipt_no@ == text_or_empty(r0.receipt_no),
            r.category@ == r0.category@,
            r.project@ == r0.project@,
            r.reason@ == text_or_empty(r0.reason),
            r.payment_method@ == text_or_empty(r0.payment_method),
            r.payment_amount@ == r0.payment_amount@,
            r.fee@ == r0.fee@,
            r.actual_income@ == r0.actual_income@,
            r.expense@ == r0.expense@,
            r.balance@ == text_or_empty(r0.balance),
            r.remarks@ == text_or_empty(r0.remarks),
    {
        DataSummaryForm {
            summary_date: r0.summary_date.clone(),
            receipt_no: or_empty(&r0.receipt_no),
            category: r0.category.clone(),
            project: r0.project.clone(),
            reason: or_empty(&r0.reason),
            payment_method: or_empty(&r0.payment_method),
            payment_amount: r0.payment_amount.clone(),
            fee: r0.fee.clone(),
            actual_income: r0.actual_income.clone(),
            expense: r0.expense.clone(),
            balance: or_empty(&r0.balance),
            remarks: or_empty(&r0.remarks),
        }
    }

    /// The record the dialog saves: every empty optional field is left out.
    pub fn to_input(&self) -> (r: DataSummaryInput)
        ensures
            r.summary_date@ == self.summary_date@,
            opt_text(r.receipt_no) == condition_of(self.receipt_no@),
            r.category@ == self.category@,
            r.project@ == self.project@,
            opt_text(r.reason) == condition_of(self.reason@),
            opt_text(r.payment_method) == condition_of(self.payment_method@),
            opt_text(r.payment_amount) == condition_of(self.payment_amount@),
            opt_text(r.fee) == condition_of(self.fee@),
            opt_text(r.actual_income) == condition_of(self.actual_income@),
            opt_text(r.expense) == condition_of(self.expense@),
            opt_text(r.balance) == condition_of(self.balance@),
            opt_text(r.remarks) == condition_of(self.remarks@),
    {
        DataSummaryInput {
            summary_date: self.summary_date.clone(),
            receipt_no: non_empty(self.receipt_no.clone()),
            category: self.category.clone(),
            project: self.project.clone(),
            reason: non_empty(self.reason.clone()),
            payment_method: non_empty(self.payment_method.clone()),
            payment_amount: non_empty(self.payment_amount.clone()),
            fee: non_empty(self.fee.clone()),
            actual_income: non_empty(self.actual_income.clone()),
            expense: non_empty(self.expense.clone()),
            balance: non_empty(self.balance.clone()),
            remarks: non_empty(self.remarks.clone()),
        }
    }
}

/// The query of the summary list: dates, category and project as chosen,
/// on pages of fifty.
#[derive(Clone, Debug)]
pub struct DataSummaryFilter {
    pub date_from: Option<String>,
    pub date_to: Option<String>,
    pub category: Option<String>,
    pub project: Option<String>,
    pub page: i32,
    pub page_size: i32,
}

/// The summary list query.
pub fn summary_filter(
    date_from: Option<String>,
    date_to: Option<String>,
    category: Option<String>,
    project: Option<String>,
    page: i32,
) -> (r: DataSummaryFilter)
    ensures
        r == (DataSummaryFilter { date_from, date_to, category, project, page, page_size: 50 }),
{
    DataSummaryFilter { date_from, date_to, category, project, page, page_size: 50 }
}

/// The category chosen in the list's selector: the empty choice is all.
pub fn category_choice(value: String) -> (r: Option<String>)
    ensures
        opt_text(r) == condition_of(value@),
{
    non_empty(value)
}

/// The record that saves a fee rate: the method, the entered rate, no
/// description, active.
#[derive(Clone, Debug)]
pub struct FeeRateInput {
    pub payment_method: String,
    pub rate: String,
    pub description: Option<String>,
    pub is_active: Option<bool>,
}

/// The fee rate record for a method and an entered rate.
pub fn fee_rate_input(payment_method: String, rate: String) -> (r: FeeRateInput)
    ensures
        r == (FeeRateInput { payment_method, rate, description: None, is_active: Some(true) }),
{
    FeeRateInput { payment_method, rate, description: None, is_active: Some(true) }
}

/// The refusal of an automatic summary run: both dates are needed, and the
/// start may not come after the end (compared as texts).
pub open spec fn range_error_spec(from: Seq<char>, to: Seq<char>) -> Option<Seq<char>> {
    if is_blank_seq(from) || is_blank_seq(to) {
        Some("请填写起始与结束日期"@)
    } else if text_lt(to, from) {
        Some("起始日期 "@ + from + " 晚于结束日期 "@ + to)
    } else {
        None
    }
}

/// Checks the date range of an automatic summary run.
pub fn range_error(from: &str, to: &str) -> (r: Option<String>)
    ensures
        opt_text(r) == range_error_spec(from@, to@),
{
    if is_blank(from) || is_blank(to) {
        return Some(String::from_str("请填写起始与结束日期"));
    }
    if crate::accounts::text_less(to, from) {
        let mut out = String::from_str("起始日期 ");
        out.append(from);
        out.append(" 晚于结束日期 ");
        out.append(to);
        return Some(out);
    }
    None
}

proof fn lemma_text_lt_irreflexive(a: Seq<char>)
    ensures
        !text_lt(a, a),
    decreases a.len(),
{
    if a.len() > 0 {
        lemma_text_lt_irreflexive(a.drop_first());
    }
}

/// A run over a single day (start and end the same, not blank) is accepted.
pub proof fn law_single_day_accepted(day: Seq<char>)
    requires
        !is_blank_seq(day),
    ensures
        range_error_spec(day, day) is None,
{
    lemma_text_lt_irreflexive(day);
}

/// The range an automatic summary run covered.
#[derive(Clone, Debug)]
pub struct GenerateSummaryResult {
    pub date_from: String,
    pub date_to: String,
}

/// The notice after a run. It names the start date twice, as the page
/// always has: `已生成:from (区间 from → to)`.
pub fn generated_notice(r: &GenerateSummaryResult) -> (out: String)
    ensures
        out@ == "已生成:"@ + r.date_from@ + " (区间 "@ + r.date_from@ + " → "@ + r.date_to@ + ")"@,
{
    let mut out = String::from_str("已生成:");
    out.append(r.date_from.as_str());
    out.append(" (区间 ");
    out.append(r.date_from.as_str());
    out.append(" → ");
    out.append(r.date_to.as_str());
    out.append(")");
    out
}

/// The start date the run form opens with: the first day of the month of
/// `today`, given as a year and a zero-based month (as a JS `Date` gives it).
pub fn default_date_from(year: u32, month0: u32) -> (r: String)
    requires
        month0 < u32::MAX,
    ensures
        r@ == iso_date_text(year as nat, (month0 + 1) as nat, 1),
{
    iso_date(year, month0 + 1, 1)
}

/// The end date the run form opens with: today, from a year, a zero-based
/// month and a day of the month.
pub fn default_date_to(year: u32, month0: u32, day: u32) -> (r: String)
    requires
        month0 < u32::MAX,
    ensures
        r@ == iso_date_text(year as nat, (month0 + 1) as nat, day as nat),
{
    iso_date(year, month0 + 1, day)
}

} // verus!
