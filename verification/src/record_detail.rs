//! The detail panel of a raw record: its labelled fields, the state names of
//! raw records, its attachments and its audit trail.

use vstd::prelude::*;
use crate::audit::{AuditLogEntry, action_cn, action_cn_spec, cell_of};
use crate::ipc::RawRecord;
use crate::number::{dec_int, fmt_i64, framed_int};
use crate::text::{or_dash, str_eq};

verus! {

/// A file attached to a raw record.
#[derive(Clone, Debug)]
pub struct AttachmentInfo {
    pub file_name: String,
    pub file_size: i64,
}

/// A raw record with its source text, attachments and audit trail.
#[derive(Debug)]
pub struct RawRecordDetail {
    pub record: RawRecord,
    pub raw_data: String,
    pub attachments: Vec<AttachmentInfo>,
    pub audit_logs: Vec<AuditLogEntry>,
}

/// The Chinese name of a raw record's state; an unknown state keeps its code.
pub open spec fn status_cn_spec(status: Seq<char>) -> Seq<char> {
    if status == "pending"@ {
        "待处理"@
    } else if status == "matched"@ {
        "已匹配"@
    } else if status == "approved"@ {
        "已审核"@
    } else if status == "rejected"@ {
        "已驳回"@
    } else {
        status
    }
}

/// The Chinese name of a raw record's state, as the table and the panel show it.
pub fn status_cn(status: &str) -> (r: String)
    ensures
        r@ == status_cn_spec(status@),
{
    if str_eq(status, "pending") {
        String::from_str("待处理")
    } else if str_eq(status, "matched") {
        String::from_str("已匹配")
    } else if str_eq(status, "approved") {
        String::from_str("已审核")
    } else if str_eq(status, "rejected") {
        String::from_str("已驳回")
    } else {
        String::from_str(status)
    }
}

/// The text colour of a raw record's state in the table.
pub fn status_class(status: &str) -> (r: &'static str)
    ensures
        r@ == (if status@ == "pending"@ {
            "text-warning"@
        } else if status@ == "matched"@ || status@ == "approved"@ {
            "text-success"@
        } else if status@ == "rejected"@ {
            "text-danger"@
        } else {
            "text-tertiary"@
        }),
{
    if str_eq(status, "pending") {
        "text-warning"
    } else if str_eq(status, "matched") || str_eq(status, "approved") {
        "text-success"
    } else if str_eq(status, "rejected") {
        "text-danger"
    } else {
        "text-tertiary"
    }
}

/// The labelled fields of the panel, in order.
pub open spec fn detail_fields_spec(r: RawRecord) -> Seq<(Seq<char>, Seq<char>)> {
    seq![
        ("ID"@, dec_int(r.id as int)),
        ("来源类型"@, r.source_type_name@),
        ("来源文件"@, r.source_file_name@),
        ("行号"@, dec_int(r.source_row_no as int)),
        ("业务单号"@, cell_of(r.record_no)),
        ("日期"@, cell_of(r.record_date)),
        ("金额"@, cell_of(r.amount_total)),
        ("币种"@, r.currency@),
        ("状态"@, status_cn_spec(r.status@)),
    ]
}

/// The views of label and value pairs.
pub open spec fn pair_views(v: Seq<(&'static str, String)>) -> Seq<(Seq<char>, Seq<char>)> {
    v.map_values(|p: (&'static str, String)| (p.0@, p.1@))
}

/// The labelled fields the panel shows for a record.
pub fn detail_fields(r: &RawRecord) -> (out: Vec<(&'static str, String)>)
    ensures
        pair_views(out@) == detail_fields_spec(*r),
{
    let out = vec![
        ("ID", fmt_i64(r.id)),
        ("来源类型", r.source_type_name.clone()),
        ("来源文件", r.source_file_name.clone()),
        ("行号", fmt_i64(r.source_row_no)),
        ("业务单号", or_dash(&r.record_no)),
        ("日期", or_dash(&r.record_date)),
        ("金额", or_dash(&r.amount_total)),
        ("币种", r.currency.clone()),
        ("状态", status_cn(r.status.as_str())),
    ];
    assert(pair_views(out@) =~= detail_fields_spec(*r));
    out
}

/// The size note of an attachment: `(n bytes)`.
pub fn attachment_size_text(a: &AttachmentInfo) -> (r: String)
    ensures
        r@ == "("@ + dec_int(a.file_size as int) + " bytes)"@,
{
    framed_int("(", a.file_size, " bytes)")
}

/// One entry of the panel's audit trail: the action's name, the operator
/// (a dash when unknown) and the time.
pub fn log_entry_lines(log: &AuditLogEntry) -> (r: (String, String, String))
    ensures
        r.0@ == action_cn_spec(log.action@),
        r.1@ == cell_of(log.operator_name),
        r.2@ == log.created_at@,
{
    (action_cn(log.action.as_str()), or_dash(&log.operator_name), log.created_at.clone())
}

} // verus!
