//! The audit log screen: how an action is named and coloured, the fields
//! of its search form and the filter a search sends.

use vstd::prelude::*;
use crate::search::{FieldKind, SearchField, SelectOption, select_field_is, text_field_is};
use crate::text::{condition_of, non_empty, opt_text, or_dash, str_eq};

verus! {

/// The Chinese name of an audit action; an unknown action keeps its code.
pub open spec fn action_cn_spec(action: Seq<char>) -> Seq<char> {
    if action == "import_raw_file"@ {
        "导入原始文件"@
    } else if action == "reconcile"@ {
        "自动对账"@
    } else if action == "approve_review"@ {
        "审核通过"@
    } else if action == "reject_review"@ {
        "审核驳回"@
    } else if action == "generate_voucher"@ {
        "生成凭证"@
    } else {
        action
    }
}

/// The Chinese name of an audit action.
pub fn action_cn(action: &str) -> (r: String)
    ensures
        r@ == action_cn_spec(action@),
{
    if str_eq(action, "import_raw_file") {
        String::from_str("导入原始文件")
    } else if str_eq(action, "reconcile") {
        String::from_str("自动对账")
    } else if str_eq(action, "approve_review") {
        String::from_str("审核通过")
    } else if str_eq(action, "reject_review") {
        String::from_str("审核驳回")
    } else if str_eq(action, "generate_voucher") {
        String::from_str("生成凭证")
    } else {
        String::from_str(action)
    }
}

/// The text colour of an audit action.
pub fn action_class(action: &str) -> (r: &'static str)
    ensures
        r@ == (if action@ == "import_raw_file"@ {
            "text-info"@
        } else if action@ == "reconcile"@ {
            "text-brand"@
        } else if action@ == "approve_review"@ || action@ == "generate_voucher"@ {
            "text-success"@
        } else if action@ == "reject_review"@ {
            "text-danger"@
        } else {
            "text-tertiary"@
        }),
{
    if str_eq(action, "import_raw_file") {
        "text-info"
    } else if str_eq(action, "reconcile") {
        "text-brand"
    } else if str_eq(action, "approve_review") || str_eq(action, "generate_voucher") {
        "text-success"
    } else if str_eq(action, "reject_review") {
        "text-danger"
    } else {
        "text-tertiary"
    }
}

/// One entry of the global audit log.
#[derive(Clone, Debug)]
pub struct AuditLogEntry {
    pub id: i64,
    pub entity_type: String,
    pub entity_id: Option<String>,
    pub action: String,
    pub operator_name: Option<String>,
    pub comment: Option<String>,
    pub created_at: String,
}

/// An optional text in a table cell: a dash when absent.
pub open spec fn cell_of(o: Option<String>) -> Seq<char> {
    match o {
        Some(s) => s@,
        None => "—"@,
    }
}

/// The cells of a row of the audit log table: entity type, entity id,
/// action name, operator, comment and time, absent ones shown as a dash.
pub fn log_row_cells(e: &AuditLogEntry) -> (r: Vec<String>)
    ensures
        r@.len() == 6,
        r@[0]@ == e.entity_type@,
        r@[1]@ == cell_of(e.entity_id),
        r@[2]@ == action_cn_spec(e.action@),
        r@[3]@ == cell_of(e.operator_name),
        r@[4]@ == cell_of(e.comment),
        r@[5]@ == e.created_at@,
{
    vec![
        e.entity_type.clone(),
        or_dash(&e.entity_id),
        action_cn(e.action.as_str()),
        or_dash(&e.operator_name),
        or_dash(&e.comment),
        e.created_at.clone(),
    ]
}

/// The search form of the audit log: the entity type and the entity id.
pub fn audit_search_fields() -> (r: Vec<SearchField>)
    ensures
        r@.len() == 2,
        select_field_is(
            r@[0],
            "entity_type"@,
            "实体类型"@,
            seq![
                ("source_record"@, "原始记录"@),
                ("import_batch"@, "导入批次"@),
                ("transaction_summary"@, "对账汇总"@),
                ("voucher"@, "凭证"@),
            ],
        ),
        text_field_is(r@[1], "entity_id"@, "实体 ID"@, "记录 ID"@),
{
    let options = vec![
        SelectOption { value: "source_record", label: "原始记录" },
        SelectOption { value: "import_batch", label: "导入批次" },
        SelectOption { value: "transaction_summary", label: "对账汇总" },
        SelectOption { value: "voucher", label: "凭证" },
    ];
    vec![
        SearchField {
            key: "entity_type",
            label: "实体类型",
            kind: FieldKind::Select { options, placeholder: Some("全部") },
            width: None,
        },
        SearchField {
            key: "entity_id",
            label: "实体 ID",
            kind: FieldKind::Text { placeholder: Some("记录 ID") },
            width: None,
        },
    ]
}

/// The query an audit log search sends: entity type, entity id, page and
/// page size, an empty text meaning no condition.
pub struct AuditQuery {
    pub entity_type: Option<String>,
    pub entity_id: Option<String>,
    pub page: i32,
    pub page_size: i32,
}

/// The audit log query for the entered type and id on a page of twenty.
pub fn audit_query(entity_type: String, entity_id: String, page: i32) -> (r: AuditQuery)
    ensures
        opt_text(r.entity_type) == condition_of(entity_type@),
        opt_text(r.entity_id) == condition_of(entity_id@),
        r.page == page,
        r.page_size == 20,
{
    AuditQuery {
        entity_type: non_empty(entity_type),
        entity_id: non_empty(entity_id),
        page,
        page_size: 20,
    }
}

} // verus!
