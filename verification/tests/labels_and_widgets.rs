use forgefin::audit::{action_class, action_cn, audit_query, audit_search_fields, log_row_cells, AuditLogEntry};
use forgefin::contacts::type_label as contact_type_label;
use forgefin::imports::{file_status_class, file_status_label, source_type_label};
use forgefin::reconciliation::{
    can_review, diff_query, diff_search_fields, reconcile_date_error, reconcile_summary,
    review_request, selected_item, status_class, status_cn, ReconcileResult, ReconciliationItem,
};
use forgefin::record_detail::{status_class as record_status_class, status_cn as record_status_cn};
use forgefin::search::{fold_label, visible_fields, FieldKind, SearchField};
use forgefin::widgets::{
    bar_heights, cell_align, cell_text, icon_for_name, modal_size_class, status_variant, tab_is_active,
    td_class, th_class, Align, BadgeVariant, ColumnConfig, IconKind, KpiAccent, TabItem,
};

fn item(id: i64, status: &str) -> ReconciliationItem {
    ReconciliationItem {
        id,
        summary_date: "2024-06-01".to_string(),
        bank_amount: "100".to_string(),
        order_amount: "90".to_string(),
        diff_amount: "10".to_string(),
        review_status: status.to_string(),
        voucher_no: None,
    }
}

#[test]
fn badges() {
    assert_eq!(status_variant("已过账"), BadgeVariant::Posted);
    assert_eq!(status_variant("待审核"), BadgeVariant::Pending);
    assert_eq!(status_variant("未审核"), BadgeVariant::Pending);
    assert_eq!(status_variant("草稿"), BadgeVariant::Draft);
    assert_eq!(status_variant("已驳回"), BadgeVariant::Archived);
    assert_eq!(status_variant("别的"), BadgeVariant::Neutral);
    assert_eq!(BadgeVariant::Approved.class(), "tag-approved");
    assert_eq!(BadgeVariant::Neutral.class(), "");
}

#[test]
fn icons_and_accents() {
    assert_eq!(icon_for_name("report"), IconKind::FileText);
    assert_eq!(icon_for_name("file"), IconKind::FileText);
    assert_eq!(icon_for_name("bar-chart"), IconKind::ChartColumnIncreasing);
    assert_eq!(icon_for_name("nothing"), IconKind::House);
    assert_eq!(KpiAccent::Danger.icon(), IconKind::Close);
    assert_eq!(KpiAccent::Neutral.icon(), IconKind::LayoutDashboard);
}

#[test]
fn table_and_dialog_classes() {
    assert_eq!(modal_size_class(Some("sm")), "modal modal-sm");
    assert_eq!(modal_size_class(Some("lg")), "modal modal-lg");
    assert_eq!(modal_size_class(Some("xl")), "modal");
    assert_eq!(modal_size_class(None), "modal");
    assert_eq!(th_class(Align::Right), "px-3 py-2 text-right text-secondary font-medium");
    assert_eq!(td_class(Align::Right), "px-3 py-2 text-right text-primary tabular-nums");
    let cols = vec![ColumnConfig { key: "amount", label: "金额", width: None, align: Align::Right }];
    assert_eq!(cell_align(&cols, 0), Align::Right);
    assert_eq!(cell_align(&cols, 3), Align::Left);
    let row = vec!["a".to_string()];
    assert_eq!(cell_text(&row, 0), "a");
    assert_eq!(cell_text(&row, 1), "");
    let tab = TabItem { key: "diffs", label: "差异列表", closable: false };
    assert!(tab_is_active(&tab, "diffs"));
    assert!(!tab_is_active(&tab, "reconcile"));
    assert_eq!(bar_heights(), vec![40, 65, 50, 80, 70, 95, 60]);
}

#[test]
fn folded_search_forms_show_five_fields() {
    let fields: Vec<SearchField> = (0..7)
        .map(|_| SearchField { key: "k", label: "l", kind: FieldKind::DateRange, width: None })
        .collect();
    assert_eq!(visible_fields(fields, true, false).len(), 5);
    let fields: Vec<SearchField> = (0..7)
        .map(|_| SearchField { key: "k", label: "l", kind: FieldKind::DateRange, width: None })
        .collect();
    assert_eq!(visible_fields(fields, true, true).len(), 7);
    let fields: Vec<SearchField> = (0..7)
        .map(|_| SearchField { key: "k", label: "l", kind: FieldKind::DateRange, width: None })
        .collect();
    assert_eq!(visible_fields(fields, false, false).len(), 7);
    assert_eq!(fold_label(true), "收起");
    assert_eq!(fold_label(false), "更多条件");
}

#[test]
fn audit_actions() {
    assert_eq!(action_cn("reconcile"), "自动对账");
    assert_eq!(action_cn("custom_action"), "custom_action");
    assert_eq!(action_class("generate_voucher"), "text-success");
    assert_eq!(action_class("reject_review"), "text-danger");
    assert_eq!(action_class("x"), "text-tertiary");
    let q = audit_query(String::new(), "42".to_string(), 2);
    assert_eq!((q.entity_type, q.entity_id.as_deref(), q.page, q.page_size), (None, Some("42"), 2, 20));
    let f = audit_search_fields();
    assert_eq!(f.len(), 2);
    match &f[0].kind {
        FieldKind::Select { options, placeholder } => {
            assert_eq!(options.len(), 4);
            assert_eq!(options[2].label, "对账汇总");
            assert_eq!(*placeholder, Some("全部"));
        }
        _ => panic!("entity type is a select"),
    }
    let e = AuditLogEntry {
        id: 1,
        entity_type: "voucher".to_string(),
        entity_id: None,
        action: "approve_review".to_string(),
        operator_name: Some("李主管".to_string()),
        comment: None,
        created_at: "2024-06-03".to_string(),
    };
    assert_eq!(log_row_cells(&e), vec!["voucher", "—", "审核通过", "李主管", "—", "2024-06-03"]);
}

#[test]
fn reconciliation_states_and_checks() {
    assert_eq!(status_cn("auto_matched"), "自动匹配");
    assert_eq!(status_cn("other"), "other");
    assert_eq!(status_class("approved"), "text-success");
    assert_eq!(status_class("pending"), "text-warning");
    assert!(can_review(&item(1, "pending")));
    assert!(!can_review(&item(1, "approved")));
    assert_eq!(reconcile_date_error("  "), Some("请选择对账日期"));
    assert_eq!(reconcile_date_error("2024-06-01"), None);
    let r = ReconcileResult { matched_dates: vec!["a".into(), "b".into()], diff_dates: vec![] };
    assert_eq!(reconcile_summary(&r), ("自动匹配 2 天".to_string(), "差异 0 天".to_string(), "text-tertiary"));
    let r = ReconcileResult { matched_dates: vec![], diff_dates: vec!["c".into()] };
    assert_eq!(reconcile_summary(&r).2, "text-warning");
    let q = diff_query(String::new(), "pending".to_string(), 1);
    assert_eq!((q.date, q.status.as_deref(), q.page_size), (None, Some("pending"), 20));
    let items = vec![item(5, "pending"), item(7, "approved"), item(7, "rejected")];
    assert_eq!(selected_item(&items, Some(7)), Some(1));
    assert_eq!(selected_item(&items, Some(8)), None);
    assert_eq!(selected_item(&items, None), None);
    assert_eq!(review_request(&Some(item(5, "pending")), true, String::new()), Some((5, true, Some(String::new()))));
    assert_eq!(review_request(&None, false, "x".to_string()), None);
    assert_eq!(diff_search_fields()[0].key, "date");
}

#[test]
fn import_and_record_states() {
    assert_eq!(source_type_label("pos_flow"), "POS流水");
    assert_eq!(source_type_label("chat_record"), "chat_record");
    assert_eq!(file_status_label("unsupported"), "不支持的文件类型");
    assert_eq!(file_status_label("??"), "未知");
    assert_eq!(file_status_class("pending"), "text-warning");
    assert_eq!(record_status_cn("matched"), "已匹配");
    assert_eq!(record_status_cn("weird"), "weird");
    assert_eq!(record_status_class("rejected"), "text-danger");
    assert_eq!(contact_type_label("vendor"), "供应商");
    assert_eq!(contact_type_label(""), "—");
}
