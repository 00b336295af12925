use forgefin::audit::AuditLogEntry;
use forgefin::data_summary::{
    category_choice, category_class, default_date_from, default_date_to, fee_rate_input,
    generated_notice, payment_method_label, range_error, source_label, source_label_for_tag,
    summary_filter, DataSummaryForm, DataSummaryRecord, GenerateSummaryResult,
};
use forgefin::imports::{
    balance_warnings, can_import, content_path_error, file_count_text, file_row_class, filter_batches,
    import_counts, is_importing, mark_imported, path_error, record_search_fields, scan_notice,
    selected_batch, single_import_lines, source_choice, ImportBatch, ImportDirResult, ImportResult,
    PathField, RawFileInfo,
};
use forgefin::ipc::RawRecord;
use forgefin::record_detail::{attachment_size_text, detail_fields, log_entry_lines, AttachmentInfo};

fn file(name: &str, status: &str) -> RawFileInfo {
    RawFileInfo {
        file_name: name.to_string(),
        file_path: format!("/data/{name}"),
        source_type: "bank_flow".to_string(),
        row_count: 10,
        status: status.to_string(),
    }
}

fn batch(id: i64, name: &str) -> ImportBatch {
    ImportBatch {
        id,
        file_name: name.to_string(),
        file_path: format!("/data/{name}"),
        source_type: "bank_flow".to_string(),
        row_count: 3,
        imported_at: "2024-06-01".to_string(),
        created_by: None,
    }
}

fn result(name: &str, skipped: i32, warning: Option<&str>) -> ImportResult {
    ImportResult {
        batch_id: 12,
        file_name: name.to_string(),
        row_count: 30,
        skipped_count: skipped,
        balance_check_warning: warning.map(|w| w.to_string()),
    }
}

#[test]
fn path_checks() {
    assert_eq!(path_error(PathField::Directory, " "), Some("请输入原始文件目录路径"));
    assert_eq!(path_error(PathField::SingleFile, ""), Some("请输入文件路径"));
    assert_eq!(path_error(PathField::Upload, "\t"), Some("请选择或输入文件路径"));
    assert_eq!(path_error(PathField::Upload, "/a.tsv"), None);
    assert_eq!(content_path_error(""), Some("文件路径为空"));
    assert_eq!(content_path_error(" "), None);
    assert_eq!(scan_notice(0), Some("目录中未找到支持的原始凭证文件"));
    assert_eq!(scan_notice(2), None);
    assert_eq!(file_count_text(12), "共 12 个文件");
}

#[test]
fn importing_a_file_marks_every_file_of_that_name() {
    let mut files = vec![file("a.tsv", "pending"), file("b.tsv", "pending"), file("a.tsv", "unsupported")];
    mark_imported(&mut files, "a.tsv");
    let states: Vec<String> = files.iter().map(|f| f.status.clone()).collect();
    assert_eq!(states, vec!["imported", "pending", "imported"]);
    assert_eq!(files[0].file_path, "/data/a.tsv");
    mark_imported(&mut files, "a.tsv");
    let again: Vec<String> = files.iter().map(|f| f.status.clone()).collect();
    assert_eq!(again, states);
    assert!(can_import("pending"));
    assert!(!can_import("imported"));
    assert!(is_importing(&Some("b.tsv".to_string()), "b.tsv"));
    assert!(!is_importing(&None, "b.tsv"));
}

#[test]
fn directory_import_summary() {
    let r = ImportDirResult {
        imported: vec![result("a.tsv", 0, None), result("b.tsv", 2, Some("余额不连续"))],
        skipped: vec!["c.tsv".to_string()],
        errors: vec![],
    };
    assert_eq!(import_counts(&r), ("导入成功 2".to_string(), "已跳过 1".to_string(), "失败 0".to_string()));
    assert_eq!(balance_warnings(&r), vec!["b.tsv: 余额不连续".to_string()]);
}

#[test]
fn single_import_summary() {
    let (head, skipped, warning) = single_import_lines(&result("a.tsv", 0, None));
    assert_eq!(head, "导入成功: a.tsv (30 行, batch_id=12)");
    assert_eq!((skipped, warning), (None, None));
    let (_, skipped, warning) = single_import_lines(&result("a.tsv", 4, Some("差 1 分")));
    assert_eq!(skipped.as_deref(), Some("跳过 4 条重复行"));
    assert_eq!(warning.as_deref(), Some("余额校验警告: 差 1 分"));
}

#[test]
fn batch_name_filter_ignores_case() {
    let batches = vec![batch(1, "Bank_June.TSV"), batch(2, "pos.csv"), batch(3, "bank_july.tsv")];
    let ids = |v: Vec<ImportBatch>| v.iter().map(|b| b.id).collect::<Vec<_>>();
    assert_eq!(ids(filter_batches(&batches, "BANK")), vec![1, 3]);
    assert_eq!(ids(filter_batches(&batches, "june.tsv")), vec![1]);
    assert_eq!(ids(filter_batches(&batches, "")), vec![1, 2, 3]);
    assert_eq!(ids(filter_batches(&batches, "xlsx")), Vec::<i64>::new());
    assert_eq!(selected_batch(&batches, Some(3)), Some(2));
    assert_eq!(selected_batch(&batches, Some(9)), None);
    assert_eq!(selected_batch(&batches, None), None);
    assert_eq!(source_choice(String::new()), None);
    assert!(file_row_class(true).ends_with("border-l-brand"));
    assert_eq!(file_row_class(false), "cursor-pointer hover:bg-surface transition-colors");
    assert_eq!(record_search_fields()[1].key, "batch_id");
}

#[test]
fn summary_origin_is_read_from_json() {
    let tag = |s: &str| source_label(&Some(s.to_string()));
    assert_eq!(tag(r#"{"type":"manual"}"#), ("手工录入", "tag-draft"));
    assert_eq!(tag(r#"{"type":"order_flow","n":1}"#), ("订单流水", "tag-brand"));
    assert_eq!(tag(r#" { "type" : "bank_flow" } "#), ("银行流水", "tag-brand"));
    assert_eq!(tag(r#"{"type":"import"}"#), ("文件导入", "tag-success"));
    assert_eq!(tag(r#"{"type":"other"}"#), ("来源未知", "tag-pending"));
    assert_eq!(tag(r#"{"type":5}"#), ("来源未知", "tag-pending"));
    assert_eq!(tag(r#"{"kind":"manual"}"#), ("来源未知", "tag-pending"));
    assert_eq!(tag(r#"["type"]"#), ("来源未知", "tag-pending"));
    assert_eq!(tag("manual"), ("来源未知", "tag-pending"));
    assert_eq!(source_label(&None), ("来源未知", "tag-pending"));
    assert_eq!(source_label_for_tag(&Some("manual".to_string())), ("手工录入", "tag-draft"));
    assert_eq!(source_label_for_tag(&None), ("来源未知", "tag-pending"));
}

#[test]
fn summary_labels_and_queries() {
    assert_eq!(payment_method_label("wechat"), "微信");
    assert_eq!(payment_method_label("cash"), "cash");
    assert_eq!(category_class("收入"), "tag-success");
    assert_eq!(category_class("支出"), "tag-draft");
    assert_eq!(category_choice(String::new()), None);
    let f = summary_filter(None, Some("2024-06-30".to_string()), Some("收入".to_string()), None, 2);
    assert_eq!((f.page, f.page_size), (2, 50));
    let rate = fee_rate_input("alipay".to_string(), "0.6".to_string());
    assert_eq!((rate.description, rate.is_active), (None, Some(true)));
}

#[test]
fn summary_dialog() {
    let blank = DataSummaryForm::blank();
    assert_eq!(blank.category, "收入");
    let rec = DataSummaryRecord {
        id: 1,
        summary_date: "2024-06-01".to_string(),
        receipt_no: Some("0000502".to_string()),
        category: "支出".to_string(),
        project: "手续费".to_string(),
        reason: None,
        payment_method: Some("alipay".to_string()),
        payment_amount: "100".to_string(),
        fee: String::new(),
        actual_income: "0".to_string(),
        expense: "100".to_string(),
        balance: None,
        remarks: None,
        source_info: None,
    };
    let input = DataSummaryForm::from_record(&rec).to_input();
    assert_eq!(input.receipt_no.as_deref(), Some("0000502"));
    assert_eq!(input.reason, None);
    assert_eq!(input.fee, None);
    assert_eq!(input.payment_amount.as_deref(), Some("100"));
    assert_eq!(input.category, "支出");
}

#[test]
fn summary_run_dates() {
    assert_eq!(range_error("", "2024-06-30").as_deref(), Some("请填写起始与结束日期"));
    assert_eq!(
        range_error("2024-07-01", "2024-06-30").as_deref(),
        Some("起始日期 2024-07-01 晚于结束日期 2024-06-30")
    );
    assert_eq!(range_error("2024-06-01", "2024-06-30"), None);
    assert_eq!(range_error("2024-06-15", "2024-06-15"), None);
    assert_eq!(default_date_from(2024, 5), "2024-06-01");
    assert_eq!(default_date_to(2024, 11, 9), "2024-12-09");
    let r = GenerateSummaryResult { date_from: "2024-06-01".to_string(), date_to: "2024-06-30".to_string() };
    assert_eq!(generated_notice(&r), "已生成:2024-06-01 (区间 2024-06-01 → 2024-06-30)");
}

#[test]
fn record_detail_panel() {
    let r = RawRecord {
        id: 8,
        import_batch_id: 1,
        source_type: "bank_flow".to_string(),
        source_type_name: "银行流水".to_string(),
        source_file_name: "b.tsv".to_string(),
        source_row_no: 4,
        record_no: None,
        record_date: Some("2024-06-01".to_string()),
        amount_total: None,
        balance: None,
        counterpart_info: None,
        summary: None,
        currency: "CNY".to_string(),
        status: "approved".to_string(),
        balance_check_status: None,
        balance_confirmed_at: None,
    };
    let fields = detail_fields(&r);
    let shown: Vec<(&str, &str)> = fields.iter().map(|(l, v)| (*l, v.as_str())).collect();
    assert_eq!(
        shown,
        vec![
            ("ID", "8"),
            ("来源类型", "银行流水"),
            ("来源文件", "b.tsv"),
            ("行号", "4"),
            ("业务单号", "—"),
            ("日期", "2024-06-01"),
            ("金额", "—"),
            ("币种", "CNY"),
            ("状态", "已审核"),
        ]
    );
    assert_eq!(attachment_size_text(&AttachmentInfo { file_name: "a.jpg".to_string(), file_size: 2048 }), "(2048 bytes)");
    let log = AuditLogEntry {
        id: 1,
        entity_type: "source_record".to_string(),
        entity_id: Some("8".to_string()),
        action: "import_raw_file".to_string(),
        operator_name: None,
        comment: None,
        created_at: "2024-06-01 10:00".to_string(),
    };
    assert_eq!(
        log_entry_lines(&log),
        ("导入原始文件".to_string(), "—".to_string(), "2024-06-01 10:00".to_string())
    );
}
