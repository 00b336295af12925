use forgefin::accounts::{account_tree, active_tag, children_sorted, direction_label, leaf_accounts, text_less, type_label};
use forgefin::ipc::{Account, Voucher};
use forgefin::voucher_entry::{
    add_row, after_save, build_voucher_input, choose_account, collect_entry_inputs, column_total, fresh_rows,
    imbalance_message, is_balanced, remove_row, today_iso, type_amount, type_summary, EntryError,
    EntryLines, EntryRow, LineIds, Side,
};
use forgefin::vouchers::{
    audit_button_label, detail_heading, initial_filter, log_title, page_stats, row_status_label,
    sample_rows, search_fields, selection_of, starts_checked, stats_lines, status_cn, voucher_tabs,
    with_page,
};

fn account(id: &str, code: &str, parent: Option<&str>, leaf: bool) -> Account {
    Account {
        id: id.to_string(),
        code: code.to_string(),
        name: format!("科目{code}"),
        parent_id: parent.map(|p| p.to_string()),
        account_type: "asset".to_string(),
        balance_direction: "debit".to_string(),
        is_leaf: leaf,
        is_active: true,
        description: None,
        created_at: String::new(),
        updated_at: String::new(),
    }
}

fn line(account_id: &str, debit: &str, credit: &str) -> EntryRow {
    static NEXT: std::sync::atomic::AtomicUsize = std::sync::atomic::AtomicUsize::new(100);
    let mut e = EntryRow::empty(NEXT.fetch_add(1, std::sync::atomic::Ordering::Relaxed));
    e.account_id = account_id.to_string();
    e.debit = debit.to_string();
    e.credit = credit.to_string();
    e
}

fn voucher(status: &str, debit: &str, credit: &str) -> Voucher {
    Voucher {
        id: "v".to_string(),
        voucher_no: "记-1".to_string(),
        voucher_date: "2024-06-01".to_string(),
        voucher_type: "记账".to_string(),
        summary: String::new(),
        attachments: 0,
        status: status.to_string(),
        debit_total: debit.to_string(),
        credit_total: credit.to_string(),
        operator_id: None,
        operator_name: None,
        auditor_id: None,
        auditor_name: None,
        audited_at: None,
        created_at: String::new(),
        updated_at: String::new(),
    }
}

#[test]
fn totals_and_balance() {
    let rows = vec![line("a", "100", "0"), line("b", "0", "100"), line("", "x", "")];
    assert_eq!(column_total(&rows, Side::Debit), Some(100));
    assert_eq!(column_total(&rows, Side::Credit), Some(100));
    assert!(is_balanced(100, 100));
    assert!(!is_balanced(0, 0));
    assert!(!is_balanced(100, 90));
    let big = vec![line("a", "9223372036854775807", "0"), line("b", "1", "0")];
    assert_eq!(column_total(&big, Side::Debit), None);
    assert_eq!(imbalance_message(100, 90), "不平衡: 借方 100 / 贷方 90");
}

#[test]
fn saving_refuses_unbalanced_or_empty_forms() {
    let unbalanced = vec![line("a", "100", "0"), line("b", "0", "90")];
    let r = build_voucher_input("1".into(), "2024-06-01".into(), "记账".into(), "s".into(), 0, &unbalanced);
    assert_eq!(r.unwrap_err(), EntryError::Unbalanced);
    assert_eq!(EntryError::Unbalanced.message(), "借贷不平衡,无法保存");
    let nothing = vec![line("", "0", "0"), line("", "0", "0")];
    let r = build_voucher_input("1".into(), "d".into(), "t".into(), "s".into(), 0, &nothing);
    assert_eq!(r.unwrap_err(), EntryError::Unbalanced);
    let no_account = vec![line("", "50", "0"), line("", "0", "50")];
    let r = build_voucher_input("1".into(), "d".into(), "t".into(), "s".into(), 0, &no_account);
    assert_eq!(r.unwrap_err(), EntryError::NoEntries);
    assert_eq!(EntryError::NoEntries.message(), "请至少添加一条分录");
}

#[test]
fn an_accepted_voucher_balances_and_keeps_lines_with_accounts() {
    let mut rows = vec![line("a", "100", "0"), line("b", "0", "100")];
    rows[0].summary = "租金".to_string();
    add_row(&mut rows, 9);
    let v = build_voucher_input("记-0001".into(), "2024-06-01".into(), "记账".into(), "租金".into(), 2, &rows)
        .unwrap();
    assert_eq!(v.entries.len(), 2);
    assert_eq!(v.entries[0].summary.as_deref(), Some("租金"));
    assert_eq!(v.entries[1].summary, None);
    assert_eq!(v.attachments, Some(2));
    assert_eq!(v.voucher_no, "记-0001");
    let d: i64 = v.entries.iter().map(|e| e.debit.parse::<i64>().unwrap()).sum();
    let c: i64 = v.entries.iter().map(|e| e.credit.parse::<i64>().unwrap()).sum();
    assert_eq!(d, c);
}

#[test]
fn a_blank_line_keeps_the_totals() {
    let mut rows = vec![line("a", "70", "0"), line("b", "0", "70")];
    let before = (column_total(&rows, Side::Debit), column_total(&rows, Side::Credit));
    add_row(&mut rows, 5);
    assert_eq!((column_total(&rows, Side::Debit), column_total(&rows, Side::Credit)), before);
    assert_eq!(collect_entry_inputs(&rows).len(), 2);
}

#[test]
fn editing_lines() {
    let mut rows = fresh_rows(1, 2);
    assert_eq!(rows.len(), 2);
    assert_eq!((rows[0].debit.as_str(), rows[0].credit.as_str()), ("0", "0"));
    remove_row(&mut rows, 0);
    assert_eq!(rows.len(), 2);
    add_row(&mut rows, 3);
    remove_row(&mut rows, 1);
    assert_eq!(rows.iter().map(|r| r.uid).collect::<Vec<_>>(), vec![1, 3]);
    rows[0].credit = "30".to_string();
    type_amount(&mut rows, 0, Side::Debit, "50".to_string());
    assert_eq!((rows[0].debit.as_str(), rows[0].credit.as_str()), ("50", "0"));
    rows[1].debit = "40".to_string();
    type_amount(&mut rows, 1, Side::Credit, "abc".to_string());
    assert_eq!((rows[1].debit.as_str(), rows[1].credit.as_str()), ("40", "abc"));
    type_summary(&mut rows, 1, "备注".to_string());
    assert_eq!(rows[1].summary, "备注");
    let accounts = vec![account("acc1", "1001", None, true)];
    choose_account(&mut rows, 1, &accounts, "acc1");
    assert_eq!(rows[1].account_code, "1001");
    choose_account(&mut rows, 0, &accounts, "missing");
    assert_eq!(rows[0].account_id, "");
    assert_eq!(today_iso(2024, 5, 3), "2024-06-03");
}

#[test]
fn account_tree_orders_children_by_code() {
    let accs = vec![
        account("b", "2001", None, false),
        account("a", "1001", None, false),
        account("a2", "100102", Some("a"), true),
        account("a1", "100101", Some("a"), true),
        account("b1", "200101", Some("b"), true),
    ];
    let tree = account_tree(&accs);
    let rows: Vec<(usize, usize)> = tree.iter().map(|r| (r.index, r.depth)).collect();
    assert_eq!(rows, vec![(1, 0), (3, 1), (2, 1), (0, 0), (4, 1)]);
    assert_eq!(children_sorted(&accs, &Some("a".to_string())), vec![3, 2]);
    let leaves: Vec<String> = leaf_accounts(&accs).iter().map(|a| a.id.clone()).collect();
    assert_eq!(leaves, vec!["a2", "a1", "b1"]);
    assert!(text_less("1001", "2001"));
    assert!(text_less("100", "1001"));
    assert!(!text_less("1001", "1001"));
}

#[test]
fn a_cyclic_chart_still_ends() {
    let accs = vec![account("x", "1", Some("y"), false), account("y", "2", Some("x"), false)];
    assert!(account_tree(&accs).is_empty());
}

#[test]
fn account_labels() {
    assert_eq!(type_label("asset"), "资产");
    assert_eq!(type_label("income"), "损益");
    assert_eq!(type_label("profit_loss"), "损益");
    assert_eq!(type_label("weird"), "—");
    assert_eq!(direction_label("credit"), "贷");
    assert_eq!(direction_label("auto"), "自动");
    assert_eq!(active_tag(false), ("tag-draft", "停用"));
}

#[test]
fn voucher_status_texts() {
    assert_eq!(status_cn("posted"), "已过账");
    assert_eq!(status_cn("odd"), "odd");
    assert_eq!(row_status_label("odd"), "—");
    assert_eq!(row_status_label("unaudited"), "未审核");
    assert_eq!(audit_button_label("audited"), "反审核");
    assert_eq!(audit_button_label("draft"), "审核");
    assert_eq!(log_title("audit"), "审核通过");
    assert_eq!(log_title("unaudit"), "反审核");
    assert_eq!(log_title("edit"), "操作");
}

#[test]
fn voucher_queries_and_tabs() {
    let f = initial_filter(true);
    assert_eq!(f.status.as_deref(), Some("unaudited"));
    assert_eq!(f.page_size, Some(20));
    assert_eq!(f.page, None);
    let g = with_page(initial_filter(false), 3);
    assert_eq!(g.status, None);
    assert_eq!(g.page, Some(3));
    assert_eq!(voucher_tabs(true)[1].label, "凭证审核");
    assert_eq!(voucher_tabs(false)[1].label, "凭证管理");
    let fields = search_fields();
    assert_eq!(fields.len(), 5);
    assert_eq!(fields[3].key, "voucher_type");
}

#[test]
fn page_figures() {
    let items = vec![voucher("audited", "100", "100"), voucher("draft", "50", "20"), voucher("posted", "x", "5")];
    let s = page_stats(&items).unwrap();
    assert_eq!((s.count, s.audited, s.unaudited), (3, 1, 2));
    assert_eq!((s.debit, s.credit, s.difference), (150, 125, 25));
    assert_eq!(
        stats_lines(&s),
        vec!["本页 3 条", "已审核 1", "未审核 2", "借方 150 分", "贷方 125 分", "差额 25 分"]
    );
    let overflow = vec![voucher("draft", "9223372036854775807", "0"), voucher("draft", "1", "0")];
    assert!(page_stats(&overflow).is_none());
    let wide = vec![voucher("draft", "9223372036854775807", "-9223372036854775808")];
    assert!(page_stats(&wide).is_none());
}

#[test]
fn overview_sample() {
    let rows = sample_rows();
    assert_eq!(rows.len(), 5);
    assert_eq!(rows[3].no, "转-2024-06-0001");
    assert_eq!(rows[4].auditor, "—");
    assert_eq!(selection_of(&rows[0]), 0);
    assert_eq!(selection_of(&rows[4]), 4);
    assert!(starts_checked(&rows[2]));
    assert!(!starts_checked(&rows[1]));
    let (no, summary, date) = detail_heading(&rows, 2);
    assert_eq!((no.as_str(), summary.as_str(), date.as_str()), ("记-2024-06-0003", "销售商品收入", "2024-06-03"));
    let (no, _, _) = detail_heading(&rows, 7);
    assert_eq!(no, "—");
    let mut odd = rows[0].clone();
    odd.index = "x".to_string();
    assert_eq!(selection_of(&odd), 0);
    odd.index = "0".to_string();
    assert_eq!(selection_of(&odd), 0);
}

#[test]
fn overflowing_totals_are_refused_as_unbalanced() {
    let rows = vec![line("a", "9223372036854775807", "0"), line("b", "1", "0"), line("c", "0", "5")];
    let r = build_voucher_input("1".into(), "d".into(), "t".into(), "s".into(), 0, &rows);
    assert_eq!(r.unwrap_err(), EntryError::Unbalanced);
}

#[test]
fn line_ids_come_from_a_counter_and_never_repeat() {
    let mut ids = LineIds::new();
    assert_eq!((ids.draw(), ids.draw(), ids.next), (1, 2, 3));
    let mut lines = EntryLines::new();
    assert_eq!(lines.rows.iter().map(|r| r.uid).collect::<Vec<_>>(), vec![1, 2]);
    lines.remove(0);
    assert_eq!(lines.rows.len(), 2);
    lines.add();
    lines.add();
    lines.remove(1);
    lines.add();
    let uids: Vec<usize> = lines.rows.iter().map(|r| r.uid).collect();
    assert_eq!(uids, vec![1, 3, 4, 5]);
    let mut sorted = uids.clone();
    sorted.dedup();
    assert_eq!(sorted.len(), uids.len());
    lines.reset();
    assert_eq!(lines.rows.iter().map(|r| r.uid).collect::<Vec<_>>(), vec![6, 7]);
    assert_eq!(lines.ids.next, 8);
}

#[test]
fn the_answer_to_a_save() {
    let mut lines = EntryLines::new();
    lines.add();
    lines.rows[0].debit = "10".to_string();
    let out = after_save(&mut lines, Err("数据库忙".to_string()));
    assert_eq!((out.success, out.error.as_deref(), out.regenerate_no), (None, Some("数据库忙"), false));
    assert_eq!(lines.rows.len(), 3);
    assert_eq!(lines.rows[0].debit, "10");
    let out = after_save(&mut lines, Ok(voucher("unaudited", "10", "10")));
    assert_eq!(out.success.as_deref(), Some("凭证 记-1 保存成功"));
    assert!(out.error.is_none());
    assert!(out.regenerate_no);
    assert_eq!(lines.rows.iter().map(|r| (r.uid, r.debit.as_str())).collect::<Vec<_>>(), vec![(4, "0"), (5, "0")]);
}
