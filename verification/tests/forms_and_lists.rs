use forgefin::balance::{
    all_pass, batch_option_label, batch_stats, confirm_disabled, has_mismatch, is_all_confirmed,
    mismatch_notice, shown_batch, stats_of, BatchStats,
};
use forgefin::columns::{columns_or_default, default_columns, ColumnVisibility};
use forgefin::contacts::{filter_contacts, passes_filter, ContactForm};
use forgefin::forms::{
    backup_notice, backup_size_kb, company_initial, deleted_notice, indent_width, is_current_company,
    login_error, opt_str, parent_choice, parent_option_label, restore_target_error, save_label,
    system_backup_notice, account_save_call, company_save_call, contact_save_call, AccountForm,
    CompanyForm, SaveCall,
};
use forgefin::ipc::{Account, Company, Contact, RawRecord};

fn contact(code: &str, name: &str, kind: &str, tax: Option<&str>) -> Contact {
    Contact {
        id: code.to_string(),
        code: code.to_string(),
        name: name.to_string(),
        contact_type: kind.to_string(),
        tax_id: tax.map(|t| t.to_string()),
        bank_account: None,
        bank_name: None,
        address: Some("  ".to_string()),
        phone: Some("010-1".to_string()),
        email: None,
        remark: None,
        is_active: true,
        created_at: String::new(),
        updated_at: String::new(),
    }
}

fn bank_row(id: i64, batch: i64, check: Option<&str>, confirmed: bool) -> RawRecord {
    RawRecord {
        id,
        import_batch_id: batch,
        source_type: "bank_flow".to_string(),
        source_type_name: "银行流水".to_string(),
        source_file_name: "b.tsv".to_string(),
        source_row_no: id,
        record_no: None,
        record_date: None,
        amount_total: None,
        balance: None,
        counterpart_info: None,
        summary: None,
        currency: "CNY".to_string(),
        status: "pending".to_string(),
        balance_check_status: check.map(|c| c.to_string()),
        balance_confirmed_at: if confirmed { Some("t".to_string()) } else { None },
    }
}

#[test]
fn blank_optional_fields_are_left_out() {
    assert_eq!(opt_str(" \t".to_string()), None);
    assert_eq!(opt_str(" a ".to_string()), Some(" a ".to_string()));
    assert_eq!(parent_choice(String::new()), None);
    assert_eq!(parent_choice("p".to_string()), Some("p".to_string()));
}

#[test]
fn company_dialog() {
    let blank = CompanyForm::blank();
    assert_eq!(blank.currency, "CNY");
    assert!(blank.is_active);
    let c = Company {
        id: "c1".to_string(),
        name: "甲公司".to_string(),
        tax_id: Some("9111".to_string()),
        legal_person: None,
        address: Some("   ".to_string()),
        phone: None,
        currency: "USD".to_string(),
        is_active: false,
        created_at: String::new(),
        updated_at: String::new(),
    };
    let f = CompanyForm::from_company(&c);
    assert_eq!(f.tax_id, "9111");
    assert_eq!(f.address, "   ");
    let input = f.to_input();
    assert_eq!(input.name, "甲公司");
    assert_eq!(input.tax_id, c.tax_id);
    assert_eq!(input.legal_person, c.legal_person);
    // A blank text that was stored comes back as absent.
    assert_eq!(input.address, None);
    assert_eq!(input.currency.as_deref(), Some("USD"));
    assert_eq!(input.is_active, Some(false));
}

#[test]
fn account_dialog() {
    let blank = AccountForm::blank();
    assert_eq!((blank.account_type.as_str(), blank.balance_direction.as_str()), ("asset", "auto"));
    let a = Account {
        id: "a".to_string(),
        code: "1001".to_string(),
        name: "库存现金".to_string(),
        parent_id: Some("p".to_string()),
        account_type: "asset".to_string(),
        balance_direction: "debit".to_string(),
        is_leaf: true,
        is_active: true,
        description: Some(" ".to_string()),
        created_at: String::new(),
        updated_at: String::new(),
    };
    let input = AccountForm::from_account(&a).to_input();
    assert_eq!(input.parent_id.as_deref(), Some("p"));
    assert_eq!(input.balance_direction.as_deref(), Some("debit"));
    // Only an empty description is left out; a space is kept.
    assert_eq!(input.description.as_deref(), Some(" "));
    let mut f = AccountForm::blank();
    f.description = String::new();
    assert_eq!(f.to_input().description, None);
    assert_eq!(parent_option_label(&a), "1001 · 库存现金");
    assert_eq!(indent_width(0), 18);
    assert_eq!(indent_width(2), 58);
}

#[test]
fn login_and_restore_checks() {
    assert_eq!(login_error(" ", "pw"), Some("请输入用户名和密码"));
    assert_eq!(login_error("zhang", ""), Some("请输入用户名和密码"));
    assert_eq!(login_error("zhang", " "), None);
    assert_eq!(restore_target_error(""), Some("请输入目标账套 ID"));
    assert_eq!(restore_target_error(" "), None);
}

#[test]
fn company_page_notices() {
    assert_eq!(deleted_notice("甲公司"), "已删除账套「甲公司」");
    assert_eq!(backup_notice("/b/1.db"), "已备份至: /b/1.db");
    assert_eq!(system_backup_notice("/b/s.db"), "已备份系统库至: /b/s.db");
    assert_eq!(backup_size_kb(2048), 2);
    assert_eq!(backup_size_kb(1023), 0);
    assert_eq!(backup_size_kb(-1500), -1);
    assert!(is_current_company(&Some("c1".to_string()), "c1"));
    assert!(!is_current_company(&None, "c1"));
    assert_eq!(company_initial("乙公司"), '乙');
    assert_eq!(company_initial(""), '?');
    assert_eq!(save_label(true), "保存中…");
}

#[test]
fn contact_filter() {
    let list = vec![
        contact("C001", "北京客户", "customer", Some("91110")),
        contact("V001", "上海供应商", "vendor", None),
        contact("C002", "天津客户", "customer", None),
    ];
    let codes = |v: Vec<Contact>| v.iter().map(|c| c.code.clone()).collect::<Vec<_>>();
    assert_eq!(codes(filter_contacts(&list, &None, "")), vec!["C001", "V001", "C002"]);
    assert_eq!(codes(filter_contacts(&list, &Some("customer".to_string()), "")), vec!["C001", "C002"]);
    assert_eq!(codes(filter_contacts(&list, &None, "客户")), vec!["C001", "C002"]);
    assert_eq!(codes(filter_contacts(&list, &None, "V0")), vec!["V001"]);
    assert_eq!(codes(filter_contacts(&list, &None, "9111")), vec!["C001"]);
    assert_eq!(codes(filter_contacts(&list, &Some("vendor".to_string()), "北京")), Vec::<String>::new());
    assert!(!passes_filter(&list[0], &None, "c001"));
}

#[test]
fn contact_dialog() {
    let blank = ContactForm::blank();
    assert_eq!(blank.contact_type, "customer");
    let c = contact("C001", "北京客户", "customer", Some("91110"));
    let input = ContactForm::from_contact(&c).to_input();
    assert_eq!(input.tax_id.as_deref(), Some("91110"));
    assert_eq!(input.address, None);
    assert_eq!(input.phone.as_deref(), Some("010-1"));
    assert_eq!(input.is_active, Some(true));
}

#[test]
fn balance_bar_batches() {
    let mut rows = vec![
        bank_row(1, 7, Some("ok"), false),
        bank_row(2, 3, Some("mismatch"), false),
        bank_row(3, 7, Some("mismatch"), true),
        bank_row(4, 3, None, false),
    ];
    rows.push({
        let mut r = bank_row(5, 1, Some("mismatch"), false);
        r.source_type = "order_flow".to_string();
        r
    });
    let stats = batch_stats(&rows);
    assert_eq!(
        stats,
        vec![
            BatchStats { batch_id: 3, total: 2, mismatch: 1, confirmed_count: 0 },
            BatchStats { batch_id: 7, total: 2, mismatch: 1, confirmed_count: 1 },
        ]
    );
    assert_eq!(shown_batch(&stats, None), Some(3));
    assert_eq!(shown_batch(&stats, Some(7)), Some(7));
    assert_eq!(shown_batch(&stats, Some(99)), Some(3));
    assert_eq!(shown_batch(&vec![], Some(7)), None);
    let s7 = stats_of(&stats, Some(7));
    assert!(is_all_confirmed(s7));
    assert!(!is_all_confirmed(stats_of(&stats, Some(3))));
    assert!(confirm_disabled(true, s7));
    assert!(!confirm_disabled(false, stats_of(&stats, Some(3))));
    assert!(confirm_disabled(false, None));
    assert!(has_mismatch(&stats[0]));
    assert!(!all_pass(&stats[0]));
    assert!(all_pass(&BatchStats { batch_id: 1, total: 3, mismatch: 0, confirmed_count: 0 }));
    assert_eq!(batch_option_label(&stats[0]), "批次 3 · 共 2 行 · 余额不平 1 行");
    assert_eq!(mismatch_notice(&stats[1]), "该批次有 1 行余额不平");
}

#[test]
fn toggling_a_column_twice_restores_it() {
    let mut c: ColumnVisibility = default_columns();
    c.toggle_column("summary");
    assert_eq!(c.get("summary"), Some(false));
    c.toggle_column("summary");
    assert_eq!(c.get("summary"), Some(true));
    assert_eq!(c.get("source_row_no"), Some(false));
    let mut fresh = ColumnVisibility::new();
    assert_eq!(fresh.get("extra"), None);
    assert!(fresh.shown_or("extra", true));
    fresh.toggle_column("extra");
    assert_eq!(fresh.get("extra"), Some(false));
    fresh.toggle_column("extra");
    assert_eq!(fresh.get("extra"), Some(true));
    assert_eq!(fresh.visible_count(), 1);
}

#[test]
fn dialog_save_requests() {
    let a = Account {
        id: "acc-7".to_string(),
        code: "1002".to_string(),
        name: "银行存款".to_string(),
        parent_id: None,
        account_type: "asset".to_string(),
        balance_direction: "debit".to_string(),
        is_leaf: true,
        is_active: true,
        description: None,
        created_at: String::new(),
        updated_at: String::new(),
    };
    assert!(matches!(account_save_call(&Some(a)), SaveCall::Update(id) if id == "acc-7"));
    assert!(matches!(account_save_call(&None), SaveCall::Create));
    let c = contact("V01", "供应商", "vendor", None);
    assert!(matches!(contact_save_call(&Some(c)), SaveCall::Update(id) if id == "V01"));
    assert!(matches!(contact_save_call(&None), SaveCall::Create));
    let co = Company {
        id: "co-2".to_string(),
        name: "乙公司".to_string(),
        tax_id: None,
        legal_person: None,
        address: None,
        phone: None,
        currency: "CNY".to_string(),
        is_active: true,
        created_at: String::new(),
        updated_at: String::new(),
    };
    assert!(matches!(company_save_call(&Some(co)), SaveCall::Update(id) if id == "co-2"));
    assert!(matches!(company_save_call(&None), SaveCall::Create));
}

#[test]
fn column_settings_fall_back_to_defaults() {
    let mut kept = default_columns();
    kept.toggle_column("summary");
    let got = columns_or_default(Ok(kept));
    assert_eq!(got.get("summary"), Some(false));
    let fallback = columns_or_default(Err("no table".to_string()));
    assert_eq!(fallback.get("summary"), Some(true));
    assert_eq!(fallback.get("source_file_name"), Some(false));
    assert_eq!(fallback.get("source_row_no"), Some(false));
    assert_eq!(fallback.visible_count(), 8);
}
