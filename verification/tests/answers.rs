use forgefin::answers::{
    backup_outcome, balance_outcome, delete_outcome, done_or_refused, failure_notice,
    generate_outcome, import_one_outcome, reconcile_outcome, scan_outcome, switch_outcome,
    voucher_no_outcome, BalanceAction, Failure,
};
use forgefin::balance::batch_choice;
use forgefin::data_summary::GenerateSummaryResult;
use forgefin::imports::RawFileInfo;
use forgefin::reconciliation::ReconcileResult;

fn file(name: &str, status: &str) -> RawFileInfo {
    RawFileInfo {
        file_name: name.to_string(),
        file_path: format!("/d/{name}"),
        source_type: "bank_flow".to_string(),
        row_count: 1,
        status: status.to_string(),
    }
}

#[test]
fn failure_notices_lead_with_the_request() {
    assert_eq!(failure_notice(Failure::Scan, "无权限"), "扫描失败: 无权限");
    assert_eq!(failure_notice(Failure::LoadBackups, "x"), "加载备份失败: x");
    assert_eq!(failure_notice(Failure::Read, ""), "读取失败: ");
}

#[test]
fn company_answers() {
    let n = switch_outcome(Ok(()));
    assert_eq!((n.info.as_deref(), n.error), (Some("已切换账套"), None));
    let n = switch_outcome(Err("no".to_string()));
    assert_eq!((n.info, n.error.as_deref()), (None, Some("no")));
    let (n, reload) = delete_outcome("甲公司", Ok(()));
    assert_eq!((n.info.as_deref(), reload), (Some("已删除账套「甲公司」"), true));
    let (n, reload) = delete_outcome("甲公司", Err("在用".to_string()));
    assert_eq!((n.error.as_deref(), reload), (Some("在用"), false));
    let (n, reload) = backup_outcome(false, Ok("/b/1.db".to_string()));
    assert_eq!((n.info.as_deref(), reload), (Some("已备份至: /b/1.db"), true));
    let (n, _) = backup_outcome(true, Ok("/b/s.db".to_string()));
    assert_eq!(n.info.as_deref(), Some("已备份系统库至: /b/s.db"));
    assert_eq!(done_or_refused::<()>(Ok(())), (true, None));
    assert_eq!(done_or_refused::<i32>(Err("bad".to_string())), (false, Some("bad".to_string())));
}

#[test]
fn bank_balance_answers() {
    assert_eq!(balance_outcome(BalanceAction::Confirm, Ok(())), (true, None));
    assert_eq!(
        balance_outcome(BalanceAction::Confirm, Err("e".to_string())),
        (false, Some("确认失败: e".to_string()))
    );
    assert_eq!(
        balance_outcome(BalanceAction::Undo, Err("e".to_string())),
        (false, Some("撤销失败: e".to_string()))
    );
    assert_eq!(batch_choice(Some(3), "7"), Some(7));
    assert_eq!(batch_choice(Some(3), "x"), Some(3));
    assert_eq!(batch_choice(None, ""), None);
}

#[test]
fn run_answers() {
    let g = GenerateSummaryResult { date_from: "a".to_string(), date_to: "b".to_string() };
    let (r, e, reload) = generate_outcome(Ok(g));
    assert_eq!((r.map(|x| x.date_to), e, reload), (Some("b".to_string()), None, true));
    let (r, e, reload) = generate_outcome(Err("x".to_string()));
    assert!(r.is_none());
    assert_eq!((e.as_deref(), reload), (Some("生成失败: x"), false));
    let rr = ReconcileResult { matched_dates: vec![], diff_dates: vec!["d".to_string()] };
    let (r, e, switch) = reconcile_outcome(Ok(rr));
    assert_eq!((r.map(|x| x.diff_dates.len()), e, switch), (Some(1), None, true));
    let (_, e, switch) = reconcile_outcome(Err("x".to_string()));
    assert_eq!((e.as_deref(), switch), (Some("对账失败: x"), false));
}

#[test]
fn import_answers() {
    let (files, notice) = scan_outcome(Ok(vec![]));
    assert_eq!(files.map(|f| f.len()), Some(0));
    assert_eq!(notice.as_deref(), Some("目录中未找到支持的原始凭证文件"));
    let (files, notice) = scan_outcome(Ok(vec![file("a", "pending")]));
    assert_eq!((files.map(|f| f.len()), notice), (Some(1), None));
    let (files, notice) = scan_outcome(Err("x".to_string()));
    assert!(files.is_none());
    assert_eq!(notice.as_deref(), Some("扫描失败: x"));
    let mut list = vec![file("a", "pending"), file("b", "pending")];
    assert_eq!(import_one_outcome::<()>(&mut list, "b", Ok(())), None);
    assert_eq!(list[1].status, "imported");
    assert_eq!(list[0].status, "pending");
    assert_eq!(import_one_outcome::<()>(&mut list, "a", Err("坏文件".to_string())).as_deref(), Some("a: 坏文件"));
    assert_eq!(list[0].status, "pending");
}

#[test]
fn voucher_number_answers() {
    assert_eq!(voucher_no_outcome(Ok("记-0003".to_string())), (Some("记-0003".to_string()), None));
    assert_eq!(
        voucher_no_outcome(Err("db locked".to_string())),
        (None, Some("生成凭证字号失败: db locked".to_string()))
    );
    assert_eq!(failure_notice(Failure::VoucherNo, "x"), "生成凭证字号失败: x");
}
