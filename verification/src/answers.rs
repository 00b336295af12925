//! What the screens do with the backend's answers: the notices they show,
//! the state they take over, and whether they reload a list.

use vstd::prelude::*;
use crate::data_summary::GenerateSummaryResult;
use crate::forms::{backup_notice, deleted_notice, system_backup_notice};
use crate::imports::{imported_as, mark_imported, scan_notice, RawFileInfo};
use crate::reconciliation::ReconcileResult;

verus! {

/// The requests whose failure a screen reports with a fixed lead-in.
#[derive(Clone, Copy, PartialEq, Eq, Structural, Debug)]
pub enum Failure {
    Scan,
    SelectDirectory,
    AutoImport,
    Import,
    Read,
    Generate,
    Reconcile,
    Confirm,
    Undo,
    LoadVouchers,
    LoadDiffs,
    LoadAccounts,
    LoadCompanies,
    LoadBackups,
    Load,
    VoucherNo,
}

/// The lead-in of a failure notice.
pub open spec fn failure_prefix(kind: Failure) -> Seq<char> {
    match kind {
        Failure::Scan => "扫描失败: "@,
        Failure::SelectDirectory => "选择目录失败: "@,
        Failure::AutoImport => "自动导入失败: "@,
        Failure::Import => "导入失败: "@,
        Failure::Read => "读取失败: "@,
        Failure::Generate => "生成失败: "@,
        Failure::Reconcile => "对账失败: "@,
        Failure::Confirm => "确认失败: "@,
        Failure::Undo => "撤销失败: "@,
        Failure::LoadVouchers => "加载凭证失败: "@,
        Failure::LoadDiffs => "加载差异失败: "@,
        Failure::LoadAccounts => "加载科目失败: "@,
        Failure::LoadCompanies => "加载账套失败: "@,
        Failure::LoadBackups => "加载备份失败: "@,
        Failure::Load => "加载失败: "@,
        Failure::VoucherNo => "生成凭证字号失败: "@,
    }
}

/// The notice for a failed request: its lead-in, then the backend's words.
pub fn failure_notice(kind: Failure, e: &str) -> (r: String)
    ensures
        r@ == failure_prefix(kind) + e@,
{
    let mut out = String::from_str(
        match kind {
            Failure::Scan => "扫描失败: ",
            Failure::SelectDirectory => "选择目录失败: ",
            Failure::AutoImport => "自动导入失败: ",
            Failure::Import => "导入失败: ",
            Failure::Read => "读取失败: ",
            Failure::Generate => "生成失败: ",
            Failure::Reconcile => "对账失败: ",
            Failure::Confirm => "确认失败: ",
            Failure::Undo => "撤销失败: ",
            Failure::LoadVouchers => "加载凭证失败: ",
            Failure::LoadDiffs => "加载差异失败: ",
            Failure::LoadAccounts => "加载科目失败: ",
            Failure::LoadCompanies => "加载账套失败: ",
            Failure::LoadBackups => "加载备份失败: ",
            Failure::Load => "加载失败: ",
            Failure::VoucherNo => "生成凭证字号失败: ",
        },
    );
    out.append(e);
    out
}

/// A screen's notices after an answer: a green one, a red one, or neither.
#[derive(Debug)]
pub struct Notice {
    pub info: Option<String>,
    pub error: Option<String>,
}

/// The view of an optional text.
pub open spec fn text_of(o: Option<String>) -> Option<Seq<char>> {
    match o {
        Some(s) => Some(s@),
        None => None,
    }
}

/// After a company switch: "已切换账套", or the backend's refusal.
pub fn switch_outcome(answer: Result<(), String>) -> (r: Notice)
    ensures
        match answer {
            Ok(_) => text_of(r.info) == Some("已切换账套"@) && r.error is None,
            Err(e) => r.info is None && r.error == Some(e),
        },
{
    match answer {
        Ok(_) => Notice { info: Some(String::from_str("已切换账套")), error: None },
        Err(e) => Notice { info: None, error: Some(e) },
    }
}

/// After deleting a company: the deletion notice and a reload of the lists,
/// or the backend's refusal and no reload.
pub fn delete_outcome(name: &str, answer: Result<(), String>) -> (r: (Notice, bool))
    ensures
        match answer {
            Ok(_) => text_of(r.0.info) == Some("已删除账套「"@ + name@ + "」"@) && r.0.error is None
                && r.1,
            Err(e) => r.0.info is None && r.0.error == Some(e) && !r.1,
        },
{
    match answer {
        Ok(_) => (Notice { info: Some(deleted_notice(name)), error: None }, true),
        Err(e) => (Notice { info: None, error: Some(e) }, false),
    }
}

/// After a backup of one company (or of the system database when `system`):
/// where the file went and a reload of the backup list, or the refusal.
pub fn backup_outcome(system: bool, answer: Result<String, String>) -> (r: (Notice, bool))
    ensures
        match answer {
            Ok(p) => text_of(r.0.info) == Some(
                if system {
                    "已备份系统库至: "@ + p@
                } else {
                    "已备份至: "@ + p@
                },
            ) && r.0.error is None && r.1,
            Err(e) => r.0.info is None && r.0.error == Some(e) && !r.1,
        },
{
    match answer {
        Ok(p) => {
            let m = if system {
                system_backup_notice(p.as_str())
            } else {
                backup_notice(p.as_str())
            };
            (Notice { info: Some(m), error: None }, true)
        },
        Err(e) => (Notice { info: None, error: Some(e) }, false),
    }
}

/// After a request that only succeeds or is refused (a restore, a review of
/// a difference, a save in a dialog): whether the dialog closes and the page
/// reloads, and the refusal shown otherwise.
pub fn done_or_refused<T>(answer: Result<T, String>) -> (r: (bool, Option<String>))
    ensures
        match answer {
            Ok(_) => r.0 && r.1 is None,
            Err(e) => !r.0 && r.1 == Some(e),
        },
{
    match answer {
        Ok(_) => (true, None),
        Err(e) => (false, Some(e)),
    }
}

/// Which batch request of the bank balance bar answered.
#[derive(Clone, Copy, PartialEq, Eq, Structural, Debug)]
pub enum BalanceAction {
    Confirm,
    Undo,
}

/// After confirming or undoing a batch: reload the bank flow, or report the
/// failure with the lead-in of the action.
pub fn balance_outcome(action: BalanceAction, answer: Result<(), String>) -> (r: (bool, Option<String>))
    ensures
        match answer {
            Ok(_) => r.0 && r.1 is None,
            Err(e) => !r.0 && text_of(r.1) == Some(
                failure_prefix(
                    match action {
                        BalanceAction::Confirm => Failure::Confirm,
                        BalanceAction::Undo => Failure::Undo,
                    },
                ) + e@,
            ),
        },
{
    match answer {
        Ok(_) => (true, None),
        Err(e) => {
            let kind = match action {
                BalanceAction::Confirm => Failure::Confirm,
                BalanceAction::Undo => Failure::Undo,
            };
            (false, Some(failure_notice(kind, e.as_str())))
        },
    }
}

/// After an automatic summary run: the range it covered and a reload of the
/// records, or the failure notice.
pub fn generate_outcome(answer: Result<GenerateSummaryResult, String>) -> (r: (
    Option<GenerateSummaryResult>,
    Option<String>,
    bool,
))
    ensures
        match answer {
            Ok(g) => r.0 == Some(g) && r.1 is None && r.2,
            Err(e) => r.0 is None && text_of(r.1) == Some(failure_prefix(Failure::Generate) + e@)
                && !r.2,
        },
{
    match answer {
        Ok(g) => (Some(g), None, true),
        Err(e) => (None, Some(failure_notice(Failure::Generate, e.as_str())), false),
    }
}

/// After a reconciliation run: the result to show and the switch to the
/// difference list, or the failure notice.
pub fn reconcile_outcome(answer: Result<ReconcileResult, String>) -> (r: (
    Option<ReconcileResult>,
    Option<String>,
    bool,
))
    ensures
        match answer {
            Ok(g) => r.0 == Some(g) && r.1 is None && r.2,
            Err(e) => r.0 is None && text_of(r.1) == Some(failure_prefix(Failure::Reconcile) + e@)
                && !r.2,
        },
{
    match answer {
        Ok(g) => (Some(g), None, true),
        Err(e) => (None, Some(failure_notice(Failure::Reconcile, e.as_str())), false),
    }
}

/// After asking for the next voucher number: the number to show, or the
/// failure notice with the number left as it was.
pub fn voucher_no_outcome(answer: Result<String, String>) -> (r: (Option<String>, Option<String>))
    ensures
        match answer {
            Ok(n) => r.0 == Some(n) && r.1 is None,
            Err(e) => r.0 is None && text_of(r.1) == Some(failure_prefix(Failure::VoucherNo) + e@),
        },
{
    match answer {
        Ok(n) => (Some(n), None),
        Err(e) => (None, Some(failure_notice(Failure::VoucherNo, e.as_str()))),
    }
}

/// After a directory scan: the files found (with a notice when there are
/// none), or the failure notice with the list left as it was.
pub fn scan_outcome(answer: Result<Vec<RawFileInfo>, String>) -> (r: (
    Option<Vec<RawFileInfo>>,
    Option<String>,
))
    ensures
        match answer {
            Ok(list) => r.0 == Some(list) && text_of(r.1) == (if list@.len() == 0 {
                Some("目录中未找到支持的原始凭证文件"@)
            } else {
                None
            }),
            Err(e) => r.0 is None && text_of(r.1) == Some(failure_prefix(Failure::Scan) + e@),
        },
{
    match answer {
        Ok(list) => {
            let notice = match scan_notice(list.len()) {
                Some(m) => Some(String::from_str(m)),
                None => None,
            };
            (Some(list), notice)
        },
        Err(e) => (None, Some(failure_notice(Failure::Scan, e.as_str()))),
    }
}

/// After importing one scanned file: on success every file of that name is
/// marked imported; on failure the list stays and the notice names the file.
pub fn import_one_outcome<T>(files: &mut Vec<RawFileInfo>, name: &str, answer: Result<T, String>) -> (r:
    Option<String>)
    ensures
        match answer {
            Ok(_) => r is None && final(files)@.len() == old(files)@.len() && forall|i: int|
                0 <= i < old(files)@.len() ==> imported_as(
                    old(files)@[i],
                    #[trigger] final(files)@[i],
                    name@,
                ),
            Err(e) => final(files)@ == old(files)@ && text_of(r) == Some(name@ + ": "@ + e@),
        },
{
    match answer {
        Ok(_) => {
            mark_imported(files, name);
            None
        },
        Err(e) => {
            let mut m = String::from_str(name);
            m.append(": ");
            m.append(e.as_str());
            Some(m)
        },
    }
}

} // verus!
