//! The application shell: which screens are up while the session loads,
//! which page a menu entry opens, and the status line of the project record
//! form.

use vstd::prelude::*;
use crate::nav::NavKey;
use crate::number::dec_int;

verus! {

/// The screens the root shows: the loading screen, the login page, the
/// main shell. The loading screen is up while the session loads; once it
/// has loaded, the login page shows without a user and the main shell with
/// one.
pub fn root_screens(loading: bool, logged_in: bool) -> (r: (bool, bool, bool))
    ensures
        r.0 == loading,
        r.1 == (!loading && !logged_in),
        r.2 == (!loading && logged_in),
{
    (loading, !loading && !logged_in, !loading && logged_in)
}

/// The pages the main area can show.
#[derive(Clone, Copy, PartialEq, Eq, Structural, Debug)]
pub enum Page {
    NoCompany,
    Dashboard,
    VoucherList,
    VoucherAudit,
    VoucherEntry,
    Contacts,
    GeneralLedger,
    Settings,
    Placeholder,
}

/// The page a menu entry opens; without a company only the notice that
/// asks for one.
pub open spec fn page_spec(key: NavKey, has_company: bool) -> Page {
    if !has_company {
        Page::NoCompany
    } else {
        match key {
            NavKey::Home => Page::Dashboard,
            NavKey::VoucherManagement | NavKey::VoucherQuery => Page::VoucherList,
            NavKey::VoucherEntry => Page::VoucherEntry,
            NavKey::VoucherAudit => Page::VoucherAudit,
            NavKey::AccountsReceivable | NavKey::AccountsPayable => Page::Contacts,
            NavKey::GeneralLedger => Page::GeneralLedger,
            NavKey::SystemSettings => Page::Settings,
            _ => Page::Placeholder,
        }
    }
}

/// The page for the active menu entry.
pub fn page_for(key: NavKey, has_company: bool) -> (r: Page)
    ensures
        r == page_spec(key, has_company),
{
    if !has_company {
        return Page::NoCompany;
    }
    match key {
        NavKey::Home => Page::Dashboard,
        NavKey::VoucherManagement | NavKey::VoucherQuery => Page::VoucherList,
        NavKey::VoucherEntry => Page::VoucherEntry,
        NavKey::VoucherAudit => Page::VoucherAudit,
        NavKey::AccountsReceivable | NavKey::AccountsPayable => Page::Contacts,
        NavKey::GeneralLedger => Page::GeneralLedger,
        NavKey::SystemSettings => Page::Settings,
        _ => Page::Placeholder,
    }
}

/// The title of the page that is still to be built, for the entries that
/// open one.
pub fn placeholder_title(key: NavKey) -> (r: Option<&'static str>)
    ensures
        match r {
            Some(t) => page_spec(key, true) == Page::Placeholder && t@ == (match key {
                NavKey::AccountBalance => "科目余额"@,
                NavKey::DetailedLedger => "明细账"@,
                NavKey::TrialBalance => "试算平衡表"@,
                NavKey::ReportCenter => "报表中心"@,
                NavKey::FixedAssets => "固定资产"@,
                NavKey::CashierManagement => "出纳管理"@,
                NavKey::BudgetManagement => "预算管理"@,
                _ => "税务管理"@,
            }),
            None => page_spec(key, true) != Page::Placeholder,
        },
{
    match key {
        NavKey::AccountBalance => Some("科目余额"),
        NavKey::DetailedLedger => Some("明细账"),
        NavKey::TrialBalance => Some("试算平衡表"),
        NavKey::ReportCenter => Some("报表中心"),
        NavKey::FixedAssets => Some("固定资产"),
        NavKey::CashierManagement => Some("出纳管理"),
        NavKey::BudgetManagement => Some("预算管理"),
        NavKey::TaxManagement => Some("税务管理"),
        _ => None,
    }
}

/// The answer to a project record submission.
#[derive(Clone, Debug)]
pub struct ProjectRecordResponse {
    pub voucher_id: i64,
    pub status: String,
}

/// The status line of the project record form after a submission.
pub fn project_record_status(res: &Result<ProjectRecordResponse, String>) -> (r: String)
    ensures
        r@ == (match *res {
            Ok(v) => "Success! Voucher ID: "@ + dec_int(v.voucher_id as int),
            Err(e) => "Error: "@ + e@,
        }),
{
    match res {
        Ok(v) => {
            let mut out = String::from_str("Success! Voucher ID: ");
            let n = crate::number::fmt_i64(v.voucher_id);
            out.append(n.as_str());
            out
        },
        Err(e) => {
            let mut out = String::from_str("Error: ");
            out.append(e.as_str());
            out
        },
    }
}

} // verus!
