//! The records exchanged with the ledger backend.

use vstd::prelude::*;

verus! {

/// A signed-in user as the backend reports it.
#[derive(Clone, Debug)]
pub struct UserInfo {
    pub id: String,
    pub username: String,
    pub display_name: String,
    pub department: Option<String>,
    pub is_admin: bool,
}

/// The id and name of a company (ledger set) a user may open.
#[derive(Clone, Debug)]
pub struct CompanyBrief {
    pub id: String,
    pub name: String,
}

/// The answer to a successful login: the user and the companies open to them.
#[derive(Clone, Debug)]
pub struct AuthResult {
    pub user: UserInfo,
    pub companies: Vec<CompanyBrief>,
}

/// The session the backend still holds: user, selected company, accessible companies.
#[derive(Clone, Debug)]
pub struct CurrentUser {
    pub user: Option<UserInfo>,
    pub company_id: Option<String>,
    pub available_companies: Vec<CompanyBrief>,
}

/// A company (ledger set) with its registration details.
#[derive(Clone, Debug)]
pub struct Company {
    pub id: String,
    pub name: String,
    pub tax_id: Option<String>,
    pub legal_person: Option<String>,
    pub address: Option<String>,
    pub phone: Option<String>,
    pub currency: String,
    pub is_active: bool,
    pub created_at: String,
    pub updated_at: String,
}

/// The fields a company form sends to create or update a company.
#[derive(Clone, Debug)]
pub struct CompanyInput {
    pub name: String,
    pub tax_id: Option<String>,
    pub legal_person: Option<String>,
    pub address: Option<String>,
    pub phone: Option<String>,
    pub currency: Option<String>,
    pub is_active: Option<bool>,
}

/// A ledger account of the chart of accounts.
#[derive(Debug)]
pub struct Account {
    pub id: String,
    pub code: String,
    pub name: String,
    pub parent_id: Option<String>,
    pub account_type: String,
    pub balance_direction: String,
    pub is_leaf: bool,
    pub is_active: bool,
    pub description: Option<String>,
    pub created_at: String,
    pub updated_at: String,
}

/// The fields an account form sends to create or update an account.
#[derive(Clone, Debug)]
pub struct AccountInput {
    pub code: String,
    pub name: String,
    pub parent_id: Option<String>,
    pub account_type: String,
    pub balance_direction: Option<String>,
    pub is_active: Option<bool>,
    pub description: Option<String>,
}

/// A customer or vendor.
#[derive(Debug)]
pub struct Contact {
    pub id: String,
    pub code: String,
    pub name: String,
    pub contact_type: String,
    pub tax_id: Option<String>,
    pub bank_account: Option<String>,
    pub bank_name: Option<String>,
    pub address: Option<String>,
    pub phone: Option<String>,
    pub email: Option<String>,
    pub remark: Option<String>,
    pub is_active: bool,
    pub created_at: String,
    pub updated_at: String,
}

/// The fields a contact form sends to create or update a contact.
#[derive(Clone, Debug)]
pub struct ContactInput {
    pub code: String,
    pub name: String,
    pub contact_type: String,
    pub tax_id: Option<String>,
    pub bank_account: Option<String>,
    pub bank_name: Option<String>,
    pub address: Option<String>,
    pub phone: Option<String>,
    pub email: Option<String>,
    pub remark: Option<String>,
    pub is_active: Option<bool>,
}

/// A bookkeeping voucher header; amounts are decimal texts in cents.
#[derive(Clone, Debug)]
pub struct Voucher {
    pub id: String,
    pub voucher_no: String,
    pub voucher_date: String,
    pub voucher_type: String,
    pub summary: String,
    pub attachments: i32,
    pub status: String,
    pub debit_total: String,
    pub credit_total: String,
    pub operator_id: Option<String>,
    pub operator_name: Option<String>,
    pub auditor_id: Option<String>,
    pub auditor_name: Option<String>,
    pub audited_at: Option<String>,
    pub created_at: String,
    pub updated_at: String,
}

/// One line of a stored voucher.
#[derive(Clone, Debug)]
pub struct VoucherEntry {
    pub id: String,
    pub voucher_id: String,
    pub line_no: i32,
    pub account_id: String,
    pub account_code: String,
    pub account_name: String,
    pub summary: Option<String>,
    pub debit: String,
    pub credit: String,
    pub contact_id: Option<String>,
    pub contact_name: Option<String>,
    pub created_at: String,
}

/// One line of a voucher to be saved; amounts are decimal texts in cents.
#[derive(Clone, Debug)]
pub struct VoucherEntryInput {
    pub account_id: String,
    pub account_code: String,
    pub account_name: String,
    pub summary: Option<String>,
    pub debit: String,
    pub credit: String,
    pub contact_id: Option<String>,
    pub contact_name: Option<String>,
}

/// A voucher to be saved with its lines.
#[derive(Clone, Debug)]
pub struct VoucherInput {
    pub voucher_no: String,
    pub voucher_date: String,
    pub voucher_type: String,
    pub summary: String,
    pub attachments: Option<i32>,
    pub operator_id: Option<String>,
    pub operator_name: Option<String>,
    pub entries: Vec<VoucherEntryInput>,
}

/// The query of the voucher list: date range, number, type, status and page.
#[derive(Clone, Debug)]
pub struct VoucherFilter {
    pub date_from: Option<String>,
    pub date_to: Option<String>,
    pub voucher_no: Option<String>,
    pub voucher_type: Option<String>,
    pub status: Option<String>,
    pub page: Option<i32>,
    pub page_size: Option<i32>,
}

/// One page of the voucher list.
#[derive(Clone, Debug)]
pub struct VoucherPage {
    pub items: Vec<Voucher>,
    pub total: i32,
    pub page: i32,
    pub page_size: i32,
}

/// A voucher with its lines and audit trail.
#[derive(Clone, Debug)]
pub struct VoucherDetail {
    pub voucher: Voucher,
    pub entries: Vec<VoucherEntry>,
    pub audit_logs: Vec<AuditLog>,
}

/// One audit action recorded on a voucher.
#[derive(Clone, Debug)]
pub struct AuditLog {
    pub id: String,
    pub voucher_id: String,
    pub action: String,
    pub operator_id: Option<String>,
    pub operator_name: Option<String>,
    pub comment: Option<String>,
    pub created_at: String,
}

/// A backup file the backend can restore from.
#[derive(Clone, Debug)]
pub struct BackupEntry {
    pub path: String,
    pub name: String,
    pub size: i64,
    pub modified: i64,
}

/// One imported source record (bank flow, order flow, POS flow, summary or
/// chat record) as the record tables show it; amounts and dates are texts.
#[derive(Debug)]
pub struct RawRecord {
    pub id: i64,
    pub import_batch_id: i64,
    pub source_type: String,
    pub source_type_name: String,
    pub source_file_name: String,
    pub source_row_no: i64,
    pub record_no: Option<String>,
    pub record_date: Option<String>,
    pub amount_total: Option<String>,
    pub balance: Option<String>,
    pub counterpart_info: Option<String>,
    pub summary: Option<String>,
    pub currency: String,
    pub status: String,
    pub balance_check_status: Option<String>,
    pub balance_confirmed_at: Option<String>,
}

} // verus!
