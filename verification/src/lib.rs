//! Verified core of the ForgeFin bookkeeping front end: the data shapes that
//! travel between the front end and the ledger backend, and every decision the
//! screens make on them (validation, filtering, highlighting, pagination,
//! totals, navigation and session state).

pub mod accounts;
pub mod answers;
pub mod audit;
pub mod balance;
pub mod columns;
pub mod contacts;
pub mod data_summary;
pub mod forms;
pub mod highlight;
pub mod imports;
pub mod ipc;
pub mod nav;
pub mod number;
pub mod pagination;
pub mod reconciliation;
pub mod record_detail;
pub mod record_table;
pub mod records;
pub mod search;
pub mod session;
pub mod shell;
pub mod text;
pub mod voucher_entry;
pub mod vouchers;
pub mod widgets;
