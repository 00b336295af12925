//! The edit dialogs of companies and accounts, the login form and the
//! company management page: what a dialog starts with, the record it sends,
//! the checks before a request and the notices after one.

use vstd::prelude::*;
use crate::ipc::{Account, AccountInput, Company, CompanyInput, Contact};
use crate::pagination::trunc_div;
use crate::records::clone_opt_string;
use crate::text::{is_blank, is_blank_seq, non_empty, opt_text, or_empty};

verus! {

/// An entered optional text: none when it is blank (empty or whitespace only),
/// else the text as entered.
pub fn opt_str(s: String) -> (r: Option<String>)
    ensures
        match r {
            Some(t) => !is_blank_seq(s@) && t@ == s@,
            None => is_blank_seq(s@),
        },
{
    if is_blank(s.as_str()) {
        None
    } else {
        Some(s)
    }
}

/// What `opt_str` gives, over views.
pub open spec fn opt_str_spec(s: Seq<char>) -> Option<Seq<char>> {
    if is_blank_seq(s) {
        None
    } else {
        Some(s)
    }
}

/// The view of an optional text, absent read as empty (`unwrap_or_default`).
pub open spec fn text_or_empty(o: Option<String>) -> Seq<char> {
    match o {
        Some(s) => s@,
        None => Seq::empty(),
    }
}

/// An optional field opened in a dialog and saved unchanged is sent as it
/// was, unless it held a blank text (which is sent as absent).
pub proof fn law_unchanged_field_round_trip(o: Option<String>)
    requires
        match o {
            Some(s) => !is_blank_seq(s@),
            None => true,
        },
    ensures
        opt_str_spec(text_or_empty(o)) == opt_text(o),
{
    if o is None {
        assert(is_blank_seq(Seq::<char>::empty()));
    }
}

/// The fields of the company dialog.
#[derive(Clone, Debug)]
pub struct CompanyForm {
    pub name: String,
    pub tax_id: String,
    pub legal_person: String,
    pub address: String,
    pub phone: String,
    pub currency: String,
    pub is_active: bool,
}

impl CompanyForm {
    /// The dialog for a new company: empty, in CNY, active.
    pub fn blank() -> (r: Self)
        ensures
            r.name@.len() == 0,
            r.tax_id@.len() == 0,
            r.legal_person@.len() == 0,
            r.address@.len() == 0,
            r.phone@.len() == 0,
            r.currency@ == "CNY"@,
            r.is_active,
    {
        CompanyForm {
            name: String::new(),
            tax_id: String::new(),
            legal_person: String::new(),
            address: String::new(),
            phone: String::new(),
            currency: String::from_str("CNY"),
            is_active: true,
        }
    }

    /// The dialog for an existing company: its fields, absent ones empty.
    pub fn from_company(c: &Company) -> (r: Self)
        ensures
            r.name@ == c.name@,
            r.tax_id@ == text_or_empty(c.tax_id),
            r.legal_person@ == text_or_empty(c.legal_person),
            r.address@ == text_or_empty(c.address),
            r.phone@ == text_or_empty(c.phone),
            r.currency@ == c.currency@,
            r.is_active == c.is_active,
    {
        CompanyForm {
            name: c.name.clone(),
            tax_id: or_empty(&c.tax_id),
            legal_person: or_empty(&c.legal_person),
            address: or_empty(&c.address),
            phone: or_empty(&c.phone),
            currency: c.currency.clone(),
            is_active: c.is_active,
        }
    }

    /// The record the dialog saves: blank optional fields are left out, the
    /// currency and the active flag are always sent.
    pub fn to_input(&self) -> (r: CompanyInput)
        ensures
            r.name@ == self.name@,
            opt_text(r.tax_id) == opt_str_spec(self.tax_id@),
            opt_text(r.legal_person) == opt_str_spec(self.legal_person@),
            opt_text(r.address) == opt_str_spec(self.address@),
            opt_text(r.phone) == opt_str_spec(self.phone@),
            opt_text(r.currency) == Some(self.currency@),
            r.is_active == Some(self.is_active),
    {
        CompanyInput {
            name: self.name.clone(),
            tax_id: opt_str(self.tax_id.clone()),
            legal_person: opt_str(self.legal_person.clone()),
            address: opt_str(self.address.clone()),
            phone: opt_str(self.phone.clone()),
            currency: Some(self.currency.clone()),
            is_active: Some(self.is_active),
        }
    }
}

/// The fields of the account dialog.
#[derive(Clone, Debug)]
pub struct AccountForm {
    pub code: String,
    pub name: String,
    pub parent_id: Option<String>,
    pub account_type: String,
    pub balance_direction: String,
    pub is_active: bool,
    pub description: String,
}

impl AccountForm {
    /// The dialog for a new account: a top-level asset account whose balance
    /// side follows its type, active.
    pub fn blank() -> (r: Self)
        ensures
            r.code@.len() == 0,
            r.name@.len() == 0,
            r.parent_id is None,
            r.account_type@ == "asset"@,
            r.balance_direction@ == "auto"@,
            r.is_active,
            r.description@.len() == 0,
    {
        AccountForm {
            code: String::new(),
            name: String::new(),
            parent_id: None,
            account_type: String::from_str("asset"),
            balance_direction: String::from_str("auto"),
            is_active: true,
            description: String::new(),
        }
    }

    /// The dialog for an existing account.
    pub fn from_account(a: &Account) -> (r: Self)
        ensures
            r.code@ == a.code@,
            r.name@ == a.name@,
            opt_text(r.parent_id) == opt_text(a.parent_id),
            r.account_type@ == a.account_type@,
            r.balance_direction@ == a.balance_direction@,
            r.is_active == a.is_active,
            r.description@ == text_or_empty(a.description),
    {
        AccountForm {
            code: a.code.clone(),
            name: a.name.clone(),
            parent_id: clone_opt_string(&a.parent_id),
            account_type: a.account_type.clone(),
            balance_direction: a.balance_direction.clone(),
            is_active: a.is_active,
            description: or_empty(&a.description),
        }
    }

    /// The record the dialog saves: an empty description is left out.
    pub fn to_input(&self) -> (r: AccountInput)
        ensures
            r.code@ == self.code@,
            r.name@ == self.name@,
            opt_text(r.parent_id) == opt_text(self.parent_id),
            r.account_type@ == self.account_type@,
            opt_text(r.balance_direction) == Some(self.balance_direction@),
            r.is_active == Some(self.is_active),
            opt_text(r.description) == (if self.description@.len() == 0 {
                None
            } else {
                Some(self.description@)
            }),
    {
        AccountInput {
            code: self.code.clone(),
            name: self.name.clone(),
            parent_id: clone_opt_string(&self.parent_id),
            account_type: self.account_type.clone(),
            balance_direction: Some(self.balance_direction.clone()),
            is_active: Some(self.is_active),
            description: non_empty(self.description.clone()),
        }
    }
}

/// The parent chosen in the account dialog: the empty choice means none.
pub fn parent_choice(value: String) -> (r: Option<String>)
    ensures
        opt_text(r) == (if value@.len() == 0 {
            None
        } else {
            Some(value@)
        }),
{
    non_empty(value)
}

/// The text of a parent account in the dialog's list: `code · name`.
pub fn parent_option_label(a: &Account) -> (r: String)
    ensures
        r@ == a.code@ + " · "@ + a.name@,
{
    let mut out = a.code.clone();
    out.append(" · ");
    out.append(a.name.as_str());
    out
}

/// The width of the indent before an account code at a tree depth.
pub fn indent_width(depth: usize) -> (r: usize)
    requires
        18 + depth * 20 <= usize::MAX,
    ensures
        r == 18 + depth * 20,
{
    18 + depth * 20
}

/// The refusal of the login form: a blank user name or an empty password.
pub fn login_error(username: &str, password: &str) -> (r: Option<&'static str>)
    ensures
        match r {
            Some(m) => (is_blank_seq(username@) || password@.len() == 0) && m@ == "请输入用户名和密码"@,
            None => !is_blank_seq(username@) && password@.len() > 0,
        },
{
    if is_blank(username) || password.unicode_len() == 0 {
        Some("请输入用户名和密码")
    } else {
        None
    }
}

/// The refusal of a restore: the target company id must be entered.
pub fn restore_target_error(target: &str) -> (r: Option<&'static str>)
    ensures
        match r {
            Some(m) => target@.len() == 0 && m@ == "请输入目标账套 ID"@,
            None => target@.len() > 0,
        },
{
    if target.unicode_len() == 0 {
        Some("请输入目标账套 ID")
    } else {
        None
    }
}

/// The notice after a company is deleted: `已删除账套「name」`.
pub fn deleted_notice(name: &str) -> (r: String)
    ensures
        r@ == "已删除账套「"@ + name@ + "」"@,
{
    let mut out = String::from_str("已删除账套「");
    out.append(name);
    out.append("」");
    out
}

/// The notice after a company is backed up: `已备份至: path`.
pub fn backup_notice(path: &str) -> (r: String)
    ensures
        r@ == "已备份至: "@ + path@,
{
    let mut out = String::from_str("已备份至: ");
    out.append(path);
    out
}

/// The notice after the system database is backed up.
pub fn system_backup_notice(path: &str) -> (r: String)
    ensures
        r@ == "已备份系统库至: "@ + path@,
{
    let mut out = String::from_str("已备份系统库至: ");
    out.append(path);
    out
}

/// The size of a backup file in KiB, as `size / 1024` (rounded toward zero).
pub fn backup_size_kb(size: i64) -> (r: i64)
    ensures
        r as int == trunc_div(size as int, 1024),
{
    let a: i128 = size as i128;
    if a >= 0 {
        (a / 1024) as i64
    } else {
        let q: i128 = (-a) / 1024;
        (-q) as i64
    }
}

/// Whether a company is the one the session works in.
pub fn is_current_company(current: &Option<String>, id: &str) -> (r: bool)
    ensures
        r == (match *current {
            Some(c) => c@ == id@,
            None => false,
        }),
{
    match current {
        Some(c) => crate::text::str_eq(c.as_str(), id),
        None => false,
    }
}

/// The letter on a company's card: its first character, `?` for no name.
pub fn company_initial(name: &str) -> (r: char)
    ensures
        r == (if name@.len() > 0 {
            name@[0]
        } else {
            '?'
        }),
{
    crate::session::avatar_initial(name)
}

/// The label of the save button while saving and otherwise.
pub fn save_label(saving: bool) -> (r: &'static str)
    ensures
        r@ == (if saving {
            "保存中…"@
        } else {
            "保存"@
        }),
{
    if saving {
        "保存中…"
    } else {
        "保存"
    }
}

/// The request a dialog sends when it saves: the update of the record it
/// was opened on, or the creation of a new one.
#[derive(Clone, Debug)]
pub enum SaveCall {
    Create,
    Update(String),
}

/// The id a save request updates; `None` for a creation.
pub open spec fn updated_id(c: SaveCall) -> Option<Seq<char>> {
    match c {
        SaveCall::Create => None,
        SaveCall::Update(id) => Some(id@),
    }
}

/// The save request of the account dialog: an update of the account it was
/// opened on, else a creation.
pub fn account_save_call(editing: &Option<Account>) -> (r: SaveCall)
    ensures
        updated_id(r) == match editing {
            Some(a) => Some(a.id@),
            None => None::<Seq<char>>,
        },
{
    match editing {
        Some(a) => SaveCall::Update(a.id.clone()),
        None => SaveCall::Create,
    }
}

/// The save request of the contact dialog: an update of the contact it was
/// opened on, else a creation.
pub fn contact_save_call(editing: &Option<Contact>) -> (r: SaveCall)
    ensures
        updated_id(r) == match editing {
            Some(c) => Some(c.id@),
            None => None::<Seq<char>>,
        },
{
    match editing {
        Some(c) => SaveCall::Update(c.id.clone()),
        None => SaveCall::Create,
    }
}

/// The save request of the company dialog: an update of the company it was
/// opened on, else a creation.
pub fn company_save_call(editing: &Option<Company>) -> (r: SaveCall)
    ensures
        updated_id(r) == match editing {
            Some(c) => Some(c.id@),
            None => None::<Seq<char>>,
        },
{
    match editing {
        Some(c) => SaveCall::Update(c.id.clone()),
        None => SaveCall::Create,
    }
}

} // verus!
