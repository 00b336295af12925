//! Customers and vendors: the type label, the list filter by type and
//! keyword, and the edit dialog.

use vstd::prelude::*;
use crate::forms::{opt_str, opt_str_spec, text_or_empty};
use crate::ipc::{Contact, ContactInput};
use crate::records::clone_opt_string;
use crate::text::{contains_seq, contains_str, occurs_at, opt_text, or_empty, str_eq};

verus! {

impl Clone for Contact {
    fn clone(&self) -> (r: Self)
        ensures
            r == *self,
    {
        Contact {
            id: self.id.clone(),
            code: self.code.clone(),
            name: self.name.clone(),
            contact_type: self.contact_type.clone(),
            tax_id: clone_opt_string(&self.tax_id),
            bank_account: clone_opt_string(&self.bank_account),
            bank_name: clone_opt_string(&self.bank_name),
            address: clone_opt_string(&self.address),
            phone: clone_opt_string(&self.phone),
            email: clone_opt_string(&self.email),
            remark: clone_opt_string(&self.remark),
            is_active: self.is_active,
            created_at: self.created_at.clone(),
            updated_at: self.updated_at.clone(),
        }
    }
}

/// The label of a contact type.
pub fn type_label(t: &str) -> (r: &'static str)
    ensures
        r@ == (if t@ == "customer"@ {
            "客户"@
        } else if t@ == "vendor"@ {
            "供应商"@
        } else {
            "—"@
        }),
{
    if str_eq(t, "customer") {
        "客户"
    } else if str_eq(t, "vendor") {
        "供应商"
    } else {
        "—"
    }
}

/// A contact passes the filter: of the chosen type (any type when none is
/// chosen), and the keyword empty or found in its name, code or tax id.
pub open spec fn contact_shown(c: Contact, kind: Option<Seq<char>>, keyword: Seq<char>) -> bool {
    &&& match kind {
        Some(k) => c.contact_type@ == k,
        None => true,
    }
    &&& (keyword.len() == 0 || contains_seq(c.name@, keyword) || contains_seq(c.code@, keyword)
        || match c.tax_id {
        Some(t) => contains_seq(t@, keyword),
        None => false,
    })
}

/// The contacts that pass the filter, in list order.
pub open spec fn shown_contacts(items: Seq<Contact>, kind: Option<Seq<char>>, keyword: Seq<char>) -> Seq<
    Contact,
>
    decreases items.len(),
{
    if items.len() == 0 {
        Seq::empty()
    } else {
        let rest = shown_contacts(items.drop_last(), kind, keyword);
        if contact_shown(items.last(), kind, keyword) {
            rest.push(items.last())
        } else {
            rest
        }
    }
}

/// Whether one contact passes the filter.
pub fn passes_filter(c: &Contact, kind: &Option<String>, keyword: &str) -> (r: bool)
    ensures
        r == contact_shown(*c, opt_text(*kind), keyword@),
{
    let type_ok = match kind {
        Some(k) => str_eq(c.contact_type.as_str(), k.as_str()),
        None => true,
    };
    if !type_ok {
        return false;
    }
    if keyword.unicode_len() == 0 {
        return true;
    }
    if contains_str(c.name.as_str(), keyword) || contains_str(c.code.as_str(), keyword) {
        return true;
    }
    match &c.tax_id {
        Some(t) => contains_str(t.as_str(), keyword),
        None => false,
    }
}

/// The contacts the list shows for the chosen type and keyword.
pub fn filter_contacts(items: &Vec<Contact>, kind: &Option<String>, keyword: &str) -> (r: Vec<
    Contact,
>)
    ensures
        r@ == shown_contacts(items@, opt_text(*kind), keyword@),
{
    let mut out: Vec<Contact> = Vec::new();
    let mut i: usize = 0;
    while i < items.len()
        invariant
            i <= items@.len(),
            out@ == shown_contacts(items@.take(i as int), opt_text(*kind), keyword@),
        decreases items@.len() - i,
    {
        assert(items@.take(i + 1).drop_last() =~= items@.take(i as int));
        assert(items@.take(i + 1).last() == items@[i as int]);
        if passes_filter(&items[i], kind, keyword) {
            out.push(items[i].clone());
        }
        i = i + 1;
    }
    assert(items@.take(items@.len() as int) =~= items@);
    out
}

/// With no type chosen and no keyword, the list shows every contact, in order.
pub proof fn law_no_filter_shows_all(items: Seq<Contact>)
    ensures
        shown_contacts(items, None, Seq::empty()) == items,
    decreases items.len(),
{
    if items.len() > 0 {
        law_no_filter_shows_all(items.drop_last());
        assert(items.drop_last().push(items.last()) =~= items);
    }
}

/// Every contact the list shows passes the filter and is one of the contacts.
pub proof fn law_shown_pass_filter(items: Seq<Contact>, kind: Option<Seq<char>>, keyword: Seq<char>, i: int)
    requires
        0 <= i < shown_contacts(items, kind, keyword).len(),
    ensures
        contact_shown(shown_contacts(items, kind, keyword)[i], kind, keyword),
        items.contains(shown_contacts(items, kind, keyword)[i]),
    decreases items.len(),
{
    let rest = shown_contacts(items.drop_last(), kind, keyword);
    if i < rest.len() {
        law_shown_pass_filter(items.drop_last(), kind, keyword, i);
        let j = choose|j: int| 0 <= j < items.drop_last().len() && items.drop_last()[j] == rest[i];
        assert(items[j] == rest[i]);
    } else {
        assert(items[items.len() - 1] == items.last());
    }
}

/// `keyword` stands at position `at` of `field`.
pub open spec fn stands_at(field: Seq<char>, keyword: Seq<char>, at: int) -> bool {
    0 <= at && at + keyword.len() <= field.len() && field.subrange(at, at + keyword.len()) == keyword
}

/// A contact that passes the filter is listed.
proof fn lemma_passing_contact_listed(
    items: Seq<Contact>,
    kind: Option<Seq<char>>,
    keyword: Seq<char>,
    k: int,
)
    requires
        0 <= k < items.len(),
        contact_shown(items[k], kind, keyword),
    ensures
        shown_contacts(items, kind, keyword).contains(items[k]),
    decreases items.len(),
{
    let rest = shown_contacts(items.drop_last(), kind, keyword);
    if k < items.len() - 1 {
        lemma_passing_contact_listed(items.drop_last(), kind, keyword, k);
        let j = choose|j: int| 0 <= j < rest.len() && rest[j] == items.drop_last()[k];
        if contact_shown(items.last(), kind, keyword) {
            assert(rest.push(items.last())[j] == items[k]);
        }
    } else {
        assert(rest.push(items.last())[rest.len() as int] == items[k]);
    }
}

/// A contact of the chosen type (any type when none is chosen) whose name,
/// code or tax id holds the keyword at some position, not only at its
/// start, is listed.
pub proof fn law_keyword_found_anywhere(
    items: Seq<Contact>,
    kind: Option<Seq<char>>,
    keyword: Seq<char>,
    k: int,
    at: int,
)
    requires
        0 <= k < items.len(),
        kind matches Some(t) ==> items[k].contact_type@ == t,
        stands_at(items[k].name@, keyword, at) || stands_at(items[k].code@, keyword, at) || (
        items[k].tax_id is Some && stands_at(items[k].tax_id->0@, keyword, at)),
    ensures
        shown_contacts(items, kind, keyword).contains(items[k]),
{
    let c = items[k];
    if stands_at(c.name@, keyword, at) {
        assert(occurs_at(c.name@, keyword, at));
    } else if stands_at(c.code@, keyword, at) {
        assert(occurs_at(c.code@, keyword, at));
    } else {
        assert(occurs_at(c.tax_id->0@, keyword, at));
    }
    lemma_passing_contact_listed(items, kind, keyword, k);
}

/// Every listed contact is of the chosen type (when one is chosen) and holds
/// the keyword somewhere in its name, code or tax id, unless the keyword is
/// empty.
pub proof fn law_listed_contact_holds_keyword(
    items: Seq<Contact>,
    kind: Option<Seq<char>>,
    keyword: Seq<char>,
    i: int,
)
    requires
        0 <= i < shown_contacts(items, kind, keyword).len(),
    ensures
        ({
            let c = shown_contacts(items, kind, keyword)[i];
            &&& kind matches Some(t) ==> c.contact_type@ == t
            &&& keyword.len() == 0 || exists|at: int|
                #![trigger stands_at(c.name@, keyword, at)]
                #![trigger stands_at(c.code@, keyword, at)]
                #![trigger stands_at(c.tax_id->0@, keyword, at)]
                stands_at(c.name@, keyword, at) || stands_at(c.code@, keyword, at) || (
                c.tax_id is Some && stands_at(c.tax_id->0@, keyword, at))
        }),
{
    law_shown_pass_filter(items, kind, keyword, i);
    let c = shown_contacts(items, kind, keyword)[i];
    if keyword.len() > 0 {
        if contains_seq(c.name@, keyword) {
            let at = choose|at: int| occurs_at(c.name@, keyword, at);
            assert(stands_at(c.name@, keyword, at));
        } else if contains_seq(c.code@, keyword) {
            let at = choose|at: int| occurs_at(c.code@, keyword, at);
            assert(stands_at(c.code@, keyword, at));
        } else {
            assert(c.tax_id is Some);
            let at = choose|at: int| occurs_at(c.tax_id->0@, keyword, at);
            assert(stands_at(c.tax_id->0@, keyword, at));
        }
    }
    assert(kind matches Some(t) ==> c.contact_type@ == t);
}

/// The fields of the contact dialog.
#[derive(Clone, Debug)]
pub struct ContactForm {
    pub code: String,
    pub name: String,
    pub contact_type: String,
    pub tax_id: String,
    pub bank_account: String,
    pub bank_name: String,
    pub address: String,
    pub phone: String,
    pub email: String,
    pub remark: String,
    pub is_active: bool,
}

impl ContactForm {
    /// The dialog for a new contact: an active customer, every text empty.
    pub fn blank() -> (r: Self)
        ensures
            r.code@.len() == 0,
            r.name@.len() == 0,
            r.contact_type@ == "customer"@,
            r.tax_id@.len() == 0,
            r.bank_account@.len() == 0,
            r.bank_name@.len() == 0,
            r.address@.len() == 0,
            r.phone@.len() == 0,
            r.email@.len() == 0,
            r.remark@.len() == 0,
            r.is_active,
    {
        ContactForm {
            code: String::new(),
            name: String::new(),
            contact_type: String::from_str("customer"),
            tax_id: String::new(),
            bank_account: String::new(),
            bank_name: String::new(),
            address: String::new(),
            phone: String::new(),
            email: String::new(),
            remark: String::new(),
            is_active: true,
        }
    }

    /// The dialog for an existing contact: its fields, absent ones empty.
    pub fn from_contact(c: &Contact) -> (r: Self)
        ensures
            r.code@ == c.code@,
            r.name@ == c.name@,
            r.contact_type@ == c.contact_type@,
            r.tax_id@ == text_or_empty(c.tax_id),
            r.bank_account@ == text_or_empty(c.bank_account),
            r.bank_name@ == text_or_empty(c.bank_name),
            r.address@ == text_or_empty(c.address),
            r.phone@ == text_or_empty(c.phone),
            r.email@ == text_or_empty(c.email),
            r.remark@ == text_or_empty(c.remark),
            r.is_active == c.is_active,
    {
        ContactForm {
            code: c.code.clone(),
            name: c.name.clone(),
            contact_type: c.contact_type.clone(),
            tax_id: or_empty(&c.tax_id),
            bank_account: or_empty(&c.bank_account),
            bank_name: or_empty(&c.bank_name),
            address: or_empty(&c.address),
            phone: or_empty(&c.phone),
            email: or_empty(&c.email),
            remark: or_empty(&c.remark),
            is_active: c.is_active,
        }
    }

    /// The record the dialog saves: blank optional fields are left out.
    pub fn to_input(&self) -> (r: ContactInput)
        ensures
            r.code@ == self.code@,
            r.name@ == self.name@,
            r.contact_type@ == self.contact_type@,
            opt_text(r.tax_id) == opt_str_spec(self.tax_id@),
            opt_text(r.bank_account) == opt_str_spec(self.bank_account@),
            opt_text(r.bank_name) == opt_str_spec(self.bank_name@),
            opt_text(r.address) == opt_str_spec(self.address@),
            opt_text(r.phone) == opt_str_spec(self.phone@),
            opt_text(r.email) == opt_str_spec(self.email@),
            opt_text(r.remark) == opt_str_spec(self.remark@),
            r.is_active == Some(self.is_active),
    {
        ContactInput {
            code: self.code.clone(),
            name: self.name.clone(),
            contact_type: self.contact_type.clone(),
            tax_id: opt_str(self.tax_id.clone()),
            bank_account: opt_str(self.bank_account.clone()),
            bank_name: opt_str(self.bank_name.clone()),
            address: opt_str(self.address.clone()),
            phone: opt_str(self.phone.clone()),
            email: opt_str(self.email.clone()),
            remark: opt_str(self.remark.clone()),
            is_active: Some(self.is_active),
        }
    }
}

} // verus!
