//! The signed-in session as the front end keeps it, and what the header and
//! company switcher show of it. Backend calls happen outside; each method here
//! is the state change that follows one of their answers.

use vstd::prelude::*;
use crate::ipc::{AuthResult, CompanyBrief, CurrentUser, UserInfo};

verus! {

/// The session: signed-in user, selected company, companies open to the user,
/// and whether the session is still being restored at start-up.
#[derive(Debug)]
pub struct Session {
    pub user: Option<UserInfo>,
    pub company_id: Option<String>,
    pub available_companies: Vec<CompanyBrief>,
    pub loading: bool,
}

impl Session {
    /// The state before the backend answered: nobody signed in, still loading.
    pub fn new() -> (r: Self)
        ensures
            r.user is None,
            r.company_id is None,
            r.available_companies@.len() == 0,
            r.loading,
    {
        Session { user: None, company_id: None, available_companies: Vec::new(), loading: true }
    }

    /// The signed-in user, if any.
    pub fn user(&self) -> (r: &Option<UserInfo>)
        ensures
            *r == self.user,
    {
        &self.user
    }

    /// The selected company, if any.
    pub fn company_id(&self) -> (r: &Option<String>)
        ensures
            *r == self.company_id,
    {
        &self.company_id
    }

    /// The companies open to the user.
    pub fn available_companies(&self) -> (r: &Vec<CompanyBrief>)
        ensures
            *r == self.available_companies,
    {
        &self.available_companies
    }

    /// Whether the session is still being restored.
    pub fn loading(&self) -> (r: bool)
        ensures
            r == self.loading,
    {
        self.loading
    }

    /// Replaces the signed-in user.
    pub fn set_user(&mut self, user: Option<UserInfo>)
        ensures
            final(self).user == user,
            final(self).company_id == old(self).company_id,
            final(self).available_companies == old(self).available_companies,
            final(self).loading == old(self).loading,
    {
        self.user = user;
    }

    /// Replaces the companies open to the user.
    pub fn set_available(&mut self, companies: Vec<CompanyBrief>)
        ensures
            final(self).available_companies == companies,
            final(self).user == old(self).user,
            final(self).company_id == old(self).company_id,
            final(self).loading == old(self).loading,
    {
        self.available_companies = companies;
    }

    /// Replaces the selected company.
    pub fn set_company(&mut self, id: Option<String>)
        ensures
            final(self).company_id == id,
            final(self).user == old(self).user,
            final(self).available_companies == old(self).available_companies,
            final(self).loading == old(self).loading,
    {
        self.company_id = id;
    }

    /// Ends the start-up loading phase.
    pub fn finish_loading(&mut self)
        ensures
            !final(self).loading,
            final(self).user == old(self).user,
            final(self).company_id == old(self).company_id,
            final(self).available_companies == old(self).available_companies,
    {
        self.loading = false;
    }

    /// Whether somebody is signed in.
    pub fn is_logged_in(&self) -> (r: bool)
        ensures
            r == self.user is Some,
    {
        self.user.is_some()
    }

    /// Whether a company is selected.
    pub fn has_company(&self) -> (r: bool)
        ensures
            r == self.company_id is Some,
    {
        self.company_id.is_some()
    }

    /// Restores the session from the backend's answer at start-up: on success
    /// user, company and companies are taken over; on failure they stay. In
    /// both cases loading ends.
    pub fn init(&mut self, answer: Result<CurrentUser, String>)
        ensures
            !final(self).loading,
            match answer {
                Ok(cu) => {
                    &&& final(self).user == cu.user
                    &&& final(self).company_id == cu.company_id
                    &&& final(self).available_companies == cu.available_companies
                },
                Err(_) => {
                    &&& final(self).user == old(self).user
                    &&& final(self).company_id == old(self).company_id
                    &&& final(self).available_companies == old(self).available_companies
                },
            },
    {
        match answer {
            Ok(cu) => {
                self.user = cu.user;
                self.company_id = cu.company_id;
                self.available_companies = cu.available_companies;
            },
            Err(_) => {},
        }
        self.loading = false;
    }

    /// Takes over a successful login: the user is signed in and the companies
    /// are replaced. Returns the first company's id, which the caller selects
    /// on the backend and then passes to `switch_company`; the selected
    /// company does not change here.
    pub fn login(&mut self, auth: AuthResult) -> (r: Option<String>)
        ensures
            final(self).user == Some(auth.user),
            final(self).available_companies == auth.companies,
            final(self).company_id == old(self).company_id,
            final(self).loading == old(self).loading,
            r == (if auth.companies@.len() > 0 {
                Some(auth.companies@[0].id)
            } else {
                None
            }),
    {
        let first = if auth.companies.len() > 0 {
            Some(auth.companies[0].id.clone())
        } else {
            None
        };
        self.user = Some(auth.user);
        self.available_companies = auth.companies;
        first
    }

    /// Clears the session after the backend signed the user out.
    pub fn logout(&mut self)
        ensures
            final(self).user is None,
            final(self).company_id is None,
            final(self).available_companies@.len() == 0,
            final(self).loading == old(self).loading,
    {
        self.user = None;
        self.company_id = None;
        self.available_companies = Vec::new();
    }

    /// Selects a company after the backend accepted the switch.
    pub fn switch_company(&mut self, id: String)
        ensures
            final(self).company_id == Some(id),
            final(self).user == old(self).user,
            final(self).available_companies == old(self).available_companies,
            final(self).loading == old(self).loading,
    {
        self.company_id = Some(id);
    }
}

/// The first company whose id reads the same as the selected one.
pub open spec fn selected_company_index(companies: Seq<CompanyBrief>, id: Option<String>) -> Option<
    int,
>
    decreases companies.len(),
{
    if companies.len() == 0 {
        None
    } else {
        match selected_company_index(companies.drop_last(), id) {
            Some(i) => Some(i),
            None => if id matches Some(s) && s@ == companies.last().id@ {
                Some(companies.len() - 1)
            } else {
                None
            },
        }
    }
}

/// The name of the selected company, if it is among the companies.
pub fn current_company_name<'a>(companies: &'a Vec<CompanyBrief>, id: &Option<String>) -> (r:
    Option<&'a String>)
    ensures
        match selected_company_index(companies@, *id) {
            Some(i) => r == Some(&companies@[i].name),
            None => r is None,
        },
{
    let mut i: usize = 0;
    while i < companies.len()
        invariant
            i <= companies@.len(),
            selected_company_index(companies@.take(i as int), *id) is None,
        decreases companies@.len() - i,
    {
        assert(companies@.take(i + 1).drop_last() =~= companies@.take(i as int));
        let same = match id {
            Some(s) => *s == companies[i].id,
            None => false,
        };
        if same {
            proof {
                lemma_selected_extends(companies@, *id, i + 1);
            }
            return Some(&companies[i].name);
        }
        i = i + 1;
    }
    assert(companies@.take(companies@.len() as int) =~= companies@);
    None
}

/// A match found in a prefix is the first match of the whole list.
pub proof fn lemma_selected_extends(companies: Seq<CompanyBrief>, id: Option<String>, k: int)
    requires
        0 <= k <= companies.len(),
        selected_company_index(companies.take(k), id) is Some,
    ensures
        selected_company_index(companies, id) == selected_company_index(companies.take(k), id),
    decreases companies.len() - k,
{
    if k < companies.len() {
        assert(companies.take(k + 1).drop_last() =~= companies.take(k));
        lemma_selected_extends(companies, id, k + 1);
    } else {
        assert(companies.take(k) =~= companies);
    }
}

/// The company switcher is shown only when there is more than one company.
pub fn switcher_visible(companies: &Vec<CompanyBrief>) -> (r: bool)
    ensures
        r == (companies@.len() > 1),
{
    companies.len() > 1
}

/// The switcher's label: the selected company's name, or "未选择".
pub fn switcher_label(companies: &Vec<CompanyBrief>, id: &Option<String>) -> (r: String)
    ensures
        match selected_company_index(companies@, *id) {
            Some(i) => r@ == companies@[i].name@,
            None => r@ == "未选择"@,
        },
{
    match current_company_name(companies, id) {
        Some(n) => n.clone(),
        None => String::from_str("未选择"),
    }
}

/// The header's company text: the selected company's name, or nothing.
pub fn header_company_name(companies: &Vec<CompanyBrief>, id: &Option<String>) -> (r: String)
    ensures
        match selected_company_index(companies@, *id) {
            Some(i) => r@ == companies@[i].name@,
            None => r@ == Seq::<char>::empty(),
        },
{
    match current_company_name(companies, id) {
        Some(n) => n.clone(),
        None => String::new(),
    }
}

/// The name the header shows: the user's display name, or "未登录".
pub fn display_name(user: &Option<UserInfo>) -> (r: String)
    ensures
        match *user {
            Some(u) => r@ == u.display_name@,
            None => r@ == "未登录"@,
        },
{
    match user {
        Some(u) => u.display_name.clone(),
        None => String::from_str("未登录"),
    }
}

/// The department line under the name: the user's department, or nothing.
pub fn department(user: &Option<UserInfo>) -> (r: String)
    ensures
        match *user {
            Some(u) => match u.department {
                Some(d) => r@ == d@,
                None => r@ == Seq::<char>::empty(),
            },
            None => r@ == Seq::<char>::empty(),
        },
{
    match user {
        Some(u) => match &u.department {
            Some(d) => d.clone(),
            None => String::new(),
        },
        None => String::new(),
    }
}

/// The avatar letter: the first character of a name, or `?` for an empty name.
pub fn avatar_initial(name: &str) -> (r: char)
    ensures
        r == (if name@.len() > 0 {
            name@[0]
        } else {
            '?'
        }),
{
    if name.unicode_len() > 0 {
        name.get_char(0)
    } else {
        '?'
    }
}

} // verus!
