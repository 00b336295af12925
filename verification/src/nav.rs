//! The side navigation: its menu tree and the state of the menu (active
//! entry, collapsed sidebar, expanded groups).

use vstd::prelude::*;

verus! {

/// The destinations of the side menu.
#[derive(Clone, Copy, PartialEq, Eq, Structural, Hash, Debug)]
pub enum NavKey {
    Home,
    VoucherManagement,
    VoucherEntry,
    VoucherAudit,
    VoucherQuery,
    AccountBalance,
    DetailedLedger,
    GeneralLedger,
    TrialBalance,
    ReportCenter,
    AccountsReceivable,
    AccountsPayable,
    FixedAssets,
    CashierManagement,
    BudgetManagement,
    TaxManagement,
    SystemSettings,
}

/// One menu entry; a group entry has children.
#[derive(Debug)]
pub struct NavItem {
    pub key: NavKey,
    pub label: &'static str,
    pub icon: &'static str,
    pub route: &'static str,
    pub children: Option<Vec<NavItem>>,
}

/// The entry has the given key, label, icon and route.
pub open spec fn nav_entry_is(
    item: NavItem,
    key: NavKey,
    label: Seq<char>,
    icon: Seq<char>,
    route: Seq<char>,
) -> bool {
    &&& item.key == key
    &&& item.label@ == label
    &&& item.icon@ == icon
    &&& item.route@ == route
}

/// The menu: ten top-level entries, the second of which (the general
/// ledger) groups the eight voucher and ledger pages.
pub fn nav_tree() -> (r: Vec<NavItem>)
    ensures
        r@.len() == 10,
        nav_entry_is(r@[0], NavKey::Home, "首页"@, "home"@, "/"@),
        r@[0].children is None,
        nav_entry_is(r@[1], NavKey::VoucherManagement, "总账"@, "book"@, "/general-ledger"@),
        r@[1].children matches Some(c) && c@.len() == 8
            && nav_entry_is(c@[0], NavKey::VoucherManagement, "凭证管理"@, "file"@, "/general-ledger/voucher"@)
            && nav_entry_is(c@[1], NavKey::VoucherEntry, "凭证录入"@, "file-plus"@, "/general-ledger/voucher/entry"@)
            && nav_entry_is(c@[2], NavKey::VoucherAudit, "凭证审核"@, "check-square"@, "/general-ledger/voucher/audit"@)
            && nav_entry_is(c@[3], NavKey::VoucherQuery, "凭证查询"@, "search"@, "/general-ledger/voucher/query"@)
            && nav_entry_is(c@[4], NavKey::AccountBalance, "科目余额"@, "scale"@, "/general-ledger/account-balance"@)
            && nav_entry_is(c@[5], NavKey::DetailedLedger, "明细账"@, "list"@, "/general-ledger/detailed-ledger"@)
            && nav_entry_is(c@[6], NavKey::GeneralLedger, "总账"@, "book-open"@, "/general-ledger/general"@)
            && nav_entry_is(c@[7], NavKey::TrialBalance, "试算平衡表"@, "bar-chart"@, "/general-ledger/trial-balance"@),
        forall|j: int| 0 <= j < 8 ==> (#[trigger] r@[1].children->0@[j]).children is None,
        nav_entry_is(r@[2], NavKey::ReportCenter, "报表中心"@, "report"@, "/reports"@),
        r@[2].children is None,
        nav_entry_is(r@[3], NavKey::AccountsReceivable, "应收管理"@, "download"@, "/accounts-receivable"@),
        r@[3].children is None,
        nav_entry_is(r@[4], NavKey::AccountsPayable, "应付管理"@, "upload"@, "/accounts-payable"@),
        r@[4].children is None,
        nav_entry_is(r@[5], NavKey::FixedAssets, "固定资产"@, "building"@, "/fixed-assets"@),
        r@[5].children is None,
        nav_entry_is(r@[6], NavKey::CashierManagement, "出纳管理"@, "wallet"@, "/cashier"@),
        r@[6].children is None,
        nav_entry_is(r@[7], NavKey::BudgetManagement, "预算管理"@, "target"@, "/budget"@),
        r@[7].children is None,
        nav_entry_is(r@[8], NavKey::TaxManagement, "税务管理"@, "receipt"@, "/tax"@),
        r@[8].children is None,
        nav_entry_is(r@[9], NavKey::SystemSettings, "系统设置"@, "settings"@, "/settings"@),
        r@[9].children is None,
{
    vec![
        NavItem {
            key: NavKey::Home,
            label: "首页",
            icon: "home",
            route: "/",
            children: None,
        },
        NavItem {
            key: NavKey::VoucherManagement,
            label: "总账",
            icon: "book",
            route: "/general-ledger",
            children: Some(
                vec![
                NavItem {
                    key: NavKey::VoucherManagement,
                    label: "凭证管理",
                    icon: "file",
                    route: "/general-ledger/voucher",
                    children: None,
                },
                NavItem {
                    key: NavKey::VoucherEntry,
                    label: "凭证录入",
                    icon: "file-plus",
                    route: "/general-ledger/voucher/entry",
                    children: None,
                },
                NavItem {
                    key: NavKey::VoucherAudit,
                    label: "凭证审核",
                    icon: "check-square",
                    route: "/general-ledger/voucher/audit",
                    children: None,
                },
                NavItem {
                    key: NavKey::VoucherQuery,
                    label: "凭证查询",
                    icon: "search",
                    route: "/general-ledger/voucher/query",
                    children: None,
                },
                NavItem {
                    key: NavKey::AccountBalance,
                    label: "科目余额",
                    icon: "scale",
                    route: "/general-ledger/account-balance",
                    children: None,
                },
                NavItem {
                    key: NavKey::DetailedLedger,
                    label: "明细账",
                    icon: "list",
                    route: "/general-ledger/detailed-ledger",
                    children: None,
                },
                NavItem {
                    key: NavKey::GeneralLedger,
                    label: "总账",
                    icon: "book-open",
                    route: "/general-ledger/general",
                    children: None,
                },
                NavItem {
                    key: NavKey::TrialBalance,
                    label: "试算平衡表",
                    icon: "bar-chart",
                    route: "/general-ledger/trial-balance",
                    children: None,
                },
                ],
            ),
        },
        NavItem {
            key: NavKey::ReportCenter,
            label: "报表中心",
            icon: "report",
            route: "/reports",
            children: None,
        },
        NavItem {
            key: NavKey::AccountsReceivable,
            label: "应收管理",
            icon: "download",
            route: "/accounts-receivable",
            children: None,
        },
        NavItem {
            key: NavKey::AccountsPayable,
            label: "应付管理",
            icon: "upload",
            route: "/accounts-payable",
            children: None,
        },
        NavItem {
            key: NavKey::FixedAssets,
            label: "固定资产",
            icon: "building",
            route: "/fixed-assets",
            children: None,
        },
        NavItem {
            key: NavKey::CashierManagement,
            label: "出纳管理",
            icon: "wallet",
            route: "/cashier",
            children: None,
        },
        NavItem {
            key: NavKey::BudgetManagement,
            label: "预算管理",
            icon: "target",
            route: "/budget",
            children: None,
        },
        NavItem {
            key: NavKey::TaxManagement,
            label: "税务管理",
            icon: "receipt",
            route: "/tax",
            children: None,
        },
        NavItem {
            key: NavKey::SystemSettings,
            label: "系统设置",
            icon: "settings",
            route: "/settings",
            children: None,
        },
    ]
}

/// The state of the menu: the active destination, whether the sidebar is
/// collapsed to icons, and the groups currently expanded (each at most once).
#[derive(Debug)]
pub struct NavState {
    pub active: NavKey,
    pub collapsed: bool,
    pub expanded: Vec<NavKey>,
}

/// No key occurs twice.
pub open spec fn no_repeats(s: Seq<NavKey>) -> bool {
    forall|i: int, j: int| 0 <= i < j < s.len() ==> s[i] != s[j]
}

impl NavState {
    /// Every group key is listed at most once.
    pub open spec fn wf(&self) -> bool {
        no_repeats(self.expanded@)
    }

    /// The start state: voucher management active, sidebar open, the
    /// general-ledger group expanded.
    pub fn new() -> (r: Self)
        ensures
            r.active == NavKey::VoucherManagement,
            !r.collapsed,
            r.expanded@ == seq![NavKey::VoucherManagement],
            r.wf(),
    {
        NavState {
            active: NavKey::VoucherManagement,
            collapsed: false,
            expanded: vec![NavKey::VoucherManagement],
        }
    }

    /// Collapses an open sidebar or opens a collapsed one.
    pub fn toggle_collapse(&mut self)
        ensures
            final(self).collapsed == !old(self).collapsed,
            final(self).active == old(self).active,
            final(self).expanded@ == old(self).expanded@,
    {
        self.collapsed = !self.collapsed;
    }

    /// Expands a collapsed group (appending it) or collapses an expanded one
    /// (removing it where it stood).
    pub fn toggle_expand(&mut self, key: NavKey)
        requires
            old(self).wf(),
        ensures
            final(self).wf(),
            final(self).active == old(self).active,
            final(self).collapsed == old(self).collapsed,
            old(self).expanded@.contains(key) ==> exists|i: int|
                0 <= i < old(self).expanded@.len() && old(self).expanded@[i] == key
                    && final(self).expanded@ == old(self).expanded@.remove(i),
            !old(self).expanded@.contains(key) ==> final(self).expanded@ == old(
                self,
            ).expanded@.push(key),
    {
        let mut i: usize = 0;
        while i < self.expanded.len()
            invariant
                i <= self.expanded@.len(),
                self.expanded@ == old(self).expanded@,
                self.active == old(self).active,
                self.collapsed == old(self).collapsed,
                no_repeats(self.expanded@),
                forall|j: int| 0 <= j < i ==> self.expanded@[j] != key,
            decreases self.expanded@.len() - i,
        {
            if self.expanded[i] == key {
                let ghost before = self.expanded@;
                self.expanded.remove(i);
                assert forall|a: int, b: int|
                    0 <= a < b < self.expanded@.len() implies self.expanded@[a]
                    != self.expanded@[b] by {
                    let a2 = if a < i {
                        a
                    } else {
                        a + 1
                    };
                    let b2 = if b < i {
                        b
                    } else {
                        b + 1
                    };
                    assert(self.expanded@[a] == before[a2]);
                    assert(self.expanded@[b] == before[b2]);
                }
                assert(self.expanded@ == old(self).expanded@.remove(i as int));
                return;
            }
            i = i + 1;
        }
        assert(!self.expanded@.contains(key));
        self.expanded.push(key);
    }

    /// Whether the group is expanded.
    pub fn is_expanded(&self, key: NavKey) -> (r: bool)
        ensures
            r == self.expanded@.contains(key),
    {
        let mut i: usize = 0;
        while i < self.expanded.len()
            invariant
                i <= self.expanded@.len(),
                forall|j: int| 0 <= j < i ==> self.expanded@[j] != key,
            decreases self.expanded@.len() - i,
        {
            if self.expanded[i] == key {
                return true;
            }
            i = i + 1;
        }
        false
    }

    /// Makes the destination the active one.
    pub fn activate(&mut self, key: NavKey)
        ensures
            final(self).active == key,
            final(self).collapsed == old(self).collapsed,
            final(self).expanded@ == old(self).expanded@,
    {
        self.active = key;
    }

    /// Whether the destination is the active one.
    pub fn is_active(&self, key: NavKey) -> (r: bool)
        ensures
            r == (self.active == key),
    {
        self.active == key
    }
}

impl Default for NavState {
    fn default() -> (r: Self)
        ensures
            r.active == NavKey::VoucherManagement,
            !r.collapsed,
            r.expanded@ == seq![NavKey::VoucherManagement],
    {
        NavState::new()
    }
}

/// The indent of a menu entry: children are set in by 32 pixels.
pub fn depth_style(depth: usize) -> (r: &'static str)
    ensures
        r@ == (if depth > 0 {
            "padding-left: 32px"@
        } else {
            ""@
        }),
{
    if depth > 0 {
        "padding-left: 32px"
    } else {
        ""
    }
}

/// Toggling a group flips whether it is expanded and leaves whether every
/// other group is expanded as it was.
pub proof fn law_toggle_expand(before: Seq<NavKey>, after: Seq<NavKey>, key: NavKey, other: NavKey)
    requires
        no_repeats(before),
        before.contains(key) ==> exists|i: int|
            0 <= i < before.len() && before[i] == key && after == before.remove(i),
        !before.contains(key) ==> after == before.push(key),
        other != key,
    ensures
        after.contains(key) == !before.contains(key),
        after.contains(other) == before.contains(other),
{
    if before.contains(key) {
        let i = choose|i: int| 0 <= i < before.len() && before[i] == key && after == before.remove(i);
        if after.contains(key) {
            let j = choose|j: int| 0 <= j < after.len() && after[j] == key;
            let j2 = if j < i {
                j
            } else {
                j + 1
            };
            assert(before[j2] == key);
        }
        if before.contains(other) {
            let j = choose|j: int| 0 <= j < before.len() && before[j] == other;
            if j < i {
                assert(after[j] == other);
            } else {
                assert(after[j - 1] == other);
            }
        }
        if after.contains(other) {
            let j = choose|j: int| 0 <= j < after.len() && after[j] == other;
            let j2 = if j < i {
                j
            } else {
                j + 1
            };
            assert(before[j2] == other);
        }
    } else {
        assert(after[before.len() as int] == key);
        if before.contains(other) {
            let j = choose|j: int| 0 <= j < before.len() && before[j] == other;
            assert(after[j] == other);
        }
    }
}

} // verus!
