//! The small display decisions shared by the screens: status badges, the
//! accent of a figure card, the icon a menu name stands for, the size class of
//! a dialog and the alignment classes of table cells.

use vstd::prelude::*;
use crate::text::str_eq;

verus! {

/// The colour variants of a status badge.
#[derive(Clone, Copy, PartialEq, Eq, Structural, Debug)]
pub enum BadgeVariant {
    Draft,
    Pending,
    Approved,
    Posted,
    Archived,
    Neutral,
}

impl BadgeVariant {
    /// The style class of the variant.
    pub fn class(&self) -> (r: &'static str)
        ensures
            r@ == (match *self {
                BadgeVariant::Draft => "tag-draft"@,
                BadgeVariant::Pending => "tag-pending"@,
                BadgeVariant::Approved => "tag-approved"@,
                BadgeVariant::Posted => "tag-posted"@,
                BadgeVariant::Archived => "tag-archived"@,
                BadgeVariant::Neutral => ""@,
            }),
    {
        match self {
            BadgeVariant::Draft => "tag-draft",
            BadgeVariant::Pending => "tag-pending",
            BadgeVariant::Approved => "tag-approved",
            BadgeVariant::Posted => "tag-posted",
            BadgeVariant::Archived => "tag-archived",
            BadgeVariant::Neutral => "",
        }
    }
}

/// The badge variant that a status label is shown with.
pub open spec fn status_variant_spec(label: Seq<char>) -> BadgeVariant {
    if label == "已过账"@ {
        BadgeVariant::Posted
    } else if label == "已审核"@ {
        BadgeVariant::Approved
    } else if label == "未审核"@ || label == "待审核"@ {
        BadgeVariant::Pending
    } else if label == "草稿"@ {
        BadgeVariant::Draft
    } else if label == "已驳回"@ {
        BadgeVariant::Archived
    } else {
        BadgeVariant::Neutral
    }
}

/// The badge variant for a status label.
pub fn status_variant(label: &str) -> (r: BadgeVariant)
    ensures
        r == status_variant_spec(label@),
{
    if str_eq(label, "已过账") {
        BadgeVariant::Posted
    } else if str_eq(label, "已审核") {
        BadgeVariant::Approved
    } else if str_eq(label, "未审核") || str_eq(label, "待审核") {
        BadgeVariant::Pending
    } else if str_eq(label, "草稿") {
        BadgeVariant::Draft
    } else if str_eq(label, "已驳回") {
        BadgeVariant::Archived
    } else {
        BadgeVariant::Neutral
    }
}

/// The icons the screens draw.
#[derive(Clone, Copy, PartialEq, Eq, Structural, Debug)]
pub enum IconKind {
    House,
    Book,
    FileText,
    FilePlus,
    SquareCheck,
    Search,
    Scale,
    ListChecks,
    BookOpen,
    ChartColumnIncreasing,
    Download,
    Upload,
    Building,
    Wallet,
    Target,
    Receipt,
    Settings,
    Banknote,
    Check,
    TriangleAlert,
    Close,
    Info,
    CircleCheckBig,
    LayoutDashboard,
}

/// The icon that a menu icon name stands for; an unknown name draws the house.
pub open spec fn icon_for_name_spec(name: Seq<char>) -> IconKind {
    if name == "home"@ {
        IconKind::House
    } else if name == "book"@ {
        IconKind::Book
    } else if name == "file"@ || name == "report"@ {
        IconKind::FileText
    } else if name == "file-plus"@ {
        IconKind::FilePlus
    } else if name == "check-square"@ {
        IconKind::SquareCheck
    } else if name == "search"@ {
        IconKind::Search
    } else if name == "scale"@ {
        IconKind::Scale
    } else if name == "list"@ {
        IconKind::ListChecks
    } else if name == "book-open"@ {
        IconKind::BookOpen
    } else if name == "bar-chart"@ {
        IconKind::ChartColumnIncreasing
    } else if name == "download"@ {
        IconKind::Download
    } else if name == "upload"@ {
        IconKind::Upload
    } else if name == "building"@ {
        IconKind::Building
    } else if name == "wallet"@ {
        IconKind::Wallet
    } else if name == "target"@ {
        IconKind::Target
    } else if name == "receipt"@ {
        IconKind::Receipt
    } else if name == "settings"@ {
        IconKind::Settings
    } else {
        IconKind::House
    }
}

/// The icon drawn for a menu icon name.
pub fn icon_for_name(name: &str) -> (r: IconKind)
    ensures
        r == icon_for_name_spec(name@),
{
    if str_eq(name, "home") {
        IconKind::House
    } else if str_eq(name, "book") {
        IconKind::Book
    } else if str_eq(name, "file") || str_eq(name, "report") {
        IconKind::FileText
    } else if str_eq(name, "file-plus") {
        IconKind::FilePlus
    } else if str_eq(name, "check-square") {
        IconKind::SquareCheck
    } else if str_eq(name, "search") {
        IconKind::Search
    } else if str_eq(name, "scale") {
        IconKind::Scale
    } else if str_eq(name, "list") {
        IconKind::ListChecks
    } else if str_eq(name, "book-open") {
        IconKind::BookOpen
    } else if str_eq(name, "bar-chart") {
        IconKind::ChartColumnIncreasing
    } else if str_eq(name, "download") {
        IconKind::Download
    } else if str_eq(name, "upload") {
        IconKind::Upload
    } else if str_eq(name, "building") {
        IconKind::Building
    } else if str_eq(name, "wallet") {
        IconKind::Wallet
    } else if str_eq(name, "target") {
        IconKind::Target
    } else if str_eq(name, "receipt") {
        IconKind::Receipt
    } else if str_eq(name, "settings") {
        IconKind::Settings
    } else {
        IconKind::House
    }
}

/// The accent of a figure card.
#[derive(Clone, Copy, PartialEq, Eq, Structural, Debug)]
pub enum KpiAccent {
    Neutral,
    Primary,
    Success,
    Warning,
    Danger,
    Info,
    Brand,
}

impl KpiAccent {
    /// The icon a card with this accent shows.
    pub fn icon(&self) -> (r: IconKind)
        ensures
            r == (match *self {
                KpiAccent::Brand => IconKind::Banknote,
                KpiAccent::Success => IconKind::Check,
                KpiAccent::Warning => IconKind::TriangleAlert,
                KpiAccent::Danger => IconKind::Close,
                KpiAccent::Info => IconKind::Info,
                KpiAccent::Primary => IconKind::CircleCheckBig,
                KpiAccent::Neutral => IconKind::LayoutDashboard,
            }),
    {
        match self {
            KpiAccent::Brand => IconKind::Banknote,
            KpiAccent::Success => IconKind::Check,
            KpiAccent::Warning => IconKind::TriangleAlert,
            KpiAccent::Danger => IconKind::Close,
            KpiAccent::Info => IconKind::Info,
            KpiAccent::Primary => IconKind::CircleCheckBig,
            KpiAccent::Neutral => IconKind::LayoutDashboard,
        }
    }
}

/// The class of a dialog of the given size (`sm`, `lg`, or the default).
pub fn modal_size_class(size: Option<&str>) -> (r: &'static str)
    ensures
        r@ == (match size {
            Some(s) => if s@ == "sm"@ {
                "modal modal-sm"@
            } else if s@ == "lg"@ {
                "modal modal-lg"@
            } else {
                "modal"@
            },
            None => "modal"@,
        }),
{
    match size {
        Some(s) => {
            if str_eq(s, "sm") {
                "modal modal-sm"
            } else if str_eq(s, "lg") {
                "modal modal-lg"
            } else {
                "modal"
            }
        },
        None => "modal",
    }
}

/// The horizontal alignment of a table column.
#[derive(Clone, Copy, PartialEq, Eq, Structural, Debug)]
pub enum Align {
    Left,
    Right,
    Center,
}

/// The class of a header cell of a column with the given alignment.
pub fn th_class(align: Align) -> (r: &'static str)
    ensures
        r@ == (match align {
            Align::Left => "px-3 py-2 text-left text-secondary font-medium"@,
            Align::Right => "px-3 py-2 text-right text-secondary font-medium"@,
            Align::Center => "px-3 py-2 text-center text-secondary font-medium"@,
        }),
{
    match align {
        Align::Left => "px-3 py-2 text-left text-secondary font-medium",
        Align::Right => "px-3 py-2 text-right text-secondary font-medium",
        Align::Center => "px-3 py-2 text-center text-secondary font-medium",
    }
}

/// The class of a body cell of a column with the given alignment; figures
/// on the right are set in tabular digits.
pub fn td_class(align: Align) -> (r: &'static str)
    ensures
        r@ == (match align {
            Align::Left => "px-3 py-2 text-left text-primary"@,
            Align::Right => "px-3 py-2 text-right text-primary tabular-nums"@,
            Align::Center => "px-3 py-2 text-center text-primary"@,
        }),
{
    match align {
        Align::Left => "px-3 py-2 text-left text-primary",
        Align::Right => "px-3 py-2 text-right text-primary tabular-nums",
        Align::Center => "px-3 py-2 text-center text-primary",
    }
}

/// One column of a plain data table.
#[derive(Clone, Copy, Debug)]
pub struct ColumnConfig {
    pub key: &'static str,
    pub label: &'static str,
    pub width: Option<&'static str>,
    pub align: Align,
}

/// The alignment of the cell in column `i`: that of the column, left where
/// the row is wider than the header.
pub fn cell_align(columns: &Vec<ColumnConfig>, i: usize) -> (r: Align)
    ensures
        r == (if i < columns@.len() {
            columns@[i as int].align
        } else {
            Align::Left
        }),
{
    if i < columns.len() {
        columns[i].align
    } else {
        Align::Left
    }
}

/// The text of the cell in column `i` of a row: the row's value there, or
/// empty where the row is shorter.
pub fn cell_text(row: &Vec<String>, i: usize) -> (r: String)
    ensures
        r@ == (if i < row@.len() {
            row@[i as int]@
        } else {
            Seq::<char>::empty()
        }),
{
    if i < row.len() {
        row[i].clone()
    } else {
        String::new()
    }
}

/// One tab of a tab bar.
#[derive(Clone, Copy, Debug)]
pub struct TabItem {
    pub key: &'static str,
    pub label: &'static str,
    pub closable: bool,
}

/// One step of a breadcrumb trail.
#[derive(Clone, Copy, Debug)]
pub struct Crumb {
    pub label: &'static str,
}

/// Whether a tab is the active one.
pub fn tab_is_active(tab: &TabItem, active_key: &str) -> (r: bool)
    ensures
        r == (tab.key@ == active_key@),
{
    str_eq(tab.key, active_key)
}

/// The heights, in percent, of the bars of the dashboard's trend chart.
pub fn bar_heights() -> (r: Vec<u32>)
    ensures
        r@ == seq![40u32, 65, 50, 80, 70, 95, 60],
{
    vec![40, 65, 50, 80, 70, 95, 60]
}

} // verus!
