//! The state shared by a source-record table's toolbar and body: the rows,
//! the query and its mode, the column settings; and what the toolbar shows.

use vstd::prelude::*;
use crate::columns::{count_shown, default_columns, is_default_columns, lookup, ColumnVisibility};
use crate::ipc::RawRecord;
use crate::number::{dec_nat, fmt_u64};
use crate::records::{
    display_rows, next_position, prev_position, row_ids, select_next, select_prev,
    shown_rows_spec, QueryMode,
};

verus! {

/// The filter and search state of a source-record table.
#[derive(Debug)]
pub struct RawRecordFilterState {
    pub source_type: String,
    pub query_text: String,
    pub mode: QueryMode,
    pub rows: Vec<RawRecord>,
    pub total_all: usize,
    pub columns: ColumnVisibility,
    pub saves_columns: bool,
}

impl RawRecordFilterState {
    /// The well-formedness of the state: consistent column settings and the
    /// row count recorded.
    pub open spec fn wf(&self) -> bool {
        &&& self.columns.wf()
        &&& self.total_all == self.rows@.len()
    }

    /// Whether the source-type column is shown, which decides whether the
    /// filter searches the source type name (unset counts as hidden here).
    pub open spec fn shows_source(&self) -> bool {
        match lookup(self.columns.entries@, "source_type"@) {
            Some(v) => v,
            None => false,
        }
    }

    /// The rows the table shows.
    pub open spec fn shown(&self) -> Seq<RawRecord> {
        shown_rows_spec(self.rows@, self.query_text@, self.mode, self.shows_source())
    }

    /// A state with the default column settings (every column shown but the
    /// source file name and the row number), an empty query, filter mode.
    pub fn new(rows: Vec<RawRecord>, source_type: String) -> (r: Self)
        ensures
            r.wf(),
            is_default_columns(r.columns),
            r.rows == rows,
            r.source_type == source_type,
            r.query_text@ == Seq::<char>::empty(),
            r.mode == QueryMode::Filter,
            !r.saves_columns,
    {
        Self::with_columns(rows, source_type, default_columns(), false)
    }

    /// A state with the given column settings, an empty query, filter mode;
    /// `saves_columns` tells whether the page saves changed settings.
    pub fn with_columns(
        rows: Vec<RawRecord>,
        source_type: String,
        columns: ColumnVisibility,
        saves_columns: bool,
    ) -> (r: Self)
        requires
            columns.wf(),
        ensures
            r.wf(),
            r.rows == rows,
            r.source_type == source_type,
            r.columns == columns,
            r.query_text@ == Seq::<char>::empty(),
            r.mode == QueryMode::Filter,
            r.saves_columns == saves_columns,
    {
        let total_all = rows.len();
        RawRecordFilterState {
            source_type,
            query_text: String::new(),
            mode: QueryMode::Filter,
            rows,
            total_all,
            columns,
            saves_columns,
        }
    }

    /// Replaces the query (typing, clearing with Escape or the clear button).
    pub fn set_query(&mut self, text: String)
        ensures
            final(self).query_text == text,
            final(self).mode == old(self).mode,
            final(self).rows == old(self).rows,
            final(self).total_all == old(self).total_all,
            final(self).columns == old(self).columns,
            final(self).source_type == old(self).source_type,
            final(self).saves_columns == old(self).saves_columns,
    {
        self.query_text = text;
    }

    /// Switches between filter and search mode.
    pub fn set_mode(&mut self, mode: QueryMode)
        ensures
            final(self).mode == mode,
            final(self).query_text == old(self).query_text,
            final(self).rows == old(self).rows,
            final(self).total_all == old(self).total_all,
            final(self).columns == old(self).columns,
            final(self).source_type == old(self).source_type,
            final(self).saves_columns == old(self).saves_columns,
    {
        self.mode = mode;
    }

    /// Whether the source-type column is shown (filter's reading).
    pub fn show_source(&self) -> (r: bool)
        ensures
            r == self.shows_source(),
    {
        self.columns.shown_or("source_type", false)
    }

    /// The rows the table shows.
    pub fn display_rows(&self) -> (r: Vec<RawRecord>)
        ensures
            r@ == self.shown(),
    {
        display_rows(&self.rows, self.query_text.as_str(), self.mode, self.show_source())
    }

    /// The ids of the rows the table shows, in order.
    pub fn display_ids(&self) -> (r: Vec<i64>)
        ensures
            r@ == self.shown().map_values(|x: RawRecord| x.id),
    {
        let rows = self.display_rows();
        row_ids(&rows)
    }

    /// How many rows the table shows.
    pub fn total_after(&self) -> (r: usize)
        ensures
            r == self.shown().len(),
    {
        self.display_rows().len()
    }

    /// Flips a column's setting. When the page saves settings, the new
    /// settings come back for it to save; otherwise nothing does.
    pub fn toggle_column(&mut self, key: &str) -> (r: Option<ColumnVisibility>)
        requires
            old(self).wf(),
        ensures
            final(self).wf(),
            match r {
                Some(c) => old(self).saves_columns && c.entries@.len()
                    == final(self).columns.entries@.len() && forall|i: int|
                    0 <= i < c.entries@.len() ==> (#[trigger] c.entries@[i]).key@
                        == final(self).columns.entries@[i].key@ && c.entries@[i].visible
                        == final(self).columns.entries@[i].visible,
                None => !old(self).saves_columns,
            },
            final(self).saves_columns == old(self).saves_columns,
            lookup(final(self).columns.entries@, key@) == Some(
                !match lookup(old(self).columns.entries@, key@) {
                    Some(v) => v,
                    None => true,
                },
            ),
            forall|k: Seq<char>|
                k != key@ ==> lookup(final(self).columns.entries@, k) == lookup(
                    old(self).columns.entries@,
                    k,
                ),
            final(self).rows == old(self).rows,
            final(self).query_text == old(self).query_text,
            final(self).mode == old(self).mode,
    {
        self.columns.toggle_column(key);
        if self.saves_columns {
            Some(self.columns.copy())
        } else {
            None
        }
    }

    /// The row the down arrow selects, as its id and its position.
    pub fn select_next(&self, current: Option<i64>) -> (r: Option<(i64, usize)>)
        ensures
            match r {
                Some((id, i)) => next_position(
                    self.shown().map_values(|x: RawRecord| x.id),
                    current,
                ) == Some(i as int) && i < self.shown().len() && id == self.shown()[i as int].id,
                None => self.shown().len() == 0,
            },
    {
        let ids = self.display_ids();
        match select_next(&ids, current) {
            Some(i) => {
                assert(i < ids@.len());
                Some((ids[i], i))
            },
            None => None,
        }
    }

    /// The row the up arrow selects, as its id and its position.
    pub fn select_prev(&self, current: Option<i64>) -> (r: Option<(i64, usize)>)
        ensures
            match r {
                Some((id, i)) => prev_position(
                    self.shown().map_values(|x: RawRecord| x.id),
                    current,
                ) == Some(i as int) && i < self.shown().len() && id == self.shown()[i as int].id,
                None => self.shown().len() == 0,
            },
    {
        let ids = self.display_ids();
        match select_prev(&ids, current) {
            Some(i) => {
                assert(i < ids@.len());
                Some((ids[i], i))
            },
            None => None,
        }
    }

    /// The toolbar hint: in filter mode, "shown / all 条" when rows are
    /// hidden; otherwise nothing.
    pub fn filter_hint(&self) -> (r: String)
        ensures
            r@ == (if self.mode == QueryMode::Filter && self.shown().len() != self.total_all {
                dec_nat(self.shown().len()) + " / "@ + dec_nat(self.total_all as nat) + " 条"@
            } else {
                Seq::<char>::empty()
            }),
    {
        if self.mode == QueryMode::Filter {
            let t = self.total_after();
            if t != self.total_all {
                let mut s = fmt_u64(t as u64);
                s.append(" / ");
                let a = fmt_u64(self.total_all as u64);
                s.append(a.as_str());
                s.append(" 条");
                return s;
            }
        }
        String::new()
    }

    /// The column-menu counter "(shown/10)".
    pub fn column_counter(&self) -> (r: String)
        ensures
            r@ == "("@ + dec_nat(count_shown(self.columns.entries@) as nat) + "/"@ + dec_nat(10)
                + ")"@,
    {
        let mut s = String::from_str("(");
        let v = self.columns.visible_count();
        let a = fmt_u64(v as u64);
        s.append(a.as_str());
        s.append("/");
        let b = fmt_u64(10);
        s.append(b.as_str());
        s.append(")");
        s
    }
}

/// The query of a raw record list.
#[derive(Clone, Debug)]
pub struct RawRecordFilter {
    pub source_type: Option<String>,
    pub batch_id: Option<i64>,
    pub page: i32,
    pub page_size: i32,
}

/// The query a source page opens with: its source type, every batch, the
/// first page of fifty.
pub fn first_page_filter(source_type: &str) -> (r: RawRecordFilter)
    ensures
        r.source_type matches Some(s) && s@ == source_type@,
        r.batch_id is None,
        r.page == 1,
        r.page_size == 50,
{
    RawRecordFilter { source_type: Some(String::from_str(source_type)), batch_id: None, page: 1, page_size: 50 }
}

/// What a key pressed in the table does.
#[derive(Clone, Copy, PartialEq, Eq, Structural, Debug)]
pub enum KeyAction {
    FocusQuery,
    ClearQuery,
    SelectNext,
    SelectPrev,
    Nothing,
}

/// The action of a key in the table: Ctrl/Cmd+F or `/` jumps to the query
/// box, Escape clears the query, the arrows move the selection.
pub fn key_action(key: &str, ctrl: bool) -> (r: KeyAction)
    ensures
        r == (if (ctrl && key@ == "f"@) || key@ == "/"@ {
            KeyAction::FocusQuery
        } else if key@ == "Escape"@ {
            KeyAction::ClearQuery
        } else if key@ == "ArrowDown"@ {
            KeyAction::SelectNext
        } else if key@ == "ArrowUp"@ {
            KeyAction::SelectPrev
        } else {
            KeyAction::Nothing
        }),
{
    if (ctrl && crate::text::str_eq(key, "f")) || crate::text::str_eq(key, "/") {
        KeyAction::FocusQuery
    } else if crate::text::str_eq(key, "Escape") {
        KeyAction::ClearQuery
    } else if crate::text::str_eq(key, "ArrowDown") {
        KeyAction::SelectNext
    } else if crate::text::str_eq(key, "ArrowUp") {
        KeyAction::SelectPrev
    } else {
        KeyAction::Nothing
    }
}

/// Whether a key on a focused row selects it: Enter or the space bar.
pub fn row_key_selects(key: &str) -> (r: bool)
    ensures
        r == (key@ == "Enter"@ || key@ == " "@),
{
    crate::text::str_eq(key, "Enter") || crate::text::str_eq(key, " ")
}

/// The class of a mode button: filled when its mode is on.
pub fn mode_button_class(on: bool) -> (r: &'static str)
    ensures
        r@ == (if on {
            "btn btn-primary btn-sm"@
        } else {
            "btn btn-outline btn-sm"@
        }),
{
    if on {
        "btn btn-primary btn-sm"
    } else {
        "btn btn-outline btn-sm"
    }
}

/// The hint inside the query box for a mode.
pub fn query_placeholder(mode: QueryMode) -> (r: &'static str)
    ensures
        r@ == (match mode {
            QueryMode::Filter => "输入关键词过滤（空格分隔多关键词）隐藏不匹配行"@,
            QueryMode::Search => "输入关键词查找（空格分隔多关键词）高亮匹配文本"@,
        }),
{
    match mode {
        QueryMode::Filter => "输入关键词过滤（空格分隔多关键词）隐藏不匹配行",
        QueryMode::Search => "输入关键词查找（空格分隔多关键词）高亮匹配文本",
    }
}

} // verus!
