//! Which columns of a source-record table are shown: the fixed column keys,
//! their labels, the defaults, and the per-company settings the toolbar toggles.

use vstd::prelude::*;
use crate::text::str_eq;

verus! {

/// The number of columns a source-record table knows.
pub const COLUMN_COUNT: usize = 10;

/// The stable column keys, in display order (shared with the backend's settings).
pub fn column_keys() -> (r: Vec<&'static str>)
    ensures
        r@.len() == 10,
        r@[0]@ == "source_type"@,
        r@[1]@ == "source_file_name"@,
        r@[2]@ == "source_row_no"@,
        r@[3]@ == "record_no"@,
        r@[4]@ == "record_date"@,
        r@[5]@ == "amount_total"@,
        r@[6]@ == "balance"@,
        r@[7]@ == "counterpart_info"@,
        r@[8]@ == "summary"@,
        r@[9]@ == "status"@,
{
    vec![
        "source_type",
        "source_file_name",
        "source_row_no",
        "record_no",
        "record_date",
        "amount_total",
        "balance",
        "counterpart_info",
        "summary",
        "status",
    ]
}

/// The header label of a column key; "?" for an unknown key.
pub open spec fn column_label_spec(key: Seq<char>) -> Seq<char> {
    if key == "source_type"@ {
        "来源类型"@
    } else if key == "source_file_name"@ {
        "来源文件"@
    } else if key == "source_row_no"@ {
        "行号"@
    } else if key == "record_no"@ {
        "业务单号"@
    } else if key == "record_date"@ {
        "日期"@
    } else if key == "amount_total"@ {
        "金额"@
    } else if key == "balance"@ {
        "余额"@
    } else if key == "counterpart_info"@ {
        "对方信息"@
    } else if key == "summary"@ {
        "摘要"@
    } else if key == "status"@ {
        "状态"@
    } else {
        "?"@
    }
}

/// The header label of a column.
pub fn column_label(key: &str) -> (r: &'static str)
    ensures
        r@ == column_label_spec(key@),
{
    if str_eq(key, "source_type") {
        "来源类型"
    } else if str_eq(key, "source_file_name") {
        "来源文件"
    } else if str_eq(key, "source_row_no") {
        "行号"
    } else if str_eq(key, "record_no") {
        "业务单号"
    } else if str_eq(key, "record_date") {
        "日期"
    } else if str_eq(key, "amount_total") {
        "金额"
    } else if str_eq(key, "balance") {
        "余额"
    } else if str_eq(key, "counterpart_info") {
        "对方信息"
    } else if str_eq(key, "summary") {
        "摘要"
    } else if str_eq(key, "status") {
        "状态"
    } else {
        "?"
    }
}

/// One column setting.
#[derive(Debug)]
pub struct ColumnSetting {
    pub key: String,
    pub visible: bool,
}

/// The column settings of a table: at most one setting per key.
#[derive(Debug)]
pub struct ColumnVisibility {
    pub entries: Vec<ColumnSetting>,
}

impl ColumnVisibility {
    /// An exact copy of the settings, as handed to whoever saves them.
    pub fn copy(&self) -> (r: Self)
        ensures
            r.entries@.len() == self.entries@.len(),
            forall|i: int|
                0 <= i < self.entries@.len() ==> (#[trigger] r.entries@[i]).key@
                    == self.entries@[i].key@ && r.entries@[i].visible == self.entries@[i].visible,
    {
        let mut out: Vec<ColumnSetting> = Vec::new();
        let mut i: usize = 0;
        while i < self.entries.len()
            invariant
                i <= self.entries@.len(),
                out@.len() == i,
                forall|j: int|
                    0 <= j < i ==> (#[trigger] out@[j]).key@ == self.entries@[j].key@
                        && out@[j].visible == self.entries@[j].visible,
            decreases self.entries@.len() - i,
        {
            let e = &self.entries[i];
            out.push(ColumnSetting { key: e.key.clone(), visible: e.visible });
            i = i + 1;
        }
        ColumnVisibility { entries: out }
    }
}

/// The setting of `key` among the settings, if there is one.
pub open spec fn lookup(s: Seq<ColumnSetting>, key: Seq<char>) -> Option<bool>
    decreases s.len(),
{
    if s.len() == 0 {
        None
    } else if s.last().key@ == key {
        Some(s.last().visible)
    } else {
        lookup(s.drop_last(), key)
    }
}

/// How many settings say "shown".
pub open spec fn count_shown(s: Seq<ColumnSetting>) -> int
    decreases s.len(),
{
    if s.len() == 0 {
        0
    } else {
        count_shown(s.drop_last()) + (if s.last().visible {
            1int
        } else {
            0
        })
    }
}

/// No two settings have the same key.
pub open spec fn distinct_keys(s: Seq<ColumnSetting>) -> bool {
    forall|i: int, j: int| 0 <= i < j < s.len() ==> s[i].key@ != s[j].key@
}

/// A key with a setting at `i` looks up to that setting.
pub proof fn lemma_lookup_at(s: Seq<ColumnSetting>, i: int)
    requires
        distinct_keys(s),
        0 <= i < s.len(),
    ensures
        lookup(s, s[i].key@) == Some(s[i].visible),
    decreases s.len(),
{
    if i < s.len() - 1 {
        lemma_lookup_at(s.drop_last(), i);
    }
}

/// A key without a setting looks up to nothing.
pub proof fn lemma_lookup_absent(s: Seq<ColumnSetting>, key: Seq<char>)
    requires
        forall|i: int| 0 <= i < s.len() ==> s[i].key@ != key,
    ensures
        lookup(s, key) is None,
    decreases s.len(),
{
    if s.len() > 0 {
        lemma_lookup_absent(s.drop_last(), key);
    }
}

/// Changing the setting at `i` changes the lookup of its key only.
pub proof fn lemma_lookup_update(s: Seq<ColumnSetting>, i: int, e: ColumnSetting, key: Seq<char>)
    requires
        distinct_keys(s),
        0 <= i < s.len(),
        e.key@ == s[i].key@,
    ensures
        lookup(s.update(i, e), key) == (if key == e.key@ {
            Some(e.visible)
        } else {
            lookup(s, key)
        }),
    decreases s.len(),
{
    let t = s.update(i, e);
    if i == s.len() - 1 {
        assert(t.drop_last() =~= s.drop_last());
    } else {
        assert(t.drop_last() =~= s.drop_last().update(i, e));
        lemma_lookup_update(s.drop_last(), i, e, key);
        if key == e.key@ {
            assert(s.last().key@ != s[i].key@);
        }
    }
}

impl ColumnVisibility {
    /// At most one setting per key.
    pub open spec fn wf(&self) -> bool {
        distinct_keys(self.entries@)
    }

    /// No settings at all.
    pub fn new() -> (r: Self)
        ensures
            r.wf(),
            r.entries@.len() == 0,
    {
        ColumnVisibility { entries: Vec::new() }
    }

    /// The setting of a column, if it has one.
    pub fn get(&self, key: &str) -> (r: Option<bool>)
        ensures
            r == lookup(self.entries@, key@),
    {
        let mut i: usize = self.entries.len();
        assert(self.entries@.take(i as int) =~= self.entries@);
        while i > 0
            invariant
                i <= self.entries@.len(),
                lookup(self.entries@, key@) == lookup(self.entries@.take(i as int), key@),
            decreases i,
        {
            let ghost t = self.entries@.take(i as int);
            assert(t.drop_last() =~= self.entries@.take(i - 1));
            if str_eq(self.entries[i - 1].key.as_str(), key) {
                return Some(self.entries[i - 1].visible);
            }
            i = i - 1;
        }
        assert(self.entries@.take(0) =~= Seq::<ColumnSetting>::empty());
        None
    }

    /// Whether a column is shown, `default` standing in for a column without a setting.
    pub fn shown_or(&self, key: &str, default: bool) -> (r: bool)
        ensures
            r == match lookup(self.entries@, key@) {
                Some(v) => v,
                None => default,
            },
    {
        match self.get(key) {
            Some(v) => v,
            None => default,
        }
    }

    /// Sets a column's setting, replacing the one it had.
    pub fn set(&mut self, key: String, visible: bool)
        requires
            old(self).wf(),
        ensures
            final(self).wf(),
            forall|k: Seq<char>|
                lookup(final(self).entries@, k) == (if k == key@ {
                    Some(visible)
                } else {
                    lookup(old(self).entries@, k)
                }),
    {
        let mut i: usize = 0;
        while i < self.entries.len()
            invariant
                i <= self.entries@.len(),
                self.entries@ == old(self).entries@,
                distinct_keys(self.entries@),
                forall|j: int| 0 <= j < i ==> self.entries@[j].key@ != key@,
            decreases self.entries@.len() - i,
        {
            if str_eq(self.entries[i].key.as_str(), key.as_str()) {
                let ghost before = self.entries@;
                let e = ColumnSetting { key, visible };
                let ghost eg = e;
                self.entries.set(i, e);
                assert forall|k: Seq<char>| lookup(self.entries@, k) == (if k == eg.key@ {
                    Some(visible)
                } else {
                    lookup(before, k)
                }) by {
                    lemma_lookup_update(before, i as int, eg, k);
                }
                assert forall|a: int, b: int| 0 <= a < b < self.entries@.len() implies self.entries@[a].key@
                    != self.entries@[b].key@ by {
                    assert(self.entries@[a].key@ == before[a].key@);
                    assert(self.entries@[b].key@ == before[b].key@);
                }
                return;
            }
            i = i + 1;
        }
        let ghost before = self.entries@;
        let e = ColumnSetting { key, visible };
        let ghost eg = e;
        self.entries.push(e);
        assert(self.entries@.drop_last() =~= before);
        proof {
            lemma_lookup_absent(before, eg.key@);
        }
    }

    /// Flips a column: shown becomes hidden and back, a column without a
    /// setting (shown by default) becomes hidden.
    pub fn toggle_column(&mut self, key: &str)
        requires
            old(self).wf(),
        ensures
            final(self).wf(),
            lookup(final(self).entries@, key@) == Some(
                !match lookup(old(self).entries@, key@) {
                    Some(v) => v,
                    None => true,
                },
            ),
            forall|k: Seq<char>|
                k != key@ ==> lookup(final(self).entries@, k) == lookup(old(self).entries@, k),
    {
        let cur = self.shown_or(key, true);
        self.set(String::from_str(key), !cur);
    }

    /// How many columns are set to shown.
    pub fn visible_count(&self) -> (r: usize)
        ensures
            r as int == count_shown(self.entries@),
    {
        let mut n: usize = 0;
        let mut i: usize = 0;
        while i < self.entries.len()
            invariant
                i <= self.entries@.len(),
                n as int == count_shown(self.entries@.take(i as int)),
                n <= i,
            decreases self.entries@.len() - i,
        {
            assert(self.entries@.take(i + 1).drop_last() =~= self.entries@.take(i as int));
            if self.entries[i].visible {
                n = n + 1;
            }
            i = i + 1;
        }
        assert(self.entries@.take(self.entries@.len() as int) =~= self.entries@);
        n
    }
}

/// The default column settings: the ten columns in display order, every one
/// shown except the source file name and the row number.
pub open spec fn is_default_columns(c: ColumnVisibility) -> bool {
    &&& c.entries@.len() == 10
    &&& c.entries@[0].key@ == "source_type"@
    &&& c.entries@[1].key@ == "source_file_name"@
    &&& c.entries@[2].key@ == "source_row_no"@
    &&& c.entries@[3].key@ == "record_no"@
    &&& c.entries@[4].key@ == "record_date"@
    &&& c.entries@[5].key@ == "amount_total"@
    &&& c.entries@[6].key@ == "balance"@
    &&& c.entries@[7].key@ == "counterpart_info"@
    &&& c.entries@[8].key@ == "summary"@
    &&& c.entries@[9].key@ == "status"@
    &&& forall|i: int|
        0 <= i < 10 ==> (#[trigger] c.entries@[i]).visible == !(c.entries@[i].key@
            == "source_file_name"@ || c.entries@[i].key@ == "source_row_no"@)
}

/// The default column settings.
pub fn default_columns() -> (r: ColumnVisibility)
    ensures
        r.wf(),
        is_default_columns(r),
{
    let keys = column_keys();
    let mut out = ColumnVisibility::new();
    let mut i: usize = 0;
    while i < keys.len()
        invariant
            keys@.len() == 10,
            keys@[0]@ == "source_type"@,
            keys@[1]@ == "source_file_name"@,
            keys@[2]@ == "source_row_no"@,
            keys@[3]@ == "record_no"@,
            keys@[4]@ == "record_date"@,
            keys@[5]@ == "amount_total"@,
            keys@[6]@ == "balance"@,
            keys@[7]@ == "counterpart_info"@,
            keys@[8]@ == "summary"@,
            keys@[9]@ == "status"@,
            i <= 10,
            out.entries@.len() == i,
            forall|j: int| 0 <= j < i ==> (#[trigger] out.entries@[j]).key@ == keys@[j]@,
            forall|j: int|
                0 <= j < i ==> (#[trigger] out.entries@[j]).visible == !(keys@[j]@
                    == "source_file_name"@ || keys@[j]@ == "source_row_no"@),
        decreases 10 - i,
    {
        let k = keys[i];
        let visible = !(str_eq(k, "source_file_name") || str_eq(k, "source_row_no"));
        out.entries.push(ColumnSetting { key: String::from_str(k), visible });
        i = i + 1;
    }
    proof {
        reveal_strlit("source_type");
        reveal_strlit("source_file_name");
        reveal_strlit("source_row_no");
        reveal_strlit("record_no");
        reveal_strlit("record_date");
        reveal_strlit("amount_total");
        reveal_strlit("balance");
        reveal_strlit("counterpart_info");
        reveal_strlit("summary");
        reveal_strlit("status");
        assert forall|a: int, b: int| 0 <= a < b < 10 implies out.entries@[a].key@
            != out.entries@[b].key@ by {
            assert(out.entries@[a].key@ == keys@[a]@);
            assert(out.entries@[b].key@ == keys@[b]@);
            if keys@[a]@ == keys@[b]@ {
                assert(keys@[a]@[0] == keys@[b]@[0]);
                assert(keys@[a]@.len() == keys@[b]@.len());
            }
        }
    }
    out
}

/// Toggling a column twice gives it back the setting it had (a column without
/// a setting ends up explicitly shown, as it was shown by default), and every
/// other column is untouched throughout.
pub proof fn law_toggle_twice(
    s0: Seq<ColumnSetting>,
    s1: Seq<ColumnSetting>,
    s2: Seq<ColumnSetting>,
    key: Seq<char>,
    other: Seq<char>,
)
    requires
        lookup(s1, key) == Some(
            !match lookup(s0, key) {
                Some(v) => v,
                None => true,
            },
        ),
        forall|k: Seq<char>| k != key ==> lookup(s1, k) == lookup(s0, k),
        lookup(s2, key) == Some(
            !match lookup(s1, key) {
                Some(v) => v,
                None => true,
            },
        ),
        forall|k: Seq<char>| k != key ==> lookup(s2, k) == lookup(s1, k),
        other != key,
    ensures
        lookup(s2, key) == Some(
            match lookup(s0, key) {
                Some(v) => v,
                None => true,
            },
        ),
        lookup(s2, other) == lookup(s0, other),
{
}

/// The column settings a table starts with: those the backend kept, or the
/// default ones when they could not be loaded.
pub fn columns_or_default(answer: Result<ColumnVisibility, String>) -> (r: ColumnVisibility)
    ensures
        match answer {
            Ok(c) => r == c,
            Err(_) => r.wf() && is_default_columns(r),
        },
{
    match answer {
        Ok(c) => c,
        Err(_) => default_columns(),
    }
}

} // verus!
