//! The voucher entry form: its editable lines, the debit and credit totals,
//! the balance check, and the voucher it hands to the backend.

use vstd::prelude::*;
use crate::ipc::{Account, Voucher, VoucherEntryInput, VoucherInput};
use crate::number::{amount_of, amount_or_zero, parse_i64_spec};
use crate::text::str_eq;

verus! {

/// One editable line of the form; amounts are the texts typed, in cents.
#[derive(Debug)]
pub struct EntryRow {
    pub uid: usize,
    pub account_id: String,
    pub account_code: String,
    pub account_name: String,
    pub summary: String,
    pub debit: String,
    pub credit: String,
}

/// The two amount columns of a line.
#[derive(Clone, Copy, Debug, PartialEq, Eq, Structural)]
pub enum Side {
    Debit,
    Credit,
}

/// Why the form refuses to save.
#[derive(Clone, Copy, Debug, PartialEq, Eq, Structural)]
pub enum EntryError {
    /// Debits and credits differ, or nothing was booked.
    Unbalanced,
    /// No line has an account.
    NoEntries,
}

impl EntryError {
    /// The message the form shows.
    pub fn message(&self) -> (r: &'static str)
        ensures
            r@ == (match *self {
                EntryError::Unbalanced => "借贷不平衡,无法保存"@,
                EntryError::NoEntries => "请至少添加一条分录"@,
            }),
    {
        match self {
            EntryError::Unbalanced => "借贷不平衡,无法保存",
            EntryError::NoEntries => "请至少添加一条分录",
        }
    }
}

impl EntryRow {
    /// A blank line: no account, no summary, both amounts "0".
    pub fn empty(uid: usize) -> (r: Self)
        ensures
            r.uid == uid,
            r.account_id@ == Seq::<char>::empty(),
            r.account_code@ == Seq::<char>::empty(),
            r.account_name@ == Seq::<char>::empty(),
            r.summary@ == Seq::<char>::empty(),
            r.debit@ == "0"@,
            r.credit@ == "0"@,
    {
        EntryRow {
            uid,
            account_id: String::new(),
            account_code: String::new(),
            account_name: String::new(),
            summary: String::new(),
            debit: String::from_str("0"),
            credit: String::from_str("0"),
        }
    }
}

/// The amount text of a line in one column.
pub open spec fn side_text(e: EntryRow, side: Side) -> Seq<char> {
    match side {
        Side::Debit => e.debit@,
        Side::Credit => e.credit@,
    }
}

/// The amounts of one column, each text read as `parse::<i64>().unwrap_or(0)`.
pub open spec fn column_amounts(rows: Seq<EntryRow>, side: Side) -> Seq<int> {
    rows.map_values(|e: EntryRow| amount_of(side_text(e, side)))
}

/// The sum of a list of integers, added from the front.
pub open spec fn sum_ints(s: Seq<int>) -> int
    decreases s.len(),
{
    if s.len() == 0 {
        0
    } else {
        sum_ints(s.drop_last()) + s.last()
    }
}

/// Every running total from the front fits in an `i64`.
pub open spec fn prefix_sums_fit(s: Seq<int>) -> bool {
    forall|k: int| 0 <= k <= s.len() ==> i64::MIN <= #[trigger] sum_ints(s.take(k)) <= i64::MAX
}

/// The total of one column: the sum when every running total fits in an
/// `i64`, none where adding would overflow.
pub fn column_total(rows: &Vec<EntryRow>, side: Side) -> (r: Option<i64>)
    ensures
        match r {
            Some(t) => prefix_sums_fit(column_amounts(rows@, side)) && t as int == sum_ints(
                column_amounts(rows@, side),
            ),
            None => !prefix_sums_fit(column_amounts(rows@, side)),
        },
{
    let ghost s = column_amounts(rows@, side);
    let mut acc: i64 = 0;
    let mut i: usize = 0;
    assert(s.take(0) =~= Seq::<int>::empty());
    while i < rows.len()
        invariant
            i <= rows@.len(),
            s == column_amounts(rows@, side),
            s.len() == rows@.len(),
            acc as int == sum_ints(s.take(i as int)),
            forall|k: int| 0 <= k <= i ==> i64::MIN <= #[trigger] sum_ints(s.take(k)) <= i64::MAX,
        decreases rows@.len() - i,
    {
        let e = &rows[i];
        let a = match side {
            Side::Debit => amount_or_zero(e.debit.as_str()),
            Side::Credit => amount_or_zero(e.credit.as_str()),
        };
        assert(s.take(i + 1).drop_last() =~= s.take(i as int));
        assert(s[i as int] == a as int);
        match acc.checked_add(a) {
            Some(v) => {
                acc = v;
            },
            None => {
                assert(!(i64::MIN <= sum_ints(s.take(i + 1)) <= i64::MAX));
                return None;
            },
        }
        i = i + 1;
    }
    assert(s.take(rows@.len() as int) =~= s);
    Some(acc)
}

/// The entries are balanced: debits equal credits and something was booked.
pub open spec fn balanced_spec(debit: int, credit: int) -> bool {
    debit == credit && debit > 0
}

/// Whether the totals balance.
pub fn is_balanced(debit: i64, credit: i64) -> (r: bool)
    ensures
        r == balanced_spec(debit as int, credit as int),
{
    debit == credit && debit > 0
}

/// The line as the backend receives it: the summary left out when empty, no contact.
pub open spec fn entry_input_of(e: EntryRow) -> VoucherEntryInput {
    VoucherEntryInput {
        account_id: e.account_id,
        account_code: e.account_code,
        account_name: e.account_name,
        summary: if e.summary@.len() == 0 {
            None
        } else {
            Some(e.summary)
        },
        debit: e.debit,
        credit: e.credit,
        contact_id: None,
        contact_name: None,
    }
}

/// The lines with an account, converted, in order.
pub open spec fn entry_inputs(rows: Seq<EntryRow>) -> Seq<VoucherEntryInput>
    decreases rows.len(),
{
    if rows.len() == 0 {
        seq![]
    } else {
        let p = entry_inputs(rows.drop_last());
        if rows.last().account_id@.len() > 0 {
            p.push(entry_input_of(rows.last()))
        } else {
            p
        }
    }
}

/// Converts the lines that have an account.
pub fn collect_entry_inputs(rows: &Vec<EntryRow>) -> (r: Vec<VoucherEntryInput>)
    ensures
        r@ == entry_inputs(rows@),
{
    let mut out: Vec<VoucherEntryInput> = Vec::new();
    let mut i: usize = 0;
    while i < rows.len()
        invariant
            i <= rows@.len(),
            out@ == entry_inputs(rows@.take(i as int)),
        decreases rows@.len() - i,
    {
        let e = &rows[i];
        assert(rows@.take(i + 1).drop_last() =~= rows@.take(i as int));
        assert(rows@.take(i + 1).last() == *e);
        if e.account_id.unicode_len() > 0 {
            let summary = if e.summary.unicode_len() == 0 {
                None
            } else {
                Some(e.summary.clone())
            };
            out.push(
                VoucherEntryInput {
                    account_id: e.account_id.clone(),
                    account_code: e.account_code.clone(),
                    account_name: e.account_name.clone(),
                    summary,
                    debit: e.debit.clone(),
                    credit: e.credit.clone(),
                    contact_id: None,
                    contact_name: None,
                },
            );
        }
        i = i + 1;
    }
    assert(rows@.take(rows@.len() as int) =~= rows@);
    out
}

/// Why saving the form is refused, if it is: the totals do not balance, or
/// no line has an account.
pub open spec fn form_refusal(rows: Seq<EntryRow>) -> Option<EntryError> {
    let debit = sum_ints(column_amounts(rows, Side::Debit));
    let credit = sum_ints(column_amounts(rows, Side::Credit));
    if !balanced_spec(debit, credit) {
        Some(EntryError::Unbalanced)
    } else if entry_inputs(rows).len() == 0 {
        Some(EntryError::NoEntries)
    } else {
        None
    }
}

/// The voucher the form saves, or why it refuses; a form whose totals
/// leave `i64` is refused as unbalanced.
pub fn build_voucher_input(
    voucher_no: String,
    voucher_date: String,
    voucher_type: String,
    summary: String,
    attachments: i32,
    rows: &Vec<EntryRow>,
) -> (r: Result<VoucherInput, EntryError>)
    ensures
        !(prefix_sums_fit(column_amounts(rows@, Side::Debit)) && prefix_sums_fit(
            column_amounts(rows@, Side::Credit),
        )) ==> r == Err::<VoucherInput, EntryError>(EntryError::Unbalanced),
        prefix_sums_fit(column_amounts(rows@, Side::Debit)) && prefix_sums_fit(
            column_amounts(rows@, Side::Credit),
        ) ==> match form_refusal(rows@) {
            None => r matches Ok(w) && w.voucher_no == voucher_no && w.voucher_date == voucher_date
                && w.voucher_type == voucher_type && w.summary == summary && w.attachments == Some(
                attachments,
            ) && w.operator_id is None && w.operator_name is None && w.entries@ == entry_inputs(
                rows@,
            ),
            Some(e) => r == Err::<VoucherInput, EntryError>(e),
        },
{
    let debit = column_total(rows, Side::Debit);
    let credit = column_total(rows, Side::Credit);
    let (d, c) = match (debit, credit) {
        (Some(d), Some(c)) => (d, c),
        _ => {
            return Err(EntryError::Unbalanced);
        },
    };
    if !is_balanced(d, c) {
        return Err(EntryError::Unbalanced);
    }
    let entries = collect_entry_inputs(rows);
    if entries.len() == 0 {
        return Err(EntryError::NoEntries);
    }
    Ok(
        VoucherInput {
            voucher_no,
            voucher_date,
            voucher_type,
            summary,
            attachments: Some(attachments),
            operator_id: None,
            operator_name: None,
            entries,
        },
    )
}

/// `e` is a blank line with the given uid.
pub open spec fn is_blank_line(e: EntryRow, uid: usize) -> bool {
    &&& e.uid == uid
    &&& e.account_id@.len() == 0
    &&& e.account_code@.len() == 0
    &&& e.account_name@.len() == 0
    &&& e.summary@.len() == 0
    &&& e.debit@ == "0"@
    &&& e.credit@ == "0"@
}

/// No two lines share an id.
pub open spec fn distinct_uids(rows: Seq<EntryRow>) -> bool {
    forall|i: int, j: int| 0 <= i < j < rows.len() ==> rows[i].uid != rows[j].uid
}

/// Every line's id is below `bound`.
pub open spec fn uids_below(rows: Seq<EntryRow>, bound: int) -> bool {
    forall|i: int| 0 <= i < rows.len() ==> rows[i].uid < bound
}

/// The source of fresh line ids: a counter that starts at one and hands out
/// each number once.
#[derive(Debug)]
pub struct LineIds {
    pub next: usize,
}

impl LineIds {
    /// A counter that hands out 1 first.
    pub fn new() -> (r: Self)
        ensures
            r.next == 1,
    {
        LineIds { next: 1 }
    }

    /// Hands out the next id.
    pub fn draw(&mut self) -> (r: usize)
        requires
            old(self).next < usize::MAX,
        ensures
            r == old(self).next,
            final(self).next == old(self).next + 1,
    {
        let r = self.next;
        self.next = self.next + 1;
        r
    }
}

/// The two blank lines the form starts with and returns to after a save.
pub fn fresh_rows(first_uid: usize, second_uid: usize) -> (r: Vec<EntryRow>)
    requires
        first_uid != second_uid,
    ensures
        r@.len() == 2,
        is_blank_line(r@[0], first_uid),
        is_blank_line(r@[1], second_uid),
        distinct_uids(r@),
{
    vec![EntryRow::empty(first_uid), EntryRow::empty(second_uid)]
}

/// Adds a blank line at the end, with an id no line has yet.
pub fn add_row(rows: &mut Vec<EntryRow>, uid: usize)
    requires
        forall|i: int| 0 <= i < old(rows)@.len() ==> old(rows)@[i].uid != uid,
    ensures
        final(rows)@.len() == old(rows)@.len() + 1,
        final(rows)@.drop_last() == old(rows)@,
        is_blank_line(final(rows)@.last(), uid),
        distinct_uids(old(rows)@) ==> distinct_uids(final(rows)@),
{
    rows.push(EntryRow::empty(uid));
    assert(rows@.drop_last() =~= old(rows)@);
    assert(forall|i: int| 0 <= i < old(rows)@.len() ==> rows@[i] == old(rows)@[i]);
}

/// Removes a line, but never below two lines.
pub fn remove_row(rows: &mut Vec<EntryRow>, idx: usize)
    requires
        old(rows)@.len() > 2 ==> idx < old(rows)@.len(),
    ensures
        old(rows)@.len() > 2 ==> final(rows)@ == old(rows)@.remove(idx as int),
        old(rows)@.len() <= 2 ==> final(rows)@ == old(rows)@,
        distinct_uids(old(rows)@) ==> distinct_uids(final(rows)@),
{
    if rows.len() > 2 {
        rows.remove(idx);
        proof {
            if distinct_uids(old(rows)@) {
                assert forall|i: int, j: int| 0 <= i < j < rows@.len() implies rows@[i].uid
                    != rows@[j].uid by {
                    let i2 = if i < idx { i } else { i + 1 };
                    let j2 = if j < idx { j } else { j + 1 };
                    assert(rows@[i] == old(rows)@[i2]);
                    assert(rows@[j] == old(rows)@[j2]);
                }
            }
        }
    }
}

/// The lines of the form together with the counter their ids come from.
#[derive(Debug)]
pub struct EntryLines {
    pub rows: Vec<EntryRow>,
    pub ids: LineIds,
}

impl EntryLines {
    /// At least two lines, no two with the same id, and every id already
    /// handed out by the counter.
    pub open spec fn wf(&self) -> bool {
        &&& self.rows@.len() >= 2
        &&& distinct_uids(self.rows@)
        &&& uids_below(self.rows@, self.ids.next as int)
    }

    /// The form as it opens: two blank lines with ids 1 and 2.
    pub fn new() -> (r: Self)
        ensures
            r.wf(),
            r.rows@.len() == 2,
            is_blank_line(r.rows@[0], 1),
            is_blank_line(r.rows@[1], 2),
            r.ids.next == 3,
    {
        let mut ids = LineIds::new();
        let a = ids.draw();
        let b = ids.draw();
        EntryLines { rows: fresh_rows(a, b), ids }
    }

    /// "添加行": a blank line with a fresh id at the end.
    pub fn add(&mut self)
        requires
            old(self).wf(),
            old(self).ids.next < usize::MAX,
        ensures
            final(self).wf(),
            final(self).rows@.len() == old(self).rows@.len() + 1,
            final(self).rows@.drop_last() == old(self).rows@,
            is_blank_line(final(self).rows@.last(), old(self).ids.next),
            final(self).ids.next == old(self).ids.next + 1,
    {
        let uid = self.ids.draw();
        add_row(&mut self.rows, uid);
        assert(forall|i: int| 0 <= i < old(self).rows@.len() ==> self.rows@[i] == old(self).rows@[i]);
    }

    /// Deletes a line, unless only two are left.
    pub fn remove(&mut self, idx: usize)
        requires
            old(self).wf(),
            old(self).rows@.len() > 2 ==> idx < old(self).rows@.len(),
        ensures
            final(self).wf(),
            old(self).rows@.len() > 2 ==> final(self).rows@ == old(self).rows@.remove(idx as int),
            old(self).rows@.len() <= 2 ==> final(self).rows@ == old(self).rows@,
            final(self).ids.next == old(self).ids.next,
    {
        remove_row(&mut self.rows, idx);
        proof {
            if old(self).rows@.len() > 2 {
                assert forall|i: int| 0 <= i < self.rows@.len() implies self.rows@[i].uid
                    < self.ids.next by {
                    let i2 = if i < idx { i } else { i + 1 };
                    assert(self.rows@[i] == old(self).rows@[i2]);
                }
            }
        }
    }

    /// After a save: back to two blank lines with fresh ids.
    pub fn reset(&mut self)
        requires
            old(self).wf(),
            old(self).ids.next < usize::MAX - 1,
        ensures
            final(self).wf(),
            final(self).rows@.len() == 2,
            is_blank_line(final(self).rows@[0], old(self).ids.next),
            is_blank_line(final(self).rows@[1], (old(self).ids.next + 1) as usize),
            final(self).ids.next == old(self).ids.next + 2,
    {
        let a = self.ids.draw();
        let b = self.ids.draw();
        self.rows = fresh_rows(a, b);
    }
}

/// Ids drawn from the counter never repeat: a line added with the counter's
/// next id keeps every id distinct and below the advanced counter.
pub proof fn law_drawn_ids_stay_distinct(rows: Seq<EntryRow>, next: int, e: EntryRow)
    requires
        distinct_uids(rows),
        uids_below(rows, next),
        e.uid == next,
    ensures
        distinct_uids(rows.push(e)),
        uids_below(rows.push(e), next + 1),
{
    assert(forall|i: int| 0 <= i < rows.len() ==> rows.push(e)[i] == rows[i]);
}

/// What the form shows once the backend answered a save.
#[derive(Debug)]
pub struct SaveOutcome {
    pub success: Option<String>,
    pub error: Option<String>,
    pub regenerate_no: bool,
}

/// Takes the backend's answer to a save: a saved voucher is announced, the
/// lines go back to two blank ones and a new number is asked for; a refusal
/// is shown as the backend worded it and the lines stay.
pub fn after_save(lines: &mut EntryLines, answer: Result<Voucher, String>) -> (r: SaveOutcome)
    requires
        old(lines).wf(),
        old(lines).ids.next < usize::MAX - 1,
    ensures
        final(lines).wf(),
        match answer {
            Ok(v) => {
                &&& r.success matches Some(m) && m@ == "凭证 "@ + v.voucher_no@ + " 保存成功"@
                &&& r.error is None
                &&& r.regenerate_no
                &&& final(lines).rows@.len() == 2
                &&& is_blank_line(final(lines).rows@[0], old(lines).ids.next)
                &&& is_blank_line(final(lines).rows@[1], (old(lines).ids.next + 1) as usize)
                &&& final(lines).ids.next == old(lines).ids.next + 2
            },
            Err(e) => {
                &&& r.success is None
                &&& r.error == Some(e)
                &&& !r.regenerate_no
                &&& final(lines).rows@ == old(lines).rows@
                &&& final(lines).ids == old(lines).ids
            },
        },
{
    match answer {
        Ok(v) => {
            let mut m = String::from_str("凭证 ");
            m.append(v.voucher_no.as_str());
            m.append(" 保存成功");
            lines.reset();
            SaveOutcome { success: Some(m), error: None, regenerate_no: true }
        },
        Err(e) => SaveOutcome { success: None, error: Some(e), regenerate_no: false },
    }
}

/// What typing into one amount column does: the text is taken, and a
/// positive amount resets the other column of the line to "0".
pub open spec fn amount_typed(e: EntryRow, side: Side, val: Seq<char>) -> (Seq<char>, Seq<char>) {
    let clears = val.len() > 0 && amount_of(val) > 0;
    match side {
        Side::Debit => (val, if clears {
            "0"@
        } else {
            e.credit@
        }),
        Side::Credit => (if clears {
            "0"@
        } else {
            e.debit@
        }, val),
    }
}

/// Typing into one amount column keeps the typed text there. When the text
/// reads as a positive whole amount the other column of the line becomes
/// "0", so the line books one side only; any other text leaves the other
/// column as it was.
pub proof fn law_positive_amount_clears_other_side(e: EntryRow, side: Side, val: Seq<char>)
    ensures
        (parse_i64_spec(val) matches Some(v) && v > 0) ==> amount_typed(e, side, val) == match side {
            Side::Debit => (val, "0"@),
            Side::Credit => ("0"@, val),
        },
        !(parse_i64_spec(val) matches Some(v) && v > 0) ==> amount_typed(e, side, val) == match side {
            Side::Debit => (val, e.credit@),
            Side::Credit => (e.debit@, val),
        },
{
}

/// Types an amount into one column of a line.
pub fn type_amount(rows: &mut Vec<EntryRow>, idx: usize, side: Side, val: String)
    requires
        idx < old(rows)@.len(),
    ensures
        final(rows)@.len() == old(rows)@.len(),
        forall|j: int| 0 <= j < old(rows)@.len() && j != idx ==> final(rows)@[j] == old(rows)@[j],
        final(rows)@[idx as int].uid == old(rows)@[idx as int].uid,
        final(rows)@[idx as int].account_id == old(rows)@[idx as int].account_id,
        final(rows)@[idx as int].account_code == old(rows)@[idx as int].account_code,
        final(rows)@[idx as int].account_name == old(rows)@[idx as int].account_name,
        final(rows)@[idx as int].summary == old(rows)@[idx as int].summary,
        (final(rows)@[idx as int].debit@, final(rows)@[idx as int].credit@) == amount_typed(
            old(rows)@[idx as int],
            side,
            val@,
        ),
        distinct_uids(old(rows)@) ==> distinct_uids(final(rows)@),
{
    let clears = val.unicode_len() > 0 && amount_or_zero(val.as_str()) > 0;
    let old_row = &rows[idx];
    let (debit, credit) = match side {
        Side::Debit => (val, if clears {
            String::from_str("0")
        } else {
            old_row.credit.clone()
        }),
        Side::Credit => (if clears {
            String::from_str("0")
        } else {
            old_row.debit.clone()
        }, val),
    };
    let row = EntryRow {
        uid: old_row.uid,
        account_id: old_row.account_id.clone(),
        account_code: old_row.account_code.clone(),
        account_name: old_row.account_name.clone(),
        summary: old_row.summary.clone(),
        debit,
        credit,
    };
    rows.set(idx, row);
}

/// Types the summary of a line.
pub fn type_summary(rows: &mut Vec<EntryRow>, idx: usize, val: String)
    requires
        idx < old(rows)@.len(),
    ensures
        final(rows)@ == old(rows)@.update(
            idx as int,
            EntryRow { summary: val, ..old(rows)@[idx as int] },
        ),
        distinct_uids(old(rows)@) ==> distinct_uids(final(rows)@),
{
    let old_row = &rows[idx];
    let row = EntryRow {
        uid: old_row.uid,
        account_id: old_row.account_id.clone(),
        account_code: old_row.account_code.clone(),
        account_name: old_row.account_name.clone(),
        summary: val,
        debit: old_row.debit.clone(),
        credit: old_row.credit.clone(),
    };
    rows.set(idx, row);
}

/// The first account whose id reads as the given text.
pub open spec fn account_index(accounts: Seq<Account>, id: Seq<char>) -> Option<int>
    decreases accounts.len(),
{
    if accounts.len() == 0 {
        None
    } else {
        match account_index(accounts.drop_last(), id) {
            Some(i) => Some(i),
            None => if accounts.last().id@ == id {
                Some(accounts.len() - 1)
            } else {
                None
            },
        }
    }
}

/// Finds the first account with the id.
pub fn find_account(accounts: &Vec<Account>, id: &str) -> (r: Option<usize>)
    ensures
        match r {
            Some(i) => account_index(accounts@, id@) == Some(i as int) && i < accounts@.len(),
            None => account_index(accounts@, id@) is None,
        },
{
    let mut i: usize = 0;
    while i < accounts.len()
        invariant
            i <= accounts@.len(),
            account_index(accounts@.take(i as int), id@) is None,
        decreases accounts@.len() - i,
    {
        assert(accounts@.take(i + 1).drop_last() =~= accounts@.take(i as int));
        if str_eq(accounts[i].id.as_str(), id) {
            proof {
                lemma_account_index_extends(accounts@, id@, i + 1);
            }
            return Some(i);
        }
        i = i + 1;
    }
    assert(accounts@.take(accounts@.len() as int) =~= accounts@);
    None
}

/// A match found in a prefix is the first match of the whole list.
pub proof fn lemma_account_index_extends(accounts: Seq<Account>, id: Seq<char>, k: int)
    requires
        0 <= k <= accounts.len(),
        account_index(accounts.take(k), id) is Some,
    ensures
        account_index(accounts, id) == account_index(accounts.take(k), id),
    decreases accounts.len() - k,
{
    if k < accounts.len() {
        assert(accounts.take(k + 1).drop_last() =~= accounts.take(k));
        lemma_account_index_extends(accounts, id, k + 1);
    } else {
        assert(accounts.take(k) =~= accounts);
    }
}

/// Picks an account for a line: when the chosen id is a known account, the
/// line takes its id, code and name; otherwise the line stays as it was.
pub fn choose_account(rows: &mut Vec<EntryRow>, idx: usize, accounts: &Vec<Account>, id: &str)
    requires
        idx < old(rows)@.len(),
    ensures
        match account_index(accounts@, id@) {
            Some(a) => final(rows)@ == old(rows)@.update(
                idx as int,
                EntryRow {
                    account_id: accounts@[a].id,
                    account_code: accounts@[a].code,
                    account_name: accounts@[a].name,
                    ..old(rows)@[idx as int]
                },
            ),
            None => final(rows)@ == old(rows)@,
        },
        distinct_uids(old(rows)@) ==> distinct_uids(final(rows)@),
{
    match find_account(accounts, id) {
        Some(a) => {
            let acc = &accounts[a];
            let old_row = &rows[idx];
            let row = EntryRow {
                uid: old_row.uid,
                account_id: acc.id.clone(),
                account_code: acc.code.clone(),
                account_name: acc.name.clone(),
                summary: old_row.summary.clone(),
                debit: old_row.debit.clone(),
                credit: old_row.credit.clone(),
            };
            rows.set(idx, row);
        },
        None => {},
    }
}

/// The message shown while the totals differ.
pub open spec fn imbalance_text(debit: int, credit: int) -> Seq<char> {
    "不平衡: 借方 "@ + crate::number::dec_int(debit) + " / 贷方 "@ + crate::number::dec_int(credit)
}

/// `format!("不平衡: 借方 {} / 贷方 {}", debit, credit)`.
pub fn imbalance_message(debit: i64, credit: i64) -> (r: String)
    ensures
        r@ == imbalance_text(debit as int, credit as int),
{
    let mut s = String::from_str("不平衡: 借方 ");
    let d = crate::number::fmt_i64(debit);
    s.append(d.as_str());
    s.append(" / 贷方 ");
    let c = crate::number::fmt_i64(credit);
    s.append(c.as_str());
    s
}

/// A voucher the form accepts always balances: its debit total equals its
/// credit total, both are positive, and at least one line has an account.
pub proof fn law_accepted_voucher_balances(rows: Seq<EntryRow>)
    requires
        form_refusal(rows) is None,
    ensures
        sum_ints(column_amounts(rows, Side::Debit)) == sum_ints(column_amounts(rows, Side::Credit)),
        sum_ints(column_amounts(rows, Side::Debit)) > 0,
        entry_inputs(rows).len() > 0,
{
}

/// The form never drops below two lines: removing a line from a form with
/// at least two lines leaves at least two.
pub proof fn law_at_least_two_lines(before: Seq<EntryRow>, after: Seq<EntryRow>, idx: int)
    requires
        before.len() >= 2,
        before.len() > 2 ==> 0 <= idx < before.len() && after == before.remove(idx),
        before.len() <= 2 ==> after == before,
    ensures
        after.len() >= 2,
        after.len() >= before.len() - 1,
{
}

/// Adding a blank line never changes the totals: its amounts read as zero.
pub proof fn law_blank_line_keeps_totals(rows: Seq<EntryRow>, e: EntryRow, side: Side)
    requires
        e.debit@ == "0"@,
        e.credit@ == "0"@,
    ensures
        sum_ints(column_amounts(rows.push(e), side)) == sum_ints(column_amounts(rows, side)),
{
    reveal_strlit("0");
    let s = column_amounts(rows.push(e), side);
    assert(s.drop_last() =~= column_amounts(rows, side));
    assert(crate::number::all_digits("0"@));
    let z = "0"@;
    assert(z.len() == 1 && z[0] == '0');
    assert(z.drop_last() =~= Seq::<char>::empty());
    assert(crate::number::digits_value(z.drop_last()) == 0);
    assert(('0' as u32) == 48);
    assert(crate::number::digits_value(z) == 0);
    assert(s.last() == amount_of(side_text(e, side)));
    assert(amount_of("0"@) == 0);
}

/// Today's date as the voucher date field wants it (`yyyy-MM-dd`), from a
/// year, a zero-based month (as a JS `Date` gives it) and a day.
pub fn today_iso(year: u32, month0: u32, day: u32) -> (r: String)
    requires
        month0 < u32::MAX,
    ensures
        r@ == crate::number::iso_date_text(year as nat, (month0 + 1) as nat, day as nat),
{
    crate::number::iso_date(year, month0 + 1, day)
}

} // verus!
