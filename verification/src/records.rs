//! The source-record table: copying records, keyword filtering, and moving the
//! selection with the arrow keys.

use vstd::prelude::*;
use crate::ipc::RawRecord;
use crate::number::{dec_int, fmt_i64};
use crate::text::{
    chars_of, contains_chars, contains_seq, lowercase_of, occurs_at, split_whitespace, str_eq,
    to_lowercase, views, ws_words,
};

verus! {

/// An exact copy of an optional text.
pub fn clone_opt_string(o: &Option<String>) -> (r: Option<String>)
    ensures
        r == *o,
{
    match o {
        Some(s) => Some(s.clone()),
        None => None,
    }
}

impl Clone for RawRecord {
    fn clone(&self) -> (r: Self)
        ensures
            r == *self,
    {
        RawRecord {
            id: self.id,
            import_batch_id: self.import_batch_id,
            source_type: self.source_type.clone(),
            source_type_name: self.source_type_name.clone(),
            source_file_name: self.source_file_name.clone(),
            source_row_no: self.source_row_no,
            record_no: clone_opt_string(&self.record_no),
            record_date: clone_opt_string(&self.record_date),
            amount_total: clone_opt_string(&self.amount_total),
            balance: clone_opt_string(&self.balance),
            counterpart_info: clone_opt_string(&self.counterpart_info),
            summary: clone_opt_string(&self.summary),
            currency: self.currency.clone(),
            status: self.status.clone(),
            balance_check_status: clone_opt_string(&self.balance_check_status),
            balance_confirmed_at: clone_opt_string(&self.balance_confirmed_at),
        }
    }
}

/// The text of an optional field as a list of zero or one part.
pub open spec fn opt_part(o: Option<String>) -> Seq<Seq<char>> {
    match o {
        Some(v) => seq![v@],
        None => seq![],
    }
}

/// The texts a keyword filter searches in a record, in display order: the
/// source type name (only while that column is shown), file name, row number,
/// then whichever of number, date, amount, balance, counterpart and summary are set.
pub open spec fn search_parts(row: RawRecord, show_source: bool) -> Seq<Seq<char>> {
    (if show_source {
        seq![row.source_type_name@]
    } else {
        seq![]
    }) + seq![row.source_file_name@, dec_int(row.source_row_no as int)] + opt_part(row.record_no)
        + opt_part(row.record_date) + opt_part(row.amount_total) + opt_part(row.balance) + opt_part(
        row.counterpart_info,
    ) + opt_part(row.summary)
}

/// Parts joined with single spaces (`parts.join(" ")`).
pub open spec fn join_spaced(parts: Seq<Seq<char>>) -> Seq<char>
    decreases parts.len(),
{
    if parts.len() == 0 {
        seq![]
    } else if parts.len() == 1 {
        parts[0]
    } else {
        join_spaced(parts.drop_last()) + seq![' '] + parts.last()
    }
}

/// A record passes the filter when every keyword occurs in its lower-cased
/// searchable text.
pub open spec fn row_matches_spec(row: RawRecord, kws: Seq<Seq<char>>, show_source: bool) -> bool {
    let hay = lowercase_of(join_spaced(search_parts(row, show_source)));
    forall|i: int| 0 <= i < kws.len() ==> contains_seq(hay, #[trigger] kws[i])
}

/// Appends the part to the text, with a space before it unless the text is empty.
fn push_part(hay: &mut String, part: &str, count: &mut usize, ghost_parts: Ghost<Seq<Seq<char>>>)
    requires
        old(hay)@ == join_spaced(ghost_parts@),
        *old(count) == ghost_parts@.len(),
        ghost_parts@.len() < usize::MAX,
    ensures
        final(hay)@ == join_spaced(ghost_parts@.push(part@)),
        *final(count) == ghost_parts@.len() + 1,
{
    let ghost ps = ghost_parts@;
    let ghost np = ps.push(part@);
    assert(np.drop_last() =~= ps);
    assert(np.last() == part@);
    if *count > 0 {
        proof {
            reveal_strlit(" ");
        }
        hay.append(" ");
    } else {
        assert(np =~= seq![part@]);
    }
    hay.append(part);
    *count = *count + 1;
}

/// Appends an optional field's text as a part when it is set.
fn push_opt_part(
    hay: &mut String,
    o: &Option<String>,
    count: &mut usize,
    ghost_parts: Ghost<Seq<Seq<char>>>,
)
    requires
        old(hay)@ == join_spaced(ghost_parts@),
        *old(count) == ghost_parts@.len(),
        ghost_parts@.len() < usize::MAX,
    ensures
        final(hay)@ == join_spaced(ghost_parts@ + opt_part(*o)),
        *final(count) == (ghost_parts@ + opt_part(*o)).len(),
{
    match o {
        Some(v) => {
            push_part(hay, v.as_str(), count, ghost_parts);
            assert(ghost_parts@ + opt_part(*o) =~= ghost_parts@.push(v@));
        },
        None => {
            assert(ghost_parts@ + opt_part(*o) =~= ghost_parts@);
        },
    }
}

/// The lower-cased text the keyword filter searches in a record.
pub fn search_text(row: &RawRecord, show_source: bool) -> (r: String)
    ensures
        r@ == lowercase_of(join_spaced(search_parts(*row, show_source))),
{
    let row_no = fmt_i64(row.source_row_no);
    let mut hay = String::new();
    let mut count: usize = 0;
    let ghost mut parts: Seq<Seq<char>> = seq![];
    assert(hay@ =~= join_spaced(parts));
    if show_source {
        push_part(&mut hay, row.source_type_name.as_str(), &mut count, Ghost(parts));
        proof {
            parts = parts.push(row.source_type_name@);
        }
    }
    push_part(&mut hay, row.source_file_name.as_str(), &mut count, Ghost(parts));
    proof {
        parts = parts.push(row.source_file_name@);
    }
    push_part(&mut hay, row_no.as_str(), &mut count, Ghost(parts));
    proof {
        parts = parts.push(row_no@);
    }
    push_opt_part(&mut hay, &row.record_no, &mut count, Ghost(parts));
    proof {
        parts = parts + opt_part(row.record_no);
    }
    push_opt_part(&mut hay, &row.record_date, &mut count, Ghost(parts));
    proof {
        parts = parts + opt_part(row.record_date);
    }
    push_opt_part(&mut hay, &row.amount_total, &mut count, Ghost(parts));
    proof {
        parts = parts + opt_part(row.amount_total);
    }
    push_opt_part(&mut hay, &row.balance, &mut count, Ghost(parts));
    proof {
        parts = parts + opt_part(row.balance);
    }
    push_opt_part(&mut hay, &row.counterpart_info, &mut count, Ghost(parts));
    proof {
        parts = parts + opt_part(row.counterpart_info);
    }
    push_opt_part(&mut hay, &row.summary, &mut count, Ghost(parts));
    proof {
        parts = parts + opt_part(row.summary);
        assert(parts =~= search_parts(*row, show_source));
    }
    to_lowercase(hay.as_str())
}

/// Text found in `a` is still found once more text is put after or before it.
proof fn lemma_contains_extend(a: Seq<char>, b: Seq<char>, needle: Seq<char>)
    requires
        contains_seq(a, needle),
    ensures
        contains_seq(a + b, needle),
        contains_seq(b + a, needle),
{
    let i = choose|i: int| occurs_at(a, needle, i);
    assert((a + b).subrange(i, i + needle.len()) =~= a.subrange(i, i + needle.len()));
    assert(occurs_at(a + b, needle, i));
    assert((b + a).subrange(b.len() + i, b.len() + i + needle.len()) =~= a.subrange(
        i,
        i + needle.len(),
    ));
    assert(occurs_at(b + a, needle, b.len() + i));
}

/// Every part can be found in the parts joined with spaces.
proof fn lemma_part_in_join(parts: Seq<Seq<char>>, k: int)
    requires
        0 <= k < parts.len(),
    ensures
        contains_seq(join_spaced(parts), parts[k]),
    decreases parts.len(),
{
    let last = parts.last();
    assert(last.subrange(0, last.len() as int) =~= last);
    assert(occurs_at(last, last, 0));
    if parts.len() > 1 {
        let front = join_spaced(parts.drop_last());
        if k == parts.len() - 1 {
            lemma_contains_extend(last, front + seq![' '], last);
        } else {
            lemma_part_in_join(parts.drop_last(), k);
            lemma_contains_extend(front, seq![' '], parts[k]);
            lemma_contains_extend(front + seq![' '], last, parts[k]);
        }
    }
}

/// Every field of a record that is set can be found in the text the keyword
/// filter searches (taken before lower-casing): the file name, the row
/// number, the record number, date, amount, balance, counterpart and summary,
/// and the source type name while that column is shown.
pub proof fn law_search_text_holds_every_field(row: RawRecord, show_source: bool)
    ensures
        contains_seq(join_spaced(search_parts(row, show_source)), row.source_file_name@),
        contains_seq(join_spaced(search_parts(row, show_source)), dec_int(row.source_row_no as int)),
        show_source ==> contains_seq(
            join_spaced(search_parts(row, show_source)),
            row.source_type_name@,
        ),
        row.record_no matches Some(v) ==> contains_seq(
            join_spaced(search_parts(row, show_source)),
            v@,
        ),
        row.record_date matches Some(v) ==> contains_seq(
            join_spaced(search_parts(row, show_source)),
            v@,
        ),
        row.amount_total matches Some(v) ==> contains_seq(
            join_spaced(search_parts(row, show_source)),
            v@,
        ),
        row.balance matches Some(v) ==> contains_seq(
            join_spaced(search_parts(row, show_source)),
            v@,
        ),
        row.counterpart_info matches Some(v) ==> contains_seq(
            join_spaced(search_parts(row, show_source)),
            v@,
        ),
        row.summary matches Some(v) ==> contains_seq(
            join_spaced(search_parts(row, show_source)),
            v@,
        ),
{
    let parts = search_parts(row, show_source);
    let b: int = if show_source { 1 } else { 0 };
    let n1 = b + 2 + opt_part(row.record_no).len();
    let n2 = n1 + opt_part(row.record_date).len();
    let n3 = n2 + opt_part(row.amount_total).len();
    let n4 = n3 + opt_part(row.balance).len();
    let n5 = n4 + opt_part(row.counterpart_info).len();
    lemma_search_parts_layout(row, show_source);
    lemma_part_in_join(parts, b);
    lemma_part_in_join(parts, b + 1);
    if show_source {
        lemma_part_in_join(parts, 0);
    }
    if row.record_no is Some {
        lemma_part_in_join(parts, b + 2);
    }
    if row.record_date is Some {
        lemma_part_in_join(parts, n1);
    }
    if row.amount_total is Some {
        lemma_part_in_join(parts, n2);
    }
    if row.balance is Some {
        lemma_part_in_join(parts, n3);
    }
    if row.counterpart_info is Some {
        lemma_part_in_join(parts, n4);
    }
    if row.summary is Some {
        lemma_part_in_join(parts, n5);
    }
}

/// Joining a first part in front of others puts it before them, with a space.
proof fn lemma_join_front(a: Seq<char>, rest: Seq<Seq<char>>)
    requires
        rest.len() > 0,
    ensures
        join_spaced(seq![a] + rest) == a + seq![' '] + join_spaced(rest),
    decreases rest.len(),
{
    let all = seq![a] + rest;
    if rest.len() == 1 {
        assert(all.drop_last() =~= seq![a]);
        assert(all.last() == rest[0]);
        assert(join_spaced(seq![a]) == a);
        assert(join_spaced(rest) == rest[0]);
    } else {
        lemma_join_front(a, rest.drop_last());
        assert(all.drop_last() =~= seq![a] + rest.drop_last());
        assert(all.last() == rest.last());
        assert(join_spaced(rest) == join_spaced(rest.drop_last()) + seq![' '] + rest.last());
        assert(join_spaced(all) =~= a + seq![' '] + join_spaced(rest));
    }
}

/// Showing the source column puts the source type name, then a space, in
/// front of the text the filter searches and changes nothing else.
pub proof fn law_source_column_prefixes_search_text(row: RawRecord)
    ensures
        join_spaced(search_parts(row, true)) == row.source_type_name@ + seq![' '] + join_spaced(
            search_parts(row, false),
        ),
{
    let rest = search_parts(row, false);
    assert(rest[0] == row.source_file_name@);
    assert(search_parts(row, true) =~= seq![row.source_type_name@] + rest);
    lemma_join_front(row.source_type_name@, rest);
}

/// Where each field stands among the searched parts.
proof fn lemma_search_parts_layout(row: RawRecord, show_source: bool)
    ensures
        ({
            let parts = search_parts(row, show_source);
            let b: int = if show_source { 1 } else { 0 };
            let n1 = b + 2 + opt_part(row.record_no).len();
            let n2 = n1 + opt_part(row.record_date).len();
            let n3 = n2 + opt_part(row.amount_total).len();
            let n4 = n3 + opt_part(row.balance).len();
            let n5 = n4 + opt_part(row.counterpart_info).len();
            &&& parts.len() == n5 + opt_part(row.summary).len()
            &&& parts[b] == row.source_file_name@
            &&& parts[b + 1] == dec_int(row.source_row_no as int)
            &&& show_source ==> parts[0] == row.source_type_name@
            &&& row.record_no matches Some(v) ==> parts[b + 2] == v@
            &&& row.record_date matches Some(v) ==> parts[n1] == v@
            &&& row.amount_total matches Some(v) ==> parts[n2] == v@
            &&& row.balance matches Some(v) ==> parts[n3] == v@
            &&& row.counterpart_info matches Some(v) ==> parts[n4] == v@
            &&& row.summary matches Some(v) ==> parts[n5] == v@
        }),
{
    let s0: Seq<Seq<char>> = if show_source {
        seq![row.source_type_name@]
    } else {
        seq![]
    };
    let p1 = s0 + seq![row.source_file_name@, dec_int(row.source_row_no as int)];
    let p2 = p1 + opt_part(row.record_no);
    let p3 = p2 + opt_part(row.record_date);
    let p4 = p3 + opt_part(row.amount_total);
    let p5 = p4 + opt_part(row.balance);
    let p6 = p5 + opt_part(row.counterpart_info);
    let parts = search_parts(row, show_source);
    assert(parts == p6 + opt_part(row.summary));
    assert(parts[s0.len() as int] == row.source_file_name@);
    assert(parts[s0.len() as int + 1] == dec_int(row.source_row_no as int));
    if row.record_no is Some {
        assert(parts[p1.len() as int] == row.record_no->0@);
    }
    if row.record_date is Some {
        assert(parts[p2.len() as int] == row.record_date->0@);
    }
    if row.amount_total is Some {
        assert(parts[p3.len() as int] == row.amount_total->0@);
    }
    if row.balance is Some {
        assert(parts[p4.len() as int] == row.balance->0@);
    }
    if row.counterpart_info is Some {
        assert(parts[p5.len() as int] == row.counterpart_info->0@);
    }
    if row.summary is Some {
        assert(parts[p6.len() as int] == row.summary->0@);
    }
}

/// Whether a record passes the keyword filter (keywords already lower-cased).
pub fn row_matches_keywords(row: &RawRecord, keywords: &Vec<String>, show_source: bool) -> (r:
    bool)
    ensures
        r == row_matches_spec(*row, views(keywords@), show_source),
{
    let hay = search_text(row, show_source);
    let hay_chars = chars_of(hay.as_str());
    let mut i: usize = 0;
    while i < keywords.len()
        invariant
            i <= keywords@.len(),
            hay_chars@ == lowercase_of(join_spaced(search_parts(*row, show_source))),
            forall|j: int|
                0 <= j < i ==> contains_seq(hay_chars@, #[trigger] views(keywords@)[j]),
        decreases keywords@.len() - i,
    {
        let kw = chars_of(keywords[i].as_str());
        if !contains_chars(&hay_chars, &kw) {
            assert(views(keywords@)[i as int] == kw@);
            return false;
        }
        i = i + 1;
    }
    true
}

/// The lower-cased words of a query (`split_whitespace` then `to_lowercase`).
pub open spec fn query_keywords(q: Seq<char>) -> Seq<Seq<char>> {
    ws_words(q).map_values(|w: Seq<char>| lowercase_of(w))
}

/// Splits a query into lower-cased keywords.
pub fn keywords_of(query: &str) -> (r: Vec<String>)
    ensures
        views(r@) == query_keywords(query@),
{
    let words = split_whitespace(query);
    let mut out: Vec<String> = Vec::new();
    let mut k: usize = 0;
    while k < words.len()
        invariant
            views(words@) == ws_words(query@),
            k <= words@.len(),
            out@.len() == k,
            forall|j: int| 0 <= j < k ==> #[trigger] out@[j]@ == lowercase_of(views(words@)[j]),
        decreases words@.len() - k,
    {
        out.push(to_lowercase(words[k].as_str()));
        k = k + 1;
    }
    assert(views(out@) =~= query_keywords(query@));
    out
}

/// The table's two modes: hide rows that do not match, or keep every row and
/// only highlight.
#[derive(Clone, Copy, Debug, PartialEq, Eq, Structural)]
pub enum QueryMode {
    Filter,
    Search,
}

/// The rows a table shows: every row while the query has no word or the table
/// is in search mode, otherwise the rows that match every keyword.
pub open spec fn shown_rows_spec(
    rows: Seq<RawRecord>,
    query: Seq<char>,
    mode: QueryMode,
    show_source: bool,
) -> Seq<RawRecord> {
    let kws = query_keywords(query);
    if kws.len() == 0 || mode == QueryMode::Search {
        rows
    } else {
        rows.filter(|r: RawRecord| row_matches_spec(r, kws, show_source))
    }
}

/// The rows a table shows for the query and mode.
pub fn display_rows(rows: &Vec<RawRecord>, query: &str, mode: QueryMode, show_source: bool) -> (r:
    Vec<RawRecord>)
    ensures
        r@ == shown_rows_spec(rows@, query@, mode, show_source),
{
    let kws = keywords_of(query);
    let ghost k = query_keywords(query@);
    let ghost pred = |r: RawRecord| row_matches_spec(r, k, show_source);
    let mut out: Vec<RawRecord> = Vec::new();
    let all = kws.len() == 0 || mode == QueryMode::Search;
    let mut i: usize = 0;
    while i < rows.len()
        invariant
            i <= rows@.len(),
            views(kws@) == k,
            all == (k.len() == 0 || mode == QueryMode::Search),
            pred == (|r: RawRecord| row_matches_spec(r, k, show_source)),
            all ==> out@ == rows@.take(i as int),
            !all ==> out@ == rows@.take(i as int).filter(pred),
        decreases rows@.len() - i,
    {
        let row = &rows[i];
        proof {
            reveal_with_fuel(Seq::<RawRecord>::filter, 1);
            assert(rows@.take(i + 1).drop_last() =~= rows@.take(i as int));
        }
        if all || row_matches_keywords(row, &kws, show_source) {
            out.push(row.clone());
        }
        assert(all ==> out@ =~= rows@.take(i + 1));
        i = i + 1;
    }
    assert(rows@.take(rows@.len() as int) =~= rows@);
    out
}

proof fn lemma_filtered_from(s: Seq<RawRecord>, pred: spec_fn(RawRecord) -> bool, i: int)
    requires
        0 <= i < s.filter(pred).len(),
    ensures
        s.contains(s.filter(pred)[i]),
    decreases s.len(),
{
    reveal_with_fuel(Seq::<RawRecord>::filter, 1);
    if s.len() > 0 {
        let sub = s.drop_last().filter(pred);
        if i < sub.len() {
            lemma_filtered_from(s.drop_last(), pred, i);
            let j = choose|j: int| 0 <= j < s.drop_last().len() && s.drop_last()[j] == sub[i];
            assert(s[j] == sub[i]);
            if pred(s.last()) {
                assert(s.filter(pred)[i] == sub[i]);
            }
        } else {
            assert(s.filter(pred)[i] == s.last());
            assert(s[s.len() - 1] == s.last());
        }
    }
}

/// More keywords only narrow the filter: a row that matches every keyword of
/// one list matches every keyword of any list whose keywords all occur in it.
pub proof fn law_more_keywords_narrow(
    row: RawRecord,
    fewer: Seq<Seq<char>>,
    more: Seq<Seq<char>>,
    show_source: bool,
)
    requires
        forall|i: int| 0 <= i < fewer.len() ==> more.contains(#[trigger] fewer[i]),
        row_matches_spec(row, more, show_source),
    ensures
        row_matches_spec(row, fewer, show_source),
{
    let hay = lowercase_of(join_spaced(search_parts(row, show_source)));
    assert forall|i: int| 0 <= i < fewer.len() implies contains_seq(hay, #[trigger] fewer[i]) by {
        assert(more.contains(fewer[i]));
        let j = choose|j: int| 0 <= j < more.len() && more[j] == fewer[i];
        assert(contains_seq(hay, more[j]));
    }
}

/// Filtering only hides rows: every row a filtered table shows is one of its
/// rows and matches every keyword of the query, every matching row stays,
/// and in search mode no row is hidden.
pub proof fn law_filter_only_hides(
    rows: Seq<RawRecord>,
    query: Seq<char>,
    show_source: bool,
    i: int,
)
    ensures
        shown_rows_spec(rows, query, QueryMode::Search, show_source) == rows,
        0 <= i < shown_rows_spec(rows, query, QueryMode::Filter, show_source).len() ==> {
            let r = shown_rows_spec(rows, query, QueryMode::Filter, show_source)[i];
            &&& rows.contains(r)
            &&& row_matches_spec(r, query_keywords(query), show_source)
        },
        0 <= i < rows.len() && row_matches_spec(rows[i], query_keywords(query), show_source)
            ==> shown_rows_spec(rows, query, QueryMode::Filter, show_source).contains(rows[i]),
        shown_rows_spec(rows, query, QueryMode::Filter, show_source).len() <= rows.len(),
{
    let kws = query_keywords(query);
    let pred = |r: RawRecord| row_matches_spec(r, kws, show_source);
    if kws.len() > 0 {
        rows.lemma_filter_len(pred);
        if 0 <= i < rows.filter(pred).len() {
            rows.lemma_filter_pred(pred, i);
            #[allow(deprecated)]
            rows.filter_lemma(pred);
            lemma_filtered_from(rows, pred, i);
        }
        if 0 <= i < rows.len() && pred(rows[i]) {
            rows.lemma_filter_contains(pred, i);
        }
    } else {
        if 0 <= i < rows.len() {
            assert(rows.contains(rows[i]));
            assert(row_matches_spec(rows[i], kws, show_source));
        }
    }
}

/// The ids of the shown rows, in order.
pub fn row_ids(rows: &Vec<RawRecord>) -> (r: Vec<i64>)
    ensures
        r@ == rows@.map_values(|x: RawRecord| x.id),
{
    let mut out: Vec<i64> = Vec::new();
    let mut i: usize = 0;
    while i < rows.len()
        invariant
            i <= rows@.len(),
            out@ == rows@.take(i as int).map_values(|x: RawRecord| x.id),
        decreases rows@.len() - i,
    {
        out.push(rows[i].id);
        i = i + 1;
        assert(out@ =~= rows@.take(i as int).map_values(|x: RawRecord| x.id));
    }
    assert(rows@.take(rows@.len() as int) =~= rows@);
    out
}

/// The first position of `c` in `ids` (`iter().position`).
pub open spec fn position_of(ids: Seq<i64>, c: i64) -> Option<int>
    decreases ids.len(),
{
    if ids.len() == 0 {
        None
    } else {
        match position_of(ids.drop_last(), c) {
            Some(i) => Some(i),
            None => if ids.last() == c {
                Some(ids.len() - 1)
            } else {
                None
            },
        }
    }
}

/// The position the down arrow selects: the row after the selected one, or
/// the first row when nothing (or the last row) is selected; none when the
/// table is empty.
pub open spec fn next_position(ids: Seq<i64>, current: Option<i64>) -> Option<int> {
    if ids.len() == 0 {
        None
    } else {
        let pos = match current {
            Some(c) => position_of(ids, c),
            None => None,
        };
        match pos {
            Some(i) => if i + 1 < ids.len() {
                Some(i + 1)
            } else {
                Some(0)
            },
            None => Some(0),
        }
    }
}

/// The position the up arrow selects: the row before the selected one, the
/// last row when the first is selected, the first row when nothing is
/// selected; none when the table is empty.
pub open spec fn prev_position(ids: Seq<i64>, current: Option<i64>) -> Option<int> {
    if ids.len() == 0 {
        None
    } else {
        let pos = match current {
            Some(c) => position_of(ids, c),
            None => None,
        };
        match pos {
            Some(i) => if i == 0 {
                Some(ids.len() - 1)
            } else {
                Some(i - 1)
            },
            None => Some(0),
        }
    }
}

/// Finds the first position of `c`.
pub fn find_position(ids: &Vec<i64>, c: i64) -> (r: Option<usize>)
    ensures
        match r {
            Some(i) => position_of(ids@, c) == Some(i as int) && i < ids@.len(),
            None => position_of(ids@, c) is None,
        },
{
    let mut i: usize = 0;
    while i < ids.len()
        invariant
            i <= ids@.len(),
            position_of(ids@.take(i as int), c) is None,
        decreases ids@.len() - i,
    {
        assert(ids@.take(i + 1).drop_last() =~= ids@.take(i as int));
        if ids[i] == c {
            proof {
                lemma_position_extends(ids@, c, i as int + 1);
            }
            return Some(i);
        }
        i = i + 1;
    }
    assert(ids@.take(ids@.len() as int) =~= ids@);
    None
}

/// A position found in a prefix is the position in the whole list.
pub proof fn lemma_position_extends(ids: Seq<i64>, c: i64, k: int)
    requires
        0 <= k <= ids.len(),
        position_of(ids.take(k), c) is Some,
    ensures
        position_of(ids, c) == position_of(ids.take(k), c),
    decreases ids.len() - k,
{
    if k < ids.len() {
        assert(ids.take(k + 1).drop_last() =~= ids.take(k));
        lemma_position_extends(ids, c, k + 1);
    } else {
        assert(ids.take(k) =~= ids);
    }
}

/// The row the down arrow moves the selection to.
pub fn select_next(ids: &Vec<i64>, current: Option<i64>) -> (r: Option<usize>)
    ensures
        match r {
            Some(i) => next_position(ids@, current) == Some(i as int) && i < ids@.len(),
            None => next_position(ids@, current) is None,
        },
{
    if ids.len() == 0 {
        return None;
    }
    let pos = match current {
        Some(c) => find_position(ids, c),
        None => None,
    };
    match pos {
        Some(i) => if i + 1 < ids.len() {
            Some(i + 1)
        } else {
            Some(0)
        },
        None => Some(0),
    }
}

/// The row the up arrow moves the selection to.
pub fn select_prev(ids: &Vec<i64>, current: Option<i64>) -> (r: Option<usize>)
    ensures
        match r {
            Some(i) => prev_position(ids@, current) == Some(i as int) && i < ids@.len(),
            None => prev_position(ids@, current) is None,
        },
{
    if ids.len() == 0 {
        return None;
    }
    let pos = match current {
        Some(c) => find_position(ids, c),
        None => None,
    };
    match pos {
        Some(i) => if i == 0 {
            Some(ids.len() - 1)
        } else {
            Some(i - 1)
        },
        None => Some(0),
    }
}

/// In a list without repeated ids, the position of the id at `j` is `j`.
pub proof fn lemma_position_distinct(ids: Seq<i64>, j: int)
    requires
        0 <= j < ids.len(),
        forall|a: int, b: int| 0 <= a < b < ids.len() ==> ids[a] != ids[b],
    ensures
        position_of(ids, ids[j]) == Some(j),
    decreases ids.len(),
{
    let d = ids.drop_last();
    if j < ids.len() - 1 {
        lemma_position_distinct(d, j);
        assert(d[j] == ids[j]);
    } else {
        lemma_position_absent(d, ids[j]);
    }
}

/// An id that does not occur has no position.
pub proof fn lemma_position_absent(ids: Seq<i64>, c: i64)
    requires
        forall|a: int| 0 <= a < ids.len() ==> ids[a] != c,
    ensures
        position_of(ids, c) is None,
    decreases ids.len(),
{
    if ids.len() > 0 {
        lemma_position_absent(ids.drop_last(), c);
    }
}

/// Down then up returns to the row one started from, and up then down as
/// well, whenever a row of a table without repeated ids is selected.
pub proof fn law_next_then_prev_restores(ids: Seq<i64>, j: int)
    requires
        0 <= j < ids.len(),
        forall|a: int, b: int| 0 <= a < b < ids.len() ==> ids[a] != ids[b],
    ensures
        next_position(ids, Some(ids[j])) matches Some(n) && 0 <= n < ids.len() && prev_position(
            ids,
            Some(ids[n]),
        ) == Some(j),
        prev_position(ids, Some(ids[j])) matches Some(p) && 0 <= p < ids.len() && next_position(
            ids,
            Some(ids[p]),
        ) == Some(j),
{
    lemma_position_distinct(ids, j);
    let n = if j + 1 < ids.len() {
        j + 1
    } else {
        0
    };
    lemma_position_distinct(ids, n);
    let p = if j == 0 {
        ids.len() - 1
    } else {
        j - 1
    };
    lemma_position_distinct(ids, p);
}

/// The row class that shows the balance-continuity check: a confirmed row is
/// always fine, otherwise "ok" is fine, "mismatch" is flagged, anything else skipped.
pub open spec fn balance_class_spec(status: Option<Seq<char>>, confirmed: bool) -> Seq<char> {
    if confirmed {
        "balance-ok"@
    } else {
        match status {
            Some(s) => if s == "ok"@ {
                "balance-ok"@
            } else if s == "mismatch"@ {
                "balance-mismatch"@
            } else {
                "balance-skip"@
            },
            None => "balance-skip"@,
        }
    }
}

/// The balance-check class of a record row.
pub fn balance_class(row: &RawRecord) -> (r: &'static str)
    ensures
        r@ == balance_class_spec(
            match row.balance_check_status {
                Some(s) => Some(s@),
                None => None,
            },
            row.balance_confirmed_at is Some,
        ),
{
    if row.balance_confirmed_at.is_some() {
        return "balance-ok";
    }
    match &row.balance_check_status {
        Some(s) => if str_eq(s.as_str(), "ok") {
            "balance-ok"
        } else if str_eq(s.as_str(), "mismatch") {
            "balance-mismatch"
        } else {
            "balance-skip"
        },
        None => "balance-skip",
    }
}

} // verus!
