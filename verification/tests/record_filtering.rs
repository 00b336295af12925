use forgefin::columns::{column_label, default_columns};
use forgefin::highlight::{highlight_checked, highlight_text, HighlightSegment};
use forgefin::ipc::RawRecord;
use forgefin::record_table::{
    first_page_filter, key_action, mode_button_class, query_placeholder, row_key_selects,
    KeyAction, RawRecordFilterState,
};
use forgefin::records::{
    balance_class, display_rows, keywords_of, row_ids, row_matches_keywords, search_text,
    select_next, select_prev, QueryMode,
};

fn record(id: i64, file: &str, summary: Option<&str>) -> RawRecord {
    RawRecord {
        id,
        import_batch_id: 1,
        source_type: "bank_flow".to_string(),
        source_type_name: "银行流水".to_string(),
        source_file_name: file.to_string(),
        source_row_no: id * 10,
        record_no: None,
        record_date: Some("2024-06-01".to_string()),
        amount_total: Some("100".to_string()),
        balance: None,
        counterpart_info: None,
        summary: summary.map(|s| s.to_string()),
        currency: "CNY".to_string(),
        status: "pending".to_string(),
        balance_check_status: None,
        balance_confirmed_at: None,
    }
}

fn pieces(v: &[HighlightSegment]) -> Vec<(String, bool)> {
    v.iter().map(|s| (s.text.clone(), s.highlighted)).collect()
}

#[test]
fn search_text_joins_parts_lowercased() {
    let r = record(3, "Bank.TSV", Some("Rent JUNE"));
    assert_eq!(search_text(&r, false), "bank.tsv 30 2024-06-01 100 rent june");
    assert_eq!(search_text(&r, true), "银行流水 bank.tsv 30 2024-06-01 100 rent june");
}

#[test]
fn keywords_are_lowercased_words() {
    assert_eq!(keywords_of("  Rent   JUNE "), vec!["rent".to_string(), "june".to_string()]);
    assert!(keywords_of("   ").is_empty());
}

#[test]
fn a_row_matches_when_every_keyword_occurs() {
    let r = record(3, "bank.tsv", Some("Rent June"));
    assert!(row_matches_keywords(&r, &keywords_of("RENT june"), false));
    assert!(!row_matches_keywords(&r, &keywords_of("rent july"), false));
    assert!(!row_matches_keywords(&r, &keywords_of("银行"), false));
    assert!(row_matches_keywords(&r, &keywords_of("银行"), true));
}

#[test]
fn filter_mode_hides_and_search_mode_keeps() {
    let rows = vec![
        record(1, "a.tsv", Some("rent")),
        record(2, "b.tsv", Some("salary")),
        record(3, "c.tsv", Some("Rent deposit")),
    ];
    let shown = display_rows(&rows, "rent", QueryMode::Filter, false);
    assert_eq!(row_ids(&shown), vec![1, 3]);
    let all = display_rows(&rows, "rent", QueryMode::Search, false);
    assert_eq!(row_ids(&all), vec![1, 2, 3]);
    let empty_query = display_rows(&rows, "  ", QueryMode::Filter, false);
    assert_eq!(row_ids(&empty_query), vec![1, 2, 3]);
}

#[test]
fn arrows_wrap_around() {
    let ids = vec![10, 20, 30];
    assert_eq!(select_next(&ids, None), Some(0));
    assert_eq!(select_next(&ids, Some(20)), Some(2));
    assert_eq!(select_next(&ids, Some(30)), Some(0));
    assert_eq!(select_next(&ids, Some(99)), Some(0));
    assert_eq!(select_prev(&ids, Some(10)), Some(2));
    assert_eq!(select_prev(&ids, Some(30)), Some(1));
    assert_eq!(select_prev(&ids, None), Some(0));
    assert_eq!(select_next(&vec![], Some(1)), None);
}

#[test]
fn down_then_up_restores_the_selection() {
    let ids = vec![10, 20, 30, 40];
    for (j, id) in ids.iter().enumerate() {
        let n = select_next(&ids, Some(*id)).unwrap();
        let back = select_prev(&ids, Some(ids[n])).unwrap();
        assert_eq!(back, j);
        let p = select_prev(&ids, Some(*id)).unwrap();
        let fwd = select_next(&ids, Some(ids[p])).unwrap();
        assert_eq!(fwd, j);
    }
}

#[test]
fn balance_classes() {
    let mut r = record(1, "a", None);
    assert_eq!(balance_class(&r), "balance-skip");
    r.balance_check_status = Some("ok".to_string());
    assert_eq!(balance_class(&r), "balance-ok");
    r.balance_check_status = Some("mismatch".to_string());
    assert_eq!(balance_class(&r), "balance-mismatch");
    r.balance_confirmed_at = Some("2024-06-02".to_string());
    assert_eq!(balance_class(&r), "balance-ok");
}

#[test]
fn highlight_is_case_insensitive() {
    let v = highlight_text("Hello World", "world");
    assert_eq!(pieces(&v), vec![("Hello ".to_string(), false), ("World".to_string(), true)]);
}

#[test]
fn highlight_uses_non_overlapping_matches() {
    let v = highlight_text("aaa", "aa");
    assert_eq!(pieces(&v), vec![("aa".to_string(), true), ("a".to_string(), false)]);
}

#[test]
fn highlight_merges_touching_matches_and_keeps_gaps() {
    let v = highlight_text("abcd", "ab cd");
    assert_eq!(pieces(&v), vec![("abcd".to_string(), true)]);
    let w = highlight_text("abXcd", "CD ab");
    assert_eq!(
        pieces(&w),
        vec![("ab".to_string(), true), ("X".to_string(), false), ("cd".to_string(), true)]
    );
}

#[test]
fn highlight_without_words_or_matches_shows_the_text() {
    assert_eq!(pieces(&highlight_text("abc", "")), vec![("abc".to_string(), false)]);
    assert_eq!(pieces(&highlight_text("abc", "   ")), vec![("abc".to_string(), false)]);
    assert_eq!(pieces(&highlight_text("abc", "zz")), vec![("abc".to_string(), false)]);
}

#[test]
fn highlight_cuts_at_byte_positions_of_the_lowered_text() {
    // "İ" lowers to two characters, one byte longer; the match before it
    // still falls on the same bytes of the text.
    let v = highlight_text("aİ", "a");
    assert_eq!(pieces(&v), vec![("a".to_string(), true), ("İ".to_string(), false)]);
    // "Ⱥ" takes two bytes and its lower case three.
    let w = highlight_text("bȺ", "B");
    assert_eq!(pieces(&w), vec![("b".to_string(), true), ("Ⱥ".to_string(), false)]);
    let x = highlight_checked("Hello", "LL").unwrap();
    assert_eq!(
        pieces(&x),
        vec![("He".to_string(), false), ("ll".to_string(), true), ("o".to_string(), false)]
    );
}

#[test]
fn highlight_refuses_matches_that_cannot_be_cut_from_the_text() {
    // After a longer lower case the match lies past the end of the text.
    assert!(highlight_checked("İa", "a").is_none());
    assert!(highlight_checked("Ⱥb", "b").is_none());
    // Where nothing matches, nothing is cut.
    assert_eq!(pieces(&highlight_checked("İa", "z").unwrap()), vec![("İa".to_string(), false)]);
}

#[test]
fn highlight_pieces_join_to_the_text() {
    for (t, q) in [("Rent JUNE rent", "rent"), ("银行流水", "流"), ("abcabc", "bc a"), ("", "x")] {
        let joined: String = highlight_text(t, q).iter().map(|s| s.text.clone()).collect();
        assert_eq!(joined, t);
    }
}

#[test]
fn a_new_filter_state_starts_from_the_default_columns() {
    let mut st = RawRecordFilterState::new(vec![record(1, "a.tsv", None)], "bank_flow".to_string());
    let c = &st.columns;
    assert_eq!(c.entries.len(), 10);
    let keys: Vec<&str> = c.entries.iter().map(|e| e.key.as_str()).collect();
    assert_eq!(
        keys,
        vec![
            "source_type", "source_file_name", "source_row_no", "record_no", "record_date",
            "amount_total", "balance", "counterpart_info", "summary", "status",
        ]
    );
    assert_eq!(c.get("source_file_name"), Some(false));
    assert_eq!(c.get("source_row_no"), Some(false));
    assert_eq!(c.get("status"), Some(true));
    assert!(!st.saves_columns);
    assert!(st.toggle_column("status").is_none());
}

#[test]
fn toggled_columns_are_handed_over_for_saving() {
    let mut st = RawRecordFilterState::with_columns(
        vec![record(1, "a.tsv", None)],
        "bank_flow".to_string(),
        default_columns(),
        true,
    );
    let saved = st.toggle_column("balance").unwrap();
    assert_eq!(saved.get("balance"), Some(false));
    assert_eq!(saved.visible_count(), 7);
    assert_eq!(st.columns.get("balance"), Some(false));
}

#[test]
fn more_keywords_only_narrow() {
    let r = record(3, "bank.tsv", Some("Rent June"));
    for (fewer, more) in [("rent", "rent june"), ("june", "rent june bank"), ("", "x")] {
        if row_matches_keywords(&r, &keywords_of(more), false) {
            assert!(row_matches_keywords(&r, &keywords_of(fewer), false));
        }
    }
    assert!(row_matches_keywords(&r, &keywords_of("rent"), false));
    assert!(!row_matches_keywords(&r, &keywords_of("rent july"), false));
}

#[test]
fn filter_state_counts_and_hints() {
    let rows = vec![record(1, "a.tsv", Some("rent")), record(2, "b.tsv", Some("salary"))];
    let mut st = RawRecordFilterState::new(rows, "bank_flow".to_string());
    assert_eq!(st.total_after(), 2);
    assert_eq!(st.filter_hint(), "");
    st.set_query("rent".to_string());
    assert_eq!(st.display_ids(), vec![1]);
    assert_eq!(st.filter_hint(), "1 / 2 条");
    st.set_mode(QueryMode::Search);
    assert_eq!(st.total_after(), 2);
    assert_eq!(st.filter_hint(), "");
    assert_eq!(st.column_counter(), "(8/10)");
    st.toggle_column("source_row_no");
    assert_eq!(st.column_counter(), "(9/10)");
    assert_eq!(st.select_next(Some(1)), Some((2, 1)));
    assert_eq!(st.select_prev(Some(1)), Some((2, 1)));
}

#[test]
fn source_column_widens_the_filter() {
    let rows = vec![record(1, "a.tsv", None)];
    let mut st = RawRecordFilterState::new(rows, "bank_flow".to_string());
    assert!(st.show_source());
    st.set_query("银行".to_string());
    assert_eq!(st.total_after(), 1);
    st.toggle_column("source_type");
    assert!(!st.show_source());
    assert_eq!(st.total_after(), 0);
}

#[test]
fn default_column_settings() {
    let c = default_columns();
    assert_eq!(c.visible_count(), 8);
    assert_eq!(c.get("source_file_name"), Some(false));
    assert_eq!(c.get("summary"), Some(true));
    assert_eq!(c.get("nope"), None);
    assert_eq!(column_label("counterpart_info"), "对方信息");
    assert_eq!(column_label("nope"), "?");
}

#[test]
fn keys_and_modes() {
    assert_eq!(key_action("f", true), KeyAction::FocusQuery);
    assert_eq!(key_action("f", false), KeyAction::Nothing);
    assert_eq!(key_action("/", false), KeyAction::FocusQuery);
    assert_eq!(key_action("Escape", false), KeyAction::ClearQuery);
    assert_eq!(key_action("ArrowDown", false), KeyAction::SelectNext);
    assert_eq!(key_action("ArrowUp", true), KeyAction::SelectPrev);
    assert!(row_key_selects("Enter"));
    assert!(row_key_selects(" "));
    assert!(!row_key_selects("a"));
    assert_eq!(mode_button_class(true), "btn btn-primary btn-sm");
    assert_eq!(query_placeholder(QueryMode::Search), "输入关键词查找（空格分隔多关键词）高亮匹配文本");
    let f = first_page_filter("chat_record");
    assert_eq!(f.source_type.as_deref(), Some("chat_record"));
    assert_eq!((f.batch_id, f.page, f.page_size), (None, 1, 50));
}
