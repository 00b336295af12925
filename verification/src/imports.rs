//! The import centre and the records library: the checks before a scan or
//! an import, the names of source types and file states, the summary of an
//! import run, the state of scanned files after an import, and the batch list
//! filter.

use vstd::prelude::*;
use crate::number::{dec_int, dec_nat, framed_count, framed_int};
use crate::records::clone_opt_string;
use crate::search::{FieldKind, SearchField, SelectOption, select_field_is, text_field_is};
use crate::text::{
    condition_of, contains_seq, contains_str, is_blank, is_blank_seq, lowercase_of, non_empty,
    opt_text, str_eq, to_lowercase,
};

verus! {

/// A file found by a directory scan.
#[derive(Clone, Debug)]
pub struct RawFileInfo {
    pub file_name: String,
    pub file_path: String,
    pub source_type: String,
    pub row_count: i32,
    pub status: String,
}

/// A file imported earlier: one batch of raw records.
#[derive(Debug)]
pub struct ImportBatch {
    pub id: i64,
    pub file_name: String,
    pub file_path: String,
    pub source_type: String,
    pub row_count: i32,
    pub imported_at: String,
    pub created_by: Option<String>,
}

impl Clone for ImportBatch {
    fn clone(&self) -> (r: Self)
        ensures
            r == *self,
    {
        ImportBatch {
            id: self.id,
            file_name: self.file_name.clone(),
            file_path: self.file_path.clone(),
            source_type: self.source_type.clone(),
            row_count: self.row_count,
            imported_at: self.imported_at.clone(),
            created_by: clone_opt_string(&self.created_by),
        }
    }
}

/// The outcome of importing one file.
#[derive(Clone, Debug)]
pub struct ImportResult {
    pub batch_id: i64,
    pub file_name: String,
    pub row_count: i32,
    pub skipped_count: i32,
    pub balance_check_warning: Option<String>,
}

/// The outcome of importing a whole directory.
#[derive(Clone, Debug)]
pub struct ImportDirResult {
    pub imported: Vec<ImportResult>,
    pub skipped: Vec<String>,
    pub errors: Vec<String>,
}

/// The Chinese name of a source type; an unknown type keeps its code.
pub open spec fn source_type_spec(st: Seq<char>) -> Seq<char> {
    if st == "bank_flow"@ {
        "银行流水"@
    } else if st == "order_flow"@ {
        "订单流水"@
    } else if st == "pos_flow"@ {
        "POS流水"@
    } else if st == "summary_flow"@ {
        "数据汇总"@
    } else {
        st
    }
}

/// The Chinese name of a source type.
pub fn source_type_label(st: &str) -> (r: String)
    ensures
        r@ == source_type_spec(st@),
{
    if str_eq(st, "bank_flow") {
        String::from_str("银行流水")
    } else if str_eq(st, "order_flow") {
        String::from_str("订单流水")
    } else if str_eq(st, "pos_flow") {
        String::from_str("POS流水")
    } else if str_eq(st, "summary_flow") {
        String::from_str("数据汇总")
    } else {
        String::from_str(st)
    }
}

/// The label of a scanned file's state.
pub fn file_status_label(status: &str) -> (r: &'static str)
    ensures
        r@ == (if status@ == "imported"@ {
            "已导入"@
        } else if status@ == "pending"@ {
            "未导入"@
        } else if status@ == "unsupported"@ {
            "不支持的文件类型"@
        } else {
            "未知"@
        }),
{
    if str_eq(status, "imported") {
        "已导入"
    } else if str_eq(status, "pending") {
        "未导入"
    } else if str_eq(status, "unsupported") {
        "不支持的文件类型"
    } else {
        "未知"
    }
}

/// The text colour of a scanned file's state.
pub fn file_status_class(status: &str) -> (r: &'static str)
    ensures
        r@ == (if status@ == "imported"@ {
            "text-success"@
        } else if status@ == "pending"@ {
            "text-warning"@
        } else if status@ == "unsupported"@ {
            "text-danger"@
        } else {
            "text-tertiary"@
        }),
{
    if str_eq(status, "imported") {
        "text-success"
    } else if str_eq(status, "pending") {
        "text-warning"
    } else if str_eq(status, "unsupported") {
        "text-danger"
    } else {
        "text-tertiary"
    }
}

/// Which path an import form asks for; each refuses a blank entry with its
/// own message.
#[derive(Clone, Copy, PartialEq, Eq, Structural, Debug)]
pub enum PathField {
    Directory,
    SingleFile,
    Upload,
}

/// The message that refuses a blank path in a form.
pub open spec fn blank_path_message(field: PathField) -> Seq<char> {
    match field {
        PathField::Directory => "请输入原始文件目录路径"@,
        PathField::SingleFile => "请输入文件路径"@,
        PathField::Upload => "请选择或输入文件路径"@,
    }
}

/// The refusal of a scan or import: a blank path is refused.
pub fn path_error(field: PathField, path: &str) -> (r: Option<&'static str>)
    ensures
        match r {
            Some(m) => is_blank_seq(path@) && m@ == blank_path_message(field),
            None => !is_blank_seq(path@),
        },
{
    if is_blank(path) {
        Some(
            match field {
                PathField::Directory => "请输入原始文件目录路径",
                PathField::SingleFile => "请输入文件路径",
                PathField::Upload => "请选择或输入文件路径",
            },
        )
    } else {
        None
    }
}

/// The refusal to show a file's content: its stored path is empty.
pub fn content_path_error(file_path: &str) -> (r: Option<&'static str>)
    ensures
        match r {
            Some(m) => file_path@.len() == 0 && m@ == "文件路径为空"@,
            None => file_path@.len() > 0,
        },
{
    if file_path.unicode_len() == 0 {
        Some("文件路径为空")
    } else {
        None
    }
}

/// The notice after a scan that found no file.
pub fn scan_notice(found: usize) -> (r: Option<&'static str>)
    ensures
        match r {
            Some(m) => found == 0 && m@ == "目录中未找到支持的原始凭证文件"@,
            None => found > 0,
        },
{
    if found == 0 {
        Some("目录中未找到支持的原始凭证文件")
    } else {
        None
    }
}

/// `共 n 个文件`.
pub fn file_count_text(n: usize) -> (r: String)
    ensures
        r@ == "共 "@ + dec_nat(n as nat) + " 个文件"@,
{
    framed_count("共 ", n as u64, " 个文件")
}

/// `g` is the scanned file `f` after an import of the file named `name`:
/// marked imported when the names agree, otherwise unchanged.
pub open spec fn imported_as(f: RawFileInfo, g: RawFileInfo, name: Seq<char>) -> bool {
    &&& g.file_name == f.file_name
    &&& g.file_path == f.file_path
    &&& g.source_type == f.source_type
    &&& g.row_count == f.row_count
    &&& g.status@ == (if f.file_name@ == name {
        "imported"@
    } else {
        f.status@
    })
}

/// Marks every scanned file with the given name as imported; the others and
/// every other field stay as they were.
pub fn mark_imported(files: &mut Vec<RawFileInfo>, name: &str)
    ensures
        final(files)@.len() == old(files)@.len(),
        forall|i: int|
            0 <= i < old(files)@.len() ==> imported_as(
                old(files)@[i],
                #[trigger] final(files)@[i],
                name@,
            ),
{
    let mut i: usize = 0;
    while i < files.len()
        invariant
            i <= files@.len(),
            files@.len() == old(files)@.len(),
            forall|j: int| 0 <= j < i ==> imported_as(old(files)@[j], #[trigger] files@[j], name@),
            forall|j: int| i <= j < files@.len() ==> #[trigger] files@[j] == old(files)@[j],
        decreases files@.len() - i,
    {
        if str_eq(files[i].file_name.as_str(), name) {
            let f = RawFileInfo {
                file_name: files[i].file_name.clone(),
                file_path: files[i].file_path.clone(),
                source_type: files[i].source_type.clone(),
                row_count: files[i].row_count,
                status: String::from_str("imported"),
            };
            files.set(i, f);
        }
        i = i + 1;
    }
}

/// Marking the same file imported twice changes nothing more than the
/// first time.
pub proof fn law_mark_imported_twice(f: RawFileInfo, g: RawFileInfo, h: RawFileInfo, name: Seq<char>)
    requires
        imported_as(f, g, name),
        imported_as(g, h, name),
    ensures
        h.file_name == g.file_name,
        h.file_path == g.file_path,
        h.source_type == g.source_type,
        h.row_count == g.row_count,
        h.status@ == g.status@,
{
}

/// Whether a scanned file offers its import button: only a pending one.
pub fn can_import(status: &str) -> (r: bool)
    ensures
        r == (status@ == "pending"@),
{
    str_eq(status, "pending")
}

/// Whether the file of that name is being imported right now.
pub fn is_importing(importing: &Option<String>, name: &str) -> (r: bool)
    ensures
        r == (match *importing {
            Some(n) => n@ == name@,
            None => false,
        }),
{
    match importing {
        Some(n) => str_eq(n.as_str(), name),
        None => false,
    }
}

/// The three counts of a directory import: imported, skipped and failed.
pub fn import_counts(r: &ImportDirResult) -> (out: (String, String, String))
    ensures
        out.0@ == "导入成功 "@ + dec_nat(r.imported@.len()),
        out.1@ == "已跳过 "@ + dec_nat(r.skipped@.len()),
        out.2@ == "失败 "@ + dec_nat(r.errors@.len()),
{
    proof {
        reveal_strlit("");
        assert(""@ =~= Seq::<char>::empty());
        assert("导入成功 "@ + dec_nat(r.imported@.len()) + ""@ =~= "导入成功 "@ + dec_nat(r.imported@.len()));
        assert("已跳过 "@ + dec_nat(r.skipped@.len()) + ""@ =~= "已跳过 "@ + dec_nat(r.skipped@.len()));
        assert("失败 "@ + dec_nat(r.errors@.len()) + ""@ =~= "失败 "@ + dec_nat(r.errors@.len()));
    }
    (
        framed_count("导入成功 ", r.imported.len() as u64, ""),
        framed_count("已跳过 ", r.skipped.len() as u64, ""),
        framed_count("失败 ", r.errors.len() as u64, ""),
    )
}

/// The balance warnings of a directory import, as `file: message` lines,
/// in import order.
pub open spec fn warning_lines(items: Seq<ImportResult>) -> Seq<Seq<char>>
    decreases items.len(),
{
    if items.len() == 0 {
        Seq::empty()
    } else {
        let rest = warning_lines(items.drop_last());
        match items.last().balance_check_warning {
            Some(w) => rest.push(items.last().file_name@ + ": "@ + w@),
            None => rest,
        }
    }
}

/// The lines under "余额校验警告" after a directory import.
pub fn balance_warnings(r: &ImportDirResult) -> (out: Vec<String>)
    ensures
        out@.map_values(|s: String| s@) == warning_lines(r.imported@),
{
    let items = &r.imported;
    let mut out: Vec<String> = Vec::new();
    let mut i: usize = 0;
    while i < items.len()
        invariant
            i <= items@.len(),
            out@.map_values(|s: String| s@) == warning_lines(items@.take(i as int)),
        decreases items@.len() - i,
    {
        assert(items@.take(i + 1).drop_last() =~= items@.take(i as int));
        assert(items@.take(i + 1).last() == items@[i as int]);
        match &items[i].balance_check_warning {
            Some(w) => {
                let mut line = items[i].file_name.clone();
                line.append(": ");
                line.append(w.as_str());
                let ghost before = out@;
                out.push(line);
                assert(out@.map_values(|s: String| s@) =~= before.map_values(|s: String| s@).push(
                    line@,
                ));
            },
            None => {},
        }
        i = i + 1;
    }
    assert(items@.take(items@.len() as int) =~= items@);
    out
}

/// The lines after importing one file: what was imported, the duplicate
/// rows skipped (when there were some) and the balance warning (when any).
pub fn single_import_lines(r: &ImportResult) -> (out: (String, Option<String>, Option<String>))
    ensures
        out.0@ == "导入成功: "@ + r.file_name@ + " ("@ + dec_int(r.row_count as int) + " 行, batch_id="@
            + dec_int(r.batch_id as int) + ")"@,
        opt_text(out.1) == (if r.skipped_count > 0 {
            Some("跳过 "@ + dec_int(r.skipped_count as int) + " 条重复行"@)
        } else {
            None
        }),
        opt_text(out.2) == (match r.balance_check_warning {
            Some(w) => Some("余额校验警告: "@ + w@),
            None => None,
        }),
{
    let mut head = String::from_str("导入成功: ");
    head.append(r.file_name.as_str());
    let rows = framed_int(" (", r.row_count as i64, " 行, batch_id=");
    head.append(rows.as_str());
    let id = framed_int("", r.batch_id, ")");
    head.append(id.as_str());
    proof {
        reveal_strlit("");
        assert(""@ =~= Seq::<char>::empty());
    }
    let skipped = if r.skipped_count > 0 {
        Some(framed_int("跳过 ", r.skipped_count as i64, " 条重复行"))
    } else {
        None
    };
    let warning = match &r.balance_check_warning {
        Some(w) => {
            let mut s = String::from_str("余额校验警告: ");
            s.append(w.as_str());
            Some(s)
        },
        None => None,
    };
    assert(head@ =~= "导入成功: "@ + r.file_name@ + " ("@ + dec_int(r.row_count as int) + " 行, batch_id="@
        + dec_int(r.batch_id as int) + ")"@);
    (head, skipped, warning)
}

/// A batch is kept by the name filter: an empty lowered query keeps every
/// batch, else the lowered file name must contain it.
pub open spec fn batch_kept(b: ImportBatch, lowered_query: Seq<char>) -> bool {
    lowered_query.len() == 0 || contains_seq(lowercase_of(b.file_name@), lowered_query)
}

/// The batches the name filter keeps, in order.
pub open spec fn kept_batches(items: Seq<ImportBatch>, lowered_query: Seq<char>) -> Seq<ImportBatch>
    decreases items.len(),
{
    if items.len() == 0 {
        Seq::empty()
    } else {
        let rest = kept_batches(items.drop_last(), lowered_query);
        if batch_kept(items.last(), lowered_query) {
            rest.push(items.last())
        } else {
            rest
        }
    }
}

/// The batches whose file name contains the search text, ignoring case
/// (both sides lower-cased by `str::to_lowercase`).
pub fn filter_batches(batches: &Vec<ImportBatch>, search: &str) -> (r: Vec<ImportBatch>)
    ensures
        r@ == kept_batches(batches@, lowercase_of(search@)),
{
    let query = to_lowercase(search);
    let mut out: Vec<ImportBatch> = Vec::new();
    let mut i: usize = 0;
    while i < batches.len()
        invariant
            i <= batches@.len(),
            query@ == lowercase_of(search@),
            out@ == kept_batches(batches@.take(i as int), query@),
        decreases batches@.len() - i,
    {
        assert(batches@.take(i + 1).drop_last() =~= batches@.take(i as int));
        assert(batches@.take(i + 1).last() == batches@[i as int]);
        let keep = if query.unicode_len() == 0 {
            true
        } else {
            let lowered = to_lowercase(batches[i].file_name.as_str());
            contains_str(lowered.as_str(), query.as_str())
        };
        if keep {
            out.push(batches[i].clone());
        }
        i = i + 1;
    }
    assert(batches@.take(batches@.len() as int) =~= batches@);
    out
}

/// The position of the first batch with the given id.
pub open spec fn batch_index(items: Seq<ImportBatch>, id: i64) -> Option<int>
    decreases items.len(),
{
    if items.len() == 0 {
        None
    } else if items[0].id == id {
        Some(0)
    } else {
        match batch_index(items.drop_first(), id) {
            Some(k) => Some(k + 1),
            None => None,
        }
    }
}

proof fn lemma_batch_index_found(items: Seq<ImportBatch>, id: i64, k: int)
    requires
        0 <= k < items.len(),
        items[k].id == id,
        forall|j: int| 0 <= j < k ==> items[j].id != id,
    ensures
        batch_index(items, id) == Some(k),
    decreases k,
{
    if k > 0 {
        lemma_batch_index_found(items.drop_first(), id, k - 1);
    }
}

proof fn lemma_batch_index_none(items: Seq<ImportBatch>, id: i64)
    requires
        forall|j: int| 0 <= j < items.len() ==> items[j].id != id,
    ensures
        batch_index(items, id) is None,
    decreases items.len(),
{
    if items.len() > 0 {
        lemma_batch_index_none(items.drop_first(), id);
    }
}

/// The batch the detail panel shows: the first with the selected id.
pub fn selected_batch(batches: &Vec<ImportBatch>, selected: Option<i64>) -> (r: Option<usize>)
    ensures
        match selected {
            Some(id) => match r {
                Some(i) => batch_index(batches@, id) == Some(i as int),
                None => batch_index(batches@, id) is None,
            },
            None => r is None,
        },
{
    if selected.is_none() {
        return None;
    }
    let id = selected.unwrap();
    let mut i: usize = 0;
    while i < batches.len()
        invariant
            selected == Some(id),
            i <= batches@.len(),
            forall|j: int| 0 <= j < i ==> batches@[j].id != id,
        decreases batches@.len() - i,
    {
        if batches[i].id == id {
            proof {
                lemma_batch_index_found(batches@, id, i as int);
            }
            return Some(i);
        }
        i = i + 1;
    }
    proof {
        lemma_batch_index_none(batches@, id);
    }
    None
}

/// The class of a row of the file list; the selected row is marked.
pub fn file_row_class(selected: bool) -> (r: &'static str)
    ensures
        r@ == (if selected {
            "cursor-pointer hover:bg-surface transition-colors bg-surface border-l-2 border-l-brand"@
        } else {
            "cursor-pointer hover:bg-surface transition-colors"@
        }),
{
    if selected {
        "cursor-pointer hover:bg-surface transition-colors bg-surface border-l-2 border-l-brand"
    } else {
        "cursor-pointer hover:bg-surface transition-colors"
    }
}

/// The source type chosen in the library's selector: the empty choice is all.
pub fn source_choice(value: String) -> (r: Option<String>)
    ensures
        opt_text(r) == condition_of(value@),
{
    non_empty(value)
}

/// The search form of the records library: source type and batch.
pub fn record_search_fields() -> (r: Vec<SearchField>)
    ensures
        r@.len() == 2,
        select_field_is(
            r@[0],
            "source_type"@,
            "来源类型"@,
            seq![("bank_flow"@, "银行流水"@), ("order_flow"@, "订单流水"@), ("pos_flow"@, "POS流水"@)],
        ),
        text_field_is(r@[1], "batch_id"@, "批次号"@, "批次 ID"@),
{
    let options = vec![
        SelectOption { value: "bank_flow", label: "银行流水" },
        SelectOption { value: "order_flow", label: "订单流水" },
        SelectOption { value: "pos_flow", label: "POS流水" },
    ];
    vec![
        SearchField {
            key: "source_type",
            label: "来源类型",
            kind: FieldKind::Select { options, placeholder: Some("全部") },
            width: None,
        },
        SearchField {
            key: "batch_id",
            label: "批次号",
            kind: FieldKind::Text { placeholder: Some("批次 ID") },
            width: None,
        },
    ]
}

} // verus!
