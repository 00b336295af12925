//! The search forms above the lists: the fields a form offers and which of
//! them are on show.

use vstd::prelude::*;

verus! {

/// One choice of a select field.
#[derive(Clone, Copy, Debug)]
pub struct SelectOption {
    pub value: &'static str,
    pub label: &'static str,
}

/// What a search field lets the user enter.
#[derive(Debug)]
pub enum FieldKind {
    Text { placeholder: Option<&'static str> },
    DateRange,
    Select { options: Vec<SelectOption>, placeholder: Option<&'static str> },
}

/// One field of a search form.
#[derive(Debug)]
pub struct SearchField {
    pub key: &'static str,
    pub label: &'static str,
    pub kind: FieldKind,
    pub width: Option<&'static str>,
}

/// The option has the given value and label.
pub open spec fn option_is(o: SelectOption, value: Seq<char>, label: Seq<char>) -> bool {
    o.value@ == value && o.label@ == label
}

/// The field is a text field with the given key, label and placeholder.
pub open spec fn text_field_is(
    f: SearchField,
    key: Seq<char>,
    label: Seq<char>,
    placeholder: Seq<char>,
) -> bool {
    &&& f.key@ == key
    &&& f.label@ == label
    &&& f.width is None
    &&& f.kind matches FieldKind::Text { placeholder: Some(p) } && p@ == placeholder
}

/// The field is a select field with the given key and label, the options
/// of `options` (value, label) in that order, and the placeholder `全部`.
pub open spec fn select_field_is(
    f: SearchField,
    key: Seq<char>,
    label: Seq<char>,
    options: Seq<(Seq<char>, Seq<char>)>,
) -> bool {
    &&& f.key@ == key
    &&& f.label@ == label
    &&& f.width is None
    &&& f.kind matches FieldKind::Select { options: opts, placeholder: Some(p) }
        && p@ == "全部"@ && opts@.len() == options.len() && forall|i: int|
        0 <= i < options.len() ==> #[trigger] option_is(opts@[i], options[i].0, options[i].1)
}

/// How many of `n` fields a form shows: all of them unless the form can
/// fold and is folded, then at most five.
pub open spec fn shown_field_count(n: nat, expandable: bool, expanded: bool) -> nat {
    if !expandable || expanded {
        n
    } else if n < 5 {
        n
    } else {
        5
    }
}

/// The fields on show: the first ones, as many as `shown_field_count` says.
pub fn visible_fields(fields: Vec<SearchField>, expandable: bool, expanded: bool) -> (r: Vec<
    SearchField,
>)
    ensures
        r@ == fields@.take(shown_field_count(fields@.len(), expandable, expanded) as int),
{
    let mut fields = fields;
    if expandable && !expanded {
        fields.truncate(5);
    }
    proof {
        if !expandable || expanded || fields@.len() < 5 {
            assert(fields@ =~= fields@.take(fields@.len() as int));
        }
    }
    fields
}

/// The label of the fold button of a form.
pub fn fold_label(expanded: bool) -> (r: &'static str)
    ensures
        r@ == (if expanded {
            "收起"@
        } else {
            "更多条件"@
        }),
{
    if expanded {
        "收起"
    } else {
        "更多条件"
    }
}

} // verus!
