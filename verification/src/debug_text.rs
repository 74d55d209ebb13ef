//! The debug text of a box: the text of the value it holds, set under the
//! name of the type and the label of its one field.

use std::fmt::Write;
use vstd::prelude::*;
use vstd::string::StringExecFns;

verus! {

/// What stands before the value's text when the handle is present: the name
/// of the type, the label of the field and the opening of `Some`.
pub open spec fn present_head() -> Seq<char> {
    "BlackBox { large_data_on_the_heap: Some("@
}

/// What stands after the value's text when the handle is present.
pub open spec fn present_tail() -> Seq<char> {
    ") }"@
}

/// The whole text when the handle is absent.
pub open spec fn absent_text() -> Seq<char> {
    "BlackBox { large_data_on_the_heap: None }"@
}

/// The debug text of a box, given the debug text of the value it holds:
/// `Some(text)` for a present handle, `None` for an absent one.
pub open spec fn debug_text(inner: Option<Seq<char>>) -> Seq<char> {
    match inner {
        Some(text) => present_head() + text + present_tail(),
        None => absent_text(),
    }
}

/// The views of an optional string slice.
pub open spec fn text_of(inner: Option<&str>) -> Option<Seq<char>> {
    match inner {
        Some(held) => Some(held@),
        None => None,
    }
}

/// Lays out the debug text of a box around the debug text of its value.
pub fn render_debug(inner: Option<&str>) -> (text: String)
    ensures
        text@ == debug_text(text_of(inner)),
{
    match inner {
        Some(held) => {
            let mut text = String::from_str("BlackBox { large_data_on_the_heap: Some(");
            text.append(held);
            text.append(") }");
            text
        },
        None => String::from_str("BlackBox { large_data_on_the_heap: None }"),
    }
}

/// Writes `value` into a fresh string with its own `Debug` impl, in the
/// compact form, by `write!(.., "{:?}", ..)`. `Some` carries the text when
/// that impl reports success, `None` stands for the error it reported. The
/// text is whatever the impl writes, and whether it succeeds is the impl's
/// choice, so nothing is claimed of either.
#[verifier::external_body]
pub(crate) fn debug_of<T: std::fmt::Debug>(value: &T) -> (text: Option<String>) {
    let mut text = String::new();
    match write!(text, "{:?}", value) {
        Ok(()) => Some(text),
        Err(_) => None,
    }
}

/// The text of a present box holds the value's text unchanged, right behind
/// the head, and is exactly as much longer as head and tail are long.
pub proof fn lemma_present_text_embeds_inner(inner: Seq<char>)
    ensures
        debug_text(Some(inner)).len() == present_head().len() + inner.len() + present_tail().len(),
        debug_text(Some(inner)).subrange(0, present_head().len() as int) == present_head(),
        debug_text(Some(inner)).subrange(
            present_head().len() as int,
            (present_head().len() + inner.len()) as int,
        ) == inner,
        debug_text(Some(inner)).subrange(
            (present_head().len() + inner.len()) as int,
            debug_text(Some(inner)).len() as int,
        ) == present_tail(),
{
    let whole = debug_text(Some(inner));
    let start = present_head().len() as int;
    let end = start + inner.len();
    assert(whole.subrange(0, start) =~= present_head());
    assert(whole.subrange(start, end) =~= inner);
    assert(whole.subrange(end, whole.len() as int) =~= present_tail());
}

/// Two present boxes have the same text only if their values have the same
/// text: the layout loses nothing of it.
pub proof fn lemma_present_text_is_injective(first: Seq<char>, second: Seq<char>)
    requires
        debug_text(Some(first)) == debug_text(Some(second)),
    ensures
        first == second,
{
    lemma_present_text_embeds_inner(first);
    lemma_present_text_embeds_inner(second);
}

/// The text tells a present handle from an absent one, whatever the value's
/// text is.
pub proof fn lemma_present_text_is_not_absent(inner: Seq<char>)
    ensures
        debug_text(Some(inner)) != absent_text(),
{
    reveal_strlit("BlackBox { large_data_on_the_heap: Some(");
    reveal_strlit("BlackBox { large_data_on_the_heap: None }");
    let whole = debug_text(Some(inner));
    assert(whole[35] == present_head()[35]);
    assert(whole[35] == 'S');
    assert(absent_text()[35] == 'N');
}

} // verus!
