//! Exposition lines from attribute values.
//!
//! A line is `name value` or, in label mode, `name{stage="label"} value`,
//! closed by a line feed. The label is the last word of the attribute key
//! once the key is written in snake case.

use vstd::prelude::*;
use convert_case::{Case, Casing};
use crate::text::{chars_of, split_chars, split_on, string_of};

verus! {

/// What `Casing::to_case` of `convert_case` returns for a text and
/// `Case::Snake`: the words of the text in small letters, joined by
/// underscores.
pub uninterp spec fn snake_case_of(text: Seq<char>) -> Seq<char>;

/// `Casing::to_case` of `convert_case`, with `Case::Snake`. The crate splits
/// the text into words by its default boundaries, lowers them and joins them
/// with underscores; the result depends on the text alone.
#[verifier::external_body]
fn to_snake_case(text: &str) -> (snake: String)
    ensures
        snake@ == snake_case_of(text@),
{
    text.to_case(Case::Snake)
}

/// What stands behind the last underscore of the text; the whole text where
/// it has none.
pub open spec fn last_segment(text: Seq<char>) -> Seq<char> {
    split_on(text, '_').last()
}

/// The label value for an attribute key.
pub open spec fn stage_label(key: Seq<char>) -> Seq<char> {
    last_segment(snake_case_of(key))
}

/// The line `name value`.
pub open spec fn plain_line(name: Seq<char>, value: Seq<char>) -> Seq<char> {
    name + " "@ + value + "\n"@
}

/// The line `name{stage="label"} value`.
pub open spec fn labelled_line(name: Seq<char>, label: Seq<char>, value: Seq<char>) -> Seq<char> {
    name + "{stage=\""@ + label + "\"} "@ + value + "\n"@
}

/// The line for one value of an attribute.
pub open spec fn metric_line(
    name: Seq<char>,
    key: Seq<char>,
    value: Seq<char>,
    label_mode: bool,
) -> Seq<char> {
    if label_mode {
        labelled_line(name, stage_label(key), value)
    } else {
        plain_line(name, value)
    }
}

/// The last of the pieces that underscores cut a snake-case text into.
pub fn last_word(snake: &str) -> (word: String)
    ensures
        word@ == last_segment(snake@),
{
    let chars = chars_of(snake);
    let pieces = split_chars(&chars, '_');
    proof {
        crate::text::lemma_split_nonempty(chars@, '_');
    }
    string_of(&pieces[pieces.len() - 1])
}

/// Writes `name value` and a line feed.
pub fn render_plain(name: &str, value: &str) -> (line: String)
    ensures
        line@ == plain_line(name@, value@),
{
    let mut line = String::from_str(name);
    line.append(" ");
    line.append(value);
    line.append("\n");
    line
}

/// Writes `name{stage="label"} value` and a line feed.
pub fn render_labelled(name: &str, label: &str, value: &str) -> (line: String)
    ensures
        line@ == labelled_line(name@, label@, value@),
{
    let mut line = String::from_str(name);
    line.append("{stage=\"");
    line.append(label);
    line.append("\"} ");
    line.append(value);
    line.append("\n");
    line
}

/// One exposition line for one attribute value. Without label mode the key
/// plays no part; with it, the last word of the key in snake case becomes
/// the value of the label `stage`. The value is carried through as it is.
pub fn render(metric_name: &str, attribute_key: &str, attribute_value: &str, label_mode: bool) -> (line:
    String)
    ensures
        line@ == metric_line(metric_name@, attribute_key@, attribute_value@, label_mode),
{
    if label_mode {
        let snake = to_snake_case(attribute_key);
        let label = last_word(snake.as_str());
        render_labelled(metric_name, label.as_str(), attribute_value)
    } else {
        render_plain(metric_name, attribute_value)
    }
}

} // verus!
