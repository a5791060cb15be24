//! Directory entries and the lines they give.
//!
//! An entry is a distinguished name with its attributes; an attribute is a
//! key with any number of values, of which only the last one is reported.

use vstd::prelude::*;
use crate::name::{convert_dn, metric_name};
use crate::render::{metric_line, render};
use crate::text::{lemma_texts_push, texts_of};

verus! {

/// One attribute of a directory entry, with its values in the order in
/// which the directory gave them.
#[derive(Debug, Clone, PartialEq, Eq)]
pub struct Attribute {
    pub key: String,
    pub values: Vec<String>,
}

/// An attribute as contracts see it.
pub struct AttributeView {
    pub key: Seq<char>,
    pub values: Seq<Seq<char>>,
}

impl View for Attribute {
    type V = AttributeView;

    open spec fn view(&self) -> AttributeView {
        AttributeView { key: self.key@, values: texts_of(self.values@) }
    }
}

/// One entry of the directory: its distinguished name and its attributes, in
/// the order in which they are to be reported.
#[derive(Debug, Clone, PartialEq, Eq)]
pub struct DirectoryEntry {
    pub dn: String,
    pub attributes: Vec<Attribute>,
}

/// A directory entry as contracts see it.
pub struct EntryView {
    pub dn: Seq<char>,
    pub attributes: Seq<AttributeView>,
}

/// The attributes that `attributes` stand for.
pub open spec fn attribute_views(attributes: Seq<Attribute>) -> Seq<AttributeView> {
    Seq::new(attributes.len(), |i: int| attributes[i]@)
}

impl View for DirectoryEntry {
    type V = EntryView;

    open spec fn view(&self) -> EntryView {
        EntryView { dn: self.dn@, attributes: attribute_views(self.attributes@) }
    }
}

/// The entries that `entries` stand for.
pub open spec fn entry_views(entries: Seq<DirectoryEntry>) -> Seq<EntryView> {
    Seq::new(entries.len(), |i: int| entries[i]@)
}

/// The lines for one attribute under a metric name: one line for its last
/// value, none where it has no value.
pub open spec fn attribute_lines(
    name: Seq<char>,
    attribute: AttributeView,
    label_mode: bool,
) -> Seq<Seq<char>> {
    if attribute.values.len() == 0 {
        Seq::empty()
    } else {
        seq![metric_line(name, attribute.key, attribute.values.last(), label_mode)]
    }
}

/// The lines for a list of attributes under one metric name, in the order of
/// the list.
pub open spec fn attributes_lines(
    name: Seq<char>,
    attributes: Seq<AttributeView>,
    label_mode: bool,
) -> Seq<Seq<char>>
    decreases attributes.len(),
{
    if attributes.len() == 0 {
        Seq::empty()
    } else {
        attributes_lines(name, attributes.drop_last(), label_mode) + attribute_lines(
            name,
            attributes.last(),
            label_mode,
        )
    }
}

/// The lines for one entry: those of its attributes under the metric name of
/// its distinguished name.
pub open spec fn entry_lines(entry: EntryView, label_mode: bool) -> Seq<Seq<char>> {
    attributes_lines(metric_name(entry.dn), entry.attributes, label_mode)
}

/// The lines for the entries of one answer, in the order of the answer.
pub open spec fn entries_lines(entries: Seq<EntryView>, label_mode: bool) -> Seq<Seq<char>>
    decreases entries.len(),
{
    if entries.len() == 0 {
        Seq::empty()
    } else {
        entries_lines(entries.drop_last(), label_mode) + entry_lines(entries.last(), label_mode)
    }
}

/// The line for the last value of an attribute, or nothing where the
/// attribute has no value.
pub fn render_attribute(name: &str, attribute: &Attribute, label_mode: bool) -> (line: Option<String>)
    ensures
        attribute@.values.len() == 0 <==> line is None,
        line matches Some(text) ==> text@ == metric_line(
            name@,
            attribute@.key,
            attribute@.values.last(),
            label_mode,
        ),
{
    let n = attribute.values.len();
    if n == 0 {
        None
    } else {
        Some(render(name, attribute.key.as_str(), attribute.values[n - 1].as_str(), label_mode))
    }
}

/// Appends the lines for one entry to `lines`.
pub fn render_entry(entry: &DirectoryEntry, label_mode: bool, lines: &mut Vec<String>)
    ensures
        texts_of(final(lines)@) == texts_of(old(lines)@) + entry_lines(entry@, label_mode),
{
    let name = convert_dn(entry.dn.clone());
    let ghost before = texts_of(lines@);
    let mut i: usize = 0;
    proof {
        assert(entry@.attributes.take(0) =~= Seq::<AttributeView>::empty());
        assert(texts_of(lines@) =~= before + Seq::<Seq<char>>::empty());
    }
    while i < entry.attributes.len()
        invariant
            i <= entry.attributes.len(),
            name@ == metric_name(entry@.dn),
            texts_of(lines@) == before + attributes_lines(
                name@,
                entry@.attributes.take(i as int),
                label_mode,
            ),
        decreases entry.attributes.len() - i,
    {
        let ghost done = attributes_lines(name@, entry@.attributes.take(i as int), label_mode);
        proof {
            assert(entry@.attributes.take(i + 1).drop_last() =~= entry@.attributes.take(i as int));
            assert(entry@.attributes.take(i + 1).last() == entry.attributes@[i as int]@);
        }
        match render_attribute(name.as_str(), &entry.attributes[i], label_mode) {
            Some(line) => {
                proof {
                    lemma_texts_push(lines@, line);
                }
                lines.push(line);
                proof {
                    assert(texts_of(lines@) =~= before + (done + seq![line@]));
                }
            },
            None => {
                proof {
                    assert(done + Seq::<Seq<char>>::empty() =~= done);
                }
            },
        }
        i += 1;
    }
    proof {
        assert(entry@.attributes.take(entry.attributes@.len() as int) =~= entry@.attributes);
    }
}

/// The lines for the entries of one answer: for each entry in turn, one line
/// for each of its attributes that has a value.
pub fn render_entries(entries: &Vec<DirectoryEntry>, label_mode: bool) -> (lines: Vec<String>)
    ensures
        texts_of(lines@) == entries_lines(entry_views(entries@), label_mode),
{
    let mut lines: Vec<String> = Vec::new();
    let mut i: usize = 0;
    proof {
        assert(texts_of(lines@) =~= Seq::<Seq<char>>::empty());
    }
    while i < entries.len()
        invariant
            i <= entries.len(),
            texts_of(lines@) == entries_lines(entry_views(entries@).take(i as int), label_mode),
        decreases entries.len() - i,
    {
        proof {
            assert(entry_views(entries@).take(i + 1).drop_last() =~= entry_views(entries@).take(
                i as int,
            ));
        }
        render_entry(&entries[i], label_mode, &mut lines);
        i += 1;
    }
    proof {
        assert(entry_views(entries@).take(entries@.len() as int) =~= entry_views(entries@));
    }
    lines
}

} // verus!
