//! What holds of every metric name.

use vstd::prelude::*;
use crate::name::{
    ascii_lower, component_name, has_cn_prefix, has_no_ascii_upper, is_ascii_text, lowercase,
    metric_name, name_of_components, namespace, strip_cn, underscore_for_space,
};
use crate::text::{lemma_split_nonempty, split_on};

verus! {

/// The text with every capital letter of the ASCII range made small.
pub open spec fn fold_case(text: Seq<char>) -> Seq<char> {
    text.map_values(|c: char| ascii_lower(c))
}

/// Whether `c` may stand in a metric name: a small letter, a digit or an
/// underscore.
pub open spec fn is_name_char(c: char) -> bool {
    'a' <= c <= 'z' || '0' <= c <= '9' || c == '_'
}

/// Whether the text is a metric name as the exposition format wants it: a
/// small letter, then small letters, digits and underscores.
pub open spec fn is_metric_name(text: Seq<char>) -> bool {
    &&& text.len() > 0
    &&& 'a' <= text[0] <= 'z'
    &&& forall|i: int| 0 <= i < text.len() ==> is_name_char(#[trigger] text[i])
}

/// Whether `c` is a letter or digit of the ASCII range, a space or an
/// underscore.
pub open spec fn is_plain_char(c: char) -> bool {
    'a' <= c <= 'z' || 'A' <= c <= 'Z' || '0' <= c <= '9' || c == '_' || c == ' '
}

/// Whether every component, without its leading `cn=`, is made of plain
/// characters alone.
pub open spec fn has_plain_components(components: Seq<Seq<char>>) -> bool {
    forall|i: int, j: int|
        0 <= i < components.len() && 0 <= j < strip_cn(components[i]).len() ==> is_plain_char(
            #[trigger] strip_cn(components[i])[j],
        )
}

/// Whether the components stand in ASCII.
pub open spec fn has_ascii_components(components: Seq<Seq<char>>) -> bool {
    forall|i: int| 0 <= i < components.len() ==> is_ascii_text(#[trigger] components[i])
}

proof fn lemma_namespace()
    ensures
        namespace() =~= seq!['l', 'd', 'a', 'p'],
{
    reveal_strlit("ldap");
}

proof fn lemma_component_ascii(component: Seq<char>)
    requires
        is_ascii_text(component),
    ensures
        component_name(component) == fold_case(
            strip_cn(component).map_values(|c: char| underscore_for_space(c)),
        ),
        has_no_ascii_upper(component_name(component)),
        is_ascii_text(component_name(component)),
{
    let stripped = strip_cn(component);
    let spaced = stripped.map_values(|c: char| underscore_for_space(c));
    assert forall|i: int| 0 <= i < spaced.len() implies #[trigger] spaced[i] <= '\u{7f}' by {
        if has_cn_prefix(component) {
            assert(stripped[i] == component[i + 3]);
        } else {
            assert(stripped[i] == component[i]);
        }
    }
    assert(lowercase(spaced) == fold_case(spaced));
}

proof fn lemma_components_lowercase(components: Seq<Seq<char>>)
    requires
        has_ascii_components(components),
    ensures
        has_no_ascii_upper(name_of_components(components)),
        is_ascii_text(name_of_components(components)),
    decreases components.len(),
{
    lemma_namespace();
    if components.len() > 0 {
        let rest = components.drop_first();
        assert forall|i: int| 0 <= i < rest.len() implies is_ascii_text(#[trigger] rest[i]) by {
            assert(rest[i] == components[i + 1]);
        }
        lemma_components_lowercase(rest);
        lemma_component_ascii(components.first());
    }
}

/// Every piece of an ASCII text is an ASCII text.
pub proof fn lemma_split_ascii(text: Seq<char>, sep: char)
    requires
        is_ascii_text(text),
    ensures
        has_ascii_components(split_on(text, sep)),
    decreases text.len(),
{
    if text.len() > 0 {
        let before = split_on(text.drop_last(), sep);
        lemma_split_nonempty(text.drop_last(), sep);
        assert(is_ascii_text(text.drop_last())) by {
            assert forall|i: int| 0 <= i < text.drop_last().len() implies #[trigger] text.drop_last()[i]
                <= '\u{7f}' by {
                assert(text.drop_last()[i] == text[i]);
            }
        }
        lemma_split_ascii(text.drop_last(), sep);
        let pieces = split_on(text, sep);
        assert forall|i: int| 0 <= i < pieces.len() implies is_ascii_text(#[trigger] pieces[i]) by {
            if i < before.len() - 1 {
                assert(pieces[i] == before[i]);
            } else if text.last() == sep {
                if i < before.len() {
                    assert(pieces[i] == before[i]);
                }
            } else {
                assert(pieces[i] == before.last().push(text.last()));
                assert(is_ascii_text(before[before.len() - 1]));
                assert(text[text.len() - 1] <= '\u{7f}');
            }
        }
    }
}

/// The casing of a distinguished name does not survive: the metric name of
/// an ASCII text holds no capital letter, and is an ASCII text itself.
pub proof fn metric_name_is_lowercase(dn: Seq<char>)
    requires
        is_ascii_text(dn),
    ensures
        has_no_ascii_upper(metric_name(dn)),
        is_ascii_text(metric_name(dn)),
{
    lemma_split_ascii(dn, ',');
    lemma_components_lowercase(split_on(dn, ','));
}

/// The pieces of a text in folded case are the pieces of the text, each in
/// folded case: no letter becomes a separator, and no separator a letter.
proof fn lemma_split_fold_case(text: Seq<char>)
    ensures
        split_on(fold_case(text), ',').len() == split_on(text, ',').len(),
        forall|i: int|
            0 <= i < split_on(text, ',').len() ==> #[trigger] split_on(fold_case(text), ',')[i]
                == fold_case(split_on(text, ',')[i]),
    decreases text.len(),
{
    let folded = fold_case(text);
    if text.len() == 0 {
        assert(split_on(folded, ',')[0] =~= fold_case(split_on(text, ',')[0]));
    } else {
        lemma_split_fold_case(text.drop_last());
        lemma_split_nonempty(text.drop_last(), ',');
        lemma_split_nonempty(fold_case(text.drop_last()), ',');
        assert(folded.drop_last() =~= fold_case(text.drop_last()));
        let before = split_on(text.drop_last(), ',');
        let folded_before = split_on(folded.drop_last(), ',');
        let pieces = split_on(text, ',');
        let folded_pieces = split_on(folded, ',');
        assert(folded.last() == ascii_lower(text.last()));
        assert forall|i: int| 0 <= i < pieces.len() implies #[trigger] folded_pieces[i]
            == fold_case(pieces[i]) by {
            if text.last() == ',' {
                if i < before.len() {
                    assert(folded_pieces[i] == folded_before[i]);
                } else {
                    assert(folded_pieces[i] =~= fold_case(pieces[i]));
                }
            } else {
                if i < before.len() - 1 {
                    assert(folded_pieces[i] == folded_before[i]);
                } else {
                    assert(folded_before.last() == fold_case(before.last()));
                    assert(folded_pieces[i] =~= fold_case(pieces[i]));
                }
            }
        }
    }
}

proof fn lemma_component_ignores_case(a: Seq<char>, b: Seq<char>)
    requires
        is_ascii_text(a),
        is_ascii_text(b),
        fold_case(a) == fold_case(b),
        has_cn_prefix(a) == has_cn_prefix(b),
    ensures
        component_name(a) == component_name(b),
{
    lemma_component_ascii(a);
    lemma_component_ascii(b);
    let sa = strip_cn(a).map_values(|c: char| underscore_for_space(c));
    let sb = strip_cn(b).map_values(|c: char| underscore_for_space(c));
    assert(a.len() == fold_case(a).len());
    assert(b.len() == fold_case(b).len());
    let skip: int = if has_cn_prefix(a) {
        3
    } else {
        0
    };
    assert(fold_case(sa).len() == fold_case(sb).len());
    assert forall|i: int| 0 <= i < sa.len() implies fold_case(sa)[i] == fold_case(sb)[i] by {
        assert(strip_cn(a)[i] == a[i + skip]);
        assert(strip_cn(b)[i] == b[i + skip]);
        assert(fold_case(a)[i + skip] == ascii_lower(a[i + skip]));
        assert(fold_case(b)[i + skip] == ascii_lower(b[i + skip]));
    }
    assert(fold_case(sa) =~= fold_case(sb));
}

proof fn lemma_components_ignore_case(a: Seq<Seq<char>>, b: Seq<Seq<char>>)
    requires
        a.len() == b.len(),
        has_ascii_components(a),
        has_ascii_components(b),
        forall|i: int| 0 <= i < a.len() ==> fold_case(#[trigger] a[i]) == fold_case(b[i]),
        forall|i: int| 0 <= i < a.len() ==> has_cn_prefix(#[trigger] a[i]) == has_cn_prefix(b[i]),
    ensures
        name_of_components(a) == name_of_components(b),
    decreases a.len(),
{
    if a.len() > 0 {
        let ra = a.drop_first();
        let rb = b.drop_first();
        assert forall|i: int| 0 <= i < ra.len() implies is_ascii_text(#[trigger] ra[i])
            && is_ascii_text(rb[i]) && fold_case(ra[i]) == fold_case(rb[i]) && has_cn_prefix(
            ra[i],
        ) == has_cn_prefix(rb[i]) by {
            assert(ra[i] == a[i + 1]);
            assert(rb[i] == b[i + 1]);
        }
        assert forall|i: int| 0 <= i < rb.len() implies is_ascii_text(#[trigger] rb[i]) by {
            assert(rb[i] == b[i + 1]);
        }
        lemma_components_ignore_case(ra, rb);
        lemma_component_ignores_case(a.first(), b.first());
    }
}

/// Whether the two texts have as many components, and a leading `cn=` on the
/// same ones.
pub open spec fn same_cn_prefixes(a: Seq<char>, b: Seq<char>) -> bool {
    &&& split_on(a, ',').len() == split_on(b, ',').len()
    &&& forall|i: int|
        0 <= i < split_on(a, ',').len() ==> has_cn_prefix(#[trigger] split_on(a, ',')[i])
            == has_cn_prefix(split_on(b, ',')[i])
}

/// Two ASCII distinguished names that differ in the casing of their letters
/// alone have one metric name, as long as a leading `cn=` stands in small
/// letters on the same components of both: a `CN=` is no prefix and is kept.
pub proof fn metric_name_ignores_case(a: Seq<char>, b: Seq<char>)
    requires
        is_ascii_text(a),
        is_ascii_text(b),
        fold_case(a) == fold_case(b),
        same_cn_prefixes(a, b),
    ensures
        metric_name(a) == metric_name(b),
{
    lemma_split_ascii(a, ',');
    lemma_split_ascii(b, ',');
    lemma_split_fold_case(a);
    lemma_split_fold_case(b);
    let ca = split_on(a, ',');
    let cb = split_on(b, ',');
    assert forall|i: int| 0 <= i < ca.len() implies fold_case(#[trigger] ca[i]) == fold_case(
        cb[i],
    ) by {
        assert(split_on(fold_case(a), ',')[i] == fold_case(ca[i]));
        assert(split_on(fold_case(b), ',')[i] == fold_case(cb[i]));
    }
    lemma_components_ignore_case(ca, cb);
}

proof fn lemma_component_well_formed(component: Seq<char>)
    requires
        forall|j: int|
            0 <= j < strip_cn(component).len() ==> is_plain_char(#[trigger] strip_cn(component)[j]),
    ensures
        forall|j: int|
            0 <= j < component_name(component).len() ==> is_name_char(
                #[trigger] component_name(component)[j],
            ),
{
    let stripped = strip_cn(component);
    let spaced = stripped.map_values(|c: char| underscore_for_space(c));
    assert forall|j: int| 0 <= j < spaced.len() implies #[trigger] spaced[j] <= '\u{7f}' by {
        assert(is_plain_char(stripped[j]));
    }
    assert(lowercase(spaced) == fold_case(spaced));
    assert forall|j: int| 0 <= j < component_name(component).len() implies is_name_char(
        #[trigger] component_name(component)[j],
    ) by {
        assert(is_plain_char(stripped[j]));
        assert(component_name(component)[j] == ascii_lower(underscore_for_space(stripped[j])));
    }
}

proof fn lemma_components_well_formed(components: Seq<Seq<char>>)
    requires
        has_plain_components(components),
    ensures
        is_metric_name(name_of_components(components)),
    decreases components.len(),
{
    lemma_namespace();
    if components.len() > 0 {
        let rest = components.drop_first();
        assert forall|i: int, j: int|
            0 <= i < rest.len() && 0 <= j < strip_cn(rest[i]).len() implies is_plain_char(
            #[trigger] strip_cn(rest[i])[j],
        ) by {
            assert(rest[i] == components[i + 1]);
            assert(is_plain_char(strip_cn(components[i + 1])[j]));
        }
        lemma_components_well_formed(rest);
        assert forall|j: int| 0 <= j < strip_cn(components.first()).len() implies is_plain_char(
            #[trigger] strip_cn(components.first())[j],
        ) by {
            assert(is_plain_char(strip_cn(components[0])[j]));
        }
        lemma_component_well_formed(components.first());
    }
}

/// Where every component of a distinguished name, its leading `cn=` apart,
/// holds only letters and digits of the ASCII range, spaces and underscores,
/// the metric name is one that the exposition format accepts.
pub proof fn metric_name_is_well_formed(dn: Seq<char>)
    requires
        has_plain_components(split_on(dn, ',')),
    ensures
        is_metric_name(metric_name(dn)),
{
    lemma_components_well_formed(split_on(dn, ','));
}

} // verus!
