//! Metric names from distinguished names.
//!
//! A distinguished name lists its components most specific first, separated
//! by commas. The metric name lists them root first, in lower case, joined by
//! underscores behind the namespace `ldap`.

use vstd::prelude::*;
use crate::name_laws::metric_name_is_lowercase;
use crate::text::{chars_of, split_chars, split_on, string_of, views_of};

verus! {

/// The token that every metric name of this exporter starts with.
pub open spec fn namespace() -> Seq<char> {
    "ldap"@
}

/// Whether the component starts with `cn=`, in exactly this casing.
pub open spec fn has_cn_prefix(component: Seq<char>) -> bool {
    component.len() >= 3 && component[0] == 'c' && component[1] == 'n' && component[2] == '='
}

/// The component without a leading `cn=`.
pub open spec fn strip_cn(component: Seq<char>) -> Seq<char> {
    if has_cn_prefix(component) {
        component.skip(3)
    } else {
        component
    }
}

/// `c`, or an underscore where `c` is a space.
pub open spec fn underscore_for_space(c: char) -> char {
    if c == ' ' {
        '_'
    } else {
        c
    }
}

/// Whether every character of the text is in the ASCII range.
pub open spec fn is_ascii_text(text: Seq<char>) -> bool {
    forall|i: int| 0 <= i < text.len() ==> #[trigger] text[i] <= '\u{7f}'
}

/// Whether `c` is one of the letters `A` to `Z`.
pub open spec fn is_ascii_upper(c: char) -> bool {
    'A' <= c <= 'Z'
}

/// Whether no character of the text is a capital letter of the ASCII range.
pub open spec fn has_no_ascii_upper(text: Seq<char>) -> bool {
    forall|i: int| 0 <= i < text.len() ==> !is_ascii_upper(#[trigger] text[i])
}

/// The small letter for a capital letter of the ASCII range, every other
/// character as it is.
pub open spec fn ascii_lower(c: char) -> char {
    if is_ascii_upper(c) {
        ((c as u8) + 32) as char
    } else {
        c
    }
}

/// What `str::to_lowercase` of the standard library returns for a text: its
/// lower-case equivalent by the Unicode rules.
pub uninterp spec fn unicode_lowercase_of(text: Seq<char>) -> Seq<char>;

/// The text in lower case. A text of ASCII characters alone is lowered letter
/// by letter; any other text by the Unicode rules.
pub open spec fn lowercase(text: Seq<char>) -> Seq<char> {
    if is_ascii_text(text) {
        text.map_values(|c: char| ascii_lower(c))
    } else {
        unicode_lowercase_of(text)
    }
}

/// What one component of a distinguished name contributes to the metric
/// name: a leading `cn=` is dropped, spaces become underscores, and the rest
/// is put in lower case.
pub open spec fn component_name(component: Seq<char>) -> Seq<char> {
    lowercase(strip_cn(component).map_values(|c: char| underscore_for_space(c)))
}

/// The metric name for the components of a distinguished name: the
/// namespace, then the components from the last to the first, each behind an
/// underscore.
pub open spec fn name_of_components(components: Seq<Seq<char>>) -> Seq<char>
    decreases components.len(),
{
    if components.len() == 0 {
        namespace()
    } else {
        name_of_components(components.drop_first()).push('_') + component_name(
            components.first(),
        )
    }
}

/// The metric name for a distinguished name.
pub open spec fn metric_name(dn: Seq<char>) -> Seq<char> {
    name_of_components(split_on(dn, ','))
}

/// `str::to_lowercase` of the standard library: the lower-case equivalent of
/// the text by the Unicode rules. Nothing is claimed of the result but that
/// it depends on the text alone.
#[verifier::external_body]
fn unicode_lowercase(text: &str) -> (lowered: String)
    ensures
        lowered@ == unicode_lowercase_of(text@),
{
    text.to_lowercase()
}

/// Whether every character of `chars` is in the ASCII range.
fn all_ascii(chars: &Vec<char>) -> (yes: bool)
    ensures
        yes == is_ascii_text(chars@),
{
    let mut i: usize = 0;
    while i < chars.len()
        invariant
            i <= chars.len(),
            forall|j: int| 0 <= j < i ==> #[trigger] chars@[j] <= '\u{7f}',
        decreases chars.len() - i,
    {
        let c = chars[i];
        if c > '\u{7f}' {
            assert(!(chars@[i as int] <= '\u{7f}'));
            return false;
        }
        i += 1;
    }
    true
}

/// Puts a text in lower case.
pub fn to_lowercase(chars: &Vec<char>) -> (lowered: Vec<char>)
    ensures
        lowered@ == lowercase(chars@),
{
    if all_ascii(chars) {
        let mut lowered: Vec<char> = Vec::new();
        let mut i: usize = 0;
        while i < chars.len()
            invariant
                i <= chars.len(),
                lowered@ == chars@.take(i as int).map_values(|c: char| ascii_lower(c)),
            decreases chars.len() - i,
        {
            let c = chars[i];
            let low = if 'A' <= c && c <= 'Z' {
                ((c as u8) + 32) as char
            } else {
                c
            };
            lowered.push(low);
            proof {
                assert(lowered@ =~= chars@.take(i + 1).map_values(|c: char| ascii_lower(c)));
            }
            i += 1;
        }
        proof {
            assert(chars@.take(chars@.len() as int) =~= chars@);
        }
        lowered
    } else {
        let text = string_of(chars);
        let lowered = unicode_lowercase(text.as_str());
        chars_of(lowered.as_str())
    }
}

/// The contribution of one component of a distinguished name to the metric
/// name.
pub fn normalize_component(component: &Vec<char>) -> (name: Vec<char>)
    ensures
        name@ == component_name(component@),
{
    let n = component.len();
    let start: usize = if n >= 3 && component[0] == 'c' && component[1] == 'n' && component[2]
        == '=' {
        3
    } else {
        0
    };
    let ghost stripped = strip_cn(component@);
    proof {
        assert(stripped =~= component@.skip(start as int));
    }
    let mut spaced: Vec<char> = Vec::new();
    let mut i: usize = start;
    while i < n
        invariant
            start <= i <= n,
            n == component.len(),
            stripped == component@.skip(start as int),
            spaced@ == stripped.take(i - start).map_values(|c: char| underscore_for_space(c)),
        decreases n - i,
    {
        let c = component[i];
        spaced.push(if c == ' ' { '_' } else { c });
        proof {
            assert(spaced@ =~= stripped.take(i + 1 - start).map_values(
                |c: char| underscore_for_space(c),
            ));
        }
        i += 1;
    }
    proof {
        assert(stripped.take(n - start) =~= stripped);
    }
    to_lowercase(&spaced)
}

/// Turns a distinguished name into a metric name: `cn=Total,cn=Connections,cn=Monitor`
/// becomes `ldap_monitor_connections_total`. Every text has a metric name;
/// components of another shape than `cn=...` are kept whole. No capital
/// letter of an ASCII name is left in its metric name.
pub fn convert_dn(dn: String) -> (name: String)
    ensures
        name@ == metric_name(dn@),
        is_ascii_text(dn@) ==> has_no_ascii_upper(name@) && is_ascii_text(name@),
{
    proof {
        if is_ascii_text(dn@) {
            metric_name_is_lowercase(dn@);
        }
    }
    let chars = chars_of(dn.as_str());
    let components = split_chars(&chars, ',');
    let mut name = String::from_str("ldap");
    let mut i: usize = components.len();
    proof {
        assert(views_of(components@).subrange(i as int, components.len() as int) =~= Seq::<
            Seq<char>,
        >::empty());
    }
    while i > 0
        invariant
            i <= components.len(),
            name@ == name_of_components(
                views_of(components@).subrange(i as int, components.len() as int),
            ),
        decreases i,
    {
        i -= 1;
        let ghost rest = views_of(components@).subrange(i + 1, components.len() as int);
        let ghost all = views_of(components@).subrange(i as int, components.len() as int);
        proof {
            assert(all.drop_first() =~= rest);
            assert(all.first() == components@[i as int]@);
        }
        let part = normalize_component(&components[i]);
        name.push('_');
        let part_text = string_of(&part);
        name.append(part_text.as_str());
    }
    proof {
        assert(views_of(components@).subrange(0, components.len() as int) =~= views_of(
            components@,
        ));
    }
    name
}

} // verus!
