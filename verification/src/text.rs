//! Rendering of strings and lists of strings for log lines.

use vstd::prelude::*;
use vstd::string::*;

verus! {

/// The text that `{:?}` prints for a string of these characters: the string
/// between double quotes, with the characters that `str`'s `Debug` escapes
/// written as their escapes. It depends on the characters alone.
pub uninterp spec fn debug_text(text: Seq<char>) -> Seq<char>;

/// Each item of `items` as `{:?}` prints it.
pub open spec fn debug_texts(items: Seq<Seq<char>>) -> Seq<Seq<char>> {
    Seq::new(items.len(), |i: int| debug_text(items[i]))
}

/// The items in order, with `", "` between neighbours.
pub open spec fn joined(items: Seq<Seq<char>>) -> Seq<char>
    decreases items.len(),
{
    if items.len() == 0 {
        Seq::empty()
    } else if items.len() == 1 {
        items[0]
    } else {
        joined(items.drop_last()) + ", "@ + items.last()
    }
}

/// The joined items between square brackets.
pub open spec fn bracketed(items: Seq<Seq<char>>) -> Seq<char> {
    "["@ + joined(items) + "]"@
}

/// Calls `<str as core::fmt::Debug>::fmt` through `format!("{:?}", ..)`.
/// Trusted, not proved: the returned string is the one that formatter writes
/// for `text`, which is a function of the characters of `text` and of nothing
/// else. Nothing is claimed about which characters it escapes.
#[verifier::external_body]
pub(crate) fn debug_string(text: &str) -> (quoted: String)
    ensures
        quoted@ == debug_text(text@),
{
    format!("{:?}", text)
}

/// Renders every item as `{:?}` prints it, keeping the order.
pub fn debug_strings(items: &Vec<String>) -> (quoted: Vec<String>)
    ensures
        quoted.deep_view() == debug_texts(items.deep_view()),
{
    let mut quoted: Vec<String> = Vec::new();
    let mut i: usize = 0;
    while i < items.len()
        invariant
            i <= items.len(),
            quoted.len() == i,
            forall|k: int| 0 <= k < i ==> (#[trigger] quoted[k])@ == debug_text(items[k]@),
        decreases items.len() - i,
    {
        quoted.push(debug_string(items[i].as_str()));
        i += 1;
    }
    assert(quoted.deep_view() =~= debug_texts(items.deep_view()));
    quoted
}

/// Writes the items between square brackets, separated by `", "`: the layout
/// of a list under `{:?}`, the items taken as already rendered.
pub fn bracketed_list(items: &Vec<String>) -> (text: String)
    ensures
        text@ == bracketed(items.deep_view()),
{
    let ghost shown = items.deep_view();
    let mut text = String::from_str("[");
    let mut i: usize = 0;
    while i < items.len()
        invariant
            i <= items.len(),
            shown == items.deep_view(),
            text@ == "["@ + joined(shown.take(i as int)),
        decreases items.len() - i,
    {
        proof {
            // Taking one more item appends it to what was taken before.
            assert(shown.take(i + 1).drop_last() =~= shown.take(i as int));
        }
        if i > 0 {
            text.append(", ");
        }
        text.append(items[i].as_str());
        i += 1;
    }
    proof {
        assert(shown.take(items.len() as int) =~= shown);
    }
    text.append("]");
    text
}

} // verus!
