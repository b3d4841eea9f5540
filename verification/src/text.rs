//! Token text: tokens printed one after another with a single space between
//! them.

use vstd::prelude::*;

verus! {

/// `left` followed by `right` as one token text. A single space separates
/// them where both hold tokens; an empty side adds nothing.
pub open spec fn joined(left: Seq<char>, right: Seq<char>) -> Seq<char> {
    if right.len() == 0 {
        left
    } else if left.len() == 0 {
        right
    } else {
        left + seq![' '] + right
    }
}

/// The fragments of `parts` as one token text, in order.
pub open spec fn spaced(parts: Seq<Seq<char>>) -> Seq<char>
    decreases parts.len(),
{
    if parts.len() == 0 {
        Seq::empty()
    } else {
        joined(spaced(parts.drop_last()), parts.last())
    }
}

/// Appending one fragment to a list of fragments joins it to their text.
pub proof fn lemma_spaced_push(parts: Seq<Seq<char>>, fragment: Seq<char>)
    ensures
        spaced(parts.push(fragment)) == joined(spaced(parts), fragment),
{
    assert(parts.push(fragment).drop_last() =~= parts);
}

/// Whether two strings hold the same text.
pub fn same_text(left: &String, right: &String) -> (same: bool)
    ensures
        same == (left@ == right@),
{
    *left == *right
}

/// Appends `fragment` to `text` as further tokens.
pub fn push_fragment(text: &mut String, fragment: &str)
    ensures
        final(text)@ == joined(old(text)@, fragment@),
{
    if !fragment.is_empty() {
        if !text.as_str().is_empty() {
            proof {
                reveal_strlit(" ");
            }
            text.append(" ");
            assert(text@ =~= old(text)@ + seq![' ']);
        }
        text.append(fragment);
    }
}

/// The text of each fragment of `parts`, in order.
pub open spec fn fragments_view(parts: Seq<&str>) -> Seq<Seq<char>> {
    parts.map_values(|part: &str| part@)
}

/// Prints the fragments of `parts` as one token text.
pub fn spaced_text(parts: &Vec<&str>) -> (text: String)
    ensures
        text@ == spaced(fragments_view(parts@)),
{
    let ghost fragments = fragments_view(parts@);
    let mut text = String::new();
    let mut i: usize = 0;
    while i < parts.len()
        invariant
            i <= parts.len(),
            fragments == fragments_view(parts@),
            text@ == spaced(fragments.take(i as int)),
        decreases parts.len() - i,
    {
        proof {
            lemma_spaced_push(fragments.take(i as int), fragments[i as int]);
            assert(fragments.take(i as int).push(fragments[i as int]) =~= fragments.take(i + 1));
        }
        push_fragment(&mut text, parts[i]);
        i += 1;
    }
    assert(fragments.take(i as int) =~= fragments);
    text
}

} // verus!
