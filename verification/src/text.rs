//! Operations on text that key resolution and its diagnostics are built from.

use vstd::prelude::*;
use vstd::string::*;

verus! {

/// The character that separates the components of a filesystem path.
pub const PATH_SEPARATOR: char = '/';

/// `parts` written one after another with `separator` between neighbours.
pub open spec fn joined(parts: Seq<Seq<char>>, separator: Seq<char>) -> Seq<char>
    decreases parts.len(),
{
    if parts.len() == 0 {
        Seq::empty()
    } else if parts.len() == 1 {
        parts[0]
    } else {
        joined(parts.drop_last(), separator) + separator + parts.last()
    }
}

/// Whether `c` occurs in `text`.
pub fn contains_char(text: &str, c: char) -> (found: bool)
    ensures
        found == text@.contains(c),
{
    let mut found = false;
    for d in it: text.chars()
        invariant
            it.seq() == text@,
            found == (exists|i: int| 0 <= i < it.index() && text@[i] == c),
    {
        if d == c {
            found = true;
        }
    }
    found
}

/// Writes `parts` one after another with `separator` between neighbours.
pub fn join(parts: &Vec<String>, separator: &str) -> (text: String)
    ensures
        text@ == joined(parts.deep_view(), separator@),
{
    let ghost all = parts.deep_view();
    let mut text = String::new();
    let mut i: usize = 0;
    while i < parts.len()
        invariant
            i <= parts.len(),
            all == parts.deep_view(),
            text@ == joined(all.take(i as int), separator@),
        decreases parts.len() - i,
    {
        assert(all.take(i + 1).drop_last() == all.take(i as int));
        assert(all.take(i + 1).last() == parts[i as int]@);
        if i > 0 {
            text.append(separator);
        }
        text.append(parts[i].as_str());
        i += 1;
    }
    assert(all.take(parts.len() as int) == all);
    text
}

/// A part that is added at the end follows the parts before it, after a
/// separator unless it is the only one.
pub proof fn joined_push(parts: Seq<Seq<char>>, last: Seq<char>, separator: Seq<char>)
    ensures
        joined(parts.push(last), separator) == if parts.len() == 0 {
            last
        } else {
            joined(parts, separator) + separator + last
        },
{
    assert(parts.push(last).drop_last() == parts);
}

/// Two parts are written in their order with one separator between them.
pub proof fn joined_pair(first: Seq<char>, second: Seq<char>, separator: Seq<char>)
    ensures
        joined(seq![first, second], separator) == first + separator + second,
{
    joined_push(seq![first], second, separator);
    assert(seq![first].push(second) == seq![first, second]);
}

} // verus!
