//! Small things on texts.

use vstd::prelude::*;

verus! {

/// Gives back the text itself when it holds at least one character, and
/// nothing when it is empty.
pub fn none_if_empty(value: &str) -> (r: Option<&str>)
    ensures
        value@.len() == 0 ==> r is None,
        value@.len() != 0 ==> r == Some(value),
{
    if value.is_empty() {
        None
    } else {
        Some(value)
    }
}

/// Whether two texts hold the same characters.
pub fn same_text(a: &str, b: &str) -> (r: bool)
    ensures
        r == (a@ == b@),
{
    a.to_owned() == b.to_owned()
}

/// The views of the items of a sequence, in the same order.
pub open spec fn views<T: View>(items: Seq<T>) -> Seq<T::V> {
    Seq::new(items.len(), |i: int| items[i]@)
}

/// The texts that a sequence of strings holds, in the same order.
pub open spec fn texts(strings: Seq<String>) -> Seq<Seq<char>> {
    views(strings)
}

/// The view of what an option holds, if it holds anything.
pub open spec fn view_of<T: View>(item: Option<T>) -> Option<T::V> {
    match item {
        Some(held) => Some(held@),
        None => None,
    }
}

} // verus!
