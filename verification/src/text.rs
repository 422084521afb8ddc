use vstd::prelude::*;
use vstd::string::{StrSliceExecFns, StringExecFns};

verus! {

/// The text of each string of a list, in order.
pub open spec fn texts(list: Seq<String>) -> Seq<Seq<char>> {
    Seq::new(list.len(), |i: int| list[i]@)
}

/// Whether two strings hold the same text.
pub fn same_text(a: &str, b: &str) -> (same: bool)
    ensures
        same == (a@ == b@),
{
    let left = String::from_str(a);
    let right = String::from_str(b);
    left == right
}

/// Whether `list` holds a string with the text of `name`.
pub fn contains_text(list: &Vec<String>, name: &String) -> (found: bool)
    ensures
        found == texts(list@).contains(name@),
{
    let mut i: usize = 0;
    while i < list.len()
        invariant
            i <= list.len(),
            forall|j: int| 0 <= j < i ==> texts(list@)[j] != name@,
        decreases list.len() - i,
    {
        if list[i] == *name {
            assert(texts(list@)[i as int] == name@);
            return true;
        }
        i += 1;
    }
    false
}

/// The character at position `i`, read in constant time where the text is
/// known to be ASCII.
pub(crate) fn char_at(text: &str, ascii: bool, i: usize) -> (c: char)
    requires
        i < text@.len(),
        ascii ==> text.is_ascii(),
    ensures
        c == text@[i as int],
{
    if ascii {
        let byte: u8 = text.get_ascii(i);
        assert('\0' <= text@[i as int] <= '\u{7f}');
        byte as char
    } else {
        text.get_char(i)
    }
}

/// The characters from position `from` up to `to`, cut in constant time
/// where the text is known to be ASCII.
pub(crate) fn slice_of(text: &str, ascii: bool, from: usize, to: usize) -> (part: String)
    requires
        from <= to <= text@.len(),
        ascii ==> text.is_ascii(),
    ensures
        part@ == text@.subrange(from as int, to as int),
{
    if ascii {
        String::from_str(text.substring_ascii(from, to))
    } else {
        String::from_str(text.substring_char(from, to))
    }
}

} // verus!
