use vstd::prelude::*;
use vstd::string::StrSliceExecFns;
use crate::text::{char_at, contains_text, slice_of, texts};

verus! {

/// Where the first line of `text` ends: the position of its first line
/// feed, or the length of `text` where it holds none.
pub open spec fn line_end(text: Seq<char>) -> int
    decreases text.len(),
{
    if text.len() == 0 || text[0] == '\n' {
        0
    } else {
        1 + line_end(text.drop_first())
    }
}

/// A line that was closed by a line feed, without the carriage return
/// that may stand before it.
pub open spec fn without_return(line: Seq<char>) -> Seq<char> {
    if line.len() > 0 && line.last() == '\r' {
        line.drop_last()
    } else {
        line
    }
}

/// The names after one more line: an empty line and a name that is
/// already there change nothing.
pub open spec fn keep_name(names: Seq<Seq<char>>, line: Seq<char>) -> Seq<Seq<char>> {
    if line.len() == 0 || names.contains(line) {
        names
    } else {
        names.push(line)
    }
}

/// The names after every line of `text` was taken in, first line first.
/// A last line without a line feed counts as it stands.
pub open spec fn collect_names(names: Seq<Seq<char>>, text: Seq<char>) -> Seq<Seq<char>>
    decreases text.len(),
{
    if text.len() == 0 {
        names
    } else {
        let end = line_end(text);
        if 0 <= end < text.len() {
            collect_names(keep_name(names, without_return(text.take(end))), text.skip(end + 1))
        } else {
            keep_name(names, text)
        }
    }
}

/// The chunk names of a manifest: its lines that are not empty, each once,
/// in the order in which they first appear.
pub open spec fn manifest_names(text: Seq<char>) -> Seq<Seq<char>> {
    collect_names(Seq::empty(), text)
}

/// A position without a line feed before it, and with one at it or the
/// end of the text, is where the first line ends.
pub proof fn lemma_line_end(text: Seq<char>, at: int)
    requires
        0 <= at <= text.len(),
        forall|j: int| 0 <= j < at ==> text[j] != '\n',
        at == text.len() || text[at] == '\n',
    ensures
        line_end(text) == at,
    decreases at,
{
    if at > 0 {
        let rest = text.drop_first();
        assert forall|j: int| 0 <= j < at - 1 implies rest[j] != '\n' by {
            assert(rest[j] == text[j + 1]);
        }
        lemma_line_end(rest, at - 1);
    }
}

/// The names of a manifest never repeat and none is empty.
pub proof fn lemma_names_distinct(names: Seq<Seq<char>>, text: Seq<char>)
    requires
        names.no_duplicates(),
        forall|i: int| 0 <= i < names.len() ==> (#[trigger] names[i]).len() > 0,
    ensures
        collect_names(names, text).no_duplicates(),
        forall|i: int|
            0 <= i < collect_names(names, text).len() ==> (#[trigger] collect_names(
                names,
                text,
            )[i]).len() > 0,
    decreases text.len(),
{
    if text.len() > 0 {
        let end = line_end(text);
        if 0 <= end < text.len() {
            lemma_names_distinct(
                keep_name(names, without_return(text.take(end))),
                text.skip(end + 1),
            );
        }
    }
}

/// The first line ends inside the text or at its end, holds no line feed,
/// and is closed by one wherever it ends before the text does.
pub proof fn lemma_line_end_bounds(text: Seq<char>)
    ensures
        0 <= line_end(text) <= text.len(),
        forall|j: int| 0 <= j < line_end(text) ==> text[j] != '\n',
        line_end(text) < text.len() ==> text[line_end(text)] == '\n',
    decreases text.len(),
{
    if text.len() > 0 && text[0] != '\n' {
        let rest = text.drop_first();
        lemma_line_end_bounds(rest);
        assert forall|j: int| 0 <= j < line_end(text) implies text[j] != '\n' by {
            if j > 0 {
                assert(rest[j - 1] == text[j]);
            }
        }
    }
}

/// Taking in more text never drops or reorders a name: the names from
/// before stay at the front.
pub proof fn lemma_names_grow(names: Seq<Seq<char>>, text: Seq<char>)
    ensures
        names.len() <= collect_names(names, text).len(),
        forall|i: int| 0 <= i < names.len() ==> collect_names(names, text)[i] == names[i],
    decreases text.len(),
{
    if text.len() > 0 {
        let end = line_end(text);
        let kept = if 0 <= end < text.len() {
            keep_name(names, without_return(text.take(end)))
        } else {
            keep_name(names, text)
        };
        if 0 <= end < text.len() {
            lemma_names_grow(kept, text.skip(end + 1));
        }
        assert forall|i: int| 0 <= i < names.len() implies collect_names(names, text)[i]
            == names[i] by {
            assert(kept[i] == names[i]);
        }
    }
}

/// A manifest whose lines are all closed can be read in two parts: the
/// names of the whole are those of the first part with the second part
/// taken in after them.
pub proof fn lemma_manifest_in_parts(names: Seq<Seq<char>>, head: Seq<char>, tail: Seq<char>)
    requires
        head.len() == 0 || head.last() == '\n',
    ensures
        collect_names(names, head + tail) == collect_names(collect_names(names, head), tail),
    decreases head.len(),
{
    if head.len() == 0 {
        assert(head + tail =~= tail);
    } else {
        let end = line_end(head);
        lemma_line_end_bounds(head);
        assert(end < head.len()) by {
            if end == head.len() {
                assert(head[head.len() - 1] != '\n');
            }
        }
        let whole = head + tail;
        assert forall|j: int| 0 <= j < end implies whole[j] != '\n' by {
            assert(whole[j] == head[j]);
        }
        assert(whole[end] == head[end]);
        lemma_line_end(whole, end);
        let rest = head.skip(end + 1);
        assert(whole.take(end) =~= head.take(end));
        assert(whole.skip(end + 1) =~= rest + tail);
        if rest.len() > 0 {
            assert(rest.last() == head.last());
        }
        lemma_manifest_in_parts(keep_name(names, without_return(head.take(end))), rest, tail);
    }
}

/// An encoder that only appends closed lines to its manifest only appends
/// names: those read before the append stay where they were.
pub proof fn lemma_append_keeps_names(before: Seq<char>, appended: Seq<char>)
    requires
        before.len() == 0 || before.last() == '\n',
    ensures
        manifest_names(before).len() <= manifest_names(before + appended).len(),
        forall|i: int|
            0 <= i < manifest_names(before).len() ==> manifest_names(before + appended)[i]
                == manifest_names(before)[i],
{
    lemma_manifest_in_parts(Seq::empty(), before, appended);
    lemma_names_grow(manifest_names(before), appended);
}

fn keep_line(names: &mut Vec<String>, line: String)
    ensures
        texts(final(names)@) == keep_name(texts(old(names)@), line@),
{
    if !line.as_str().is_empty() && !contains_text(names, &line) {
        names.push(line);
        assert(texts(names@) =~= texts(old(names)@).push(line@));
    }
}

/// Reads the text of a manifest into the chunk names it lists.
pub fn parse_segment_list(content: &str) -> (names: Vec<String>)
    ensures
        texts(names@) == manifest_names(content@),
        texts(names@).no_duplicates(),
        forall|i: int| 0 <= i < names.len() ==> (#[trigger] texts(names@)[i]).len() > 0,
{
    proof {
        lemma_names_distinct(Seq::empty(), content@);
    }
    let ascii = content.is_ascii();
    let n: usize = content.unicode_len();
    let mut names: Vec<String> = Vec::new();
    let mut start: usize = 0;
    let mut i: usize = 0;
    assert(texts(names@) =~= Seq::<Seq<char>>::empty());
    assert(content@.skip(0) =~= content@);
    while i < n
        invariant
            start <= i <= n,
            n == content@.len(),
            ascii ==> content.is_ascii(),
            forall|j: int| start <= j < i ==> content@[j] != '\n',
            collect_names(texts(names@), content@.skip(start as int)) == manifest_names(
                content@,
            ),
        decreases n - i,
    {
        if char_at(content, ascii, i) == '\n' {
            let ghost rest = content@.skip(start as int);
            proof {
                lemma_line_end(rest, i - start);
                assert(rest.take(i - start) =~= content@.subrange(start as int, i as int));
                assert(rest.skip(i - start + 1) =~= content@.skip(i + 1));
            }
            let mut end: usize = i;
            if end > start && char_at(content, ascii, end - 1) == '\r' {
                end = end - 1;
            }
            let line = slice_of(content, ascii, start, end);
            assert(line@ =~= without_return(content@.subrange(start as int, i as int)));
            keep_line(&mut names, line);
            start = i + 1;
        }
        i += 1;
    }
    let ghost rest = content@.skip(start as int);
    if start < n {
        proof {
            lemma_line_end(rest, n - start);
            assert(rest =~= content@.subrange(start as int, n as int));
        }
        let line = slice_of(content, ascii, start, n);
        keep_line(&mut names, line);
    }
    names
}

} // verus!
