//! Lines of a text: what stands before the first line break, and what
//! stands after it.

use vstd::prelude::*;

verus! {

/// The character that ends a line.
pub open spec fn line_break() -> char {
    '\n'
}

/// Whether a text holds no line break.
pub open spec fn single_line(text: Seq<char>) -> bool {
    forall|i: int| 0 <= i < text.len() ==> text[i] != line_break()
}

/// The number of characters before the first line break, or the length of a
/// text that holds none.
pub open spec fn line_len(text: Seq<char>) -> nat
    decreases text.len(),
{
    if text.len() == 0 || text[0] == line_break() {
        0
    } else {
        1 + line_len(text.skip(1))
    }
}

/// The first line of a text, without its line break.
pub open spec fn first_line(text: Seq<char>) -> Seq<char> {
    text.take(line_len(text) as int)
}

/// What follows the first line and its line break.
pub open spec fn after_line(text: Seq<char>) -> Seq<char> {
    if line_len(text) < text.len() {
        text.skip(line_len(text) as int + 1)
    } else {
        Seq::empty()
    }
}

/// A place that no line break precedes, and at which the text ends or a line
/// break stands, is the end of the first line.
pub proof fn lemma_line_len_is(text: Seq<char>, n: int)
    requires
        0 <= n <= text.len(),
        forall|i: int| 0 <= i < n ==> text[i] != line_break(),
        n < text.len() ==> text[n] == line_break(),
    ensures
        line_len(text) == n,
    decreases text.len(),
{
    if text.len() == 0 || text[0] == line_break() {
    } else {
        let rest = text.skip(1);
        assert forall|i: int| 0 <= i < n - 1 implies rest[i] != line_break() by {
            assert(rest[i] == text[i + 1]);
        }
        lemma_line_len_is(rest, n - 1);
    }
}

/// A line, a line break and a rest, put together: the first line is that
/// line, and what follows it is that rest.
pub proof fn lemma_split_joined(line: Seq<char>, rest: Seq<char>)
    requires
        single_line(line),
    ensures
        first_line(line + seq![line_break()] + rest) == line,
        after_line(line + seq![line_break()] + rest) == rest,
{
    let text = line + seq![line_break()] + rest;
    lemma_line_len_is(text, line.len() as int);
    assert(first_line(text) =~= line);
    assert(after_line(text) =~= rest);
}

/// The place at or after `from` where the line that starts at `from` ends.
pub fn line_end(data: &Vec<char>, from: usize) -> (end: usize)
    requires
        from <= data.len(),
    ensures
        from <= end <= data.len(),
        end - from == line_len(data@.skip(from as int)),
        first_line(data@.skip(from as int)) == data@.subrange(from as int, end as int),
        after_line(data@.skip(from as int)) == data@.skip(
            if end < data.len() {
                end + 1
            } else {
                end as int
            },
        ),
{
    let mut end: usize = from;
    while end < data.len() && data[end] != '\n'
        invariant
            from <= end <= data.len(),
            forall|i: int| from <= i < end ==> data@[i] != line_break(),
        decreases data.len() - end,
    {
        end += 1;
    }
    proof {
        let text = data@.skip(from as int);
        lemma_line_len_is(text, end - from);
        assert(first_line(text) =~= data@.subrange(from as int, end as int));
        if end < data.len() {
            assert(after_line(text) =~= data@.skip(end + 1));
        } else {
            assert(after_line(text) =~= data@.skip(end as int));
        }
    }
    end
}

} // verus!
