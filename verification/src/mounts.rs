//! Whether a mount point shows in the text of a mount table.
//!
//! The table is read line by line, and a line shows the mount point when the
//! mount point stands anywhere in it. The match is loose on purpose: a mount
//! point that is part of a longer word on some line counts as present.

use vstd::prelude::*;
use crate::text::{chars_of, occurs_in, stands_within};

verus! {

/// Whether the characters of `text` from `start` up to, and without, `end`
/// make up one line: the line starts the text or follows a line feed, holds
/// no line feed, and ends at a line feed or at the end of the text. What
/// follows the last line feed of the text is a line only if it is not empty.
pub open spec fn is_line(text: Seq<char>, start: int, end: int) -> bool {
    &&& 0 <= start <= end <= text.len()
    &&& (start == 0 || text[start - 1] == '\n')
    &&& forall|k: int| start <= k < end ==> text[k] != '\n'
    &&& if end < text.len() {
        text[end] == '\n'
    } else {
        start < end
    }
}

/// Where the content of the line from `start` to `end` stops: a carriage
/// return just before the line feed that ends the line is no part of it.
pub open spec fn content_end(text: Seq<char>, start: int, end: int) -> int {
    if end < text.len() && start < end && text[end - 1] == '\r' {
        end - 1
    } else {
        end
    }
}

/// The content of the line from `start` to `end`.
pub open spec fn line_content(text: Seq<char>, start: int, end: int) -> Seq<char> {
    text.subrange(start, content_end(text, start, end))
}

/// Whether some line of `table` shows `mount_point`.
pub open spec fn mounted(table: Seq<char>, mount_point: Seq<char>) -> bool {
    exists|start: int, end: int|
        is_line(table, start, end) && occurs_in(line_content(table, start, end), mount_point)
}

/// Tells whether `mount_point` is present in the mount table whose text is
/// `mount_table`.
pub fn mount_present(mount_table: &str, mount_point: &str) -> (present: bool)
    ensures
        present == mounted(mount_table@, mount_point@),
{
    let table = chars_of(mount_table);
    let needle = chars_of(mount_point);
    let mut start: usize = 0;
    while start < table.len()
        invariant
            start <= table.len(),
            table@ == mount_table@,
            needle@ == mount_point@,
            start == 0 || start == table.len() || table[start - 1] == '\n',
            forall|s: int, e: int|
                s < start && is_line(table@, s, e) ==> !occurs_in(
                    #[trigger] line_content(table@, s, e),
                    needle@,
                ),
        decreases table.len() - start,
    {
        let mut end: usize = start;
        while end < table.len() && table[end] != '\n'
            invariant
                start <= end <= table.len(),
                forall|k: int| start <= k < end ==> table[k] != '\n',
            decreases table.len() - end,
        {
            end += 1;
        }
        assert(is_line(table@, start as int, end as int));
        let stop: usize = if end < table.len() && start < end && table[end - 1] == '\r' {
            end - 1
        } else {
            end
        };
        if stands_within(&table, start, stop, &needle) {
            assert(occurs_in(line_content(table@, start as int, end as int), needle@));
            return true;
        }
        let next: usize = if end < table.len() {
            end + 1
        } else {
            end
        };
        assert forall|s: int, e: int| s < next && is_line(table@, s, e) implies !occurs_in(
            #[trigger] line_content(table@, s, e),
            needle@,
        ) by {
            if s == start {
                if e < end {
                    assert(table[e] == '\n');
                } else if e > end {
                    assert(table[end as int] == '\n');
                }
            } else if s > start {
                assert(table[s - 1] == '\n');
            }
        }
        start = next;
    }
    assert forall|s: int, e: int| is_line(table@, s, e) implies !occurs_in(
        #[trigger] line_content(table@, s, e),
        needle@,
    ) by {
        assert(s < table.len());
    }
    false
}

} // verus!
