//! The rule of the directory listing: which paths the ignore file hides.

use crate::text::{contains, contains_exec, lines_view, split_lines, split_lines_exec};
use vstd::prelude::*;

verus! {

/// Whether one of the patterns, that is a line of the ignore file that is not
/// empty, occurs in `path`.
pub open spec fn ignored_by(path: Seq<char>, patterns: Seq<Seq<char>>) -> bool {
    exists|i: int|
        0 <= i < patterns.len() && (#[trigger] patterns[i]).len() > 0 && contains(path, patterns[i])
}

/// Whether the ignore file with the text `ignore_file` hides `path`: a path
/// is hidden when a line of the file that is not empty occurs in it.
pub fn is_ignored(path: &str, ignore_file: &str) -> (hidden: bool)
    ensures
        hidden == ignored_by(path@, split_lines(ignore_file@)),
{
    let patterns = split_lines_exec(ignore_file);
    let mut i: usize = 0;
    while i < patterns.len()
        invariant
            i <= patterns.len(),
            lines_view(patterns@) == split_lines(ignore_file@),
            forall|k: int|
                0 <= k < i ==> !((#[trigger] lines_view(patterns@)[k]).len() > 0 && contains(
                    path@,
                    lines_view(patterns@)[k],
                )),
        decreases patterns.len() - i,
    {
        let pattern = patterns[i].as_str();
        assert(lines_view(patterns@)[i as int] == pattern@);
        if pattern.unicode_len() > 0 && contains_exec(path, pattern) {
            return true;
        }
        i += 1;
    }
    false
}

} // verus!
