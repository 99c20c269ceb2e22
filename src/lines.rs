//! Line-oriented output: a report is a sequence of lines, each indented
//! by two spaces per level of depth.
use vstd::prelude::*;
use crate::text::{spaces, spaces_string};

verus! {

/// The text of each line.
pub open spec fn view_lines(v: Seq<String>) -> Seq<Seq<char>> {
    v.map_values(|s: String| s@)
}

/// `text` indented to `depth`.
pub open spec fn line(depth: nat, text: Seq<char>) -> Seq<char> {
    spaces(2 * depth) + text
}

/// Appends `text` indented to `depth`.
pub fn emit(out: &mut Vec<String>, depth: usize, text: String)
    requires
        depth <= usize::MAX / 2,
    ensures
        view_lines(final(out)@) == view_lines(old(out)@).push(line(depth as nat, text@)),
{
    let s = spaces_string(2 * depth).concat(text.as_str());
    out.push(s);
    assert(view_lines(out@) =~= view_lines(old(out)@).push(line(depth as nat, text@)));
}

/// Appends `text` unindented.
pub fn emit_title(out: &mut Vec<String>, text: &str)
    ensures
        view_lines(final(out)@) == view_lines(old(out)@).push(text@),
{
    out.push(String::from_str(text));
    assert(view_lines(out@) =~= view_lines(old(out)@).push(text@));
}

/// `a` followed by `b`.
pub fn cat(a: &str, b: &str) -> (r: String)
    ensures
        r@ == a@ + b@,
{
    String::from_str(a).concat(b)
}

} // verus!
