//! Line diffs between two texts, as `similar` computes them, shown the way a
//! unified diff shows its lines.
use vstd::prelude::*;
use crate::text::push_str;

verus! {

/// What happened to one line.
#[derive(Clone, Copy, PartialEq, Eq, Structural, Debug)]
pub enum ChangeKind {
    Equal,
    Delete,
    Insert,
}

/// The changes, with three lines of context around each hunk, of a line diff
/// from `old` to `new` by `similar::TextDiff::from_lines`; each line keeps
/// its newline when it had one.
pub uninterp spec fn line_changes(old: Seq<char>, new: Seq<char>) -> Seq<(ChangeKind, Seq<char>)>;

pub open spec fn changes_view(c: Seq<(ChangeKind, String)>) -> Seq<(ChangeKind, Seq<char>)> {
    c.map_values(|p: (ChangeKind, String)| (p.0, p.1@))
}

/// Diffs `old` and `new` line by line with `similar::TextDiff::from_lines`
/// (Myers, no deadline) and lists the changes of `grouped_ops(3)` in order,
/// each with its tag and `to_string_lossy` text: a function of the two texts
/// alone, named and not stated.
#[verifier::external_body]
pub(crate) fn diff_lines(old: &str, new: &str) -> (r: Vec<(ChangeKind, String)>)
    ensures
        changes_view(r@) == line_changes(old@, new@),
{
    let diff = similar::TextDiff::from_lines(old, new);
    let mut out = Vec::new();
    for group in diff.grouped_ops(3) {
        for op in &group {
            for change in diff.iter_changes(op) {
                let kind = match change.tag() {
                    similar::ChangeTag::Equal => ChangeKind::Equal,
                    similar::ChangeTag::Delete => ChangeKind::Delete,
                    similar::ChangeTag::Insert => ChangeKind::Insert,
                };
                out.push((kind, change.to_string_lossy().into_owned()));
            }
        }
    }
    out
}

/// How a changed line is shown: `- `, `+ ` or two spaces before it.
pub open spec fn shown_change(c: (ChangeKind, Seq<char>)) -> Seq<char> {
    match c.0 {
        ChangeKind::Delete => "- "@ + c.1,
        ChangeKind::Insert => "+ "@ + c.1,
        ChangeKind::Equal => "  "@ + c.1,
    }
}

/// The changes as they are shown, each with its kind (for colouring).
pub fn show_changes(changes: &Vec<(ChangeKind, String)>) -> (r: Vec<(ChangeKind, String)>)
    ensures
        r@.len() == changes@.len(),
        forall|i: int|
            0 <= i < r@.len() ==> (#[trigger] r@[i]).0 == changes@[i].0 && r@[i].1@ == shown_change(
                (changes@[i].0, changes@[i].1@),
            ),
{
    let mut r: Vec<(ChangeKind, String)> = Vec::new();
    let mut i: usize = 0;
    while i < changes.len()
        invariant
            i <= changes@.len(),
            r@.len() == i,
            forall|k: int|
                0 <= k < i ==> (#[trigger] r@[k]).0 == changes@[k].0 && r@[k].1@ == shown_change(
                    (changes@[k].0, changes@[k].1@),
                ),
        decreases changes@.len() - i,
    {
        let (kind, line) = (changes[i].0, &changes[i].1);
        let mut s = match kind {
            ChangeKind::Delete => String::from_str("- "),
            ChangeKind::Insert => String::from_str("+ "),
            ChangeKind::Equal => String::from_str("  "),
        };
        push_str(&mut s, line.as_str());
        r.push((kind, s));
        i += 1;
    }
    r
}

/// Whether any line was deleted or inserted.
pub fn has_changes(changes: &Vec<(ChangeKind, String)>) -> (b: bool)
    ensures
        b == exists|i: int| 0 <= i < changes@.len() && (#[trigger] changes@[i]).0 != ChangeKind::Equal,
{
    let mut i: usize = 0;
    while i < changes.len()
        invariant
            i <= changes@.len(),
            forall|k: int| 0 <= k < i ==> (#[trigger] changes@[k]).0 == ChangeKind::Equal,
        decreases changes@.len() - i,
    {
        if changes[i].0 != ChangeKind::Equal {
            return true;
        }
        i += 1;
    }
    false
}

} // verus!
