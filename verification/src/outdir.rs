use vstd::prelude::*;

verus! {

/// What the output-directory reset does with one direct child of the
/// directory.
#[derive(Debug)]
pub enum ChildAction {
    /// The child is itself a directory: delete it with everything beneath.
    RemoveRecursively,
    /// The child is a file or any other non-directory entry: delete it alone.
    RemoveEntry,
}

/// The per-child decision of the output-directory reset: a directory child
/// is removed with its whole subtree, any other child alone. The reset
/// itself walks the directory's direct children and applies the decided
/// action to each, leaving the directory existing and empty.
pub fn child_action(is_dir: bool) -> (r: ChildAction)
    ensures
        r == (if is_dir {
            ChildAction::RemoveRecursively
        } else {
            ChildAction::RemoveEntry
        }),
{
    if is_dir {
        ChildAction::RemoveRecursively
    } else {
        ChildAction::RemoveEntry
    }
}

} // verus!
