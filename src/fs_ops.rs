use crate::paths::{file_name, file_name_of, push_path, pushed_path};
use vstd::prelude::*;

verus! {

/// Where an operation that targets `target` acts: inside `target`, under
/// the last component of `named`, when `target` is a directory; at `target`
/// itself otherwise. None when that component is needed and `named` has
/// none.
pub open spec fn placed_path(target: Seq<char>, target_is_dir: bool, named: Seq<char>) -> Option<Seq<char>> {
    if target_is_dir {
        match file_name_of(named) {
            Some(name) => Some(pushed_path(target, name)),
            None => None,
        }
    } else {
        Some(target)
    }
}

fn place(target: &str, target_is_dir: bool, named: &str) -> (r: Option<String>)
    ensures
        crate::paths::opt_view(r) == placed_path(target@, target_is_dir, named@),
{
    if target_is_dir {
        match file_name(named) {
            Some(name) => Some(push_path(target, name.as_str())),
            None => None,
        }
    } else {
        Some(String::from_str(target))
    }
}

/// The file that copying `from` to `to` writes: `to/<last component of
/// from>` when `to` is a directory, `to` itself otherwise. None when `to`
/// is a directory and `from` has no last component, which is a misuse by
/// the caller.
pub fn copy_destination(from: &str, to: &str, to_is_dir: bool) -> (r: Option<String>)
    ensures
        to_is_dir ==> match file_name_of(from@) {
            Some(name) => r is Some && r->0@ == pushed_path(to@, name),
            None => r is None,
        },
        !to_is_dir ==> r is Some && r->0@ == to@,
{
    let r = place(to, to_is_dir, from);
    r
}

/// The path at which a link asked for at `link` is made: `link/<last
/// component of link>` when `link` is a directory, `link` itself otherwise.
/// None when `link` is a directory with no last component.
pub fn symlink_path(link: &str, link_is_dir: bool) -> (r: Option<String>)
    ensures
        link_is_dir ==> match file_name_of(link@) {
            Some(name) => r is Some && r->0@ == pushed_path(link@, name),
            None => r is None,
        },
        !link_is_dir ==> r is Some && r->0@ == link@,
{
    let r = place(link, link_is_dir, link);
    r
}

/// What is done at the computed link path before the link is made.
#[derive(Clone, Copy, Debug, PartialEq, Eq, Structural)]
pub enum SymlinkStep {
    /// Make the link; nothing is removed.
    Create,
    /// Remove the existing symbolic link, then make the new one.
    ReplaceLink,
    /// Stop: forcing would delete something that is not a symbolic link.
    RefuseNonLink,
}

/// Decides what happens at the link path, given whether `force` was asked
/// for and what is found there. Without `force` nothing is ever removed;
/// with it only an existing symbolic link is, and any other existing entry
/// stops the operation.
pub fn symlink_step(force: bool, exists: bool, is_symlink: bool) -> (r: SymlinkStep)
    ensures
        !force ==> r == SymlinkStep::Create,
        force && !exists ==> r == SymlinkStep::Create,
        force && exists && is_symlink ==> r == SymlinkStep::ReplaceLink,
        force && exists && !is_symlink ==> r == SymlinkStep::RefuseNonLink,
{
    if force && exists {
        if is_symlink {
            SymlinkStep::ReplaceLink
        } else {
            SymlinkStep::RefuseNonLink
        }
    } else {
        SymlinkStep::Create
    }
}

} // verus!
