use vstd::prelude::*;
use crate::effect::{NextView, PathProbe, RequestView, ResponseView};
use crate::failure::FailureView;
use crate::io::{DeletionView, LinkingView, delete_step, link_begin, link_place};
use crate::platform::Platform;

verus! {

/// What a path of a file system holds.
pub enum Node {
    /// A regular file.
    File,
    /// A directory.
    Directory,
    /// A symbolic link that leads to the path `target`.
    Link { target: Seq<char> },
}

/// A file system, as far as deleting is concerned: what each path holds that holds
/// anything.
pub type FileTree = Map<Seq<char>, Node>;

/// How many symbolic links a path is followed through before it is given up.
pub open spec fn link_limit() -> nat {
    40
}

/// What `path` leads to when at most `links` symbolic links are followed, if anything.
pub open spec fn leads_to(tree: FileTree, path: Seq<char>, links: nat) -> Option<Node>
    decreases links,
{
    if !tree.contains_key(path) {
        None
    } else {
        match tree[path] {
            Node::Link { target } => if links == 0 {
                None
            } else {
                leads_to(tree, target, (links - 1) as nat)
            },
            node => Some(node),
        }
    }
}

/// What a look at `path` finds in `tree`.
pub open spec fn looked_at(tree: FileTree, path: Seq<char>) -> PathProbe {
    PathProbe {
        exists: leads_to(tree, path, link_limit()) is Some,
        is_dir: leads_to(tree, path, link_limit()) == Some(Node::Directory),
        is_symlink: tree.contains_key(path) && tree[path] is Link,
    }
}

/// Whether `path` is `dir` or lies below it.
pub open spec fn within(path: Seq<char>, dir: Seq<char>) -> bool {
    path == dir || (path.len() > dir.len() && path.subrange(0, dir.len() as int) == dir
        && path[dir.len() as int] == '/')
}

/// `tree` without the tree at `path`: without the link itself if `path` is a symbolic
/// link, else without `path` and everything below it.
pub open spec fn without_tree(tree: FileTree, path: Seq<char>) -> FileTree {
    if tree.contains_key(path) && tree[path] is Link {
        tree.remove(path)
    } else {
        tree.remove_keys(Set::new(|p: Seq<char>| within(p, path)))
    }
}

/// The message of a request that the model refuses.
pub open spec fn refusal() -> Seq<char> {
    "No such file or directory"@
}

/// What a file system answers to a request of a deletion, and what it holds after it.
/// A look changes nothing. A tree can be removed where there is a directory or a
/// symbolic link; a file where there is anything but a directory.
pub open spec fn answered(tree: FileTree, request: RequestView) -> (ResponseView, FileTree) {
    match request {
        RequestView::Probe { path } => (ResponseView::Probed { probe: looked_at(tree, path) }, tree),
        RequestView::RemoveTree { path } => if tree.contains_key(path) && !(tree[path] is File) {
            (ResponseView::Done, without_tree(tree, path))
        } else {
            (ResponseView::Failed { message: refusal() }, tree)
        },
        RequestView::RemoveFile { path } => if tree.contains_key(path) && !(tree[path]
            is Directory) {
            (ResponseView::Done, tree.remove(path))
        } else {
            (ResponseView::Failed { message: refusal() }, tree)
        },
        _ => (ResponseView::Failed { message: refusal() }, tree),
    }
}

/// The result of deleting `victim` in `tree`, and what the file system holds after it.
pub open spec fn deleted(tree: FileTree, victim: Seq<char>) -> (Result<(), FailureView>, FileTree) {
    let looked = answered(tree, RequestView::Probe { path: victim });
    match delete_step(DeletionView::Probing { victim }, looked.0) {
        NextView::Finish(result) => (result, looked.1),
        NextView::Continue(state, request) => {
            let removed = answered(looked.1, request);
            match delete_step(state, removed.0) {
                NextView::Finish(result) => (result, removed.1),
                NextView::Continue(_, _) => (Err(FailureView::Unexpected), removed.1),
            }
        },
    }
}

/// Deleting a path that does not exist and is no symbolic link succeeds and leaves
/// the file system as it is.
pub proof fn law_delete_leaves_absent(tree: FileTree, victim: Seq<char>)
    requires
        !looked_at(tree, victim).exists,
        !looked_at(tree, victim).is_symlink,
    ensures
        deleted(tree, victim) == (Ok::<(), FailureView>(()), tree),
{
}

/// Deleting a symbolic link that leads nowhere succeeds and removes the link and
/// nothing else; deleting it once more succeeds and changes nothing.
pub proof fn law_delete_removes_broken_link(tree: FileTree, victim: Seq<char>)
    requires
        looked_at(tree, victim).is_symlink,
        !looked_at(tree, victim).exists,
    ensures
        deleted(tree, victim) == (Ok::<(), FailureView>(()), tree.remove(victim)),
        deleted(tree.remove(victim), victim) == (Ok::<(), FailureView>(()), tree.remove(victim)),
{
    let after = tree.remove(victim);
    assert(!after.contains_key(victim));
    assert(leads_to(after, victim, link_limit()) is None);
}

/// Deleting succeeds on whatever there is, and afterwards there is nothing at the
/// path: a file, a directory with all below it and a symbolic link are all gone, and
/// what is neither at the path nor below it stays.
pub proof fn law_delete_removes(tree: FileTree, victim: Seq<char>)
    ensures
        deleted(tree, victim).0 == Ok::<(), FailureView>(()),
        !deleted(tree, victim).1.contains_key(victim),
        forall|other: Seq<char>|
            !within(other, victim) ==> (#[trigger] deleted(tree, victim).1.contains_key(other)
                == tree.contains_key(other)),
{
    let probe = looked_at(tree, victim);
    if tree.contains_key(victim) {
        match tree[victim] {
            Node::Link { target } => {},
            Node::File => {
                assert(leads_to(tree, victim, link_limit()) == Some(Node::File));
            },
            Node::Directory => {
                assert(leads_to(tree, victim, link_limit()) == Some(Node::Directory));
                assert(within(victim, victim));
            },
        }
    }
}

/// Making a link clears the place of the link, whatever stands there. The first
/// request of the operation deletes what is at the target seen from the working
/// directory; and in every file system that deletion succeeds and leaves nothing at
/// that place, be it a file, a directory with all below it, or a link, live or broken,
/// while everything that is neither at the place nor below it stays. So the command
/// that makes the link finds its place free.
pub proof fn law_symlink_clears_its_place(
    tree: FileTree,
    platform: Platform,
    source: Seq<char>,
    target: Seq<char>,
    working_dir: Seq<char>,
)
    ensures
        link_begin(platform, source, target, working_dir) == NextView::Continue(
            LinkingView::Clearing {
                platform,
                source,
                target,
                working_dir,
                place: link_place(working_dir, target),
            },
            RequestView::Delete { path: link_place(working_dir, target) },
        ),
        deleted(tree, link_place(working_dir, target)).0 == Ok::<(), FailureView>(()),
        !deleted(tree, link_place(working_dir, target)).1.contains_key(
            link_place(working_dir, target),
        ),
        forall|other: Seq<char>|
            !within(other, link_place(working_dir, target)) ==> (#[trigger] deleted(
                tree,
                link_place(working_dir, target),
            ).1.contains_key(other) == tree.contains_key(other)),
{
    law_delete_removes(tree, link_place(working_dir, target));
}

} // verus!
