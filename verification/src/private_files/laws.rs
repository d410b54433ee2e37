//! What is tested of private files: exactly which are held, read, replaced and locked.

use vstd::prelude::*;

use crate::private_files;
use crate::private_files::{FileFacts, LockStepView};
use crate::text;

verus! {

/// A file is held exactly if it is a regular file with one name, and its path still names it.
pub proof fn law_held_files_are_named_by_their_path(
    path: Seq<char>,
    held: FileFacts,
    named: FileFacts,
)
    ensures
        private_files::inode_fault(path, held, named) is None <==> {
            &&& held.regular
            &&& held.links == 1
            &&& named.regular
            &&& !named.symlink
            &&& named.links == 1
            &&& named.device == held.device
            &&& named.inode == held.inode
        },
        private_files::inode_fault(path, held, named) matches Some(e) ==> (if !held.regular
            || held.links != 1 {
            e == "Private record "@ + path + " is not a single-link regular file; it was refused."@
        } else {
            e == "Private lock path "@ + path
                + " no longer names the held stable inode; it was refused."@
        }),
{
}

/// A record is read exactly if it is a regular file with one name and within its bound.
pub proof fn law_records_within_their_bound_are_read(
    path: Seq<char>,
    facts: FileFacts,
    limit: usize,
)
    ensures
        ({
            let fault = private_files::record_fault(path, facts, limit);
            &&& fault is None <==> facts.regular && facts.links == 1 && facts.length <= limit
            &&& facts.regular && facts.links == 1 && facts.length > limit ==> fault == Some(
                "Private record "@ + path + " exceeds its "@ + text::decimal(limit as nat)
                    + "-byte bound and was preserved."@,
            )
        }),
{
}

/// A record is replaced exactly if nothing stands there, or a regular file with one name that is
/// no link.
pub proof fn law_only_plain_files_are_replaced(path: Seq<char>, facts: FileFacts)
    ensures
        private_files::overwrite_fault(path, None) is None,
        private_files::overwrite_fault(path, Some(facts)) is None <==> facts.regular
            && !facts.symlink && facts.links == 1,
{
}

/// A directory is used exactly if it is one, and no link.
pub proof fn law_only_real_directories_are_used(path: Seq<char>, facts: FileFacts)
    ensures
        private_files::directory_fault(path, facts, false) is None <==> facts.directory
            && !facts.symlink,
        private_files::directory_fault(path, facts, true) is None <==> facts.directory
            && !facts.symlink,
        !(facts.directory && !facts.symlink) ==> private_files::directory_fault(path, facts, true)
            == Some("Private child path "@ + path + " is not a real directory."@)
            && private_files::directory_fault(path, facts, false) == Some(
            "Private path "@ + path + " is not a real directory."@,
        ),
{
}

/// The registry is used exactly if it is a regular file with one name, of this user and private to
/// them, and its path still names it; each fault is told.
pub proof fn law_the_registry_is_private_to_its_user(
    name: Seq<char>,
    held: FileFacts,
    named: FileFacts,
    user: u32,
)
    ensures
        ({
            let fault = private_files::private_file_fault(name, held, named, user);
            let moved = named.symlink || named.device != held.device || named.inode != held.inode;
            let sound = held.regular && held.links == 1 && held.owner == user && !moved;
            &&& fault is None <==> sound && held.mode & 0o077 == 0
            &&& !held.regular ==> fault == Some(name + " must be a regular file"@)
            &&& held.regular && held.links != 1 ==> fault == Some(
                name + " must have exactly one link"@,
            )
            &&& held.regular && held.links == 1 && held.owner != user ==> fault == Some(
                name + " must be owned by the current user"@,
            )
            &&& held.regular && held.links == 1 && held.owner == user && moved ==> fault == Some(
                name + " path changed while it was open"@,
            )
            &&& sound && held.mode & 0o077 != 0 ==> fault == Some(name + " must be private"@)
            &&& private_files::identity_fault(name, held, named, user) is None <==> sound
        }),
{
}

/// The lock of the registry is held once it is taken; while another holds it, it is waited for up to
/// the fiftieth try; any other error refuses it at once.
pub proof fn law_the_registry_lock_is_waited_for(
    attempt: usize,
    number: Option<i32>,
    error: Seq<char>,
)
    ensures
        ({
            let step = private_files::registry_lock_step_of(attempt, false, number, error);
            let busy = number == Some(11i32) || number == Some(35i32);
            &&& private_files::registry_lock_step_of(attempt, true, number, error)
                == LockStepView::Held
            &&& busy && attempt < 49 ==> step == LockStepView::Wait
            &&& busy && attempt >= 49 ==> step == LockStepView::Refuse(
                "Notification registry lock wait bound exhausted"@,
            )
            &&& !busy ==> step == LockStepView::Refuse(
                "Cannot lock notification registry: "@ + error,
            )
        }),
{
}

} // verus!
