//! What is asked of private records and their locks before they are read, written or held.
//!
//! The facts of a file are read by the caller; here it is decided what follows from them.

use vstd::prelude::*;
use vstd::string::*;

use crate::faults;
use crate::text;

pub mod laws;

verus! {

pub const MAX_DRAFT_BYTES: usize = 2_097_152;

pub const MAX_JOURNAL_BYTES: usize = 4_194_304;

pub const MAX_REGISTRY_BYTES: usize = 1_048_576;

/// How often the lock of the registry is tried for.
pub const LOCK_ATTEMPTS: usize = 50;

/// How long the lock of a creation record is waited for.
pub const PRIVATE_LOCK_WAIT_SECONDS: u64 = 3;

/// What is known of a file, by its descriptor or by its path without following links.
#[derive(Clone, Copy, Debug, PartialEq, Eq, Structural)]
pub struct FileFacts {
    pub regular: bool,
    pub directory: bool,
    pub symlink: bool,
    pub links: u64,
    pub device: u64,
    pub inode: u64,
    pub length: u64,
    pub owner: u32,
    pub mode: u32,
}

/// A text with a path in it.
pub open spec fn about(before: Seq<char>, path: Seq<char>, after: Seq<char>) -> Seq<char> {
    before + path + after
}

fn about_text(before: &str, path: &str, after: &str) -> (r: String)
    ensures
        r@ == about(before@, path@, after@),
{
    let mut out: String = before.to_owned();
    out.append(path);
    out.append(after);
    out
}

// ---------------------------------------------------------------------------
// Creation records

/// Why a held file is not the private one that its path names.
pub open spec fn inode_fault(path: Seq<char>, held: FileFacts, named: FileFacts) -> Option<
    Seq<char>,
> {
    if !held.regular || held.links != 1 {
        Some(
            about(
                "Private record "@,
                path,
                " is not a single-link regular file; it was refused."@,
            ),
        )
    } else if !named.regular || named.symlink || named.links != 1 || named.device != held.device
        || named.inode != held.inode {
        Some(
            about(
                "Private lock path "@,
                path,
                " no longer names the held stable inode; it was refused."@,
            ),
        )
    } else {
        None
    }
}

/// The identity of a held private file.
pub fn validate_private_inode(path: &str, held: &FileFacts, named: &FileFacts) -> (r: Result<
    (u64, u64),
    String,
>)
    ensures
        match r {
            Ok(identity) => inode_fault(path@, *held, *named) is None && identity == (
                held.device,
                held.inode,
            ),
            Err(e) => inode_fault(path@, *held, *named) == Some(e@),
        },
{
    if !held.regular || held.links != 1 {
        return Err(
            about_text(
                "Private record ",
                path,
                " is not a single-link regular file; it was refused.",
            ),
        );
    }
    if !named.regular || named.symlink || named.links != 1 || named.device != held.device
        || named.inode != held.inode {
        return Err(
            about_text(
                "Private lock path ",
                path,
                " no longer names the held stable inode; it was refused.",
            ),
        );
    }
    Ok((held.device, held.inode))
}

pub open spec fn directory_fault(path: Seq<char>, facts: FileFacts, child: bool) -> Option<
    Seq<char>,
> {
    if facts.directory && !facts.symlink {
        None
    } else {
        Some(
            about(
                if child {
                    "Private child path "@
                } else {
                    "Private path "@
                },
                path,
                " is not a real directory."@,
            ),
        )
    }
}

pub fn validate_private_directory(path: &str, facts: &FileFacts, child: bool) -> (r: Result<
    (),
    String,
>)
    ensures
        faults::fault_text(r) == directory_fault(path@, *facts, child),
{
    if facts.directory && !facts.symlink {
        return Ok(());
    }
    let before: &str = if child {
        "Private child path "
    } else {
        "Private path "
    };
    Err(about_text(before, path, " is not a real directory."))
}

pub open spec fn oversize_of(path: Seq<char>, limit: usize) -> Seq<char> {
    "Private record "@ + path + " exceeds its "@ + text::decimal(limit as nat)
        + "-byte bound and was preserved."@
}

fn oversize_text(path: &str, limit: usize) -> (r: String)
    ensures
        r@ == oversize_of(path@, limit),
{
    let mut out: String = "Private record ".to_owned();
    out.append(path);
    out.append(" exceeds its ");
    out.append(&text::decimal_of_usize(limit));
    out.append("-byte bound and was preserved.");
    out
}

pub open spec fn record_fault(path: Seq<char>, facts: FileFacts, limit: usize) -> Option<
    Seq<char>,
> {
    if !facts.regular || facts.links != 1 {
        Some(
            about(
                "Private record "@,
                path,
                " is not a single-link regular file; it was refused."@,
            ),
        )
    } else if facts.length > limit {
        Some(oversize_of(path, limit))
    } else {
        None
    }
}

/// Whether an open record may be read.
pub fn validate_record(path: &str, facts: &FileFacts, limit: usize) -> (r: Result<(), String>)
    ensures
        faults::fault_text(r) == record_fault(path@, *facts, limit),
{
    if !facts.regular || facts.links != 1 {
        return Err(
            about_text(
                "Private record ",
                path,
                " is not a single-link regular file; it was refused.",
            ),
        );
    }
    if facts.length > limit as u64 {
        return Err(oversize_text(path, limit));
    }
    Ok(())
}

/// Whether what was read of a record is within its bound.
pub fn validate_read(path: &str, length: usize, limit: usize) -> (r: Result<(), String>)
    ensures
        faults::fault_text(r) == if length > limit {
            Some(oversize_of(path@, limit))
        } else {
            None
        },
{
    if length > limit {
        return Err(oversize_text(path, limit));
    }
    Ok(())
}

pub open spec fn overwrite_fault(path: Seq<char>, facts: Option<FileFacts>) -> Option<Seq<char>> {
    match facts {
        Some(f) => if !f.regular || f.symlink || f.links != 1 {
            Some(
                about(
                    "Private record "@,
                    path,
                    " is not a single-link regular file; overwrite refused."@,
                ),
            )
        } else {
            None
        },
        None => None,
    }
}

/// Whether what stands at a path, if anything does, may be replaced.
pub fn validate_overwrite(path: &str, facts: &Option<FileFacts>) -> (r: Result<(), String>)
    ensures
        faults::fault_text(r) == overwrite_fault(path@, *facts),
{
    if let Some(f) = facts {
        if !f.regular || f.symlink || f.links != 1 {
            return Err(
                about_text(
                    "Private record ",
                    path,
                    " is not a single-link regular file; overwrite refused.",
                ),
            );
        }
    }
    Ok(())
}

/// What a draft and a journal may take.
pub fn validate_draft_size(length: usize) -> (r: Result<(), String>)
    ensures
        faults::fault_text(r) == if length > MAX_DRAFT_BYTES {
            Some("Creation draft exceeds its bounded storage size."@)
        } else {
            None
        },
{
    faults::check(
        length <= MAX_DRAFT_BYTES,
        "Creation draft exceeds its bounded storage size.",
    )
}

pub fn validate_journal_size(length: usize) -> (r: Result<(), String>)
    ensures
        faults::fault_text(r) == if length > MAX_JOURNAL_BYTES {
            Some("Creation journal exceeds its bounded storage size."@)
        } else {
            None
        },
{
    faults::check(
        length <= MAX_JOURNAL_BYTES,
        "Creation journal exceeds its bounded storage size.",
    )
}

/// What an attempt to take a lock without waiting came to.
pub enum LockTry {
    Taken,
    Interrupted,
    WouldBlock(String),
    Failed(String),
}

/// What to do next.
pub enum LockStep {
    Held,
    /// Try again at once.
    Again,
    /// Try again a little later.
    Wait,
    Refuse(String),
}

pub open spec fn lock_refusal_of(path: Seq<char>, error: Seq<char>) -> Seq<char> {
    "Cannot acquire private creation authority "@ + path
        + " within the bounded wait; zero writes sent: "@ + error
}

fn lock_refusal(path: &str, error: &str) -> (r: String)
    ensures
        r@ == lock_refusal_of(path@, error@),
{
    let mut out: String = "Cannot acquire private creation authority ".to_owned();
    out.append(path);
    out.append(" within the bounded wait; zero writes sent: ");
    out.append(error);
    out
}

/// Goes on for the lock of a creation record until a deadline.
pub fn lock_step(path: &str, attempt: &LockTry, past_deadline: bool) -> (r: LockStep)
    ensures
        match *attempt {
            LockTry::Taken => r is Held,
            LockTry::Interrupted => r is Again,
            LockTry::WouldBlock(e) => if past_deadline {
                r matches LockStep::Refuse(reason) && reason@ == lock_refusal_of(path@, e@)
            } else {
                r is Wait
            },
            LockTry::Failed(e) => r matches LockStep::Refuse(reason) && reason@ == lock_refusal_of(
                path@,
                e@,
            ),
        },
{
    match attempt {
        LockTry::Taken => LockStep::Held,
        LockTry::Interrupted => LockStep::Again,
        LockTry::WouldBlock(error) => {
            if past_deadline {
                LockStep::Refuse(lock_refusal(path, error))
            } else {
                LockStep::Wait
            }
        },
        LockTry::Failed(error) => LockStep::Refuse(lock_refusal(path, error)),
    }
}

/// Whether the same file was held before and after its lock was taken.
pub fn validate_lock_kept(path: &str, before: (u64, u64), after: (u64, u64)) -> (r: Result<
    (),
    String,
>)
    ensures
        faults::fault_text(r) == if before == after {
            None
        } else {
            Some(
                about(
                    "Creation authority inode changed while locking "@,
                    path@,
                    "; zero writes sent."@,
                ),
            )
        },
{
    if before.0 == after.0 && before.1 == after.1 {
        return Ok(());
    }
    Err(
        about_text(
            "Creation authority inode changed while locking ",
            path,
            "; zero writes sent.",
        ),
    )
}

/// The name of a file that is to replace a record.
pub fn temporary_name(before: &str, process: u32, sequence: u64) -> (r: String)
    ensures
        r@ == before@ + text::decimal(process as nat) + "-"@ + text::decimal(sequence as nat)
            + ".tmp"@,
{
    let mut out: String = before.to_owned();
    out.append(&text::decimal_text(process as u64));
    out.append("-");
    out.append(&text::decimal_text(sequence));
    out.append(".tmp");
    out
}

// ---------------------------------------------------------------------------
// The registry of notifications

/// Why an open file is not the user's own that its path names.
pub open spec fn identity_fault(
    name: Seq<char>,
    held: FileFacts,
    named: FileFacts,
    user: u32,
) -> Option<Seq<char>> {
    if !held.regular {
        Some(name + " must be a regular file"@)
    } else if held.links != 1 {
        Some(name + " must have exactly one link"@)
    } else if held.owner != user {
        Some(name + " must be owned by the current user"@)
    } else if named.symlink || named.device != held.device || named.inode != held.inode {
        Some(name + " path changed while it was open"@)
    } else {
        None
    }
}

fn said_of(name: &str, what: &str) -> (r: String)
    ensures
        r@ == name@ + what@,
{
    let mut out: String = name.to_owned();
    out.append(what);
    out
}

pub fn validate_file_identity(name: &str, held: &FileFacts, named: &FileFacts, user: u32) -> (r:
    Result<(), String>)
    ensures
        faults::fault_text(r) == identity_fault(name@, *held, *named, user),
{
    if !held.regular {
        return Err(said_of(name, " must be a regular file"));
    }
    if held.links != 1 {
        return Err(said_of(name, " must have exactly one link"));
    }
    if held.owner != user {
        return Err(said_of(name, " must be owned by the current user"));
    }
    if named.symlink || named.device != held.device || named.inode != held.inode {
        return Err(said_of(name, " path changed while it was open"));
    }
    Ok(())
}

/// Whether nobody but the owner may do anything with the file.
pub open spec fn is_private(mode: u32) -> bool {
    mode & 0o077 == 0
}

pub open spec fn private_file_fault(
    name: Seq<char>,
    held: FileFacts,
    named: FileFacts,
    user: u32,
) -> Option<Seq<char>> {
    match identity_fault(name, held, named, user) {
        Some(e) => Some(e),
        None => if is_private(held.mode) {
            None
        } else {
            Some(name + " must be private"@)
        },
    }
}

pub fn validate_private_file(name: &str, held: &FileFacts, named: &FileFacts, user: u32) -> (r:
    Result<(), String>)
    ensures
        faults::fault_text(r) == private_file_fault(name@, *held, *named, user),
{
    if let Err(e) = validate_file_identity(name, held, named, user) {
        return Err(e);
    }
    if held.mode & 0o077 == 0 {
        Ok(())
    } else {
        Err(said_of(name, " must be private"))
    }
}

/// Whether a registry that stands at its path may be opened.
pub fn validate_registry_path(facts: &FileFacts) -> (r: Result<(), String>)
    ensures
        faults::fault_text(r) == if facts.symlink {
            Some("Notification registry must not be a link"@)
        } else if facts.length > MAX_REGISTRY_BYTES {
            Some("Notification registry exceeds byte bound"@)
        } else {
            None
        },
{
    if facts.symlink {
        return Err("Notification registry must not be a link".to_owned());
    }
    if facts.length > MAX_REGISTRY_BYTES as u64 {
        return Err("Notification registry exceeds byte bound".to_owned());
    }
    Ok(())
}

pub fn validate_registry_size(length: usize) -> (r: Result<(), String>)
    ensures
        faults::fault_text(r) == if length > MAX_REGISTRY_BYTES {
            Some("Notification registry exceeds byte bound"@)
        } else {
            None
        },
{
    faults::check(length <= MAX_REGISTRY_BYTES, "Notification registry exceeds byte bound")
}

pub fn validate_registry_root(facts: &FileFacts) -> (r: Result<(), String>)
    ensures
        faults::fault_text(r) == if facts.directory && !facts.symlink {
            None
        } else {
            Some("Notification UI root must be a real directory"@)
        },
{
    faults::check(
        facts.directory && !facts.symlink,
        "Notification UI root must be a real directory",
    )
}

/// What a try for the lock of the registry leads to. The error is given by its number, where it
/// has one, and by its text.
pub open spec fn registry_lock_step_of(
    attempt: usize,
    taken: bool,
    number: Option<i32>,
    error: Seq<char>,
) -> LockStepView {
    if taken {
        LockStepView::Held
    } else if number != Some(11i32) && number != Some(35i32) {
        LockStepView::Refuse("Cannot lock notification registry: "@ + error)
    } else if attempt + 1 < LOCK_ATTEMPTS {
        LockStepView::Wait
    } else {
        LockStepView::Refuse("Notification registry lock wait bound exhausted"@)
    }
}

#[verifier::ext_equal]
pub enum LockStepView {
    Held,
    Again,
    Wait,
    Refuse(Seq<char>),
}

impl View for LockStep {
    type V = LockStepView;

    open spec fn view(&self) -> LockStepView {
        match self {
            LockStep::Held => LockStepView::Held,
            LockStep::Again => LockStepView::Again,
            LockStep::Wait => LockStepView::Wait,
            LockStep::Refuse(reason) => LockStepView::Refuse(reason@),
        }
    }
}

/// Goes on for the lock of the registry, a bounded number of times.
pub fn registry_lock_step(attempt: usize, taken: bool, number: Option<i32>, error: &str) -> (r:
    LockStep)
    ensures
        r@ == registry_lock_step_of(attempt, taken, number, error@),
{
    if taken {
        return LockStep::Held;
    }
    let busy: bool = match number {
        Some(n) => n == 11 || n == 35,
        None => false,
    };
    if !busy {
        let mut out: String = "Cannot lock notification registry: ".to_owned();
        out.append(error);
        return LockStep::Refuse(out);
    }
    if attempt < LOCK_ATTEMPTS - 1 {
        LockStep::Wait
    } else {
        LockStep::Refuse("Notification registry lock wait bound exhausted".to_owned())
    }
}

// ---------------------------------------------------------------------------
// Laws

/// A file with a second name, or whose path was put elsewhere, is neither held nor read nor
/// replaced.
pub proof fn law_only_single_link_files_are_used(
    path: Seq<char>,
    name: Seq<char>,
    held: FileFacts,
    named: FileFacts,
    limit: usize,
    user: u32,
)
    ensures
        inode_fault(path, held, named) is None ==> held.regular && held.links == 1 && named.links
            == 1 && !named.symlink && (named.device, named.inode) == (held.device, held.inode),
        record_fault(path, held, limit) is None ==> held.regular && held.links == 1 && held.length
            <= limit,
        overwrite_fault(path, Some(named)) is None ==> named.regular && named.links == 1
            && !named.symlink,
        private_file_fault(name, held, named, user) is None ==> held.regular && held.links == 1
            && held.owner == user && is_private(held.mode) && !named.symlink && (
        named.device,
        named.inode,
    ) == (held.device, held.inode),
{
}

/// The lock of the registry is waited for only a bounded number of times.
pub proof fn law_the_registry_lock_wait_is_bounded(
    attempt: usize,
    taken: bool,
    number: Option<i32>,
    error: Seq<char>,
)
    requires
        attempt + 1 >= LOCK_ATTEMPTS,
    ensures
        !(registry_lock_step_of(attempt, taken, number, error) is Wait),
        !(registry_lock_step_of(attempt, taken, number, error) is Again),
{
}

} // verus!
