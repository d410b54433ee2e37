use cibergit::private_files::{
    lock_step, registry_lock_step, temporary_name, validate_draft_size, validate_file_identity,
    validate_journal_size, validate_lock_kept, validate_overwrite, validate_private_directory,
    validate_private_file, validate_private_inode, validate_read, validate_record,
    validate_registry_path, validate_registry_root, validate_registry_size, FileFacts, LockStep,
    LockTry, LOCK_ATTEMPTS, MAX_DRAFT_BYTES, MAX_JOURNAL_BYTES, MAX_REGISTRY_BYTES,
};

fn regular() -> FileFacts {
    FileFacts {
        regular: true,
        directory: false,
        symlink: false,
        links: 1,
        device: 5,
        inode: 9,
        length: 10,
        owner: 501,
        mode: 0o100600,
    }
}

fn directory() -> FileFacts {
    FileFacts {
        regular: false,
        directory: true,
        ..regular()
    }
}

#[test]
fn a_held_file_is_the_one_that_its_path_names() {
    assert_eq!(validate_private_inode("/l", &regular(), &regular()), Ok((5, 9)));
    let mut linked = regular();
    linked.links = 2;
    assert_eq!(
        validate_private_inode("/l", &linked, &regular()),
        Err("Private record /l is not a single-link regular file; it was refused.".into())
    );
    let mut replaced = regular();
    replaced.inode = 10;
    assert_eq!(
        validate_private_inode("/l", &regular(), &replaced),
        Err("Private lock path /l no longer names the held stable inode; it was refused.".into())
    );
    assert!(validate_lock_kept("/l", (5, 9), (5, 9)).is_ok());
    assert_eq!(
        validate_lock_kept("/l", (5, 9), (5, 10)),
        Err("Creation authority inode changed while locking /l; zero writes sent.".into())
    );
}

#[test]
fn directories_are_real_ones() {
    assert!(validate_private_directory("/d", &directory(), false).is_ok());
    let mut link = directory();
    link.symlink = true;
    assert_eq!(
        validate_private_directory("/d", &link, false),
        Err("Private path /d is not a real directory.".into())
    );
    assert_eq!(
        validate_private_directory("/d", &regular(), true),
        Err("Private child path /d is not a real directory.".into())
    );
    assert!(validate_registry_root(&directory()).is_ok());
    assert_eq!(
        validate_registry_root(&link),
        Err("Notification UI root must be a real directory".into())
    );
}

#[test]
fn records_are_bounded_and_kept_when_they_are_not() {
    assert!(validate_record("/r", &regular(), 10).is_ok());
    assert_eq!(
        validate_record("/r", &regular(), 9),
        Err("Private record /r exceeds its 9-byte bound and was preserved.".into())
    );
    assert!(validate_read("/r", 9, 9).is_ok());
    assert!(validate_read("/r", 10, 9).is_err());
    assert!(validate_record("/r", &directory(), 10).is_err());
    assert!(validate_overwrite("/r", &None).is_ok());
    assert!(validate_overwrite("/r", &Some(regular())).is_ok());
    let mut link = regular();
    link.symlink = true;
    assert_eq!(
        validate_overwrite("/r", &Some(link)),
        Err("Private record /r is not a single-link regular file; overwrite refused.".into())
    );
    assert!(validate_draft_size(MAX_DRAFT_BYTES).is_ok());
    assert_eq!(
        validate_draft_size(MAX_DRAFT_BYTES + 1),
        Err("Creation draft exceeds its bounded storage size.".into())
    );
    assert!(validate_journal_size(MAX_JOURNAL_BYTES).is_ok());
    assert_eq!(
        validate_journal_size(MAX_JOURNAL_BYTES + 1),
        Err("Creation journal exceeds its bounded storage size.".into())
    );
    assert!(validate_registry_size(MAX_REGISTRY_BYTES + 1).is_err());
}

#[test]
fn locks_are_waited_for_within_bounds() {
    assert!(matches!(lock_step("/l", &LockTry::Taken, true), LockStep::Held));
    assert!(matches!(
        lock_step("/l", &LockTry::Interrupted, true),
        LockStep::Again
    ));
    assert!(matches!(
        lock_step("/l", &LockTry::WouldBlock("busy".into()), false),
        LockStep::Wait
    ));
    match lock_step("/l", &LockTry::WouldBlock("busy".into()), true) {
        LockStep::Refuse(reason) => assert_eq!(
            reason,
            "Cannot acquire private creation authority /l within the bounded wait; zero writes sent: busy"
        ),
        _ => panic!("waited past the deadline"),
    }
    assert!(matches!(
        lock_step("/l", &LockTry::Failed("broken".into()), false),
        LockStep::Refuse(_)
    ));
    assert!(matches!(
        registry_lock_step(0, true, None, ""),
        LockStep::Held
    ));
    assert!(matches!(
        registry_lock_step(0, false, Some(35), "busy"),
        LockStep::Wait
    ));
    match registry_lock_step(LOCK_ATTEMPTS - 1, false, Some(11), "busy") {
        LockStep::Refuse(reason) => {
            assert_eq!(reason, "Notification registry lock wait bound exhausted")
        }
        _ => panic!("waited once too often"),
    }
    match registry_lock_step(0, false, Some(9), "bad descriptor") {
        LockStep::Refuse(reason) => {
            assert_eq!(reason, "Cannot lock notification registry: bad descriptor")
        }
        _ => panic!("went on"),
    }
}

#[test]
fn the_registry_is_private_and_the_users_own() {
    let name = "notification registry";
    assert!(validate_private_file(name, &regular(), &regular(), 501).is_ok());
    let mut shared = regular();
    shared.mode = 0o100640;
    assert!(validate_file_identity(name, &shared, &shared, 501).is_ok());
    assert_eq!(
        validate_private_file(name, &shared, &shared, 501),
        Err("notification registry must be private".into())
    );
    assert_eq!(
        validate_file_identity(name, &regular(), &regular(), 502),
        Err("notification registry must be owned by the current user".into())
    );
    let mut linked = regular();
    linked.links = 2;
    assert_eq!(
        validate_file_identity(name, &linked, &regular(), 501),
        Err("notification registry must have exactly one link".into())
    );
    assert_eq!(
        validate_file_identity(name, &directory(), &regular(), 501),
        Err("notification registry must be a regular file".into())
    );
    let mut moved = regular();
    moved.device = 6;
    assert_eq!(
        validate_file_identity(name, &regular(), &moved, 501),
        Err("notification registry path changed while it was open".into())
    );
    let mut link = regular();
    link.symlink = true;
    assert_eq!(
        validate_registry_path(&link),
        Err("Notification registry must not be a link".into())
    );
    let mut large = regular();
    large.length = MAX_REGISTRY_BYTES as u64 + 1;
    assert_eq!(
        validate_registry_path(&large),
        Err("Notification registry exceeds byte bound".into())
    );
}

#[test]
fn temporary_files_are_named_by_process_and_sequence() {
    assert_eq!(
        temporary_name(".registry-", 41, 7),
        ".registry-41-7.tmp"
    );
}
