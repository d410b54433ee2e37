use cibergit::domain::{Account, Repository};
use cibergit::workspace::git::{BranchOid, HeadState, LocalSnapshot, SnapshotGuard};
use cibergit::workspace::publish::{
    prepare, short_oid, AssociationKey, CheckoutAssociation, FilesystemIdentity,
    PrPublishContext, PrPublishFilesystemIdentity, PrPublishMode, PrPublishPreparation,
    PublishState, PullRequestCheckoutSource, PushDestinationObservation,
};

fn oid(value: char) -> String {
    std::iter::repeat(value).take(40).collect()
}

fn selected() -> Repository {
    Repository {
        host: "github.test".into(),
        owner: "base-owner".into(),
        name: "base-repo".into(),
        account: Account {
            host: "github.test".into(),
            login: "selected".into(),
        },
        local_path: Some("/checkout".into()),
    }
}

fn source() -> PullRequestCheckoutSource {
    let mut fork = selected();
    fork.owner = "fork-owner".into();
    fork.name = "source-repo".into();
    fork.local_path = Some("/source".into());
    PullRequestCheckoutSource {
        number: 7,
        base_repository: selected(),
        source_repository: Some(fork),
        source_branch: "feature/published".into(),
        target_branch: "main".into(),
        base_sha: oid('1'),
        head_sha: oid('1'),
    }
}

fn identity(inode: u64) -> FilesystemIdentity {
    FilesystemIdentity { device: 1, inode }
}

fn association() -> CheckoutAssociation {
    CheckoutAssociation {
        key: AssociationKey {
            provider: "github".into(),
            host: "github.test".into(),
            account: "selected".into(),
            repository: "base-owner/base-repo".into(),
            pull_request: 7,
        },
        filesystem: PrPublishFilesystemIdentity {
            checkout: identity(2),
            git_dir: identity(3),
            common_git_dir: identity(3),
        },
    }
}

fn snapshot(local: char) -> LocalSnapshot {
    LocalSnapshot {
        guard: SnapshotGuard {
            fingerprint: "guard".into(),
        },
        head: HeadState::Attached {
            branch: "cibergit/local-7".into(),
            oid: oid(local),
        },
        head_label: "cibergit/local-7".into(),
        operation_active: false,
        operation_is_default: true,
        upstream_oid: None,
        local_branch_oids: vec![BranchOid {
            branch: "cibergit/local-7".into(),
            oid: oid(local),
        }],
    }
}

fn destination() -> PushDestinationObservation {
    PushDestinationObservation {
        remote: "fork-source".into(),
        host: "github.test".into(),
        owner: "fork-owner".into(),
        name: "source-repo".into(),
        configuration_fingerprint: std::iter::repeat('f').take(64).collect(),
    }
}

fn run(
    source: PullRequestCheckoutSource,
    snapshot: LocalSnapshot,
    remote: Option<String>,
    is_ancestor: bool,
) -> Result<PrPublishPreparation, String> {
    match prepare(
        PrPublishContext::github(selected(), 7),
        association(),
        source,
        Ok(()),
        Ok(snapshot),
        Ok(destination()),
        Ok(remote),
        Ok(is_ancestor),
    ) {
        PublishState::Prepared { preparation } => Ok(preparation),
        PublishState::Refused { reason } => Err(reason),
        _ => panic!("unsettled"),
    }
}

#[test]
fn context_debug_and_attempt_never_contain_provider_transport_urls() {
    let repository = Repository {
        host: "github.test".into(),
        owner: "owner".into(),
        name: "repo".into(),
        account: Account {
            host: "github.test".into(),
            login: "selected".into(),
        },
        local_path: None,
    };
    let context = PrPublishContext::github(repository, 7);
    let debug = context.debug_text();
    assert!(debug.contains("owner/repo"));
    assert!(!debug.contains("http"));
    assert_eq!(
        debug,
        "PrPublishContext { host: \"github.test\", repository: \"owner/repo\", account: \"selected\", pull_request_number: 7, .. }"
    );
}

#[test]
fn fake_provider_fork_preparation_freezes_distinct_local_and_remote_branches() {
    let published = oid('1');
    let prepared = run(source(), snapshot('2'), Some(published.clone()), true).expect("prepare");
    assert_eq!(prepared.mode, PrPublishMode::Publish);
    assert_eq!(prepared.selected_repository, "base-owner/base-repo");
    assert_eq!(prepared.source_repository, "fork-owner/source-repo");
    assert_eq!(prepared.local_branch, "cibergit/local-7");
    assert_eq!(prepared.remote_branch, "feature/published");
    assert_eq!(prepared.expected_remote_oid, published);
    assert_ne!(prepared.local_oid, prepared.expected_remote_oid);
    assert_eq!(prepared.destination.remote, "fork-source");
    let attempt = prepared.attempt(44);
    assert_eq!(attempt.request_id, 44);
    assert_eq!(attempt.attempt_id, 44);
    assert_eq!(attempt.destination_configuration_fingerprint.len(), 64);
    assert!(!format!("{attempt:?}").contains("/source\""));
}

#[test]
fn rewritten_local_history_requires_explicit_republish_lease_mode() {
    let published = oid('1');
    let rewritten = oid('3');
    let prepared =
        run(source(), snapshot('3'), Some(published.clone()), false).expect("prepare rewritten");
    assert_eq!(prepared.mode, PrPublishMode::RepublishWithLease);
    assert_eq!(prepared.expected_remote_oid, published);
    assert_eq!(prepared.local_oid, rewritten);
}

#[test]
fn selected_identity_mismatch_and_deleted_source_never_fall_back_to_base() {
    let mut mismatch = source();
    mismatch.number = 8;
    assert!(run(mismatch, snapshot('2'), Some(oid('1')), true)
        .err()
        .expect("refused")
        .contains("selected repository and PR"));
    let mut mismatch = source();
    mismatch
        .source_repository
        .as_mut()
        .expect("source")
        .account
        .login = "other".into();
    assert!(run(mismatch, snapshot('2'), Some(oid('1')), true)
        .err()
        .expect("refused")
        .contains("selected account"));
    let mut deleted = source();
    deleted.source_repository = None;
    let error = run(deleted, snapshot('2'), Some(oid('1')), true).err()
        .expect("refused");
    assert!(error.contains("deleted or is unavailable"));
    assert!(error.contains("will not be used as a fallback"));
}

#[test]
fn provider_source_change_between_prepare_and_dispatch_refuses_before_git() {
    let mut changed = source();
    changed.source_branch = "different/provider-branch".into();
    let prepared = run(source(), snapshot('2'), Some(oid('1')), true).expect("first fresh read");
    assert!(prepared.dispatch(Ok(changed)).is_err());
    assert!(prepared.dispatch(Err("read refused".into())).is_err());
    let dispatch = prepared.dispatch(Ok(source())).expect("unchanged");
    assert_eq!(dispatch.expected_remote_oid, oid('1'));
    assert_eq!(dispatch.local_oid, oid('2'));
    assert!(!dispatch.with_lease);
    assert_eq!(prepared.snapshot_guard().fingerprint, "guard");
}

#[test]
fn a_branch_that_is_published_is_up_to_date_and_not_pushed() {
    let prepared = run(source(), snapshot('1'), Some(oid('1')), true).expect("prepare");
    assert_eq!(prepared.mode, PrPublishMode::UpToDate);
    assert_eq!(prepared.mode.label(), "Published");
    assert!(prepared.dispatch(Ok(source())).is_err());
    assert!(prepared
        .summary()
        .starts_with("Published fork-owner/source-repo from local cibergit/local-7 at 111111111111 on fork-source/"));
}

#[test]
fn a_lease_is_part_of_a_republication() {
    let prepared = run(source(), snapshot('3'), Some(oid('1')), false).expect("prepare");
    assert!(prepared.dispatch(Ok(source())).expect("dispatch").with_lease);
    assert_eq!(PrPublishMode::RepublishWithLease.label(), "Re-publish with lease");
    assert_eq!(PrPublishMode::Publish.label(), "Publish");
}

#[test]
fn a_moved_or_missing_remote_branch_is_refused() {
    assert!(run(source(), snapshot('2'), Some(oid('9')), true).is_err());
    assert!(run(source(), snapshot('2'), None, true).is_err());
    let mut detached = snapshot('2');
    detached.head = HeadState::Detached { oid: oid('2') };
    assert!(run(source(), detached, Some(oid('1')), true).is_err());
}

#[test]
fn oids_are_shortened_to_twelve_bytes() {
    assert_eq!(short_oid(&oid('a')), "aaaaaaaaaaaa");
    assert_eq!(short_oid("abc"), "abc");
}

#[test]
fn a_preparation_shows_neither_paths_nor_the_state_of_the_checkout() {
    let mut prepared = run(source(), snapshot('2'), Some(oid('1')), true).expect("prepare");
    prepared.selected_repository_identity.local_path = Some("/private/checkout".into());
    let debug = prepared.debug_text();
    assert!(debug.starts_with(
        "PrPublishPreparation { selected_host: \"github.test\", selected_account: \"selected\", selected_repository: \"base-owner/base-repo\", pull_request_number: 7, source_host: "
    ));
    assert!(debug.contains(
        "filesystem: PrPublishFilesystemIdentity { checkout: FilesystemIdentity { device: 1, inode: 2 }, "
    ));
    assert!(debug.ends_with(
        ", mode: Publish, snapshot_guard: \"<opaque>\", provider_revalidation: \"<credential-withholding reader>\" }"
    ));
    assert!(!debug.contains("/private") && !debug.contains("/source\""));
    assert!(!debug.contains("\"guard\""));
}

#[test]
fn only_the_identifiers_that_a_summary_shows_have_to_be_short() {
    let mut prepared = run(source(), snapshot('2'), Some(oid('1')), true).expect("prepare");
    assert!(prepared.can_summarize());
    prepared.expected_remote_oid = "12345678901λλ".into();
    assert!(prepared.can_summarize());
    assert!(prepared.summary().starts_with("Publish fork-owner/source-repo at 111111111111"));
    prepared.local_oid = "12345678901λλ".into();
    assert!(!prepared.can_summarize());
}
