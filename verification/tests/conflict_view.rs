use cibergit::workspace::conflict::{
    find_conflict, source_details, source_summary, source_text, ConflictContextState,
    ConflictPresentation, ConflictSource, SourceLines,
};
use cibergit::workspace::git::{
    ActiveOperationIdentity, BlobContent, ConflictFile, ConflictKind, ConflictStage,
    DiskGeneration, GitPath, RebaseOperationView, RebaseState, StashRestoreState,
};

#[test]
fn sparse_sources_cover_boundaries_and_large_newline_only_blobs() {
    let text = (0..5000)
        .map(|index| format!("line {index}: λ\n"))
        .collect::<String>();
    let lines = SourceLines::new(&text);
    let expected = text.split('\n').collect::<Vec<_>>();
    for index in [0, 1, 63, 64, 65, 127, 4999, 5000] {
        assert_eq!(lines.line(index), expected[index]);
    }
    assert_eq!(lines.count(), expected.len());
    assert!(lines.checkpoint_count() <= lines.count() / 64 + 1);

    let maximum = SourceLines::new(&"\n".repeat(2 * 1024 * 1024));
    assert_eq!(maximum.count(), 2 * 1024 * 1024 + 1);
    assert_eq!(maximum.checkpoint_count(), maximum.count() / 64 + 1);
    assert_eq!(maximum.line(maximum.count() - 1), "");
    assert_eq!(maximum.line(maximum.count() - 2), "");
}

fn oid(value: char) -> String {
    std::iter::repeat(value).take(40).collect()
}

fn active(operation_id: &str, marker: char) -> ActiveOperationIdentity {
    ActiveOperationIdentity {
        operation_id: operation_id.into(),
        head_name: "refs/heads/topic".into(),
        onto_oid: oid('0'),
        original_head_oid: oid('9'),
        stopped_oid: Some(oid(marker)),
        rebase_head_oid: Some(oid(marker)),
        stop_is_edit: false,
        todo_sha256: oid('7'),
        done_sha256: oid('8'),
        ownership_marker_sha256: oid('6'),
    }
}

fn operation(operation_id: &str, marker: char) -> RebaseOperationView {
    RebaseOperationView {
        operation_id: operation_id.into(),
        attempt: 1,
        state: RebaseState::Conflicted,
        original_branch: "refs/heads/topic".into(),
        original_head_oid: oid('9'),
        base_oid: oid('0'),
        active: Some(active(operation_id, marker)),
        resulting_commits: Vec::new(),
        stash: None,
        stash_restore: StashRestoreState::NotStarted,
        split: None,
        evidence: Vec::new(),
        publish_warning: None,
        publish_handoff: None,
    }
}

fn stage(marker: char, text: &str) -> ConflictStage {
    ConflictStage {
        oid: Some(oid(marker)),
        mode: Some("100644".into()),
        content: BlobContent::Utf8(text.into()),
    }
}

fn conflict(path: &str, base: char, ours: char, theirs: char) -> ConflictFile {
    ConflictFile {
        path: GitPath {
            raw: path.as_bytes().to_vec(),
            display: path.into(),
        },
        kind: ConflictKind::BothModified,
        base: stage(base, "base-token\nbase-long-line-END"),
        ours: stage(ours, "ours-token\nours-long-line-END"),
        theirs: stage(theirs, "theirs-token\ntheirs-long-line-END"),
        disk: DiskGeneration::Regular {
            sha256: oid('d'),
            len: 11,
            device: 1,
            inode: 2,
            modified_seconds: 3,
            modified_nanoseconds: 4,
        },
    }
}

#[test]
fn source_labels_content_and_oids_never_swap() {
    let operation = operation("op-a", '5');
    let conflict = conflict("src/raw.txt", '1', '2', '3');
    let view = ConflictPresentation::new(&operation, conflict).unwrap();

    let (base_label, base) = view.source(ConflictSource::Base);
    let (ours_label, ours) = view.source(ConflictSource::Ours);
    let (theirs_label, theirs) = view.source(ConflictSource::Theirs);
    assert_eq!(base_label, "Base");
    assert_eq!(ours_label, "Already rebased (ours)");
    assert_eq!(theirs_label, "Replayed commit (theirs)");
    assert_eq!(base.oid.as_deref(), Some(oid('1').as_str()));
    assert_eq!(ours.oid.as_deref(), Some(oid('2').as_str()));
    assert_eq!(theirs.oid.as_deref(), Some(oid('3').as_str()));
    assert!(source_text(base).contains("base-long-line-END"));
    assert!(source_text(ours).contains("ours-long-line-END"));
    assert!(source_text(theirs).contains("theirs-long-line-END"));
}

#[test]
fn stage_replacement_invalidates_until_explicit_refresh() {
    let operation = operation("op-a", '5');
    let original = conflict("same.txt", '1', '2', '3');
    let replacement = conflict("same.txt", '1', '2', '4');
    let mut view = ConflictPresentation::new(&operation, original).unwrap();

    view.observe(&Some(operation.clone()), &vec![replacement.clone()]);
    assert_eq!(view.state(), ConflictContextState::StagesChanged);
    assert!(!view.can_stage());
    assert_eq!(view.source(ConflictSource::Theirs).1.oid, Some(oid('3')));

    assert!(view.refresh_from(&operation, replacement));
    assert!(view.can_stage());
    assert_eq!(view.source(ConflictSource::Theirs).1.oid, Some(oid('4')));
}

#[test]
fn same_path_new_operation_never_reattaches_old_context() {
    let first = operation("op-a", '5');
    let next = operation("op-b", '5');
    let conflict = conflict("same.txt", '1', '2', '3');
    let mut view = ConflictPresentation::new(&first, conflict.clone()).unwrap();

    view.observe(&Some(next.clone()), &vec![conflict.clone()]);
    assert_eq!(view.state(), ConflictContextState::OperationChanged);
    assert!(!view.can_stage());
    assert!(!view.refresh_from(&next, conflict));
}

#[test]
fn missing_stage_is_not_rendered_as_empty_text() {
    let stage = ConflictStage {
        oid: None,
        mode: None,
        content: BlobContent::Deleted,
    };
    assert!(source_text(&stage).contains("missing stage"));
    assert!(source_summary(&stage).contains("deleted"));
}

#[test]
fn selection_wraps_for_keyboard_navigation() {
    assert_eq!(ConflictSource::Base.move_by(-1), ConflictSource::Theirs);
    assert_eq!(ConflictSource::Theirs.move_by(1), ConflictSource::Base);
}

#[test]
fn moving_there_and_back_selects_the_same_side() {
    for delta in [-4isize, -1, 0, 1, 2, 3, 7] {
        for source in [
            ConflictSource::Base,
            ConflictSource::Ours,
            ConflictSource::Theirs,
        ] {
            assert_eq!(source.move_by(delta).move_by(-delta), source);
        }
    }
}

#[test]
fn rows_are_the_lines_of_the_source_and_the_widest_is_known() {
    let lines = SourceLines::new("a\nlonger line\n\nλλλ");
    assert_eq!(lines.count(), 4);
    assert_eq!(lines.rows(0, 4), ["a", "longer line", " ", "λλλ"]);
    assert_eq!(lines.rows(1, 3), ["longer line", " "]);
    assert_eq!(lines.widest(), 1);
    assert_eq!(SourceLines::new("").count(), 1);
    assert_eq!(SourceLines::new("").line(0), "");
}

#[test]
fn conflicts_are_found_by_their_raw_path() {
    let conflicts = vec![
        conflict("first.txt", '1', '2', '3'),
        conflict("second.txt", '1', '2', '3'),
    ];
    assert_eq!(find_conflict(&conflicts, &b"second.txt".to_vec()), Some(1));
    assert_eq!(find_conflict(&conflicts, &b"third.txt".to_vec()), None);
}

#[test]
fn a_conflict_that_is_gone_cannot_be_staged() {
    let operation = operation("op-a", '5');
    let mut view =
        ConflictPresentation::new(&operation, conflict("same.txt", '1', '2', '3')).unwrap();
    assert!(view.can_stage());
    view.observe(&Some(operation.clone()), &vec![]);
    assert!(!view.can_stage());
    assert!(view.state().explanation().is_some());
    view.observe(&None, &vec![]);
    assert!(!view.can_stage());
    view.observe(&Some(operation), &vec![conflict("same.txt", '1', '2', '3')]);
    assert!(view.can_stage());
}

#[test]
fn a_symlink_target_is_shown_as_text() {
    let link = ConflictStage {
        oid: Some(oid('1')),
        mode: Some("120000".into()),
        content: BlobContent::Symlink(b"target/path".to_vec()),
    };
    assert!(source_text(&link).contains("target/path"));
    assert!(source_details(&link).contains("120000"));
}

#[test]
fn checkpoints_are_the_bytes_at_which_lines_start() {
    let text = (0..200).map(|line| format!("λ{line}")).collect::<Vec<_>>().join("\n");
    let lines = SourceLines::new(&text);
    let mut expected = vec![0];
    let mut line = 0;
    for (offset, byte) in text.bytes().enumerate() {
        if byte == b'\n' {
            line += 1;
            if line % 64 == 0 {
                expected.push(offset + 1);
            }
        }
    }
    assert_eq!(lines.checkpoints(), &expected);
    assert_eq!(lines.checkpoints().len(), 4);
    assert!(text[lines.checkpoints()[3]..].starts_with("λ192"));
    assert_eq!(lines.line(193), "λ193");
    assert_eq!(SourceLines::new("").checkpoints(), &vec![0]);
}

#[test]
fn a_rename_that_was_found_otherwise_is_another_conflict() {
    let operation = operation("shared", '5');
    let mut found = conflict("workflow.txt", '1', '2', '3');
    found.kind = ConflictKind::RenameOrDelete {
        explanation: "renamed".into(),
        details: "from a".into(),
    };
    let mut view = ConflictPresentation::new(&operation, found.clone()).expect("presented");
    view.observe(&Some(operation.clone()), &vec![found.clone()]);
    assert!(view.can_stage());
    found.kind = ConflictKind::RenameOrDelete {
        explanation: "renamed".into(),
        details: "from b".into(),
    };
    view.observe(&Some(operation), &vec![found]);
    assert!(!view.can_stage());
}
