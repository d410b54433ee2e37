use cibergit::clock::{Moment, ServerDelay};
use cibergit::domain::Account;
use cibergit::read_sync::{
    account_key, CompletionDisposition, GeneralReadCache, GeneralReadController,
    GeneralReadDirective, ReadDeferral, ReadToken, RefreshCompletion, RefreshContext, RefreshLane,
    POLL_DEFERRED_NOTICE, RATE_DEFERRED_NOTICE,
};

fn account(login: &str) -> Account {
    Account {
        host: "github.com".into(),
        login: login.into(),
    }
}

fn at(secs: u64) -> Moment {
    Moment { secs, nanos: 0 }
}

fn plus(moment: Moment, secs: u64) -> Moment {
    moment.plus(secs).unwrap()
}

fn unlimited() -> GeneralReadDirective {
    GeneralReadDirective {
        x_poll_interval: None,
        rate_limit: None,
    }
}

fn refused() -> CompletionDisposition {
    CompletionDisposition {
        matching_operation_released: false,
        payload_accepted: false,
    }
}

#[test]
fn rate_floor_is_account_local_monotonic_and_survives_success() {
    let now = at(0);
    let wall = Some(10_000u64);
    let alice = account("alice");
    let bob = account("bob");
    let mut controller = GeneralReadController::new(1);
    let (token, _) = controller.begin_at(&alice, now).unwrap().into_parts();
    let rate = GeneralReadDirective {
        x_poll_interval: None,
        rate_limit: Some(ServerDelay::Seconds(120)),
    };
    assert!(
        controller
            .complete_at(&token, &rate, None, false, now, wall)
            .matching_operation_released
    );
    assert!(matches!(
        controller.begin_at(&alice, plus(now, 119)),
        Err(ReadDeferral::Server(RATE_DEFERRED_NOTICE))
    ));
    assert!(controller.begin_at(&bob, now).is_ok());

    let later = plus(now, 120);
    let (token, _) = controller.begin_at(&alice, later).unwrap().into_parts();
    let success = unlimited();
    controller.complete_at(&token, &success, None, true, later, wall);
    assert!(controller.begin_at(&alice, later).is_ok());
}

#[test]
fn mutation_directive_installs_an_account_floor_without_admitting_a_read() {
    let now = at(0);
    let wall = Some(10_000u64);
    let alice = account("alice");
    let bob = account("bob");
    let mut controller = GeneralReadController::new(1);
    let rate = GeneralReadDirective {
        x_poll_interval: None,
        rate_limit: Some(ServerDelay::Seconds(90)),
    };
    controller.apply_server_directive_at(&alice, &rate, now, wall);
    assert!(matches!(
        controller.begin_at(&alice, plus(now, 89)),
        Err(ReadDeferral::Server(RATE_DEFERRED_NOTICE))
    ));
    let (other, _) = controller.begin_at(&bob, now).unwrap().into_parts();
    let success = unlimited();
    assert!(
        controller
            .complete_at(&other, &success, None, true, now, wall)
            .matching_operation_released
    );

    // The mutation never occupied the account, so the floor alone gates it.
    let later = plus(now, 90);
    let (released, _) = controller.begin_at(&alice, later).unwrap().into_parts();
    assert!(
        controller
            .complete_at(&released, &success, None, true, later, wall)
            .matching_operation_released
    );

    // A shorter later directive can never shorten an installed floor.
    let (token, _) = controller.begin_at(&bob, later).unwrap().into_parts();
    let long = GeneralReadDirective {
        x_poll_interval: None,
        rate_limit: Some(ServerDelay::Seconds(600)),
    };
    controller.complete_at(&token, &long, None, true, later, wall);
    let short = GeneralReadDirective {
        x_poll_interval: None,
        rate_limit: Some(ServerDelay::Seconds(5)),
    };
    controller.apply_server_directive_at(&bob, &short, later, wall);
    assert!(matches!(
        controller.begin_at(&bob, plus(later, 599)),
        Err(ReadDeferral::Server(RATE_DEFERRED_NOTICE))
    ));
}

#[test]
fn a_stale_read_completion_cannot_erase_a_mutation_installed_floor() {
    let now = at(0);
    let wall = Some(10_000u64);
    let alice = account("alice");
    let mut controller = GeneralReadController::new(1);
    let (stale, _) = controller.begin_at(&alice, now).unwrap().into_parts();
    let success = unlimited();
    controller.complete_at(&stale, &success, None, true, now, wall);

    let rate = GeneralReadDirective {
        x_poll_interval: None,
        rate_limit: Some(ServerDelay::Seconds(300)),
    };
    controller.apply_server_directive_at(&alice, &rate, now, wall);

    // A completion from an already-released generation, and one from a
    // foreign controller lifetime, both leave the floor intact.
    controller.complete_at(&stale, &success, None, true, now, wall);
    let foreign = ReadToken {
        lifetime: stale.lifetime.wrapping_add(1),
        account_key: stale.account_key.clone(),
        generation: stale.generation,
    };
    controller.complete_at(&foreign, &success, None, true, now, wall);
    assert!(matches!(
        controller.begin_at(&alice, plus(now, 299)),
        Err(ReadDeferral::Server(RATE_DEFERRED_NOTICE))
    ));
    assert!(
        controller
            .begin_at(&alice, plus(now, 300))
            .is_ok()
    );
}

#[test]
fn stale_generation_can_only_extend_matching_account_floor() {
    let now = at(0);
    let wall = Some(10_000u64);
    let alice = account("alice");
    let mut controller = GeneralReadController::new(1);
    let (old, _) = controller.begin_at(&alice, now).unwrap().into_parts();
    controller.complete_at(
        &old,
        &unlimited(),
        None,
        false,
        now,
        wall,
    );
    let (current, _) = controller.begin_at(&alice, now).unwrap().into_parts();
    let stale_rate = GeneralReadDirective {
        x_poll_interval: None,
        rate_limit: Some(ServerDelay::Seconds(60)),
    };
    let disposition = controller.complete_at(
        &old,
        &stale_rate,
        Some(GeneralReadCache { number: 0 }),
        true,
        now,
        wall,
    );
    assert_eq!(disposition, refused());
    assert_eq!(
        controller.notice_at(&alice, now),
        Some(RATE_DEFERRED_NOTICE)
    );
    assert!(matches!(
        controller.begin_at(&alice, now),
        Err(ReadDeferral::Server(RATE_DEFERRED_NOTICE))
    ));
    assert!(
        controller
            .complete_at(
                &current,
                &unlimited(),
                None,
                false,
                now,
                wall,
            )
            .matching_operation_released
    );
}

#[test]
fn stale_lifetime_cannot_install_floor_or_release_current_work() {
    let now = at(0);
    let wall = Some(10_000u64);
    let alice = account("alice");
    let mut old_controller = GeneralReadController::new(1);
    let (old, _) = old_controller.begin_at(&alice, now).unwrap().into_parts();
    let mut current = GeneralReadController::new(2);
    let (current_token, _) = current.begin_at(&alice, now).unwrap().into_parts();
    let disposition = current.complete_at(
        &old,
        &GeneralReadDirective {
            x_poll_interval: None,
            rate_limit: Some(ServerDelay::Suspend),
        },
        Some(GeneralReadCache { number: 0 }),
        true,
        now,
        wall,
    );
    assert_eq!(disposition, refused());
    assert_eq!(current.notice_at(&alice, now), None);
    assert!(
        current
            .complete_at(
                &current_token,
                &unlimited(),
                None,
                false,
                now,
                wall,
            )
            .matching_operation_released
    );
}

#[test]
fn expired_reset_does_not_suspend_or_shorten_a_later_floor() {
    let now = at(0);
    let wall = Some(20_000u64);
    let alice = account("alice");
    let mut controller = GeneralReadController::new(1);
    let (stale, _) = controller.begin_at(&alice, now).unwrap().into_parts();
    controller.complete_at(
        &stale,
        &unlimited(),
        None,
        false,
        now,
        wall,
    );
    let (current, _) = controller.begin_at(&alice, now).unwrap().into_parts();
    controller.complete_at(
        &stale,
        &GeneralReadDirective {
            x_poll_interval: None,
            rate_limit: Some(ServerDelay::Seconds(90)),
        },
        None,
        false,
        now,
        wall,
    );
    controller.complete_at(
        &current,
        &GeneralReadDirective {
            x_poll_interval: None,
            rate_limit: Some(ServerDelay::UntilUnixSeconds(19_999)),
        },
        None,
        false,
        plus(now, 10),
        wall,
    );
    assert_eq!(
        controller.notice_at(&alice, plus(now, 89)),
        Some(RATE_DEFERRED_NOTICE)
    );
    assert!(
        controller
            .begin_at(&alice, plus(now, 90))
            .is_ok()
    );
}

#[test]
fn poll_floor_survives_rejected_payload_and_explicit_follow_up() {
    let now = at(0);
    let wall = Some(30_000u64);
    let alice = account("alice");
    let directive = GeneralReadDirective {
        x_poll_interval: Some(ServerDelay::Seconds(90)),
        rate_limit: None,
    };

    let mut controller = GeneralReadController::new(1);
    let (token, _) = controller.begin_at(&alice, now).unwrap().into_parts();
    let disposition = controller.complete_at(
        &token,
        &directive,
        Some(GeneralReadCache { number: 0 }),
        false,
        now,
        wall,
    );
    assert!(disposition.matching_operation_released);
    assert!(!disposition.payload_accepted);
    assert!(matches!(
        controller.begin_at(&alice, plus(now, 89)),
        Err(ReadDeferral::Server(POLL_DEFERRED_NOTICE))
    ));
    assert!(
        controller
            .begin_at(&alice, plus(now, 90))
            .is_ok()
    );
}
fn refresh_context() -> RefreshContext {
    RefreshContext {
        workspace: 7,
        repository: "github.com/alice/octo/repo".into(),
        resource: Some(42),
        revision: 1,
    }
}

#[test]
fn slow_refresh_accepts_its_result_despite_repeated_polls() {
    let mut reads = GeneralReadController::new(1);
    let lane = RefreshLane { id: 1 };
    let account = account("alice");
    let context = refresh_context();
    let (token, _) = reads
        .request_refresh_at(lane, &account, context.clone(), false, at(0))
        .unwrap()
        .unwrap()
        .into_parts();
    for _ in 0..20 {
        assert!(
            reads
                .request_refresh_at(lane, &account, context.clone(), false, at(0))
                .unwrap()
                .is_none()
        );
    }
    assert_eq!(
        reads.complete_refresh_at(
            token,
            &Some(context.clone()),
            Ok::<_, ()>("observed"),
            None,
            &unlimited(), at(0), Some(0)),
        RefreshCompletion::Applied(Ok("observed"))
    );
    assert!(reads.pending_refreshes(&vec![lane]).is_empty());
    assert!(
        reads
            .request_refresh_at(lane, &account, context, false, at(0))
            .unwrap()
            .is_some()
    );
}

#[test]
fn explicit_requests_coalesce_and_reject_both_old_success_and_failure() {
    for result in [Ok("old observation"), Err("old failure")] {
        let mut reads = GeneralReadController::new(1);
        let lane = RefreshLane { id: 2 };
        let account = account("alice");
        let context = refresh_context();
        let (token, _) = reads
            .request_refresh_at(lane, &account, context.clone(), false, at(0))
            .unwrap()
            .unwrap()
            .into_parts();
        for _ in 0..10 {
            assert!(
                reads
                    .request_refresh_at(lane, &account, context.clone(), true, at(0))
                    .unwrap()
                    .is_none()
            );
            assert!(
                reads
                    .request_refresh_at(lane, &account, context.clone(), false, at(0))
                    .unwrap()
                    .is_none()
            );
        }
        assert_eq!(
            reads.complete_refresh_at(
                token,
                &Some(context.clone()),
                result,
                None,
                &unlimited(), at(0), Some(0)),
            RefreshCompletion::Discarded
        );
        assert_eq!(reads.pending_refreshes(&vec![lane]), vec![lane]);
        let (next, _) = reads
            .request_refresh_at(lane, &account, context.clone(), false, at(0))
            .unwrap()
            .unwrap()
            .into_parts();
        assert_eq!(
            reads.complete_refresh_at(
                next,
                &Some(context.clone()),
                Ok::<_, ()>("fresh"),
                None,
                &unlimited(), at(0), Some(0)),
            RefreshCompletion::Applied(Ok("fresh"))
        );
        assert!(reads.pending_refreshes(&vec![lane]).is_empty());
    }
}

#[test]
fn deferred_explicit_followup_obeys_server_floor_without_stranding_lane() {
    let now = at(0);
    let wall = Some(50_000u64);
    let mut reads = GeneralReadController::new(1);
    let lane = RefreshLane { id: 3 };
    let account = account("alice");
    let context = refresh_context();
    let (token, _) = reads
        .request_refresh_at(lane, &account, context.clone(), false, now)
        .unwrap()
        .unwrap()
        .into_parts();
    assert!(
        reads
            .request_refresh_at(lane, &account, context.clone(), true, now)
            .unwrap()
            .is_none()
    );
    let directive = GeneralReadDirective {
        x_poll_interval: Some(ServerDelay::Seconds(90)),
        rate_limit: None,
    };
    assert_eq!(
        reads.complete_refresh_at(
            token,
            &Some(context.clone()),
            Ok::<_, ()>(1),
            None,
            &directive,
            now, wall
        ),
        RefreshCompletion::Discarded
    );
    assert!(matches!(
        reads.request_refresh_at(
            lane,
            &account,
            context.clone(),
            false,
            plus(now, 89)
        ),
        Err(ReadDeferral::Server(POLL_DEFERRED_NOTICE))
    ));
    assert_eq!(reads.pending_refreshes(&vec![lane]), vec![lane]);
    let (next, _) = reads
        .request_refresh_at(
            lane,
            &account,
            context.clone(),
            false,
            plus(now, 90),
        )
        .unwrap()
        .unwrap()
        .into_parts();
    assert_eq!(
        reads.complete_refresh_at(
            next,
            &Some(context.clone()),
            Ok::<_, ()>(2),
            None,
            &unlimited(),
            plus(now, 90), wall
        ),
        RefreshCompletion::Applied(Ok(2))
    );
    assert!(reads.pending_refreshes(&vec![lane]).is_empty());
}

#[test]
fn stale_refresh_identity_rejects_success_and_error_but_releases_account() {
    let expected = refresh_context();
    let mut changed_workspace = expected.clone();
    changed_workspace.workspace += 1;
    let mut changed_account = expected.clone();
    changed_account.repository = "github.com/bob/octo/repo".into();
    let mut changed_pr = expected.clone();
    changed_pr.resource = Some(43);
    let mut invalidated = expected.clone();
    invalidated.revision += 1;
    for current in [changed_workspace, changed_account, changed_pr, invalidated] {
        for result in [Ok("old"), Err("old error")] {
            let mut reads = GeneralReadController::new(1);
            let lane = RefreshLane { id: 4 };
            let account = account("alice");
            let (token, _) = reads
                .request_refresh_at(lane, &account, expected.clone(), false, at(0))
                .unwrap()
                .unwrap()
                .into_parts();
            assert_eq!(
                reads.complete_refresh_at(
                    token,
                    &Some(current.clone()),
                    result,
                    None,
                    &unlimited(), at(0), Some(0)),
                RefreshCompletion::Discarded
            );
            assert!(!reads.refresh_active(lane));
            assert!(
                reads
                    .request_refresh_at(lane, &account, current.clone(), true, at(0))
                    .unwrap()
                    .is_some()
            );
        }
    }
}

#[test]
fn mutation_invalidates_observation_without_losing_queued_refresh_or_rate_floor() {
    let now = at(0);
    let wall = Some(50_000u64);
    let mut reads = GeneralReadController::new(1);
    let lane = RefreshLane { id: 5 };
    let account = account("alice");
    let context = refresh_context();
    let (token, _) = reads
        .request_refresh_at(lane, &account, context.clone(), false, now)
        .unwrap()
        .unwrap()
        .into_parts();
    let mut current = context;
    current.revision += 1;
    assert!(
        reads
            .request_refresh_at(lane, &account, current.clone(), true, now)
            .unwrap()
            .is_none()
    );
    let directive = GeneralReadDirective {
        x_poll_interval: None,
        rate_limit: Some(ServerDelay::Seconds(30)),
    };
    assert_eq!(
        reads.complete_refresh_at(
            token,
            &Some(current.clone()),
            Ok::<_, ()>("stale"),
            None,
            &directive,
            now, wall
        ),
        RefreshCompletion::Discarded
    );
    assert_eq!(reads.pending_refreshes(&vec![lane]), vec![lane]);
    assert!(matches!(
        reads.request_refresh_at(lane, &account, current.clone(), false, now),
        Err(ReadDeferral::Server(RATE_DEFERRED_NOTICE))
    ));
    assert!(
        reads
            .request_refresh_at(
                lane,
                &account,
                current,
                false,
                plus(now, 30)
            )
            .unwrap()
            .is_some()
    );
}

#[test]
fn closed_and_reopened_destination_cannot_receive_old_completion() {
    let mut reads = GeneralReadController::new(1);
    let old_lane = RefreshLane { id: 6 };
    let reopened = RefreshLane { id: 7 };
    let account = account("alice");
    let context = refresh_context();
    let (old, _) = reads
        .request_refresh_at(old_lane, &account, context.clone(), false, at(0))
        .unwrap()
        .unwrap()
        .into_parts();
    assert!(
        reads
            .request_refresh_at(old_lane, &account, context.clone(), true, at(0))
            .unwrap()
            .is_none()
    );
    assert!(matches!(
        reads.request_refresh_at(reopened, &account, context.clone(), true, at(0)),
        Err(ReadDeferral::Busy)
    ));
    assert_eq!(reads.pending_refreshes(&vec![reopened]), vec![reopened]);
    // Even identical resource and revision values do not revive a forgotten
    // lane. Closing it did not cancel the still-running account operation.
    assert_eq!(
        reads.complete_refresh_at(
            old,
            &Some(context.clone()),
            Ok::<_, ()>("old"),
            None,
            &unlimited(), at(0), Some(0)),
        RefreshCompletion::Discarded
    );
    assert_eq!(reads.pending_refreshes(&vec![reopened]), vec![reopened]);
    let (next, _) = reads
        .request_refresh_at(reopened, &account, context.clone(), false, at(0))
        .unwrap()
        .unwrap()
        .into_parts();
    assert_eq!(
        reads.complete_refresh_at(
            next,
            &Some(context.clone()),
            Ok::<_, ()>("new"),
            None,
            &unlimited(), at(0), Some(0)),
        RefreshCompletion::Applied(Ok("new"))
    );
}

#[test]
fn independent_account_refreshes_and_direct_actions_share_admission_correctly() {
    let mut reads = GeneralReadController::new(1);
    let alice = account("alice");
    let bob = account("bob");
    let lane = RefreshLane { id: 8 };
    let other = RefreshLane { id: 9 };
    let context = refresh_context();
    // The direct account admission is also used by Actions jobs/logs.
    let (actions, _) = reads.begin_at(&alice, at(0)).unwrap().into_parts();
    assert!(matches!(
        reads.request_refresh_at(lane, &alice, context.clone(), true, at(0)),
        Err(ReadDeferral::Busy)
    ));
    let (bob_read, _) = reads
        .request_refresh_at(other, &bob, context.clone(), true, at(0))
        .unwrap()
        .unwrap()
        .into_parts();
    assert_eq!(
        reads.complete_refresh_at(
            bob_read,
            &Some(context.clone()),
            Err::<(), _>("unavailable"),
            None,
            &unlimited(), at(0), Some(0)),
        RefreshCompletion::Applied(Err("unavailable"))
    );
    assert_eq!(reads.pending_refreshes(&vec![lane, other]), vec![lane]);
    assert!(
        reads
            .complete_at(&actions, &unlimited(), None, true, at(0), Some(0))
            .matching_operation_released
    );
    assert!(
        reads
            .request_refresh_at(lane, &alice, context, false, at(0))
            .unwrap()
            .is_some()
    );
}

#[test]
fn periodic_ticks_do_not_starve_deferred_same_account_destinations() {
    let mut reads = GeneralReadController::new(1);
    let account = account("alice");
    let context = refresh_context();
    // Metadata, details, lifecycle and a later sidebar repository.
    let lanes: [RefreshLane; 4] = std::array::from_fn(|index| RefreshLane { id: 100 + index as u64 });
    let mut installed = [0; 4];
    let mut active = None;
    for (index, lane) in lanes.iter().enumerate() {
        match reads.request_refresh_at(*lane, &account, context.clone(), false, at(0)) {
            Ok(Some(admission)) => active = Some((index, admission.into_parts().0)),
            Err(ReadDeferral::Busy) => {}
            _ => panic!("unexpected admission"),
        }
    }
    for _ in 0..16 {
        let (index, token) = active.take().unwrap();
        // Repeated periodic requests do not supersede this slow result.
        for lane in lanes {
            assert!(!matches!(
                reads.request_refresh_at(lane, &account, context.clone(), false, at(0)),
                Ok(Some(_))
            ));
        }
        assert_eq!(
            reads.complete_refresh_at(
                token,
                &Some(context.clone()),
                Ok::<_, ()>(index),
                None,
                &unlimited(), at(0), Some(0)),
            RefreshCompletion::Applied(Ok(index))
        );
        installed[index] += 1;
        if installed.iter().all(|count| *count > 0) {
            break;
        }
        for lane in reads.pending_refreshes(&lanes.to_vec()) {
            match reads.request_refresh_at(lane, &account, context.clone(), false, at(0)) {
                Ok(Some(admission)) => {
                    let index = lanes
                        .iter()
                        .position(|candidate| *candidate == lane)
                        .unwrap();
                    active = Some((index, admission.into_parts().0));
                }
                Err(ReadDeferral::Busy) => {}
                _ => panic!("deferred lane must be ready or account busy"),
            }
        }
    }
    assert_eq!(installed, [1; 4]);
}

#[test]
fn replaced_controller_rejects_old_refresh_without_touching_current_admission() {
    let account = account("alice");
    let context = refresh_context();
    let lane = RefreshLane { id: 10 };
    let mut old_reads = GeneralReadController::new(1);
    let (old, _) = old_reads
        .request_refresh_at(lane, &account, context.clone(), false, at(0))
        .unwrap()
        .unwrap()
        .into_parts();
    let mut reads = GeneralReadController::new(2);
    let (current, _) = reads
        .request_refresh_at(lane, &account, context.clone(), false, at(0))
        .unwrap()
        .unwrap()
        .into_parts();
    assert_eq!(
        reads.complete_refresh_at(
            old,
            &Some(context.clone()),
            Ok::<_, ()>("old"),
            None,
            &GeneralReadDirective {
                rate_limit: Some(ServerDelay::Suspend),
                x_poll_interval: None
            },
            at(0),
            Some(0)
        ),
        RefreshCompletion::Ignored
    );
    assert!(reads.refresh_active(lane));
    assert_eq!(
        reads.complete_refresh_at(
            current,
            &Some(context.clone()),
            Ok::<_, ()>("new"),
            None,
            &unlimited(), at(0), Some(0)),
        RefreshCompletion::Applied(Ok("new"))
    );
    assert!(
        reads
            .request_refresh_at(lane, &account, context, false, at(0))
            .unwrap()
            .is_some()
    );
}

#[test]
fn account_keys_join_the_parts_in_lower_case() {
    assert_eq!(
        account_key(&Account {
            host: "GitHub.com".into(),
            login: "Alice".into()
        }),
        "github\u{1f}github.com\u{1f}alice"
    );
}

#[test]
fn a_suspended_account_stays_closed() {
    let alice = account("alice");
    let mut reads = GeneralReadController::new(1);
    reads.apply_server_directive_at(
        &alice,
        &GeneralReadDirective {
            x_poll_interval: None,
            rate_limit: Some(ServerDelay::Suspend),
        },
        at(0),
        Some(0),
    );
    assert!(matches!(
        reads.begin_at(&alice, at(1_000_000)),
        Err(ReadDeferral::Server(_))
    ));
    assert!(reads
        .selected_account_readiness_at(&alice, at(1_000_000))
        .is_err());
    assert!(reads
        .selected_account_readiness_at(&account("bob"), at(0))
        .is_ok());
}

#[test]
fn an_accepted_cache_is_handed_to_the_next_read() {
    let alice = account("alice");
    let mut reads = GeneralReadController::new(1);
    let (token, cache) = reads.begin_at(&alice, at(0)).unwrap().into_parts();
    assert_eq!(cache, GeneralReadCache { number: 0 });
    let done = reads.complete_at(
        &token,
        &unlimited(),
        Some(GeneralReadCache { number: 9 }),
        true,
        at(0),
        Some(0),
    );
    assert!(done.matching_operation_released && done.payload_accepted);
    let (_, cache) = reads.begin_at(&alice, at(0)).unwrap().into_parts();
    assert_eq!(cache, GeneralReadCache { number: 9 });
}

#[test]
fn a_witnessed_deferral_can_be_cleared() {
    let alice = account("alice");
    let mut reads = GeneralReadController::new(1);
    let lane = RefreshLane { id: 50 };
    let _ = reads.begin_at(&alice, at(0)).unwrap();
    assert!(reads
        .request_refresh_at(lane, &alice, refresh_context(), true, at(0))
        .is_err());
    assert!(reads.refresh_deferred(lane));
    reads.clear_smoke_pending_after_witness(lane);
    assert!(!reads.refresh_deferred(lane));
}
