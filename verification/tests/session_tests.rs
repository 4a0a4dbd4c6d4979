use speaker_core::config::SpotifyConfig;
use speaker_core::orchestrator::StartGuard;
use speaker_core::session::{
    prune_ledger, ActorSetup, CompletionVerdict, ConnectionState, Credentials, SpotifyCore,
};

fn test_core() -> SpotifyCore {
    SpotifyCore::new(SpotifyConfig::new("SPEAKER"), true)
}

fn test_credentials(name: &str) -> Credentials {
    Credentials {
        username: Some(name.to_string()),
        auth_type: 1,
        auth_data: vec![1, 2, 3],
    }
}

#[test]
fn fresh_core_is_idle_without_credentials() {
    let core = test_core();
    assert_eq!(core.state, ConnectionState::Idle);
    assert!(core.last_credentials.is_none());
    assert!(core.auto_connect_times.is_empty());
    assert!(core.session_valid);
    assert!(core.current_actor.is_none());
    assert!(!core.connection_ready());
}

#[test]
fn discovery_event_starts_connecting() {
    let mut core = test_core();
    let action = core.handle_discovery_event(test_credentials("alice"));
    assert_eq!(core.state, ConnectionState::Connecting);
    assert!(core.last_credentials.is_some());
    assert!(!core.session_valid);
    assert!(core.connection_ready());
    // Nothing was running yet, so nothing is torn down.
    assert!(action.shutdown_actor.is_none());
    assert!(action.invalidate_session);
}

#[test]
fn new_connection_scenario_emits_one_token() {
    // Fresh start, discovery hands off credentials, the attempt succeeds:
    // the consumer observes exactly one connection announcement.
    let mut core = test_core();
    let mut announcements: Vec<String> = Vec::new();

    core.handle_discovery_event(test_credentials("alice"));
    assert!(core.connection_ready());
    let recreate = core.begin_connection_attempt();
    assert!(recreate);
    match core.attempt_connection(ActorSetup::Established("token-a".to_string())) {
        Ok(token) => announcements.push(token),
        Err(()) => panic!("connection attempt was refused"),
    }
    assert_eq!(core.state, ConnectionState::Connected);
    assert!(core.current_actor.is_some());
    assert_eq!(announcements, vec!["token-a".to_string()]);
    // No further branch fires on its own: the guard is off once connected.
    assert!(!core.connection_ready());
}

#[test]
fn failed_attempt_clears_credentials_and_rests() {
    let mut core = test_core();
    core.handle_discovery_event(test_credentials("alice"));
    core.begin_connection_attempt();
    let r = core.attempt_connection(ActorSetup::Failed);
    assert!(r.is_err());
    assert_eq!(core.state, ConnectionState::DisconnectedPendingRetry);
    assert!(core.last_credentials.is_none());
    assert!(!core.connection_ready());
}

#[test]
fn at_most_one_actor_across_discovery_handoffs() {
    let mut core = test_core();
    core.handle_discovery_event(test_credentials("alice"));
    core.begin_connection_attempt();
    core.attempt_connection(ActorSetup::Established("t1".to_string()))
        .unwrap();
    let first_actor = core.current_actor.unwrap();

    // A second hand-off replaces the actor: the old one is named for
    // teardown in the same step, and none is current until the next attempt.
    let action = core.handle_discovery_event(test_credentials("bob"));
    assert_eq!(action.shutdown_actor, Some(first_actor));
    assert!(core.current_actor.is_none());

    core.begin_connection_attempt();
    core.attempt_connection(ActorSetup::Established("t2".to_string()))
        .unwrap();
    let second_actor = core.current_actor.unwrap();
    assert_ne!(first_actor, second_actor);
}

#[test]
fn completion_with_empty_ledger_schedules_retry() {
    // The background task ends once with no prior entries: the core goes
    // back to connecting and the attempt branch becomes ready again.
    let mut core = test_core();
    core.handle_discovery_event(test_credentials("alice"));
    core.begin_connection_attempt();
    core.attempt_connection(ActorSetup::Established("t1".to_string()))
        .unwrap();

    let verdict = core.handle_spirc_completion(1000);
    assert!(matches!(
        verdict,
        CompletionVerdict::RetryScheduled { invalidate_session: true }
    ));
    assert_eq!(core.state, ConnectionState::Connecting);
    assert!(core.current_actor.is_none());
    assert_eq!(core.auto_connect_times, vec![1000]);
    assert!(core.connection_ready());

    // The scheduled retry goes through a second attempt automatically.
    core.begin_connection_attempt();
    let again = core.attempt_connection(ActorSetup::Established("t2".to_string()));
    assert_eq!(again.unwrap(), "t2".to_string());
    assert_eq!(core.state, ConnectionState::Connected);
}

#[test]
fn sixth_disconnect_within_window_is_refused() {
    let mut core = test_core();
    core.handle_discovery_event(test_credentials("alice"));
    // Six task endings on a synthetic clock, all within 600 seconds.
    let times = [1000u64, 1100, 1200, 1300, 1400, 1500];
    for (i, t) in times.iter().enumerate() {
        let verdict = core.handle_spirc_completion(*t);
        if i < 5 {
            assert!(
                matches!(verdict, CompletionVerdict::RetryScheduled { .. }),
                "disconnect {} should be retried",
                i + 1
            );
            assert_eq!(core.state, ConnectionState::Connecting);
        } else {
            assert_eq!(verdict, CompletionVerdict::ReconnectRefused);
            assert_eq!(core.state, ConnectionState::Terminated);
            assert!(core.last_credentials.is_none());
        }
    }
}

#[test]
fn six_disconnects_spread_beyond_window_all_retry() {
    let mut core = test_core();
    core.handle_discovery_event(test_credentials("alice"));
    // The same six events spread across more than 600 seconds.
    let times = [1000u64, 1130, 1260, 1390, 1520, 1650];
    for t in times {
        let verdict = core.handle_spirc_completion(t);
        assert!(matches!(
            verdict,
            CompletionVerdict::RetryScheduled { .. }
        ));
        assert_eq!(core.state, ConnectionState::Connecting);
    }
}

#[test]
fn completion_without_credentials_is_refused() {
    // A task ending with no credentials in hand cannot be retried.
    let mut core = test_core();
    let verdict = core.handle_spirc_completion(500);
    assert_eq!(verdict, CompletionVerdict::ReconnectRefused);
    assert_eq!(core.state, ConnectionState::Terminated);
}

#[test]
fn discovery_clears_the_reconnect_ledger() {
    let mut core = test_core();
    core.handle_discovery_event(test_credentials("alice"));
    core.handle_spirc_completion(1000);
    core.handle_spirc_completion(1001);
    assert_eq!(core.auto_connect_times.len(), 2);
    core.handle_discovery_event(test_credentials("bob"));
    assert!(core.auto_connect_times.is_empty());
}

#[test]
fn prune_ledger_keeps_only_the_trailing_window() {
    let times = vec![100u64, 400, 401, 999, 1000];
    let kept = prune_ledger(&times, 1000);
    assert_eq!(kept, vec![401, 999, 1000]);
    let all_stale = prune_ledger(&vec![1u64, 2, 3], 100_000);
    assert!(all_stale.is_empty());
}

#[test]
fn shutdown_terminates_and_names_everything() {
    let mut core = test_core();
    core.handle_discovery_event(test_credentials("alice"));
    core.begin_connection_attempt();
    core.attempt_connection(ActorSetup::Established("t".to_string()))
        .unwrap();
    let actor = core.current_actor;
    let action = core.shutdown();
    assert!(action.abort_listener);
    assert_eq!(action.shutdown_actor, actor);
    assert!(action.release_discovery);
    assert_eq!(core.state, ConnectionState::Terminated);
    assert!(!core.listener_running);
}

#[test]
fn discovery_stream_ending_is_terminal() {
    let mut core = test_core();
    core.handle_discovery_ended();
    assert_eq!(core.state, ConnectionState::Terminated);
    assert!(!core.discovery_present);
}

#[test]
fn start_signal_is_one_shot() {
    // Triggering the start signal a second time has no effect.
    let mut guard = StartGuard::new();
    let mut setups: usize = 0;
    if guard.try_claim() {
        setups += 1;
    }
    if guard.try_claim() {
        setups += 1;
    }
    if guard.try_claim() {
        setups += 1;
    }
    assert_eq!(setups, 1);
}
