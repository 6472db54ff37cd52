use spotifyd::main_loop::{
    Action, AudioSetup, ConnectionOutcome, ConnectionReport, Credentials, DeviceIdentity,
    DiscoveryEvent, Flow, MainLoopState, Ready, Source, Tick,
};
use spotifyd::mixer::MixerStrategy;

fn audio() -> AudioSetup {
    AudioSetup {
        mixer: MixerStrategy::Software,
        backend: 0,
        audio_device: None,
        device_name: String::from("Spotifyd"),
        linear_volume: false,
    }
}

fn creds(user: &str) -> Credentials {
    Credentials { username: String::from(user), auth_type: 1, auth_data: vec![1, 2, 3] }
}

fn nothing_ready() -> Ready {
    Ready { discovery: None, connection: None, interrupt: false, control_task: None }
}

fn discovered(user: &str) -> Ready {
    Ready { discovery: Some(DiscoveryEvent::Credentials(creds(user))), ..nothing_ready() }
}

fn resolved(attempt: u64, outcome: ConnectionOutcome) -> Ready {
    Ready { connection: Some(ConnectionReport { attempt, outcome }), ..nothing_ready() }
}

fn interrupted() -> Ready {
    Ready { interrupt: true, ..nothing_ready() }
}

fn task_done(session: u64) -> Ready {
    Ready { control_task: Some(session), ..nothing_ready() }
}

fn tick(source: Source, action: Action) -> Tick {
    Tick { source: Some(source), action }
}

#[test]
fn new_without_credentials_is_idle() {
    let (state, first) = MainLoopState::new(None, audio());
    assert_eq!(first, Action::Nothing);
    assert_eq!(state.pending_attempt(), None);
    assert_eq!(state.active_session(), None);
    assert_eq!(state.username(), None);
    assert!(!state.shutting_down());
    assert_eq!(state.audio_setup(), &audio());
}

#[test]
fn new_with_credentials_starts_first_attempt() {
    let (state, first) = MainLoopState::new(Some(creds("carol")), audio());
    assert_eq!(first, Action::Connect { attempt: 1, credentials: creds("carol"), retire: None });
    assert_eq!(state.pending_attempt(), Some(1));
    assert_eq!(state.active_session(), None);
    assert_eq!(state.username(), Some(String::from("carol")));
    assert!(!state.shutting_down());
}

#[test]
fn cached_credentials_session_then_interrupt_then_exit() {
    let (mut state, first) = MainLoopState::new(Some(creds("carol")), audio());
    assert_eq!(first, Action::Connect { attempt: 1, credentials: creds("carol"), retire: None });

    assert_eq!(state.poll(nothing_ready()), Tick { source: None, action: Action::Suspend });

    let t = state.poll(resolved(1, ConnectionOutcome::Established));
    assert_eq!(t, tick(Source::Connection, Action::Install { session: 1 }));
    assert_eq!(state.active_session(), Some(1));
    assert_eq!(state.pending_attempt(), None);

    let t = state.poll(interrupted());
    assert_eq!(t, tick(Source::Interrupt, Action::RequestShutdown { session: 1 }));
    assert!(state.shutting_down());

    assert_eq!(state.poll(nothing_ready()), Tick { source: None, action: Action::Suspend });

    let t = state.poll(task_done(1));
    assert_eq!(t, tick(Source::ControlTask, Action::Terminate));
}

#[test]
fn discovery_after_idle_start_installs_session_for_alice() {
    let (mut state, first) = MainLoopState::new(None, audio());
    assert_eq!(first, Action::Nothing);
    assert_eq!(state.poll(nothing_ready()).action, Action::Suspend);

    let t = state.poll(discovered("alice"));
    assert_eq!(
        t,
        tick(
            Source::Discovery,
            Action::Connect { attempt: 1, credentials: creds("alice"), retire: None }
        )
    );
    assert_eq!(state.pending_attempt(), Some(1));

    let t = state.poll(resolved(1, ConnectionOutcome::Established));
    assert_eq!(t, tick(Source::Connection, Action::Install { session: 1 }));
    assert_eq!(state.active_session(), Some(1));
    assert_eq!(state.username(), Some(String::from("alice")));
}

#[test]
fn later_discovery_supersedes_pending_attempt() {
    let (mut state, _) = MainLoopState::new(None, audio());
    let t = state.poll(discovered("alice"));
    assert_eq!(
        t.action,
        Action::Connect { attempt: 1, credentials: creds("alice"), retire: None }
    );
    let t = state.poll(discovered("bob"));
    assert_eq!(
        t.action,
        Action::Connect { attempt: 2, credentials: creds("bob"), retire: None }
    );
    assert_eq!(state.pending_attempt(), Some(2));
    assert_eq!(state.username(), Some(String::from("bob")));

    // alice's attempt resolves successfully afterwards: nothing happens
    let t = state.poll(resolved(1, ConnectionOutcome::Established));
    assert_eq!(t, tick(Source::Connection, Action::Nothing));
    assert_eq!(state.active_session(), None);
    assert_eq!(state.pending_attempt(), Some(2));
    assert_eq!(state.username(), Some(String::from("bob")));

    let t = state.poll(resolved(2, ConnectionOutcome::Established));
    assert_eq!(t, tick(Source::Connection, Action::Install { session: 2 }));
    assert_eq!(state.active_session(), Some(2));
    assert_eq!(state.username(), Some(String::from("bob")));

    // and alice's attempt stays without effect after that
    let t = state.poll(resolved(1, ConnectionOutcome::Failed));
    assert_eq!(t.action, Action::Nothing);
    assert_eq!(state.active_session(), Some(2));
}

#[test]
fn superseded_failure_is_ignored_too() {
    let (mut state, _) = MainLoopState::new(Some(creds("alice")), audio());
    state.reconnect(creds("bob"));
    let report = ConnectionReport { attempt: 1, outcome: ConnectionOutcome::Failed };
    assert_eq!(state.on_attempt_resolved(report), Action::Nothing);
    assert_eq!(state.pending_attempt(), Some(2));
    assert_eq!(state.username(), Some(String::from("bob")));
}

#[test]
fn every_discovery_leaves_at_most_one_pair_of_its_own_credentials() {
    let (mut state, _) = MainLoopState::new(None, audio());
    let users = ["u1", "u2", "u3", "u4"];
    let mut previous: Option<u64> = None;
    for (n, user) in users.iter().enumerate() {
        let ticket = n as u64 + 1;
        let action = state.reconnect(creds(user));
        assert_eq!(
            action,
            Action::Connect { attempt: ticket, credentials: creds(user), retire: previous }
        );
        assert_eq!(state.active_session(), None);
        assert_eq!(state.pending_attempt(), Some(ticket));
        let report = ConnectionReport { attempt: ticket, outcome: ConnectionOutcome::Established };
        assert_eq!(state.on_attempt_resolved(report), Action::Install { session: ticket });
        assert_eq!(state.active_session(), Some(ticket));
        assert_eq!(state.pending_attempt(), None);
        assert_eq!(state.username(), Some(String::from(*user)));
        previous = Some(ticket);
    }
}

#[test]
fn reconnect_retires_active_session() {
    let (mut state, _) = MainLoopState::new(Some(creds("alice")), audio());
    state.poll(resolved(1, ConnectionOutcome::Established));
    let action = state.reconnect(creds("bob"));
    assert_eq!(action, Action::Connect { attempt: 2, credentials: creds("bob"), retire: Some(1) });
    assert_eq!(state.active_session(), None);
    // the retired session's task ending does not end the loop
    assert_eq!(state.poll(task_done(1)), tick(Source::ControlTask, Action::Nothing));
}

#[test]
fn failed_attempt_is_abandoned_without_retry() {
    let (mut state, _) = MainLoopState::new(Some(creds("alice")), audio());
    let t = state.poll(resolved(1, ConnectionOutcome::Failed));
    assert_eq!(t, tick(Source::Connection, Action::Abandon { attempt: 1 }));
    assert_eq!(state.pending_attempt(), None);
    assert_eq!(state.active_session(), None);
    assert_eq!(state.username(), None);
    assert_eq!(state.poll(nothing_ready()), Tick { source: None, action: Action::Suspend });
    // the same report again is stale
    assert_eq!(state.poll(resolved(1, ConnectionOutcome::Failed)).action, Action::Nothing);
    // the next discovery starts a new attempt under a new ticket
    let t = state.poll(discovered("alice"));
    assert_eq!(
        t.action,
        Action::Connect { attempt: 2, credentials: creds("alice"), retire: None }
    );
}

#[test]
fn shutdown_flag_never_resets() {
    let (mut state, _) = MainLoopState::new(Some(creds("alice")), audio());
    state.poll(resolved(1, ConnectionOutcome::Established));
    assert!(!state.shutting_down());
    state.poll(interrupted());
    assert!(state.shutting_down());
    let events = vec![
        nothing_ready(),
        interrupted(),
        task_done(7),
        resolved(1, ConnectionOutcome::Established),
        discovered("bob"),
        resolved(2, ConnectionOutcome::Failed),
        discovered("carol"),
        resolved(3, ConnectionOutcome::Established),
        interrupted(),
        task_done(3),
    ];
    for ready in events {
        state.poll(ready);
        assert!(state.shutting_down());
    }
}

#[test]
fn second_interrupt_does_nothing() {
    let (mut state, _) = MainLoopState::new(Some(creds("alice")), audio());
    state.poll(resolved(1, ConnectionOutcome::Established));
    assert_eq!(state.on_interrupt(), Action::RequestShutdown { session: 1 });
    assert!(state.shutting_down());
    assert_eq!(state.on_interrupt(), Action::Nothing);
    assert_eq!(state.poll(interrupted()), tick(Source::Interrupt, Action::Nothing));
    assert!(state.shutting_down());
    assert_eq!(state.active_session(), Some(1));
}

#[test]
fn spontaneous_session_end_terminates_loop() {
    let (mut state, _) = MainLoopState::new(Some(creds("alice")), audio());
    state.poll(resolved(1, ConnectionOutcome::Established));
    assert!(!state.shutting_down());
    assert_eq!(state.on_control_task_resolved(1), Action::Terminate);
    assert_eq!(state.poll(task_done(1)), tick(Source::ControlTask, Action::Terminate));
    assert!(!state.shutting_down());
}

#[test]
fn control_task_of_unknown_session_is_ignored() {
    let (mut state, _) = MainLoopState::new(Some(creds("alice")), audio());
    assert_eq!(state.on_control_task_resolved(1), Action::Nothing);
    state.poll(resolved(1, ConnectionOutcome::Established));
    assert_eq!(state.on_control_task_resolved(2), Action::Nothing);
    assert_eq!(state.poll(task_done(0)).action, Action::Nothing);
}

#[test]
fn idle_loop_suspends_until_interrupt() {
    let (mut state, _) = MainLoopState::new(None, audio());
    for _ in 0..50 {
        assert_eq!(state.poll(nothing_ready()), Tick { source: None, action: Action::Suspend });
        assert_eq!(state.pending_attempt(), None);
        assert_eq!(state.active_session(), None);
        assert!(!state.shutting_down());
    }
    assert_eq!(state.poll(interrupted()), tick(Source::Interrupt, Action::Terminate));
    assert_eq!(state.active_session(), None);
    assert!(!state.shutting_down());
}

#[test]
fn interrupt_while_connecting_terminates_at_once() {
    let (mut state, _) = MainLoopState::new(Some(creds("alice")), audio());
    assert_eq!(state.on_interrupt(), Action::Terminate);
    assert!(!state.shutting_down());
    assert_eq!(state.pending_attempt(), Some(1));
}

#[test]
fn discovery_has_highest_precedence() {
    let (mut state, _) = MainLoopState::new(Some(creds("alice")), audio());
    let all = Ready {
        discovery: Some(DiscoveryEvent::Credentials(creds("bob"))),
        connection: Some(ConnectionReport { attempt: 1, outcome: ConnectionOutcome::Established }),
        interrupt: true,
        control_task: Some(1),
    };
    let t = state.poll(all);
    assert_eq!(
        t,
        tick(
            Source::Discovery,
            Action::Connect { attempt: 2, credentials: creds("bob"), retire: None }
        )
    );
    assert_eq!(state.active_session(), None);
    assert!(!state.shutting_down());
}

#[test]
fn connection_precedes_interrupt_and_control_task() {
    let (mut state, _) = MainLoopState::new(Some(creds("alice")), audio());
    let ready = Ready {
        discovery: None,
        connection: Some(ConnectionReport { attempt: 1, outcome: ConnectionOutcome::Established }),
        interrupt: true,
        control_task: Some(1),
    };
    let t = state.poll(ready);
    assert_eq!(t, tick(Source::Connection, Action::Install { session: 1 }));
    assert!(!state.shutting_down());
    // the session that just connected is then torn down by the interrupt
    let rest = Ready { discovery: None, connection: None, interrupt: true, control_task: Some(1) };
    let t = state.poll(rest);
    assert_eq!(t, tick(Source::Interrupt, Action::RequestShutdown { session: 1 }));
    assert!(state.shutting_down());
    let t = state.poll(task_done(1));
    assert_eq!(t, tick(Source::ControlTask, Action::Terminate));
}

#[test]
fn interrupt_precedes_control_task() {
    let (mut state, _) = MainLoopState::new(Some(creds("alice")), audio());
    state.poll(resolved(1, ConnectionOutcome::Established));
    let ready = Ready { discovery: None, connection: None, interrupt: true, control_task: Some(1) };
    assert_eq!(state.poll(ready).source, Some(Source::Interrupt));
}

#[test]
fn events_leave_audio_setup_alone() {
    let (mut state, _) = MainLoopState::new(None, audio());
    state.poll(discovered("alice"));
    state.poll(resolved(1, ConnectionOutcome::Established));
    state.poll(interrupted());
    assert_eq!(state.audio_setup(), &audio());
}

#[test]
fn device_identity_carries_name_and_volume() {
    let setup = AudioSetup {
        mixer: MixerStrategy::Hardware {
            device: String::from("hw:0"),
            control: String::from("PCM"),
            linear: true,
        },
        backend: 1,
        audio_device: Some(String::from("hw:0")),
        device_name: String::from("Kitchen"),
        linear_volume: true,
    };
    let (state, _) = MainLoopState::new(None, setup);
    assert_eq!(
        state.device_identity(0x8000),
        DeviceIdentity { name: String::from("Kitchen"), volume: 0x8000, linear_volume: true }
    );
}

#[test]
fn flow_after_each_kind_of_action() {
    let yielded = Tick { source: None, action: Action::Suspend };
    assert_eq!(yielded.flow(), Flow::Yield);
    assert_eq!(tick(Source::Interrupt, Action::Terminate).flow(), Flow::Exit);
    assert_eq!(tick(Source::ControlTask, Action::Terminate).flow(), Flow::Exit);
    assert_eq!(tick(Source::Interrupt, Action::Nothing).flow(), Flow::Again);
    assert_eq!(tick(Source::Connection, Action::Install { session: 3 }).flow(), Flow::Again);
    assert_eq!(tick(Source::Connection, Action::Abandon { attempt: 3 }).flow(), Flow::Again);
    assert_eq!(tick(Source::Interrupt, Action::RequestShutdown { session: 3 }).flow(), Flow::Again);
    let connect = Action::Connect { attempt: 4, credentials: creds("alice"), retire: Some(3) };
    assert_eq!(tick(Source::Discovery, connect).flow(), Flow::Again);
}

#[test]
fn driver_runs_until_exit() {
    // a driver's loop over a script of what the sources hold, tick by tick
    let script = vec![
        nothing_ready(),
        discovered("alice"),
        nothing_ready(),
        resolved(1, ConnectionOutcome::Established),
        interrupted(),
        interrupted(),
        task_done(1),
        discovered("never seen"),
    ];
    let (mut state, _) = MainLoopState::new(None, audio());
    let mut flows = Vec::new();
    for ready in script {
        let flow = state.poll(ready).flow();
        flows.push(flow);
        if flow == Flow::Exit {
            break;
        }
    }
    assert_eq!(
        flows,
        vec![
            Flow::Yield,
            Flow::Again,
            Flow::Yield,
            Flow::Again,
            Flow::Again,
            Flow::Again,
            Flow::Exit
        ]
    );
    assert!(state.shutting_down());
    assert_eq!(state.active_session(), Some(1));
    assert_eq!(state.username(), Some(String::from("alice")));
}

#[test]
fn broken_discovery_aborts_loop() {
    let (mut state, _) = MainLoopState::new(Some(creds("alice")), audio());
    state.poll(resolved(1, ConnectionOutcome::Established));
    let ready = Ready {
        discovery: Some(DiscoveryEvent::Failed),
        connection: None,
        interrupt: true,
        control_task: Some(1),
    };
    let t = state.poll(ready);
    assert_eq!(t, tick(Source::Discovery, Action::Abort));
    assert_eq!(t.flow(), Flow::Fail);
    assert_eq!(state.active_session(), Some(1));
    assert!(!state.shutting_down());
}

#[test]
fn superseded_attempt_stays_ignored_after_further_credentials() {
    let (mut state, _) = MainLoopState::new(Some(creds("alice")), audio());
    state.poll(discovered("bob"));
    state.poll(resolved(2, ConnectionOutcome::Failed));
    state.poll(discovered("carol"));
    state.poll(resolved(3, ConnectionOutcome::Established));
    state.poll(discovered("dan"));
    assert_eq!(state.pending_attempt(), Some(4));
    for stale in [1, 2, 3] {
        for outcome in [ConnectionOutcome::Established, ConnectionOutcome::Failed] {
            assert_eq!(
                state.poll(resolved(stale, outcome)),
                tick(Source::Connection, Action::Nothing)
            );
            assert_eq!(state.pending_attempt(), Some(4));
            assert_eq!(state.active_session(), None);
            assert_eq!(state.username(), Some(String::from("dan")));
        }
    }
}

#[test]
fn fresh_session_is_installed_then_asked_to_shut_down() {
    let (mut state, _) = MainLoopState::new(None, audio());
    state.poll(discovered("alice"));
    let both = Ready {
        discovery: None,
        connection: Some(ConnectionReport { attempt: 1, outcome: ConnectionOutcome::Established }),
        interrupt: true,
        control_task: None,
    };
    assert_eq!(state.poll(both).action, Action::Install { session: 1 });
    assert_eq!(state.poll(interrupted()).action, Action::RequestShutdown { session: 1 });
    assert!(state.shutting_down());
}

#[test]
fn reconnect_while_shutting_down_keeps_flag() {
    let (mut state, _) = MainLoopState::new(Some(creds("alice")), audio());
    state.poll(resolved(1, ConnectionOutcome::Established));
    state.poll(interrupted());
    let t = state.poll(discovered("bob"));
    assert_eq!(
        t.action,
        Action::Connect { attempt: 2, credentials: creds("bob"), retire: Some(1) }
    );
    assert!(state.shutting_down());
    assert_eq!(state.active_session(), None);
    assert_eq!(state.pending_attempt(), Some(2));
}
