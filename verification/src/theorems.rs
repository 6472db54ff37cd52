//! What holds of the main loop over whole runs, proved from its transitions.

use vstd::prelude::*;
use crate::main_loop::{Action, ConnectionOutcome, ConnectionReport, Credentials, DiscoveryEvent};
use crate::main_loop::{Flow, Link, LoopState, Ready, Source, Tick};

verus! {

/// The state after ticking through `ticks` in order, starting from `s`.
pub open spec fn run(s: LoopState, ticks: Seq<Ready>) -> LoopState
    decreases ticks.len(),
{
    if ticks.len() == 0 {
        s
    } else {
        run(s, ticks.drop_last()).tick(ticks.last()).0
    }
}

/// No tick of `ticks` has credentials from discovery ready.
pub open spec fn without_discovery(ticks: Seq<Ready>) -> bool {
    forall|i: int| 0 <= i < ticks.len() ==> (#[trigger] ticks[i]).discovery is None
}

/// No tick of `ticks` has an interrupt ready.
pub open spec fn without_interrupt(ticks: Seq<Ready>) -> bool {
    forall|i: int| 0 <= i < ticks.len() ==> !(#[trigger] ticks[i]).interrupt
}

/// Whatever `s` holds of the remote service stems from the attempt with
/// ticket `id` for the user `username`, the last ticket given out.
pub open spec fn stems_from(s: LoopState, id: u64, username: String) -> bool {
    &&& s.issued == id
    &&& match s.link {
        Link::Idle => true,
        Link::Connecting(a) => a.id == id && a.username == username,
        Link::Active(p) => p.id == id && p.username == username,
    }
}

/// The ticket that the next attempt started from `s` carries.
pub open spec fn ticket_of(s: LoopState) -> u64 {
    crate::main_loop::ticket_after(s.issued)
}

/// Every tick keeps the state well formed.
pub proof fn tick_keeps_wf(s: LoopState, ready: Ready)
    requires
        s.wf(),
    ensures
        s.tick(ready).0.wf(),
{
}

/// Every run keeps the state well formed.
pub proof fn run_keeps_wf(s: LoopState, ticks: Seq<Ready>)
    requires
        s.wf(),
    ensures
        run(s, ticks).wf(),
    decreases ticks.len(),
{
    if ticks.len() > 0 {
        run_keeps_wf(s, ticks.drop_last());
        tick_keeps_wf(run(s, ticks.drop_last()), ticks.last());
    }
}

/// A state never holds a pending attempt beside an active session pair, and
/// handling credentials leaves no session pair behind: the pair that was
/// active is retired, and the attempt for the new credentials is pending.
pub proof fn reconnect_retires_pair(s: LoopState, c: Credentials)
    requires
        s.wf(),
    ensures
        !(s.active() is Some && s.pending() is Some),
        s.reconnect(c).0.active() is None,
        s.reconnect(c).0.pending() == Some(ticket_of(s)),
        s.reconnect(c).1 == (Action::Connect {
            attempt: ticket_of(s),
            credentials: c,
            retire: s.active(),
        }),
        stems_from(s.reconnect(c).0, ticket_of(s), c.username),
{
}

/// Credentials from discovery go before everything else that is ready: the
/// tick handles them, and them alone.
pub proof fn credentials_preempt(s: LoopState, ready: Ready, c: Credentials)
    requires
        ready.discovery == Some(DiscoveryEvent::Credentials(c)),
    ensures
        s.tick(ready) == (
            s.reconnect(c).0,
            Tick { source: Some(Source::Discovery), action: s.reconnect(c).1 },
        ),
{
}

/// A session whose connection resolves in the same moment as an interrupt
/// arrives is installed first and asked to shut down next, so that it is
/// torn down and not left behind.
pub proof fn fresh_session_is_torn_down(s: LoopState, ticket: u64, control_task: Option<u64>)
    requires
        s.wf(),
        !s.shutting_down,
        s.pending() == Some(ticket),
    ensures
        ({
            let report = ConnectionReport {
                attempt: ticket,
                outcome: ConnectionOutcome::Established,
            };
            let both = Ready {
                discovery: None,
                connection: Some(report),
                interrupt: true,
                control_task,
            };
            let rest = Ready { discovery: None, connection: None, interrupt: true, control_task };
            let (installed, first) = s.tick(both);
            let (stopping, second) = installed.tick(rest);
            &&& first == (Tick {
                source: Some(Source::Connection),
                action: Action::Install { session: ticket },
            })
            &&& installed.active() == Some(ticket)
            &&& second == (Tick {
                source: Some(Source::Interrupt),
                action: Action::RequestShutdown { session: ticket },
            })
            &&& stopping.shutting_down
            &&& stopping.active() == Some(ticket)
        }),
{
}

/// After credentials were handled, and for as long as discovery yields no
/// others, the pending attempt and the session pair that is installed are
/// those of these credentials: they carry the ticket given out for them
/// and their user's name.
pub proof fn pair_stems_from_latest_credentials(s: LoopState, c: Credentials, later: Seq<Ready>)
    requires
        s.wf(),
        without_discovery(later),
    ensures
        stems_from(run(s.reconnect(c).0, later), ticket_of(s), c.username),
    decreases later.len(),
{
    if later.len() > 0 {
        let before = later.drop_last();
        assert forall|i: int| 0 <= i < before.len() implies (#[trigger] before[i]).discovery
            is None by {
            assert(before[i] == later[i]);
        }
        pair_stems_from_latest_credentials(s, c, before);
        assert(later.last() == later[later.len() - 1]);
    }
}

/// As long as tickets do not run out, a run only ever moves the last
/// ticket forward, by one for each tick at most.
pub proof fn tickets_advance(s: LoopState, ticks: Seq<Ready>)
    requires
        s.issued + ticks.len() <= u64::MAX,
    ensures
        s.issued <= run(s, ticks).issued <= s.issued + ticks.len(),
    decreases ticks.len(),
{
    if ticks.len() > 0 {
        tickets_advance(s, ticks.drop_last());
    }
}

/// An attempt that was pending when new credentials arrived has no effect
/// when it resolves: whether it succeeded or failed, and whatever happened
/// since, further credentials included, its report changes nothing and asks
/// for nothing. This holds for as long as tickets do not run out.
pub proof fn superseded_attempt_is_ignored(
    s: LoopState,
    c: Credentials,
    later: Seq<Ready>,
    outcome: ConnectionOutcome,
)
    requires
        s.wf(),
        s.pending() is Some,
        s.issued + 1 + later.len() <= u64::MAX,
    ensures
        ({
            let now = run(s.reconnect(c).0, later);
            let report = ConnectionReport { attempt: s.pending()->0, outcome };
            let stale = Ready {
                discovery: None,
                connection: Some(report),
                interrupt: false,
                control_task: None,
            };
            &&& now.pending() != s.pending()
            &&& now.attempt_resolved(report) == (now, Action::Nothing)
            &&& now.tick(stale) == (
                now,
                Tick { source: Some(Source::Connection), action: Action::Nothing },
            )
        }),
{
    let first = s.reconnect(c).0;
    tickets_advance(first, later);
    run_keeps_wf(first, later);
}

/// The same without a bound on the tickets, up to the next credentials: an
/// attempt that was pending when new credentials arrived has no effect
/// when it resolves before discovery yields credentials again.
pub proof fn superseded_attempt_is_ignored_at_once(
    s: LoopState,
    c: Credentials,
    later: Seq<Ready>,
    outcome: ConnectionOutcome,
)
    requires
        s.wf(),
        s.pending() is Some,
        without_discovery(later),
    ensures
        ({
            let now = run(s.reconnect(c).0, later);
            let report = ConnectionReport { attempt: s.pending()->0, outcome };
            now.attempt_resolved(report) == (now, Action::Nothing)
        }),
{
    pair_stems_from_latest_credentials(s, c, later);
}

/// A tick never takes the shutdown flag back.
pub proof fn shutdown_flag_stays(s: LoopState, ready: Ready)
    requires
        s.shutting_down,
    ensures
        s.tick(ready).0.shutting_down,
{
}

/// Once the loop is shutting down it stays so, whatever follows.
pub proof fn shutdown_is_permanent(s: LoopState, ticks: Seq<Ready>)
    requires
        s.shutting_down,
    ensures
        run(s, ticks).shutting_down,
    decreases ticks.len(),
{
    if ticks.len() > 0 {
        shutdown_is_permanent(s, ticks.drop_last());
        shutdown_flag_stays(run(s, ticks.drop_last()), ticks.last());
    }
}

/// An interrupt that asked a session to shut down is the only one that
/// does anything: whatever happens after it, a further interrupt changes
/// nothing and asks for nothing.
pub proof fn second_interrupt_is_ignored(s: LoopState, between: Seq<Ready>)
    requires
        s.interrupt().1 != Action::Terminate,
    ensures
        s.interrupt().0.shutting_down,
        ({
            let now = run(s.interrupt().0, between);
            now.interrupt() == (now, Action::Nothing)
        }),
{
    shutdown_is_permanent(s.interrupt().0, between);
}

/// When the control task of the active session resolves, the loop ends,
/// whether or not a shutdown had been asked for; and a tick does so
/// whenever no source of higher precedence is ready.
pub proof fn resolved_control_task_ends_loop(s: LoopState, session: u64, ready: Ready)
    requires
        s.active() == Some(session),
        ready.discovery is None,
        ready.connection is None,
        !ready.interrupt,
        ready.control_task == Some(session),
    ensures
        s.control_task_resolved(session) == (s, Action::Terminate),
        s.tick(ready) == (
            s,
            Tick { source: Some(Source::ControlTask), action: Action::Terminate },
        ),
        s.tick(ready).1.flow() == Flow::Exit,
{
}

/// A breakdown of the discovery listener ends the loop as failed,
/// whatever else is ready and whatever the state.
pub proof fn broken_discovery_is_fatal(s: LoopState, ready: Ready)
    requires
        ready.discovery == Some(DiscoveryEvent::Failed),
    ensures
        s.tick(ready) == (s, Tick { source: Some(Source::Discovery), action: Action::Abort }),
        s.tick(ready).1.flow() == Flow::Fail,
{
}

/// A loop started without credentials stays as it is, and never ends, for
/// as long as neither discovery nor an interrupt is ready; with no source
/// ready it suspends. An interrupt then ends it at once, with no session
/// to shut down.
pub proof fn idle_loop_waits_for_interrupt(ticks: Seq<Ready>, next: Ready)
    requires
        without_discovery(ticks),
        without_interrupt(ticks),
        next.discovery is None,
    ensures
        run(LoopState::initial(None), ticks) == LoopState::initial(None),
        ({
            let idle = LoopState::initial(None);
            &&& idle.tick(next).0 == idle
            &&& !next.interrupt ==> idle.tick(next).1.flow() != Flow::Exit
            &&& idle.tick(next).1.flow() != Flow::Fail
            &&& LoopState::chosen(next) is None ==> idle.tick(next).1 == (Tick {
                source: None,
                action: Action::Suspend,
            })
            &&& next.connection is None && next.interrupt ==> idle.tick(next).1 == (Tick {
                source: Some(Source::Interrupt),
                action: Action::Terminate,
            })
        }),
    decreases ticks.len(),
{
    if ticks.len() > 0 {
        let before = ticks.drop_last();
        assert forall|i: int| 0 <= i < before.len() implies (#[trigger] before[i]).discovery
            is None && !before[i].interrupt by {
            assert(before[i] == ticks[i]);
        }
        idle_loop_waits_for_interrupt(before, next);
        assert(ticks.last() == ticks[ticks.len() - 1]);
    }
}

} // verus!
