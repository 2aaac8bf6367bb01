//! The course of a hosting session: map the port, start the TURN server and
//! its ctrl-c handler, wait for the server to end, remove the mapping, and
//! return. The waiting is done by the caller; each answer it gets is handed
//! back as an event, and the next step decides what to do.
use vstd::prelude::*;

verus! {

/// How a session ends.
#[derive(Clone, Copy, Debug, PartialEq, Eq, Structural)]
pub enum HostExit {
    /// No port could be mapped: the mapping error is returned.
    MapFailed,
    /// The ctrl-c handler could not be set: the mapping is removed and the
    /// handler's error is returned.
    HandlerFailed,
    /// The server ended, failed or was stopped by ctrl-c: the mapping is
    /// removed and the session succeeds.
    Served,
}

/// What the session waits for.
#[derive(Clone, Copy, Debug, PartialEq, Eq, Structural)]
pub enum HostPhase {
    /// The port mapping.
    AwaitMap,
    /// The server's start and its ctrl-c handler.
    AwaitHandler,
    /// The end of the server.
    AwaitServer,
    /// The removal of the mapping, before ending as given.
    AwaitCleanup(HostExit),
    /// Nothing: the session has ended as given.
    Done(HostExit),
}

/// What the caller does next.
#[derive(Clone, Copy, Debug, PartialEq, Eq, Structural)]
pub enum HostAction {
    /// Map the port on the gateway.
    MapPort,
    /// Start the server and set the ctrl-c handler that stops it.
    StartServer,
    /// Wait for the server to end.
    AwaitServer,
    /// Remove the mapping; whether that works is reported, not returned.
    CleanUp,
    /// Return from the session as given.
    Return(HostExit),
}

/// What the caller got back from the last action.
#[derive(Clone, Copy, Debug, PartialEq, Eq, Structural)]
pub enum HostEvent {
    Mapped,
    MapFailed,
    HandlerSet,
    HandlerFailed,
    ServerEnded,
    CleanedUp,
}

/// The action that a phase waits on.
pub open spec fn pending_action(phase: HostPhase) -> HostAction {
    match phase {
        HostPhase::AwaitMap => HostAction::MapPort,
        HostPhase::AwaitHandler => HostAction::StartServer,
        HostPhase::AwaitServer => HostAction::AwaitServer,
        HostPhase::AwaitCleanup(_) => HostAction::CleanUp,
        HostPhase::Done(x) => HostAction::Return(x),
    }
}

/// One step of a session: a phase and the answer to its action give the next
/// phase and its action. An answer that the phase does not wait for changes
/// nothing.
pub open spec fn spec_host_step(phase: HostPhase, event: HostEvent) -> (HostPhase, HostAction) {
    let next = match (phase, event) {
        (HostPhase::AwaitMap, HostEvent::Mapped) => HostPhase::AwaitHandler,
        (HostPhase::AwaitMap, HostEvent::MapFailed) => HostPhase::Done(HostExit::MapFailed),
        (HostPhase::AwaitHandler, HostEvent::HandlerSet) => HostPhase::AwaitServer,
        (HostPhase::AwaitHandler, HostEvent::HandlerFailed) => HostPhase::AwaitCleanup(HostExit::HandlerFailed),
        (HostPhase::AwaitServer, HostEvent::ServerEnded) => HostPhase::AwaitCleanup(HostExit::Served),
        (HostPhase::AwaitCleanup(x), HostEvent::CleanedUp) => HostPhase::Done(x),
        _ => phase,
    };
    (next, pending_action(next))
}

/// A session starts by mapping the port.
pub fn host_start() -> (r: (HostPhase, HostAction))
    ensures
        r == (HostPhase::AwaitMap, HostAction::MapPort),
{
    (HostPhase::AwaitMap, HostAction::MapPort)
}

/// The action that `phase` waits on.
fn pending(phase: HostPhase) -> (a: HostAction)
    ensures
        a == pending_action(phase),
{
    match phase {
        HostPhase::AwaitMap => HostAction::MapPort,
        HostPhase::AwaitHandler => HostAction::StartServer,
        HostPhase::AwaitServer => HostAction::AwaitServer,
        HostPhase::AwaitCleanup(_) => HostAction::CleanUp,
        HostPhase::Done(x) => HostAction::Return(x),
    }
}

/// The next phase and action after `event` answered the action of `phase`.
pub fn host_step(phase: HostPhase, event: HostEvent) -> (r: (HostPhase, HostAction))
    ensures
        r == spec_host_step(phase, event),
{
    let next = match (phase, event) {
        (HostPhase::AwaitMap, HostEvent::Mapped) => HostPhase::AwaitHandler,
        (HostPhase::AwaitMap, HostEvent::MapFailed) => HostPhase::Done(HostExit::MapFailed),
        (HostPhase::AwaitHandler, HostEvent::HandlerSet) => HostPhase::AwaitServer,
        (HostPhase::AwaitHandler, HostEvent::HandlerFailed) => HostPhase::AwaitCleanup(HostExit::HandlerFailed),
        (HostPhase::AwaitServer, HostEvent::ServerEnded) => HostPhase::AwaitCleanup(HostExit::Served),
        (HostPhase::AwaitCleanup(x), HostEvent::CleanedUp) => HostPhase::Done(x),
        _ => phase,
    };
    (next, pending(next))
}

/// The phase a session reaches on `events`, and every action it asked for,
/// the first one included.
pub open spec fn host_run(events: Seq<HostEvent>) -> (HostPhase, Seq<HostAction>)
    decreases events.len(),
{
    if events.len() == 0 {
        (HostPhase::AwaitMap, seq![HostAction::MapPort])
    } else {
        let before = host_run(events.drop_last());
        let step = spec_host_step(before.0, events.last());
        (step.0, before.1.push(step.1))
    }
}

/// Whether `event` is an answer to `action`. A session that has returned
/// takes no more answers; any event there is taken as one.
pub open spec fn answers(action: HostAction, event: HostEvent) -> bool {
    match action {
        HostAction::MapPort => event == HostEvent::Mapped || event == HostEvent::MapFailed,
        HostAction::StartServer => event == HostEvent::HandlerSet || event == HostEvent::HandlerFailed,
        HostAction::AwaitServer => event == HostEvent::ServerEnded,
        HostAction::CleanUp => event == HostEvent::CleanedUp,
        HostAction::Return(_) => true,
    }
}

/// Whether each of `events` answers the action asked for just before it.
pub open spec fn answered_run(events: Seq<HostEvent>) -> bool
    decreases events.len(),
{
    events.len() == 0 || (answered_run(events.drop_last()) && answers(
        host_run(events.drop_last()).1.last(),
        events.last(),
    ))
}

/// How many times `actions` asks to remove the mapping.
pub open spec fn cleanups(actions: Seq<HostAction>) -> nat
    decreases actions.len(),
{
    if actions.len() == 0 {
        0
    } else {
        cleanups(actions.drop_last()) + if actions.last() == HostAction::CleanUp {
            1nat
        } else {
            0nat
        }
    }
}

/// How many removals a session that ends as `exit` has made: one where a port
/// was mapped, none where it was not.
pub open spec fn cleanups_owed(exit: HostExit) -> nat {
    if exit == HostExit::MapFailed {
        0
    } else {
        1
    }
}

/// How many removals a session in `phase` has asked for.
spec fn cleanups_in(phase: HostPhase) -> nat {
    match phase {
        HostPhase::AwaitCleanup(_) => 1,
        HostPhase::Done(x) => cleanups_owed(x),
        _ => 0,
    }
}

proof fn lemma_host_run_inv(events: Seq<HostEvent>)
    requires
        answered_run(events),
    ensures
        host_run(events).1.last() == pending_action(host_run(events).0),
        cleanups(host_run(events).1) == cleanups_in(host_run(events).0),
        host_run(events).0 != HostPhase::AwaitCleanup(HostExit::MapFailed),
        host_run(events).1.len() == events.len() + 1,
        forall|i: int|
            0 <= i < host_run(events).1.len() && #[trigger] host_run(events).1[i] is Return ==> cleanups(
                host_run(events).1.take(i),
            ) == cleanups_owed(host_run(events).1[i]->Return_0),
    decreases events.len(),
{
    if events.len() == 0 {
        let a = seq![HostAction::MapPort];
        assert(a.drop_last() =~= Seq::<HostAction>::empty());
        assert(cleanups(a) == cleanups(Seq::<HostAction>::empty()));
    } else {
        let prev = events.drop_last();
        lemma_host_run_inv(prev);
        let before = host_run(prev);
        let step = spec_host_step(before.0, events.last());
        let acts = before.1.push(step.1);
        assert(acts.drop_last() =~= before.1);
        assert(cleanups(acts) == cleanups(before.1) + if step.1 == HostAction::CleanUp {
            1nat
        } else {
            0nat
        });
        assert(answers(before.1.last(), events.last()));
        assert(acts.take(before.1.len() as int) =~= before.1);
        assert forall|i: int| 0 <= i < acts.len() && #[trigger] acts[i] is Return implies cleanups(acts.take(i))
            == cleanups_owed(acts[i]->Return_0) by {
            if i < before.1.len() {
                assert(acts.take(i) =~= before.1.take(i));
                assert(acts[i] == before.1[i]);
            }
        }
    }
}

/// Every session removes the mapping at most once, and returns only after
/// removing it exactly once where a port was mapped and never where none was.
/// Once it returns it stays ended. This holds of every session in which each
/// event answers the action asked for just before it.
pub proof fn lemma_host_cleans_up_once(events: Seq<HostEvent>)
    requires
        answered_run(events),
    ensures
        cleanups(host_run(events).1) <= 1,
        forall|i: int|
            0 <= i < host_run(events).1.len() && #[trigger] host_run(events).1[i] is Return ==> cleanups(
                host_run(events).1.take(i),
            ) == cleanups_owed(host_run(events).1[i]->Return_0),
        forall|x: HostExit|
            host_run(events).0 == HostPhase::Done(x) ==> cleanups(host_run(events).1) == cleanups_owed(x),
        forall|x: HostExit, e: HostEvent|
            host_run(events).0 == HostPhase::Done(x) ==> spec_host_step(host_run(events).0, e) == (
            HostPhase::Done(x),
            HostAction::Return(x),
        ),
{
    lemma_host_run_inv(events);
}

} // verus!
