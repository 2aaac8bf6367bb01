use watchparty::host::{host_start, host_step, HostAction, HostEvent, HostExit, HostPhase};

fn run(events: &[HostEvent]) -> Vec<HostAction> {
    let (mut phase, action) = host_start();
    let mut actions = vec![action];
    for &e in events {
        let (p, a) = host_step(phase, e);
        phase = p;
        actions.push(a);
    }
    actions
}

fn cleanups(actions: &[HostAction]) -> usize {
    actions.iter().filter(|a| **a == HostAction::CleanUp).count()
}

#[test]
fn session_starts_by_mapping() {
    assert_eq!(host_start(), (HostPhase::AwaitMap, HostAction::MapPort));
}

#[test]
fn served_session_cleans_up_once_then_returns_ok() {
    let actions = run(&[HostEvent::Mapped, HostEvent::HandlerSet, HostEvent::ServerEnded, HostEvent::CleanedUp]);
    assert_eq!(
        actions,
        vec![
            HostAction::MapPort,
            HostAction::StartServer,
            HostAction::AwaitServer,
            HostAction::CleanUp,
            HostAction::Return(HostExit::Served),
        ]
    );
    assert_eq!(cleanups(&actions), 1);
}

#[test]
fn failed_handler_cleans_up_then_returns_error() {
    let actions = run(&[HostEvent::Mapped, HostEvent::HandlerFailed, HostEvent::CleanedUp]);
    assert_eq!(actions[2], HostAction::CleanUp);
    assert_eq!(actions[3], HostAction::Return(HostExit::HandlerFailed));
    assert_eq!(cleanups(&actions), 1);
}

#[test]
fn failed_mapping_returns_without_cleanup() {
    let actions = run(&[HostEvent::MapFailed]);
    assert_eq!(actions, vec![HostAction::MapPort, HostAction::Return(HostExit::MapFailed)]);
    assert_eq!(cleanups(&actions), 0);
}

#[test]
fn ended_session_stays_ended() {
    let done = HostPhase::Done(HostExit::Served);
    assert_eq!(host_step(done, HostEvent::Mapped), (done, HostAction::Return(HostExit::Served)));
}

#[test]
fn unexpected_answer_changes_nothing() {
    assert_eq!(
        host_step(HostPhase::AwaitServer, HostEvent::Mapped),
        (HostPhase::AwaitServer, HostAction::AwaitServer)
    );
}
