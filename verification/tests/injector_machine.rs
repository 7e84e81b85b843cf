use stdin_relay::failure::Failure;
use stdin_relay::injector::{
    injector_action, injector_next, Injector, InjectorAction, InjectorEvent, InjectorPhase,
};
use stdin_relay::lane::{Lane, Side};
use stdin_relay::relay::{Relay, RelayEvent};

const ALL_EVENTS: [InjectorEvent; 7] = [
    InjectorEvent::Opened,
    InjectorEvent::OpenFailed,
    InjectorEvent::Connected,
    InjectorEvent::ConnectFailed,
    InjectorEvent::RelayEnded,
    InjectorEvent::RelayFailed(Side::Read),
    InjectorEvent::RelayFailed(Side::Write),
];

#[test]
fn new_injector_opens_an_endpoint_first() {
    let injector = Injector::new("t1");
    assert_eq!(injector.path(), "/tmp/t1");
    assert_eq!(injector.phase(), InjectorPhase::Opening);
    assert_eq!(injector.action(), InjectorAction::Open);
}

#[test]
fn injector_relays_until_its_input_ends() {
    let mut injector = Injector::new("t1");
    assert_eq!(injector.step(InjectorEvent::Opened), Some(InjectorAction::Connect));
    assert_eq!(injector.step(InjectorEvent::Connected), Some(InjectorAction::Relay));
    assert_eq!(injector.phase(), InjectorPhase::Relaying);
    assert_eq!(injector.step(InjectorEvent::RelayEnded), Some(InjectorAction::Exit));
    assert_eq!(injector.phase(), InjectorPhase::Done);
    assert_eq!(injector.path(), "/tmp/t1");
}

#[test]
fn no_host_fails_at_once() {
    let mut injector = Injector::new("1234567890");
    assert_eq!(injector.step(InjectorEvent::Opened), Some(InjectorAction::Connect));
    assert_eq!(injector.path(), "/tmp/1234567890");
    assert_eq!(
        injector.step(InjectorEvent::ConnectFailed),
        Some(InjectorAction::Abort(Failure::Connect))
    );
    assert_eq!(injector.phase(), InjectorPhase::Failed(Failure::Connect));
    for event in ALL_EVENTS {
        assert_eq!(injector.step(event), None);
    }
    assert_eq!(injector.action(), InjectorAction::Abort(Failure::Connect));
}

#[test]
fn open_failure_is_fatal() {
    let mut injector = Injector::new("t1");
    assert_eq!(
        injector.step(InjectorEvent::OpenFailed),
        Some(InjectorAction::Abort(Failure::CreateEndpoint))
    );
    assert_eq!(injector.step(InjectorEvent::Opened), None);
}

#[test]
fn relay_failure_is_fatal() {
    for side in [Side::Read, Side::Write] {
        let mut injector = Injector::new("t1");
        assert!(injector.step(InjectorEvent::Opened).is_some());
        assert!(injector.step(InjectorEvent::Connected).is_some());
        assert_eq!(
            injector.step(InjectorEvent::RelayFailed(side)),
            Some(InjectorAction::Abort(Failure::Transport(Lane::Inject, side)))
        );
        assert_eq!(injector.step(InjectorEvent::RelayEnded), None);
    }
}

#[test]
fn injector_never_relays_unconnected() {
    let phases = [
        InjectorPhase::Opening,
        InjectorPhase::Connecting,
        InjectorPhase::Relaying,
        InjectorPhase::Done,
        InjectorPhase::Failed(Failure::Connect),
    ];
    for phase in phases {
        for event in ALL_EVENTS {
            let relays = injector_next(phase, event) == Some(InjectorPhase::Relaying);
            assert_eq!(
                relays,
                phase == InjectorPhase::Connecting && event == InjectorEvent::Connected
            );
            let done = injector_next(phase, event) == Some(InjectorPhase::Done);
            assert_eq!(
                done,
                phase == InjectorPhase::Relaying && event == InjectorEvent::RelayEnded
            );
        }
    }
}

#[test]
fn injector_events_out_of_turn_change_nothing() {
    let mut injector = Injector::new("t1");
    assert_eq!(injector.step(InjectorEvent::Connected), None);
    assert_eq!(injector.step(InjectorEvent::ConnectFailed), None);
    assert_eq!(injector.step(InjectorEvent::RelayEnded), None);
    assert_eq!(injector.phase(), InjectorPhase::Opening);
    assert!(injector.step(InjectorEvent::Opened).is_some());
    assert_eq!(injector.step(InjectorEvent::Opened), None);
    assert_eq!(injector.step(InjectorEvent::RelayEnded), None);
    assert_eq!(injector.phase(), InjectorPhase::Connecting);
}

#[test]
fn injector_that_is_over_accepts_nothing() {
    for end in [InjectorPhase::Done, InjectorPhase::Failed(Failure::CreateEndpoint)] {
        for event in ALL_EVENTS {
            assert_eq!(injector_next(end, event), None);
        }
    }
    assert_eq!(injector_action(InjectorPhase::Done), InjectorAction::Exit);
}

#[test]
fn ended_relay_is_reported_to_the_injector() {
    let mut relay = Relay::new(Lane::Inject);
    assert_eq!(InjectorEvent::of_relay(&relay), None);
    assert!(relay.step(RelayEvent::Chunk(b"ls\n".to_vec())).is_some());
    assert_eq!(InjectorEvent::of_relay(&relay), None);
    assert!(relay.step(RelayEvent::SendFailed).is_some());
    assert_eq!(InjectorEvent::of_relay(&relay), Some(InjectorEvent::RelayFailed(Side::Write)));

    let mut relay = Relay::new(Lane::Inject);
    assert!(relay.step(RelayEvent::EndOfStream).is_some());
    assert_eq!(InjectorEvent::of_relay(&relay), Some(InjectorEvent::RelayEnded));

    let mut relay = Relay::new(Lane::Inject);
    assert!(relay.step(RelayEvent::ReadFailed).is_some());
    assert_eq!(InjectorEvent::of_relay(&relay), Some(InjectorEvent::RelayFailed(Side::Read)));
}

#[test]
fn relay_of_the_host_is_no_business_of_the_injector() {
    for lane in [Lane::Inbound, Lane::Output, Lane::Error] {
        let mut relay = Relay::new(lane);
        assert!(relay.step(RelayEvent::EndOfStream).is_some());
        assert_eq!(InjectorEvent::of_relay(&relay), None);
    }
}
