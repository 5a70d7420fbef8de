use lgtv_manager::commands::TvCommand;
use lgtv_manager::state_machine::{output, transition, Input, Output, State};

fn url() -> String {
    "wss://10.0.0.1:3001/".to_string()
}

fn all_inputs() -> Vec<Input> {
    vec![
        Input::Connect(url()),
        Input::AttemptRegister,
        Input::Pair,
        Input::Initialize,
        Input::StartCommunication,
        Input::SendCommand(TvCommand::VolumeUp),
        Input::Reset,
        Input::Error,
        Input::Disconnect,
        Input::DisconnectionComplete,
    ]
}

fn all_states() -> Vec<State> {
    vec![
        State::Disconnected,
        State::Connecting(url()),
        State::Connected(url()),
        State::Pairing(url()),
        State::Initializing(url()),
        State::Communicating(url()),
        State::Disconnecting(url()),
        State::Zombie,
    ]
}

fn run(start: State, inputs: Vec<Input>) -> State {
    let mut s = start;
    for i in inputs {
        s = transition(&s, &i).expect("input accepted");
    }
    s
}

#[test]
fn pairing_flow_reaches_communicating() {
    let s = run(
        State::Disconnected,
        vec![
            Input::Connect(url()),
            Input::AttemptRegister,
            Input::Pair,
            Input::Initialize,
            Input::StartCommunication,
        ],
    );
    assert!(matches!(s, State::Communicating(u) if u == url()));
}

#[test]
fn flow_outputs() {
    assert!(matches!(
        output(&State::Disconnected, &Input::Connect(url())),
        Some(Output::ConnectToTv(u)) if u == url()
    ));
    assert!(matches!(
        output(&State::Connecting(url()), &Input::AttemptRegister),
        Some(Output::SendRegisterPayload)
    ));
    assert!(matches!(output(&State::Connected(url()), &Input::Pair), Some(Output::PairWithTv)));
    assert!(matches!(
        output(&State::Pairing(url()), &Input::Initialize),
        Some(Output::InitializeConnection)
    ));
    assert!(matches!(output(&State::Initializing(url()), &Input::StartCommunication), None));
    assert!(matches!(
        output(&State::Communicating(url()), &Input::SendCommand(TvCommand::SetVolume(3))),
        Some(Output::SendCommand(TvCommand::SetVolume(3)))
    ));
    assert!(matches!(
        output(&State::Disconnecting(url()), &Input::DisconnectionComplete),
        Some(Output::HandleSuccessfulDisconnect)
    ));
    assert!(matches!(
        output(&State::Connecting(url()), &Input::Error),
        Some(Output::HandleConnectError)
    ));
    assert!(matches!(
        output(&State::Disconnecting(url()), &Input::Error),
        Some(Output::HandleDisconnectError)
    ));
}

#[test]
fn reset_returns_every_machine_state_to_disconnected() {
    for s in all_states() {
        if matches!(s, State::Zombie) {
            continue;
        }
        let next = transition(&s, &Input::Reset);
        assert!(matches!(next, Some(State::Disconnected)), "{:?}", s);
        assert!(output(&s, &Input::Reset).is_none());
    }
}

#[test]
fn zombie_accepts_nothing() {
    for i in all_inputs() {
        assert!(transition(&State::Zombie, &i).is_none());
        assert!(output(&State::Zombie, &i).is_none());
    }
}

#[test]
fn output_only_on_transition() {
    for s in all_states() {
        for i in all_inputs() {
            if output(&s, &i).is_some() {
                assert!(transition(&s, &i).is_some(), "{:?} {:?}", s, i);
            }
        }
    }
}

#[test]
fn commands_need_communicating() {
    for s in all_states() {
        let accepted = transition(&s, &Input::SendCommand(TvCommand::TurnOff)).is_some();
        assert_eq!(accepted, s.is_communicating(), "{:?}", s);
    }
}

#[test]
fn two_errors_disconnect() {
    for s in all_states() {
        if let Some(mid) = transition(&s, &Input::Error) {
            let end = transition(&mid, &Input::Error);
            assert!(
                matches!(mid, State::Disconnected) || matches!(end, Some(State::Disconnected)),
                "{:?}",
                s
            );
        }
    }
}

#[test]
fn connect_only_from_disconnected() {
    for s in all_states() {
        let accepted = transition(&s, &Input::Connect(url())).is_some();
        assert_eq!(accepted, s.is_disconnected(), "{:?}", s);
    }
}

#[test]
fn direct_flow_and_disconnect() {
    let s = run(
        State::Disconnected,
        vec![
            Input::Connect(url()),
            Input::AttemptRegister,
            Input::Initialize,
            Input::StartCommunication,
        ],
    );
    assert!(matches!(&s, State::Communicating(u) if *u == url()));
    let end = run(s, vec![Input::Disconnect, Input::DisconnectionComplete]);
    assert!(matches!(end, State::Disconnected));
}
