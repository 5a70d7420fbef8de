//! The state machine for a connection to an LG TV.
//!
//! 1. Connect to the TV.
//! 2. Send a registration payload (including a client key if available); without a valid key the
//!    TV prompts the user to pair.
//! 3. Initialize the connection (subscribe to volume/mute updates).
//! 4. Communicate: send commands to the TV on request.
//! 5. Disconnect from the TV.
//!
//! Any connected state falls back to `Disconnecting` on `Error`, and every state of the machine
//! returns to `Disconnected` on `Reset`.

use vstd::prelude::*;

use crate::commands::TvCommand;
use crate::json::push_str;
use crate::text::{decimal, str_eq, u64_to_decimal};

verus! {

/// Details of a pending reconnect attempt.
#[derive(Debug)]
pub struct ReconnectDetails {
    /// WebSocket URL being reconnected to.
    pub url: String,
    /// Reconnect attempts made so far.
    pub attempts: u64,
    /// Seconds until the next attempt.
    pub next_attempt_secs: u64,
}

/// Manager status.
#[derive(Debug)]
pub enum State {
    /// Not currently connected to the TV.
    Disconnected,
    /// Attempting to connect to the TV over a WebSocket at the provided url.
    Connecting(String),
    /// WebSocket connection to the TV has been established at the provided url.
    Connected(String),
    /// Attempting to pair with the TV at the provided url (the TV is prompting for confirmation).
    Pairing(String),
    /// Initializing the paired connection to the TV at the provided url.
    Initializing(String),
    /// Able to send [`TvCommand`] messages to the TV at the provided url.
    Communicating(String),
    /// Disconnecting from the TV at the provided url.
    Disconnecting(String),
    /// Waiting to reconnect. The state machine never enters this state itself: the manager
    /// reports it while a reconnect is pending.
    Reconnecting(ReconnectDetails),
    /// An unrecoverable problem has occurred; the manager only answers a shut down request.
    /// The state machine cannot enter or leave this state.
    Zombie,
}

/// Mathematical view of a [`State`]: URLs as character sequences.
pub enum StateView {
    Disconnected,
    Connecting(Seq<char>),
    Connected(Seq<char>),
    Pairing(Seq<char>),
    Initializing(Seq<char>),
    Communicating(Seq<char>),
    Disconnecting(Seq<char>),
    Reconnecting(Seq<char>, u64, u64),
    Zombie,
}

impl View for State {
    type V = StateView;

    open spec fn view(&self) -> StateView {
        match self {
            State::Disconnected => StateView::Disconnected,
            State::Connecting(u) => StateView::Connecting(u@),
            State::Connected(u) => StateView::Connected(u@),
            State::Pairing(u) => StateView::Pairing(u@),
            State::Initializing(u) => StateView::Initializing(u@),
            State::Communicating(u) => StateView::Communicating(u@),
            State::Disconnecting(u) => StateView::Disconnecting(u@),
            State::Reconnecting(d) => StateView::Reconnecting(d.url@, d.attempts, d.next_attempt_secs),
            State::Zombie => StateView::Zombie,
        }
    }
}

/// Messages from the state machine task back to the manager.
#[derive(Debug)]
pub enum StateMachineUpdateMessage {
    /// The state after an input.
    State(State),
    /// The action an input calls for.
    Output(Output),
    /// An input had no transition from the current state; the message says which.
    TransitionError(String),
}

/// State machine transition inputs.
#[derive(Debug)]
pub enum Input {
    Connect(String),
    AttemptRegister,
    Pair,
    Initialize,
    StartCommunication,
    SendCommand(TvCommand),
    Reset,
    Error,
    Disconnect,
    DisconnectionComplete,
}

/// Mathematical view of an [`Input`].
pub enum InputView {
    Connect(Seq<char>),
    AttemptRegister,
    Pair,
    Initialize,
    StartCommunication,
    SendCommand(TvCommand),
    Reset,
    Error,
    Disconnect,
    DisconnectionComplete,
}

impl View for Input {
    type V = InputView;

    open spec fn view(&self) -> InputView {
        match self {
            Input::Connect(u) => InputView::Connect(u@),
            Input::AttemptRegister => InputView::AttemptRegister,
            Input::Pair => InputView::Pair,
            Input::Initialize => InputView::Initialize,
            Input::StartCommunication => InputView::StartCommunication,
            Input::SendCommand(c) => InputView::SendCommand(*c),
            Input::Reset => InputView::Reset,
            Input::Error => InputView::Error,
            Input::Disconnect => InputView::Disconnect,
            Input::DisconnectionComplete => InputView::DisconnectionComplete,
        }
    }
}

/// State machine transition outputs: the actions the manager must take.
#[derive(Debug)]
pub enum Output {
    ConnectToTv(String),
    SendRegisterPayload,
    PairWithTv,
    InitializeConnection,
    SendCommand(TvCommand),
    DisconnectFromTv,
    HandleConnectError,
    HandleDisconnectError,
    HandleSuccessfulDisconnect,
}

/// Mathematical view of an [`Output`].
pub enum OutputView {
    ConnectToTv(Seq<char>),
    SendRegisterPayload,
    PairWithTv,
    InitializeConnection,
    SendCommand(TvCommand),
    DisconnectFromTv,
    HandleConnectError,
    HandleDisconnectError,
    HandleSuccessfulDisconnect,
}

impl View for Output {
    type V = OutputView;

    open spec fn view(&self) -> OutputView {
        match self {
            Output::ConnectToTv(u) => OutputView::ConnectToTv(u@),
            Output::SendRegisterPayload => OutputView::SendRegisterPayload,
            Output::PairWithTv => OutputView::PairWithTv,
            Output::InitializeConnection => OutputView::InitializeConnection,
            Output::SendCommand(c) => OutputView::SendCommand(*c),
            Output::DisconnectFromTv => OutputView::DisconnectFromTv,
            Output::HandleConnectError => OutputView::HandleConnectError,
            Output::HandleDisconnectError => OutputView::HandleDisconnectError,
            Output::HandleSuccessfulDisconnect => OutputView::HandleSuccessfulDisconnect,
        }
    }
}

/// The transition table: the state after `i` in `s`, or `None` where no transition exists.
pub open spec fn spec_transition(s: StateView, i: InputView) -> Option<StateView> {
    match (s, i) {
        (StateView::Disconnected, InputView::Connect(url)) => Some(StateView::Connecting(url)),
        (StateView::Disconnected, InputView::Reset) => Some(StateView::Disconnected),
        (StateView::Connecting(url), InputView::AttemptRegister) => Some(StateView::Connected(url)),
        (StateView::Connecting(_), InputView::Reset) => Some(StateView::Disconnected),
        (StateView::Connecting(_), InputView::Error) => Some(StateView::Disconnected),
        (StateView::Connected(url), InputView::Pair) => Some(StateView::Pairing(url)),
        (StateView::Connected(url), InputView::Initialize) => Some(StateView::Initializing(url)),
        (StateView::Connected(_), InputView::Reset) => Some(StateView::Disconnected),
        (StateView::Connected(url), InputView::Error) => Some(StateView::Disconnecting(url)),
        (StateView::Pairing(url), InputView::Initialize) => Some(StateView::Initializing(url)),
        (StateView::Pairing(_), InputView::Reset) => Some(StateView::Disconnected),
        (StateView::Pairing(url), InputView::Error) => Some(StateView::Disconnecting(url)),
        (StateView::Initializing(url), InputView::StartCommunication) => Some(
            StateView::Communicating(url),
        ),
        (StateView::Initializing(_), InputView::Reset) => Some(StateView::Disconnected),
        (StateView::Initializing(url), InputView::Error) => Some(StateView::Disconnecting(url)),
        (StateView::Communicating(url), InputView::SendCommand(_)) => Some(
            StateView::Communicating(url),
        ),
        (StateView::Communicating(url), InputView::Disconnect) => Some(
            StateView::Disconnecting(url),
        ),
        (StateView::Communicating(_), InputView::Reset) => Some(StateView::Disconnected),
        (StateView::Communicating(url), InputView::Error) => Some(StateView::Disconnecting(url)),
        (StateView::Disconnecting(_), InputView::DisconnectionComplete) => Some(
            StateView::Disconnected,
        ),
        (StateView::Disconnecting(_), InputView::Reset) => Some(StateView::Disconnected),
        (StateView::Disconnecting(_), InputView::Error) => Some(StateView::Disconnected),
        _ => None,
    }
}

/// The output table: the action that `i` in `s` calls for, if any.
pub open spec fn spec_output(s: StateView, i: InputView) -> Option<OutputView> {
    match (s, i) {
        (StateView::Disconnected, InputView::Connect(url)) => Some(OutputView::ConnectToTv(url)),
        (StateView::Connecting(_), InputView::AttemptRegister) => Some(
            OutputView::SendRegisterPayload,
        ),
        (StateView::Connecting(_), InputView::Error) => Some(OutputView::HandleConnectError),
        (StateView::Connected(_), InputView::Pair) => Some(OutputView::PairWithTv),
        (StateView::Connected(_), InputView::Initialize) => Some(OutputView::InitializeConnection),
        (StateView::Connected(_), InputView::Error) => Some(OutputView::DisconnectFromTv),
        (StateView::Pairing(_), InputView::Initialize) => Some(OutputView::InitializeConnection),
        (StateView::Pairing(_), InputView::Error) => Some(OutputView::DisconnectFromTv),
        (StateView::Initializing(_), InputView::Error) => Some(OutputView::DisconnectFromTv),
        (StateView::Communicating(_), InputView::SendCommand(c)) => Some(
            OutputView::SendCommand(c),
        ),
        (StateView::Communicating(_), InputView::Disconnect) => Some(OutputView::DisconnectFromTv),
        (StateView::Communicating(_), InputView::Error) => Some(OutputView::DisconnectFromTv),
        (StateView::Disconnecting(_), InputView::DisconnectionComplete) => Some(
            OutputView::HandleSuccessfulDisconnect,
        ),
        (StateView::Disconnecting(_), InputView::Error) => Some(OutputView::HandleDisconnectError),
        _ => None,
    }
}

/// One step of the machine on `i` in `s`: the next state and the output, or `None` when the
/// transition is impossible (the state then stays as it was).
pub open spec fn spec_step(s: StateView, i: InputView) -> Option<(StateView, Option<OutputView>)> {
    match spec_transition(s, i) {
        Some(next) => Some((next, spec_output(s, i))),
        None => None,
    }
}

/// The state after feeding a sequence of inputs from `s`; impossible transitions leave the
/// state unchanged.
pub open spec fn run_inputs(s: StateView, inputs: Seq<InputView>) -> StateView
    decreases inputs.len(),
{
    if inputs.len() == 0 {
        s
    } else {
        let mid = run_inputs(s, inputs.drop_last());
        match spec_transition(mid, inputs.last()) {
            Some(next) => next,
            None => mid,
        }
    }
}

/// The URL a state refers to, if it refers to one.
pub open spec fn state_url(s: StateView) -> Option<Seq<char>> {
    match s {
        StateView::Connecting(u) => Some(u),
        StateView::Connected(u) => Some(u),
        StateView::Pairing(u) => Some(u),
        StateView::Initializing(u) => Some(u),
        StateView::Communicating(u) => Some(u),
        StateView::Disconnecting(u) => Some(u),
        StateView::Reconnecting(u, _, _) => Some(u),
        _ => None,
    }
}

/// Whether the state machine itself can be in `s` (it never enters `Reconnecting` or `Zombie`).
pub open spec fn is_machine_state(s: StateView) -> bool {
    !(s is Reconnecting) && !(s is Zombie)
}

impl ReconnectDetails {
    /// A copy of these details.
    pub fn copy(&self) -> (r: ReconnectDetails)
        ensures
            r == *self,
    {
        ReconnectDetails {
            url: self.url.clone(),
            attempts: self.attempts,
            next_attempt_secs: self.next_attempt_secs,
        }
    }
}

impl State {
    /// A copy of this state.
    pub fn copy(&self) -> (r: State)
        ensures
            r == *self,
    {
        match self {
            State::Disconnected => State::Disconnected,
            State::Connecting(u) => State::Connecting(u.clone()),
            State::Connected(u) => State::Connected(u.clone()),
            State::Pairing(u) => State::Pairing(u.clone()),
            State::Initializing(u) => State::Initializing(u.clone()),
            State::Communicating(u) => State::Communicating(u.clone()),
            State::Disconnecting(u) => State::Disconnecting(u.clone()),
            State::Reconnecting(d) => State::Reconnecting(d.copy()),
            State::Zombie => State::Zombie,
        }
    }

    /// Whether this state and `other` are the same.
    pub fn same_as(&self, other: &State) -> (r: bool)
        ensures
            r == (self@ == other@),
    {
        match self {
            State::Disconnected => match other {
                State::Disconnected => true,
                _ => false,
            },
            State::Connecting(a) => match other {
                State::Connecting(b) => str_eq(a.as_str(), b.as_str()),
                _ => false,
            },
            State::Connected(a) => match other {
                State::Connected(b) => str_eq(a.as_str(), b.as_str()),
                _ => false,
            },
            State::Pairing(a) => match other {
                State::Pairing(b) => str_eq(a.as_str(), b.as_str()),
                _ => false,
            },
            State::Initializing(a) => match other {
                State::Initializing(b) => str_eq(a.as_str(), b.as_str()),
                _ => false,
            },
            State::Communicating(a) => match other {
                State::Communicating(b) => str_eq(a.as_str(), b.as_str()),
                _ => false,
            },
            State::Disconnecting(a) => match other {
                State::Disconnecting(b) => str_eq(a.as_str(), b.as_str()),
                _ => false,
            },
            State::Reconnecting(a) => match other {
                State::Reconnecting(b) => {
                    let same_url = str_eq(a.url.as_str(), b.url.as_str());
                    same_url && a.attempts == b.attempts && a.next_attempt_secs
                        == b.next_attempt_secs
                },
                _ => false,
            },
            State::Zombie => match other {
                State::Zombie => true,
                _ => false,
            },
        }
    }

    /// Whether this is the `Disconnected` state.
    pub fn is_disconnected(&self) -> (r: bool)
        ensures
            r == (self@ is Disconnected),
    {
        match self {
            State::Disconnected => true,
            _ => false,
        }
    }

    /// Whether this is a `Communicating` state.
    pub fn is_communicating(&self) -> (r: bool)
        ensures
            r == (self@ is Communicating),
    {
        match self {
            State::Communicating(_) => true,
            _ => false,
        }
    }
}

impl Input {
    /// A copy of this input.
    pub fn copy(&self) -> (r: Input)
        ensures
            r == *self,
    {
        match self {
            Input::Connect(u) => Input::Connect(u.clone()),
            Input::AttemptRegister => Input::AttemptRegister,
            Input::Pair => Input::Pair,
            Input::Initialize => Input::Initialize,
            Input::StartCommunication => Input::StartCommunication,
            Input::SendCommand(c) => Input::SendCommand(*c),
            Input::Reset => Input::Reset,
            Input::Error => Input::Error,
            Input::Disconnect => Input::Disconnect,
            Input::DisconnectionComplete => Input::DisconnectionComplete,
        }
    }
}

/// The state machine's transition function.
pub fn transition(state: &State, input: &Input) -> (r: Option<State>)
    ensures
        match r {
            Some(s) => spec_transition(state@, input@) == Some(s@),
            None => spec_transition(state@, input@) is None,
        },
{
    match (state, input) {
        (State::Disconnected, Input::Connect(url)) => Some(State::Connecting(url.clone())),
        (State::Disconnected, Input::Reset) => Some(State::Disconnected),
        (State::Connecting(url), Input::AttemptRegister) => Some(State::Connected(url.clone())),
        (State::Connecting(_), Input::Reset) => Some(State::Disconnected),
        (State::Connecting(_), Input::Error) => Some(State::Disconnected),
        (State::Connected(url), Input::Pair) => Some(State::Pairing(url.clone())),
        (State::Connected(url), Input::Initialize) => Some(State::Initializing(url.clone())),
        (State::Connected(_), Input::Reset) => Some(State::Disconnected),
        (State::Connected(url), Input::Error) => Some(State::Disconnecting(url.clone())),
        (State::Pairing(url), Input::Initialize) => Some(State::Initializing(url.clone())),
        (State::Pairing(_), Input::Reset) => Some(State::Disconnected),
        (State::Pairing(url), Input::Error) => Some(State::Disconnecting(url.clone())),
        (State::Initializing(url), Input::StartCommunication) => Some(
            State::Communicating(url.clone()),
        ),
        (State::Initializing(_), Input::Reset) => Some(State::Disconnected),
        (State::Initializing(url), Input::Error) => Some(State::Disconnecting(url.clone())),
        (State::Communicating(url), Input::SendCommand(_)) => Some(
            State::Communicating(url.clone()),
        ),
        (State::Communicating(url), Input::Disconnect) => Some(State::Disconnecting(url.clone())),
        (State::Communicating(_), Input::Reset) => Some(State::Disconnected),
        (State::Communicating(url), Input::Error) => Some(State::Disconnecting(url.clone())),
        (State::Disconnecting(_), Input::DisconnectionComplete) => Some(State::Disconnected),
        (State::Disconnecting(_), Input::Reset) => Some(State::Disconnected),
        (State::Disconnecting(_), Input::Error) => Some(State::Disconnected),
        _ => None,
    }
}

/// The state machine's output function.
pub fn output(state: &State, input: &Input) -> (r: Option<Output>)
    ensures
        match r {
            Some(o) => spec_output(state@, input@) == Some(o@),
            None => spec_output(state@, input@) is None,
        },
{
    match (state, input) {
        (State::Disconnected, Input::Connect(url)) => Some(Output::ConnectToTv(url.clone())),
        (State::Connecting(_), Input::AttemptRegister) => Some(Output::SendRegisterPayload),
        (State::Connecting(_), Input::Error) => Some(Output::HandleConnectError),
        (State::Connected(_), Input::Pair) => Some(Output::PairWithTv),
        (State::Connected(_), Input::Initialize) => Some(Output::InitializeConnection),
        (State::Connected(_), Input::Error) => Some(Output::DisconnectFromTv),
        (State::Pairing(_), Input::Initialize) => Some(Output::InitializeConnection),
        (State::Pairing(_), Input::Error) => Some(Output::DisconnectFromTv),
        (State::Initializing(_), Input::Error) => Some(Output::DisconnectFromTv),
        (State::Communicating(_), Input::SendCommand(c)) => Some(Output::SendCommand(*c)),
        (State::Communicating(_), Input::Disconnect) => Some(Output::DisconnectFromTv),
        (State::Communicating(_), Input::Error) => Some(Output::DisconnectFromTv),
        (State::Disconnecting(_), Input::DisconnectionComplete) => Some(
            Output::HandleSuccessfulDisconnect,
        ),
        (State::Disconnecting(_), Input::Error) => Some(Output::HandleDisconnectError),
        _ => None,
    }
}

/// The `{:?}` rendering of a string (`<str as Debug>::fmt`, through `format!`).
pub uninterp spec fn str_debug(s: Seq<char>) -> Seq<char>;

/// Renders `s` as `format!("{:?}", s)` does: quoted, with `Debug` escapes. The contract names
/// the result and claims nothing of the escaping rules.
#[verifier::external_body]
pub(crate) fn debug_string(s: &str) -> (r: String)
    ensures
        r@ == str_debug(s@),
{
    format!("{:?}", s)
}

/// The display text of a state.
pub open spec fn state_display(s: StateView) -> Seq<char> {
    match s {
        StateView::Disconnected => "Disconnected"@,
        StateView::Connecting(u) => "Connecting("@ + u + ")"@,
        StateView::Connected(u) => "Connected("@ + u + ")"@,
        StateView::Pairing(u) => "Pairing("@ + u + ")"@,
        StateView::Initializing(u) => "Initializing("@ + u + ")"@,
        StateView::Communicating(u) => "Communicating("@ + u + ")"@,
        StateView::Disconnecting(u) => "Disconnecting("@ + u + ")"@,
        StateView::Reconnecting(u, a, n) => "Reconnecting(ReconnectDetails { url: "@ + str_debug(u)
            + ", attempts: "@ + decimal(a as nat) + ", next_attempt_secs: "@ + decimal(n as nat)
            + " })"@,
        StateView::Zombie => "Zombie"@,
    }
}

fn push_wrapped(out: &mut String, prefix: &str, url: &String)
    ensures
        final(out)@ == old(out)@ + prefix@ + url@ + ")"@,
{
    push_str(out, prefix);
    push_str(out, url.as_str());
    push_str(out, ")");
}

impl State {
    /// The display text of this state, e.g. `Connecting(wss://10.0.0.1:3001/)`.
    pub fn to_display_string(&self) -> (r: String)
        ensures
            r@ == state_display(self@),
    {
        let mut out = String::new();
        match self {
            State::Disconnected => push_str(&mut out, "Disconnected"),
            State::Connecting(u) => push_wrapped(&mut out, "Connecting(", u),
            State::Connected(u) => push_wrapped(&mut out, "Connected(", u),
            State::Pairing(u) => push_wrapped(&mut out, "Pairing(", u),
            State::Initializing(u) => push_wrapped(&mut out, "Initializing(", u),
            State::Communicating(u) => push_wrapped(&mut out, "Communicating(", u),
            State::Disconnecting(u) => push_wrapped(&mut out, "Disconnecting(", u),
            State::Reconnecting(d) => {
                push_str(&mut out, "Reconnecting(ReconnectDetails { url: ");
                let quoted = debug_string(d.url.as_str());
                push_str(&mut out, quoted.as_str());
                push_str(&mut out, ", attempts: ");
                let a = u64_to_decimal(d.attempts);
                push_str(&mut out, a.as_str());
                push_str(&mut out, ", next_attempt_secs: ");
                let n = u64_to_decimal(d.next_attempt_secs);
                push_str(&mut out, n.as_str());
                push_str(&mut out, " })");
            },
            State::Zombie => push_str(&mut out, "Zombie"),
        }
        assert(out@ =~= state_display(self@));
        out
    }
}



/// The `Debug` text of a state: the variant name, with the quoted URL or the details.
pub open spec fn state_debug(s: StateView) -> Seq<char> {
    match s {
        StateView::Disconnected => "Disconnected"@,
        StateView::Connecting(u) => "Connecting("@ + str_debug(u) + ")"@,
        StateView::Connected(u) => "Connected("@ + str_debug(u) + ")"@,
        StateView::Pairing(u) => "Pairing("@ + str_debug(u) + ")"@,
        StateView::Initializing(u) => "Initializing("@ + str_debug(u) + ")"@,
        StateView::Communicating(u) => "Communicating("@ + str_debug(u) + ")"@,
        StateView::Disconnecting(u) => "Disconnecting("@ + str_debug(u) + ")"@,
        StateView::Reconnecting(_, _, _) => state_display(s),
        StateView::Zombie => "Zombie"@,
    }
}

fn push_debug_wrapped(out: &mut String, prefix: &str, url: &String)
    ensures
        final(out)@ == old(out)@ + prefix@ + str_debug(url@) + ")"@,
{
    push_str(out, prefix);
    let quoted = debug_string(url.as_str());
    push_str(out, quoted.as_str());
    push_str(out, ")");
}

impl State {
    /// The `Debug` text of this state, e.g. `Connecting("wss://10.0.0.1:3001/")`.
    pub fn to_debug_string(&self) -> (r: String)
        ensures
            r@ == state_debug(self@),
    {
        match self {
            State::Disconnected => String::from_str("Disconnected"),
            State::Connecting(u) => {
                let mut out = String::new();
                push_debug_wrapped(&mut out, "Connecting(", u);
                assert(out@ =~= state_debug(self@));
                out
            },
            State::Connected(u) => {
                let mut out = String::new();
                push_debug_wrapped(&mut out, "Connected(", u);
                assert(out@ =~= state_debug(self@));
                out
            },
            State::Pairing(u) => {
                let mut out = String::new();
                push_debug_wrapped(&mut out, "Pairing(", u);
                assert(out@ =~= state_debug(self@));
                out
            },
            State::Initializing(u) => {
                let mut out = String::new();
                push_debug_wrapped(&mut out, "Initializing(", u);
                assert(out@ =~= state_debug(self@));
                out
            },
            State::Communicating(u) => {
                let mut out = String::new();
                push_debug_wrapped(&mut out, "Communicating(", u);
                assert(out@ =~= state_debug(self@));
                out
            },
            State::Disconnecting(u) => {
                let mut out = String::new();
                push_debug_wrapped(&mut out, "Disconnecting(", u);
                assert(out@ =~= state_debug(self@));
                out
            },
            State::Reconnecting(_) => self.to_display_string(),
            State::Zombie => String::from_str("Zombie"),
        }
    }
}

/// `Reset` returns every state of the machine to `Disconnected`, with no output.
pub proof fn law_reset_returns_to_disconnected(s: StateView)
    requires
        is_machine_state(s),
    ensures
        spec_transition(s, InputView::Reset) == Some(StateView::Disconnected),
        spec_output(s, InputView::Reset) is None,
{
}

/// The machine only produces an output on a transition that exists.
pub proof fn law_output_only_on_transition(s: StateView, i: InputView)
    ensures
        spec_output(s, i) is Some ==> spec_transition(s, i) is Some,
{
}

/// `Reconnecting` and `Zombie` have no transitions, and no transition leads into them.
pub proof fn law_outside_states_are_inert(s: StateView, i: InputView)
    ensures
        !is_machine_state(s) ==> spec_transition(s, i) is None,
        spec_transition(s, i) matches Some(t) ==> is_machine_state(t),
{
}

/// A transition never changes the URL of a connection: the URL of the next state is either
/// that of the current state, or the one given by `Connect` from `Disconnected`.
pub proof fn law_transition_keeps_url(s: StateView, i: InputView)
    ensures
        spec_transition(s, i) matches Some(t) ==> (state_url(t) is None || state_url(t)
            == state_url(s) || (s is Disconnected && i == InputView::Connect(state_url(t)->0))),
{
}

/// A connection starts only from `Disconnected`, on `Connect` with the same URL.
pub proof fn law_connect_only_from_disconnected(s: StateView, i: InputView, url: Seq<char>)
    ensures
        spec_transition(s, i) == Some(StateView::Connecting(url)) <==> (s
            == StateView::Disconnected && i == InputView::Connect(url)),
{
}

/// `Communicating` is entered only from `Initializing` on `StartCommunication`, and kept only by
/// sending commands.
pub proof fn law_communicating_only_after_initializing(
    s: StateView,
    i: InputView,
    url: Seq<char>,
)
    ensures
        spec_transition(s, i) == Some(StateView::Communicating(url)) ==> ((s
            == StateView::Initializing(url) && i == InputView::StartCommunication) || (s
            == StateView::Communicating(url) && i is SendCommand)),
{
}

/// Every command sent while communicating is passed on as the output, and the state stays.
pub proof fn law_commands_pass_through(url: Seq<char>, c: TvCommand)
    ensures
        spec_step(StateView::Communicating(url), InputView::SendCommand(c)) == Some(
            (StateView::Communicating(url), Some(OutputView::SendCommand(c))),
        ),
{
}

/// Commands are refused in every state but `Communicating`.
pub proof fn law_commands_need_communicating(s: StateView, c: TvCommand)
    ensures
        spec_transition(s, InputView::SendCommand(c)) is Some <==> s is Communicating,
{
}

/// Two `Error` inputs bring every state of the machine back to `Disconnected`.
pub proof fn law_two_errors_disconnect(s: StateView)
    requires
        is_machine_state(s),
    ensures
        run_inputs(s, seq![InputView::Error, InputView::Error]) == StateView::Disconnected,
{
    let inputs = seq![InputView::Error, InputView::Error];
    let one = seq![InputView::Error];
    assert(inputs.drop_last() =~= one);
    assert(one.drop_last() =~= Seq::<InputView>::empty());
    assert(run_inputs(s, Seq::<InputView>::empty()) == s);
    let mid = run_inputs(s, one);
    assert(mid == (match spec_transition(s, InputView::Error) {
        Some(next) => next,
        None => s,
    }));
    assert(mid is Disconnected || mid is Disconnecting);
    assert(run_inputs(s, inputs) == (match spec_transition(mid, InputView::Error) {
        Some(next) => next,
        None => mid,
    }));
}

/// The documented connection flow: from `Disconnected`, connecting, registering, (pairing,)
/// initializing and starting communication reaches `Communicating` with the URL connected to;
/// disconnecting from there, once complete, returns to `Disconnected`.
pub proof fn law_connection_flow(url: Seq<char>)
    ensures
        run_inputs(
            StateView::Disconnected,
            seq![
                InputView::Connect(url),
                InputView::AttemptRegister,
                InputView::Pair,
                InputView::Initialize,
                InputView::StartCommunication,
            ],
        ) == StateView::Communicating(url),
        run_inputs(
            StateView::Disconnected,
            seq![
                InputView::Connect(url),
                InputView::AttemptRegister,
                InputView::Initialize,
                InputView::StartCommunication,
            ],
        ) == StateView::Communicating(url),
        run_inputs(
            StateView::Communicating(url),
            seq![InputView::Disconnect, InputView::DisconnectionComplete],
        ) == StateView::Disconnected,
{
    reveal_with_fuel(run_inputs, 6);
    let paired = seq![
        InputView::Connect(url),
        InputView::AttemptRegister,
        InputView::Pair,
        InputView::Initialize,
        InputView::StartCommunication,
    ];
    assert(paired.drop_last() =~= seq![
        InputView::Connect(url),
        InputView::AttemptRegister,
        InputView::Pair,
        InputView::Initialize,
    ]);
    assert(paired.drop_last().drop_last() =~= seq![
        InputView::Connect(url),
        InputView::AttemptRegister,
        InputView::Pair,
    ]);
    assert(paired.drop_last().drop_last().drop_last() =~= seq![
        InputView::Connect(url),
        InputView::AttemptRegister,
    ]);
    assert(paired.drop_last().drop_last().drop_last().drop_last() =~= seq![InputView::Connect(url)]);
    assert(seq![InputView::Connect(url)].drop_last() =~= Seq::<InputView>::empty());
    let direct = seq![
        InputView::Connect(url),
        InputView::AttemptRegister,
        InputView::Initialize,
        InputView::StartCommunication,
    ];
    assert(direct.drop_last() =~= seq![
        InputView::Connect(url),
        InputView::AttemptRegister,
        InputView::Initialize,
    ]);
    assert(direct.drop_last().drop_last() =~= seq![
        InputView::Connect(url),
        InputView::AttemptRegister,
    ]);
    let leave = seq![InputView::Disconnect, InputView::DisconnectionComplete];
    assert(leave.drop_last() =~= seq![InputView::Disconnect]);
    assert(seq![InputView::Disconnect].drop_last() =~= Seq::<InputView>::empty());
}

/// Every way into `Initializing` asks for the connection to be initialized: from `Connected`
/// (the TV accepted the known client key) as from `Pairing` (the user accepted the pairing),
/// `Initialize` moves on with the same URL and outputs `InitializeConnection`.
pub proof fn law_initializing_always_initializes(s: StateView, i: InputView, url: Seq<char>)
    ensures
        spec_transition(s, i) == Some(StateView::Initializing(url)) ==> spec_output(s, i) == Some(
            OutputView::InitializeConnection,
        ),
        spec_step(StateView::Connected(url), InputView::Initialize) == Some(
            (StateView::Initializing(url), Some(OutputView::InitializeConnection)),
        ),
        spec_step(StateView::Pairing(url), InputView::Initialize) == Some(
            (StateView::Initializing(url), Some(OutputView::InitializeConnection)),
        ),
{
}

/// Running the machine from one of its own states never leaves its own states.
pub proof fn law_runs_stay_in_machine(s: StateView, inputs: Seq<InputView>)
    requires
        is_machine_state(s),
    ensures
        is_machine_state(run_inputs(s, inputs)),
    decreases inputs.len(),
{
    if inputs.len() > 0 {
        law_runs_stay_in_machine(s, inputs.drop_last());
    }
}

} // verus!
