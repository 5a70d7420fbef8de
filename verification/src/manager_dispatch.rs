//! The manager's reactions to each kind of event.

use vstd::prelude::*;

use crate::commands::{new_message_id, TvCommand};
use crate::connection_settings::Connection;
use crate::discovery::LgTvDevice;
use crate::json::push_str;
use crate::manager::{actions_view, push_action, ActionView, ManagerAction, ManagerEnv, ManagerError, ManagerMessage, ManagerOutputMessage, OutputView, PersistedState, ReconnectFlowStatus, TestStatus};
use crate::manager_core::{fresh_ids, grew, persisted_of, spec_command_payload, spec_initialize_connection, spec_manager_message, spec_output_event, spec_send_register, spec_startup, spec_state_machine_update, spec_tv_on_network, spec_tv_response, spec_volume_report, spec_wake, spec_ws_error, spec_ws_update, spec_zombie, spec_force_reset, wake_available, ManagerCore};
use crate::helpers::url_ip_addr;
use crate::net::{parse_mac, MacAddress};
use crate::register::generate_register_request;
use crate::ssap_payloads::{clone_opt_string, LgTvResponse, LgTvResponsePayload};
use crate::state::TvInfo;
use crate::state_machine::{debug_string, Input, Output, State, StateMachineUpdateMessage};
use crate::text::{contains_str, str_eq};
use crate::websocket::{WsMessage, WsStatus, WsUpdateMessage};

verus! {

impl ManagerCore {
    /// Sends the registration request (see `spec_send_register`).
    pub(crate) fn send_register(&mut self, env: &ManagerEnv, out: &mut Vec<ManagerAction>)
        ensures
            exists|id: Seq<char>|
                #![trigger crate::commands::is_hyphenated_uuid(id)]
                crate::commands::is_hyphenated_uuid(id) && ({
                    let (c2, a) = spec_send_register(old(self)@, *env, id);
                    final(self)@ == c2 && grew(old(out)@, final(out)@, a)
                }),
    {
        proof {
            reveal(spec_send_register);
        }
        let id = new_message_id();
        let force = match &self.connection_details {
            Some(c) => c.settings().force_pairing,
            None => false,
        };
        let key = clone_opt_string(&self.client_key);
        match generate_register_request(self.register_payload.as_str(), key, force, id.as_str()) {
            Ok(text) => self.send_to_ws(WsMessage::Payload(text), out),
            Err(e) => self.force_reset(e.as_str(), env, out),
        }
        assert(crate::commands::is_hyphenated_uuid(id@));
    }

    /// Initializes a new connection (see `spec_initialize_connection`).
    pub(crate) fn initialize_connection(&mut self, out: &mut Vec<ManagerAction>)
        ensures
            exists|ids: Seq<Seq<char>>|
                #![trigger fresh_ids(ids)]
                fresh_ids(ids) && ids.len() == 6 && ({
                    let (c2, a) = spec_initialize_connection(old(self)@, ids);
                    final(self)@ == c2 && grew(old(out)@, final(out)@, a)
                }),
    {
        proof {
            reveal(spec_initialize_connection);
        }
        let ghost start = out@;
        let id0 = new_message_id();
        self.send_to_ws(WsMessage::Payload(TvCommand::GetCurrentSWInfo.to_payload_with_id(id0.as_str())), out);
        let id1 = new_message_id();
        self.send_to_ws(WsMessage::Payload(TvCommand::GetExternalInputList.to_payload_with_id(id1.as_str())), out);
        let id2 = new_message_id();
        self.send_to_ws(WsMessage::Payload(TvCommand::GetPowerState.to_payload_with_id(id2.as_str())), out);
        let id3 = new_message_id();
        self.send_to_ws(WsMessage::Payload(TvCommand::GetSystemInfo.to_payload_with_id(id3.as_str())), out);
        let id4 = new_message_id();
        self.send_to_ws(WsMessage::Payload(TvCommand::SubscribeGetVolume.to_payload_with_id(id4.as_str())), out);
        let id5 = new_message_id();
        self.send_to_ws(WsMessage::Payload(TvCommand::SubscribeGetPowerState.to_payload_with_id(id5.as_str())), out);
        match &self.connection_details {
            Some(c) => {
                self.last_good_connection = Some(c.copy());
            },
            None => {},
        }
        let ghost ids = seq![id0@, id1@, id2@, id3@, id4@, id5@];
        assert(fresh_ids(ids)) by {
            assert forall|i: int| 0 <= i < ids.len() implies crate::commands::is_hyphenated_uuid(#[trigger] ids[i]) by {
                if i == 0 {} else if i == 1 {} else if i == 2 {} else if i == 3 {} else if i == 4 {} else {}
            }
        }
        let ghost (c2, a) = spec_initialize_connection(old(self)@, ids);
        assert(actions_view(out@) =~= actions_view(start) + a);
        assert(final(self)@ == c2);
    }
}


impl ManagerCore {
    fn output_connect_error(&mut self, env: &ManagerEnv, out: &mut Vec<ManagerAction>)
        ensures
            ({
                let (c2, a) = spec_output_event(
                    old(self)@,
                    Output::HandleConnectError,
                    *env,
                    Seq::empty(),
                );
                final(self)@ == c2 && grew(old(out)@, final(out)@, a)
            }),
    {
        let ghost start = out@;
        self.force_reset("A WebSocket connection error occurred", env, out);
        if self.should_retry_connect_failure() {
            if self.reconnect_flow_status == ReconnectFlowStatus::Active {
                self.initiate_reconnect(false, env, out);
            } else if self.reconnect_flow_status == ReconnectFlowStatus::Cancelled {
                self.set_flow(ReconnectFlowStatus::Inactive, out);
            }
        }
        let ghost (c2, a) = spec_output_event(
            old(self)@,
            Output::HandleConnectError,
            *env,
            Seq::empty(),
        );
        assert(actions_view(out@) =~= actions_view(start) + a);
    }

    fn output_register(&mut self, env: &ManagerEnv, out: &mut Vec<ManagerAction>)
        ensures
            exists|ids: Seq<Seq<char>>|
                #![trigger fresh_ids(ids)]
                fresh_ids(ids) && ({
                    let (c2, a) = spec_output_event(
                        old(self)@,
                        Output::SendRegisterPayload,
                        *env,
                        ids,
                    );
                    final(self)@ == c2 && grew(old(out)@, final(out)@, a)
                }),
    {
        let ghost start = out@;
        self.set_flow(ReconnectFlowStatus::Inactive, out);
        self.session_connection_count = self.session_connection_count.wrapping_add(1);
        let ghost mid_self = self@;
        let ghost mid = out@;
        self.send_register(env, out);
        let ghost id = choose|id: Seq<char>|
            #![trigger crate::commands::is_hyphenated_uuid(id)]
            crate::commands::is_hyphenated_uuid(id) && ({
                let (c2, a) = spec_send_register(mid_self, *env, id);
                self@ == c2 && grew(mid, out@, a)
            });
        let ghost ids = seq![id];
        let ghost (c2, a) = spec_output_event(old(self)@, Output::SendRegisterPayload, *env, ids);
        assert(actions_view(out@) =~= actions_view(start) + a);
        assert(fresh_ids(ids));
    }

    /// Reacts to an output of the state machine (see `spec_output_event`).
    pub(crate) fn handle_output(&mut self, o: Output, env: &ManagerEnv, out: &mut Vec<ManagerAction>)
        ensures
            exists|ids: Seq<Seq<char>>|
                #![trigger fresh_ids(ids)]
                fresh_ids(ids) && ({
                    let (c2, a) = spec_output_event(old(self)@, o, *env, ids);
                    final(self)@ == c2 && grew(old(out)@, final(out)@, a)
                }),
    {
        let ghost start = out@;
        let ghost o0 = o;
        match o {
            Output::ConnectToTv(host) => {
                let is_tls = match &self.connection_details {
                    Some(Connection::Host(_, s)) => s.is_tls,
                    Some(Connection::Device(_, _)) => true,
                    None => true,
                };
                self.has_websocket_channel = true;
                self.has_websocket_task = true;
                push_action(out, ManagerAction::StartWebSocket(host, is_tls));
                let ghost (c2, a) = spec_output_event(old(self)@, o0, *env, Seq::empty());
                assert(actions_view(out@) =~= actions_view(start) + a);
                assert(fresh_ids(Seq::<Seq<char>>::empty()));
            },
            Output::SendRegisterPayload => {
                self.output_register(env, out);
            },
            Output::PairWithTv => {
                assert(actions_view(out@) =~= actions_view(start) + Seq::<ActionView>::empty());
                assert(fresh_ids(Seq::<Seq<char>>::empty()));
            },
            Output::InitializeConnection => {
                self.initialize_connection(out);
            },
            Output::SendCommand(cmd) => {
                let id = new_message_id();
                let payload = cmd.to_payload_with_id(id.as_str());
                self.send_to_ws(WsMessage::Payload(payload), out);
                let ghost ids = seq![id@];
                assert(fresh_ids(ids));
                let ghost (c2, a) = spec_output_event(old(self)@, o0, *env, ids);
                assert(actions_view(out@) =~= actions_view(start) + a);
            },
            Output::DisconnectFromTv => {
                self.prepare_reconnect(env, out);
                self.initiate_disconnect(out);
                let ghost (c2, a) = spec_output_event(old(self)@, o0, *env, Seq::empty());
                assert(actions_view(out@) =~= actions_view(start) + a);
                assert(fresh_ids(Seq::<Seq<char>>::empty()));
            },
            Output::HandleSuccessfulDisconnect => {
                self.successful_disconnect(env, out);
                assert(fresh_ids(Seq::<Seq<char>>::empty()));
                let ghost (c2, a) = spec_output_event(old(self)@, o0, *env, Seq::empty());
                assert(final(self)@ == c2);
            },
            Output::HandleConnectError => {
                self.output_connect_error(env, out);
                assert(fresh_ids(Seq::<Seq<char>>::empty()));
            },
            Output::HandleDisconnectError => {
                self.force_reset("A WebSocket disconnect error occurred", env, out);
                assert(fresh_ids(Seq::<Seq<char>>::empty()));
                let ghost (c2, a) = spec_output_event(old(self)@, o0, *env, Seq::empty());
                assert(final(self)@ == c2);
            },
        }
    }
}


impl ManagerCore {
    /// Reacts to a message from the state machine task (see `spec_state_machine_update`).
    /// Requests sent to the TV carry fresh random message ids.
    pub fn handle_state_machine_update(
        &mut self,
        update: StateMachineUpdateMessage,
        env: &ManagerEnv,
    ) -> (r: Vec<ManagerAction>)
        ensures
            exists|ids: Seq<Seq<char>>|
                #![trigger fresh_ids(ids)]
                fresh_ids(ids) && ({
                    let (c2, a) = spec_state_machine_update(old(self)@, update, *env, ids);
                    final(self)@ == c2 && actions_view(r@) == a
                }),
    {
        let mut out: Vec<ManagerAction> = Vec::new();
        let ghost u0 = update;
        proof {
            assert(actions_view(out@) =~= Seq::<ActionView>::empty());
        }
        match update {
            StateMachineUpdateMessage::State(s) => {
                self.set_status(s, &mut out);
                assert(fresh_ids(Seq::<Seq<char>>::empty()));
                let ghost (c2, a) = spec_state_machine_update(old(self)@, u0, *env, Seq::empty());
                assert(actions_view(out@) =~= a);
            },
            StateMachineUpdateMessage::Output(o) => {
                self.handle_output(o, env, &mut out);
                assert(actions_view(out@) =~= Seq::<ActionView>::empty() + actions_view(out@));
            },
            StateMachineUpdateMessage::TransitionError(e) => {
                push_action(&mut out, ManagerAction::Emit(ManagerOutputMessage::Error(ManagerError::Action(e))));
                assert(fresh_ids(Seq::<Seq<char>>::empty()));
                let ghost (c2, a) = spec_state_machine_update(old(self)@, u0, *env, Seq::empty());
                assert(actions_view(out@) =~= a);
            },
        }
        out
    }

    fn ws_error(&mut self, msg: String, env: &ManagerEnv, out: &mut Vec<ManagerAction>)
        ensures
            ({
                let (c2, a) = spec_ws_error(old(self)@, msg@, *env);
                final(self)@ == c2 && grew(old(out)@, final(out)@, a)
            }),
    {
        let ghost start = out@;
        let ghost m = msg@;
        self.prepare_reconnect(env, out);
        self.send_to_fsm(Input::Error, out);
        push_action(out, ManagerAction::Emit(ManagerOutputMessage::Error(ManagerError::Connection(msg))));
        let ghost (c2, a) = spec_ws_error(old(self)@, m, *env);
        assert(actions_view(out@) =~= actions_view(start) + a);
    }

    /// Reacts to a message from the WebSocket handler (see `spec_ws_update`). Text payloads
    /// are not handled here: the runner parses them and calls `handle_tv_response`.
    pub fn handle_websocket_update(&mut self, update: WsUpdateMessage, env: &ManagerEnv) -> (r: Vec<
        ManagerAction,
    >)
        ensures
            ({
                let (c2, a) = spec_ws_update(old(self)@, update, *env);
                final(self)@ == c2 && actions_view(r@) == a
            }),
    {
        let mut out: Vec<ManagerAction> = Vec::new();
        let ghost u0 = update;
        proof {
            assert(actions_view(out@) =~= Seq::<ActionView>::empty());
        }
        match update {
            WsUpdateMessage::Status(st) => match st {
                WsStatus::Idle => {},
                WsStatus::Connected => self.send_to_fsm(Input::AttemptRegister, &mut out),
                WsStatus::Disconnected => self.send_to_fsm(Input::DisconnectionComplete, &mut out),
                WsStatus::ConnectError(e) => {
                    let mut msg = String::from_str("WebSocket connect error: ");
                    let d = debug_string(e.as_str());
                    push_str(&mut msg, d.as_str());
                    self.ws_error(msg, env, &mut out);
                },
                WsStatus::MessageReadError(e) => {
                    let mut msg = String::from_str("WebSocket message read error: ");
                    let d = debug_string(e.as_str());
                    push_str(&mut msg, d.as_str());
                    self.ws_error(msg, env, &mut out);
                },
                WsStatus::ServerClosedConnection => {
                    self.ws_error(String::from_str("Server closed connection"), env, &mut out);
                },
            },
            WsUpdateMessage::Payload(_) => {},
            WsUpdateMessage::IsConnectionOk(ok) => {
                push_action(
                    &mut out,
                    ManagerAction::Emit(
                        ManagerOutputMessage::ConnectionTestStatus(
                            if ok {
                                TestStatus::Passed
                            } else {
                                TestStatus::Failed
                            },
                        ),
                    ),
                );
                if !ok {
                    self.send_to_fsm(Input::Error, &mut out);
                    push_action(
                        &mut out,
                        ManagerAction::Emit(
                            ManagerOutputMessage::Error(
                                ManagerError::Connection(
                                    String::from_str("WebSocket connection test failed"),
                                ),
                            ),
                        ),
                    );
                }
            },
        }
        let ghost (c2, a) = spec_ws_update(old(self)@, u0, *env);
        assert(actions_view(out@) =~= a);
        out
    }
}


impl ManagerCore {
    /// The state to persist: URL, client key and MAC address text.
    pub fn persisted_state(&self) -> (r: PersistedState)
        ensures
            r@ == persisted_of(self@),
    {
        PersistedState {
            ws_url: clone_opt_string(&self.ws_url),
            client_key: clone_opt_string(&self.client_key),
            mac_addr: match &self.mac_addr {
                Some(m) => Some(m.to_text()),
                None => None,
            },
        }
    }

    fn volume_report(&mut self, volume: u8, muted: bool, settable: bool, out: &mut Vec<ManagerAction>)
        ensures
            ({
                let (c2, a) = spec_volume_report(old(self)@, volume, muted, settable);
                final(self)@ == c2 && grew(old(out)@, final(out)@, a)
            }),
    {
        let ghost start = out@;
        if !self.is_connection_initialized {
            self.send_to_fsm(Input::StartCommunication, out);
            self.is_connection_initialized = true;
            match &self.ws_url {
                Some(u) => match url_ip_addr(u.as_str()) {
                    Some(ip) => push_action(out, ManagerAction::SetHostIp(ip)),
                    None => {},
                },
                None => {},
            }
        }
        self.tv_state.volume = Some(volume);
        self.tv_state.is_muted = Some(muted);
        self.tv_state.is_volume_settable = Some(settable);
        push_action(out, ManagerAction::Emit(ManagerOutputMessage::TvState(self.tv_state.copy())));
        let ghost (c2, a) = spec_volume_report(old(self)@, volume, muted, settable);
        assert(actions_view(out@) =~= actions_view(start) + a);
    }

    fn command_payload(&mut self, p: LgTvResponsePayload, out: &mut Vec<ManagerAction>)
        ensures
            ({
                let (c2, a) = spec_command_payload(old(self)@, p);
                final(self)@ == c2 && grew(old(out)@, final(out)@, a)
            }),
    {
        let ghost start = out@;
        let ghost p0 = p;
        match p {
            LgTvResponsePayload::CurrentSwInfo(sw) => {
                let shown = sw.copy();
                self.tv_software_info = Some(sw);
                push_action(out, ManagerAction::Emit(ManagerOutputMessage::TvSoftwareInfo(Box::new(Some(shown)))));
            },
            LgTvResponsePayload::GetExternalInputList(list) => {
                let shown = crate::ssap_payloads::copy_inputs(&list.devices);
                self.tv_inputs = Some(list.devices);
                push_action(out, ManagerAction::Emit(ManagerOutputMessage::TvInputs(Some(shown))));
            },
            LgTvResponsePayload::GetPowerState(ps) => {
                self.tv_state.power_state = Some(ps.state);
                push_action(out, ManagerAction::Emit(ManagerOutputMessage::TvState(self.tv_state.copy())));
            },
            LgTvResponsePayload::GetSystemInfo(si) => {
                let info = TvInfo::from_system_info(si);
                let shown = info.copy();
                self.tv_info = Some(info);
                push_action(out, ManagerAction::Emit(ManagerOutputMessage::TvInfo(Some(shown))));
            },
            LgTvResponsePayload::GetVolumeVariantA(v) => {
                self.volume_report(
                    v.volume_status.volume,
                    v.volume_status.mute_status,
                    v.volume_status.adjust_volume,
                    out,
                );
            },
            LgTvResponsePayload::GetVolumeVariantB(v) => {
                self.volume_report(v.volume, v.muted, v.supportvolume, out);
            },
            LgTvResponsePayload::Pair(pair) => {
                if str_eq(pair.pairing_type.as_str(), "PROMPT") {
                    self.send_to_fsm(Input::Pair, out);
                } else {
                    let mut msg = String::from_str("Unexpected pair type: ");
                    push_str(&mut msg, pair.pairing_type.as_str());
                    self.send_to_fsm(Input::Error, out);
                    push_action(out, ManagerAction::Emit(ManagerOutputMessage::Error(ManagerError::Pair(msg))));
                }
            },
            LgTvResponsePayload::SetScreenOn(so) => {
                self.tv_state.is_screen_on = Some(str_eq(so.state.as_str(), "Active"));
                push_action(out, ManagerAction::Emit(ManagerOutputMessage::TvState(self.tv_state.copy())));
            },
            _ => {},
        }
        let ghost (c2, a) = spec_command_payload(old(self)@, p0);
        assert(actions_view(out@) =~= actions_view(start) + a);
    }

    /// Reacts to a message from the TV (see `spec_tv_response`): `Err` when there is no state
    /// machine to drive, with no action.
    pub fn handle_tv_response(&mut self, resp: LgTvResponse) -> (r: Result<Vec<ManagerAction>, String>)
        ensures
            ({
                let (c2, a, res) = spec_tv_response(old(self)@, resp);
                &&& final(self)@ == c2
                &&& match r {
                    Ok(v) => res is Ok && actions_view(v@) == a,
                    Err(e) => res == Err::<(), Seq<char>>(e@) && a.len() == 0,
                }
            }),
    {
        if !self.has_state_machine {
            return Err(String::from_str("Cannot handle LG response payload without a FSM tx channel"));
        }
        let mut out: Vec<ManagerAction> = Vec::new();
        let ghost r0 = resp;
        proof {
            assert(actions_view(out@) =~= Seq::<ActionView>::empty());
        }
        match resp {
            LgTvResponse::Command(cr) => {
                self.command_payload(cr.payload, &mut out);
            },
            LgTvResponse::Registered(reg) => {
                self.client_key = Some(reg.client_key);
                push_action(&mut out, ManagerAction::WritePersistedState(self.persisted_state()));
                self.send_to_fsm(Input::Initialize, &mut out);
            },
            LgTvResponse::Error(err) => {
                let pairing = match &err.error {
                    Some(e) => contains_str(e.as_str(), "pairing") || contains_str(e.as_str(), "403 cancelled"),
                    None => false,
                };
                let shown = match err.error {
                    Some(e) => e,
                    None => String::from_str("Unknown TV error"),
                };
                push_action(&mut out, ManagerAction::Emit(ManagerOutputMessage::TvError(shown)));
                if pairing {
                    self.send_to_fsm(Input::Error, &mut out);
                }
            },
        }
        let ghost (c2, a, res) = spec_tv_response(old(self)@, r0);
        assert(actions_view(out@) =~= a);
        Ok(out)
    }
}


impl ManagerCore {
    fn wake(&self, env: &ManagerEnv, out: &mut Vec<ManagerAction>)
        ensures
            grew(old(out)@, final(out)@, spec_wake(*env)),
    {
        let ghost start = out@;
        match &env.persisted {
            Err(e) => {
                let mut msg = String::from_str("Cannot send Wake-on-LAN: Cannot read persisted data: ");
                push_str(&mut msg, e.as_str());
                push_action(out, ManagerAction::Emit(ManagerOutputMessage::Error(ManagerError::Action(msg))));
            },
            Ok(p) => match (&p.ws_url, &p.mac_addr) {
                (Some(u), Some(m)) => {
                    let ip = url_ip_addr(u.as_str());
                    let mac = parse_mac(m.as_str());
                    match (ip, mac) {
                        (Some(ip), Some(MacAddress::V6(bytes))) => {
                            push_action(out, ManagerAction::SendWakeOnLan(ip, bytes));
                        },
                        _ => {
                            let mut msg = String::from_str(
                                "Cannot send Wake-on-LAN: Cannot determine host IP and MAC from URL: ",
                            );
                            push_str(&mut msg, u.as_str());
                            push_str(&mut msg, " MAC: ");
                            push_str(&mut msg, m.as_str());
                            push_action(out, ManagerAction::Emit(ManagerOutputMessage::Error(ManagerError::Action(msg))));
                        },
                    }
                },
                _ => {
                    push_action(
                        out,
                        ManagerAction::Emit(
                            ManagerOutputMessage::Error(
                                ManagerError::Action(
                                    String::from_str(
                                        "Cannot send Wake-on-LAN: Missing WebSocket URL or MAC address",
                                    ),
                                ),
                            ),
                        ),
                    );
                },
            },
        }
        assert(actions_view(out@) =~= actions_view(start) + spec_wake(*env));
    }

    /// Reacts to a message from the caller (see `spec_manager_message`).
    pub fn handle_manager_message(&mut self, msg: ManagerMessage, env: &ManagerEnv) -> (r: Vec<
        ManagerAction,
    >)
        ensures
            ({
                let (c2, a) = spec_manager_message(old(self)@, msg, *env);
                final(self)@ == c2 && actions_view(r@) == a
            }),
    {
        let mut out: Vec<ManagerAction> = Vec::new();
        let ghost m0 = msg;
        proof {
            assert(actions_view(out@) =~= Seq::<ActionView>::empty());
        }
        match msg {
            ManagerMessage::CancelReconnect => {
                if self.reconnect_flow_status == ReconnectFlowStatus::Active {
                    self.set_flow(ReconnectFlowStatus::Cancelled, &mut out);
                }
            },
            ManagerMessage::Connect(conn) => {
                self.connect_reporting(conn, env, &mut out);
            },
            ManagerMessage::ConnectLastGoodConnection => {
                match &self.last_good_connection {
                    Some(conn) => {
                        let conn = conn.copy();
                        self.connect_reporting(conn, env, &mut out);
                    },
                    None => {},
                }
            },
            ManagerMessage::Disconnect => {
                self.send_to_fsm(Input::Disconnect, &mut out);
                self.is_manual_disconnect_requested = true;
            },
            ManagerMessage::Discover => {
                push_action(&mut out, ManagerAction::StartDiscovery);
            },
            ManagerMessage::EmitAllState => {
                push_action(&mut out, ManagerAction::Emit(ManagerOutputMessage::Status(self.manager_status.copy())));
                self.emit_tv_details(env, &mut out);
            },
            ManagerMessage::SendTvCommand(cmd) => {
                self.send_to_fsm(Input::SendCommand(cmd), &mut out);
            },
            ManagerMessage::ShutDown => {
                push_action(&mut out, ManagerAction::StopStateMachine);
                self.initiate_disconnect(&mut out);
                push_action(&mut out, ManagerAction::Exit);
            },
            ManagerMessage::TestConnection => {
                if self.is_connection_initialized {
                    push_action(&mut out, ManagerAction::Emit(ManagerOutputMessage::ConnectionTestStatus(TestStatus::InProgress)));
                    self.send_to_ws(WsMessage::TestConnection, &mut out);
                } else {
                    push_action(&mut out, ManagerAction::Emit(ManagerOutputMessage::ConnectionTestStatus(TestStatus::Failed)));
                }
            },
            ManagerMessage::TestTvOnNetwork => {
                push_action(&mut out, ManagerAction::RequestNetworkCheck);
            },
            ManagerMessage::WakeLastSeenTv => {
                self.wake(env, &mut out);
            },
        }
        let ghost (c2, a) = spec_manager_message(old(self)@, m0, *env);
        assert(actions_view(out@) =~= a);
        out
    }

    /// Reacts to a network check result (see `spec_tv_on_network`).
    pub fn handle_tv_on_network(&mut self, env: &ManagerEnv) -> (r: Vec<ManagerAction>)
        ensures
            ({
                let (c2, a) = spec_tv_on_network(old(self)@, *env);
                final(self)@ == c2 && actions_view(r@) == a
            }),
    {
        let mut out: Vec<ManagerAction> = Vec::new();
        let on = env.is_tv_on_network;
        let was = self.was_on_network;
        push_action(
            &mut out,
            ManagerAction::Emit(
                ManagerOutputMessage::TvOnNetworkTestStatus(
                    if on {
                        TestStatus::Passed
                    } else {
                        TestStatus::Failed
                    },
                ),
            ),
        );
        push_action(
            &mut out,
            ManagerAction::Emit(
                ManagerOutputMessage::IsWakeLastSeenTvAvailable(on && self.mac_addr.is_some()),
            ),
        );
        if was && !on {
            if self.manager_status.is_disconnected() {
                let flow = if self.is_auto_reconnect_enabled() {
                    ReconnectFlowStatus::WaitingForTvOnNetwork
                } else {
                    ReconnectFlowStatus::Inactive
                };
                self.set_flow(flow, &mut out);
            } else {
                self.send_to_fsm(Input::Error, &mut out);
                push_action(
                    &mut out,
                    ManagerAction::Emit(
                        ManagerOutputMessage::Error(
                            ManagerError::Connection(
                                String::from_str("TV host is not available on the network"),
                            ),
                        ),
                    ),
                );
            }
        }
        if !was && on && self.reconnect_flow_status == ReconnectFlowStatus::WaitingForTvOnNetwork {
            self.initiate_reconnect(true, env, &mut out);
        }
        self.was_on_network = on;
        let ghost (c2, a) = spec_tv_on_network(old(self)@, *env);
        assert(actions_view(out@) =~= a);
        out
    }

    /// Reacts to the network checker starting or ending a ping: a started ping is announced as
    /// an in-progress network test.
    pub fn handle_testing_tv_on_network(&self, is_testing: bool) -> (r: Vec<ManagerAction>)
        ensures
            actions_view(r@) == (if is_testing {
                seq![
                    ActionView::Emit(OutputView::TvOnNetworkTestStatus(TestStatus::InProgress)),
                ]
            } else {
                Seq::<ActionView>::empty()
            }),
    {
        let mut out: Vec<ManagerAction> = Vec::new();
        proof {
            assert(actions_view(out@) =~= Seq::<ActionView>::empty());
        }
        if is_testing {
            push_action(&mut out, ManagerAction::Emit(ManagerOutputMessage::TvOnNetworkTestStatus(TestStatus::InProgress)));
        }
        out
    }

    /// Starts the manager once its state machine runs (see `spec_startup`).
    pub fn startup(&mut self, env: &ManagerEnv) -> (r: Vec<ManagerAction>)
        ensures
            ({
                let (c2, a) = spec_startup(old(self)@, *env);
                final(self)@ == c2 && actions_view(r@) == a
            }),
    {
        let mut out: Vec<ManagerAction> = Vec::new();
        proof {
            assert(actions_view(out@) =~= Seq::<ActionView>::empty());
        }
        self.has_state_machine = true;
        self.initialize(env, &mut out);
        match &self.ws_url {
            Some(u) => match url_ip_addr(u.as_str()) {
                Some(ip) => push_action(&mut out, ManagerAction::SetHostIp(ip)),
                None => {},
            },
            None => {},
        }
        push_action(&mut out, ManagerAction::Emit(ManagerOutputMessage::Status(self.manager_status.copy())));
        self.set_flow(ReconnectFlowStatus::Inactive, &mut out);
        let ghost (c2, a) = spec_startup(old(self)@, *env);
        assert(actions_view(out@) =~= a);
        out
    }

    /// The state machine's channel closed: the manager becomes a zombie (see `spec_zombie`).
    pub fn on_state_machine_channel_closed(&mut self) -> (r: Vec<ManagerAction>)
        ensures
            ({
                let (c2, a) = spec_zombie(
                    old(self)@,
                    "The channel to the state machine has unexpectedly closed"@,
                );
                final(self)@ == c2 && actions_view(r@) == a
            }),
    {
        let mut out: Vec<ManagerAction> = Vec::new();
        proof {
            assert(actions_view(out@) =~= Seq::<ActionView>::empty());
        }
        push_action(
            &mut out,
            ManagerAction::Emit(
                ManagerOutputMessage::Error(
                    ManagerError::Fatal(
                        String::from_str("The channel to the state machine has unexpectedly closed"),
                    ),
                ),
            ),
        );
        self.set_status(State::Zombie, &mut out);
        let ghost (c2, a) = spec_zombie(
            old(self)@,
            "The channel to the state machine has unexpectedly closed"@,
        );
        assert(actions_view(out@) =~= a);
        out
    }

    /// The WebSocket handler's channel closed: the manager resets.
    pub fn on_websocket_channel_closed(&mut self, env: &ManagerEnv) -> (r: Vec<ManagerAction>)
        ensures
            ({
                let (c2, a) = spec_force_reset(
                    old(self)@,
                    "Cannot send message to WebSocket handler: channel unexpectedly closed"@,
                    *env,
                );
                final(self)@ == c2 && actions_view(r@) == a
            }),
    {
        let mut out: Vec<ManagerAction> = Vec::new();
        proof {
            assert(actions_view(out@) =~= Seq::<ActionView>::empty());
        }
        self.force_reset(
            "Cannot send message to WebSocket handler: channel unexpectedly closed",
            env,
            &mut out,
        );
        assert(actions_view(out@) =~= Seq::<ActionView>::empty() + actions_view(out@));
        out
    }

    /// The persisted state was written: whether waking is possible is announced.
    pub fn on_persisted_state_written(&self, env: &ManagerEnv) -> (r: Vec<ManagerAction>)
        ensures
            actions_view(r@) == seq![
                ActionView::Emit(OutputView::IsWakeLastSeenTvAvailable(wake_available(self@, *env))),
            ],
    {
        let mut out: Vec<ManagerAction> = Vec::new();
        proof {
            assert(actions_view(out@) =~= Seq::<ActionView>::empty());
        }
        push_action(
            &mut out,
            ManagerAction::Emit(
                ManagerOutputMessage::IsWakeLastSeenTvAvailable(
                    env.is_tv_on_network && self.mac_addr.is_some(),
                ),
            ),
        );
        assert(actions_view(out@) =~= seq![
            ActionView::Emit(OutputView::IsWakeLastSeenTvAvailable(wake_available(self@, *env))),
        ]);
        out
    }

    /// Sending the Wake-on-LAN packet failed with the error text `err`.
    pub fn on_wake_on_lan_failed(&self, err: &str) -> (r: Vec<ManagerAction>)
        ensures
            actions_view(r@) == seq![
                ActionView::Emit(
                    OutputView::Error(
                        crate::manager::ManagerErrorView::Action(
                            "Cannot send Wake-on-LAN: Send error: "@ + err@,
                        ),
                    ),
                ),
            ],
    {
        let mut out: Vec<ManagerAction> = Vec::new();
        proof {
            assert(actions_view(out@) =~= Seq::<ActionView>::empty());
        }
        let mut msg = String::from_str("Cannot send Wake-on-LAN: Send error: ");
        push_str(&mut msg, err);
        push_action(&mut out, ManagerAction::Emit(ManagerOutputMessage::Error(ManagerError::Action(msg))));
        out
    }
}


/// Seconds between a lost connection and the reconnect attempt.
pub const RECONNECT_INTERVAL_SECS: u64 = 5;

impl ManagerCore {
    /// The status announced while counting down to a reconnect, `elapsed_secs` into the
    /// countdown: `Reconnecting` with the seconds left, or `None` once the interval has passed
    /// (or without a URL to reconnect to).
    pub fn reconnect_countdown_message(&self, elapsed_secs: u64) -> (r: Option<ManagerOutputMessage>)
        ensures
            match self.ws_url {
                Some(u) => if elapsed_secs >= RECONNECT_INTERVAL_SECS {
                    r is None
                } else {
                    r matches Some(m) && m@ == OutputView::Status(
                        crate::state_machine::StateView::Reconnecting(
                            u@,
                            self.reconnect_attempts,
                            (RECONNECT_INTERVAL_SECS - elapsed_secs) as u64,
                        ),
                    )
                },
                None => r is None,
            },
    {
        match &self.ws_url {
            Some(u) => {
                if elapsed_secs >= RECONNECT_INTERVAL_SECS {
                    None
                } else {
                    Some(
                        ManagerOutputMessage::Status(
                            State::Reconnecting(
                                crate::state_machine::ReconnectDetails {
                                    url: u.clone(),
                                    attempts: self.reconnect_attempts,
                                    next_attempt_secs: RECONNECT_INTERVAL_SECS - elapsed_secs,
                                },
                            ),
                        ),
                    )
                }
            },
            None => None,
        }
    }
}

/// The message announcing that discovery has started.
pub fn discovery_started_message() -> (r: ManagerOutputMessage)
    ensures
        r@ == OutputView::IsDiscovering(true),
{
    ManagerOutputMessage::IsDiscovering(true)
}

/// The messages that end a discovery: the devices found, or the failure; then the end of
/// discovery.
pub fn discovery_result_messages(result: Result<Vec<LgTvDevice>, String>) -> (r: Vec<
    ManagerOutputMessage,
>)
    ensures
        r@.len() == 2,
        r@[1]@ == OutputView::IsDiscovering(false),
        match result {
            Ok(devices) => r@[0]@ == OutputView::DiscoveredDevices(devices@),
            Err(e) => r@[0]@ == OutputView::Error(
                crate::manager::ManagerErrorView::Discovery("Discovery failed: "@ + e@),
            ),
        },
{
    let mut out: Vec<ManagerOutputMessage> = Vec::new();
    match result {
        Ok(devices) => out.push(ManagerOutputMessage::DiscoveredDevices(devices)),
        Err(e) => {
            let mut msg = String::from_str("Discovery failed: ");
            push_str(&mut msg, e.as_str());
            out.push(ManagerOutputMessage::Error(ManagerError::Discovery(msg)));
        },
    }
    out.push(ManagerOutputMessage::IsDiscovering(false));
    out
}


impl ManagerCore {
    /// Forgets the persisted URL, client key and MAC address and takes them on again from
    /// `env.persisted` (when the place they are persisted in changes).
    pub fn reload_persisted_state(&mut self, env: &ManagerEnv)
        ensures
            final(self)@ == crate::manager_core::spec_import_persisted(
                crate::manager_core::CoreView {
                    ws_url: None,
                    client_key: None,
                    mac_addr: None,
                    ..old(self)@
                },
                *env,
            ),
    {
        self.ws_url = None;
        self.client_key = None;
        self.mac_addr = None;
        self.import_persisted(env);
    }
}

} // verus!
