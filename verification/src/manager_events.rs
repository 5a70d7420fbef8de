//! The manager's handling of connects, reconnects and disconnects.

use vstd::prelude::*;


use crate::connection_settings::Connection;
use crate::helpers::{url_ip_addr, websocket_url_for_connection};
use crate::json::push_str;
use crate::manager::{ManagerAction, ManagerEnv, ManagerError, ManagerOutputMessage, ReconnectFlowStatus, push_action, actions_view};
use crate::manager_core::{grew, spec_connect, spec_connect_checked, spec_connect_reporting, spec_initiate_reconnect, spec_prepare_reconnect, spec_reconnect_now, should_retry, retries_enabled, auto_reconnect_enabled, spec_initiate_disconnect, spec_successful_disconnect, ManagerCore};
use crate::net::parse_mac;
use crate::ssap_payloads::clone_opt_string;

use crate::state_machine::Input;
use crate::text::str_eq;
use crate::websocket::{WsCommand, WsMessage};

verus! {

impl ManagerCore {
    /// Initiates a connection to a TV (see `spec_connect`).
    pub fn initiate_connect_to_tv(
        &mut self,
        connection: Connection,
        env: &ManagerEnv,
        out: &mut Vec<ManagerAction>,
    ) -> (r: Result<(), String>)
        ensures
            ({
                let (c2, a, res) = spec_connect(old(self)@, connection, *env);
                &&& final(self)@ == c2
                &&& grew(old(out)@, final(out)@, a)
                &&& match r {
                    Ok(_) => res is Ok,
                    Err(e) => res == Err::<(), Seq<char>>(e@),
                }
            }),
    {
        let key = match &connection {
            Connection::Host(_, s) => clone_opt_string(&s.client_key),
            Connection::Device(_, s) => clone_opt_string(&s.client_key),
        };
        match key {
            Some(k) => {
                self.client_key = Some(k);
            },
            None => {},
        }
        self.connect_checked(connection, env, out)
    }

    /// Initiates a connection, the client key already settled (see `spec_connect_checked`).
    fn connect_checked(
        &mut self,
        connection: Connection,
        env: &ManagerEnv,
        out: &mut Vec<ManagerAction>,
    ) -> (r: Result<(), String>)
        ensures
            ({
                let (c2, a, res) = spec_connect_checked(old(self)@, connection, *env);
                &&& final(self)@ == c2
                &&& grew(old(out)@, final(out)@, a)
                &&& match r {
                    Ok(_) => res is Ok,
                    Err(e) => res == Err::<(), Seq<char>>(e@),
                }
            }),
    {
        proof {
            reveal(spec_connect_checked);
        }
        let ghost start = out@;
        if !self.manager_status.is_disconnected() {
            let mut msg = String::new();
            push_str(&mut msg, "Cannot connect while not in Disconnected state (current state: ");
            let d = self.manager_status.to_debug_string();
            push_str(&mut msg, d.as_str());
            push_str(&mut msg, ")");
            assert(actions_view(out@) =~= actions_view(start) + Seq::<crate::manager::ActionView>::empty());
            return Err(msg);
        }
        if !self.has_state_machine {
            assert(actions_view(out@) =~= actions_view(start) + Seq::<crate::manager::ActionView>::empty());
            return Err(String::from_str("Cannot connect before state machine channel is available"));
        }
        match websocket_url_for_connection(&connection) {
            Err(e) => {
                let mut msg = String::new();
                push_str(&mut msg, "Error determining TV URL: ");
                push_str(&mut msg, e.as_str());
                assert(actions_view(out@) =~= actions_view(start) + Seq::<crate::manager::ActionView>::empty());
                Err(msg)
            },
            Ok(url) => {
                match url_ip_addr(url.as_str()) {
                    Some(ip) => {
                        let same = match env.network_checker_ip {
                            Some(existing) => existing == ip,
                            None => false,
                        };
                        if !same {
                            push_action(out, ManagerAction::SetNetworkCheckIp(ip));
                        }
                    },
                    None => {},
                }
                let ghost after_ip = out@;
                let mac = match &connection {
                    Connection::Host(_, _) => match &env.persisted {
                        Ok(p) => match &p.ws_url {
                            Some(pu) => if str_eq(pu.as_str(), url.as_str()) {
                                match &p.mac_addr {
                                    Some(m) => parse_mac(m.as_str()),
                                    None => None,
                                }
                            } else {
                                None
                            },
                            None => None,
                        },
                        Err(_) => None,
                    },
                    Connection::Device(d, _) => match &d.mac_addr {
                        Some(m) => parse_mac(m.as_str()),
                        None => None,
                    },
                };
                self.connection_details = Some(connection);
                self.is_manual_disconnect_requested = false;
                let flow = if self.is_initial_connect_retries_enabled() {
                    ReconnectFlowStatus::Active
                } else {
                    ReconnectFlowStatus::Inactive
                };
                self.set_flow(flow, out);
                let ghost after_flow = out@;
                self.send_to_fsm(Input::Connect(url.clone()), out);
                self.ws_url = Some(url);
                self.mac_addr = mac;
                let ghost (c2, a, res) = spec_connect_checked(old(self)@, connection, *env);
                assert(actions_view(out@) =~= actions_view(start) + a);
                Ok(())
            },
        }
    }

    /// Connects, and reports a failure as a connection error.
    pub(crate) fn connect_reporting(
        &mut self,
        connection: Connection,
        env: &ManagerEnv,
        out: &mut Vec<ManagerAction>,
    )
        ensures
            ({
                let (c2, a) = spec_connect_reporting(old(self)@, connection, *env);
                final(self)@ == c2 && grew(old(out)@, final(out)@, a)
            }),
    {
        proof {
            reveal(spec_connect_reporting);
        }
        let ghost start = out@;
        let r = self.initiate_connect_to_tv(connection, env, out);
        let ghost mid = out@;
        match r {
            Ok(_) => {},
            Err(e) => push_action(
                out,
                ManagerAction::Emit(ManagerOutputMessage::Error(ManagerError::Connection(e))),
            ),
        }
        let ghost (c2, a) = spec_connect_reporting(old(self)@, connection, *env);
        assert(actions_view(out@) =~= actions_view(start) + a);
    }

    /// The next reconnect attempt, once the countdown has ended (see `spec_reconnect_now`).
    pub fn reconnect_now(&mut self, env: &ManagerEnv) -> (r: Vec<ManagerAction>)
        ensures
            ({
                let (c2, a) = spec_reconnect_now(old(self)@, *env);
                final(self)@ == c2 && actions_view(r@) == a
            }),
    {
        let mut out: Vec<ManagerAction> = Vec::new();
        self.reconnect_now_into(env, &mut out);
        assert(actions_view(Seq::<ManagerAction>::empty()) =~= Seq::<crate::manager::ActionView>::empty());
        out
    }

    pub(crate) fn reconnect_now_into(&mut self, env: &ManagerEnv, out: &mut Vec<ManagerAction>)
        ensures
            ({
                let (c2, a) = spec_reconnect_now(old(self)@, *env);
                final(self)@ == c2 && grew(old(out)@, final(out)@, a)
            }),
    {
        proof {
            reveal(spec_reconnect_now);
        }
        let ghost start = out@;
        self.reconnect_attempts = self.reconnect_attempts.wrapping_add(1);
        match &self.connection_details {
            Some(conn) => {
                let conn = conn.copy();
                self.connect_reporting(conn, env, out);
            },
            None => {
                assert(actions_view(out@) =~= actions_view(start) + Seq::<crate::manager::ActionView>::empty());
            },
        }
    }

    /// Initiates a reconnect (see `spec_initiate_reconnect`).
    pub(crate) fn initiate_reconnect(&mut self, immediate: bool, env: &ManagerEnv, out: &mut Vec<ManagerAction>)
        ensures
            ({
                let (c2, a) = spec_initiate_reconnect(old(self)@, immediate, *env);
                final(self)@ == c2 && grew(old(out)@, final(out)@, a)
            }),
    {
        proof {
            reveal(spec_initiate_reconnect);
        }
        let ghost start = out@;
        if !env.is_tv_on_network && env.network_checker_operational {
            assert(actions_view(out@) =~= actions_view(start) + Seq::<crate::manager::ActionView>::empty());
            return;
        }
        self.set_flow(ReconnectFlowStatus::Active, out);
        let ghost a1 = out@;
        if self.ws_url.is_none() {
            self.set_flow(ReconnectFlowStatus::Inactive, out);
            self.force_reset("Unable to initiate reconnect: cannot determine URL to re-connect to", env, out);
        } else if self.connection_details.is_some() {
            if immediate {
                self.reconnect_now_into(env, out);
            } else {
                push_action(out, ManagerAction::StartReconnectCountdown);
            }
        }
        let ghost (c2, a) = spec_initiate_reconnect(old(self)@, immediate, *env);
        assert(actions_view(out@) =~= actions_view(start) + a);
    }

    /// Prepares for a reconnect after a lost connection (see `spec_prepare_reconnect`).
    pub(crate) fn prepare_reconnect(&mut self, env: &ManagerEnv, out: &mut Vec<ManagerAction>)
        ensures
            ({
                let (c2, a) = spec_prepare_reconnect(old(self)@, *env);
                final(self)@ == c2 && grew(old(out)@, final(out)@, a)
            }),
    {
        proof {
            reveal(spec_prepare_reconnect);
        }
        let ghost start = out@;
        if self.is_manual_disconnect_requested
            || self.reconnect_flow_status == ReconnectFlowStatus::Cancelled {
            assert(actions_view(out@) =~= actions_view(start) + Seq::<crate::manager::ActionView>::empty());
            return;
        }
        let flow = if self.is_auto_reconnect_enabled() {
            if env.is_tv_on_network || !env.network_checker_operational {
                ReconnectFlowStatus::Active
            } else {
                ReconnectFlowStatus::WaitingForTvOnNetwork
            }
        } else {
            ReconnectFlowStatus::Inactive
        };
        self.set_flow(flow, out);
    }

    /// Whether a failed connect is retried (see `should_retry`).
    pub fn should_retry_connect_failure(&self) -> (r: bool)
        ensures
            r == should_retry(self@),
    {
        (self.is_initial_connect_retries_enabled() && self.session_connection_count == 0) || (
        self.is_auto_reconnect_enabled() && self.session_connection_count > 0)
    }

    /// Whether the current connection retries a failed initial connect.
    pub(crate) fn is_initial_connect_retries_enabled(&self) -> (r: bool)
        ensures
            r == retries_enabled(self@),
    {
        match &self.connection_details {
            Some(Connection::Host(_, s)) => s.initial_connect_retries,
            Some(Connection::Device(_, s)) => s.initial_connect_retries,
            None => false,
        }
    }

    /// Whether the current connection reconnects automatically.
    pub(crate) fn is_auto_reconnect_enabled(&self) -> (r: bool)
        ensures
            r == auto_reconnect_enabled(self@),
    {
        match &self.connection_details {
            Some(Connection::Host(_, s)) => s.auto_reconnect,
            Some(Connection::Device(_, s)) => s.auto_reconnect,
            None => false,
        }
    }

    /// Starts a disconnect (see `spec_initiate_disconnect`).
    pub(crate) fn initiate_disconnect(&self, out: &mut Vec<ManagerAction>)
        ensures
            grew(old(out)@, final(out)@, spec_initiate_disconnect(self@)),
    {
        let ghost start = out@;
        if self.has_websocket_task {
            self.send_to_ws(WsMessage::Command(WsCommand::ShutDown), out);
        } else {
            assert(actions_view(out@) =~= actions_view(start) + Seq::<crate::manager::ActionView>::empty());
        }
    }

    /// Handles a clean disconnect (see `spec_successful_disconnect`).
    pub(crate) fn successful_disconnect(&mut self, env: &ManagerEnv, out: &mut Vec<ManagerAction>)
        ensures
            ({
                let (c2, a) = spec_successful_disconnect(old(self)@, *env);
                final(self)@ == c2 && grew(old(out)@, final(out)@, a)
            }),
    {
        proof {
            reveal(spec_successful_disconnect);
        }
        let ghost start = out@;
        if self.has_websocket_task {
            push_action(out, ManagerAction::AwaitWebSocket);
        }
        self.has_websocket_task = false;
        self.initialize(env, out);
        if self.reconnect_flow_status == ReconnectFlowStatus::Active {
            self.initiate_reconnect(false, env, out);
        }
        let ghost (c2, a) = spec_successful_disconnect(old(self)@, *env);
        assert(actions_view(out@) =~= actions_view(start) + a);
    }
}

} // verus!
