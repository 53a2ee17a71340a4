//! The cloud bootstrap client.
//!
//! Before the device starts serving, a client task dials the cloud control
//! plane, authenticates with the robot's secret, fetches the robot's
//! configuration, and then lets the serving task go ahead through a
//! cross-task notification.
//!
//! This module holds the decisions of that exchange: which request follows
//! which response, what each request says, and what notification ends the
//! task. The surrounding program owns the transport: it opens the TLS and
//! HTTP/2 connection, turns messages into payload bytes and back, and
//! delivers the notification.

use vstd::prelude::*;
use crate::app_v1::{AgentInfo, ConfigRequest};
use crate::ipv4::{ipv4_chars, ipv4_to_string, Ipv4};
use crate::rpc_v1::{AuthenticateRequest, AuthenticateResponse, Credentials};

verus! {

/// What the cloud client needs to know before it dials out: the robot's
/// identity, its secret, the local address it reports, and — when set — the
/// task to notify once bootstrap is over.
#[derive(Clone, Debug, PartialEq, Eq)]
pub struct RobotClientConfig {
    pub robot_secret: String,
    pub robot_id: String,
    pub ip: Ipv4,
    pub main_handle: Option<usize>,
}

impl RobotClientConfig {
    pub fn new(robot_secret: String, robot_id: String, ip: Ipv4) -> (r: Self)
        ensures
            r.robot_secret == robot_secret,
            r.robot_id == robot_id,
            r.ip == ip,
            r.main_handle is None,
    {
        RobotClientConfig { robot_secret, robot_id, ip, main_handle: None }
    }

    /// Record the task to notify when bootstrap is over.
    pub fn set_main_handle(&mut self, hnd: usize)
        ensures
            final(self).main_handle == Some(hnd),
            final(self).robot_secret == old(self).robot_secret,
            final(self).robot_id == old(self).robot_id,
            final(self).ip == old(self).ip,
    {
        self.main_handle = Some(hnd)
    }
}

/// One HTTP/2 request line and its headers, as plain strings. The transport
/// turns this into its own request value before sending.
#[derive(Clone, Debug, PartialEq, Eq)]
pub struct RequestHead {
    /// The absolute request URI; the method is always POST.
    pub uri: String,
    /// Header name and value pairs, in the order they are applied.
    pub headers: Vec<(String, String)>,
}

/// The scheme, host and port every outbound request is addressed to.
pub open spec fn uri_base_chars() -> Seq<char> {
    "https://app.viam.com:443"@
}

/// The headers applied to a request head built with the given bearer token.
pub open spec fn head_headers_ok(h: RequestHead, jwt: Option<String>) -> bool {
    &&& h.headers@.len() == (if jwt is Some {
        4int
    } else {
        3int
    })
    &&& h.headers@[0].0@ == "content-type"@ && h.headers@[0].1@ == "application/grpc"@
    &&& h.headers@[1].0@ == "te"@ && h.headers@[1].1@ == "trailers"@
    &&& h.headers@[2].0@ == "user-agent"@ && h.headers@[2].1@ == "esp32"@
    &&& jwt matches Some(j) ==> h.headers@[3].0@ == "authorization"@ && h.headers@[3].1@ == j@
}

/// How far the bootstrap exchange has come.
#[derive(Clone, Copy, Debug, PartialEq, Eq, Structural)]
pub enum BootstrapPhase {
    /// The connection stands; nothing has been sent.
    Created,
    /// The authentication request has been handed to the transport.
    AuthSent,
    /// The authentication response arrived; the bearer token is stored.
    Authenticated,
    /// The configuration request has been handed to the transport.
    ConfigSent,
    /// The configuration response arrived: bootstrap succeeded.
    Configured,
    /// A step failed; the server proceeds without token or configuration.
    Failed,
}

/// The cloud client: its configuration, the bearer token once authentication
/// has succeeded, and how far the exchange has come.
#[derive(Clone, Debug, PartialEq, Eq)]
pub struct RobotClient {
    pub config: RobotClientConfig,
    /// The bearer token for further requests; `None` until authentication
    /// succeeds, never cleared afterwards.
    pub jwt: Option<String>,
    pub phase: BootstrapPhase,
}

impl RobotClient {
    /// The bearer token is absent before authentication and present from the
    /// moment it succeeds.
    pub open spec fn wf(self) -> bool {
        match self.phase {
            BootstrapPhase::Created => self.jwt is None,
            BootstrapPhase::AuthSent => self.jwt is None,
            BootstrapPhase::Authenticated => self.jwt is Some,
            BootstrapPhase::ConfigSent => self.jwt is Some,
            BootstrapPhase::Configured => self.jwt is Some,
            BootstrapPhase::Failed => true,
        }
    }

    /// The exchange is over, well or badly.
    pub open spec fn bootstrap_finished(self) -> bool {
        self.phase == BootstrapPhase::Configured || self.phase == BootstrapPhase::Failed
    }

    /// Create a client over a connection the transport has opened.
    pub fn new(config: RobotClientConfig) -> (r: Self)
        ensures
            r.config == config,
            r.jwt is None,
            r.phase == BootstrapPhase::Created,
            r.wf(),
    {
        RobotClient { config, jwt: None, phase: BootstrapPhase::Created }
    }

    /// Build the head of a request to the cloud: POST to the absolute URI for
    /// the given path, with the gRPC headers, and the bearer token once one
    /// is held.
    pub fn build_request(&self, path: &str) -> (r: RequestHead)
        ensures
            r.uri@ == uri_base_chars() + path@,
            head_headers_ok(r, self.jwt),
    {
        let mut uri = "https://app.viam.com:443".to_owned();
        uri.append(path);
        let mut headers: Vec<(String, String)> = Vec::new();
        headers.push(("content-type".to_owned(), "application/grpc".to_owned()));
        headers.push(("te".to_owned(), "trailers".to_owned()));
        headers.push(("user-agent".to_owned(), "esp32".to_owned()));
        if let Some(jwt) = &self.jwt {
            headers.push(("authorization".to_owned(), jwt.clone()));
        }
        RequestHead { uri, headers }
    }

    /// Open the exchange: the authentication request, presenting the robot's
    /// secret as a `robot-secret` credential for the robot's identity.
    pub fn auth_request(&mut self) -> (r: (RequestHead, AuthenticateRequest))
        requires
            old(self).phase == BootstrapPhase::Created,
        ensures
            final(self).phase == BootstrapPhase::AuthSent,
            final(self).jwt == old(self).jwt,
            final(self).config == old(self).config,
            bootstrap_step(*old(self), *final(self)),
            r.0.uri@ == uri_base_chars() + "/proto.rpc.v1.AuthService/Authenticate"@,
            head_headers_ok(r.0, final(self).jwt),
            r.1.entity@ == old(self).config.robot_id@,
            r.1.credentials is Some,
            r.1.credentials->0.typ@ == "robot-secret"@,
            r.1.credentials->0.payload@ == old(self).config.robot_secret@,
    {
        let head = self.build_request("/proto.rpc.v1.AuthService/Authenticate");
        let cred = Credentials {
            typ: "robot-secret".to_owned(),
            payload: self.config.robot_secret.clone(),
        };
        let req = AuthenticateRequest {
            entity: self.config.robot_id.clone(),
            credentials: Some(cred),
        };
        self.phase = BootstrapPhase::AuthSent;
        (head, req)
    }

    /// Record a successful authentication: store the token, prefixed with
    /// `Bearer `, for every later request.
    pub fn on_auth_success(&mut self, resp: AuthenticateResponse)
        requires
            old(self).phase == BootstrapPhase::AuthSent,
        ensures
            final(self).phase == BootstrapPhase::Authenticated,
            final(self).config == old(self).config,
            final(self).jwt matches Some(j) && j@ == "Bearer "@ + resp.access_token@,
            final(self).wf(),
            bootstrap_step(*old(self), *final(self)),
    {
        let mut token = "Bearer ".to_owned();
        token.append(resp.access_token.as_str());
        self.jwt = Some(token);
        self.phase = BootstrapPhase::Authenticated;
    }

    /// Continue the exchange: the configuration request, reporting the device
    /// and carrying the bearer token.
    pub fn config_request(&mut self) -> (r: (RequestHead, ConfigRequest))
        requires
            old(self).phase == BootstrapPhase::Authenticated,
            old(self).wf(),
        ensures
            final(self).phase == BootstrapPhase::ConfigSent,
            final(self).jwt == old(self).jwt,
            final(self).config == old(self).config,
            bootstrap_step(*old(self), *final(self)),
            r.0.uri@ == uri_base_chars() + "/viam.app.v1.RobotService/Config"@,
            head_headers_ok(r.0, final(self).jwt),
            r.1.id@ == old(self).config.robot_id@,
            r.1.agent_info is Some,
            r.1.agent_info->0.os@ == "esp32"@,
            r.1.agent_info->0.host@ == "esp32"@,
            r.1.agent_info->0.version@ == "0.0.2"@,
            r.1.agent_info->0.git_revision@ == ""@,
            r.1.agent_info->0.ips@.len() == 1,
            r.1.agent_info->0.ips@[0]@ == ipv4_chars(old(self).config.ip),
    {
        let head = self.build_request("/viam.app.v1.RobotService/Config");
        let mut ips: Vec<String> = Vec::new();
        ips.push(ipv4_to_string(&self.config.ip));
        let agent = AgentInfo {
            host: "esp32".to_owned(),
            os: "esp32".to_owned(),
            ips,
            version: "0.0.2".to_owned(),
            git_revision: "".to_owned(),
        };
        let req = ConfigRequest { agent_info: Some(agent), id: self.config.robot_id.clone() };
        self.phase = BootstrapPhase::ConfigSent;
        (head, req)
    }

    /// Record that the configuration response arrived and was decoded:
    /// bootstrap has succeeded. The configuration itself is only logged by
    /// the caller, and the rest of the system must not depend on it.
    pub fn on_config_success(&mut self)
        requires
            old(self).phase == BootstrapPhase::ConfigSent,
        ensures
            final(self).phase == BootstrapPhase::Configured,
            final(self).jwt == old(self).jwt,
            final(self).config == old(self).config,
            final(self).bootstrap_finished(),
            bootstrap_step(*old(self), *final(self)),
    {
        self.phase = BootstrapPhase::Configured;
    }

    /// Record that a step failed. The server proceeds anyway, without a token
    /// or a configuration.
    pub fn on_failure(&mut self)
        requires
            old(self).phase != BootstrapPhase::Configured,
        ensures
            final(self).phase == BootstrapPhase::Failed,
            final(self).jwt == old(self).jwt,
            final(self).config == old(self).config,
            final(self).bootstrap_finished(),
            bootstrap_step(*old(self), *final(self)),
    {
        self.phase = BootstrapPhase::Failed;
    }

    /// Whom to notify now that the exchange is over, and with what value:
    /// 1 when bootstrap succeeded, 0 when the task merely exits — the
    /// receiving task treats both as leave to start serving.
    pub fn completion_notification(&self) -> (r: Option<(usize, u32)>)
        requires
            self.bootstrap_finished(),
        ensures
            r is Some <==> self.config.main_handle is Some,
            r matches Some(p) ==> p.0 == self.config.main_handle->0,
            r matches Some(p) ==> (p.1 == 1 <==> self.phase == BootstrapPhase::Configured),
            r matches Some(p) ==> (p.1 == 0 <==> self.phase == BootstrapPhase::Failed),
    {
        match self.config.main_handle {
            Some(hnd) => {
                if matches!(self.phase, BootstrapPhase::Configured) {
                    Some((hnd, 1))
                } else {
                    Some((hnd, 0))
                }
            },
            None => None,
        }
    }

    /// With no task to notify, the client instead idles in wait cycles until
    /// the serving task signals that a connection is incoming.
    pub fn should_wait_for_server(&self) -> (r: bool)
        ensures
            r == (self.config.main_handle is None),
    {
        self.config.main_handle.is_none()
    }
}

/// One transition of the bootstrap client, as the mutating calls above allow
/// it: the configuration never changes, the phases advance in order
/// authenticate, configure, done, any unfinished phase may fail, and the
/// bearer token is written exactly when authentication succeeds.
pub open spec fn bootstrap_step(pre: RobotClient, post: RobotClient) -> bool {
    &&& post.config == pre.config
    &&& match (pre.phase, post.phase) {
        (BootstrapPhase::Created, BootstrapPhase::AuthSent) => post.jwt == pre.jwt,
        (BootstrapPhase::AuthSent, BootstrapPhase::Authenticated) => post.jwt is Some,
        (BootstrapPhase::Authenticated, BootstrapPhase::ConfigSent) => post.jwt == pre.jwt,
        (BootstrapPhase::ConfigSent, BootstrapPhase::Configured) => post.jwt == pre.jwt,
        (_, BootstrapPhase::Failed) => pre.phase != BootstrapPhase::Configured && post.jwt
            == pre.jwt,
        _ => false,
    }
}

/// Once authentication has stored the bearer token, no later transition
/// clears or replaces it.
pub proof fn lemma_jwt_never_cleared(pre: RobotClient, post: RobotClient)
    requires
        pre.wf(),
        bootstrap_step(pre, post),
        pre.jwt is Some,
    ensures
        post.jwt == pre.jwt,
{
}

/// Every transition keeps the client well formed: the token is absent before
/// authentication and present from the moment it succeeds.
pub proof fn lemma_step_preserves_wf(pre: RobotClient, post: RobotClient)
    requires
        pre.wf(),
        bootstrap_step(pre, post),
    ensures
        post.wf(),
{
}

/// The success notification is decided only after the whole exchange: a
/// transition can reach the succeeded phase only from the configuration
/// exchange, which in turn holds the token that authentication stored. So a
/// notification with value 1 is sent strictly after both cloud exchanges
/// completed, and value 0 only once the task is past doing any further
/// bootstrap work.
pub proof fn lemma_notify_after_bootstrap(pre: RobotClient, post: RobotClient)
    requires
        pre.wf(),
        bootstrap_step(pre, post),
        post.bootstrap_finished(),
    ensures
        post.phase == BootstrapPhase::Configured ==> pre.phase == BootstrapPhase::ConfigSent
            && pre.jwt is Some && post.jwt == pre.jwt,
        post.phase == BootstrapPhase::Failed ==> pre.phase != BootstrapPhase::Configured,
{
}

/// How the serving task reads the rendezvous: any delivered notification —
/// value 1 from a completed bootstrap or value 0 from a bare exit — gives
/// leave to start serving; a timeout does not.
pub fn server_may_start(notification: Option<u32>) -> (r: bool)
    ensures
        r == (notification is Some),
{
    notification.is_some()
}

} // verus!
