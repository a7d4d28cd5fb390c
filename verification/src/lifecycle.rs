use vstd::prelude::*;
use crate::registry::names_model;
use crate::server::{McpServerState, ServerModel};
use crate::text::{decimal, joined, number_text};

verus! {

/// The lowest port that the server may be started on: the ports below are
/// reserved.
pub const LOWEST_PORT: u16 = 1024;

/// How long, in milliseconds, the host waits after it has started the
/// listener before it asks whether the listener is bound.
pub const START_SETTLE_MILLIS: u64 = 500;

/// Where the server stands in its life.
#[derive(Debug, Clone, Copy, PartialEq, Eq)]
pub enum LifecycleState {
    /// No listener, and none asked for.
    Stopped,
    /// A start was accepted; the listener is not known to be bound yet.
    Starting,
    /// The listener is bound and serves.
    Running,
    /// A stop was accepted; the listener's task is being aborted.
    Stopping,
    /// The last start failed; there is no listener.
    StartFailed,
}

/// Why the controller refused what it was asked.
#[derive(Debug, PartialEq, Eq)]
pub enum LifecycleError {
    PortZero,
    PortReserved,
    AlreadyRunning,
    PortInUse(u16),
    BindFailed(u16),
    NotRunning,
    NotStarting,
}

/// What the host is told about the server.
#[derive(Debug, Clone, Copy, PartialEq, Eq)]
pub struct ServerStatus {
    pub running: bool,
    pub port: Option<u16>,
}

impl LifecycleError {
    /// The text that tells the host what went wrong.
    pub open spec fn text(self) -> Seq<char> {
        match self {
            LifecycleError::PortZero => "Port number must be greater than 0"@,
            LifecycleError::PortReserved =>
                "Port number must be 1024 or higher (lower ports require root privileges)"@,
            LifecycleError::AlreadyRunning => "Server is already running"@,
            LifecycleError::PortInUse(port) => "Port "@ + decimal(port as nat)
                + " is already in use"@,
            LifecycleError::BindFailed(port) => "Failed to start MCP Server on port "@ + decimal(
                port as nat,
            ) + ". An unexpected error occurred."@,
            LifecycleError::NotRunning => "Server is not running"@,
            LifecycleError::NotStarting => "No start is under way"@,
        }
    }

    /// The text that tells the host what went wrong.
    pub fn message(&self) -> (out: String)
        ensures
            out@ == self.text(),
    {
        match self {
            LifecycleError::PortZero => String::from_str("Port number must be greater than 0"),
            LifecycleError::PortReserved => String::from_str(
                "Port number must be 1024 or higher (lower ports require root privileges)",
            ),
            LifecycleError::AlreadyRunning => String::from_str("Server is already running"),
            LifecycleError::PortInUse(port) => {
                let mut out = joined("Port ", number_text(*port as u64).as_str());
                out.append(" is already in use");
                out
            },
            LifecycleError::BindFailed(port) => {
                let mut out = joined(
                    "Failed to start MCP Server on port ",
                    number_text(*port as u64).as_str(),
                );
                out.append(". An unexpected error occurred.");
                out
            },
            LifecycleError::NotRunning => String::from_str("Server is not running"),
            LifecycleError::NotStarting => String::from_str("No start is under way"),
        }
    }
}

/// What the host reads when a start has succeeded.
pub open spec fn started_text(port: u16) -> Seq<char> {
    "MCP Server started on port "@ + decimal(port as nat)
}

/// What the host reads when a stop has succeeded.
pub open spec fn stopped_text() -> Seq<char> {
    "MCP Server stopped"@
}

/// Brings one server up and down: it takes what the host asks for and what
/// the host has seen of the listener, and says what is to be done next.
pub struct LifecycleController {
    state: LifecycleState,
    port: Option<u16>,
    enabled_tools: Vec<String>,
}

pub struct ControllerModel {
    pub state: LifecycleState,
    pub port: Option<u16>,
    pub enabled: Seq<Seq<char>>,
}

impl ControllerModel {
    /// A port is kept exactly while a start is under way or the server
    /// runs.
    pub open spec fn well_formed(self) -> bool {
        self.port is Some <==> (self.state is Starting || self.state is Running)
    }

    /// A controller whose server is down, and was never asked for.
    pub open spec fn initial() -> ControllerModel {
        ControllerModel { state: LifecycleState::Stopped, port: None, enabled: Seq::empty() }
    }

    /// What the host is told about the server.
    pub open spec fn status(self) -> ServerStatus {
        ServerStatus { running: self.state is Running, port: self.port }
    }

    /// A start is asked for. It is refused for port 0 and for a reserved
    /// port, whatever the state; then while the server runs or is being
    /// started. Otherwise the start is under way and the port is kept.
    pub open spec fn request_start(self, port: u16, enabled: Seq<Seq<char>>) -> (
        ControllerModel,
        Result<(), LifecycleError>,
    ) {
        if port == 0 {
            (self, Err(LifecycleError::PortZero))
        } else if port < LOWEST_PORT {
            (self, Err(LifecycleError::PortReserved))
        } else if self.state is Running || self.state is Starting {
            (self, Err(LifecycleError::AlreadyRunning))
        } else {
            (
                ControllerModel { state: LifecycleState::Starting, port: Some(port), enabled },
                Ok(()),
            )
        }
    }

    /// The probe of the port came back. Where something listens there
    /// already, the start has failed and nothing is kept of it.
    pub open spec fn probe_result(self, listener_found: bool) -> (
        ControllerModel,
        Result<ServerModel, LifecycleError>,
    ) {
        if !(self.state is Starting) || self.port is None {
            (self, Err(LifecycleError::NotStarting))
        } else if listener_found {
            (
                ControllerModel { state: LifecycleState::StartFailed, port: None, ..self },
                Err(LifecycleError::PortInUse(self.port.unwrap())),
            )
        } else {
            (
                self,
                Ok(
                    ServerModel {
                        sessions: Map::empty(),
                        port: self.port.unwrap(),
                        running: false,
                        enabled: self.enabled,
                    },
                ),
            )
        }
    }

    /// The host has waited and says whether the listener is bound. Where
    /// it is not, the start has failed and nothing is kept of it.
    pub open spec fn start_settled(self, bound: bool) -> (
        ControllerModel,
        Result<Seq<char>, LifecycleError>,
    ) {
        if !(self.state is Starting) || self.port is None {
            (self, Err(LifecycleError::NotStarting))
        } else if bound {
            (
                ControllerModel { state: LifecycleState::Running, ..self },
                Ok(started_text(self.port.unwrap())),
            )
        } else {
            (
                ControllerModel { state: LifecycleState::StartFailed, port: None, ..self },
                Err(LifecycleError::BindFailed(self.port.unwrap())),
            )
        }
    }

    /// A stop is asked for. It is refused unless the server runs;
    /// otherwise the port is forgotten and the listener's task is to be
    /// aborted.
    pub open spec fn stop(self) -> (ControllerModel, Result<Seq<char>, LifecycleError>) {
        if self.state is Running {
            (
                ControllerModel { state: LifecycleState::Stopping, port: None, ..self },
                Ok(stopped_text()),
            )
        } else {
            (self, Err(LifecycleError::NotRunning))
        }
    }

    /// The listener's task has ended: by the abort that a stop ordered,
    /// after a failed start, or by an error while serving. While a start
    /// is under way the end of the task is told by `start_settled`.
    pub open spec fn task_ended(self) -> ControllerModel {
        if self.state is Starting {
            self
        } else {
            ControllerModel { state: LifecycleState::Stopped, port: None, ..self }
        }
    }
}

impl LifecycleController {
    pub closed spec fn view(&self) -> ControllerModel {
        ControllerModel {
            state: self.state,
            port: self.port,
            enabled: names_model(self.enabled_tools@),
        }
    }

    #[verifier::type_invariant]
    spec fn well_formed(&self) -> bool {
        self.port is Some <==> (self.state is Starting || self.state is Running)
    }

    /// A controller whose server is down.
    pub fn new() -> (c: LifecycleController)
        ensures
            c@ == ControllerModel::initial(),
            c@.well_formed(),
    {
        let c = LifecycleController {
            state: LifecycleState::Stopped,
            port: None,
            enabled_tools: Vec::new(),
        };
        assert(names_model(c.enabled_tools@) =~= Seq::<Seq<char>>::empty());
        c
    }

    /// Whether the server runs, and on which port. Changes nothing.
    pub fn status(&self) -> (status: ServerStatus)
        ensures
            status == self@.status(),
            self@.well_formed(),
    {
        proof {
            use_type_invariant(self);
        }
        let running = match self.state {
            LifecycleState::Running => true,
            _ => false,
        };
        ServerStatus { running, port: self.port }
    }

    /// Where the server stands in its life.
    pub fn state(&self) -> (state: LifecycleState)
        ensures
            state == self@.state,
    {
        self.state
    }

    /// Takes a request to start the server on `port` with this allowlist.
    /// On `Ok` the host probes the port and tells `probe_result` what it
    /// found.
    pub fn request_start(&mut self, port: u16, enabled_tools: Vec<String>) -> (out: Result<
        (),
        LifecycleError,
    >)
        ensures
            (final(self)@, out) == old(self)@.request_start(port, names_model(enabled_tools@)),
            final(self)@.well_formed(),
    {
        proof {
            use_type_invariant(&*self);
        }
        if port == 0 {
            return Err(LifecycleError::PortZero);
        }
        if port < LOWEST_PORT {
            return Err(LifecycleError::PortReserved);
        }
        match self.state {
            LifecycleState::Running | LifecycleState::Starting => Err(
                LifecycleError::AlreadyRunning,
            ),
            _ => {
                *self = LifecycleController {
                    state: LifecycleState::Starting,
                    port: Some(port),
                    enabled_tools,
                };
                Ok(())
            },
        }
    }

    /// Takes what the probe of the port found. On `Ok` the host runs the
    /// listener on the state that is returned, waits `START_SETTLE_MILLIS`,
    /// and tells `start_settled` whether the listener is bound.
    pub fn probe_result(&mut self, listener_found: bool) -> (out: Result<
        McpServerState,
        LifecycleError,
    >)
        ensures
            final(self)@ == old(self)@.probe_result(listener_found).0,
            match out {
                Ok(server) => old(self)@.probe_result(listener_found).1 == Ok::<
                    ServerModel,
                    LifecycleError,
                >(server@),
                Err(e) => old(self)@.probe_result(listener_found).1 == Err::<
                    ServerModel,
                    LifecycleError,
                >(e),
            },
            final(self)@.well_formed(),
    {
        proof {
            use_type_invariant(&*self);
        }
        let port = match (self.state, self.port) {
            (LifecycleState::Starting, Some(port)) => port,
            _ => {
                return Err(LifecycleError::NotStarting);
            },
        };
        if listener_found {
            let mut taken = LifecycleController::new();
            std::mem::swap(self, &mut taken);
            *self = LifecycleController {
                state: LifecycleState::StartFailed,
                port: None,
                enabled_tools: taken.enabled_tools,
            };
            Err(LifecycleError::PortInUse(port))
        } else {
            Ok(McpServerState::new_with_tools(port, clone_names(&self.enabled_tools)))
        }
    }

    /// Takes whether the listener is bound after the wait.
    pub fn start_settled(&mut self, bound: bool) -> (out: Result<String, LifecycleError>)
        ensures
            final(self)@ == old(self)@.start_settled(bound).0,
            match out {
                Ok(text) => old(self)@.start_settled(bound).1 == Ok::<Seq<char>, LifecycleError>(
                    text@,
                ),
                Err(e) => old(self)@.start_settled(bound).1 == Err::<Seq<char>, LifecycleError>(e),
            },
            final(self)@.well_formed(),
    {
        proof {
            use_type_invariant(&*self);
        }
        let port = match (self.state, self.port) {
            (LifecycleState::Starting, Some(port)) => port,
            _ => {
                return Err(LifecycleError::NotStarting);
            },
        };
        let mut taken = LifecycleController::new();
        std::mem::swap(self, &mut taken);
        if bound {
            *self = LifecycleController {
                state: LifecycleState::Running,
                port: Some(port),
                enabled_tools: taken.enabled_tools,
            };
            Ok(joined("MCP Server started on port ", number_text(port as u64).as_str()))
        } else {
            *self = LifecycleController {
                state: LifecycleState::StartFailed,
                port: None,
                enabled_tools: taken.enabled_tools,
            };
            Err(LifecycleError::BindFailed(port))
        }
    }

    /// Takes a request to stop the server. On `Ok` the host aborts the
    /// listener's task.
    pub fn stop(&mut self) -> (out: Result<String, LifecycleError>)
        ensures
            final(self)@ == old(self)@.stop().0,
            match out {
                Ok(text) => old(self)@.stop().1 == Ok::<Seq<char>, LifecycleError>(text@),
                Err(e) => old(self)@.stop().1 == Err::<Seq<char>, LifecycleError>(e),
            },
            final(self)@.well_formed(),
    {
        proof {
            use_type_invariant(&*self);
        }
        match self.state {
            LifecycleState::Running => {
                let mut taken = LifecycleController::new();
                std::mem::swap(self, &mut taken);
                *self = LifecycleController {
                    state: LifecycleState::Stopping,
                    port: None,
                    enabled_tools: taken.enabled_tools,
                };
                Ok(String::from_str("MCP Server stopped"))
            },
            _ => Err(LifecycleError::NotRunning),
        }
    }

    /// Takes the news that the listener's task has ended.
    pub fn task_ended(&mut self)
        ensures
            final(self)@ == old(self)@.task_ended(),
            final(self)@.well_formed(),
    {
        proof {
            use_type_invariant(&*self);
        }
        match self.state {
            LifecycleState::Starting => {},
            _ => {
                let mut taken = LifecycleController::new();
                std::mem::swap(self, &mut taken);
                *self = LifecycleController {
                    state: LifecycleState::Stopped,
                    port: None,
                    enabled_tools: taken.enabled_tools,
                };
            },
        }
    }
}

/// A copy of a list of names.
pub fn clone_names(names: &Vec<String>) -> (copy: Vec<String>)
    ensures
        names_model(copy@) == names_model(names@),
{
    let mut copy: Vec<String> = Vec::new();
    let mut i: usize = 0;
    while i < names.len()
        invariant
            0 <= i <= names.len(),
            copy@.len() == i,
            forall|k: int| 0 <= k < i ==> copy@[k]@ == names@[k]@,
        decreases names.len() - i,
    {
        copy.push(names[i].clone());
        i += 1;
    }
    assert(names_model(copy@) =~= names_model(names@));
    copy
}

/// Whether a server could be started on `port`, given whether the probe
/// found something listening there: never on port 0, and on no port that
/// is taken.
pub fn check_port_availability(port: u16, listener_found: bool) -> (free: bool)
    ensures
        free == (port != 0 && !listener_found),
{
    port != 0 && !listener_found
}

} // verus!
