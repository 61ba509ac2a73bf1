//! One instruction server: the life of a listener on one port, and what it
//! answers to the requests that reach it.

use vstd::prelude::*;
use crate::context::InstructionContext;
use crate::dialogs::ConfigFormat as DocumentFormat;
use crate::manager::ContextManager;
use crate::network::{IpAddress, NetworkInterface};
use crate::text::same_text;

verus! {

/// The status code of a successful answer.
pub const STATUS_OK: u16 = 200;

/// The status code of an answer for something that does not exist.
pub const STATUS_NOT_FOUND: u16 = 404;

/// The status code of an answer after an internal failure.
pub const STATUS_INTERNAL_ERROR: u16 = 500;

/// Why a server could not do what was asked.
#[derive(Debug, Clone, Copy, PartialEq, Eq, Structural)]
pub enum ServerError {
    /// The port could not be bound.
    Bind(u16),
    /// The port has no instruction document.
    NotFound(u16),
    /// Shared state could not be reached.
    Internal,
}

impl ServerError {
    /// The status code that reports the failure to a client.
    pub open spec fn status(self) -> u16 {
        match self {
            ServerError::NotFound(_) => STATUS_NOT_FOUND,
            _ => STATUS_INTERNAL_ERROR,
        }
    }

    /// The status code that reports the failure to a client.
    pub fn status_code(&self) -> (code: u16)
        ensures
            code == self.status(),
    {
        match self {
            ServerError::NotFound(_) => STATUS_NOT_FOUND,
            _ => STATUS_INTERNAL_ERROR,
        }
    }
}

/// Where a server stands in its life.
#[derive(Debug, Clone, Copy, PartialEq, Eq, Structural)]
pub enum ServerState {
    /// Made, and not listening yet.
    Created,
    /// The listener is bound and requests are being served.
    Running,
    /// Shutdown was signalled.
    Stopped,
}

/// How the attempt to bind a server's listener ended.
#[derive(Debug, Clone, Copy, PartialEq, Eq, Structural)]
pub enum BindOutcome {
    Bound,
    Failed,
}

/// The state of a server after `start`, given how binding ended.
pub open spec fn state_after_start(before: ServerState, outcome: BindOutcome) -> ServerState {
    match outcome {
        BindOutcome::Bound => ServerState::Running,
        BindOutcome::Failed => before,
    }
}

/// The state of a server after `stop`.
pub open spec fn state_after_stop(before: ServerState) -> ServerState {
    match before {
        ServerState::Running => ServerState::Stopped,
        other => other,
    }
}

/// The format that the query of a request for the configuration names.
#[derive(Debug, PartialEq)]
pub struct ConfigFormat {
    pub format: String,
}

/// The representation that a format name asks for. There are four names:
/// `json`, `yaml`, `markdown` and `agent_rule`. Any other name asks for
/// JSON, and so does an empty one.
pub open spec fn format_for(name: Seq<char>) -> DocumentFormat {
    if name == "yaml"@ {
        DocumentFormat::Yaml
    } else if name == "markdown"@ {
        DocumentFormat::Markdown
    } else if name == "agent_rule"@ {
        DocumentFormat::AgentRule
    } else {
        DocumentFormat::Json
    }
}

impl ConfigFormat {
    /// The representation that the query asks for.
    pub fn resolve(&self) -> (format: DocumentFormat)
        ensures
            format == format_for(self.format@),
    {
        let name = self.format.as_str();
        if same_text(name, "yaml") {
            DocumentFormat::Yaml
        } else if same_text(name, "markdown") {
            DocumentFormat::Markdown
        } else if same_text(name, "agent_rule") {
            DocumentFormat::AgentRule
        } else {
            DocumentFormat::Json
        }
    }
}

/// The status code that answers a request for the health of a server.
pub fn health_check() -> (code: u16)
    ensures
        code == STATUS_OK,
{
    STATUS_OK
}

/// The representation in which a request for the configuration is answered.
/// A request without a format is answered in JSON.
pub fn get_config(query: Option<&ConfigFormat>) -> (format: DocumentFormat)
    ensures
        format == match query {
            Some(named) => format_for(named.format@),
            None => DocumentFormat::Json,
        },
{
    match query {
        Some(named) => named.resolve(),
        None => DocumentFormat::Json,
    }
}

/// The answer to a request for the instruction document of `port`: the
/// document that the manager holds for that very port, or that there is
/// none.
pub fn get_context(manager: &ContextManager, port: u16) -> (answer: Result<
    InstructionContext,
    ServerError,
>)
    ensures
        match answer {
            Ok(context) => manager@.contains_key(port) && context@ == manager@[port],
            Err(e) => !manager@.contains_key(port) && e == ServerError::NotFound(port),
        },
{
    match manager.get_context(port) {
        Some(context) => Ok(context.clone()),
        None => Err(ServerError::NotFound(port)),
    }
}

/// One instruction server, for one port on one interface.
#[derive(Debug, PartialEq)]
pub struct InstructionServer {
    port: u16,
    interface: NetworkInterface,
    state: ServerState,
}

impl InstructionServer {
    /// The port that the server is for.
    pub closed spec fn spec_port(&self) -> u16 {
        self.port
    }

    /// The interface that the server is for.
    pub closed spec fn spec_interface(&self) -> NetworkInterface {
        self.interface
    }

    /// Where the server stands in its life.
    pub closed spec fn spec_state(&self) -> ServerState {
        self.state
    }

    /// A server for `port` on `interface`, not listening yet.
    pub fn new(port: u16, interface: NetworkInterface) -> (server: Self)
        ensures
            server.spec_port() == port,
            server.spec_interface() == interface,
            server.spec_state() == ServerState::Created,
    {
        InstructionServer { port, interface, state: ServerState::Created }
    }

    /// The port that the server is for.
    pub fn port(&self) -> (port: u16)
        ensures
            port == self.spec_port(),
    {
        self.port
    }

    /// The interface that the server is for.
    pub fn interface(&self) -> (interface: &NetworkInterface)
        ensures
            *interface == self.spec_interface(),
    {
        &self.interface
    }

    /// Where the server stands in its life.
    pub fn state(&self) -> (state: ServerState)
        ensures
            state == self.spec_state(),
    {
        self.state
    }

    /// Whether the server is listening.
    pub fn is_running(&self) -> (running: bool)
        ensures
            running == (self.spec_state() == ServerState::Running),
    {
        self.state == ServerState::Running
    }

    /// The address that the server's listener is bound to.
    pub fn address(&self) -> (address: (IpAddress, u16))
        ensures
            address == (self.spec_interface().ip_address, self.spec_port()),
    {
        (self.interface.ip_address, self.port)
    }

    /// Starts the server, given how binding its listener ended. Where the
    /// listener is bound the server runs from now on. Where binding failed
    /// the failure is reported at once, for this server's port, and the
    /// server is as before.
    pub fn start(&mut self, outcome: BindOutcome) -> (started: Result<(), ServerError>)
        ensures
            final(self).spec_port() == old(self).spec_port(),
            final(self).spec_interface() == old(self).spec_interface(),
            final(self).spec_state() == state_after_start(old(self).spec_state(), outcome),
            started == match outcome {
                BindOutcome::Bound => Ok::<(), ServerError>(()),
                BindOutcome::Failed => Err::<(), ServerError>(
                    ServerError::Bind(old(self).spec_port()),
                ),
            },
    {
        match outcome {
            BindOutcome::Bound => {
                self.state = ServerState::Running;
                Ok(())
            },
            BindOutcome::Failed => Err(ServerError::Bind(self.port)),
        }
    }

    /// Stops the server: a running server is stopped, and any other is left
    /// as it is. The call succeeds in every state, so also a second time.
    pub fn stop(&mut self) -> (stopped: Result<(), ServerError>)
        ensures
            stopped is Ok,
            final(self).spec_port() == old(self).spec_port(),
            final(self).spec_interface() == old(self).spec_interface(),
            final(self).spec_state() == state_after_stop(old(self).spec_state()),
    {
        if self.state == ServerState::Running {
            self.state = ServerState::Stopped;
        }
        Ok(())
    }

    /// The answer of this server to a request for its instruction document:
    /// the document of this server's own port, or that there is none.
    pub fn context(&self, manager: &ContextManager) -> (answer: Result<
        InstructionContext,
        ServerError,
    >)
        ensures
            match answer {
                Ok(context) => manager@.contains_key(self.spec_port()) && context@
                    == manager@[self.spec_port()],
                Err(e) => !manager@.contains_key(self.spec_port()) && e == ServerError::NotFound(
                    self.spec_port(),
                ),
            },
    {
        get_context(manager, self.port)
    }
}

} // verus!
