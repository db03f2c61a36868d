//! One connection's request/response cycle and the single-slot acceptor.
use crate::framing::SocketError;
use crate::message::{response_to, respond, ClientMessage, DaemonMessage};
use vstd::prelude::*;

verus! {

/// The life of a connection: active until a fatal error, then never again.
#[derive(Clone, Copy, Debug, PartialEq, Eq, Structural)]
pub enum ConnectionState {
    Active,
    Terminated,
}

/// The daemon's side of one accepted connection.
#[derive(Clone, Copy, Debug)]
pub struct Client {
    pub state: ConnectionState,
}

/// Whether a receive error ends the connection: all but `WouldBlock` do.
pub open spec fn is_fatal(e: SocketError) -> bool {
    !(e is WouldBlock)
}

impl Client {
    /// A connection that has just been accepted.
    pub fn new() -> (r: Client)
        ensures
            r.state == ConnectionState::Active,
    {
        Client { state: ConnectionState::Active }
    }

    pub fn is_active(&self) -> (r: bool)
        ensures
            r == (self.state == ConnectionState::Active),
    {
        match self.state {
            ConnectionState::Active => true,
            ConnectionState::Terminated => false,
        }
    }

    /// One tick, given what receiving on the connection gave: a message gets
    /// its reply (to be sent), "no data yet" gets nothing, and any other
    /// error ends the connection and is handed back.
    pub fn update(&mut self, received: Result<ClientMessage, SocketError>) -> (r: Result<
        Option<DaemonMessage>,
        SocketError,
    >)
        requires
            old(self).state == ConnectionState::Active,
        ensures
            match received {
                Ok(m) => r == Ok::<Option<DaemonMessage>, SocketError>(response_to(m))
                    && final(self).state == ConnectionState::Active,
                Err(e) => if is_fatal(e) {
                    r == Err::<Option<DaemonMessage>, SocketError>(e)
                        && final(self).state == ConnectionState::Terminated
                } else {
                    r == Ok::<Option<DaemonMessage>, SocketError>(None)
                        && final(self).state == ConnectionState::Active
                },
            },
    {
        match received {
            Ok(message) => Ok(respond(message)),
            Err(e) => {
                if e.is_transient() {
                    Ok(None)
                } else {
                    self.state = ConnectionState::Terminated;
                    Err(e)
                }
            },
        }
    }

    /// Takes the outcome of sending a reply: a failure ends the connection.
    pub fn sent(&mut self, result: Result<(), SocketError>) -> (r: Result<(), SocketError>)
        requires
            old(self).state == ConnectionState::Active,
        ensures
            r == result,
            final(self).state == (if result is Ok {
                ConnectionState::Active
            } else {
                ConnectionState::Terminated
            }),
    {
        match result {
            Ok(done) => Ok(done),
            Err(e) => {
                self.state = ConnectionState::Terminated;
                Err(e)
            },
        }
    }
}

/// What the acceptor does on a tick, decided from its slot alone.
#[derive(Clone, Copy, Debug, PartialEq, Eq, Structural)]
pub enum Step {
    /// Receive on the connection in the slot.
    Service,
    /// Try a non-blocking accept on the listener.
    Accept,
}

/// What came of the step that the acceptor asked for.
#[derive(Debug)]
pub enum ServerEvent {
    /// What receiving on the connection gave.
    Received(Result<ClientMessage, SocketError>),
    /// What sending the reply gave.
    Sent(Result<(), SocketError>),
    /// A new connection was accepted.
    Accepted,
    /// No connection is waiting to be accepted.
    NoPendingConnection,
    /// Accepting failed; the text describes the cause.
    AcceptFailed(String),
}

/// What the acceptor asks of its caller after an event.
#[derive(Debug)]
pub enum ServerAction {
    /// Nothing more this tick.
    Nothing,
    /// Send this reply on the connection, then report `Sent`.
    Reply(DaemonMessage),
    /// The connection ended with this error: log it and close the stream.
    Close(SocketError),
    /// Accepting failed: log it; the listener stays open.
    LogAcceptError(String),
}

/// The acceptor: at most one connection at a time.
#[derive(Debug)]
pub struct Server {
    pub client: Option<Client>,
}

impl Server {
    /// A connection in the slot is always active.
    pub open spec fn wf(&self) -> bool {
        self.client matches Some(c) ==> c.state == ConnectionState::Active
    }

    /// Whether an event answers the step that this acceptor asks for.
    pub open spec fn expects(&self, event: ServerEvent) -> bool {
        match event {
            ServerEvent::Received(_) | ServerEvent::Sent(_) => self.client is Some,
            _ => self.client is None,
        }
    }

    /// The next state of the slot after an event.
    pub open spec fn next_slot(&self, event: ServerEvent) -> Option<Client> {
        match event {
            ServerEvent::Received(Err(e)) => if is_fatal(e) {
                None
            } else {
                self.client
            },
            ServerEvent::Sent(Err(_)) => None,
            ServerEvent::Accepted => Some(Client { state: ConnectionState::Active }),
            _ => self.client,
        }
    }

    /// An acceptor with an empty slot.
    pub fn new() -> (r: Server)
        ensures
            r.wf(),
            r.client is None,
    {
        Server { client: None }
    }

    pub fn has_client(&self) -> (r: bool)
        ensures
            r == self.client is Some,
    {
        self.client.is_some()
    }

    /// The step of this tick: service the connection in the slot if there is
    /// one, else accept. A new connection is never accepted over a live one.
    pub fn next_step(&self) -> (r: Step)
        ensures
            r == (if self.client is Some {
                Step::Service
            } else {
                Step::Accept
            }),
    {
        if self.client.is_some() {
            Step::Service
        } else {
            Step::Accept
        }
    }

    /// Puts a connection back in the slot while it is active; a terminated
    /// one is dropped and the slot left empty.
    fn keep_if_active(&mut self, client: Client)
        ensures
            final(self).client == (if client.state == ConnectionState::Active {
                Some(client)
            } else {
                None
            }),
    {
        if client.is_active() {
            self.client = Some(client);
        } else {
            self.client = None;
        }
    }

    /// Takes what came of this tick's step and says what to do next.
    pub fn update(&mut self, event: ServerEvent) -> (r: ServerAction)
        requires
            old(self).wf(),
            old(self).expects(event),
        ensures
            final(self).wf(),
            final(self).client == old(self).next_slot(event),
            match event {
                ServerEvent::Received(Ok(m)) => match response_to(m) {
                    Some(reply) => r == ServerAction::Reply(reply),
                    None => r is Nothing,
                },
                ServerEvent::Received(Err(e)) => if is_fatal(e) {
                    r == ServerAction::Close(e)
                } else {
                    r is Nothing
                },
                ServerEvent::Sent(Ok(_)) => r is Nothing,
                ServerEvent::Sent(Err(e)) => r == ServerAction::Close(e),
                ServerEvent::Accepted => r is Nothing,
                ServerEvent::NoPendingConnection => r is Nothing,
                ServerEvent::AcceptFailed(msg) => r == ServerAction::LogAcceptError(msg),
            },
    {
        match event {
            ServerEvent::Received(received) => {
                let mut client = self.client.unwrap();
                let result = client.update(received);
                self.keep_if_active(client);
                match result {
                    Ok(Some(reply)) => ServerAction::Reply(reply),
                    Ok(None) => ServerAction::Nothing,
                    Err(e) => ServerAction::Close(e),
                }
            },
            ServerEvent::Sent(result) => {
                let mut client = self.client.unwrap();
                let result = client.sent(result);
                self.keep_if_active(client);
                match result {
                    Ok(_) => ServerAction::Nothing,
                    Err(e) => ServerAction::Close(e),
                }
            },
            ServerEvent::Accepted => {
                self.client = Some(Client::new());
                ServerAction::Nothing
            },
            ServerEvent::NoPendingConnection => ServerAction::Nothing,
            ServerEvent::AcceptFailed(msg) => ServerAction::LogAcceptError(msg),
        }
    }
}

/// While a connection occupies the slot, no event puts another one in its
/// place: the slot keeps that same connection, or becomes empty only when the
/// connection ends with a fatal error.
pub proof fn lemma_single_connection(server: Server, event: ServerEvent)
    requires
        server.wf(),
        server.client is Some,
        server.expects(event),
    ensures
        server.next_slot(event) is Some ==> server.next_slot(event) == server.client,
        server.next_slot(event) is None <==> match event {
            ServerEvent::Received(Err(e)) => is_fatal(e),
            ServerEvent::Sent(Err(_)) => true,
            _ => false,
        },
{
}

} // verus!
