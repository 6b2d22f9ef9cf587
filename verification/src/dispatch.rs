//! The transport dispatcher: a state machine deciding, from the validated
//! settings and the events a serving loop reports, which serving strategy
//! runs and when the process stops. The loops themselves perform the I/O;
//! every decision they act on is made here.
use vstd::prelude::*;

verus! {

use crate::Transport;
use crate::config::Settings;
use crate::health::HealthOutcome;

/// The dispatcher's lifecycle: `Idle` until startup work is done, then one
/// serving state chosen once from the settings, then `Terminated`.
#[derive(Clone, Copy, Debug, PartialEq, Eq, Structural)]
pub enum ServeState {
    Idle,
    ServingLocal,
    ServingNetwork,
    Terminated,
}

/// How the process ends.
#[derive(Clone, Copy, Debug, PartialEq, Eq, Structural)]
pub enum ExitStatus {
    Success,
    Failure,
}

impl ExitStatus {
    /// The process exit code: zero for normal termination, non-zero
    /// otherwise.
    pub fn code(&self) -> (r: i32)
        ensures
            *self == ExitStatus::Success ==> r == 0,
            *self == ExitStatus::Failure ==> r == 1,
    {
        match self {
            ExitStatus::Success => 0,
            ExitStatus::Failure => 1,
        }
    }
}

/// What the serving loop must do on leaving `Idle`.
#[derive(Clone, Copy, Debug, PartialEq, Eq, Structural)]
pub enum StartAction {
    OpenLocalSession,
    BindListener,
}

/// An event the network accept loop reports.
#[derive(Clone, Copy, Debug, PartialEq, Eq, Structural)]
pub enum NetworkEvent {
    BindFailed,
    Interrupt,
    ConnectionAccepted,
    AcceptFailed,
    ConnectionFailed,
}

/// What the network accept loop must do next.
#[derive(Clone, Copy, Debug, PartialEq, Eq, Structural)]
pub enum NetworkAction {
    AbortServing,
    StopAccepting,
    SpawnHandler,
    KeepAccepting,
}

/// An event the single local session reports.
#[derive(Clone, Copy, Debug, PartialEq, Eq, Structural)]
pub enum LocalEvent {
    StreamClosed,
    SessionError,
}

/// The dispatcher. Its exit status exists exactly when it has terminated.
pub struct Dispatcher {
    pub state: ServeState,
    pub exit: Option<ExitStatus>,
}

impl Dispatcher {
    /// The dispatcher invariant: an exit status is recorded exactly on
    /// termination.
    pub open spec fn wf(self) -> bool {
        self.exit is Some <==> self.state == ServeState::Terminated
    }

    /// A fresh dispatcher, idle, with nothing decided.
    pub fn new() -> (r: Dispatcher)
        ensures
            r.state == ServeState::Idle,
            r.exit is None,
            r.wf(),
    {
        Dispatcher { state: ServeState::Idle, exit: None }
    }

    /// Leaves `Idle` for the serving state the settings chose, and for it
    /// alone: the choice is made once, and the probe outcome — absent,
    /// passed or failed — never changes it and never prevents it.
    pub fn start(&mut self, settings: &Settings, _probe: &Option<HealthOutcome>) -> (a:
        StartAction)
        requires
            old(self).state == ServeState::Idle,
            old(self).wf(),
            settings.wf(),
        ensures
            final(self).wf(),
            final(self).exit is None,
            settings.transport == Transport::Stdio ==> final(self).state
                == ServeState::ServingLocal && a == StartAction::OpenLocalSession,
            settings.transport == Transport::Http ==> final(self).state
                == ServeState::ServingNetwork && a == StartAction::BindListener,
    {
        match settings.transport {
            Transport::Stdio => {
                self.state = ServeState::ServingLocal;
                StartAction::OpenLocalSession
            },
            Transport::Http => {
                self.state = ServeState::ServingNetwork;
                StartAction::BindListener
            },
        }
    }

    /// One step of the network accept loop. An interrupt stops accepting
    /// and terminates cleanly; an accepted connection is handed to an
    /// independent handler and accepting continues; a per-connection
    /// failure is isolated and accepting continues; a bind or accept fault
    /// is fatal.
    pub fn on_network_event(&mut self, ev: NetworkEvent) -> (a: NetworkAction)
        requires
            old(self).state == ServeState::ServingNetwork,
            old(self).wf(),
        ensures
            final(self).wf(),
            ev == NetworkEvent::Interrupt ==> final(self).state == ServeState::Terminated
                && final(self).exit == Some(ExitStatus::Success)
                && a == NetworkAction::StopAccepting,
            ev == NetworkEvent::ConnectionAccepted ==> final(self).state
                == ServeState::ServingNetwork && final(self).exit is None && a
                == NetworkAction::SpawnHandler,
            ev == NetworkEvent::ConnectionFailed ==> final(self).state
                == ServeState::ServingNetwork && final(self).exit is None && a
                == NetworkAction::KeepAccepting,
            ev == NetworkEvent::BindFailed || ev == NetworkEvent::AcceptFailed
                ==> final(self).state == ServeState::Terminated
                && final(self).exit == Some(ExitStatus::Failure)
                && a == NetworkAction::AbortServing,
    {
        match ev {
            NetworkEvent::Interrupt => {
                self.state = ServeState::Terminated;
                self.exit = Some(ExitStatus::Success);
                NetworkAction::StopAccepting
            },
            NetworkEvent::ConnectionAccepted => NetworkAction::SpawnHandler,
            NetworkEvent::ConnectionFailed => NetworkAction::KeepAccepting,
            NetworkEvent::BindFailed | NetworkEvent::AcceptFailed => {
                self.state = ServeState::Terminated;
                self.exit = Some(ExitStatus::Failure);
                NetworkAction::AbortServing
            },
        }
    }

    /// One step of the local session. Closing the input stream terminates
    /// the session and the process cleanly; a terminal session error
    /// terminates it with a failure.
    pub fn on_local_event(&mut self, ev: LocalEvent)
        requires
            old(self).state == ServeState::ServingLocal,
            old(self).wf(),
        ensures
            final(self).wf(),
            final(self).state == ServeState::Terminated,
            ev == LocalEvent::StreamClosed ==> final(self).exit == Some(ExitStatus::Success),
            ev == LocalEvent::SessionError ==> final(self).exit == Some(ExitStatus::Failure),
    {
        self.state = ServeState::Terminated;
        match ev {
            LocalEvent::StreamClosed => {
                self.exit = Some(ExitStatus::Success);
            },
            LocalEvent::SessionError => {
                self.exit = Some(ExitStatus::Failure);
            },
        }
    }

    /// The exit code of a terminated dispatcher.
    pub fn exit_code(&self) -> (r: i32)
        requires
            self.state == ServeState::Terminated,
            self.wf(),
        ensures
            self.exit == Some(ExitStatus::Success) ==> r == 0,
            self.exit == Some(ExitStatus::Failure) ==> r == 1,
    {
        match &self.exit {
            Some(status) => status.code(),
            None => 1,
        }
    }
}

} // verus!
