//! The delivery bridge: what the bridge knows of the sink, how the sink's status codes read,
//! and when the sink is to be contacted at all.
//!
//! The sink itself is reached from outside this library. The caller makes the call that a
//! function here asks for and hands back the status that the sink returned.

use crate::event::EventData;
use crate::text::{decimal_of, decimal_text};
use vstd::prelude::*;

verus! {

/// Why the sink could not be started.
#[derive(Debug, PartialEq, Eq)]
pub enum InitError {
    /// The sink could not read the configuration.
    ParseFailed,
    /// The sink could not be built from the configuration.
    SinkConstructionFailed,
    /// The sink was built and did not start.
    SinkStartFailed,
    /// The configuration held nothing about the network.
    MissingNetworkInfo,
    /// The sink answered with a status that stands for none of these.
    Unknown(i32),
    /// The sink had been started before: it is started once.
    AlreadyInitialized,
    /// The sink was not reached, for the reason given in words.
    Local(String),
}

impl Clone for InitError {
    fn clone(&self) -> (copy: Self)
        ensures
            copy == *self,
    {
        match self {
            InitError::ParseFailed => InitError::ParseFailed,
            InitError::SinkConstructionFailed => InitError::SinkConstructionFailed,
            InitError::SinkStartFailed => InitError::SinkStartFailed,
            InitError::MissingNetworkInfo => InitError::MissingNetworkInfo,
            InitError::Unknown(status) => InitError::Unknown(*status),
            InitError::AlreadyInitialized => InitError::AlreadyInitialized,
            InitError::Local(reason) => InitError::Local(reason.clone()),
        }
    }
}

/// Why a batch was not delivered.
#[derive(Debug, PartialEq, Eq)]
pub enum SendError {
    /// The sink had not been started.
    NotInitialized,
    /// The batch could not be written in, or read from, its serial form.
    SerializationFailed,
    /// The batch did not reach its destination.
    TransmissionFailed,
    /// The destination refused the batch.
    SinkRejected,
    /// The sink answered with a status that stands for none of these.
    Unknown(i32),
    /// The sink was not reached, for the reason given in words.
    Local(String),
}

impl Clone for SendError {
    fn clone(&self) -> (copy: Self)
        ensures
            copy == *self,
    {
        match self {
            SendError::NotInitialized => SendError::NotInitialized,
            SendError::SerializationFailed => SendError::SerializationFailed,
            SendError::TransmissionFailed => SendError::TransmissionFailed,
            SendError::SinkRejected => SendError::SinkRejected,
            SendError::Unknown(status) => SendError::Unknown(*status),
            SendError::Local(reason) => SendError::Local(reason.clone()),
        }
    }
}

/// How the sink's answer to the handshake reads.
pub open spec fn init_result_of(status: i32) -> Result<(), InitError> {
    if status == 0 {
        Ok(())
    } else if status == -1 {
        Err(InitError::ParseFailed)
    } else if status == -2 {
        Err(InitError::SinkConstructionFailed)
    } else if status == -3 {
        Err(InitError::SinkStartFailed)
    } else if status == -4 {
        Err(InitError::MissingNetworkInfo)
    } else {
        Err(InitError::Unknown(status))
    }
}

/// How the sink's answer to a batch reads.
pub open spec fn send_result_of(status: i32) -> Result<(), SendError> {
    if status == 0 {
        Ok(())
    } else if status == -1 {
        Err(SendError::NotInitialized)
    } else if status == -2 {
        Err(SendError::SerializationFailed)
    } else if status == -3 {
        Err(SendError::TransmissionFailed)
    } else if status == -4 {
        Err(SendError::SinkRejected)
    } else {
        Err(SendError::Unknown(status))
    }
}

impl InitError {
    /// The error in words.
    pub open spec fn message_of(self) -> Seq<char> {
        match self {
            InitError::ParseFailed => "Failed to parse configuration"@,
            InitError::SinkConstructionFailed => "Failed to create sink"@,
            InitError::SinkStartFailed => "Failed to start sink"@,
            InitError::MissingNetworkInfo => "Network info not provided"@,
            InitError::Unknown(status) => "Failed to initialize: error code "@ + decimal_of(
                status as int,
            ),
            InitError::AlreadyInitialized => "Sink already initialized"@,
            InitError::Local(reason) => reason@,
        }
    }

    /// The error in words.
    pub fn message(&self) -> (text: String)
        ensures
            text@ == self.message_of(),
    {
        match self {
            InitError::ParseFailed => String::from_str("Failed to parse configuration"),
            InitError::SinkConstructionFailed => String::from_str("Failed to create sink"),
            InitError::SinkStartFailed => String::from_str("Failed to start sink"),
            InitError::MissingNetworkInfo => String::from_str("Network info not provided"),
            InitError::Unknown(status) => String::from_str(
                "Failed to initialize: error code ",
            ).concat(decimal_text(*status).as_str()),
            InitError::AlreadyInitialized => String::from_str("Sink already initialized"),
            InitError::Local(reason) => reason.clone(),
        }
    }
}

impl SendError {
    /// The error in words.
    pub open spec fn message_of(self) -> Seq<char> {
        match self {
            SendError::NotInitialized => "Forwarder not initialized"@,
            SendError::SerializationFailed => "Failed to parse event data"@,
            SendError::TransmissionFailed => "Failed to send event"@,
            SendError::SinkRejected => "Server returned error"@,
            SendError::Unknown(status) => "Unknown error code: "@ + decimal_of(status as int),
            SendError::Local(reason) => reason@,
        }
    }

    /// The error in words.
    pub fn message(&self) -> (text: String)
        ensures
            text@ == self.message_of(),
    {
        match self {
            SendError::NotInitialized => String::from_str("Forwarder not initialized"),
            SendError::SerializationFailed => String::from_str("Failed to parse event data"),
            SendError::TransmissionFailed => String::from_str("Failed to send event"),
            SendError::SinkRejected => String::from_str("Server returned error"),
            SendError::Unknown(status) => String::from_str("Unknown error code: ").concat(
                decimal_text(*status).as_str(),
            ),
            SendError::Local(reason) => reason.clone(),
        }
    }
}

/// Where the bridge stands with the sink.
#[derive(Debug, Clone, Copy, PartialEq, Eq, Structural)]
pub enum BridgePhase {
    /// The sink has not been started.
    Uninitialized,
    /// The sink runs and takes batches.
    Ready,
    /// The sink has been told to shut down.
    Closed,
}

/// Whether a batch goes to the sink.
#[derive(Debug, Clone, Copy, PartialEq, Eq, Structural)]
pub enum SendPlan {
    /// The batch is empty: it counts as delivered, and the sink is not contacted.
    Skip,
    /// The batch is to be handed to the sink, whole and in its order, in one call.
    Transmit,
}

/// The bridge to the sink.
pub struct XatuFFI {
    phase: BridgePhase,
}

impl View for XatuFFI {
    type V = BridgePhase;

    closed spec fn view(&self) -> BridgePhase {
        self.phase
    }
}

impl XatuFFI {
    /// A bridge whose sink has not been started.
    pub fn new() -> (bridge: Self)
        ensures
            bridge@ == BridgePhase::Uninitialized,
    {
        XatuFFI { phase: BridgePhase::Uninitialized }
    }

    /// Where the bridge stands with the sink.
    pub fn phase(&self) -> (phase: BridgePhase)
        ensures
            phase == self@,
    {
        self.phase
    }

    /// Takes the status with which the sink answered the handshake. The sink is started
    /// once: a bridge that has not been started is ready from a status of zero on, and stays
    /// as it was on any other status; a bridge that has been started before, be it ready or
    /// closed, refuses the handshake and stays as it was.
    pub fn init_with_runtime(&mut self, status: i32) -> (result: Result<(), InitError>)
        ensures
            result == handshake_result_of(old(self)@, status),
            final(self)@ == handshake_from(old(self)@, status),
    {
        match self.phase {
            BridgePhase::Uninitialized => {},
            _ => {
                return Err(InitError::AlreadyInitialized);
            },
        }
        if status == 0 {
            self.phase = BridgePhase::Ready;
            Ok(())
        } else if status == -1 {
            Err(InitError::ParseFailed)
        } else if status == -2 {
            Err(InitError::SinkConstructionFailed)
        } else if status == -3 {
            Err(InitError::SinkStartFailed)
        } else if status == -4 {
            Err(InitError::MissingNetworkInfo)
        } else {
            Err(InitError::Unknown(status))
        }
    }

    /// Decides whether `events` go to the sink: an empty batch does not.
    pub fn send_event_batch(events: &Vec<EventData>) -> (plan: SendPlan)
        ensures
            plan == if events@.len() == 0 {
                SendPlan::Skip
            } else {
                SendPlan::Transmit
            },
    {
        if events.len() == 0 {
            SendPlan::Skip
        } else {
            SendPlan::Transmit
        }
    }

    /// Reads the status with which the sink answered a batch.
    pub fn send_outcome(status: i32) -> (result: Result<(), SendError>)
        ensures
            result == send_result_of(status),
    {
        if status == 0 {
            Ok(())
        } else if status == -1 {
            Err(SendError::NotInitialized)
        } else if status == -2 {
            Err(SendError::SerializationFailed)
        } else if status == -3 {
            Err(SendError::TransmissionFailed)
        } else if status == -4 {
            Err(SendError::SinkRejected)
        } else {
            Err(SendError::Unknown(status))
        }
    }

    /// Shuts the bridge down. The result says whether the sink is to be told: it is told
    /// once, when a ready bridge is closed, and never again.
    pub fn close(&mut self) -> (notify: bool)
        ensures
            notify == close_notifies(old(self)@),
            final(self)@ == closed_from(old(self)@),
    {
        match self.phase {
            BridgePhase::Ready => {
                self.phase = BridgePhase::Closed;
                true
            },
            _ => false,
        }
    }
}

/// How a handshake ends for a bridge that stands at `phase`, when the sink answers with
/// `status`: only a bridge that has not been started takes the answer.
pub open spec fn handshake_result_of(phase: BridgePhase, status: i32) -> Result<(), InitError> {
    if phase == BridgePhase::Uninitialized {
        init_result_of(status)
    } else {
        Err(InitError::AlreadyInitialized)
    }
}

/// Where a handshake leads from `phase`, when the sink answers with `status`.
pub open spec fn handshake_from(phase: BridgePhase, status: i32) -> BridgePhase {
    if phase == BridgePhase::Uninitialized && status == 0 {
        BridgePhase::Ready
    } else {
        phase
    }
}

/// The sink is started at most once: a bridge that has been started, be it ready or closed,
/// refuses every further handshake and stays as it was. A closed bridge never runs again,
/// so its sink is never told to shut down a second time.
pub proof fn lemma_started_at_most_once(phase: BridgePhase, status: i32)
    requires
        phase != BridgePhase::Uninitialized,
    ensures
        handshake_result_of(phase, status) == Err::<(), InitError>(InitError::AlreadyInitialized),
        handshake_from(phase, status) == phase,
        !close_notifies(handshake_from(closed_from(phase), status)),
{
}

/// Whether a shutdown from `phase` has the sink told: only a running sink is told.
pub open spec fn close_notifies(phase: BridgePhase) -> bool {
    phase == BridgePhase::Ready
}

/// Where a shutdown leads from `phase`.
pub open spec fn closed_from(phase: BridgePhase) -> BridgePhase {
    if phase == BridgePhase::Ready {
        BridgePhase::Closed
    } else {
        phase
    }
}

/// Shutting down is idempotent: however the bridge stood before, a shutdown that follows a
/// shutdown changes nothing and does not have the sink told again.
pub proof fn lemma_shutdown_is_idempotent(phase: BridgePhase)
    ensures
        closed_from(closed_from(phase)) == closed_from(phase),
        !close_notifies(closed_from(phase)),
{
}

} // verus!
