//! Gateway payload opcodes and the outbound control payloads, with the
//! numeric wire encoding each payload carries.

use vstd::prelude::*;

verus! {

/// The operation kind tagging every gateway frame. The numeric wire values
/// are fixed by the protocol; `5` is unassigned.
#[derive(Clone, Copy, PartialEq, Eq, Structural, Debug)]
pub enum PayloadOpcode {
    Dispatch,
    Heartbeat,
    Identify,
    PresenceUpdate,
    VoiceStateUpdate,
    Resume,
    Reconnect,
    RequestGuildMembers,
    InvalidSession,
    Hello,
    HeartbeatAck,
}

impl PayloadOpcode {
    /// The numeric value this opcode takes on the wire.
    pub open spec fn wire_value_spec(self) -> u8 {
        match self {
            PayloadOpcode::Dispatch => 0,
            PayloadOpcode::Heartbeat => 1,
            PayloadOpcode::Identify => 2,
            PayloadOpcode::PresenceUpdate => 3,
            PayloadOpcode::VoiceStateUpdate => 4,
            PayloadOpcode::Resume => 6,
            PayloadOpcode::Reconnect => 7,
            PayloadOpcode::RequestGuildMembers => 8,
            PayloadOpcode::InvalidSession => 9,
            PayloadOpcode::Hello => 10,
            PayloadOpcode::HeartbeatAck => 11,
        }
    }

    /// The opcode a wire value decodes to; `None` for values the protocol
    /// does not assign.
    pub open spec fn from_wire_spec(v: u8) -> Option<PayloadOpcode> {
        if v == 0 {
            Some(PayloadOpcode::Dispatch)
        } else if v == 1 {
            Some(PayloadOpcode::Heartbeat)
        } else if v == 2 {
            Some(PayloadOpcode::Identify)
        } else if v == 3 {
            Some(PayloadOpcode::PresenceUpdate)
        } else if v == 4 {
            Some(PayloadOpcode::VoiceStateUpdate)
        } else if v == 6 {
            Some(PayloadOpcode::Resume)
        } else if v == 7 {
            Some(PayloadOpcode::Reconnect)
        } else if v == 8 {
            Some(PayloadOpcode::RequestGuildMembers)
        } else if v == 9 {
            Some(PayloadOpcode::InvalidSession)
        } else if v == 10 {
            Some(PayloadOpcode::Hello)
        } else if v == 11 {
            Some(PayloadOpcode::HeartbeatAck)
        } else {
            None
        }
    }

    pub fn wire_value(&self) -> (r: u8)
        ensures
            r == self.wire_value_spec(),
    {
        match self {
            PayloadOpcode::Dispatch => 0,
            PayloadOpcode::Heartbeat => 1,
            PayloadOpcode::Identify => 2,
            PayloadOpcode::PresenceUpdate => 3,
            PayloadOpcode::VoiceStateUpdate => 4,
            PayloadOpcode::Resume => 6,
            PayloadOpcode::Reconnect => 7,
            PayloadOpcode::RequestGuildMembers => 8,
            PayloadOpcode::InvalidSession => 9,
            PayloadOpcode::Hello => 10,
            PayloadOpcode::HeartbeatAck => 11,
        }
    }

    pub fn from_wire(v: u8) -> (r: Option<PayloadOpcode>)
        ensures
            r == Self::from_wire_spec(v),
    {
        if v == 0 {
            Some(PayloadOpcode::Dispatch)
        } else if v == 1 {
            Some(PayloadOpcode::Heartbeat)
        } else if v == 2 {
            Some(PayloadOpcode::Identify)
        } else if v == 3 {
            Some(PayloadOpcode::PresenceUpdate)
        } else if v == 4 {
            Some(PayloadOpcode::VoiceStateUpdate)
        } else if v == 6 {
            Some(PayloadOpcode::Resume)
        } else if v == 7 {
            Some(PayloadOpcode::Reconnect)
        } else if v == 8 {
            Some(PayloadOpcode::RequestGuildMembers)
        } else if v == 9 {
            Some(PayloadOpcode::InvalidSession)
        } else if v == 10 {
            Some(PayloadOpcode::Hello)
        } else if v == 11 {
            Some(PayloadOpcode::HeartbeatAck)
        } else {
            None
        }
    }
}

/// Decoding an encoded opcode gives the opcode back.
pub proof fn lemma_opcode_round_trip(op: PayloadOpcode)
    ensures
        PayloadOpcode::from_wire_spec(op.wire_value_spec()) == Some(op),
{
}

/// Any wire value that decodes at all re-encodes to itself.
pub proof fn lemma_wire_round_trip(v: u8)
    ensures
        match PayloadOpcode::from_wire_spec(v) {
            Some(op) => op.wire_value_spec() == v,
            None => true,
        },
{
}

/// A payload that knows the opcode it travels under.
pub trait PayloadData {
    /// The opcode this payload is tagged with on the wire.
    spec fn opcode_spec(&self) -> PayloadOpcode;

    fn get_opcode(&self) -> (r: PayloadOpcode)
        ensures
            r == self.opcode_spec(),
    ;
}

/// The identify control payload: credentials and capability flags for a
/// fresh session.
pub struct IdentifyPayload {
    pub token: String,
    pub intents: u64,
}

impl PayloadData for IdentifyPayload {
    open spec fn opcode_spec(&self) -> PayloadOpcode {
        PayloadOpcode::Identify
    }

    fn get_opcode(&self) -> (r: PayloadOpcode) {
        PayloadOpcode::Identify
    }
}

/// The resume control payload: requests replay of events missed since
/// `sequence` on the session named by `session_id`.
pub struct ResumePayload {
    pub token: String,
    pub session_id: String,
    pub sequence: u64,
}

impl PayloadData for ResumePayload {
    open spec fn opcode_spec(&self) -> PayloadOpcode {
        PayloadOpcode::Resume
    }

    fn get_opcode(&self) -> (r: PayloadOpcode) {
        PayloadOpcode::Resume
    }
}

/// The heartbeat payload, carrying the last tracked sequence.
pub struct HeartbeatPayload {
    pub sequence: Option<u64>,
}

impl PayloadData for HeartbeatPayload {
    open spec fn opcode_spec(&self) -> PayloadOpcode {
        PayloadOpcode::Heartbeat
    }

    fn get_opcode(&self) -> (r: PayloadOpcode) {
        PayloadOpcode::Heartbeat
    }
}

/// The server's initial control payload, carrying the heartbeat interval.
pub struct HelloPayload {
    pub heartbeat_interval: u64,
}

impl PayloadData for HelloPayload {
    open spec fn opcode_spec(&self) -> PayloadOpcode {
        PayloadOpcode::Hello
    }

    fn get_opcode(&self) -> (r: PayloadOpcode) {
        PayloadOpcode::Hello
    }
}

} // verus!
