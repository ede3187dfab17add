//! The kinds of interaction a client can receive, with their numeric wire
//! encoding.

use vstd::prelude::*;

verus! {

/// The kind of an interaction.
#[derive(Clone, Copy, PartialEq, Eq, Structural, Debug)]
pub enum InteractionType {
    Ping,
    ApplicationCommand,
    MessageComponent,
    ApplicationCommandAutocomplete,
    ModalSubmit,
}

impl InteractionType {
    /// The numeric value this kind takes on the wire.
    pub open spec fn wire_value_spec(self) -> u8 {
        match self {
            InteractionType::Ping => 1,
            InteractionType::ApplicationCommand => 2,
            InteractionType::MessageComponent => 3,
            InteractionType::ApplicationCommandAutocomplete => 4,
            InteractionType::ModalSubmit => 5,
        }
    }

    pub open spec fn from_wire_spec(v: u8) -> Option<InteractionType> {
        if v == 1 {
            Some(InteractionType::Ping)
        } else if v == 2 {
            Some(InteractionType::ApplicationCommand)
        } else if v == 3 {
            Some(InteractionType::MessageComponent)
        } else if v == 4 {
            Some(InteractionType::ApplicationCommandAutocomplete)
        } else if v == 5 {
            Some(InteractionType::ModalSubmit)
        } else {
            None
        }
    }

    pub fn wire_value(&self) -> (r: u8)
        ensures
            r == self.wire_value_spec(),
    {
        match self {
            InteractionType::Ping => 1,
            InteractionType::ApplicationCommand => 2,
            InteractionType::MessageComponent => 3,
            InteractionType::ApplicationCommandAutocomplete => 4,
            InteractionType::ModalSubmit => 5,
        }
    }

    pub fn from_wire(v: u8) -> (r: Option<InteractionType>)
        ensures
            r == Self::from_wire_spec(v),
    {
        if v == 1 {
            Some(InteractionType::Ping)
        } else if v == 2 {
            Some(InteractionType::ApplicationCommand)
        } else if v == 3 {
            Some(InteractionType::MessageComponent)
        } else if v == 4 {
            Some(InteractionType::ApplicationCommandAutocomplete)
        } else if v == 5 {
            Some(InteractionType::ModalSubmit)
        } else {
            None
        }
    }
}

/// Decoding an encoded interaction kind gives the kind back.
pub proof fn lemma_interaction_type_round_trip(t: InteractionType)
    ensures
        InteractionType::from_wire_spec(t.wire_value_spec()) == Some(t),
{
}

} // verus!
