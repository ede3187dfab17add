//! Application command schema kinds and the route descriptors of the global
//! command endpoints. The command kinds travel as numbers on the wire; the
//! codecs here pin those values and their round trip.

use vstd::prelude::*;

use crate::decimal::{decimal_of, u64_to_decimal};
use crate::route::RequestRoute;
use crate::Snowflake;

verus! {

/// The kind of an application command.
#[derive(Clone, Copy, PartialEq, Eq, Structural, Debug)]
pub enum ApplicationCommandType {
    /// A slash command, entered as text.
    ChatInput,
    /// Invoked from a user's context menu.
    User,
    /// Invoked from a message's context menu.
    Message,
}

impl ApplicationCommandType {
    /// The numeric value this kind takes on the wire.
    pub open spec fn wire_value_spec(self) -> u8 {
        match self {
            ApplicationCommandType::ChatInput => 1,
            ApplicationCommandType::User => 2,
            ApplicationCommandType::Message => 3,
        }
    }

    pub open spec fn from_wire_spec(v: u8) -> Option<ApplicationCommandType> {
        if v == 1 {
            Some(ApplicationCommandType::ChatInput)
        } else if v == 2 {
            Some(ApplicationCommandType::User)
        } else if v == 3 {
            Some(ApplicationCommandType::Message)
        } else {
            None
        }
    }

    pub fn wire_value(&self) -> (r: u8)
        ensures
            r == self.wire_value_spec(),
    {
        match self {
            ApplicationCommandType::ChatInput => 1,
            ApplicationCommandType::User => 2,
            ApplicationCommandType::Message => 3,
        }
    }

    pub fn from_wire(v: u8) -> (r: Option<ApplicationCommandType>)
        ensures
            r == Self::from_wire_spec(v),
    {
        if v == 1 {
            Some(ApplicationCommandType::ChatInput)
        } else if v == 2 {
            Some(ApplicationCommandType::User)
        } else if v == 3 {
            Some(ApplicationCommandType::Message)
        } else {
            None
        }
    }
}

/// The kind of one declared command option.
#[derive(Clone, Copy, PartialEq, Eq, Structural, Debug)]
pub enum ApplicationCommandOptionType {
    SubCommand,
    SubCommandGroup,
    /// A text option (a string on the wire).
    Text,
    /// Any integer between -2^53 and 2^53.
    Integer,
    Boolean,
    User,
    /// Includes all channel kinds and categories.
    Channel,
    Role,
    /// Includes users and roles.
    Mentionable,
    /// Any double between -2^53 and 2^53.
    Number,
}

impl ApplicationCommandOptionType {
    /// The numeric value this kind takes on the wire.
    pub open spec fn wire_value_spec(self) -> u8 {
        match self {
            ApplicationCommandOptionType::SubCommand => 1,
            ApplicationCommandOptionType::SubCommandGroup => 2,
            ApplicationCommandOptionType::Text => 3,
            ApplicationCommandOptionType::Integer => 4,
            ApplicationCommandOptionType::Boolean => 5,
            ApplicationCommandOptionType::User => 6,
            ApplicationCommandOptionType::Channel => 7,
            ApplicationCommandOptionType::Role => 8,
            ApplicationCommandOptionType::Mentionable => 9,
            ApplicationCommandOptionType::Number => 10,
        }
    }

    pub open spec fn from_wire_spec(v: u8) -> Option<ApplicationCommandOptionType> {
        if v == 1 {
            Some(ApplicationCommandOptionType::SubCommand)
        } else if v == 2 {
            Some(ApplicationCommandOptionType::SubCommandGroup)
        } else if v == 3 {
            Some(ApplicationCommandOptionType::Text)
        } else if v == 4 {
            Some(ApplicationCommandOptionType::Integer)
        } else if v == 5 {
            Some(ApplicationCommandOptionType::Boolean)
        } else if v == 6 {
            Some(ApplicationCommandOptionType::User)
        } else if v == 7 {
            Some(ApplicationCommandOptionType::Channel)
        } else if v == 8 {
            Some(ApplicationCommandOptionType::Role)
        } else if v == 9 {
            Some(ApplicationCommandOptionType::Mentionable)
        } else if v == 10 {
            Some(ApplicationCommandOptionType::Number)
        } else {
            None
        }
    }

    pub fn wire_value(&self) -> (r: u8)
        ensures
            r == self.wire_value_spec(),
    {
        match self {
            ApplicationCommandOptionType::SubCommand => 1,
            ApplicationCommandOptionType::SubCommandGroup => 2,
            ApplicationCommandOptionType::Text => 3,
            ApplicationCommandOptionType::Integer => 4,
            ApplicationCommandOptionType::Boolean => 5,
            ApplicationCommandOptionType::User => 6,
            ApplicationCommandOptionType::Channel => 7,
            ApplicationCommandOptionType::Role => 8,
            ApplicationCommandOptionType::Mentionable => 9,
            ApplicationCommandOptionType::Number => 10,
        }
    }

    pub fn from_wire(v: u8) -> (r: Option<ApplicationCommandOptionType>)
        ensures
            r == Self::from_wire_spec(v),
    {
        if v == 1 {
            Some(ApplicationCommandOptionType::SubCommand)
        } else if v == 2 {
            Some(ApplicationCommandOptionType::SubCommandGroup)
        } else if v == 3 {
            Some(ApplicationCommandOptionType::Text)
        } else if v == 4 {
            Some(ApplicationCommandOptionType::Integer)
        } else if v == 5 {
            Some(ApplicationCommandOptionType::Boolean)
        } else if v == 6 {
            Some(ApplicationCommandOptionType::User)
        } else if v == 7 {
            Some(ApplicationCommandOptionType::Channel)
        } else if v == 8 {
            Some(ApplicationCommandOptionType::Role)
        } else if v == 9 {
            Some(ApplicationCommandOptionType::Mentionable)
        } else if v == 10 {
            Some(ApplicationCommandOptionType::Number)
        } else {
            None
        }
    }
}

/// Decoding an encoded command kind gives the kind back.
pub proof fn lemma_command_type_round_trip(t: ApplicationCommandType)
    ensures
        ApplicationCommandType::from_wire_spec(t.wire_value_spec()) == Some(t),
{
}

/// Decoding an encoded option kind gives the kind back.
pub proof fn lemma_option_type_round_trip(t: ApplicationCommandOptionType)
    ensures
        ApplicationCommandOptionType::from_wire_spec(t.wire_value_spec()) == Some(t),
{
}

/// The route of the global application command collection: all global
/// command endpoints share one rate-limit family, with no major parameter.
pub fn global_commands_route() -> (r: RequestRoute)
    ensures
        r.base_route@ == "/applications/{application.id}/commands"@,
        r.major_param@ == ""@,
{
    RequestRoute {
        base_route: String::from_str("/applications/{application.id}/commands"),
        major_param: String::from_str(""),
    }
}

/// The route of a single global application command: still templated — the
/// command id is a minor parameter and does not split the rate-limit family.
pub fn global_command_item_route() -> (r: RequestRoute)
    ensures
        r.base_route@ == "/applications/{application.id}/commands/{command.id}/"@,
        r.major_param@ == ""@,
    {
    RequestRoute {
        base_route: String::from_str("/applications/{application.id}/commands/{command.id}/"),
        major_param: String::from_str(""),
    }
}

/// The URI of the global command collection under the given API base.
pub fn global_commands_uri(base: &str, application_id: Snowflake) -> (r: String)
    ensures
        r@ == base@ + "/applications/"@ + decimal_of(application_id.0 as nat) + "/commands"@,
{
    let mut r = String::from_str(base);
    r.append("/applications/");
    let app = u64_to_decimal(application_id.0);
    r.append(app.as_str());
    r.append("/commands");
    r
}

/// The URI of one global command under the given API base.
pub fn global_command_item_uri(base: &str, application_id: Snowflake, command_id: Snowflake) -> (r:
    String)
    ensures
        r@ == base@ + "/applications/"@ + decimal_of(application_id.0 as nat) + "/commands/"@
            + decimal_of(command_id.0 as nat) + "/"@,
{
    let mut r = String::from_str(base);
    r.append("/applications/");
    let app = u64_to_decimal(application_id.0);
    r.append(app.as_str());
    r.append("/commands/");
    let cmd = u64_to_decimal(command_id.0);
    r.append(cmd.as_str());
    r.append("/");
    r
}

} // verus!
