//! The message resource, modeled down to the plain values the core reads.
//! The full wire schema, with its serialization derives, lives in the host
//! crate; these types carry what the logic and the handlers consume.

use vstd::prelude::*;

use crate::Snowflake;
use crate::interaction_type::InteractionType;

verus! {

/// A user as the core reads it.
pub struct User {
    pub id: Snowflake,
    pub username: String,
    /// Whether the account is a bot account.
    pub bot: bool,
}

/// The kind of a message.
#[derive(Clone, Copy, PartialEq, Eq, Structural, Debug)]
pub enum MessageType {
    /// An ordinary user message.
    Regular,
    /// A reply to another message.
    Reply,
    /// The visible result of a slash command invocation.
    ChatInputCommand,
    /// The visible result of a context-menu command invocation.
    ContextMenuCommand,
    /// Any other kind the core does not distinguish.
    Other,
}

/// A message sent in a channel.
pub struct Message {
    /// Id of the message.
    pub id: Snowflake,
    /// Id of the channel the message was sent in.
    pub channel_id: Snowflake,
    /// Id of the guild the message was sent in, when it was sent in one.
    pub guild_id: Option<Snowflake>,
    /// Author of this message; absent when a webhook produced it.
    pub author: Option<User>,
    /// Contents of the message.
    pub content: String,
    /// When this message was sent.
    pub timestamp: String,
    /// When this message was edited, or `None` if never.
    pub edited_timestamp: Option<String>,
    /// Whether this was a text-to-speech message.
    pub tts: bool,
    /// Whether this message mentions everyone.
    pub mention_everyone: bool,
    /// Roles specifically mentioned in this message.
    pub mention_roles: Vec<Snowflake>,
    /// Used for validating that a message was sent.
    pub nonce: Option<String>,
    /// Whether this message is pinned.
    pub pinned: bool,
    /// If the message is generated by a webhook, this is the webhook's id.
    pub webhook_id: Option<Snowflake>,
    /// Kind of message.
    pub type_: MessageType,
    /// If the message responds to an interaction, the interaction's
    /// application id.
    pub application_id: Option<Snowflake>,
    /// Sent if the message is a response to an interaction.
    pub interaction: Option<Box<MessageInteraction>>,
}

impl Message {
    /// Whether a webhook, rather than a user, produced this message.
    pub fn is_webhook(&self) -> (r: bool)
        ensures
            r == (self.webhook_id is Some),
    {
        self.webhook_id.is_some()
    }
}

/// The interaction a message responds to.
pub struct MessageInteraction {
    /// Id of the interaction.
    pub id: Snowflake,
    /// The kind of interaction.
    pub type_: InteractionType,
    /// The name of the application command.
    pub name: String,
    /// The user who invoked the interaction.
    pub user: User,
}

} // verus!
