//! Data carried between the gateway, the dispatcher and the market-data logic.

use vstd::prelude::*;

verus! {

/// Interaction kind sent by the platform as a liveness handshake.
pub const INTERACTION_PING: u8 = 1;

/// Interaction kind carrying a slash command.
pub const INTERACTION_COMMAND: u8 = 2;

/// Reply kind acknowledging a handshake.
pub const RESPONSE_PONG: u8 = 1;

/// Reply kind carrying a message.
pub const RESPONSE_MESSAGE: u8 = 4;

/// Flag marking a message as visible to the invoking user only.
pub const FLAG_EPHEMERAL: u64 = 64;

/// The user who invoked an interaction.
#[derive(Debug, Clone)]
pub struct User {
    pub id: String,
}

/// Guild membership wrapper around the invoking user.
#[derive(Debug, Clone)]
pub struct Member {
    pub user: Option<User>,
}

/// An untyped scalar supplied as a command option.
#[derive(Debug, Clone)]
pub enum OptionValue {
    Text(String),
    /// A numeric value, in hundredths.
    Number(i64),
    Flag(bool),
}

/// One (name, value) pair of a command.
#[derive(Debug, Clone)]
pub struct CommandOption {
    pub name: String,
    pub value: Option<OptionValue>,
}

/// The command part of an interaction.
#[derive(Debug, Clone)]
pub struct InteractionData {
    pub name: String,
    pub options: Option<Vec<CommandOption>>,
}

/// One inbound interaction.
#[derive(Debug, Clone)]
pub struct DiscordInteraction {
    pub interaction_type: u8,
    pub id: Option<String>,
    pub application_id: Option<String>,
    pub data: Option<InteractionData>,
    pub member: Option<Member>,
    pub user: Option<User>,
}

/// What an interaction is, by its kind number.
#[derive(Debug, Clone, Copy, PartialEq, Eq)]
pub enum InteractionKind {
    /// Liveness ping that is answered with a fixed acknowledgment.
    Handshake,
    /// A slash command.
    Command,
    /// Any other kind.
    Other,
}

impl DiscordInteraction {
    /// The kind of the interaction.
    pub open spec fn spec_kind(&self) -> InteractionKind {
        if self.interaction_type == INTERACTION_PING {
            InteractionKind::Handshake
        } else if self.interaction_type == INTERACTION_COMMAND {
            InteractionKind::Command
        } else {
            InteractionKind::Other
        }
    }

    /// The kind of the interaction.
    #[verifier::when_used_as_spec(spec_kind)]
    pub fn kind(&self) -> (res: InteractionKind)
        ensures
            res == self.spec_kind(),
    {
        if self.interaction_type == INTERACTION_PING {
            InteractionKind::Handshake
        } else if self.interaction_type == INTERACTION_COMMAND {
            InteractionKind::Command
        } else {
            InteractionKind::Other
        }
    }
}

/// Content of a message reply.
#[derive(Debug, Clone)]
pub struct InteractionResponseData {
    pub content: String,
    pub flags: Option<u64>,
}

/// A reply to an interaction.
#[derive(Debug, Clone)]
pub struct InteractionResponse {
    pub response_type: u8,
    pub data: Option<InteractionResponseData>,
}

/// What a reply is, as a tagged value.
pub enum Reply {
    /// Handshake acknowledgment; carries no content.
    Acknowledge,
    /// Message visible to everyone.
    Message(Seq<char>),
    /// Message visible to the invoker only.
    EphemeralMessage(Seq<char>),
}

impl View for InteractionResponse {
    type V = Reply;

    open spec fn view(&self) -> Reply {
        match self.data {
            None => Reply::Acknowledge,
            Some(d) => if d.flags == Some(FLAG_EPHEMERAL) {
                Reply::EphemeralMessage(d.content@)
            } else {
                Reply::Message(d.content@)
            },
        }
    }
}

impl InteractionResponse {
    /// An acknowledgment carries no content; a message always carries content and
    /// is either unflagged or flagged ephemeral.
    pub open spec fn wf(&self) -> bool {
        match self.data {
            None => self.response_type == RESPONSE_PONG,
            Some(d) => self.response_type == RESPONSE_MESSAGE && (d.flags is None || d.flags
                == Some(FLAG_EPHEMERAL)),
        }
    }

    /// The handshake acknowledgment.
    pub fn pong() -> (res: Self)
        ensures
            res.wf(),
            res@ == Reply::Acknowledge,
            res.response_type == RESPONSE_PONG,
            res.data is None,
    {
        InteractionResponse { response_type: RESPONSE_PONG, data: None }
    }

    /// A message visible to everyone.
    pub fn message(content: String) -> (res: Self)
        ensures
            res.wf(),
            res@ == Reply::Message(content@),
            res.response_type == RESPONSE_MESSAGE,
            res.data == Some(InteractionResponseData { content, flags: None }),
    {
        InteractionResponse {
            response_type: RESPONSE_MESSAGE,
            data: Some(InteractionResponseData { content, flags: None }),
        }
    }

    /// A message visible to the invoker only.
    pub fn ephemeral_message(content: String) -> (res: Self)
        ensures
            res.wf(),
            res@ == Reply::EphemeralMessage(content@),
            res.response_type == RESPONSE_MESSAGE,
            res.data == Some(InteractionResponseData { content, flags: Some(FLAG_EPHEMERAL) }),
    {
        InteractionResponse {
            response_type: RESPONSE_MESSAGE,
            data: Some(InteractionResponseData { content, flags: Some(FLAG_EPHEMERAL) }),
        }
    }
}

/// Exact quotient `numerator / denominator`, kept unreduced.
#[derive(Debug, Clone)]
pub struct Percent {
    pub numerator: i128,
    pub denominator: i64,
}

/// Normalized price figures for one instant.
#[derive(Debug, Clone)]
pub struct StockPrice {
    pub symbol: String,
    pub timestamp: i64,
    pub price: i64,
    pub open_price: Option<i64>,
    pub high_price: Option<i64>,
    pub low_price: Option<i64>,
    pub volume: Option<u64>,
    pub previous_close: Option<i64>,
    pub change: Option<i128>,
    pub change_percent: Option<Percent>,
}

impl StockPrice {
    /// Change and change-percent are present exactly when the previous close is,
    /// and then equal `price - previous_close` and `100 * change / previous_close`.
    pub open spec fn wf(&self) -> bool {
        match self.previous_close {
            None => self.change is None && self.change_percent is None,
            Some(p) => self.change == Some((self.price - p) as i128) && self.change_percent == Some(
                (Percent { numerator: (100 * (self.price - p)) as i128, denominator: p }),
            ),
        }
    }
}

/// One tracked symbol of one user.
#[derive(Debug, Clone)]
pub struct WatchlistItem {
    pub user_id: String,
    pub symbol: String,
    pub added_at: i64,
    pub alert_threshold: Option<i64>,
}

} // verus!
