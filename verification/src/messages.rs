//! The wire message model: the tagged set of protocol messages exchanged
//! over the chat connection (authentication handshake, heartbeat
//! request/acknowledgement, chat event batches), as plain data with
//! mathematical views.
use vstd::prelude::*;

verus! {

use crate::json::{fields_view, JsonV, JsonValue};

/// Short-lived credential used once to authenticate a chat session.
#[derive(Debug, PartialEq)]
pub struct ChatToken {
    /// Chat token to authenticate to chat with.
    pub token: String,
}

/// View of [`ChatToken`].
#[verifier::ext_equal]
pub struct ChatTokenV {
    pub token: Seq<char>,
}

impl View for ChatToken {
    type V = ChatTokenV;

    open spec fn view(&self) -> ChatTokenV {
        ChatTokenV { token: self.token@ }
    }
}

impl DeepView for ChatToken {
    type V = ChatTokenV;

    open spec fn deep_view(&self) -> ChatTokenV {
        self@
    }
}

/// Data carried by a heartbeat acknowledgement.
#[derive(Debug, PartialEq, Eq, Structural, Clone, Copy)]
pub struct PongMessageData {
    /// Interval in seconds that the peer advises between heartbeats.
    pub gap: u64,
}

/// Channel information sent with a chat event batch.
#[derive(Debug, PartialEq)]
pub struct ChannelInfo {
    /// Id of the channel the chat events were sent in.
    pub channel_id: String,
}

/// View of [`ChannelInfo`].
#[verifier::ext_equal]
pub struct ChannelInfoV {
    pub channel_id: Seq<char>,
}

impl View for ChannelInfo {
    type V = ChannelInfoV;

    open spec fn view(&self) -> ChannelInfoV {
        ChannelInfoV { channel_id: self.channel_id@ }
    }
}

impl DeepView for ChannelInfo {
    type V = ChannelInfoV;

    open spec fn deep_view(&self) -> ChannelInfoV {
        self@
    }
}

/// Kind of a chat event, identified on the wire by a numeric code.
#[derive(Debug, PartialEq, Eq, Structural, Clone, Copy)]
pub enum ChatMessageType {
    /// Normal chat messages.
    Normal,
    /// Spells, including mana and elixir spells.
    Spell,
    /// Magic chat - super cap chat.
    MagicSuperCap,
    /// Magic chat - colorful chat.
    MagicColorful,
    /// Magic chat - spell chat.
    MagicSpell,
    /// Magic chat - bullet screen chat.
    MagicBulletScreen,
    /// Shown when someone subscribes to the channel.
    Subscription,
    /// System message.
    System,
    /// Shown when someone follows the channel.
    Follow,
    /// Welcome message when a viewer joins the channel.
    Welcome,
    /// A user randomly sends gift subscriptions to one or more users.
    GiftSub,
    /// Detailed message when a user gifts a subscription to another user.
    GiftSubDetailed,
    /// Activity or platform-level event message.
    Event,
    /// Welcome message when users join the channel from a raid.
    Raid,
    /// Custom spells.
    CustomSpell,
}

/// The numeric code a chat event kind is carried as.
pub open spec fn type_code(t: ChatMessageType) -> int {
    match t {
        ChatMessageType::Normal => 0,
        ChatMessageType::Spell => 5,
        ChatMessageType::MagicSuperCap => 6,
        ChatMessageType::MagicColorful => 7,
        ChatMessageType::MagicSpell => 8,
        ChatMessageType::MagicBulletScreen => 9,
        ChatMessageType::Subscription => 5001,
        ChatMessageType::System => 5002,
        ChatMessageType::Follow => 5003,
        ChatMessageType::Welcome => 5004,
        ChatMessageType::GiftSub => 5005,
        ChatMessageType::GiftSubDetailed => 5006,
        ChatMessageType::Event => 5007,
        ChatMessageType::Raid => 5008,
        ChatMessageType::CustomSpell => 5009,
    }
}

/// The chat event kind a numeric code denotes, if any.
pub open spec fn spec_type_of_code(c: int) -> Option<ChatMessageType> {
    if c == 0 {
        Some(ChatMessageType::Normal)
    } else if c == 5 {
        Some(ChatMessageType::Spell)
    } else if c == 6 {
        Some(ChatMessageType::MagicSuperCap)
    } else if c == 7 {
        Some(ChatMessageType::MagicColorful)
    } else if c == 8 {
        Some(ChatMessageType::MagicSpell)
    } else if c == 9 {
        Some(ChatMessageType::MagicBulletScreen)
    } else if c == 5001 {
        Some(ChatMessageType::Subscription)
    } else if c == 5002 {
        Some(ChatMessageType::System)
    } else if c == 5003 {
        Some(ChatMessageType::Follow)
    } else if c == 5004 {
        Some(ChatMessageType::Welcome)
    } else if c == 5005 {
        Some(ChatMessageType::GiftSub)
    } else if c == 5006 {
        Some(ChatMessageType::GiftSubDetailed)
    } else if c == 5007 {
        Some(ChatMessageType::Event)
    } else if c == 5008 {
        Some(ChatMessageType::Raid)
    } else if c == 5009 {
        Some(ChatMessageType::CustomSpell)
    } else {
        None
    }
}

impl ChatMessageType {
    /// The numeric code this kind is carried as on the wire.
    pub fn code(&self) -> (c: u16)
        ensures
            c as int == type_code(*self),
    {
        match self {
            ChatMessageType::Normal => 0,
            ChatMessageType::Spell => 5,
            ChatMessageType::MagicSuperCap => 6,
            ChatMessageType::MagicColorful => 7,
            ChatMessageType::MagicSpell => 8,
            ChatMessageType::MagicBulletScreen => 9,
            ChatMessageType::Subscription => 5001,
            ChatMessageType::System => 5002,
            ChatMessageType::Follow => 5003,
            ChatMessageType::Welcome => 5004,
            ChatMessageType::GiftSub => 5005,
            ChatMessageType::GiftSubDetailed => 5006,
            ChatMessageType::Event => 5007,
            ChatMessageType::Raid => 5008,
            ChatMessageType::CustomSpell => 5009,
        }
    }

    /// The kind a numeric code denotes; unknown codes denote none.
    pub fn of_code(c: u16) -> (r: Option<ChatMessageType>)
        ensures
            r == spec_type_of_code(c as int),
    {
        if c == 0 {
            Some(ChatMessageType::Normal)
        } else if c == 5 {
            Some(ChatMessageType::Spell)
        } else if c == 6 {
            Some(ChatMessageType::MagicSuperCap)
        } else if c == 7 {
            Some(ChatMessageType::MagicColorful)
        } else if c == 8 {
            Some(ChatMessageType::MagicSpell)
        } else if c == 9 {
            Some(ChatMessageType::MagicBulletScreen)
        } else if c == 5001 {
            Some(ChatMessageType::Subscription)
        } else if c == 5002 {
            Some(ChatMessageType::System)
        } else if c == 5003 {
            Some(ChatMessageType::Follow)
        } else if c == 5004 {
            Some(ChatMessageType::Welcome)
        } else if c == 5005 {
            Some(ChatMessageType::GiftSub)
        } else if c == 5006 {
            Some(ChatMessageType::GiftSubDetailed)
        } else if c == 5007 {
            Some(ChatMessageType::Event)
        } else if c == 5008 {
            Some(ChatMessageType::Raid)
        } else if c == 5009 {
            Some(ChatMessageType::CustomSpell)
        } else {
            None
        }
    }
}

/// A kind's wire code always maps back to the same kind.
pub proof fn lemma_type_code_round_trip(t: ChatMessageType)
    ensures
        spec_type_of_code(type_code(t)) == Some(t),
{
}

/// A single chat event handed to the consumer.
#[derive(Debug, PartialEq)]
pub struct ChatMessage {
    /// Kind of chat event.
    pub type_: ChatMessageType,
    /// Content of the message.
    pub content: String,
    /// Display name of the sender.
    pub nick_name: String,
    /// URL of the sender's profile picture, if any.
    pub avatar: Option<String>,
    /// The subscription level of the sender in the channel.
    pub sub_lv: Option<String>,
    /// The badge names of the sender, in order.
    pub medals: Vec<String>,
    /// The decoration names of the sender, in order.
    pub decos: Vec<String>,
    /// The roles of the sender, in order.
    pub roles: Vec<String>,
    /// ID of the message.
    pub message_id: String,
    /// User ID of the sender.
    pub sender_id: i64,
    /// Extra structured data attached to the event, field by field.
    pub content_data: Vec<(String, JsonValue)>,
    /// Raw role descriptor of the sender, if any.
    pub custom_role: Option<String>,
}

/// View of [`ChatMessage`].
#[verifier::ext_equal]
pub struct ChatMessageV {
    pub type_: ChatMessageType,
    pub content: Seq<char>,
    pub nick_name: Seq<char>,
    pub avatar: Option<Seq<char>>,
    pub sub_lv: Option<Seq<char>>,
    pub medals: Seq<Seq<char>>,
    pub decos: Seq<Seq<char>>,
    pub roles: Seq<Seq<char>>,
    pub message_id: Seq<char>,
    pub sender_id: i64,
    pub content_data: Seq<(Seq<char>, JsonV)>,
    pub custom_role: Option<Seq<char>>,
}

impl View for ChatMessage {
    type V = ChatMessageV;

    open spec fn view(&self) -> ChatMessageV {
        ChatMessageV {
            type_: self.type_,
            content: self.content@,
            nick_name: self.nick_name@,
            avatar: self.avatar.deep_view(),
            sub_lv: self.sub_lv.deep_view(),
            medals: self.medals.deep_view(),
            decos: self.decos.deep_view(),
            roles: self.roles.deep_view(),
            message_id: self.message_id@,
            sender_id: self.sender_id,
            content_data: fields_view(self.content_data),
            custom_role: self.custom_role.deep_view(),
        }
    }
}

impl DeepView for ChatMessage {
    type V = ChatMessageV;

    open spec fn deep_view(&self) -> ChatMessageV {
        self@
    }
}

/// A batch of chat events delivered in one frame.
#[derive(Debug, PartialEq)]
pub struct ChatMessageData {
    /// Batch container ID; one batch may carry several events.
    pub eid: String,
    /// The chat events of the batch, in order.
    pub chats: Vec<ChatMessage>,
}

/// View of [`ChatMessageData`].
#[verifier::ext_equal]
pub struct ChatMessageDataV {
    pub eid: Seq<char>,
    pub chats: Seq<ChatMessageV>,
}

impl View for ChatMessageData {
    type V = ChatMessageDataV;

    open spec fn view(&self) -> ChatMessageDataV {
        ChatMessageDataV { eid: self.eid@, chats: self.chats.deep_view() }
    }
}

impl DeepView for ChatMessageData {
    type V = ChatMessageDataV;

    open spec fn deep_view(&self) -> ChatMessageDataV {
        self@
    }
}

/// A protocol message exchanged over the chat connection.
#[derive(Debug, PartialEq)]
pub enum ChatSocketMessage {
    /// Authenticate the chat session; sent by this client.
    Auth {
        /// Echoed back by the peer, used to map a request to a reply.
        nonce: String,
        /// The chat token to authenticate with.
        data: ChatToken,
    },
    /// Sent by the peer to acknowledge the authentication message.
    Response {
        /// The nonce of the request being acknowledged.
        nonce: String,
    },
    /// Heartbeat request keeping the connection alive; sent by this client.
    Ping {
        /// Echoed back by the peer, used to map a request to a reply.
        nonce: String,
    },
    /// Heartbeat acknowledgement from the peer.
    Pong {
        /// The nonce of the heartbeat being acknowledged.
        nonce: String,
        /// Heartbeat response data.
        data: PongMessageData,
    },
    /// A batch of chat events from the peer.
    Chat {
        /// Which channel the events were sent in, when known.
        channel_info: Option<ChannelInfo>,
        /// The chat events of the batch.
        data: ChatMessageData,
    },
}

/// View of [`ChatSocketMessage`].
#[verifier::ext_equal]
pub enum MsgV {
    Auth { nonce: Seq<char>, data: ChatTokenV },
    Response { nonce: Seq<char> },
    Ping { nonce: Seq<char> },
    Pong { nonce: Seq<char>, data: PongMessageData },
    Chat { channel_info: Option<ChannelInfoV>, data: ChatMessageDataV },
}

impl View for ChatSocketMessage {
    type V = MsgV;

    open spec fn view(&self) -> MsgV {
        match self {
            ChatSocketMessage::Auth { nonce, data } => MsgV::Auth { nonce: nonce@, data: data@ },
            ChatSocketMessage::Response { nonce } => MsgV::Response { nonce: nonce@ },
            ChatSocketMessage::Ping { nonce } => MsgV::Ping { nonce: nonce@ },
            ChatSocketMessage::Pong { nonce, data } => MsgV::Pong { nonce: nonce@, data: *data },
            ChatSocketMessage::Chat { channel_info, data } => MsgV::Chat {
                channel_info: channel_info.deep_view(),
                data: data@,
            },
        }
    }
}

impl DeepView for ChatSocketMessage {
    type V = MsgV;

    open spec fn deep_view(&self) -> MsgV {
        self@
    }
}

/// Payload of the request that sends a chat line.
#[derive(Debug, PartialEq)]
pub struct SendChatMessagePayload {
    /// The message contents.
    pub content: String,
    /// The channel to send the message in; the sender's own channel when
    /// absent.
    pub channel_id: Option<String>,
}

/// View of [`SendChatMessagePayload`].
#[verifier::ext_equal]
pub struct SendChatMessagePayloadV {
    pub content: Seq<char>,
    pub channel_id: Option<Seq<char>>,
}

impl View for SendChatMessagePayload {
    type V = SendChatMessagePayloadV;

    open spec fn view(&self) -> SendChatMessagePayloadV {
        SendChatMessagePayloadV {
            content: self.content@,
            channel_id: self.channel_id.deep_view(),
        }
    }
}

} // verus!
