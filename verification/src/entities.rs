//! The records the request/response side of the service exchanges: users,
//! channels, emotes, and the payloads of the calls that fetch them. These
//! carry no protocol logic; timestamps are held as Unix seconds.
use vstd::prelude::*;

verus! {

/// User details returned by the user lookup call.
#[derive(Debug, PartialEq)]
pub struct User {
    /// Unique id of a user.
    pub user_id: String,
    /// Unique id of a channel.
    pub channel_id: String,
    /// The username of a user, unique across the platform.
    pub username: String,
    /// The display name of a user; may differ from the username.
    pub nickname: String,
}

/// Payload for the get-users call.
#[derive(Debug, PartialEq)]
pub struct GetUsersPayload {
    /// The usernames to look up; not case sensitive.
    pub user: Vec<String>,
}

/// Response of the get-users call.
#[derive(Debug, PartialEq)]
pub struct GetUsersResponse {
    /// The user info for each username requested.
    pub users: Vec<User>,
}

/// Payload for the get-channel-by-id call.
#[derive(Debug, PartialEq)]
pub struct GetChannelByIdPayload {
    /// Which channel is being requested.
    pub channel_id: String,
}

/// Audience type of a channel.
#[derive(Debug, PartialEq, Eq, Structural, Clone, Copy)]
pub enum AudienceType {
    /// Family friendly.
    FamilyFriendly,
    /// Teen.
    Teen,
    /// Eighteen and over.
    EighteenPlus,
}

/// Social media link of a channel.
#[derive(Debug, PartialEq)]
pub struct SocialLink {
    /// Social media platform.
    pub type_: String,
    /// URL of the account on that platform.
    pub url: String,
}

/// Channel details returned by the channel lookup call.
#[derive(Debug, PartialEq)]
pub struct ChannelInfo {
    /// Whether the channel is currently live streaming.
    pub is_live: bool,
    /// The id of the game category.
    pub category_id: String,
    /// Text name of the category.
    pub category_name: String,
    /// Current title of the channel.
    pub live_title: String,
    /// Audience type.
    pub audi_type: AudienceType,
    /// Language of the channel as a two-letter code.
    pub language_code: String,
    /// URL of the thumbnail; empty when the previous stream's expired.
    pub thumbnail: String,
    /// Number of current viewers.
    pub current_viewers: u64,
    /// Number of followers.
    pub followers: u64,
    /// Profile information of the streamer.
    pub streamer_info: String,
    /// URL of the streamer's profile picture.
    pub profile_pic: String,
    /// URL of the channel.
    pub channel_url: String,
    /// When the streamer account was created, in Unix seconds.
    pub created_at: i64,
    /// Count of subscribers.
    pub subscriber_num: u64,
    /// Username of the channel's streamer.
    pub username: String,
    /// Social media links of the streamer.
    pub social_links: Vec<SocialLink>,
    /// When the latest stream started, in Unix seconds.
    pub started_at: i64,
    /// When the latest stream ended, in Unix seconds.
    pub ended_at: i64,
}

/// Which emotes to fetch.
#[derive(Debug, PartialEq, Eq, Structural, Clone, Copy)]
pub enum EmoteFetchType {
    /// Platform-level emotes and the custom emotes of the channels.
    All,
    /// Only the custom emotes of the channels.
    Custom,
    /// Only platform-level emotes.
    Platform,
}

impl Default for EmoteFetchType {
    /// Fetching everything is the default.
    fn default() -> (r: Self)
        ensures
            r == EmoteFetchType::All,
    {
        EmoteFetchType::All
    }
}

/// Payload for the get-emotes call.
#[derive(Debug, PartialEq)]
pub struct GetEmotesPayload {
    /// The kind of emotes wanted.
    pub emote_type: EmoteFetchType,
    /// The channels to request emotes for.
    pub channel_id: Vec<String>,
}

/// An emote, in any of the fetched groups.
#[derive(Debug, PartialEq)]
pub struct Emote {
    /// Name of the emote.
    pub name: String,
    /// Description of the emote.
    pub description: String,
    /// URL of the emote.
    pub url: String,
    /// Availability status of the emote.
    pub status: String,
    /// Name of the platform-level limited emote activity, if any.
    pub activity_name: Option<String>,
    /// Gifp URL of the emote, if any.
    pub gifp: Option<String>,
    /// Webp URL of the emote, if any.
    pub webp: Option<String>,
    /// Update time of the emote in seconds, if any.
    pub update_time: Option<String>,
}

/// A channel id and its emotes.
#[derive(Debug, PartialEq)]
pub struct ChannelEmotes {
    /// Id of the channel.
    pub channel_id: String,
    /// The channel's emotes.
    pub emotes: Vec<Emote>,
}

/// Container for customized emotes.
#[derive(Debug, PartialEq)]
pub struct CustomizedEmotes {
    /// The channels and their emotes.
    pub channel: Vec<ChannelEmotes>,
}

/// The emote groups of the get-emotes response.
#[derive(Debug, PartialEq)]
pub struct EmoteChannels {
    /// Customized and channel emotes.
    pub customized_emotes: CustomizedEmotes,
    /// Event emotes.
    pub event_emotes: Vec<Emote>,
    /// Global emotes.
    pub global_emotes: Vec<Emote>,
}

/// Response of the get-emotes call.
#[derive(Debug, PartialEq)]
pub struct GetEmotesResponse {
    /// The emote groups.
    pub channels: EmoteChannels,
}

} // verus!
