use vstd::prelude::*;

verus! {

/// A channel as the REST API describes it.
#[derive(Debug, Clone)]
pub struct Channel {
    pub last_message_id: Option<String>,
    pub flags: Option<usize>,
    pub guild_id: Option<String>,
    pub parent_id: Option<String>,
    pub topic: Option<String>,
    pub rate_limit_per_user: Option<usize>,
    pub position: Option<usize>,
    pub nsfw: Option<bool>,
    pub name: Option<String>,
    pub id: String,
    pub channel_type: u32,
    pub mention: String,
}

/// A chat message.
#[derive(Debug, Clone)]
pub struct Message {
    pub tts: bool,
    pub timestamp: Option<String>,
    pub pinned: bool,
    pub mention_everyone: bool,
    pub flags: usize,
    pub edited_timestamp: Option<String>,
    pub content: String,
    pub channel_id: String,
    pub author_id: Option<String>,
    pub guild_id: Option<String>,
    pub id: String,
}

/// A gateway frame whose payload is a message.
#[derive(Debug, Clone)]
pub struct MessageResponse {
    pub data: Message,
}

/// The body of a message to send.
#[derive(Debug, Clone)]
pub struct CreateMessageData {
    pub content: String,
    pub tts: bool,
    pub flags: Option<u32>,
}

impl CreateMessageData {
    /// A plain text message.
    pub fn text(content: &str) -> (r: CreateMessageData)
        ensures
            r.content@ == content@,
            !r.tts,
            r.flags is None,
    {
        CreateMessageData { content: String::from_str(content), tts: false, flags: None }
    }
}

impl From<String> for CreateMessageData {
    fn from(value: String) -> (r: CreateMessageData) {
        CreateMessageData { content: value, tts: false, flags: None }
    }
}

impl vstd::std_specs::convert::FromSpecImpl<String> for CreateMessageData {
    open spec fn obeys_from_spec() -> bool {
        true
    }

    open spec fn from_spec(v: String) -> CreateMessageData {
        CreateMessageData { content: v, tts: false, flags: None }
    }
}

} // verus!
