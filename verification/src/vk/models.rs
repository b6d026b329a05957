use vstd::prelude::*;

verus! {

/// The reply of the VK Video channel endpoint.
#[derive(Debug, Clone)]
pub struct Data {
    pub data: DataClass,
}

#[derive(Debug, Clone)]
pub struct DataClass {
    pub channel: Channel,
    pub owner: Owner,
    pub streams: Vec<Stream>,
}

#[derive(Debug, Clone)]
pub struct Channel {
    pub url: String,
    pub cover_url: String,
    pub status: String,
    pub counters: ChannelCounters,
    pub id: i64,
    pub avatar_url: String,
    pub nick: String,
}

#[derive(Debug, Clone, Copy, PartialEq, Eq, Structural)]
pub struct ChannelCounters {
    pub subscribers: i64,
}

#[derive(Debug, Clone)]
pub struct Owner {
    pub avatar_url: String,
    pub nick: String,
    pub id: i64,
    pub is_verified_streamer: bool,
}

#[derive(Debug, Clone)]
pub struct Stream {
    pub id: String,
    pub title: String,
    pub started_at: i64,
    pub ended_at: i64,
    pub counters: StreamCounters,
    pub reactions: Vec<Reaction>,
    pub preview_url: String,
    pub video_id: String,
    pub slot: Slot,
    pub status: String,
}

#[derive(Debug, Clone, Copy, PartialEq, Eq, Structural)]
pub struct StreamCounters {
    pub viewers: i64,
    pub views: i64,
}

/// A reaction to a stream; `reaction_type` is the reply's `type` field.
#[derive(Debug, Clone)]
pub struct Reaction {
    pub reaction_type: String,
    pub count: i64,
}

#[derive(Debug, Clone)]
pub struct Slot {
    pub id: i64,
    pub url: String,
}

} // verus!
