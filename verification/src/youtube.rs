use vstd::prelude::*;

use crate::error::FetchError;

verus! {

/// An item of a `channels.list` reply.
#[derive(Debug, Clone)]
pub struct ChannelItem {
    pub id: Option<String>,
}

/// The id part of a `search.list` item.
#[derive(Debug, Clone)]
pub struct ResourceId {
    pub video_id: Option<String>,
}

/// An item of a `search.list` reply.
#[derive(Debug, Clone)]
pub struct SearchResult {
    pub id: Option<ResourceId>,
}

/// The live part of a video.
#[derive(Debug, Clone, Copy, PartialEq, Eq, Structural)]
pub struct LiveStreamingDetails {
    pub concurrent_viewers: Option<u64>,
}

/// An item of a `videos.list` reply.
#[derive(Debug, Clone, Copy, PartialEq, Eq, Structural)]
pub struct Video {
    pub live_streaming_details: Option<LiveStreamingDetails>,
}

/// A request that a YouTube lookup asks to be made.
#[derive(Debug, Clone)]
pub enum YouTubeRequest {
    /// `channels.list` for the channel with this handle.
    ChannelByHandle(String),
    /// `search.list` for the live video of the channel with this id.
    LiveSearch(String),
    /// `videos.list` with the live details of the video with this id.
    LiveDetails(String),
}

/// What a YouTube lookup does next.
#[derive(Debug, Clone)]
pub enum YouTubeStep {
    Ask(YouTubeRequest),
    Done(u64),
    Failed(FetchError),
}

/// A request as plain values.
pub enum RequestView {
    ChannelByHandle(Seq<char>),
    LiveSearch(Seq<char>),
    LiveDetails(Seq<char>),
}

pub open spec fn request_view(r: YouTubeRequest) -> RequestView {
    match r {
        YouTubeRequest::ChannelByHandle(h) => RequestView::ChannelByHandle(h@),
        YouTubeRequest::LiveSearch(id) => RequestView::LiveSearch(id@),
        YouTubeRequest::LiveDetails(id) => RequestView::LiveDetails(id@),
    }
}

/// A step as plain values.
pub enum StepView {
    Ask(RequestView),
    Done(u64),
    Failed(FetchError),
}

pub open spec fn step_view(s: YouTubeStep) -> StepView {
    match s {
        YouTubeStep::Ask(r) => StepView::Ask(request_view(r)),
        YouTubeStep::Done(n) => StepView::Done(n),
        YouTubeStep::Failed(e) => StepView::Failed(e),
    }
}

/// The video that the first item of a `search.list` reply names, if it names one.
pub open spec fn first_live_video(items: Option<Seq<SearchResult>>) -> Option<Seq<char>> {
    match items {
        Some(v) => if v.len() > 0 && v[0].id is Some && v[0].id->0.video_id is Some {
            Some(v[0].id->0.video_id->0@)
        } else {
            None
        },
        None => None,
    }
}

/// The id of the first channel of a `channels.list` reply, if it has one.
pub open spec fn first_channel(items: Option<Seq<ChannelItem>>) -> Option<Seq<char>> {
    match items {
        Some(v) => if v.len() > 0 && v[0].id is Some {
            Some(v[0].id->0@)
        } else {
            None
        },
        None => None,
    }
}

/// The concurrent viewers of the first video of a `videos.list` reply, if
/// it shows them.
pub open spec fn first_viewers(items: Option<Seq<Video>>) -> Option<u64> {
    match items {
        Some(v) => if v.len() > 0 && v[0].live_streaming_details is Some
            && v[0].live_streaming_details->0.concurrent_viewers is Some {
            Some(v[0].live_streaming_details->0.concurrent_viewers->0)
        } else {
            None
        },
        None => None,
    }
}

/// The channel id that a `channels.list` reply gives, or why it gives none.
pub open spec fn channel_id_of(items: Option<Seq<ChannelItem>>) -> Result<Seq<char>, FetchError> {
    match items {
        Some(v) if v.len() > 0 => match v[0].id {
            Some(id) => Ok(id@),
            None => Err(FetchError::Missing),
        },
        _ => Err(FetchError::ChannelNotFound),
    }
}

/// The live video id that a `search.list` reply gives, or why it gives none.
pub open spec fn live_video_of(items: Option<Seq<SearchResult>>) -> Result<Seq<char>, FetchError> {
    match items {
        Some(v) if v.len() > 0 => match v[0].id {
            Some(rid) => match rid.video_id {
                Some(id) => Ok(id@),
                None => Err(FetchError::Missing),
            },
            None => Err(FetchError::Missing),
        },
        _ => Err(FetchError::NotStreaming),
    }
}

/// The viewer count that a `videos.list` reply gives, or why it gives none.
pub open spec fn viewers_of(items: Option<Seq<Video>>) -> Result<u64, FetchError> {
    match items {
        Some(v) if v.len() > 0 => match v[0].live_streaming_details {
            Some(d) => match d.concurrent_viewers {
                Some(n) => Ok(n),
                None => Err(FetchError::ViewerCountHidden),
            },
            None => Err(FetchError::Missing),
        },
        _ => Err(FetchError::NotStreaming),
    }
}

pub open spec fn seq_of<T>(items: Option<Vec<T>>) -> Option<Seq<T>> {
    match items {
        Some(v) => Some(v@),
        None => None,
    }
}

/// The channel id that a handle resolved to: resolved once, then kept for
/// the life of the client.
pub struct ChannelCache {
    id: Option<String>,
}

impl View for ChannelCache {
    type V = Option<Seq<char>>;

    closed spec fn view(&self) -> Option<Seq<char>> {
        match self.id {
            Some(id) => Some(id@),
            None => None,
        }
    }
}

/// The first request of a lookup for `handle`, given what the cache holds.
pub open spec fn first_request(cache: Option<Seq<char>>, handle: Seq<char>) -> RequestView {
    match cache {
        Some(id) => RequestView::LiveSearch(id),
        None => RequestView::ChannelByHandle(handle),
    }
}

/// The cache after a `channels.list` reply: an empty cache takes the id that
/// the reply gives; a filled one keeps its id.
pub open spec fn cache_after(cache: Option<Seq<char>>, items: Option<Seq<ChannelItem>>) -> Option<
    Seq<char>,
> {
    match cache {
        Some(id) => Some(id),
        None => match channel_id_of(items) {
            Ok(id) => Some(id),
            Err(_) => None,
        },
    }
}

/// The step after a `channels.list` reply.
pub open spec fn step_after_channels(cache: Option<Seq<char>>, items: Option<Seq<ChannelItem>>) -> StepView {
    match cache_after(cache, items) {
        Some(id) => StepView::Ask(RequestView::LiveSearch(id)),
        None => match channel_id_of(items) {
            Err(e) => StepView::Failed(e),
            Ok(_) => StepView::Failed(FetchError::Missing),
        },
    }
}

impl ChannelCache {
    /// Nothing resolved yet.
    pub fn new() -> (res: Self)
        ensures
            res@ is None,
    {
        ChannelCache { id: None }
    }

    /// The first request of a lookup for `handle`: the live search of the
    /// cached channel, or, while nothing is cached, the channel by handle.
    pub fn begin(&self, handle: &str) -> (res: YouTubeRequest)
        ensures
            request_view(res) == first_request(self@, handle@),
    {
        match &self.id {
            Some(id) => YouTubeRequest::LiveSearch(id.clone()),
            None => YouTubeRequest::ChannelByHandle(String::from_str(handle)),
        }
    }

    /// Takes a `channels.list` reply: caches the channel id it gives (when
    /// nothing is cached yet) and asks for the live search of the cached
    /// channel; a reply without a channel fails the lookup.
    pub fn on_channels(&mut self, items: Option<Vec<ChannelItem>>) -> (res: YouTubeStep)
        ensures
            final(self)@ == cache_after(old(self)@, seq_of(items)),
            step_view(res) == step_after_channels(old(self)@, seq_of(items)),
    {
        if self.id.is_none() {
            match channel_id(items) {
                Ok(id) => {
                    self.id = Some(id);
                },
                Err(e) => {
                    return YouTubeStep::Failed(e);
                },
            }
        }
        match &self.id {
            Some(id) => YouTubeStep::Ask(YouTubeRequest::LiveSearch(id.clone())),
            None => YouTubeStep::Failed(FetchError::Missing),
        }
    }
}

/// The channel id of a `channels.list` reply.
pub fn channel_id(items: Option<Vec<ChannelItem>>) -> (res: Result<String, FetchError>)
    ensures
        first_channel(seq_of(items)) matches Some(id) ==> (res matches Ok(r) && r@ == id),
        match res {
            Ok(id) => channel_id_of(seq_of(items)) == Ok::<Seq<char>, FetchError>(id@),
            Err(e) => channel_id_of(seq_of(items)) == Err::<Seq<char>, FetchError>(e),
        },
{
    match items {
        Some(v) => {
            if v.len() == 0 {
                return Err(FetchError::ChannelNotFound);
            }
            match &v[0].id {
                Some(id) => Ok(id.clone()),
                None => Err(FetchError::Missing),
            }
        },
        None => Err(FetchError::ChannelNotFound),
    }
}

/// Takes a `search.list` reply: asks for the live details of the live video
/// it names; no video means the channel is not streaming.
pub fn on_search(items: Option<Vec<SearchResult>>) -> (res: YouTubeStep)
    ensures
        first_live_video(seq_of(items)) matches Some(v) ==> step_view(res) == StepView::Ask(
            RequestView::LiveDetails(v),
        ),
        step_view(res) == (match live_video_of(seq_of(items)) {
            Ok(id) => StepView::Ask(RequestView::LiveDetails(id)),
            Err(e) => StepView::Failed(e),
        }),
{
    match items {
        Some(v) => {
            if v.len() == 0 {
                return YouTubeStep::Failed(FetchError::NotStreaming);
            }
            match &v[0].id {
                Some(rid) => match &rid.video_id {
                    Some(id) => YouTubeStep::Ask(YouTubeRequest::LiveDetails(id.clone())),
                    None => YouTubeStep::Failed(FetchError::Missing),
                },
                None => YouTubeStep::Failed(FetchError::Missing),
            }
        },
        None => YouTubeStep::Failed(FetchError::NotStreaming),
    }
}

/// Takes a `videos.list` reply: the live video's concurrent viewers end the
/// lookup; no video means the channel is not streaming, and a video without
/// the count hides it.
pub fn on_videos(items: Option<Vec<Video>>) -> (res: YouTubeStep)
    ensures
        first_viewers(seq_of(items)) matches Some(n) ==> step_view(res) == StepView::Done(n),
        step_view(res) == (match viewers_of(seq_of(items)) {
            Ok(n) => StepView::Done(n),
            Err(e) => StepView::Failed(e),
        }),
{
    match items {
        Some(v) => {
            if v.len() == 0 {
                return YouTubeStep::Failed(FetchError::NotStreaming);
            }
            match v[0].live_streaming_details {
                Some(d) => match d.concurrent_viewers {
                    Some(n) => YouTubeStep::Done(n),
                    None => YouTubeStep::Failed(FetchError::ViewerCountHidden),
                },
                None => YouTubeStep::Failed(FetchError::Missing),
            }
        },
        None => YouTubeStep::Failed(FetchError::NotStreaming),
    }
}

/// Each reply is read at its first item, whatever items follow it: the
/// first channel's id, the first search result's video, the first video's
/// concurrent viewers. An empty reply (or none) means no channel, or no live
/// stream.
pub proof fn lemma_replies_read_first_item(
    channels: Seq<ChannelItem>,
    more_channels: Seq<ChannelItem>,
    search: Seq<SearchResult>,
    more_search: Seq<SearchResult>,
    videos: Seq<Video>,
    more_videos: Seq<Video>,
)
    requires
        channels.len() > 0,
        search.len() > 0,
        videos.len() > 0,
    ensures
        channel_id_of(Some(channels + more_channels)) == channel_id_of(Some(seq![channels[0]])),
        first_channel(Some(channels + more_channels)) matches Some(id) ==> channel_id_of(
            Some(channels + more_channels),
        ) == Ok::<Seq<char>, FetchError>(id),
        first_channel(Some(channels + more_channels)) == first_channel(Some(seq![channels[0]])),
        live_video_of(Some(search + more_search)) == live_video_of(Some(seq![search[0]])),
        first_live_video(Some(search + more_search)) matches Some(v) ==> live_video_of(
            Some(search + more_search),
        ) == Ok::<Seq<char>, FetchError>(v),
        viewers_of(Some(videos + more_videos)) == viewers_of(Some(seq![videos[0]])),
        first_viewers(Some(videos + more_videos)) matches Some(n) ==> viewers_of(
            Some(videos + more_videos),
        ) == Ok::<u64, FetchError>(n),
        first_live_video(Some(search + more_search)) == first_live_video(Some(seq![search[0]])),
        first_viewers(Some(videos + more_videos)) == first_viewers(Some(seq![videos[0]])),
        channel_id_of(None) == Err::<Seq<char>, FetchError>(FetchError::ChannelNotFound),
        channel_id_of(Some(Seq::empty())) == Err::<Seq<char>, FetchError>(FetchError::ChannelNotFound),
        live_video_of(None) == Err::<Seq<char>, FetchError>(FetchError::NotStreaming),
        live_video_of(Some(Seq::empty())) == Err::<Seq<char>, FetchError>(FetchError::NotStreaming),
        viewers_of(None) == Err::<u64, FetchError>(FetchError::NotStreaming),
        viewers_of(Some(Seq::empty())) == Err::<u64, FetchError>(FetchError::NotStreaming),
{
    assert((channels + more_channels)[0] == channels[0]);
    assert((search + more_search)[0] == search[0]);
    assert((videos + more_videos)[0] == videos[0]);
}

/// The handle is resolved at most once: once the cache holds a channel id,
/// every lookup starts with the live search of that channel, whatever handle
/// it is for, and no later `channels.list` reply changes the cached id.
pub proof fn lemma_handle_resolved_once(
    id: Seq<char>,
    handle: Seq<char>,
    items: Option<Seq<ChannelItem>>,
)
    ensures
        first_request(Some(id), handle) == RequestView::LiveSearch(id),
        cache_after(Some(id), items) == Some(id),
{
}

/// A lookup on an empty cache asks for the channel by handle, and a reply
/// that names a channel fills the cache with that channel's id.
pub proof fn lemma_first_lookup_resolves(handle: Seq<char>, items: Option<Seq<ChannelItem>>)
    ensures
        first_request(None, handle) == RequestView::ChannelByHandle(handle),
        channel_id_of(items) matches Ok(id) ==> cache_after(None, items) == Some(id)
            && step_after_channels(None, items) == StepView::Ask(RequestView::LiveSearch(id)),
{
}

} // verus!
