use std::sync::Arc;

use slovo::error::FetchError;
use slovo::kick::stream_viewer_count;
use slovo::oauth::client_credentials_form;
use slovo::twitch::{first_user_id, live_viewer_count, TOKEN_URL};
use slovo::vk::models::{Channel, ChannelCounters, Data, DataClass, Owner, Reaction, Slot, Stream, StreamCounters};
use slovo::vk::{viewer_count, URL, VK};
use slovo::youtube::{
    channel_id, on_search, on_videos, ChannelCache, ChannelItem, LiveStreamingDetails, ResourceId, SearchResult,
    Video, YouTubeRequest, YouTubeStep,
};

fn stream(viewers: i64) -> Stream {
    Stream {
        id: "s".to_string(),
        title: "t".to_string(),
        started_at: 0,
        ended_at: 0,
        counters: StreamCounters { viewers, views: 3 },
        reactions: vec![Reaction { reaction_type: "like".to_string(), count: 1 }],
        preview_url: String::new(),
        video_id: "v".to_string(),
        slot: Slot { id: 1, url: String::new() },
        status: "live".to_string(),
    }
}

fn data(streams: Vec<Stream>) -> Data {
    Data {
        data: DataClass {
            channel: Channel {
                url: "u".to_string(),
                cover_url: String::new(),
                status: "online".to_string(),
                counters: ChannelCounters { subscribers: 10 },
                id: 1,
                avatar_url: String::new(),
                nick: "n".to_string(),
            },
            owner: Owner { avatar_url: String::new(), nick: "n".to_string(), id: 2, is_verified_streamer: false },
            streams,
        },
    }
}

#[test]
fn vk_viewers_come_from_the_first_stream() {
    assert_eq!(viewer_count(&data(vec![stream(42), stream(7)])), Ok(42));
    assert_eq!(viewer_count(&data(vec![])), Err(FetchError::Missing));
    assert_eq!(viewer_count(&data(vec![stream(-1)])), Ok(u64::MAX));
}

#[test]
fn vk_authorization_is_basic_base64() {
    let vk = VK::new(Arc::new(reqwest::Client::new()), "abc".to_string(), "def".to_string());
    assert!(vk.credentials_fit());
    assert_eq!(vk.authorization(), "Basic YWJjOmRlZg==");
    let vk2 = VK::new(Arc::new(reqwest::Client::new()), "id".to_string(), "sec".to_string());
    assert_eq!(vk2.authorization(), "Basic aWQ6c2Vj");
    let vk3 = VK::new(Arc::new(reqwest::Client::new()), "a".to_string(), String::new());
    assert_eq!(vk3.authorization(), "Basic YTo=");
    assert_eq!(URL, "https://apidev.live.vkvideo.ru/v1/channel");
}

#[test]
fn twitch_token_form() {
    let form = client_credentials_form("id", "secret");
    assert_eq!(form, [("client_id", "id"), ("client_secret", "secret"), ("grant_type", "client_credentials")]);
    assert_eq!(TOKEN_URL, "https://id.twitch.tv/oauth2/token");
}

#[test]
fn twitch_user_and_stream() {
    assert_eq!(first_user_id(&vec!["123".to_string(), "456".to_string()]), Ok("123".to_string()));
    assert_eq!(first_user_id(&vec![]), Err(FetchError::Missing));
    assert_eq!(live_viewer_count(&Some(vec![97, 3])), Ok(97));
    assert_eq!(live_viewer_count(&Some(vec![])), Err(FetchError::NotStreaming));
    assert_eq!(live_viewer_count(&None), Err(FetchError::NotStreaming));
}

#[test]
fn kick_stream() {
    assert_eq!(stream_viewer_count(Some(17232)), Ok(17232));
    assert_eq!(stream_viewer_count(None), Err(FetchError::Missing));
}

#[test]
fn error_contexts() {
    assert_eq!(FetchError::NotStreaming.context("qadrat").unwrap(), "qadrat, is not streaming");
    assert_eq!(FetchError::ViewerCountHidden.context("q").unwrap(), "q, viewer count is hidden");
    assert_eq!(FetchError::ChannelNotFound.context("@c").unwrap(), "@c, канал не найден");
    assert_eq!(FetchError::Missing.context("q"), None);
}

#[test]
fn youtube_lookup_resolves_the_handle_once() {
    let mut cache = ChannelCache::new();
    match cache.begin("@chan") {
        YouTubeRequest::ChannelByHandle(h) => assert_eq!(h, "@chan"),
        other => panic!("unexpected {other:?}"),
    }
    let step = cache.on_channels(Some(vec![ChannelItem { id: Some("UC1".to_string()) }]));
    match step {
        YouTubeStep::Ask(YouTubeRequest::LiveSearch(id)) => assert_eq!(id, "UC1"),
        other => panic!("unexpected {other:?}"),
    }
    match cache.begin("@other") {
        YouTubeRequest::LiveSearch(id) => assert_eq!(id, "UC1"),
        other => panic!("unexpected {other:?}"),
    }
    match cache.on_channels(Some(vec![ChannelItem { id: Some("UC2".to_string()) }])) {
        YouTubeStep::Ask(YouTubeRequest::LiveSearch(id)) => assert_eq!(id, "UC1"),
        other => panic!("unexpected {other:?}"),
    }
}

#[test]
fn youtube_channel_not_found() {
    let mut cache = ChannelCache::new();
    assert!(matches!(cache.on_channels(None), YouTubeStep::Failed(FetchError::ChannelNotFound)));
    assert!(matches!(cache.on_channels(Some(vec![])), YouTubeStep::Failed(FetchError::ChannelNotFound)));
    assert!(matches!(
        cache.on_channels(Some(vec![ChannelItem { id: None }])),
        YouTubeStep::Failed(FetchError::Missing)
    ));
    assert_eq!(channel_id(Some(vec![ChannelItem { id: Some("UC9".to_string()) }])), Ok("UC9".to_string()));
    match cache.begin("@c") {
        YouTubeRequest::ChannelByHandle(_) => {}
        other => panic!("unexpected {other:?}"),
    }
}

#[test]
fn youtube_search_and_videos() {
    let found = on_search(Some(vec![SearchResult { id: Some(ResourceId { video_id: Some("vid".to_string()) }) }]));
    match found {
        YouTubeStep::Ask(YouTubeRequest::LiveDetails(v)) => assert_eq!(v, "vid"),
        other => panic!("unexpected {other:?}"),
    }
    assert!(matches!(on_search(None), YouTubeStep::Failed(FetchError::NotStreaming)));
    assert!(matches!(on_search(Some(vec![])), YouTubeStep::Failed(FetchError::NotStreaming)));
    assert!(matches!(
        on_search(Some(vec![SearchResult { id: None }])),
        YouTubeStep::Failed(FetchError::Missing)
    ));
    let live = |n: Option<u64>| Video { live_streaming_details: Some(LiveStreamingDetails { concurrent_viewers: n }) };
    assert!(matches!(on_videos(Some(vec![live(Some(12))])), YouTubeStep::Done(12)));
    assert!(matches!(on_videos(Some(vec![live(None)])), YouTubeStep::Failed(FetchError::ViewerCountHidden)));
    assert!(matches!(
        on_videos(Some(vec![Video { live_streaming_details: None }])),
        YouTubeStep::Failed(FetchError::Missing)
    ));
    assert!(matches!(on_videos(None), YouTubeStep::Failed(FetchError::NotStreaming)));
}
