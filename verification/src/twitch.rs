use vstd::prelude::*;

use crate::error::FetchError;

verus! {

/// Where an app access token is asked for.
pub const TOKEN_URL: &'static str = "https://id.twitch.tv/oauth2/token";

/// The id of the first user that a lookup by login gave; a lookup that found
/// nobody gives none.
pub fn first_user_id(user_ids: &Vec<String>) -> (res: Result<String, FetchError>)
    ensures
        user_ids@.len() == 0 ==> res == Err::<String, FetchError>(FetchError::Missing),
        user_ids@.len() > 0 ==> (res matches Ok(id) && id@ == user_ids@[0]@),
{
    if user_ids.len() == 0 {
        Err(FetchError::Missing)
    } else {
        Ok(user_ids[0].clone())
    }
}

/// The viewer count of the first live stream of a streams lookup; no stream
/// (no list, or an empty one) means the user is not streaming.
pub fn live_viewer_count(stream_viewers: &Option<Vec<u64>>) -> (res: Result<u64, FetchError>)
    ensures
        res == (match stream_viewers {
            Some(v) if v@.len() > 0 => Ok(v@[0]),
            _ => Err(FetchError::NotStreaming),
        }),
{
    match stream_viewers {
        Some(v) => {
            if v.len() > 0 {
                Ok(v[0])
            } else {
                Err(FetchError::NotStreaming)
            }
        },
        None => Err(FetchError::NotStreaming),
    }
}

} // verus!
