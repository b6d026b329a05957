use vstd::prelude::*;

use crate::error::FetchError;

verus! {

/// The viewer count of a channel's live stream; a channel that has no live
/// stream gives none.
pub fn stream_viewer_count(stream_viewers: Option<u32>) -> (res: Result<u32, FetchError>)
    ensures
        res == (match stream_viewers {
            Some(n) => Ok(n),
            None => Err(FetchError::Missing),
        }),
{
    match stream_viewers {
        Some(n) => Ok(n),
        None => Err(FetchError::Missing),
    }
}

} // verus!
