use vstd::prelude::*;

verus! {

/// Why a platform's reply gave no viewer count.
#[derive(Debug, PartialEq, Eq, Structural, Clone, Copy)]
pub enum FetchError {
    /// The reply lacks a value that it should hold.
    Missing,
    /// The user is not streaming now.
    NotStreaming,
    /// The stream hides its viewer count.
    ViewerCountHidden,
    /// No channel has the handle that was asked for.
    ChannelNotFound,
}

pub open spec fn not_streaming_text() -> Seq<char> {
    seq![',', ' ', 'i', 's', ' ', 'n', 'o', 't', ' ', 's', 't', 'r', 'e', 'a', 'm', 'i', 'n', 'g']
}

pub open spec fn count_hidden_text() -> Seq<char> {
    seq![
        ',', ' ', 'v', 'i', 'e', 'w', 'e', 'r', ' ', 'c', 'o', 'u', 'n', 't', ' ', 'i', 's', ' ',
        'h', 'i', 'd', 'd', 'e', 'n',
    ]
}

pub open spec fn channel_not_found_text() -> Seq<char> {
    seq![',', ' ', 'к', 'а', 'н', 'а', 'л', ' ', 'н', 'е', ' ', 'н', 'а', 'й', 'д', 'е', 'н']
}

/// The context that an error is reported with, after the user's name; a
/// missing value is reported without one.
pub open spec fn error_context(e: FetchError, user: Seq<char>) -> Option<Seq<char>> {
    match e {
        FetchError::Missing => None,
        FetchError::NotStreaming => Some(user + not_streaming_text()),
        FetchError::ViewerCountHidden => Some(user + count_hidden_text()),
        FetchError::ChannelNotFound => Some(user + channel_not_found_text()),
    }
}

/// The contexts name the user first: `<user>, is not streaming`,
/// `<user>, viewer count is hidden`, `<user>, канал не найден`; a missing
/// value has none.
pub proof fn lemma_error_contexts(user: Seq<char>)
    ensures
        error_context(FetchError::Missing, user) is None,
        error_context(FetchError::NotStreaming, user) == Some(
            user + seq![',', ' ', 'i', 's', ' ', 'n', 'o', 't', ' ', 's', 't', 'r', 'e', 'a', 'm', 'i', 'n', 'g'],
        ),
        error_context(FetchError::ViewerCountHidden, user) == Some(
            user + seq![
                ',', ' ', 'v', 'i', 'e', 'w', 'e', 'r', ' ', 'c', 'o', 'u', 'n', 't', ' ', 'i', 's', ' ',
                'h', 'i', 'd', 'd', 'e', 'n',
            ],
        ),
        error_context(FetchError::ChannelNotFound, user) == Some(
            user + seq![',', ' ', 'к', 'а', 'н', 'а', 'л', ' ', 'н', 'е', ' ', 'н', 'а', 'й', 'д', 'е', 'н'],
        ),
{
}

impl FetchError {
    /// The line that the error is reported with for `user`, if any.
    pub fn context(&self, user: &str) -> (res: Option<String>)
        ensures
            match res {
                Some(s) => error_context(*self, user@) == Some(s@),
                None => error_context(*self, user@) is None,
            },
    {
        let tail: &str = match self {
            FetchError::Missing => return None,
            FetchError::NotStreaming => {
                proof {
                    reveal_strlit(", is not streaming");
                }
                assert(", is not streaming"@ =~= not_streaming_text());
                ", is not streaming"
            },
            FetchError::ViewerCountHidden => {
                proof {
                    reveal_strlit(", viewer count is hidden");
                }
                assert(", viewer count is hidden"@ =~= count_hidden_text());
                ", viewer count is hidden"
            },
            FetchError::ChannelNotFound => {
                proof {
                    reveal_strlit(", канал не найден");
                }
                assert(", канал не найден"@ =~= channel_not_found_text());
                ", канал не найден"
            },
        };
        let mut s = String::from_str(user);
        s.append(tail);
        Some(s)
    }
}

} // verus!
