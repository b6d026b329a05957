use std::sync::Arc;

use vstd::prelude::*;

use crate::error::FetchError;

pub mod models;

verus! {

/// The VK Video channel endpoint.
pub const URL: &'static str = "https://apidev.live.vkvideo.ru/v1/channel";

#[verifier::external_type_specification]
#[verifier::external_body]
pub struct ExHttpClient(reqwest::Client);

/// The character of the standard base64 alphabet (RFC 4648, table 1) for a
/// 6-bit value: `A`-`Z`, `a`-`z`, `0`-`9`, `+`, `/`.
pub open spec fn base64_digit(v: int) -> char {
    if v < 26 {
        (65 + v) as char
    } else if v < 52 {
        (97 + v - 26) as char
    } else if v < 62 {
        (48 + v - 52) as char
    } else if v == 62 {
        '+'
    } else {
        '/'
    }
}

/// Standard base64 with `=` padding (RFC 4648, section 4): each group of
/// three bytes gives four digits; a last group of one or two bytes gives two
/// or three digits and is padded with `=` to four.
pub open spec fn base64_standard(b: Seq<u8>) -> Seq<char>
    decreases b.len(),
{
    if b.len() == 0 {
        seq![]
    } else if b.len() == 1 {
        seq![base64_digit((b[0] as int) / 4), base64_digit(((b[0] as int) % 4) * 16), '=', '=']
    } else if b.len() == 2 {
        seq![
            base64_digit((b[0] as int) / 4),
            base64_digit(((b[0] as int) % 4) * 16 + (b[1] as int) / 16),
            base64_digit(((b[1] as int) % 16) * 4),
            '=',
        ]
    } else {
        seq![
            base64_digit((b[0] as int) / 4),
            base64_digit(((b[0] as int) % 4) * 16 + (b[1] as int) / 16),
            base64_digit(((b[1] as int) % 16) * 4 + (b[2] as int) / 64),
            base64_digit((b[2] as int) % 64),
        ] + base64_standard(b.skip(3))
    }
}

/// The base64 alphabet: `A`-`Z` for 0-25, `a`-`z` for 26-51, `0`-`9` for
/// 52-61, `+` for 62 and `/` for 63.
pub proof fn lemma_base64_alphabet(v: int)
    requires
        0 <= v < 64,
    ensures
        v < 26 ==> base64_digit(v) == ('A' as int + v) as char,
        26 <= v < 52 ==> base64_digit(v) == ('a' as int + (v - 26)) as char,
        52 <= v < 62 ==> base64_digit(v) == ('0' as int + (v - 52)) as char,
        v == 62 ==> base64_digit(v) == '+',
        v == 63 ==> base64_digit(v) == '/',
{
}

/// Each group of three bytes becomes four characters, a last shorter group
/// is padded to four: the encoding of `n` bytes has `4 * ceil(n / 3)`
/// characters, and whole groups encode one after the other.
pub proof fn lemma_base64_groups(a: Seq<u8>, b: Seq<u8>)
    requires
        a.len() % 3 == 0,
    ensures
        base64_standard(a).len() == (a.len() + 2) / 3 * 4,
        base64_standard(a + b) == base64_standard(a) + base64_standard(b),
    decreases a.len(),
{
    if a.len() > 0 {
        let rest = a.skip(3);
        lemma_base64_groups(rest, b);
        assert((a + b).skip(3) =~= rest + b);
        assert((a + b)[0] == a[0] && (a + b)[1] == a[1] && (a + b)[2] == a[2]);
    } else {
        assert(a + b =~= b);
    }
}

/// The header is `Basic `, then the base64 of the UTF-8 bytes of
/// `<client id>:<client secret>`.
pub proof fn lemma_authorization_shape(client_id: Seq<char>, client_secret: Seq<char>)
    ensures
        basic_prefix() == seq!['B', 'a', 's', 'i', 'c', ' '],
        credentials(client_id, client_secret) == client_id + seq![':'] + client_secret,
{
}

/// Calls `BASE64_STANDARD.encode` of the `base64` crate: the standard
/// alphabet with `=` padding, as `base64_standard` spells out. `encode`
/// panics when the encoded length does not fit in `usize`, which `requires`
/// leaves out.
#[verifier::external_body]
fn base64_encode(bytes: &[u8]) -> (res: String)
    requires
        (bytes@.len() + 2) / 3 * 4 <= usize::MAX,
    ensures
        res@ == base64_standard(bytes@),
{
    base64::Engine::encode(&base64::prelude::BASE64_STANDARD, bytes)
}

pub open spec fn basic_prefix() -> Seq<char> {
    seq!['B', 'a', 's', 'i', 'c', ' ']
}

/// `client_id:client_secret`.
pub open spec fn credentials(client_id: Seq<char>, client_secret: Seq<char>) -> Seq<char> {
    client_id + seq![':'] + client_secret
}

/// The credentials are short enough for their base64 encoding to have a
/// length that fits in `usize`.
pub open spec fn credentials_fit(client_id: Seq<char>, client_secret: Seq<char>) -> bool {
    (vstd::utf8::encode_utf8(credentials(client_id, client_secret)).len() + 2) / 3 * 4 <= usize::MAX
}

/// A client of the VK Video API: the HTTP client it sends with and the
/// application's credentials.
pub struct VK {
    http: Arc<reqwest::Client>,
    client_id: String,
    client_secret: String,
}

impl VK {
    pub closed spec fn spec_http(&self) -> Arc<reqwest::Client> {
        self.http
    }

    pub closed spec fn spec_client_id(&self) -> Seq<char> {
        self.client_id@
    }

    pub closed spec fn spec_client_secret(&self) -> Seq<char> {
        self.client_secret@
    }

    pub fn new(http: Arc<reqwest::Client>, client_id: String, client_secret: String) -> (res: Self)
        ensures
            res.spec_http() == http,
            res.spec_client_id() == client_id@,
            res.spec_client_secret() == client_secret@,
    {
        VK { http, client_id, client_secret }
    }

    /// The HTTP client that requests go through.
    pub fn http(&self) -> (res: &Arc<reqwest::Client>)
        ensures
            *res == self.spec_http(),
    {
        &self.http
    }

    /// Whether `authorization` can be computed for these credentials.
    pub fn credentials_fit(&self) -> (res: bool)
        ensures
            res == credentials_fit(self.spec_client_id(), self.spec_client_secret()),
    {
        let c = self.credentials();
        let n = c.as_str().as_bytes().len();
        let chunks: usize = if n % 3 == 0 { n / 3 } else { n / 3 + 1 };
        assert(chunks == (n + 2) / 3) by (nonlinear_arith)
            requires
                n % 3 == 0 ==> chunks == n / 3,
                n % 3 != 0 ==> chunks == n / 3 + 1;
        assert((chunks <= usize::MAX / 4) == (chunks * 4 <= usize::MAX)) by (nonlinear_arith)
            requires chunks >= 0;
        chunks <= usize::MAX / 4
    }

    fn credentials(&self) -> (res: String)
        ensures
            res@ == credentials(self.spec_client_id(), self.spec_client_secret()),
    {
        proof {
            reveal_strlit(":");
        }
        let mut c = String::from_str(self.client_id.as_str());
        c.append(":");
        c.append(self.client_secret.as_str());
        c
    }

    /// The `Authorization` header value of a request: `Basic ` and the
    /// base64 of `client_id:client_secret`.
    pub fn authorization(&self) -> (res: String)
        requires
            credentials_fit(self.spec_client_id(), self.spec_client_secret()),
        ensures
            res@ == basic_prefix() + base64_standard(
                vstd::utf8::encode_utf8(credentials(self.spec_client_id(), self.spec_client_secret())),
            ),
    {
        let c = self.credentials();
        let encoded = base64_encode(c.as_str().as_bytes());
        proof {
            reveal_strlit("Basic ");
        }
        let mut header = String::from_str("Basic ");
        header.append(encoded.as_str());
        assert(header@ =~= basic_prefix() + encoded@);
        header
    }
}

/// The viewer count of the first stream of a channel reply; a channel with
/// no stream gives none. A negative count is taken as Rust's `as u64` takes it.
pub fn viewer_count(data: &models::Data) -> (res: Result<u64, FetchError>)
    ensures
        data.data.streams@.len() == 0 ==> res == Err::<u64, FetchError>(FetchError::Missing),
        data.data.streams@.len() > 0 ==> res == Ok::<u64, FetchError>(
            data.data.streams@[0].counters.viewers as u64,
        ),
{
    if data.data.streams.len() == 0 {
        Err(FetchError::Missing)
    } else {
        Ok(data.data.streams[0].counters.viewers as u64)
    }
}

} // verus!
