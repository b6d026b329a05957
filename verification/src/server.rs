use vstd::prelude::*;

use crate::text::same_text;

verus! {

// ---------------------------------------------------------------------------
// Host header values
// ---------------------------------------------------------------------------

/// `i` is the position of the last `':'` in `s`.
pub open spec fn is_last_colon(s: Seq<char>, i: int) -> bool {
    &&& 0 <= i < s.len()
    &&& s[i] == ':'
    &&& forall|j: int| i < j < s.len() ==> s[j] != ':'
}

pub open spec fn has_colon(s: Seq<char>) -> bool {
    exists|j: int| 0 <= j < s.len() && s[j] == ':'
}

pub open spec fn ends_with_bracket(s: Seq<char>) -> bool {
    s.len() > 0 && s.last() == ']'
}

/// The position of the last `':'` of a string that has one.
pub open spec fn last_colon(s: Seq<char>) -> int
    recommends
        has_colon(s),
{
    choose|i: int| is_last_colon(s, i)
}

/// How a `Host` header value is cut into an address and an optional port:
/// at its last `':'`, provided the part before it ends with `']'` (a bracketed
/// IPv6 address) or holds no other `':'`; otherwise the whole value is the
/// address and there is no port.
pub open spec fn host_parts(h: Seq<char>) -> (Seq<char>, Option<Seq<char>>) {
    if has_colon(h) {
        let i = last_colon(h);
        let addr = h.take(i);
        if ends_with_bracket(addr) || !has_colon(addr) {
            (addr, Some(h.skip(i + 1)))
        } else {
            (h, None)
        }
    } else {
        (h, None)
    }
}

pub open spec fn any_ipv4() -> Seq<char> {
    seq!['0', '.', '0', '.', '0', '.', '0']
}

pub open spec fn any_ipv6() -> Seq<char> {
    seq![':', ':']
}

pub open spec fn any_ipv6_bracketed() -> Seq<char> {
    seq!['[', ':', ':', ']']
}

pub open spec fn localhost() -> Seq<char> {
    seq!['l', 'o', 'c', 'a', 'l', 'h', 'o', 's', 't']
}

/// The addresses a server listens on but no client can connect to.
pub open spec fn is_wildcard(addr: Seq<char>) -> bool {
    addr == any_ipv4() || addr == any_ipv6() || addr == any_ipv6_bracketed()
}

/// A `host[:port]` value with a wildcard address replaced by `localhost`,
/// the port kept as it was.
pub open spec fn normalized_host(h: Seq<char>) -> Seq<char> {
    let (addr, port) = host_parts(h);
    let addr = if is_wildcard(addr) { localhost() } else { addr };
    match port {
        Some(p) => addr + seq![':'] + p,
        None => addr,
    }
}

proof fn lemma_last_colon_unique(s: Seq<char>, i: int)
    requires
        is_last_colon(s, i),
    ensures
        has_colon(s),
        last_colon(s) == i,
{
    assert(s[i] == ':');
    let k = last_colon(s);
    assert(is_last_colon(s, k));
    if k < i {
        assert(s[i] != ':');
    }
    if i < k {
        assert(s[k] != ':');
    }
}


/// The host value is left as it is whenever its address is not a wildcard.
proof fn lemma_normalize_keeps_plain_host(h: Seq<char>)
    requires
        !is_wildcard(host_parts(h).0),
    ensures
        normalized_host(h) == h,
{
    if has_colon(h) {
        let i = last_colon(h);
        let addr = h.take(i);
        assert(is_last_colon(h, i)) by {
            let j = choose|j: int| 0 <= j < h.len() && h[j] == ':';
            lemma_has_last_colon(h, j);
        }
        if ends_with_bracket(addr) || !has_colon(addr) {
            assert(addr + seq![':'] + h.skip(i + 1) =~= h);
        }
    }
}

/// A string with a `':'` at `j` has a last `':'`, at or after `j`.
proof fn lemma_has_last_colon(s: Seq<char>, j: int)
    requires
        0 <= j < s.len(),
        s[j] == ':',
    ensures
        is_last_colon(s, last_colon(s)),
        j <= last_colon(s),
    decreases s.len() - j,
{
    if forall|k: int| j < k < s.len() ==> s[k] != ':' {
        assert(is_last_colon(s, j));
        lemma_last_colon_unique(s, j);
    } else {
        let k = choose|k: int| j < k < s.len() && s[k] == ':';
        lemma_has_last_colon(s, k);
    }
}

/// A value that starts with `localhost` never has a wildcard address.
proof fn lemma_localhost_not_wildcard(r: Seq<char>)
    requires
        r.len() >= 9,
        r.take(9) == localhost(),
    ensures
        !is_wildcard(host_parts(r).0),
{
    assert(r[0] == 'l') by {
        assert(r.take(9)[0] == r[0]);
    }
    let addr = host_parts(r).0;
    if has_colon(r) {
        let j = choose|j: int| 0 <= j < r.len() && r[j] == ':';
        lemma_has_last_colon(r, j);
        let i = last_colon(r);
        assert(i >= 9) by {
            if i < 9 {
                assert(r.take(9)[i] == r[i]);
            }
        }
        assert(addr.len() > 0 && addr[0] == 'l');
    } else {
        assert(addr == r);
    }
    assert(addr.len() > 0 && addr[0] == 'l');
    assert(any_ipv4()[0] == '0');
    assert(any_ipv6()[0] == ':');
    assert(any_ipv6_bracketed()[0] == '[');
}

/// Normalizing a host value twice gives what normalizing it once gives.
pub proof fn lemma_normalize_host_idempotent(h: Seq<char>)
    ensures
        normalized_host(normalized_host(h)) == normalized_host(h),
{
    let (addr, port) = host_parts(h);
    if is_wildcard(addr) {
        let r = normalized_host(h);
        match port {
            Some(p) => {
                assert(r.take(9) =~= localhost());
            },
            None => {
                assert(r.take(9) =~= localhost());
            },
        }
        lemma_localhost_not_wildcard(r);
        lemma_normalize_keeps_plain_host(r);
    } else {
        lemma_normalize_keeps_plain_host(h);
    }
}

/// Normalizing replaces only the address, and only a wildcard one: the
/// result has `localhost` in place of a wildcard address, any other address
/// as it was, and the same port.
pub proof fn lemma_normalize_host_keeps_port(h: Seq<char>)
    ensures
        host_parts(normalized_host(h)) == (
            if is_wildcard(host_parts(h).0) { localhost() } else { host_parts(h).0 },
            host_parts(h).1,
        ),
{
    let (addr, port) = host_parts(h);
    let r = normalized_host(h);
    assert(!has_colon(localhost())) by {
        assert forall|j: int| 0 <= j < localhost().len() implies localhost()[j] != ':' by {}
    }
    if is_wildcard(addr) {
        match port {
            Some(p) => {
                let j = choose|j: int| 0 <= j < h.len() && h[j] == ':';
                lemma_has_last_colon(h, j);
                let i = last_colon(h);
                assert(p == h.skip(i + 1));
                assert forall|k: int| 9 < k < r.len() implies r[k] != ':' by {
                    assert(r[k] == p[k - 10]);
                    assert(h[i + 1 + k - 10] != ':');
                }
                assert(r[9] == ':');
                assert(is_last_colon(r, 9));
                lemma_last_colon_unique(r, 9);
                assert(r.take(9) =~= localhost());
                assert(r.skip(10) =~= p);
            },
            None => {
                assert(r == localhost());
            },
        }
    } else {
        lemma_normalize_keeps_plain_host(h);
    }
}

/// How a `Host` value splits, by cases: with no `':'` it is all address; with
/// a last `':'` whose left part holds no `':'` or ends with `']'`, it is
/// address and port around that `':'`; otherwise it is all address.
pub proof fn lemma_host_parts_cases(a: Seq<char>, p: Seq<char>, h: Seq<char>)
    ensures
        !has_colon(h) ==> host_parts(h) == (h, None::<Seq<char>>),
        !has_colon(p) && (!has_colon(a) || ends_with_bracket(a)) ==> host_parts(
            a + seq![':'] + p,
        ) == (a, Some(p)),
        !has_colon(p) && has_colon(a) && !ends_with_bracket(a) ==> host_parts(a + seq![':'] + p)
            == (a + seq![':'] + p, None::<Seq<char>>),
{
    let x = a + seq![':'] + p;
    if !has_colon(p) {
        let i = a.len() as int;
        assert(x[i] == ':');
        assert forall|j: int| i < j < x.len() implies x[j] != ':' by {
            assert(x[j] == p[j - i - 1]);
        }
        assert(is_last_colon(x, i));
        lemma_last_colon_unique(x, i);
        assert(x.take(i) =~= a);
        assert(x.skip(i + 1) =~= p);
    }
}

/// The wildcard addresses are exactly `0.0.0.0`, `::` and `[::]`, and each is
/// shown as `localhost`, with the port of `0.0.0.0:<port>` and
/// `[::]:<port>` kept.
pub proof fn lemma_wildcards_become_localhost(addr: Seq<char>, p: Seq<char>)
    requires
        !has_colon(p),
    ensures
        is_wildcard(addr) <==> (addr == seq!['0', '.', '0', '.', '0', '.', '0'] || addr == seq![':', ':']
            || addr == seq!['[', ':', ':', ']']),
        is_wildcard(addr) ==> normalized_host(addr) == seq!['l', 'o', 'c', 'a', 'l', 'h', 'o', 's', 't'],
        normalized_host(seq!['0', '.', '0', '.', '0', '.', '0'] + seq![':'] + p) == seq![
            'l', 'o', 'c', 'a', 'l', 'h', 'o', 's', 't', ':',
        ] + p,
        normalized_host(seq!['[', ':', ':', ']'] + seq![':'] + p) == seq![
            'l', 'o', 'c', 'a', 'l', 'h', 'o', 's', 't', ':',
        ] + p,
{
    let v4 = seq!['0', '.', '0', '.', '0', '.', '0'];
    let v6 = seq![':', ':'];
    let v6b = seq!['[', ':', ':', ']'];
    assert(v4 =~= any_ipv4());
    assert(v6 =~= any_ipv6());
    assert(v6b =~= any_ipv6_bracketed());
    assert(!has_colon(v4)) by {
        assert forall|j: int| 0 <= j < v4.len() implies v4[j] != ':' by {}
    }
    assert(ends_with_bracket(v6b));
    lemma_host_parts_cases(v4, p, v4);
    lemma_host_parts_cases(v6b, p, v6b);
    assert(localhost() + seq![':'] + p =~= seq!['l', 'o', 'c', 'a', 'l', 'h', 'o', 's', 't', ':'] + p);
    if is_wildcard(addr) {
        if addr == v4 {
            lemma_host_parts_cases(v4, p, v4);
        } else {
            assert(has_colon(addr)) by {
                assert(addr[1] == ':');
            }
            let i = addr.len() - 1;
            if addr == v6 {
                assert(is_last_colon(addr, 1));
                lemma_last_colon_unique(addr, 1);
                assert(addr.take(1) =~= seq![':']);
                assert(has_colon(addr.take(1))) by {
                    assert(addr.take(1)[0] == ':');
                }
                assert(!ends_with_bracket(addr.take(1)));
            } else {
                assert(is_last_colon(addr, 2));
                lemma_last_colon_unique(addr, 2);
                assert(addr.take(2) =~= seq!['[', ':']);
                assert(has_colon(addr.take(2))) by {
                    assert(addr.take(2)[1] == ':');
                }
                assert(!ends_with_bracket(addr.take(2)));
            }
        }
        assert(localhost() =~= seq!['l', 'o', 'c', 'a', 'l', 'h', 'o', 's', 't']);
    }
}

fn find_last_colon(s: &str) -> (res: Option<usize>)
    ensures
        match res {
            Some(i) => is_last_colon(s@, i as int),
            None => !has_colon(s@),
        },
{
    let n = s.unicode_len();
    let mut i: usize = n;
    while i > 0
        invariant
            i <= n,
            n == s@.len(),
            forall|j: int| i <= j < n ==> s@[j] != ':',
        decreases i,
    {
        if s.get_char(i - 1) == ':' {
            return Some(i - 1);
        }
        i = i - 1;
    }
    None
}

fn is_wildcard_addr(addr: &str) -> (res: bool)
    ensures
        res == is_wildcard(addr@),
{
    proof {
        reveal_strlit("0.0.0.0");
        reveal_strlit("::");
        reveal_strlit("[::]");
    }
    assert("0.0.0.0"@ =~= any_ipv4());
    assert("::"@ =~= any_ipv6());
    assert("[::]"@ =~= any_ipv6_bracketed());
    same_text(addr, "0.0.0.0") || same_text(addr, "::") || same_text(addr, "[::]")
}

/// Replaces a wildcard address in `host[:port]` with `localhost[:port]`, so
/// that the result is an address a client can actually connect to.
pub fn normalize_host(host: &str) -> (res: String)
    ensures
        res@ == normalized_host(host@),
{
    let n = host.unicode_len();
    let (addr, port): (&str, Option<&str>) = match find_last_colon(host) {
        Some(i) => {
            proof {
                lemma_last_colon_unique(host@, i as int);
            }
            let addr = host.substring_char(0, i);
            assert(addr@ =~= host@.take(i as int));
            let bracket = i > 0 && addr.get_char(i - 1) == ']';
            if bracket || find_last_colon(addr).is_none() {
                let port = host.substring_char(i + 1, n);
                assert(port@ =~= host@.skip(i + 1));
                (addr, Some(port))
            } else {
                (host, None)
            }
        },
        None => (host, None),
    };
    assert(host_parts(host@) == (addr@, match port { Some(p) => Some(p@), None => None::<Seq<char>> }));
    let shown: &str = if is_wildcard_addr(addr) {
        proof {
            reveal_strlit("localhost");
        }
        assert("localhost"@ =~= localhost());
        "localhost"
    } else {
        addr
    };
    let mut res = String::from_str(shown);
    match port {
        Some(p) => {
            proof {
                reveal_strlit(":");
            }
            res.append(":");
            res.append(p);
            assert(res@ =~= shown@ + seq![':'] + p@);
        },
        None => {},
    }
    res
}


// ---------------------------------------------------------------------------
// Request defaults
// ---------------------------------------------------------------------------

/// Seconds that one platform request may take when the config does not say.
pub fn default_timeout_secs() -> (res: u64)
    ensures
        res == 5,
{
    5
}

/// Seconds between two polls of the platforms when the config does not say.
pub fn default_poll_secs() -> (res: u64)
    ensures
        res == 3,
{
    3
}

/// Which platforms a new session set up, for the reply to the client: one
/// flag per platform (Twitch, Kick, VK), true exactly when that platform's
/// client was created.
pub fn platforms_started<T, K, V>(twitch: &Option<T>, kick: &Option<K>, vk: &Option<V>) -> (res: (
    bool,
    bool,
    bool,
))
    ensures
        res == (twitch is Some, kick is Some, vk is Some),
{
    let t = match twitch {
        Some(_) => true,
        None => false,
    };
    let k = match kick {
        Some(_) => true,
        None => false,
    };
    let v = match vk {
        Some(_) => true,
        None => false,
    };
    (t, k, v)
}

// ---------------------------------------------------------------------------
// WebSocket address of a session
// ---------------------------------------------------------------------------

/// Why no socket address can be given for a request.
#[derive(Debug, PartialEq, Eq, Structural, Clone, Copy)]
pub enum WsUrlError {
    /// The request carries no `Host` header.
    MissingHost,
}

pub open spec fn https() -> Seq<char> {
    seq!['h', 't', 't', 'p', 's']
}

/// The socket scheme that goes with a request scheme: `wss` for `https`,
/// `ws` for anything else.
pub open spec fn ws_scheme(scheme: Seq<char>) -> Seq<char> {
    if scheme == https() {
        seq!['w', 's', 's']
    } else {
        seq!['w', 's']
    }
}

/// `<ws scheme>://<normalized host>/ws/<id>`.
pub open spec fn ws_url(host: Seq<char>, scheme: Seq<char>, id: Seq<char>) -> Seq<char> {
    ws_scheme(scheme) + seq![':', '/', '/'] + normalized_host(host) + seq!['/', 'w', 's', '/']
        + id
}

/// The socket address is the socket scheme (`wss` for `https`, `ws` for any
/// other scheme), `://`, the whole normalized `Host` value (its port
/// included, whatever the scheme), `/ws/` and the session id: the part after
/// the scheme is the same for every scheme.
pub proof fn lemma_ws_url_keeps_whole_host(h: Seq<char>, s1: Seq<char>, s2: Seq<char>, id: Seq<char>)
    ensures
        ws_url(h, s1, id).take(ws_scheme(s1).len() + 3int) == ws_scheme(s1) + seq![':', '/', '/'],
        ws_url(h, s1, id).skip(ws_scheme(s1).len() + 3int) == normalized_host(h) + seq!['/', 'w', 's', '/'] + id,
        ws_url(h, s1, id).skip(ws_scheme(s1).len() + 3int) == ws_url(h, s2, id).skip(ws_scheme(s2).len() + 3int),
        ws_scheme(s1) == (if s1 == seq!['h', 't', 't', 'p', 's'] {
            seq!['w', 's', 's']
        } else {
            seq!['w', 's']
        }),
        host_parts(normalized_host(h)).1 == host_parts(h).1,
{
    lemma_normalize_host_keeps_port(h);
    let p1 = ws_scheme(s1) + seq![':', '/', '/'];
    let p2 = ws_scheme(s2) + seq![':', '/', '/'];
    let rest = normalized_host(h) + seq!['/', 'w', 's', '/'] + id;
    assert(ws_url(h, s1, id) =~= p1 + rest);
    assert(ws_url(h, s2, id) =~= p2 + rest);
    assert((p1 + rest).take(p1.len() as int) =~= p1);
    assert((p1 + rest).skip(p1.len() as int) =~= rest);
    assert((p2 + rest).skip(p2.len() as int) =~= rest);
}

/// The address of the socket of session `id`, for a request that came with
/// the given `Host` header and scheme.
pub fn build_ws_url(host: Option<&str>, scheme: &str, id: &str) -> (res: Result<String, WsUrlError>)
    ensures
        match host {
            None => res == Err::<String, WsUrlError>(WsUrlError::MissingHost),
            Some(h) => res matches Ok(url) && url@ == ws_url(h@, scheme@, id@),
        },
{
    let host = match host {
        Some(h) => h,
        None => return Err(WsUrlError::MissingHost),
    };
    let host = normalize_host(host);
    proof {
        reveal_strlit("https");
        reveal_strlit("wss://");
        reveal_strlit("ws://");
        reveal_strlit("/ws/");
    }
    assert("https"@ =~= https());
    let mut url = if same_text(scheme, "https") {
        String::from_str("wss://")
    } else {
        String::from_str("ws://")
    };
    assert(url@ =~= ws_scheme(scheme@) + seq![':', '/', '/']);
    url.append(host.as_str());
    url.append("/ws/");
    url.append(id);
    Ok(url)
}

} // verus!
