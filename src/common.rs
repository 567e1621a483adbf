use vstd::prelude::*;
use vstd::utf8::encode_utf8;

verus! {

/// Version of this client, as sent in the user agent.
pub const VERSION: &'static str = "0.1.0";

/// `ActorClient-<Lang>/<semver>`.
pub const USER_AGENT_VALUE: &'static str = "ActorClient-Rust/0.1.0";

pub const HEADER_ACTOR_QUERY: &'static str = "X-AC-Query";
pub const HEADER_ENCODING: &'static str = "X-AC-Encoding";
pub const HEADER_CONN_PARAMS: &'static str = "X-AC-Conn-Params";
pub const HEADER_ACTOR_ID: &'static str = "X-AC-Actor";
pub const HEADER_CONN_ID: &'static str = "X-AC-Conn";
pub const HEADER_CONN_TOKEN: &'static str = "X-AC-Conn-Token";

/// How the persistent connection reaches the actor.
#[derive(Debug, Clone, Copy, PartialEq, Eq, Structural)]
pub enum TransportKind {
    WebSocket,
    Sse,
}

/// Wire encoding of protocol frames.
#[derive(Debug, Clone, Copy, PartialEq, Eq, Structural)]
pub enum EncodingKind {
    Json,
    Cbor,
}

/// The name of an encoding as it appears in headers and query strings.
pub open spec fn encoding_name(e: EncodingKind) -> Seq<char> {
    match e {
        EncodingKind::Json => seq!['j', 's', 'o', 'n'],
        EncodingKind::Cbor => seq!['c', 'b', 'o', 'r'],
    }
}

impl EncodingKind {
    pub fn as_str(&self) -> (r: &'static str)
        ensures
            r@ == encoding_name(*self),
    {
        match self {
            EncodingKind::Json => {
                proof {
                    reveal_strlit("json");
                }
                "json"
            },
            EncodingKind::Cbor => {
                proof {
                    reveal_strlit("cbor");
                }
                "cbor"
            },
        }
    }

    pub fn to_string(&self) -> (r: String)
        ensures
            r@ == encoding_name(*self),
    {
        String::from_str(self.as_str())
    }
}

/// A byte that percent-encoding leaves as it is: an ASCII letter or digit,
/// or one of `-`, `.`, `_`, `~`.
pub open spec fn is_unreserved(b: u8) -> bool {
    (48 <= b <= 57) || (65 <= b <= 90) || (97 <= b <= 122) || b == 45 || b == 46 || b == 95
        || b == 126
}

/// The upper-case hexadecimal digit of `d < 16`.
pub open spec fn hex_digit(d: u8) -> char {
    if d < 10 {
        ((48 + d) as u8) as char
    } else {
        ((55 + d) as u8) as char
    }
}

/// Each byte kept when unreserved, else written `%XY` in upper-case hex.
pub open spec fn percent_encoded(b: Seq<u8>) -> Seq<char>
    decreases b.len(),
{
    if b.len() == 0 {
        Seq::empty()
    } else {
        (if is_unreserved(b[0]) {
            seq![b[0] as char]
        } else {
            seq!['%', hex_digit(b[0] / 16), hex_digit(b[0] % 16)]
        }) + percent_encoded(b.skip(1))
    }
}

/// The percent-encoding of the UTF-8 form of a string.
pub open spec fn url_encoded(s: Seq<char>) -> Seq<char> {
    percent_encoded(encode_utf8(s))
}

/// Relies on `urlencoding::encode`: percent-encoding of every byte of the
/// UTF-8 form but ASCII letters, digits and `-`, `_`, `.`, `~`, with
/// upper-case hex digits.
#[verifier::external_body]
pub(crate) fn url_encode(s: &str) -> (r: String)
    ensures
        r@ == url_encoded(s@),
{
    urlencoding::encode(s).into_owned()
}

/// Whether `s` begins with `p`.
pub fn has_prefix(s: &str, p: &str) -> (r: bool)
    ensures
        r == (p@.len() <= s@.len() && s@.take(p@.len() as int) == p@),
{
    let n = p.unicode_len();
    if n > s.unicode_len() {
        return false;
    }
    let mut i: usize = 0;
    while i < n
        invariant
            n == p@.len(),
            n <= s@.len(),
            i <= n,
            forall|j: int| 0 <= j < i ==> s@[j] == p@[j],
        decreases n - i,
    {
        if s.get_char(i) != p.get_char(i) {
            proof {
                assert(s@.take(n as int)[i as int] != p@[i as int]);
            }
            return false;
        }
        i = i + 1;
    }
    proof {
        assert(s@.take(n as int) =~= p@);
    }
    true
}

/// `a` followed by `b`.
pub fn join(a: &str, b: &str) -> (r: String)
    ensures
        r@ == a@ + b@,
{
    String::from_str(a).concat(b)
}

/// A request to the manager or to the actor over HTTP.
#[derive(Debug, Clone)]
pub struct HttpRequest {
    pub method: String,
    pub url: String,
    /// Header names and values, in the order they are set.
    pub headers: Vec<(String, String)>,
}

/// A header from two pieces of text.
pub fn header(name: &str, value: &str) -> (r: (String, String))
    ensures
        r.0@ == name@,
        r.1@ == value@,
{
    (String::from_str(name), String::from_str(value))
}

} // verus!
