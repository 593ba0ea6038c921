use vstd::prelude::*;

verus! {

/// Length of the identification token, in bytes.
pub const TOKEN_LEN: usize = 8;

/// Size of each of the socket's send and receive buffers.
pub const SOCKET_BUFFER_LEN: usize = 1244;

/// Capacity of the buffer that receives the server's answer.
pub const RESPONSE_CAPACITY: usize = 1234;

/// Seconds between two wake-ups of the idle loop after the handshake.
pub const HEARTBEAT_SECS: u64 = 1;

pub open spec fn is_ascii(b: Seq<u8>) -> bool {
    forall|i: int| 0 <= i < b.len() ==> #[trigger] b[i] < 128
}

/// What goes on the wire for a token: the token itself, with no framing.
pub open spec fn wire_request(token: Seq<u8>) -> Seq<u8> {
    token
}

/// The outbound identification token.
#[derive(Debug)]
pub struct DiscoveryMessage {
    pub bytes: Vec<u8>,
}

impl DiscoveryMessage {
    pub open spec fn wf(&self) -> bool {
        &&& self.bytes@.len() == TOKEN_LEN
        &&& is_ascii(self.bytes@)
    }

    /// The message for `token`, or `None` unless it is `TOKEN_LEN` ASCII bytes.
    pub fn new(token: &[u8]) -> (r: Option<DiscoveryMessage>)
        ensures
            r is Some <==> (token@.len() == TOKEN_LEN && is_ascii(token@)),
            r matches Some(m) ==> m.bytes@ == token@ && m.wf(),
    {
        if token.len() != TOKEN_LEN {
            return None;
        }
        let mut bytes: Vec<u8> = Vec::new();
        let mut i: usize = 0;
        while i < token.len()
            invariant
                i <= token@.len(),
                bytes@ == token@.subrange(0, i as int),
                is_ascii(bytes@),
            decreases token@.len() - i,
        {
            if token[i] >= 128 {
                assert(!is_ascii(token@));
                return None;
            }
            bytes.push(token[i]);
            i = i + 1;
        }
        assert(bytes@ == token@);
        Some(DiscoveryMessage { bytes })
    }

    /// The bytes that a write sends.
    pub fn request(&self) -> (r: Vec<u8>)
        ensures
            r@ == wire_request(self.bytes@),
    {
        self.bytes.clone()
    }
}

/// The answer of the server: what a single read delivered, cut to capacity.
#[derive(Debug)]
pub struct DiscoveryResponse {
    pub data: Vec<u8>,
    pub capacity: usize,
}

/// What a buffer of `capacity` bytes keeps of `incoming`.
pub open spec fn kept(incoming: Seq<u8>, capacity: nat) -> Seq<u8> {
    if incoming.len() <= capacity {
        incoming
    } else {
        incoming.subrange(0, capacity as int)
    }
}

/// A buffer keeps a prefix of what arrived and never more than its
/// capacity; what fits is kept whole.
pub proof fn lemma_kept_fits(incoming: Seq<u8>, capacity: nat)
    ensures
        kept(incoming, capacity).len() <= capacity,
        kept(incoming, capacity).len() <= incoming.len(),
        incoming.len() <= capacity ==> kept(incoming, capacity) == incoming,
        incoming.len() > capacity ==> kept(incoming, capacity).len() == capacity,
        forall|i: int|
            0 <= i < kept(incoming, capacity).len() ==> #[trigger] kept(incoming, capacity)[i]
                == incoming[i],
{
}

impl DiscoveryResponse {
    pub open spec fn wf(&self) -> bool {
        self.data@.len() <= self.capacity
    }

    /// An empty response buffer of the given capacity.
    pub fn with_capacity(capacity: usize) -> (r: Self)
        ensures
            r.data@.len() == 0,
            r.capacity == capacity,
            r.wf(),
    {
        DiscoveryResponse { data: Vec::new(), capacity }
    }

    /// Stores what one read delivered, dropping whatever does not fit.
    /// Returns the number of bytes kept.
    pub fn receive(&mut self, incoming: &[u8]) -> (r: usize)
        ensures
            final(self).data@ == kept(incoming@, old(self).capacity as nat),
            final(self).capacity == old(self).capacity,
            r == final(self).data@.len(),
            final(self).wf(),
    {
        let n: usize = if incoming.len() <= self.capacity { incoming.len() } else { self.capacity };
        let mut data: Vec<u8> = Vec::new();
        let mut i: usize = 0;
        while i < n
            invariant
                n <= incoming@.len(),
                i <= n,
                data@ == incoming@.subrange(0, i as int),
            decreases n - i,
        {
            data.push(incoming[i]);
            i = i + 1;
        }
        assert(data@ == kept(incoming@, self.capacity as nat));
        self.data = data;
        n
    }
}

/// The text that `b` decodes to under UTF-8, or `None` where it is not UTF-8.
pub uninterp spec fn utf8_decoded(b: Seq<u8>) -> Option<Seq<char>>;

/// Each byte of `b` read as the character of the same code.
pub open spec fn ascii_chars(b: Seq<u8>) -> Seq<char> {
    b.map_values(|c: u8| c as char)
}

/// Relies on `core::str::from_utf8`: it accepts exactly the UTF-8 sequences,
/// every ASCII sequence is one and reads as the same characters, and no UTF-8
/// sequence holds a byte above `0xF4`.
#[verifier::external_body]
fn decode_utf8(b: &[u8]) -> (r: Option<String>)
    ensures
        r matches Some(s) ==> utf8_decoded(b@) == Some(s@),
        r is None ==> utf8_decoded(b@) is None,
        is_ascii(b@) ==> r is Some && r->0@ == ascii_chars(b@),
        (exists|i: int| 0 <= i < b@.len() && #[trigger] b@[i] > 0xF4) ==> r is None,
{
    match core::str::from_utf8(b) {
        Ok(s) => Some(s.to_string()),
        Err(_) => None,
    }
}

/// What is reported about a response.
#[derive(Debug)]
pub enum Report {
    /// The response, as text.
    Text(String),
    /// The response was not valid text; the handshake still counts as done.
    NotText,
}

impl Report {
    pub open spec fn text(self) -> Option<Seq<char>> {
        match self {
            Report::Text(s) => Some(s@),
            Report::NotText => None,
        }
    }

    /// The report for the outcome of decoding.
    pub fn from_decoded(decoded: Option<String>) -> (r: Report)
        ensures
            r.text() == (match decoded {
                Some(s) => Some(s@),
                None => None::<Seq<char>>,
            }),
    {
        match decoded {
            Some(s) => Report::Text(s),
            None => Report::NotText,
        }
    }
}

/// Decodes what the response holds; a response that is not text is
/// reported as such, never as a failure of the handshake.
pub fn decode(response: &DiscoveryResponse) -> (r: Report)
    ensures
        r.text() == utf8_decoded(response.data@),
        is_ascii(response.data@) ==> r.text() == Some(ascii_chars(response.data@)),
{
    let decoded = decode_utf8(response.data.as_slice());
    Report::from_decoded(decoded)
}

} // verus!
