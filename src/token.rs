use mio::Token;
use vstd::prelude::*;

verus! {

/// mio's `Token` is a public newtype over `usize`; its one field is read and
/// built directly.
#[verifier::external_type_specification]
pub struct ExToken(Token);

/// Index of a listening socket.
#[derive(PartialEq, Eq, Structural, Hash, Debug, Copy, Clone)]
pub struct ListenerToken(pub usize);

/// Index of an accepted (client-facing) socket.
#[derive(PartialEq, Eq, Structural, Hash, Debug, Copy, Clone)]
pub struct IncomingToken(pub usize);

/// Index of an upstream (outgoing) socket.
#[derive(PartialEq, Eq, Structural, Hash, Debug, Copy, Clone)]
pub struct OutgoingToken(pub usize);

/// The decoded form of a raw poller token: a role and an index.
#[derive(PartialEq, Eq, Structural, Debug, Copy, Clone)]
pub enum TokenType {
    Listener(ListenerToken),
    Incoming(IncomingToken),
    Outgoing(OutgoingToken),
}

/// The largest index whose encoding keeps every bit: all ones but the top two.
pub open spec fn max_token_index() -> usize {
    !0usize >> 2usize
}

/// Tag stored in the low two bits of a raw token.
pub open spec fn tag_of(t: TokenType) -> usize {
    match t {
        TokenType::Listener(_) => 0,
        TokenType::Incoming(_) => 1,
        TokenType::Outgoing(_) => 2,
    }
}

pub open spec fn index_of(t: TokenType) -> usize {
    match t {
        TokenType::Listener(l) => l.0,
        TokenType::Incoming(i) => i.0,
        TokenType::Outgoing(o) => o.0,
    }
}

/// `(index << 2) | tag`, with the index's top two bits shifted out.
pub open spec fn encode(t: TokenType) -> usize {
    (index_of(t) << 2usize) | tag_of(t)
}

/// A raw token whose tag bits name one of the three roles.
pub open spec fn is_decodable(raw: usize) -> bool {
    raw & 3usize != 3usize
}

pub open spec fn decode(raw: usize) -> TokenType {
    let index = raw >> 2usize;
    if raw & 3usize == 0 {
        TokenType::Listener(ListenerToken(index))
    } else if raw & 3usize == 1 {
        TokenType::Incoming(IncomingToken(index))
    } else {
        TokenType::Outgoing(OutgoingToken(index))
    }
}

/// Decoding the encoding of a role and an index that fits gives them back.
pub proof fn lemma_token_round_trip(t: TokenType)
    requires
        index_of(t) <= max_token_index(),
    ensures
        is_decodable(encode(t)),
        decode(encode(t)) == t,
{
    let i = index_of(t);
    let g = tag_of(t);
    assert(((i << 2usize) | g) & 3usize == g && ((i << 2usize) | g) >> 2usize == i) by (bit_vector)
        requires
            i <= !0usize >> 2usize,
            g <= 2usize,
    ;
}

/// Encoding never produces the unused tag 3.
pub proof fn lemma_encode_decodable(t: TokenType)
    ensures
        is_decodable(encode(t)),
{
    let i = index_of(t);
    let g = tag_of(t);
    assert(((i << 2usize) | g) & 3usize == g) by (bit_vector)
        requires
            g <= 2usize,
    ;
}

impl TokenType {
    /// Splits a raw token into its role (low two bits) and index (the rest).
    pub fn from_raw_token(t: Token) -> (r: TokenType)
        requires
            is_decodable(t.0),
        ensures
            r == decode(t.0),
    {
        let i: usize = t.0;
        let tag: usize = i & 3;
        if tag == 0 {
            TokenType::Listener(ListenerToken(i >> 2))
        } else if tag == 1 {
            TokenType::Incoming(IncomingToken(i >> 2))
        } else {
            TokenType::Outgoing(OutgoingToken(i >> 2))
        }
    }

    /// Encodes the role and index as one raw token.
    pub fn as_raw_token(self) -> (r: Token)
        ensures
            r.0 == encode(self),
    {
        match self {
            TokenType::Listener(l) => l.as_raw_token(),
            TokenType::Incoming(i) => i.as_raw_token(),
            TokenType::Outgoing(o) => o.as_raw_token(),
        }
    }
}

impl ListenerToken {
    pub fn as_raw_token(self) -> (r: Token)
        ensures
            r.0 == encode(TokenType::Listener(self)),
    {
        let i: usize = self.0;
        assert((i << 2usize) | 0usize == i << 2usize) by (bit_vector);
        Token(i << 2)
    }
}

impl IncomingToken {
    pub fn as_raw_token(self) -> (r: Token)
        ensures
            r.0 == encode(TokenType::Incoming(self)),
    {
        Token((self.0 << 2) | 1)
    }
}

impl OutgoingToken {
    pub fn as_raw_token(self) -> (r: Token)
        ensures
            r.0 == encode(TokenType::Outgoing(self)),
    {
        Token((self.0 << 2) | 2)
    }
}

} // verus!
