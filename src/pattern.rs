//! The `XX` handshake pattern as a fixed table of tokens, and the wire sizes
//! that follow from it.

use vstd::prelude::*;

verus! {

/// Width in bytes of a Curve25519 public key.
pub const DH_LEN: usize = 32;

/// Width in bytes of an AEAD tag.
pub const TAG_LEN: usize = 16;

/// Largest Noise message on the wire.
pub const MAX_MESSAGE_LEN: usize = 65535;

/// Number of messages in the `XX` pattern.
pub const MESSAGE_COUNT: usize = 3;

/// The part a party plays in the handshake.
#[derive(Clone, Copy, Debug, PartialEq, Eq, Structural)]
pub enum Role {
    Initiator,
    Responder,
}

/// One step of a handshake message.
#[derive(Clone, Copy, Debug, PartialEq, Eq, Structural)]
pub enum Token {
    E,
    S,
    EE,
    ES,
    SE,
}

/// What a party does next during the handshake.
#[derive(Clone, Copy, Debug, PartialEq, Eq, Structural)]
pub enum Action {
    WriteMessage,
    ReadMessage,
}

/// The tokens of message `i` of `XX`.
pub open spec fn xx_tokens(i: nat) -> Seq<Token> {
    if i == 0 {
        seq![Token::E]
    } else if i == 1 {
        seq![Token::E, Token::EE, Token::S, Token::ES]
    } else if i == 2 {
        seq![Token::S, Token::SE]
    } else {
        seq![]
    }
}

/// The role that writes message `i`: the initiator writes the even ones.
pub open spec fn writer_of(i: nat) -> Role {
    if i % 2 == 0 {
        Role::Initiator
    } else {
        Role::Responder
    }
}

/// What `role` does at pattern position `i`.
pub open spec fn action_at(role: Role, i: nat) -> Action {
    if writer_of(i) == role {
        Action::WriteMessage
    } else {
        Action::ReadMessage
    }
}

/// A token that mixes a Diffie-Hellman output into the chaining key and so
/// installs a cipher key.
pub open spec fn is_dh(t: Token) -> bool {
    t == Token::EE || t == Token::ES || t == Token::SE
}

/// Whether a cipher key is installed after `toks`, starting from `keyed`.
pub open spec fn keyed_after(toks: Seq<Token>, keyed: bool) -> bool
    decreases toks.len(),
{
    if toks.len() == 0 {
        keyed
    } else {
        keyed_after(toks.drop_first(), keyed || is_dh(toks[0]))
    }
}

/// Bytes on the wire for one token, given whether a key is installed.
pub open spec fn token_wire_len(t: Token, keyed: bool) -> nat {
    match t {
        Token::E => DH_LEN as nat,
        Token::S => if keyed { (DH_LEN + TAG_LEN) as nat } else { DH_LEN as nat },
        _ => 0,
    }
}

/// Bytes on the wire for the tokens `toks`, starting from `keyed`.
pub open spec fn tokens_wire_len(toks: Seq<Token>, keyed: bool) -> nat
    decreases toks.len(),
{
    if toks.len() == 0 {
        0
    } else {
        token_wire_len(toks[0], keyed) + tokens_wire_len(
            toks.drop_first(),
            keyed || is_dh(toks[0]),
        )
    }
}

/// Whether a cipher key is installed when message `i` begins: a key comes
/// with the first DH token, which message 1 holds.
pub open spec fn keyed_before(i: nat) -> bool {
    i > 1
}

/// Bytes that message `i` adds to its payload: its tokens, and a tag on the
/// payload once a key is installed.
pub open spec fn message_overhead(i: nat) -> nat {
    let toks = xx_tokens(i);
    tokens_wire_len(toks, keyed_before(i)) + if keyed_after(toks, keyed_before(i)) {
        TAG_LEN as nat
    } else {
        0
    }
}

/// The token table of `XX`, message by message.
pub fn tokens(i: usize) -> (r: Vec<Token>)
    requires
        i < MESSAGE_COUNT,
    ensures
        r@ == xx_tokens(i as nat),
{
    let r = if i == 0 {
        vec![Token::E]
    } else if i == 1 {
        vec![Token::E, Token::EE, Token::S, Token::ES]
    } else {
        vec![Token::S, Token::SE]
    };
    assert(r@ =~= xx_tokens(i as nat));
    r
}

/// Who writes message `i`.
pub fn writer(i: usize) -> (r: Role)
    ensures
        r == writer_of(i as nat),
{
    if i % 2 == 0 {
        Role::Initiator
    } else {
        Role::Responder
    }
}

/// What `role` does at position `i` of the pattern.
pub fn next_action(role: Role, i: usize) -> (r: Action)
    ensures
        r == action_at(role, i as nat),
{
    if writer(i) == role {
        Action::WriteMessage
    } else {
        Action::ReadMessage
    }
}

/// Whether a key is installed before message `i`, found by walking the
/// tokens of the messages before it.
pub fn keyed_at(i: usize) -> (r: bool)
    requires
        i < MESSAGE_COUNT,
    ensures
        r == keyed_before(i as nat),
{
    let mut keyed = false;
    let mut m: usize = 0;
    while m < i
        invariant
            m <= i < MESSAGE_COUNT,
            keyed == (m > 1),
        decreases i - m,
    {
        let toks = tokens(m);
        proof {
            reveal_with_fuel(keyed_after, 5);
        }
        let mut j: usize = 0;
        let ghost start = keyed;
        while j < toks.len()
            invariant
                0 <= j <= toks@.len(),
                toks@ == xx_tokens(m as nat),
                keyed_after(toks@, start) == keyed_after(toks@.skip(j as int), keyed),
            decreases toks.len() - j,
        {
            let t = toks[j];
            if t == Token::EE || t == Token::ES || t == Token::SE {
                keyed = true;
            }
            assert(toks@.skip(j as int).drop_first() =~= toks@.skip(j + 1));
            j = j + 1;
        }
        assert(toks@.skip(j as int) =~= seq![]);
        m = m + 1;
    }
    keyed
}

/// Bytes that message `i` adds to its payload on the wire, computed by
/// walking its tokens.
pub fn overhead(i: usize) -> (r: usize)
    requires
        i < MESSAGE_COUNT,
    ensures
        r == message_overhead(i as nat),
        r <= 2 * DH_LEN + 2 * TAG_LEN,
{
    let toks = tokens(i);
    let start = keyed_at(i);
    let mut keyed = start;
    let mut len: usize = 0;
    let mut j: usize = 0;
    proof {
        reveal_with_fuel(keyed_after, 5);
        reveal_with_fuel(tokens_wire_len, 5);
    }
    while j < toks.len()
        invariant
            0 <= j <= toks@.len(),
            toks@ == xx_tokens(i as nat),
            start == keyed_before(i as nat),
            keyed_after(toks@, start) == keyed_after(toks@.skip(j as int), keyed),
            tokens_wire_len(toks@, start) == len + tokens_wire_len(toks@.skip(j as int), keyed),
            len <= 48 * j,
            toks@.len() <= 4,
        decreases toks.len() - j,
    {
        let t = toks[j];
        if t == Token::E {
            len = len + DH_LEN;
        } else if t == Token::S {
            if keyed {
                len = len + DH_LEN + TAG_LEN;
            } else {
                len = len + DH_LEN;
            }
        } else {
            keyed = true;
        }
        assert(toks@.skip(j as int).drop_first() =~= toks@.skip(j + 1));
        j = j + 1;
    }
    assert(toks@.skip(j as int) =~= seq![]);
    if keyed {
        len + TAG_LEN
    } else {
        len
    }
}

} // verus!
