//! The outbound send path of the transport session, and the encoder
//! for outbound frames.
//!
//! Two tasks write to one connection: the heartbeat driver and the
//! identification/dispatch path. Writes must be serialized: one frame
//! in flight at a time, each delivered whole. The wire is modeled as
//! the transcript of every character ever written, and `send` appends
//! one encoded frame atomically, so frames can never interleave.

use vstd::prelude::*;
use crate::models::{WsOutgoingMessage, WsOutgoingV};

verus! {

/// How one character is written inside a string literal on the wire:
/// quotes and backslashes are escaped, everything else stands as is.
pub open spec fn escape_char_seq(c: char) -> Seq<char> {
    if c == '"' {
        seq!['\\', '"']
    } else if c == '\\' {
        seq!['\\', '\\']
    } else {
        seq![c]
    }
}

/// A whole string escaped for the wire, character by character.
pub open spec fn escape_seq(s: Seq<char>) -> Seq<char>
    decreases s.len(),
{
    if s.len() == 0 {
        Seq::empty()
    } else {
        escape_seq(s.drop_last()) + escape_char_seq(s.last())
    }
}

/// The exact text of an outbound frame: a heartbeat is opcode 1 with
/// no payload; an identify is opcode 3 carrying the session token.
pub open spec fn spec_encode_outgoing(m: WsOutgoingV) -> Seq<char> {
    match m {
        WsOutgoingV::Heartbeat => "{\"opcode\":\"1\"}"@,
        WsOutgoingV::Identify { token } => "{\"opcode\":\"3\",\"data\":{\"token\":\""@
            + escape_seq(token) + "\"}}"@,
    }
}

fn push_lit(out: &mut Vec<char>, l: &str)
    ensures
        final(out)@ == old(out)@ + l@,
{
    let n = l.unicode_len();
    let mut j: usize = 0;
    while j < n
        invariant
            j <= n,
            n == l@.len(),
            out@ == old(out)@ + l@.subrange(0, j as int),
        decreases n - j,
    {
        out.push(l.get_char(j));
        proof {
            assert(l@.subrange(0, (j + 1) as int) =~= l@.subrange(0, j as int).push(l@[j as int]));
            assert(out@ =~= old(out)@ + l@.subrange(0, (j + 1) as int));
        }
        j += 1;
    }
    proof {
        assert(l@.subrange(0, n as int) =~= l@);
    }
}

fn push_escaped(out: &mut Vec<char>, t: &str)
    ensures
        final(out)@ == old(out)@ + escape_seq(t@),
{
    let n = t.unicode_len();
    let mut j: usize = 0;
    while j < n
        invariant
            j <= n,
            n == t@.len(),
            out@ == old(out)@ + escape_seq(t@.subrange(0, j as int)),
        decreases n - j,
    {
        let c = t.get_char(j);
        if c == '"' {
            out.push('\\');
            out.push('"');
        } else if c == '\\' {
            out.push('\\');
            out.push('\\');
        } else {
            out.push(c);
        }
        proof {
            let pre = t@.subrange(0, j as int);
            let ext = t@.subrange(0, (j + 1) as int);
            assert(ext.drop_last() =~= pre);
            assert(ext.last() == t@[j as int]);
            assert(escape_seq(ext) == escape_seq(pre) + escape_char_seq(t@[j as int]));
            assert(out@ =~= old(out)@ + escape_seq(ext));
        }
        j += 1;
    }
    proof {
        assert(t@.subrange(0, n as int) =~= t@);
    }
}

/// Encodes one outbound frame as the exact character sequence the
/// specification encoder gives.
pub fn encode_outgoing(m: &WsOutgoingMessage) -> (out: Vec<char>)
    ensures
        out@ == spec_encode_outgoing(m@),
{
    let mut out: Vec<char> = Vec::new();
    match m {
        WsOutgoingMessage::Heartbeat => {
            push_lit(&mut out, "{\"opcode\":\"1\"}");
            proof {
                assert(out@ =~= spec_encode_outgoing(m@));
            }
        }
        WsOutgoingMessage::Identify { token } => {
            push_lit(&mut out, "{\"opcode\":\"3\",\"data\":{\"token\":\"");
            push_escaped(&mut out, token.as_str());
            push_lit(&mut out, "\"}}");
            proof {
                assert(out@ =~= spec_encode_outgoing(m@));
            }
        }
    }
    out
}

/// The serialized outbound path of one connection: the transcript of
/// every character written, in order. Sending appends one whole
/// encoded frame in a single step, so two concurrent senders that
/// take turns can never interleave the bytes of their frames.
#[derive(Debug)]
pub struct OutboundWire {
    transcript: Vec<char>,
}

impl View for OutboundWire {
    type V = Seq<char>;

    closed spec fn view(&self) -> Seq<char> {
        self.transcript@
    }
}

impl OutboundWire {
    pub fn new() -> (w: Self)
        ensures
            w@ == Seq::<char>::empty(),
    {
        OutboundWire { transcript: Vec::new() }
    }

    /// Sends one frame: its encoding is appended to the transcript
    /// whole, in one step.
    pub fn send(&mut self, m: &WsOutgoingMessage)
        ensures
            final(self)@ == old(self)@ + spec_encode_outgoing(m@),
    {
        let mut piece = encode_outgoing(m);
        self.transcript.append(&mut piece);
    }

    /// The transcript so far.
    pub fn transcript(&self) -> (t: &Vec<char>)
        ensures
            t@ == self@,
    {
        &self.transcript
    }
}

/// Serialized writes deliver both frames whole, in either order: after
/// sending `a` then `b` on a wire holding `w`, the transcript is
/// exactly `w` then `a`'s encoding then `b`'s encoding, each occupying
/// one contiguous span; no character of one frame sits inside the
/// other.
pub proof fn lemma_sends_are_atomic(w: Seq<char>, a: WsOutgoingV, b: WsOutgoingV)
    ensures
        (w + spec_encode_outgoing(a) + spec_encode_outgoing(b)).subrange(
            w.len() as int,
            (w.len() + spec_encode_outgoing(a).len()) as int,
        ) == spec_encode_outgoing(a),
        (w + spec_encode_outgoing(a) + spec_encode_outgoing(b)).subrange(
            (w.len() + spec_encode_outgoing(a).len()) as int,
            (w.len() + spec_encode_outgoing(a).len() + spec_encode_outgoing(b).len()) as int,
        ) == spec_encode_outgoing(b),
{
    let ea = spec_encode_outgoing(a);
    let eb = spec_encode_outgoing(b);
    assert((w + ea + eb).subrange(w.len() as int, (w.len() + ea.len()) as int) =~= ea);
    assert((w + ea + eb).subrange((w.len() + ea.len()) as int, (w.len() + ea.len() + eb.len()) as int) =~= eb);
}

} // verus!
