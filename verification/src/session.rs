//! The session protocol: classification of the short UTF-8 tokens exchanged
//! with the peer, the handshake decision, and the decimal encoding of the
//! mistake count sent back per word.
//!
//! The token vocabulary is the bracketed one: the handshake and keepalive
//! marker is `/start/`, the clean end of the session is `/exit/`, and an
//! unsolicited `quit` may be sent to the peer on shutdown. An older revision
//! with a bare `start` token and no exit or quit support is a different
//! protocol version and is not mixed in.

use vstd::prelude::*;

verus! {

/// The literal start marker, `/start/`, as a byte sequence.
pub open spec fn start_token() -> Seq<u8> {
    seq![47u8, 115u8, 116u8, 97u8, 114u8, 116u8, 47u8]
}

/// The literal exit marker, `/exit/`, as a byte sequence.
pub open spec fn exit_token() -> Seq<u8> {
    seq![47u8, 101u8, 120u8, 105u8, 116u8, 47u8]
}

/// Byte-for-byte equality of two slices.
pub fn bytes_eq(a: &[u8], b: &[u8]) -> (r: bool)
    ensures
        r <==> a@ == b@,
{
    if a.len() != b.len() {
        return false;
    }
    let mut i: usize = 0;
    while i < a.len()
        invariant
            i <= a.len(),
            a.len() == b.len(),
            forall|j: int| 0 <= j < i ==> a@[j] == b@[j],
        decreases a.len() - i,
    {
        if a[i] != b[i] {
            return false;
        }
        i += 1;
    }
    proof {
        assert(a@ =~= b@);
    }
    true
}

/// The start marker as bytes, for sending or comparing.
pub fn start_token_bytes() -> (v: Vec<u8>)
    ensures
        v@ == start_token(),
{
    let mut v: Vec<u8> = Vec::new();
    v.push(47u8);
    v.push(115u8);
    v.push(116u8);
    v.push(97u8);
    v.push(114u8);
    v.push(116u8);
    v.push(47u8);
    proof {
        assert(v@ =~= start_token());
    }
    v
}

/// The exit marker as bytes, for sending or comparing.
pub fn exit_token_bytes() -> (v: Vec<u8>)
    ensures
        v@ == exit_token(),
{
    let mut v: Vec<u8> = Vec::new();
    v.push(47u8);
    v.push(101u8);
    v.push(120u8);
    v.push(105u8);
    v.push(116u8);
    v.push(47u8);
    proof {
        assert(v@ =~= exit_token());
    }
    v
}

/// The quit notification, `quit`, sent unsolicited to the peer when the
/// tool shuts down before an exit marker arrived.
pub open spec fn quit_token() -> Seq<u8> {
    seq![113u8, 117u8, 105u8, 116u8]
}

/// The quit notification as bytes, for sending.
pub fn quit_token_bytes() -> (v: Vec<u8>)
    ensures
        v@ == quit_token(),
{
    let mut v: Vec<u8> = Vec::new();
    v.push(113u8);
    v.push(117u8);
    v.push(105u8);
    v.push(116u8);
    proof {
        assert(v@ =~= quit_token());
    }
    v
}

/// What a token received in the ready state asks for: loop again on the
/// start marker (keepalive), end the session on the exit marker, and treat
/// any other token as the word to prompt.
pub enum SessionCmd {
    KeepAlive,
    Exit,
    Prompt,
}

/// Classification of a ready-state token.
pub open spec fn classify(t: Seq<u8>) -> SessionCmd {
    if t == start_token() {
        SessionCmd::KeepAlive
    } else if t == exit_token() {
        SessionCmd::Exit
    } else {
        SessionCmd::Prompt
    }
}

/// A first token other than the start marker is a fatal handshake failure.
#[derive(Debug)]
pub struct HandshakeFailure {}

/// Where a session stands: waiting for the handshake token, ready to
/// exchange words, ended cleanly by an exit marker, or failed at the
/// handshake. Only a ready session has its sending endpoint connected; a
/// failed one never gets it.
pub enum SessionPhase {
    AwaitingStart,
    Ready,
    Ended,
    Failed,
}

/// The session protocol's state machine. The caller owns the two socket
/// endpoints; this machine decides, token by token, what the caller must do
/// with them.
pub struct Session {
    pub phase: SessionPhase,
}

impl Session {
    /// A session that still awaits the handshake token.
    pub fn new() -> (s: Session)
        ensures
            s.phase is AwaitingStart,
    {
        Session { phase: SessionPhase::AwaitingStart }
    }

    /// The handshake decision: the first inbound token must equal the start
    /// marker. On a match the session becomes ready and the caller may
    /// connect its sending endpoint; on any other token the handshake fails
    /// for good and no sending endpoint is ever connected.
    pub fn on_first_token(&mut self, token: &[u8]) -> (r: Result<(), HandshakeFailure>)
        requires
            old(self).phase is AwaitingStart,
        ensures
            r is Ok <==> token@ == start_token(),
            final(self).phase is Ready <==> token@ == start_token(),
            final(self).phase is Failed <==> token@ != start_token(),
    {
        let start = start_token_bytes();
        if bytes_eq(token, start.as_slice()) {
            self.phase = SessionPhase::Ready;
            Ok(())
        } else {
            self.phase = SessionPhase::Failed;
            Err(HandshakeFailure {})
        }
    }

    /// One word-slot token of a ready session. The exit marker ends the
    /// session and asks for nothing — in particular no reply is sent for
    /// it; the start marker keeps the session ready and asks for nothing;
    /// any other token keeps the session ready and is the word to prompt,
    /// whose mistake count is then reported back.
    pub fn on_token(&mut self, token: &[u8]) -> (c: SessionCmd)
        requires
            old(self).phase is Ready,
        ensures
            c == classify(token@),
            final(self).phase is Ended <==> token@ == exit_token(),
            final(self).phase is Ready <==> token@ != exit_token(),
    {
        let start = start_token_bytes();
        let exit = exit_token_bytes();
        if bytes_eq(token, start.as_slice()) {
            SessionCmd::KeepAlive
        } else if bytes_eq(token, exit.as_slice()) {
            self.phase = SessionPhase::Ended;
            SessionCmd::Exit
        } else {
            SessionCmd::Prompt
        }
    }
}

/// The decimal digits of a number, most significant first, as ASCII bytes.
pub open spec fn dec_digits(n: nat) -> Seq<u8>
    decreases n,
{
    if n < 10 {
        seq![(48 + n) as u8]
    } else {
        dec_digits((n / 10) as nat).push((48 + n % 10) as u8)
    }
}

/// The mistake count as the decimal ASCII token sent back to the peer.
pub fn format_count(n: u32) -> (r: Vec<u8>)
    ensures
        r@ == dec_digits(n as nat),
{
    let mut rev: Vec<u8> = Vec::new();
    let mut cur: u32 = n;
    while cur >= 10
        invariant
            dec_digits(n as nat) == dec_digits(cur as nat) + rev@.reverse(),
        decreases cur,
    {
        let ghost prev_rev = rev@;
        let d: u8 = (cur % 10) as u8;
        rev.push(48 + d);
        proof {
            assert(rev@.reverse() =~= seq![(48 + d) as u8] + prev_rev.reverse());
            assert(dec_digits(cur as nat) == dec_digits((cur as nat / 10) as nat).push(
                (48 + cur as nat % 10) as u8,
            ));
            assert(dec_digits((cur as nat / 10) as nat) + rev@.reverse() =~= dec_digits(
                cur as nat,
            ) + prev_rev.reverse());
        }
        cur = cur / 10;
    }
    let ghost prev_rev = rev@;
    rev.push(48 + cur as u8);
    proof {
        assert(rev@.reverse() =~= seq![(48 + cur) as u8] + prev_rev.reverse());
        assert(dec_digits(cur as nat) =~= seq![(48 + cur) as u8]);
        assert(dec_digits(n as nat) =~= rev@.reverse());
    }
    let mut r: Vec<u8> = Vec::new();
    let mut j: usize = 0;
    while j < rev.len()
        invariant
            j <= rev@.len(),
            r@.len() == j,
            forall|k: int| 0 <= k < j ==> r@[k] == rev@[rev@.len() - 1 - k],
        decreases rev@.len() - j,
    {
        r.push(rev[rev.len() - 1 - j]);
        j += 1;
    }
    proof {
        assert(r@ =~= rev@.reverse());
    }
    r
}

} // verus!
