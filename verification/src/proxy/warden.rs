//! Warden session keys and the relay that re-encrypts Warden traffic between the
//! player's session key and the upstream session key.
use vstd::prelude::*;
use crate::bytes::{copy_range, extend_bytes};
use crate::crypto::{sha1_digest, sha1_of};
use crate::proxy::rc4::{Rc4, Rc4State, rc4_apply, rc4_init};

verus! {

/// Length of a session key.
pub const SESSION_KEY_LEN: usize = 40;

/// The 32 bytes of Warden key material derived from a session key.
pub open spec fn warden_key_material(key: Seq<u8>) -> Seq<u8> {
    let a = sha1_of(key.subrange(0, 20));
    let b = sha1_of(key.subrange(20, 40));
    let v1 = sha1_of(a + Seq::new(20, |i: int| 0u8) + b);
    let v2 = sha1_of(a + v1 + b);
    v1 + v2.subrange(0, 12)
}

/// The Warden input key (first 16 bytes of the key material).
pub open spec fn warden_input_key(key: Seq<u8>) -> Seq<u8> {
    warden_key_material(key).subrange(0, 16)
}

/// The Warden output key (last 16 bytes of the key material).
pub open spec fn warden_output_key(key: Seq<u8>) -> Seq<u8> {
    warden_key_material(key).subrange(16, 32)
}

fn sha3(a: &[u8], b: &[u8], c: &[u8]) -> (r: [u8; 20])
    ensures
        r@ == sha1_of(a@ + b@ + c@),
{
    let mut all: Vec<u8> = Vec::new();
    extend_bytes(&mut all, a);
    extend_bytes(&mut all, b);
    extend_bytes(&mut all, c);
    assert(all@ =~= a@ + b@ + c@);
    sha1_digest(all.as_slice())
}

/// Derives the Warden input and output keys from a 40-byte session key.
pub fn keys(key: &[u8]) -> (r: (Vec<u8>, Vec<u8>))
    requires
        key@.len() == SESSION_KEY_LEN,
    ensures
        r.0@ == warden_input_key(key@),
        r.1@ == warden_output_key(key@),
        r.0@.len() == 16,
        r.1@.len() == 16,
{
    let first = copy_range(key, 0, 20);
    let second = copy_range(key, 20, 40);
    let a = sha1_digest(first.as_slice());
    let b = sha1_digest(second.as_slice());
    let zeros: Vec<u8> = vec![0u8; 20];
    assert(zeros@ =~= Seq::new(20, |i: int| 0u8));
    let v1 = sha3(&a, zeros.as_slice(), &b);
    let v2 = sha3(&a, &v1, &b);
    let mut generated: Vec<u8> = Vec::new();
    extend_bytes(&mut generated, &v1);
    let tail = copy_range(&v2, 0, 12);
    extend_bytes(&mut generated, tail.as_slice());
    assert(generated@ =~= warden_key_material(key@));
    let input = copy_range(generated.as_slice(), 0, 16);
    let output = copy_range(generated.as_slice(), 16, 32);
    (input, output)
}

/// The abstract state of a Warden relay.
pub struct BridgeState {
    pub upstream_input: Rc4State,
    pub upstream_output: Rc4State,
    pub downstream_input: Rc4State,
    pub downstream_output: Rc4State,
    pub session_phase: bool,
}

/// A server-to-client Warden body through the relay: the relay after it and the body sent on.
pub open spec fn server_relay_step(b: BridgeState, body: Seq<u8>) -> (BridgeState, Seq<u8>) {
    if b.session_phase {
        let (u, mid) = rc4_apply(b.upstream_output, body);
        let (d, out) = rc4_apply(b.downstream_output, mid);
        (BridgeState { upstream_output: u, downstream_output: d, ..b }, out)
    } else {
        (b, body)
    }
}

/// A client-to-server Warden body through the relay: the relay after it and the body sent
/// on. A decrypted body starting with 4 ends the session phase.
pub open spec fn client_relay_step(b: BridgeState, body: Seq<u8>) -> (BridgeState, Seq<u8>) {
    if b.session_phase {
        let (d, mid) = rc4_apply(b.downstream_input, body);
        let (u, out) = rc4_apply(b.upstream_input, mid);
        (BridgeState { downstream_input: d, upstream_input: u, session_phase: !(mid.len() > 0 && mid[0] == 4), ..b }, out)
    } else {
        (b, body)
    }
}

/// Warden bodies through the relay in order, each from the server (`true`) or the client:
/// the relay after them and the bodies sent on.
pub open spec fn relay(b: BridgeState, packets: Seq<(bool, Seq<u8>)>) -> (BridgeState, Seq<Seq<u8>>)
    decreases packets.len(),
{
    if packets.len() == 0 {
        (b, Seq::empty())
    } else {
        let (b1, outs) = relay(b, packets.drop_last());
        let (from_server, body) = packets.last();
        let (b2, out) = if from_server { server_relay_step(b1, body) } else { client_relay_step(b1, body) };
        (b2, outs.push(out))
    }
}

/// The bodies of packets.
pub open spec fn packet_bodies(packets: Seq<(bool, Seq<u8>)>) -> Seq<Seq<u8>> {
    packets.map_values(|p: (bool, Seq<u8>)| p.1)
}

/// Re-encrypts Warden packets between the upstream and the player's session.
pub struct WardenBridge {
    upstream_input: Rc4,
    upstream_output: Rc4,
    downstream_input: Rc4,
    downstream_output: Rc4,
    session_phase: bool,
}

impl View for WardenBridge {
    type V = BridgeState;

    closed spec fn view(&self) -> BridgeState {
        BridgeState {
            upstream_input: self.upstream_input@,
            upstream_output: self.upstream_output@,
            downstream_input: self.downstream_input@,
            downstream_output: self.downstream_output@,
            session_phase: self.session_phase,
        }
    }
}

impl WardenBridge {
    /// All four ciphers are well formed.
    pub closed spec fn wf(&self) -> bool {
        self.upstream_input.wf() && self.upstream_output.wf() && self.downstream_input.wf()
            && self.downstream_output.wf()
    }

    /// A relay in its session phase, keyed from both session keys.
    pub fn new(upstream: &[u8], downstream: &[u8]) -> (r: Self)
        requires
            upstream@.len() == SESSION_KEY_LEN,
            downstream@.len() == SESSION_KEY_LEN,
        ensures
            r.wf(),
            r@.upstream_input == rc4_init(warden_input_key(upstream@)),
            r@.upstream_output == rc4_init(warden_output_key(upstream@)),
            r@.downstream_input == rc4_init(warden_input_key(downstream@)),
            r@.downstream_output == rc4_init(warden_output_key(downstream@)),
            r@.session_phase,
    {
        let (upstream_input, upstream_output) = keys(upstream);
        let (downstream_input, downstream_output) = keys(downstream);
        WardenBridge {
            upstream_input: Rc4::new(upstream_input.as_slice()),
            upstream_output: Rc4::new(upstream_output.as_slice()),
            downstream_input: Rc4::new(downstream_input.as_slice()),
            downstream_output: Rc4::new(downstream_output.as_slice()),
            session_phase: true,
        }
    }

    /// Server-to-client Warden body: during the session phase it is decrypted with the
    /// upstream output key and re-encrypted with the player's output key; afterwards it
    /// passes unchanged.
    pub fn server_to_client(&mut self, body: &mut Vec<u8>)
        requires
            old(self).wf(),
        ensures
            final(self).wf(),
            final(self)@.session_phase == old(self)@.session_phase,
            final(self)@.upstream_input == old(self)@.upstream_input,
            final(self)@.downstream_input == old(self)@.downstream_input,
            old(self)@.session_phase ==> {
                let (u, mid) = rc4_apply(old(self)@.upstream_output, old(body)@);
                let (d, out) = rc4_apply(old(self)@.downstream_output, mid);
                &&& final(self)@.upstream_output == u
                &&& final(self)@.downstream_output == d
                &&& final(body)@ == out
            },
            !old(self)@.session_phase ==> final(self)@ == old(self)@ && final(body)@ == old(body)@,
            (final(self)@, final(body)@) == server_relay_step(old(self)@, old(body)@),
    {
        if self.session_phase {
            self.upstream_output.apply(body);
            self.downstream_output.apply(body);
        }
    }

    /// Client-to-server Warden body: during the session phase it is decrypted with the
    /// player's input key and re-encrypted with the upstream input key; a decrypted body
    /// starting with 4 (the hash result) ends the session phase.
    pub fn client_to_server(&mut self, body: &mut Vec<u8>)
        requires
            old(self).wf(),
        ensures
            final(self).wf(),
            final(self)@.upstream_output == old(self)@.upstream_output,
            final(self)@.downstream_output == old(self)@.downstream_output,
            old(self)@.session_phase ==> {
                let (d, mid) = rc4_apply(old(self)@.downstream_input, old(body)@);
                let (u, out) = rc4_apply(old(self)@.upstream_input, mid);
                &&& final(self)@.downstream_input == d
                &&& final(self)@.upstream_input == u
                &&& final(body)@ == out
                &&& final(self)@.session_phase == !(mid.len() > 0 && mid[0] == 4)
            },
            !old(self)@.session_phase ==> final(self)@ == old(self)@ && final(body)@ == old(body)@,
            (final(self)@, final(body)@) == client_relay_step(old(self)@, old(body)@),
    {
        if self.session_phase {
            self.downstream_input.apply(body);
            let complete = body.len() > 0 && body[0] == 4;
            self.upstream_input.apply(body);
            if complete {
                self.session_phase = false;
            }
        }
    }
}

/// During the session phase a server packet encrypted with the upstream output keystream
/// reaches the player encrypted with the player's output keystream.
pub proof fn law_bridge_translates_server_packets(up_out: Rc4State, down_out: Rc4State, plain: Seq<u8>)
    ensures
        rc4_apply(down_out, rc4_apply(up_out, rc4_apply(up_out, plain).1).1).1 == rc4_apply(
            down_out,
            plain,
        ).1,
{
    crate::proxy::rc4::law_rc4_reencrypt(up_out, down_out, plain);
}

/// Out of its session phase the relay passes every later body unchanged and stays as it is.
pub proof fn lemma_relay_after_session(b: BridgeState, packets: Seq<(bool, Seq<u8>)>)
    requires
        !b.session_phase,
    ensures
        relay(b, packets) == (b, packet_bodies(packets)),
    decreases packets.len(),
{
    if packets.len() > 0 {
        lemma_relay_after_session(b, packets.drop_last());
        assert(packet_bodies(packets.drop_last()).push(packets.last().1) =~= packet_bodies(packets));
    }
}

/// The session phase of the Warden relay ends for good with the hash result: a client body
/// whose decryption starts with 4 is re-encrypted for the upstream, and from then on every
/// body, from either side, passes unchanged and the relay stays as it is. A client body
/// that is empty or starts otherwise keeps the session phase, so later bodies are still
/// translated.
pub proof fn law_session_phase_ends_with_hash_result(b: BridgeState, body: Seq<u8>, later: Seq<(bool, Seq<u8>)>)
    requires
        b.session_phase,
    ensures
        ({
            let (d, mid) = rc4_apply(b.downstream_input, body);
            let (b1, out) = client_relay_step(b, body);
            &&& out == rc4_apply(b.upstream_input, mid).1
            &&& (mid.len() > 0 && mid[0] == 4) ==> !b1.session_phase && relay(b1, later) == (b1, packet_bodies(later))
            &&& !(mid.len() > 0 && mid[0] == 4) ==> b1.session_phase
        }),
{
    let (b1, out) = client_relay_step(b, body);
    if !b1.session_phase {
        lemma_relay_after_session(b1, later);
    }
}

} // verus!
