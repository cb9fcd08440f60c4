//! The RC4 stream cipher used by Warden packets.
use vstd::prelude::*;

verus! {

/// The abstract RC4 state: the permutation and the two indices.
pub struct Rc4State {
    pub s: Seq<u8>,
    pub i: u8,
    pub j: u8,
}

/// Byte addition modulo 256.
pub open spec fn add8(a: u8, b: u8) -> u8 {
    ((a as int + b as int) % 256) as u8
}

/// `s` with positions `a` and `b` exchanged.
pub open spec fn swap_at(s: Seq<u8>, a: int, b: int) -> Seq<u8> {
    s.update(a, s[b]).update(b, s[a])
}

/// The identity permutation of 256 bytes.
pub open spec fn identity_perm() -> Seq<u8> {
    Seq::new(256, |k: int| k as u8)
}

/// The permutation and index `j` after `n` rounds of key scheduling with `key`.
pub open spec fn ksa(key: Seq<u8>, n: nat) -> (Seq<u8>, u8)
    decreases n,
{
    if n == 0 {
        (identity_perm(), 0u8)
    } else {
        let (s, j) = ksa(key, (n - 1) as nat);
        let i: int = n - 1;
        let j2 = add8(add8(j, s[i]), key[(i % (key.len() as int)) as int]);
        (swap_at(s, i, j2 as int), j2)
    }
}

/// The state right after key scheduling with `key`.
pub open spec fn rc4_init(key: Seq<u8>) -> Rc4State {
    Rc4State { s: ksa(key, 256).0, i: 0, j: 0 }
}

/// One keystream step: the next state and the keystream byte.
pub open spec fn rc4_step(st: Rc4State) -> (Rc4State, u8) {
    let i2 = add8(st.i, 1);
    let j2 = add8(st.j, st.s[i2 as int]);
    let s2 = swap_at(st.s, i2 as int, j2 as int);
    let k = s2[add8(s2[i2 as int], s2[j2 as int]) as int];
    (Rc4State { s: s2, i: i2, j: j2 }, k)
}

/// The state after, and the output of, encrypting `data` from state `st`.
pub open spec fn rc4_apply(st: Rc4State, data: Seq<u8>) -> (Rc4State, Seq<u8>)
    decreases data.len(),
{
    if data.len() == 0 {
        (st, Seq::<u8>::empty())
    } else {
        let (st1, out1) = rc4_apply(st, data.drop_last());
        let (st2, k) = rc4_step(st1);
        (st2, out1.push(data.last() ^ k))
    }
}

/// An RC4 cipher instance.
#[derive(Debug)]
pub struct Rc4 {
    state: Vec<u8>,
    i: u8,
    j: u8,
}

impl View for Rc4 {
    type V = Rc4State;

    closed spec fn view(&self) -> Rc4State {
        Rc4State { s: self.state@, i: self.i, j: self.j }
    }
}

proof fn lemma_ksa_len(key: Seq<u8>, n: nat)
    requires
        n <= 256,
        key.len() > 0,
    ensures
        ksa(key, n).0.len() == 256,
    decreases n,
{
    if n > 0 {
        lemma_ksa_len(key, (n - 1) as nat);
    }
}

proof fn lemma_apply_len(st: Rc4State, data: Seq<u8>)
    requires
        st.s.len() == 256,
    ensures
        rc4_apply(st, data).0.s.len() == 256,
        rc4_apply(st, data).1.len() == data.len(),
    decreases data.len(),
{
    if data.len() > 0 {
        lemma_apply_len(st, data.drop_last());
    }
}

impl Rc4 {
    /// The permutation has 256 entries.
    pub closed spec fn wf(&self) -> bool {
        self.state@.len() == 256
    }

    /// Schedules the key; the key must not be empty.
    pub fn new(key: &[u8]) -> (r: Self)
        requires
            key@.len() > 0,
        ensures
            r.wf(),
            r@ == rc4_init(key@),
    {
        let mut state: Vec<u8> = Vec::new();
        let mut k: usize = 0;
        while k < 256
            invariant
                k <= 256,
                state@ == Seq::new(k as nat, |m: int| m as u8),
            decreases 256 - k,
        {
            state.push(k as u8);
            k = k + 1;
            assert(state@ =~= Seq::new(k as nat, |m: int| m as u8));
        }
        assert(state@ =~= identity_perm());
        let mut j: u8 = 0;
        let mut i: usize = 0;
        while i < 256
            invariant
                i <= 256,
                key@.len() > 0,
                (state@, j) == ksa(key@, i as nat),
            decreases 256 - i,
        {
            proof {
                lemma_ksa_len(key@, i as nat);
            }
            let si = state[i];
            let kb = key[i % key.len()];
            let j1 = ((j as u16 + si as u16) % 256) as u8;
            j = ((j1 as u16 + kb as u16) % 256) as u8;
            let sj = state[j as usize];
            state.set(i, sj);
            state.set(j as usize, si);
            i = i + 1;
        }
        proof {
            lemma_ksa_len(key@, 256);
        }
        Rc4 { state, i: 0, j: 0 }
    }

    /// Encrypts (or decrypts) `data` in place, advancing the keystream.
    pub fn apply(&mut self, data: &mut Vec<u8>)
        requires
            old(self).wf(),
        ensures
            final(self).wf(),
            (final(self)@, final(data)@) == rc4_apply(old(self)@, old(data)@),
    {
        let ghost st0 = self@;
        let ghost d0 = data@;
        let mut n: usize = 0;
        while n < data.len()
            invariant
                self.wf(),
                n <= data@.len(),
                data@.len() == d0.len(),
                forall|m: int| n <= m < d0.len() ==> #[trigger] data@[m] == d0[m],
                (self@, data@.subrange(0, n as int)) == rc4_apply(st0, d0.subrange(0, n as int)),
            decreases data@.len() - n,
        {
            let ghost before = self@;
            self.i = ((self.i as u16 + 1) % 256) as u8;
            let si = self.state[self.i as usize];
            self.j = ((self.j as u16 + si as u16) % 256) as u8;
            let sj = self.state[self.j as usize];
            self.state.set(self.i as usize, sj);
            self.state.set(self.j as usize, si);
            let idx = ((self.state[self.i as usize] as u16 + self.state[self.j as usize] as u16)
                % 256) as u8;
            let k = self.state[idx as usize];
            let b = data[n];
            data.set(n, b ^ k);
            proof {
                let prefix = d0.subrange(0, n + 1);
                assert(prefix.drop_last() =~= d0.subrange(0, n as int));
                assert(prefix.last() == b);
                assert(rc4_step(before).0 == self@);
                assert(rc4_step(before).1 == k);
                assert(data@.subrange(0, n + 1) =~= rc4_apply(st0, d0.subrange(0, n as int)).1.push(
                    b ^ k,
                ));
            }
            n = n + 1;
        }
        assert(data@.subrange(0, n as int) =~= data@);
        assert(d0.subrange(0, n as int) =~= d0);
    }
}

} // verus!

verus! {

/// The state after `n` keystream steps from `st`.
pub open spec fn rc4_advance(st: Rc4State, n: nat) -> Rc4State
    decreases n,
{
    if n == 0 {
        st
    } else {
        rc4_step(rc4_advance(st, (n - 1) as nat)).0
    }
}

/// The first `n` keystream bytes from `st`.
pub open spec fn keystream(st: Rc4State, n: nat) -> Seq<u8>
    decreases n,
{
    if n == 0 {
        Seq::<u8>::empty()
    } else {
        keystream(st, (n - 1) as nat).push(rc4_step(rc4_advance(st, (n - 1) as nat)).1)
    }
}

/// Encrypting `data` xors it with the keystream and advances the state by its length,
/// whatever the data is.
pub proof fn lemma_apply_is_keystream_xor(st: Rc4State, data: Seq<u8>)
    ensures
        rc4_apply(st, data).0 == rc4_advance(st, data.len()),
        rc4_apply(st, data).1.len() == data.len(),
        forall|m: int|
            0 <= m < data.len() ==> #[trigger] rc4_apply(st, data).1[m] == data[m] ^ keystream(
                st,
                data.len(),
            )[m],
        keystream(st, data.len()).len() == data.len(),
    decreases data.len(),
{
    if data.len() > 0 {
        let d1 = data.drop_last();
        lemma_apply_is_keystream_xor(st, d1);
        assert forall|m: int| 0 <= m < data.len() implies #[trigger] rc4_apply(st, data).1[m] == data[m]
            ^ keystream(st, data.len())[m] by {
            if m < data.len() - 1 {
                assert(d1[m] == data[m]);
            }
        }
    }
}

/// Decrypting with the same starting state undoes encryption (RC4 is an involution).
pub proof fn law_rc4_involution(st: Rc4State, data: Seq<u8>)
    ensures
        rc4_apply(st, rc4_apply(st, data).1).1 == data,
        rc4_apply(st, rc4_apply(st, data).1).0 == rc4_apply(st, data).0,
{
    let c = rc4_apply(st, data).1;
    lemma_apply_is_keystream_xor(st, data);
    lemma_apply_is_keystream_xor(st, c);
    assert forall|m: int| 0 <= m < data.len() implies #[trigger] rc4_apply(st, c).1[m] == data[m] by {
        let k = keystream(st, data.len())[m];
        let d = data[m];
        assert((d ^ k) ^ k == d) by (bit_vector);
    }
    assert(rc4_apply(st, c).1 =~= data);
}

/// Decrypting with one state and re-encrypting with another turns a ciphertext
/// under the first key stream into a ciphertext under the second.
pub proof fn law_rc4_reencrypt(a: Rc4State, b: Rc4State, plain: Seq<u8>)
    ensures
        rc4_apply(b, rc4_apply(a, rc4_apply(a, plain).1).1).1 == rc4_apply(b, plain).1,
{
    law_rc4_involution(a, plain);
}

/// One round of the standard RC4 key schedule at position `i`, as the algorithm is
/// published: `j` becomes `(j + S[i] + key[i mod len]) mod 256`, then `S[i]` and `S[j]` are
/// exchanged.
pub open spec fn standard_ksa_round(key: Seq<u8>, s: Seq<u8>, j: u8, i: int) -> (Seq<u8>, u8) {
    let jn = ((j as int + s[i] as int + key[i % (key.len() as int)] as int) % 256) as u8;
    (s.update(i, s[jn as int]).update(jn as int, s[i]), jn)
}

/// The standard key schedule run from round `i` to round 255.
pub open spec fn standard_ksa_from(key: Seq<u8>, s: Seq<u8>, j: u8, i: int) -> Seq<u8>
    decreases 256 - i,
{
    if i >= 256 {
        s
    } else {
        let (sn, jn) = standard_ksa_round(key, s, j, i);
        standard_ksa_from(key, sn, jn, i + 1)
    }
}

proof fn lemma_ksa_rest(key: Seq<u8>, n: nat)
    requires
        n <= 256,
        key.len() > 0,
    ensures
        standard_ksa_from(key, ksa(key, n).0, ksa(key, n).1, n as int) == ksa(key, 256).0,
    decreases 256 - n,
{
    if n < 256 {
        let (s, j) = ksa(key, n);
        let k = key[(n as int % (key.len() as int)) as int];
        assert(add8(add8(j, s[n as int]), k) == ((j as int + s[n as int] as int + k as int) % 256) as u8);
        assert(standard_ksa_round(key, s, j, n as int) == ksa(key, n + 1));
        lemma_ksa_rest(key, n + 1);
    }
}

/// The key schedule of `Rc4::new` is the standard RC4 one: starting from the identity
/// permutation and `j = 0`, every round `i` from 0 to 255 sets `j = (j + S[i] +
/// key[i mod len]) mod 256` and exchanges `S[i]` and `S[j]`; the keystream then starts with
/// both indices at 0.
pub proof fn law_key_schedule_is_standard(key: Seq<u8>)
    requires
        key.len() > 0,
    ensures
        rc4_init(key).s == standard_ksa_from(key, Seq::new(256, |k: int| k as u8), 0u8, 0),
        rc4_init(key).i == 0,
        rc4_init(key).j == 0,
{
    assert(ksa(key, 0).0 =~= Seq::new(256, |k: int| k as u8));
    lemma_ksa_rest(key, 0);
}

/// The standard RC4 keystream of `n` bytes from permutation `s` and indices `i`, `j`, as the
/// algorithm is published: for each byte, `i` becomes `i + 1` and `j` becomes `j + S[i]`
/// (mod 256), `S[i]` and `S[j]` are exchanged, and the byte is `S[(S[i] + S[j]) mod 256]`.
pub open spec fn standard_keystream(s: Seq<u8>, i: u8, j: u8, n: nat) -> Seq<u8>
    decreases n,
{
    if n == 0 {
        Seq::empty()
    } else {
        let i2 = ((i as int + 1) % 256) as u8;
        let j2 = ((j as int + s[i2 as int] as int) % 256) as u8;
        let s2 = s.update(i2 as int, s[j2 as int]).update(j2 as int, s[i2 as int]);
        let k = s2[((s2[i2 as int] as int + s2[j2 as int] as int) % 256) as int];
        seq![k] + standard_keystream(s2, i2, j2, (n - 1) as nat)
    }
}

proof fn lemma_advance_first(st: Rc4State, n: nat)
    ensures
        rc4_advance(st, n + 1) == rc4_advance(rc4_step(st).0, n),
    decreases n,
{
    assert(rc4_advance(st, 0) == st);
    if n > 0 {
        lemma_advance_first(st, (n - 1) as nat);
        assert(rc4_advance(st, n + 1) == rc4_step(rc4_advance(st, n)).0);
        assert(rc4_advance(rc4_step(st).0, n) == rc4_step(rc4_advance(rc4_step(st).0, (n - 1) as nat)).0);
    } else {
        assert(rc4_advance(st, 1) == rc4_step(rc4_advance(st, 0)).0);
    }
}

proof fn lemma_keystream_first(st: Rc4State, n: nat)
    ensures
        keystream(st, n + 1) == seq![rc4_step(st).1] + keystream(rc4_step(st).0, n),
    decreases n,
{
    if n > 0 {
        lemma_keystream_first(st, (n - 1) as nat);
        lemma_advance_first(st, (n - 1) as nat);
        assert(keystream(st, n + 1) =~= seq![rc4_step(st).1] + keystream(rc4_step(st).0, n));
    } else {
        assert(rc4_advance(st, 0) == st);
        assert(keystream(st, 0) == Seq::<u8>::empty());
        assert(keystream(rc4_step(st).0, 0) == Seq::<u8>::empty());
        assert(keystream(st, 1) == keystream(st, 0).push(rc4_step(rc4_advance(st, 0)).1));
        assert(keystream(st, 1) =~= seq![rc4_step(st).1] + keystream(rc4_step(st).0, 0));
    }
}

proof fn lemma_keystream_standard(st: Rc4State, n: nat)
    ensures
        keystream(st, n) == standard_keystream(st.s, st.i, st.j, n),
    decreases n,
{
    if n > 0 {
        lemma_keystream_first(st, (n - 1) as nat);
        lemma_keystream_standard(rc4_step(st).0, (n - 1) as nat);
        let i2 = add8(st.i, 1);
        let j2 = add8(st.j, st.s[i2 as int]);
        assert(i2 == ((st.i as int + 1) % 256) as u8);
        assert(j2 == ((st.j as int + st.s[i2 as int] as int) % 256) as u8);
    }
}

/// Encryption with `Rc4::apply` is the standard RC4 stream: every output byte is the input
/// byte xor the standard keystream byte at its position, drawn from the cipher's state.
pub proof fn law_apply_is_standard_stream(st: Rc4State, data: Seq<u8>)
    ensures
        rc4_apply(st, data).1.len() == data.len(),
        forall|m: int| 0 <= m < data.len() ==> #[trigger] rc4_apply(st, data).1[m]
            == data[m] ^ standard_keystream(st.s, st.i, st.j, data.len())[m],
{
    lemma_apply_is_keystream_xor(st, data);
    lemma_keystream_standard(st, data.len());
}

} // verus!
