//! Little-endian integers, packed GUIDs and C strings in packet bodies.
use vstd::prelude::*;

verus! {

/// The 16-bit little-endian value of two bytes.
pub open spec fn le_u16(b0: u8, b1: u8) -> u16 {
    ((b0 as u16) | ((b1 as u16) << 8u16)) as u16
}

/// The 32-bit little-endian value of four bytes.
pub open spec fn le_u32(b0: u8, b1: u8, b2: u8, b3: u8) -> u32 {
    ((b0 as u32) | ((b1 as u32) << 8u32) | ((b2 as u32) << 16u32) | ((b3 as u32) << 24u32)) as u32
}

/// The 64-bit little-endian value of the first eight bytes of `s`.
pub open spec fn le_u64(s: Seq<u8>) -> u64
    recommends
        s.len() >= 8,
{
    ((s[0] as u64) | ((s[1] as u64) << 8u64) | ((s[2] as u64) << 16u64) | ((s[3] as u64) << 24u64)
        | ((s[4] as u64) << 32u64) | ((s[5] as u64) << 40u64) | ((s[6] as u64) << 48u64)
        | ((s[7] as u64) << 56u64)) as u64
}

/// The 16-bit little-endian value at `i` in `s`.
pub open spec fn u16_at(s: Seq<u8>, i: int) -> u16 {
    le_u16(s[i], s[i + 1])
}

/// The 32-bit little-endian value at `i` in `s`.
pub open spec fn u32_at(s: Seq<u8>, i: int) -> u32 {
    le_u32(s[i], s[i + 1], s[i + 2], s[i + 3])
}

/// The 64-bit little-endian value at `i` in `s`.
pub open spec fn u64_at(s: Seq<u8>, i: int) -> u64 {
    le_u64(s.subrange(i, i + 8))
}

/// The little-endian bytes of a 16-bit value.
pub open spec fn u16_bytes(x: u16) -> Seq<u8> {
    seq![x as u8, (x >> 8u16) as u8]
}

/// The little-endian bytes of a 32-bit value.
pub open spec fn u32_bytes(x: u32) -> Seq<u8> {
    seq![x as u8, (x >> 8u32) as u8, (x >> 16u32) as u8, (x >> 24u32) as u8]
}

/// The little-endian bytes of a 64-bit value.
pub open spec fn u64_bytes(x: u64) -> Seq<u8> {
    seq![
        x as u8,
        (x >> 8u64) as u8,
        (x >> 16u64) as u8,
        (x >> 24u64) as u8,
        (x >> 32u64) as u8,
        (x >> 40u64) as u8,
        (x >> 48u64) as u8,
        (x >> 56u64) as u8,
    ]
}

/// Reading back the bytes of a 16-bit value gives the value.
pub proof fn lemma_u16_roundtrip(x: u16)
    ensures
        le_u16(x as u8, (x >> 8u16) as u8) == x,
{
    assert(((x as u8) as u16 | ((((x >> 8u16) as u8) as u16) << 8u16)) == x) by (bit_vector);
}

/// Reading back the bytes of a 32-bit value gives the value.
pub proof fn lemma_u32_roundtrip(x: u32)
    ensures
        le_u32(x as u8, (x >> 8u32) as u8, (x >> 16u32) as u8, (x >> 24u32) as u8) == x,
{
    assert(((x as u8) as u32 | ((((x >> 8u32) as u8) as u32) << 8u32) | ((((x >> 16u32) as u8) as u32)
        << 16u32) | ((((x >> 24u32) as u8) as u32) << 24u32)) == x) by (bit_vector);
}

/// Reading back the bytes of a 64-bit value gives the value.
pub proof fn lemma_u64_roundtrip(x: u64)
    ensures
        le_u64(u64_bytes(x)) == x,
{
    let s = u64_bytes(x);
    assert(s[0] == x as u8 && s[1] == (x >> 8u64) as u8 && s[2] == (x >> 16u64) as u8 && s[3] == (x
        >> 24u64) as u8 && s[4] == (x >> 32u64) as u8 && s[5] == (x >> 40u64) as u8 && s[6] == (x
        >> 48u64) as u8 && s[7] == (x >> 56u64) as u8);
    assert(((x as u8) as u64 | ((((x >> 8u64) as u8) as u64) << 8u64) | ((((x >> 16u64) as u8) as u64)
        << 16u64) | ((((x >> 24u64) as u8) as u64) << 24u64) | ((((x >> 32u64) as u8) as u64)
        << 32u64) | ((((x >> 40u64) as u8) as u64) << 40u64) | ((((x >> 48u64) as u8) as u64)
        << 48u64) | ((((x >> 56u64) as u8) as u64) << 56u64)) == x) by (bit_vector);
}

/// The 16-bit value at `offset`, if two bytes are there.
pub fn read_u16_at(body: &[u8], offset: usize) -> (r: Option<u16>)
    ensures
        r == (if offset + 2 <= body@.len() {
            Some(u16_at(body@, offset as int))
        } else {
            None::<u16>
        }),
{
    if offset > body.len() || body.len() - offset < 2 {
        return None;
    }
    Some(((body[offset] as u16) | ((body[offset + 1] as u16) << 8u16)) as u16)
}

/// The 32-bit value at `offset`, if four bytes are there.
pub fn read_u32_at(body: &[u8], offset: usize) -> (r: Option<u32>)
    ensures
        r == (if offset + 4 <= body@.len() {
            Some(u32_at(body@, offset as int))
        } else {
            None::<u32>
        }),
{
    if offset > body.len() || body.len() - offset < 4 {
        return None;
    }
    Some(((body[offset] as u32) | ((body[offset + 1] as u32) << 8u32) | ((body[offset + 2] as u32)
        << 16u32) | ((body[offset + 3] as u32) << 24u32)) as u32)
}

/// The 64-bit value at `offset`, if eight bytes are there.
pub fn read_u64_at(body: &[u8], offset: usize) -> (r: Option<u64>)
    ensures
        r == (if offset + 8 <= body@.len() {
            Some(u64_at(body@, offset as int))
        } else {
            None::<u64>
        }),
{
    if offset > body.len() || body.len() - offset < 8 {
        return None;
    }
    let ghost sub = body@.subrange(offset as int, offset + 8);
    assert(sub[0] == body@[offset as int] && sub[1] == body@[offset + 1] && sub[2] == body@[offset
        + 2] && sub[3] == body@[offset + 3] && sub[4] == body@[offset + 4] && sub[5] == body@[offset
        + 5] && sub[6] == body@[offset + 6] && sub[7] == body@[offset + 7]);
    Some(((body[offset] as u64) | ((body[offset + 1] as u64) << 8u64) | ((body[offset + 2] as u64)
        << 16u64) | ((body[offset + 3] as u64) << 24u64) | ((body[offset + 4] as u64) << 32u64) | ((
    body[offset + 5] as u64) << 40u64) | ((body[offset + 6] as u64) << 48u64) | ((body[offset
        + 7] as u64) << 56u64)) as u64)
}

/// Appends the little-endian bytes of a 16-bit value.
pub fn push_u16(v: &mut Vec<u8>, x: u16)
    ensures
        final(v)@ == old(v)@ + u16_bytes(x),
{
    v.push(x as u8);
    v.push((x >> 8u16) as u8);
    assert(final(v)@ =~= old(v)@ + u16_bytes(x));
}

/// Appends the little-endian bytes of a 32-bit value.
pub fn push_u32(v: &mut Vec<u8>, x: u32)
    ensures
        final(v)@ == old(v)@ + u32_bytes(x),
{
    v.push(x as u8);
    v.push((x >> 8u32) as u8);
    v.push((x >> 16u32) as u8);
    v.push((x >> 24u32) as u8);
    assert(final(v)@ =~= old(v)@ + u32_bytes(x));
}

/// Appends the little-endian bytes of a 64-bit value.
pub fn push_u64(v: &mut Vec<u8>, x: u64)
    ensures
        final(v)@ == old(v)@ + u64_bytes(x),
{
    v.push(x as u8);
    v.push((x >> 8u64) as u8);
    v.push((x >> 16u64) as u8);
    v.push((x >> 24u64) as u8);
    v.push((x >> 32u64) as u8);
    v.push((x >> 40u64) as u8);
    v.push((x >> 48u64) as u8);
    v.push((x >> 56u64) as u8);
    assert(final(v)@ =~= old(v)@ + u64_bytes(x));
}

/// Appends all of `src` to `v`.
pub fn extend_bytes(v: &mut Vec<u8>, src: &[u8])
    ensures
        final(v)@ == old(v)@ + src@,
{
    let mut i: usize = 0;
    while i < src.len()
        invariant
            i <= src@.len(),
            v@ == old(v)@ + src@.subrange(0, i as int),
        decreases src@.len() - i,
    {
        v.push(src[i]);
        i = i + 1;
        assert(v@ =~= old(v)@ + src@.subrange(0, i as int));
    }
    assert(src@.subrange(0, src@.len() as int) =~= src@);
}

/// A copy of `src[start..end]`.
pub fn copy_range(src: &[u8], start: usize, end: usize) -> (r: Vec<u8>)
    requires
        start <= end <= src@.len(),
    ensures
        r@ == src@.subrange(start as int, end as int),
{
    let mut r: Vec<u8> = Vec::new();
    let mut i: usize = start;
    while i < end
        invariant
            start <= i <= end <= src@.len(),
            r@ == src@.subrange(start as int, i as int),
        decreases end - i,
    {
        r.push(src[i]);
        i = i + 1;
        assert(r@ =~= src@.subrange(start as int, i as int));
    }
    r
}

/// Whether bit `k` of a packed-GUID mask is set.
pub open spec fn mask_bit(mask: u8, k: int) -> bool {
    (mask >> (k as u8)) & 1u8 == 1u8
}

/// Reads the first `k` GUID bytes of a packed GUID whose mask is at `offset`:
/// the bytes read so far and the position after them.
pub open spec fn packed_guid_prefix(body: Seq<u8>, offset: int, k: nat) -> Option<(Seq<u8>, int)>
    decreases k,
{
    if k == 0 {
        Some((Seq::<u8>::empty(), offset + 1))
    } else {
        match packed_guid_prefix(body, offset, (k - 1) as nat) {
            None => None,
            Some((bytes, pos)) => if mask_bit(body[offset], k - 1) {
                if 0 <= pos < body.len() {
                    Some((bytes.push(body[pos]), pos + 1))
                } else {
                    None
                }
            } else {
                Some((bytes.push(0u8), pos))
            },
        }
    }
}

/// The packed GUID at `offset` and the position after it, if the body holds it.
pub open spec fn packed_guid_at(body: Seq<u8>, offset: int) -> Option<(u64, int)> {
    if 0 <= offset < body.len() {
        match packed_guid_prefix(body, offset, 8) {
            Some((bytes, pos)) => Some((le_u64(bytes), pos)),
            None => None,
        }
    } else {
        None
    }
}

proof fn lemma_packed_prefix_none(body: Seq<u8>, offset: int, k: nat, n: nat)
    requires
        k <= n,
        packed_guid_prefix(body, offset, k) is None,
    ensures
        packed_guid_prefix(body, offset, n) is None,
    decreases n,
{
    if n > k {
        lemma_packed_prefix_none(body, offset, k, (n - 1) as nat);
    }
}

proof fn lemma_packed_prefix_shape(body: Seq<u8>, offset: int, k: nat)
    requires
        0 <= offset < body.len(),
    ensures
        packed_guid_prefix(body, offset, k) matches Some((bytes, pos)) ==> bytes.len() == k && offset
            < pos <= body.len() && pos <= offset + 1 + k,
    decreases k,
{
    if k > 0 {
        lemma_packed_prefix_shape(body, offset, (k - 1) as nat);
    }
}

/// Reads a packed GUID (mask byte, then one byte per set mask bit) at `offset`,
/// returning the GUID and the position after it.
pub fn read_packed_guid(body: &[u8], offset: usize) -> (r: Option<(u64, usize)>)
    ensures
        match r {
            Some((g, p)) => packed_guid_at(body@, offset as int) == Some((g, p as int)) && offset < p <= body@.len(),
            None => packed_guid_at(body@, offset as int) is None,
        },
{
    if offset >= body.len() {
        return None;
    }
    let mask = body[offset];
    let mut pos = offset + 1;
    let mut bytes: Vec<u8> = Vec::new();
    let mut k: usize = 0;
    while k < 8
        invariant
            0 <= offset < body@.len(),
            mask == body@[offset as int],
            k <= 8,
            packed_guid_prefix(body@, offset as int, k as nat) == Some((bytes@, pos as int)),
            pos <= body@.len(),
        decreases 8 - k,
    {
        proof {
            lemma_packed_prefix_shape(body@, offset as int, k as nat);
        }
        if (mask >> (k as u8)) & 1u8 == 1u8 {
            if pos >= body.len() {
                proof {
                    lemma_packed_prefix_none(body@, offset as int, (k + 1) as nat, 8);
                }
                return None;
            }
            bytes.push(body[pos]);
            pos = pos + 1;
        } else {
            bytes.push(0u8);
        }
        k = k + 1;
    }
    proof {
        lemma_packed_prefix_shape(body@, offset as int, 8);
    }
    let g = ((bytes[0] as u64) | ((bytes[1] as u64) << 8u64) | ((bytes[2] as u64) << 16u64) | ((
    bytes[3] as u64) << 24u64) | ((bytes[4] as u64) << 32u64) | ((bytes[5] as u64) << 40u64) | ((
    bytes[6] as u64) << 48u64) | ((bytes[7] as u64) << 56u64)) as u64;
    Some((g, pos))
}

/// The nonzero bytes among the first `k` bytes of `b`, in order.
pub open spec fn nonzero_prefix(b: Seq<u8>, k: nat) -> Seq<u8>
    decreases k,
{
    if k == 0 {
        Seq::<u8>::empty()
    } else if b[k - 1] != 0 {
        nonzero_prefix(b, (k - 1) as nat).push(b[k - 1])
    } else {
        nonzero_prefix(b, (k - 1) as nat)
    }
}

/// The mask with bit `i` set for each nonzero byte among the first `k` bytes of `b`.
pub open spec fn nonzero_mask(b: Seq<u8>, k: nat) -> u8
    decreases k,
{
    if k == 0 {
        0u8
    } else if b[k - 1] != 0 {
        (nonzero_mask(b, (k - 1) as nat) | (1u8 << ((k - 1) as u8))) as u8
    } else {
        nonzero_mask(b, (k - 1) as nat)
    }
}

/// The packed encoding of a GUID: a mask byte, then its nonzero bytes.
pub open spec fn packed_guid_bytes(g: u64) -> Seq<u8> {
    seq![nonzero_mask(u64_bytes(g), 8)] + nonzero_prefix(u64_bytes(g), 8)
}

proof fn lemma_mask_bits(b: Seq<u8>, k: nat, i: int)
    requires
        k <= 8,
        0 <= i < 8,
    ensures
        mask_bit(nonzero_mask(b, k), i) == (i < k && b[i] != 0),
    decreases k,
{
    let ii = i as u8;
    if k == 0 {
        assert(((0u8 >> ii) & 1u8) != 1u8) by (bit_vector);
    } else {
        lemma_mask_bits(b, (k - 1) as nat, i);
        let m = nonzero_mask(b, (k - 1) as nat);
        let kk = (k - 1) as u8;
        assert(kk < 8 && ii < 8);
        if b[k - 1] != 0 {
            assert((((m | (1u8 << kk)) as u8) >> ii) & 1u8 == 1u8 <==> ((m >> ii) & 1u8 == 1u8 || ii
                == kk)) by (bit_vector)
                requires
                    kk < 8,
                    ii < 8,
            ;
        }
    }
}

proof fn lemma_packed_decode_prefix(g: u64, rest: Seq<u8>, k: nat)
    requires
        k <= 8,
    ensures
        ({
            let body = packed_guid_bytes(g) + rest;
            let b = u64_bytes(g);
            packed_guid_prefix(body, 0, k) == Some((b.subrange(0, k as int), 1 + nonzero_prefix(b, k).len() as int))
        }),
    decreases k,
{
    let body = packed_guid_bytes(g) + rest;
    let b = u64_bytes(g);
    if k > 0 {
        lemma_packed_decode_prefix(g, rest, (k - 1) as nat);
        lemma_mask_bits(b, 8, k - 1);
        let pos: int = 1 + nonzero_prefix(b, (k - 1) as nat).len() as int;
        assert(body[0] == nonzero_mask(b, 8));
        if b[k - 1] != 0 {
            lemma_nonzero_prefix_extends(b, (k - 1) as nat, 8);
            assert(body[pos] == b[k - 1]);
        }
        assert(b.subrange(0, k - 1).push(b[k - 1]) =~= b.subrange(0, k as int));
    } else {
        assert(b.subrange(0, 0) =~= Seq::<u8>::empty());
    }
}

proof fn lemma_nonzero_prefix_extends(b: Seq<u8>, k: nat, n: nat)
    requires
        k < n <= 8,
        b[k as int] != 0,
    ensures
        nonzero_prefix(b, n).len() > nonzero_prefix(b, k).len(),
        nonzero_prefix(b, n)[nonzero_prefix(b, k).len() as int] == b[k as int],
    decreases n,
{
    if n == k + 1 {
    } else {
        lemma_nonzero_prefix_extends(b, k, (n - 1) as nat);
    }
}

proof fn lemma_nonzero_prefix_len(b: Seq<u8>, k: nat)
    ensures
        nonzero_prefix(b, k).len() <= k,
    decreases k,
{
    if k > 0 {
        lemma_nonzero_prefix_len(b, (k - 1) as nat);
    }
}

/// A packed GUID that reads ends after its mask byte and within the body.
pub proof fn lemma_packed_guid_at_bounds(body: Seq<u8>, offset: int)
    ensures
        packed_guid_at(body, offset) matches Some((_, p)) ==> offset < p <= body.len(),
{
    if 0 <= offset < body.len() {
        lemma_packed_prefix_shape(body, offset, 8);
    }
}

/// Decoding the packed encoding of a GUID, followed by anything, gives back the GUID
/// and ends right after the encoding.
pub proof fn law_packed_guid_roundtrip(g: u64, rest: Seq<u8>)
    ensures
        packed_guid_at(packed_guid_bytes(g) + rest, 0) == Some((g, packed_guid_bytes(g).len() as int)),
{
    lemma_packed_decode_prefix(g, rest, 8);
    lemma_u64_roundtrip(g);
    assert(u64_bytes(g).subrange(0, 8) =~= u64_bytes(g));
}

/// Appends the packed encoding of `g`.
pub fn push_packed_guid(v: &mut Vec<u8>, g: u64)
    ensures
        final(v)@ == old(v)@ + packed_guid_bytes(g),
{
    let start = v.len();
    v.push(0u8);
    let mut mask: u8 = 0;
    let mut k: usize = 0;
    let ghost b = u64_bytes(g);
    while k < 8
        invariant
            k <= 8,
            start == old(v)@.len(),
            v@ == old(v)@ + seq![0u8] + nonzero_prefix(b, k as nat),
            mask == nonzero_mask(b, k as nat),
            b == u64_bytes(g),
        decreases 8 - k,
    {
        let byte = (g >> (8 * k) as u64) as u8;
        assert(byte == b[k as int]) by {
            assert(k < 8);
            if k == 0 { assert((g >> 0u64) == g) by (bit_vector); }
        }
        if byte != 0 {
            mask = (mask | (1u8 << (k as u8))) as u8;
            v.push(byte);
        }
        k = k + 1;
    }
    proof {
        lemma_nonzero_prefix_len(b, 8);
    }
    v.set(start, mask);
    assert(v@ =~= old(v)@ + packed_guid_bytes(g));
}

/// The C string at `offset`: the bytes up to the first zero at or after `offset`, and the
/// position after that zero; `None` where no zero follows.
pub open spec fn cstring_at(body: Seq<u8>, offset: int) -> Option<(Seq<u8>, int)> {
    if exists|z: int| offset <= z < body.len() && body[z] == 0 {
        let z = choose|z: int| offset <= z < body.len() && body[z] == 0 && forall|j: int| offset <= j < z ==> body[j] != 0;
        Some((body.subrange(offset, z), z + 1))
    } else {
        None
    }
}

/// Reads a zero-terminated byte string at `offset`: its bytes and the position after the terminator.
pub fn read_cstring_bytes(body: &[u8], offset: usize) -> (r: Option<(Vec<u8>, usize)>)
    ensures
        match r {
            Some((text, next)) => cstring_at(body@, offset as int) == Some((text@, next as int)) && offset < next <= body@.len(),
            None => cstring_at(body@, offset as int) is None,
        },
{
    let mut i = offset;
    while i < body.len()
        invariant
            offset <= i,
            forall|j: int| offset <= j < i && j < body@.len() ==> body@[j] != 0,
        decreases body@.len() - i,
    {
        if body[i] == 0 {
            let text = copy_range(body, offset, i);
            proof {
                let z = choose|z: int| offset <= z < body@.len() && body@[z] == 0 && forall|j: int| offset <= j < z ==> body@[j] != 0;
                assert(offset <= i as int && body@[i as int] == 0 && forall|j: int| offset <= j < i ==> body@[j] != 0);
                if z < i {
                    assert(body@[z] != 0);
                }
                if z > i {
                    assert(body@[i as int] != 0);
                }
                assert(z == i);
            }
            return Some((text, i + 1));
        }
        i = i + 1;
    }
    None
}

} // verus!
