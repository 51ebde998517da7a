//! Derivation of the 256-byte keystream table from the decrypted key
//! material, and the XOR stream cipher that it drives over the audio payload.

use vstd::prelude::*;

verus! {

/// Size of the chunks in which the audio payload is processed. The keystream
/// position index restarts at every chunk boundary; this per-chunk restart is
/// part of the wire format and must be preserved exactly.
pub const AUDIO_CHUNK: usize = 0x8000;

/// The initial table: the identity permutation of 0..256.
pub open spec fn kb_init() -> Seq<u8> {
    Seq::new(256, |i: int| i as u8)
}

/// One key-scheduling step at index `i`: pick the swap target
/// `(table[i] + last + key[offset]) mod 256`, swap, and advance the key
/// offset, wrapping to 0 when it reaches the key length.
pub open spec fn kb_step(st: (Seq<u8>, u8, int), key: Seq<u8>, i: int) -> (Seq<u8>, u8, int)
    recommends
        st.0.len() == 256,
        0 <= st.2 < key.len(),
        0 <= i < 256,
{
    let t = st.0;
    let c = (((t[i] as int) + (st.1 as int) + (key[st.2] as int)) % 256) as u8;
    let t2 = t.update(i, t[c as int]).update(c as int, t[i]);
    let off2 = if st.2 + 1 >= key.len() { 0int } else { st.2 + 1 };
    (t2, c, off2)
}

/// The (table, last byte, key offset) state after the first `n` scheduling
/// steps.
pub open spec fn kb_state(key: Seq<u8>, n: nat) -> (Seq<u8>, u8, int)
    decreases n,
{
    if n == 0 {
        (kb_init(), 0u8, 0int)
    } else {
        kb_step(kb_state(key, (n - 1) as nat), key, n - 1)
    }
}

/// The 256-byte keystream table derived from the given key material.
pub open spec fn key_box_spec(key: Seq<u8>) -> Seq<u8> {
    kb_state(key, 256).0
}

pub proof fn lemma_kb_state_wf(key: Seq<u8>, n: nat)
    requires
        key.len() > 0,
        n <= 256,
    ensures
        kb_state(key, n).0.len() == 256,
        0 <= kb_state(key, n).2 < key.len(),
    decreases n,
{
    if n > 0 {
        lemma_kb_state_wf(key, (n - 1) as nat);
    }
}

/// The table is a function of the key material alone: equal key material
/// always yields the equal 256-byte table.
pub proof fn lemma_key_box_deterministic(k1: Seq<u8>, k2: Seq<u8>)
    requires
        k1 == k2,
    ensures
        key_box_spec(k1) == key_box_spec(k2),
{
}

/// Builds the keystream table from non-empty key material.
pub fn build_key_box(key_data: &[u8]) -> (r: Vec<u8>)
    requires
        key_data@.len() > 0,
    ensures
        r@ == key_box_spec(key_data@),
        r@.len() == 256,
{
    let key_len: usize = key_data.len();
    let mut key_box: Vec<u8> = Vec::new();
    let mut i: usize = 0;
    while i < 256
        invariant
            i <= 256,
            key_box@.len() == i,
            forall|k: int| 0 <= k < i ==> key_box@[k] == k as u8,
        decreases 256 - i,
    {
        key_box.push(i as u8);
        i += 1;
    }
    assert(key_box@ =~= kb_init());

    let mut last_byte: u8 = 0;
    let mut key_offset: usize = 0;
    let mut i: usize = 0;
    while i < 256
        invariant
            i <= 256,
            key_len == key_data@.len(),
            key_len > 0,
            key_box@ == kb_state(key_data@, i as nat).0,
            last_byte == kb_state(key_data@, i as nat).1,
            key_offset as int == kb_state(key_data@, i as nat).2,
        decreases 256 - i,
    {
        proof {
            lemma_kb_state_wf(key_data@, i as nat);
        }
        let c: u8 = (((key_box[i] as usize) + (last_byte as usize) + (key_data[key_offset] as usize))
            % 256) as u8;
        key_offset += 1;
        if key_offset >= key_len {
            key_offset = 0;
        }
        let a: u8 = key_box[i];
        let b: u8 = key_box[c as usize];
        key_box[i] = b;
        key_box[c as usize] = a;
        last_byte = c;
        i += 1;
        assert(key_box@ =~= kb_state(key_data@, i as nat).0);
    }
    proof {
        lemma_kb_state_wf(key_data@, 256);
    }
    key_box
}

/// The keystream byte XORed against the payload at chunk-relative position
/// `i`: `j = (i + 1) mod 256`, then
/// `table[(table[j] + table[(table[j] + j) mod 256]) mod 256]`.
pub open spec fn keystream_at(t: Seq<u8>, i: int) -> u8
    recommends
        t.len() == 256,
        i >= 0,
{
    let j = (i + 1) % 256;
    let a = t[j] as int;
    let b = t[(a + j) % 256] as int;
    t[(a + b) % 256]
}

/// Decrypts `read_size` leading bytes of `data` in place; the position index
/// is relative to the start of this call.
pub fn decode_audio(data: &mut Vec<u8>, read_size: usize, key_box: &[u8])
    requires
        read_size <= old(data)@.len(),
        key_box@.len() == 256,
    ensures
        final(data)@.len() == old(data)@.len(),
        forall|i: int|
            0 <= i < read_size ==> final(data)@[i] == (old(data)@[i] ^ keystream_at(
                key_box@,
                i,
            )),
        forall|i: int| read_size <= i < old(data)@.len() ==> final(data)@[i] == old(data)@[i],
{
    let mut i: usize = 0;
    while i < read_size
        invariant
            i <= read_size,
            read_size <= data@.len(),
            data@.len() == old(data)@.len(),
            key_box@.len() == 256,
            forall|k: int| 0 <= k < i ==> data@[k] == (old(data)@[k] ^ keystream_at(key_box@, k)),
            forall|k: int| i <= k < data@.len() ==> data@[k] == old(data)@[k],
        decreases read_size - i,
    {
        let j: usize = (i + 1) % 256;
        let a: usize = key_box[j] as usize;
        let b: usize = key_box[(a + j) % 256] as usize;
        let ks: u8 = key_box[(a + b) % 256];
        let x: u8 = data[i];
        data[i] = x ^ ks;
        i += 1;
    }
}

/// The whole decrypted audio payload: position indices restart every
/// `AUDIO_CHUNK` bytes.
pub open spec fn decrypted_payload(p: Seq<u8>, t: Seq<u8>) -> Seq<u8> {
    Seq::new(p.len(), |i: int| p[i] ^ keystream_at(t, i % (AUDIO_CHUNK as int)))
}

/// The stream cipher is self-inverse: decrypting a buffer twice with the same
/// table returns the original buffer.
pub proof fn lemma_decode_self_inverse(p: Seq<u8>, t: Seq<u8>)
    requires
        t.len() == 256,
    ensures
        decrypted_payload(decrypted_payload(p, t), t) == p,
{
    let d1 = decrypted_payload(p, t);
    let d2 = decrypted_payload(d1, t);
    assert forall|i: int| 0 <= i < p.len() implies d2[i] == p[i] by {
        let k = keystream_at(t, i % (AUDIO_CHUNK as int));
        let x = p[i];
        assert((x ^ k) ^ k == x) by (bit_vector);
    }
    assert(d2 =~= p);
}

} // verus!
