//! One-shot AES-128-ECB/PKCS7 decryption, base64 decoding and lossy UTF-8
//! conversion, each behind a trusted wrapper whose result is named as a pure
//! function of its input, plus the two fixed embedded keys and the XOR masks
//! applied to the raw blobs.

use vstd::prelude::*;
use aes::Aes128;
use block_modes::{BlockMode, Ecb};
use block_modes::block_padding::Pkcs7;

verus! {

/// The fixed AES-128 key for the key blob.
pub open spec fn core_key_spec() -> Seq<u8> {
    seq![
        0x68u8,
        0x7au8,
        0x48u8,
        0x52u8,
        0x41u8,
        0x6du8,
        0x73u8,
        0x6fu8,
        0x35u8,
        0x6bu8,
        0x49u8,
        0x6eu8,
        0x62u8,
        0x61u8,
        0x78u8,
        0x57u8,
    ]
}

/// The fixed AES-128 key for the metadata blob.
pub open spec fn modify_key_spec() -> Seq<u8> {
    seq![
        0x23u8,
        0x31u8,
        0x34u8,
        0x6cu8,
        0x6au8,
        0x6bu8,
        0x5fu8,
        0x21u8,
        0x5cu8,
        0x5du8,
        0x26u8,
        0x30u8,
        0x55u8,
        0x3cu8,
        0x27u8,
        0x28u8,
    ]
}

pub fn core_key() -> (r: Vec<u8>)
    ensures
        r@ == core_key_spec(),
{
    let mut v: Vec<u8> = Vec::new();
    v.push(0x68);
    v.push(0x7a);
    v.push(0x48);
    v.push(0x52);
    v.push(0x41);
    v.push(0x6d);
    v.push(0x73);
    v.push(0x6f);
    v.push(0x35);
    v.push(0x6b);
    v.push(0x49);
    v.push(0x6e);
    v.push(0x62);
    v.push(0x61);
    v.push(0x78);
    v.push(0x57);
    assert(v@ =~= core_key_spec());
    v
}

pub fn modify_key() -> (r: Vec<u8>)
    ensures
        r@ == modify_key_spec(),
{
    let mut v: Vec<u8> = Vec::new();
    v.push(0x23);
    v.push(0x31);
    v.push(0x34);
    v.push(0x6c);
    v.push(0x6a);
    v.push(0x6b);
    v.push(0x5f);
    v.push(0x21);
    v.push(0x5c);
    v.push(0x5d);
    v.push(0x26);
    v.push(0x30);
    v.push(0x55);
    v.push(0x3c);
    v.push(0x27);
    v.push(0x28);
    assert(v@ =~= modify_key_spec());
    v
}

/// Every byte of `s` XORed with the constant mask `m`.
pub open spec fn xor_mask_spec(s: Seq<u8>, m: u8) -> Seq<u8> {
    Seq::new(s.len(), |i: int| s[i] ^ m)
}

/// Applies the constant XOR mask in place.
pub fn xor_mask(v: &mut Vec<u8>, m: u8)
    ensures
        final(v)@ == xor_mask_spec(old(v)@, m),
{
    let mut i: usize = 0;
    while i < v.len()
        invariant
            i <= v@.len(),
            v@.len() == old(v)@.len(),
            forall|k: int| 0 <= k < i ==> v@[k] == (old(v)@[k] ^ m),
            forall|k: int| i <= k < v@.len() ==> v@[k] == old(v)@[k],
        decreases v@.len() - i,
    {
        let x: u8 = v[i];
        v[i] = x ^ m;
        i += 1;
    }
    assert(v@ =~= xor_mask_spec(old(v)@, m));
}

/// What AES-128-ECB decryption with PKCS7 unpadding returns on the given
/// ciphertext and key: a pure function of the two, `None` where the input is
/// rejected.
pub uninterp spec fn aes_ecb_decrypt_spec(cipher_text: Seq<u8>, key: Seq<u8>) -> Option<Seq<u8>>;

/// Relies on block_modes::BlockMode::decrypt_vec with `Ecb<Aes128, Pkcs7>`:
/// one-shot AES-128-ECB decryption with PKCS7 unpadding, deterministic in the
/// ciphertext and the key. It fails exactly where the ciphertext length is not
/// a positive multiple of 16 or the padding bytes are inconsistent, and
/// unpadding always removes at least one byte.
#[verifier::external_body]
pub fn aes_ecb_decrypt(data: &[u8], key: &[u8]) -> (r: Option<Vec<u8>>)
    requires
        key@.len() == 16,
    ensures
        match r {
            Some(v) => aes_ecb_decrypt_spec(data@, key@) == Some(v@) && v@.len() < data@.len(),
            None => aes_ecb_decrypt_spec(data@, key@) is None,
        },
{
    let cipher = match Ecb::<Aes128, Pkcs7>::new_var(key, &[]) {
        Ok(c) => c,
        Err(_) => return None,
    };
    cipher.decrypt_vec(data).ok()
}

/// What base64 decoding (standard alphabet, padded) returns on the given
/// bytes: a pure function of the input, `None` where the input is rejected.
pub uninterp spec fn base64_decode_spec(s: Seq<u8>) -> Option<Seq<u8>>;

/// Relies on base64::decode: deterministic in its input; `None` exactly where
/// the crate rejects the input.
#[verifier::external_body]
pub fn base64_decode(data: &[u8]) -> (r: Option<Vec<u8>>)
    ensures
        match r {
            Some(v) => base64_decode_spec(data@) == Some(v@),
            None => base64_decode_spec(data@) is None,
        },
{
    base64::decode(data).ok()
}

/// What lossy UTF-8 conversion returns on the given bytes: a pure function of
/// the input (invalid sequences become replacement characters).
pub uninterp spec fn utf8_lossy_spec(b: Seq<u8>) -> Seq<char>;

/// Relies on std's String::from_utf8_lossy: deterministic in its input bytes.
#[verifier::external_body]
pub fn utf8_lossy(b: &[u8]) -> (r: String)
    ensures
        r@ == utf8_lossy_spec(b@),
{
    String::from_utf8_lossy(b).into_owned()
}

} // verus!
