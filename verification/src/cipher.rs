//! Envelopes for out-of-band note delivery: the canonical bytes of a
//! history, encrypted with AES-128-CBC under a key and IV derived from the
//! sender-receiver shared secret. Integrity comes from the proof chain
//! inside, not from the cipher: a corrupted envelope merely decodes to a
//! history that verification rejects.

use vstd::prelude::*;

use crate::codec::dec_history;
use crate::codec::decode_history;
use crate::codec::enc_history;
use crate::codec::encode_history;
use crate::codec::history_codec_wf;
use crate::eddsa::shared_secret_of;
use crate::eddsa::Pt;
use crate::id::Auth;
use crate::note::NoteHistory;

verus! {

/// The ciphertext of one encryption under a 32-byte shared key, with the
/// key and IV taken from the two halves of SHA-256 of that key.
pub uninterp spec fn aes_enc(key: Seq<u8>, msg: Seq<u8>) -> Seq<u8>;

/// The decryption of a ciphertext under a 32-byte shared key, or nothing
/// when the padding does not check out.
pub uninterp spec fn aes_dec(key: Seq<u8>, ct: Seq<u8>) -> Option<Seq<u8>>;

/// An encrypted envelope.
#[derive(Debug, Clone, PartialEq, Eq)]
pub struct EncryptedData {
    pub data: Vec<u8>,
}

impl View for EncryptedData {
    type V = Seq<u8>;

    open spec fn view(&self) -> Seq<u8> {
        self.data@
    }
}

/// Relies on `cbc::Encryptor<aes::Aes128>` with PKCS#7 padding, keyed by
/// the two halves of `sha2::Sha256` of the shared key: a ciphertext
/// determined by key and message alone, one padded block longer than the
/// message rounded down, and the documented inverse of the matching
/// decryption.
#[verifier::external_body]
fn aes_encrypt(key: &Vec<u8>, msg: &Vec<u8>) -> (r: Vec<u8>)
    requires
        key@.len() == 32,
    ensures
        r@ == aes_enc(key@, msg@),
        r@.len() == 16 * (msg@.len() / 16 + 1),
        aes_dec(key@, r@) == Some(msg@),
{
    let digest = <sha2::Sha256 as sha2::Digest>::digest(key.as_slice());
    let enc = <cbc::Encryptor<aes::Aes128> as aes::cipher::KeyIvInit>::new_from_slices(
        &digest[0..16],
        &digest[16..32],
    ).unwrap();
    aes::cipher::BlockEncryptMut::encrypt_padded_vec_mut::<aes::cipher::block_padding::Pkcs7>(
        enc,
        msg.as_slice(),
    )
}

/// Relies on `cbc::Decryptor<aes::Aes128>` with PKCS#7 padding, keyed as
/// the encryptor is: a deterministic function of key and ciphertext,
/// failing exactly when the padding is invalid.
#[verifier::external_body]
fn aes_decrypt(key: &Vec<u8>, ct: &Vec<u8>) -> (r: Option<Vec<u8>>)
    requires
        key@.len() == 32,
    ensures
        r matches Some(m) ==> aes_dec(key@, ct@) == Some(m@),
        r is None ==> aes_dec(key@, ct@) is None,
{
    let digest = <sha2::Sha256 as sha2::Digest>::digest(key.as_slice());
    let dec = <cbc::Decryptor<aes::Aes128> as aes::cipher::KeyIvInit>::new_from_slices(
        &digest[0..16],
        &digest[16..32],
    ).unwrap();
    aes::cipher::BlockDecryptMut::decrypt_padded_vec_mut::<aes::cipher::block_padding::Pkcs7>(
        dec,
        ct.as_slice(),
    ).ok()
}

/// Encrypt a history under a shared key. The ciphertext provably decrypts
/// and decodes back to an equal history: `aes_dec` of it yields exactly
/// the canonical bytes, and decoding those yields the history itself.
pub fn encrypt_history(shared: &Vec<u8>, h: &NoteHistory) -> (r: Result<
    EncryptedData,
    crate::Error,
>)
    requires
        shared@.len() == 32,
    ensures
        r matches Ok(e) ==> {
            &&& history_codec_wf(h@)
            &&& e@ == aes_enc(shared@, enc_history(h@))
            &&& e@.len() == 16 * (enc_history(h@).len() / 16 + 1)
            &&& aes_dec(shared@, e@) == Some(enc_history(h@))
            &&& dec_history(enc_history(h@)) == Some(h@)
        },
        r is Err <==> !history_codec_wf(h@),
{
    let bytes = match encode_history(h) {
        Ok(b) => b,
        Err(e) => {
            return Err(e);
        },
    };
    let data = aes_encrypt(shared, &bytes);
    proof {
        crate::codec::lemma_history_round_trip(h@);
    }
    Ok(EncryptedData { data })
}

/// Decrypt an envelope under a shared key and decode the history inside.
/// Fails exactly when the padding or the canonical encoding is invalid.
pub fn decrypt_history(shared: &Vec<u8>, e: &EncryptedData) -> (r: Result<
    NoteHistory,
    crate::Error,
>)
    requires
        shared@.len() == 32,
    ensures
        r matches Ok(h) ==> (aes_dec(shared@, e@) matches Some(m) && dec_history(m) == Some(h@)),
        r is Err <==> (aes_dec(shared@, e@) is None || (aes_dec(shared@, e@) matches Some(m)
            && dec_history(m) is None)),
{
    let bytes = match aes_decrypt(shared, &e.data) {
        Some(b) => b,
        None => {
            return Err(crate::Error::Data("envelope does not decrypt".to_string()));
        },
    };
    match decode_history(&bytes) {
        Some(h) => Ok(h),
        None => Err(crate::Error::Data("envelope does not decode".to_string())),
    }
}

impl Auth {
    /// Encrypt a history for a receiver, under the Diffie-Hellman key
    /// shared with them. Fails exactly when the receiver's key bytes do
    /// not decode or the history is outside the codec's bounds.
    pub fn encrypt(&self, receiver: &Pt, h: &NoteHistory) -> (r: Result<
        EncryptedData,
        crate::Error,
    >)
        ensures
            r matches Ok(e) ==> (shared_secret_of(self.signing_key@, receiver@) matches Some(k)
                && aes_dec(k, e@) == Some(enc_history(h@)) && dec_history(enc_history(h@)) == Some(
                h@,
            ) && e@.len() == 16 * (enc_history(h@).len() / 16 + 1)),
            r is Err <==> (shared_secret_of(self.signing_key@, receiver@) is None
                || !history_codec_wf(h@)),
    {
        let shared = match self.shared_key(receiver) {
            Some(k) => k,
            None => {
                return Err(crate::Error::Data("invalid receiver key".to_string()));
            },
        };
        encrypt_history(&shared, h)
    }

    /// Decrypt a history received from a sender, under the Diffie-Hellman
    /// key shared with them. Fails exactly when the sender's key bytes do
    /// not decode, the padding does not check out, or the plaintext is not
    /// a canonical history.
    pub fn decrypt(&self, sender: &Pt, e: &EncryptedData) -> (r: Result<NoteHistory, crate::Error>)
        ensures
            r matches Ok(h) ==> (shared_secret_of(self.signing_key@, sender@) matches Some(k)
                && aes_dec(k, e@) matches Some(m) && dec_history(m) == Some(h@)),
            r is Err <==> (match shared_secret_of(self.signing_key@, sender@) {
                Some(k) => match aes_dec(k, e@) {
                    Some(m) => dec_history(m) is None,
                    None => true,
                },
                None => true,
            }),
    {
        let shared = match self.shared_key(sender) {
            Some(k) => k,
            None => {
                return Err(crate::Error::Data("invalid sender key".to_string()));
            },
        };
        decrypt_history(&shared, e)
    }
}

} // verus!
