//! Double Ratchet sessions: checks on a pre-key bundle (key sizes and the
//! Dilithium signature over the signed pre-key) and the conversion of a
//! stored message header.
use vstd::prelude::*;

use crate::crypto::{dilithium2_verify, spec_dilithium2_verify};
use crate::text::{decimal_spec, hex_decode, hex_decode_spec, hex_encode, hex_spec, push_decimal, push_str, HexDecodeError};

verus! {

/// Length of a Dilithium2 public key.
pub const DILITHIUM2_PUBLIC_KEY_LEN: usize = 1312;

/// Length of a Dilithium2 signature.
pub const DILITHIUM2_SIGNATURE_LEN: usize = 2420;

/// What can go wrong with a session.
#[derive(Debug, Clone, PartialEq, Eq)]
pub enum SessionError {
    SessionNotFound(String),
    InitializationFailed(String),
    EncryptionFailed(String),
    DecryptionFailed(String),
    InvalidKeyFormat(String),
    DatabaseError(String),
    SerializationError(String),
    InvalidSignature(String),
    PrekeyBundleNotFound,
    ApiError(String),
}

/// A pre-key bundle of a contact.
#[derive(Debug, Clone)]
pub struct PreKeyBundleData {
    pub registration_id: u32,
    pub device_id: u32,
    pub identity_key: Vec<u8>,
    pub signed_prekey_id: u32,
    pub signed_prekey: Vec<u8>,
    pub signed_prekey_signature: Vec<u8>,
    pub one_time_prekey_id: Option<u32>,
    pub one_time_prekey: Option<Vec<u8>>,
}

/// What the initiator sends after X3DH.
#[derive(Debug, Clone)]
pub struct X3DHInitResult {
    pub ephemeral_public: String,
    pub one_time_prekey_id: Option<u32>,
}

/// What the responder needs to complete X3DH.
#[derive(Debug, Clone)]
pub struct X3DHCompleteData {
    pub their_identity_key: String,
    pub their_ephemeral_key: String,
    pub one_time_prekey_id: Option<u32>,
}

/// A Double Ratchet message as it is stored and sent.
#[derive(Debug, Clone)]
pub struct EncryptedMessageData {
    pub version: u8,
    pub public_key: String,
    pub previous_chain_length: u32,
    pub message_number: u32,
    pub ciphertext: Vec<u8>,
    pub tag: String,
}

/// Checks the Dilithium2 signature of a signed pre-key: the key must be 1312
/// bytes and the signature at most 2420 bytes; then the signature is checked.
pub fn validate_prekey_signature(
    identity_key_public: &[u8],
    signed_prekey_public: &[u8],
    signature: &[u8],
) -> (r: Result<bool, SessionError>)
    ensures
        identity_key_public@.len() != 1312 ==> (r matches Err(SessionError::InvalidKeyFormat(m))
            && m@ == "Invalid Dilithium public key format"@),
        identity_key_public@.len() == 1312 && signature@.len() > 2420 ==> (r matches Err(
            SessionError::InvalidSignature(m),
        ) && m@ == "Invalid Dilithium signature format"@),
        identity_key_public@.len() == 1312 && signature@.len() <= 2420 ==> r == Ok::<bool, SessionError>(
            spec_dilithium2_verify(identity_key_public@, signed_prekey_public@, signature@),
        ),
{
    if identity_key_public.len() != DILITHIUM2_PUBLIC_KEY_LEN {
        return Err(SessionError::InvalidKeyFormat("Invalid Dilithium public key format".to_owned()));
    }
    if signature.len() > DILITHIUM2_SIGNATURE_LEN {
        return Err(SessionError::InvalidSignature("Invalid Dilithium signature format".to_owned()));
    }
    Ok(dilithium2_verify(identity_key_public, signed_prekey_public, signature))
}

/// The problem of a bundle's key sizes, in the order they are checked.
pub open spec fn bundle_size_problem(bundle: PreKeyBundleData) -> Option<Seq<char>> {
    if bundle.identity_key@.len() != 1312 {
        Some(
            "Invalid Dilithium public key length: expected 1312, got "@ + decimal_spec(
                bundle.identity_key@.len(),
            ),
        )
    } else if bundle.signed_prekey@.len() != 32 {
        Some(
            "Invalid X25519 prekey length: expected 32, got "@ + decimal_spec(
                bundle.signed_prekey@.len(),
            ),
        )
    } else if bundle.signed_prekey_signature@.len() != 2420 {
        Some(
            "Invalid Dilithium signature length: expected 2420, got "@ + decimal_spec(
                bundle.signed_prekey_signature@.len(),
            ),
        )
    } else {
        None
    }
}

fn size_message(prefix: &str, len: usize) -> (r: String)
    ensures
        r@ == prefix@ + decimal_spec(len as nat),
{
    let mut s = String::new();
    push_str(&mut s, prefix);
    push_decimal(&mut s, len as u64);
    s
}

/// Checks a pre-key bundle: key and signature sizes first, then the
/// signature of the signed pre-key under the identity key.
pub fn validate_prekey_bundle(bundle: &PreKeyBundleData) -> (r: Result<(), SessionError>)
    ensures
        bundle_size_problem(*bundle) matches Some(m) ==> (r matches Err(
            SessionError::InvalidKeyFormat(e),
        ) && e@ == m),
        bundle_size_problem(*bundle) is None ==> (r is Ok <==> spec_dilithium2_verify(
            bundle.identity_key@,
            bundle.signed_prekey@,
            bundle.signed_prekey_signature@,
        )),
        bundle_size_problem(*bundle) is None && r is Err ==> (r matches Err(
            SessionError::InvalidSignature(e),
        ) && e@ == "Prekey signature verification failed"@),
{
    if bundle.identity_key.len() != 1312 {
        return Err(
            SessionError::InvalidKeyFormat(
                size_message(
                    "Invalid Dilithium public key length: expected 1312, got ",
                    bundle.identity_key.len(),
                ),
            ),
        );
    }
    if bundle.signed_prekey.len() != 32 {
        return Err(
            SessionError::InvalidKeyFormat(
                size_message(
                    "Invalid X25519 prekey length: expected 32, got ",
                    bundle.signed_prekey.len(),
                ),
            ),
        );
    }
    if bundle.signed_prekey_signature.len() != 2420 {
        return Err(
            SessionError::InvalidKeyFormat(
                size_message(
                    "Invalid Dilithium signature length: expected 2420, got ",
                    bundle.signed_prekey_signature.len(),
                ),
            ),
        );
    }
    let valid = validate_prekey_signature(
        bundle.identity_key.as_slice(),
        bundle.signed_prekey.as_slice(),
        bundle.signed_prekey_signature.as_slice(),
    )?;
    if !valid {
        return Err(SessionError::InvalidSignature("Prekey signature verification failed".to_owned()));
    }
    Ok(())
}

/// A message header read back from its stored form.
#[derive(Debug, Clone)]
pub struct MessageHeaderBytes {
    pub version: u8,
    pub public_key: [u8; 32],
    pub previous_chain_length: u32,
    pub message_number: u32,
    pub ciphertext: Vec<u8>,
    pub tag: [u8; 16],
}

/// Why a stored message header could not be read.
#[derive(Debug, Clone, Copy, PartialEq, Eq, Structural)]
pub enum HeaderError {
    /// A hex field did not decode.
    Hex(HexDecodeError),
    /// The ratchet key is not 32 bytes.
    InvalidPublicKeyLength,
    /// The tag is not 16 bytes.
    InvalidTagLength,
}

/// Reads a stored message: the ratchet key and the tag are hex of 32 and 16
/// bytes.
pub fn header_from_data(data: &EncryptedMessageData) -> (r: Result<MessageHeaderBytes, HeaderError>)
    ensures
        match hex_decode_spec(vstd::utf8::encode_utf8(data.public_key@)) {
            Err(e) => r == Err::<MessageHeaderBytes, HeaderError>(HeaderError::Hex(e)),
            Ok(k) if k.len() != 32 => r == Err::<MessageHeaderBytes, HeaderError>(
                HeaderError::InvalidPublicKeyLength,
            ),
            Ok(k) => match hex_decode_spec(vstd::utf8::encode_utf8(data.tag@)) {
                Err(e) => r == Err::<MessageHeaderBytes, HeaderError>(HeaderError::Hex(e)),
                Ok(t) if t.len() != 16 => r == Err::<MessageHeaderBytes, HeaderError>(
                    HeaderError::InvalidTagLength,
                ),
                Ok(t) => r matches Ok(h) && h.public_key@ == k && h.tag@ == t && h.version
                    == data.version && h.previous_chain_length == data.previous_chain_length
                    && h.message_number == data.message_number && h.ciphertext@
                    == data.ciphertext@,
            },
        },
{
    let key = match hex_decode(data.public_key.as_str()) {
        Ok(k) => k,
        Err(e) => {
            return Err(HeaderError::Hex(e));
        },
    };
    if key.len() != 32 {
        return Err(HeaderError::InvalidPublicKeyLength);
    }
    let tag = match hex_decode(data.tag.as_str()) {
        Ok(t) => t,
        Err(e) => {
            return Err(HeaderError::Hex(e));
        },
    };
    if tag.len() != 16 {
        return Err(HeaderError::InvalidTagLength);
    }
    let public_key = crate::bytes::to_array32(key.as_slice());
    let mut t16 = [0u8; 16];
    let mut i: usize = 0;
    while i < 16
        invariant
            i <= 16,
            tag@.len() == 16,
            forall|j: int| 0 <= j < i ==> t16@[j] == tag@[j],
        decreases 16 - i,
    {
        t16[i] = tag[i];
        i = i + 1;
    }
    assert(t16@ =~= tag@);
    let ciphertext = crate::bytes::copy_range(data.ciphertext.as_slice(), 0, data.ciphertext.len());
    assert(ciphertext@ =~= data.ciphertext@);
    Ok(MessageHeaderBytes {
        version: data.version,
        public_key,
        previous_chain_length: data.previous_chain_length,
        message_number: data.message_number,
        ciphertext,
        tag: t16,
    })
}

/// The stored form of a message header: ratchet key and tag in hex.
pub fn data_from_header(h: &MessageHeaderBytes) -> (r: EncryptedMessageData)
    ensures
        r.version == h.version,
        r.public_key@ == hex_spec(h.public_key@),
        r.previous_chain_length == h.previous_chain_length,
        r.message_number == h.message_number,
        r.ciphertext@ == h.ciphertext@,
        r.tag@ == hex_spec(h.tag@),
{
    let ciphertext = crate::bytes::copy_range(h.ciphertext.as_slice(), 0, h.ciphertext.len());
    assert(ciphertext@ =~= h.ciphertext@);
    EncryptedMessageData {
        version: h.version,
        public_key: hex_encode(&h.public_key),
        previous_chain_length: h.previous_chain_length,
        message_number: h.message_number,
        ciphertext,
        tag: hex_encode(&h.tag),
    }
}

} // verus!
