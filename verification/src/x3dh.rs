//! X3DH key agreement as the client performs it.
//!
//! In this system the X25519 identity key of a user is the same key as its
//! signed pre-key, so the initiator (Alice) uses the signed pre-key of the
//! bundle in both roles, and the responder (Bob) uses his signed pre-key
//! secret in both roles. The root key is `SHA-256("ZenthX3DH" || DH1 || DH2 ||
//! DH3 [|| DH4])`.
use vstd::prelude::*;

use crate::crypto::{
    random_bytes_32, sha256, spec_sha256, spec_x25519_public, spec_x25519_shared, x25519_public,
    x25519_shared,
};
use crate::bytes::{extend_bytes, to_array32};
use crate::text::{hex_encode, hex_spec};

verus! {

/// The domain label hashed in front of the DH outputs: `"ZenthX3DH"`.
pub open spec fn x3dh_label() -> Seq<u8> {
    seq![0x5au8, 0x65, 0x6e, 0x74, 0x68, 0x58, 0x33, 0x44, 0x48]
}

/// Key material of the initiator: DH(IK_A, SPK_B) || DH(EK_A, SPK_B) ||
/// DH(EK_A, SPK_B) [|| DH(EK_A, OPK_B)] (the identity key of B is SPK_B).
pub open spec fn alice_ikm(
    identity_secret: Seq<u8>,
    ephemeral_secret: Seq<u8>,
    signed_prekey_public: Seq<u8>,
    one_time_public: Option<Seq<u8>>,
) -> Seq<u8> {
    let base = spec_x25519_shared(identity_secret, signed_prekey_public) + spec_x25519_shared(
        ephemeral_secret,
        signed_prekey_public,
    ) + spec_x25519_shared(ephemeral_secret, signed_prekey_public);
    match one_time_public {
        Some(o) => base + spec_x25519_shared(ephemeral_secret, o),
        None => base,
    }
}

/// Root key of the initiator.
pub open spec fn alice_root_key(
    identity_secret: Seq<u8>,
    ephemeral_secret: Seq<u8>,
    signed_prekey_public: Seq<u8>,
    one_time_public: Option<Seq<u8>>,
) -> Seq<u8> {
    spec_sha256(
        x3dh_label() + alice_ikm(
            identity_secret,
            ephemeral_secret,
            signed_prekey_public,
            one_time_public,
        ),
    )
}

/// Key material of the responder: DH(SPK_B, IK_A) || DH(IK_B, EK_A) ||
/// DH(SPK_B, EK_A) [|| DH(OPK_B, EK_A)].
pub open spec fn bob_ikm(
    identity_secret: Seq<u8>,
    signed_prekey_secret: Seq<u8>,
    one_time_secret: Option<Seq<u8>>,
    their_identity: Seq<u8>,
    their_ephemeral: Seq<u8>,
) -> Seq<u8> {
    let base = spec_x25519_shared(signed_prekey_secret, their_identity) + spec_x25519_shared(
        identity_secret,
        their_ephemeral,
    ) + spec_x25519_shared(signed_prekey_secret, their_ephemeral);
    match one_time_secret {
        Some(o) => base + spec_x25519_shared(o, their_ephemeral),
        None => base,
    }
}

/// Root key of the responder.
pub open spec fn bob_root_key(
    identity_secret: Seq<u8>,
    signed_prekey_secret: Seq<u8>,
    one_time_secret: Option<Seq<u8>>,
    their_identity: Seq<u8>,
    their_ephemeral: Seq<u8>,
) -> Seq<u8> {
    spec_sha256(
        x3dh_label() + bob_ikm(
            identity_secret,
            signed_prekey_secret,
            one_time_secret,
            their_identity,
            their_ephemeral,
        ),
    )
}

/// Why a handshake could not start.
#[derive(Debug, Clone, PartialEq, Eq, Structural)]
pub enum X3dhError {
    InvalidSignedPrekeyLength(usize),
    InvalidOneTimePrekeyLength(usize),
    InvalidIdentityKeyLength(usize),
    InvalidEphemeralKeyLength(usize),
}

/// What the initiator keeps and sends after the key agreement.
pub struct AliceHandshake {
    pub root_key: [u8; 32],
    pub ephemeral_public: [u8; 32],
    pub one_time_prekey_id: Option<u32>,
}

/// Whether the initiator uses the one-time pre-key of a bundle.
pub open spec fn uses_one_time_prekey(pre_key_id: u32, pre_key_public: Seq<u8>) -> bool {
    pre_key_public.len() != 0 && pre_key_id > 0
}

fn label_bytes() -> (r: Vec<u8>)
    ensures
        r@ == x3dh_label(),
{
    let r = vec![0x5au8, 0x65, 0x6e, 0x74, 0x68, 0x58, 0x33, 0x44, 0x48];
    assert(r@ =~= x3dh_label());
    r
}

/// Key agreement of the initiator with the pre-key bundle of a friend, with
/// the ephemeral secret given.
pub fn x3dh_alice(
    signed_pre_key_public: &[u8],
    pre_key_id: u32,
    pre_key_public: &[u8],
    our_x25519_private: &[u8; 32],
    ephemeral_secret: &[u8; 32],
) -> (r: Result<AliceHandshake, X3dhError>)
    ensures
        signed_pre_key_public@.len() != 32 ==> r == Err::<AliceHandshake, X3dhError>(
            X3dhError::InvalidSignedPrekeyLength(signed_pre_key_public@.len() as usize),
        ),
        signed_pre_key_public@.len() == 32 && uses_one_time_prekey(pre_key_id, pre_key_public@)
            && pre_key_public@.len() != 32 ==> r == Err::<AliceHandshake, X3dhError>(
            X3dhError::InvalidOneTimePrekeyLength(pre_key_public@.len() as usize),
        ),
        signed_pre_key_public@.len() == 32 && (uses_one_time_prekey(pre_key_id, pre_key_public@)
            ==> pre_key_public@.len() == 32) ==> r is Ok,
        r matches Ok(h) ==> {
            &&& h.root_key@ == alice_root_key(
                our_x25519_private@,
                ephemeral_secret@,
                signed_pre_key_public@,
                if uses_one_time_prekey(pre_key_id, pre_key_public@) {
                    Some(pre_key_public@)
                } else {
                    None
                },
            )
            &&& h.ephemeral_public@ == spec_x25519_public(ephemeral_secret@)
            &&& h.one_time_prekey_id == if pre_key_id > 0 {
                Some(pre_key_id)
            } else {
                None::<u32>
            }
        },
{
    if signed_pre_key_public.len() != 32 {
        return Err(X3dhError::InvalidSignedPrekeyLength(signed_pre_key_public.len()));
    }
    let spk = to_array32(signed_pre_key_public);
    let uses = pre_key_public.len() != 0 && pre_key_id > 0;
    if uses && pre_key_public.len() != 32 {
        return Err(X3dhError::InvalidOneTimePrekeyLength(pre_key_public.len()));
    }
    let ephemeral_public = x25519_public(ephemeral_secret);
    let dh1 = x25519_shared(our_x25519_private, &spk);
    let dh2 = x25519_shared(ephemeral_secret, &spk);
    let dh3 = x25519_shared(ephemeral_secret, &spk);
    let mut input = label_bytes();
    extend_bytes(&mut input, &dh1);
    extend_bytes(&mut input, &dh2);
    extend_bytes(&mut input, &dh3);
    if uses {
        let opk = to_array32(pre_key_public);
        let dh4 = x25519_shared(ephemeral_secret, &opk);
        extend_bytes(&mut input, &dh4);
    }
    proof {
        let opk_spec = if uses {
            Some(pre_key_public@)
        } else {
            None
        };
        assert(input@ =~= x3dh_label() + alice_ikm(
            our_x25519_private@,
            ephemeral_secret@,
            signed_pre_key_public@,
            opk_spec,
        ));
    }
    let root_key = sha256(input.as_slice());
    let one_time_prekey_id = if pre_key_id > 0 {
        Some(pre_key_id)
    } else {
        None
    };
    Ok(AliceHandshake { root_key, ephemeral_public, one_time_prekey_id })
}

/// Key agreement of the initiator with a fresh ephemeral secret from the
/// operating system's generator.
pub fn x3dh_alice_fresh(
    signed_pre_key_public: &[u8],
    pre_key_id: u32,
    pre_key_public: &[u8],
    our_x25519_private: &[u8; 32],
) -> (r: Result<AliceHandshake, X3dhError>)
    ensures
        signed_pre_key_public@.len() != 32 ==> r == Err::<AliceHandshake, X3dhError>(
            X3dhError::InvalidSignedPrekeyLength(signed_pre_key_public@.len() as usize),
        ),
        signed_pre_key_public@.len() == 32 && uses_one_time_prekey(pre_key_id, pre_key_public@)
            && pre_key_public@.len() != 32 ==> r == Err::<AliceHandshake, X3dhError>(
            X3dhError::InvalidOneTimePrekeyLength(pre_key_public@.len() as usize),
        ),
        signed_pre_key_public@.len() == 32 && (uses_one_time_prekey(pre_key_id, pre_key_public@)
            ==> pre_key_public@.len() == 32) ==> r is Ok,
        r matches Ok(h) ==> exists|e: Seq<u8>|
            #![trigger spec_x25519_public(e)]
            e.len() == 32 && h.ephemeral_public@ == spec_x25519_public(e) && h.root_key@
                == alice_root_key(
                our_x25519_private@,
                e,
                signed_pre_key_public@,
                if uses_one_time_prekey(pre_key_id, pre_key_public@) {
                    Some(pre_key_public@)
                } else {
                    None
                },
            ),
{
    let e = random_bytes_32();
    let r = x3dh_alice(signed_pre_key_public, pre_key_id, pre_key_public, our_x25519_private, &e);
    proof {
        if r is Ok {
            assert(spec_x25519_public(e@) == spec_x25519_public(e@));
        }
    }
    r
}

/// Key agreement of the responder from a pre-key message.
///
/// When the sender's keys are the public keys of secrets `a_ik` and `a_ek`,
/// and this side uses its signed pre-key secret as its identity secret (as the
/// client does), the root key equals the one the sender computed with the
/// public keys of this side: both ends agree.
pub fn x3dh_bob(
    our_x25519_private: &[u8; 32],
    our_signed_prekey_private: &[u8; 32],
    our_one_time_prekey: Option<(u32, [u8; 32])>,
    their_identity_key: &[u8],
    their_ephemeral_key: &[u8],
) -> (r: Result<[u8; 32], X3dhError>)
    ensures
        their_identity_key@.len() != 32 ==> r == Err::<[u8; 32], X3dhError>(
            X3dhError::InvalidIdentityKeyLength(their_identity_key@.len() as usize),
        ),
        their_identity_key@.len() == 32 && their_ephemeral_key@.len() != 32 ==> r == Err::<
            [u8; 32],
            X3dhError,
        >(X3dhError::InvalidEphemeralKeyLength(their_ephemeral_key@.len() as usize)),
        their_identity_key@.len() == 32 && their_ephemeral_key@.len() == 32 ==> r is Ok,
        r matches Ok(k) ==> k@ == bob_root_key(
            our_x25519_private@,
            our_signed_prekey_private@,
            match our_one_time_prekey {
                Some(p) => Some(p.1@),
                None => None,
            },
            their_identity_key@,
            their_ephemeral_key@,
        ),
        r matches Ok(k) ==> forall|a_ik: Seq<u8>, a_ek: Seq<u8>|
            #![trigger spec_x25519_public(a_ik), spec_x25519_public(a_ek)]
            a_ik.len() == 32 && a_ek.len() == 32 && their_identity_key@ == spec_x25519_public(a_ik)
                && their_ephemeral_key@ == spec_x25519_public(a_ek) && our_x25519_private@
                == our_signed_prekey_private@ ==> k@ == alice_root_key(
                a_ik,
                a_ek,
                spec_x25519_public(our_signed_prekey_private@),
                match our_one_time_prekey {
                    Some(p) => Some(spec_x25519_public(p.1@)),
                    None => None,
                },
            ),
{
    if their_identity_key.len() != 32 {
        return Err(X3dhError::InvalidIdentityKeyLength(their_identity_key.len()));
    }
    if their_ephemeral_key.len() != 32 {
        return Err(X3dhError::InvalidEphemeralKeyLength(their_ephemeral_key.len()));
    }
    let their_identity = to_array32(their_identity_key);
    let their_ephemeral = to_array32(their_ephemeral_key);
    let dh1 = x25519_shared(our_signed_prekey_private, &their_identity);
    let dh2 = x25519_shared(our_x25519_private, &their_ephemeral);
    let dh3 = x25519_shared(our_signed_prekey_private, &their_ephemeral);
    let mut input = label_bytes();
    extend_bytes(&mut input, &dh1);
    extend_bytes(&mut input, &dh2);
    extend_bytes(&mut input, &dh3);
    let ghost mut dh4_spec: Option<Seq<u8>> = None;
    match our_one_time_prekey {
        Some((_, opk_secret)) => {
            let dh4 = x25519_shared(&opk_secret, &their_ephemeral);
            extend_bytes(&mut input, &dh4);
            proof {
                dh4_spec = Some(dh4@);
            }
        },
        None => {},
    }
    let ghost opk_secret_spec = match our_one_time_prekey {
        Some(p) => Some(p.1@),
        None => None,
    };
    assert(input@ =~= x3dh_label() + bob_ikm(
        our_x25519_private@,
        our_signed_prekey_private@,
        opk_secret_spec,
        their_identity_key@,
        their_ephemeral_key@,
    ));
    let root = sha256(input.as_slice());
    proof {
        assert forall|a_ik: Seq<u8>, a_ek: Seq<u8>|
            #![trigger spec_x25519_public(a_ik), spec_x25519_public(a_ek)]
            a_ik.len() == 32 && a_ek.len() == 32 && their_identity_key@ == spec_x25519_public(a_ik)
                && their_ephemeral_key@ == spec_x25519_public(a_ek) && our_x25519_private@
                == our_signed_prekey_private@ implies root@ == alice_root_key(
            a_ik,
            a_ek,
            spec_x25519_public(our_signed_prekey_private@),
            match our_one_time_prekey {
                Some(p) => Some(spec_x25519_public(p.1@)),
                None => None,
            },
        ) by {
            let spk_pub = spec_x25519_public(our_signed_prekey_private@);
            assert(dh1@ == spec_x25519_shared(a_ik, spk_pub));
            assert(dh2@ == spec_x25519_shared(a_ek, spec_x25519_public(our_x25519_private@)));
            assert(dh3@ == spec_x25519_shared(a_ek, spk_pub));
            let opk_pub = match our_one_time_prekey {
                Some(p) => Some(spec_x25519_public(p.1@)),
                None => None,
            };
            assert(bob_ikm(
                our_x25519_private@,
                our_signed_prekey_private@,
                opk_secret_spec,
                their_identity_key@,
                their_ephemeral_key@,
            ) =~= alice_ikm(a_ik, a_ek, spk_pub, opk_pub));
        }
    }
    Ok(root)
}

/// The initiator's ephemeral public key, as sent in a pre-key message (hex).
pub fn ephemeral_public_hex(h: &AliceHandshake) -> (r: String)
    ensures
        r@ == hex_spec(h.ephemeral_public@),
{
    hex_encode(&h.ephemeral_public)
}

/// The root keys as X3DH defines them in this client. The initiator hashes
/// `"ZenthX3DH" || DH(IK_A, SPK_B) || DH(EK_A, SPK_B) || DH(EK_A, SPK_B)`,
/// followed by `DH(EK_A, OPK_B)` when a one-time pre-key is used: the fourth
/// exchange is made with the ephemeral secret. The responder hashes
/// `DH(SPK_B, IK_A) || DH(IK_B, EK_A) || DH(SPK_B, EK_A)`, followed by
/// `DH(OPK_B, EK_A)`: its one-time pre-key meets the sender's ephemeral key.
pub proof fn lemma_x3dh_root_key_definition(
    identity_secret: Seq<u8>,
    ephemeral_secret: Seq<u8>,
    signed_prekey_public: Seq<u8>,
    one_time_public: Seq<u8>,
    bob_identity_secret: Seq<u8>,
    bob_signed_prekey_secret: Seq<u8>,
    bob_one_time_secret: Seq<u8>,
    their_identity: Seq<u8>,
    their_ephemeral: Seq<u8>,
)
    ensures
        alice_root_key(identity_secret, ephemeral_secret, signed_prekey_public, Some(one_time_public))
            == spec_sha256(
            seq![0x5au8, 0x65, 0x6e, 0x74, 0x68, 0x58, 0x33, 0x44, 0x48] + spec_x25519_shared(
                identity_secret,
                signed_prekey_public,
            ) + spec_x25519_shared(ephemeral_secret, signed_prekey_public) + spec_x25519_shared(
                ephemeral_secret,
                signed_prekey_public,
            ) + spec_x25519_shared(ephemeral_secret, one_time_public),
        ),
        alice_root_key(identity_secret, ephemeral_secret, signed_prekey_public, None) == spec_sha256(
            seq![0x5au8, 0x65, 0x6e, 0x74, 0x68, 0x58, 0x33, 0x44, 0x48] + spec_x25519_shared(
                identity_secret,
                signed_prekey_public,
            ) + spec_x25519_shared(ephemeral_secret, signed_prekey_public) + spec_x25519_shared(
                ephemeral_secret,
                signed_prekey_public,
            ),
        ),
        bob_root_key(
            bob_identity_secret,
            bob_signed_prekey_secret,
            Some(bob_one_time_secret),
            their_identity,
            their_ephemeral,
        ) == spec_sha256(
            seq![0x5au8, 0x65, 0x6e, 0x74, 0x68, 0x58, 0x33, 0x44, 0x48] + spec_x25519_shared(
                bob_signed_prekey_secret,
                their_identity,
            ) + spec_x25519_shared(bob_identity_secret, their_ephemeral) + spec_x25519_shared(
                bob_signed_prekey_secret,
                their_ephemeral,
            ) + spec_x25519_shared(bob_one_time_secret, their_ephemeral),
        ),
        bob_root_key(bob_identity_secret, bob_signed_prekey_secret, None, their_identity, their_ephemeral)
            == spec_sha256(
            seq![0x5au8, 0x65, 0x6e, 0x74, 0x68, 0x58, 0x33, 0x44, 0x48] + spec_x25519_shared(
                bob_signed_prekey_secret,
                their_identity,
            ) + spec_x25519_shared(bob_identity_secret, their_ephemeral) + spec_x25519_shared(
                bob_signed_prekey_secret,
                their_ephemeral,
            ),
        ),
{
    let label = seq![0x5au8, 0x65, 0x6e, 0x74, 0x68, 0x58, 0x33, 0x44, 0x48];
    assert(x3dh_label() =~= label);
    let a1 = spec_x25519_shared(identity_secret, signed_prekey_public);
    let a2 = spec_x25519_shared(ephemeral_secret, signed_prekey_public);
    let a4 = spec_x25519_shared(ephemeral_secret, one_time_public);
    assert(x3dh_label() + alice_ikm(identity_secret, ephemeral_secret, signed_prekey_public, Some(one_time_public))
        =~= label + a1 + a2 + a2 + a4);
    assert(x3dh_label() + alice_ikm(identity_secret, ephemeral_secret, signed_prekey_public, None)
        =~= label + a1 + a2 + a2);
    let b1 = spec_x25519_shared(bob_signed_prekey_secret, their_identity);
    let b2 = spec_x25519_shared(bob_identity_secret, their_ephemeral);
    let b3 = spec_x25519_shared(bob_signed_prekey_secret, their_ephemeral);
    let b4 = spec_x25519_shared(bob_one_time_secret, their_ephemeral);
    assert(x3dh_label() + bob_ikm(
        bob_identity_secret,
        bob_signed_prekey_secret,
        Some(bob_one_time_secret),
        their_identity,
        their_ephemeral,
    ) =~= label + b1 + b2 + b3 + b4);
    assert(x3dh_label() + bob_ikm(
        bob_identity_secret,
        bob_signed_prekey_secret,
        None,
        their_identity,
        their_ephemeral,
    ) =~= label + b1 + b2 + b3);
}

} // verus!
