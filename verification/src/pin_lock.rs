//! Conversations locked behind a PIN: the hash that is stored, which locked
//! conversations a PIN opens, and the answers to locking and unlocking.
use vstd::prelude::*;

use crate::crypto::{
    argon2_pin_hash, argon2_pin_verifies, random_bytes_16, spec_pin_hash, spec_pin_verifies,
    PinHashOutcome,
};
use crate::text::push_str;

verus! {

/// The text of a failed PIN hashing: `Hash error: ` and the hasher's text.
pub open spec fn pin_hash_error(m: Seq<char>) -> bool {
    exists|e: Seq<char>| m == "Hash error: "@ + e
}

/// Hashes a PIN with the given salt: the PHC string to store, which verifies
/// that PIN.
pub fn pin_hash_with_salt(pin: &str, salt: &[u8; 16]) -> (r: Result<String, String>)
    ensures
        r is Ok <==> vstd::utf8::encode_utf8(pin@).len() <= 0xffff_ffff,
        r matches Ok(h) ==> h@ == spec_pin_hash(vstd::utf8::encode_utf8(pin@), salt@)
            && spec_pin_verifies(vstd::utf8::encode_utf8(pin@), h@),
        r matches Err(m) ==> pin_hash_error(m@),
{
    match argon2_pin_hash(pin.as_bytes(), salt) {
        PinHashOutcome::Hashed(h) => Ok(h),
        PinHashOutcome::Failed(e) => {
            let mut m = String::new();
            push_str(&mut m, "Hash error: ");
            push_str(&mut m, e.as_str());
            assert(m@ == "Hash error: "@ + e@);
            Err(m)
        },
    }
}

/// Hashes a PIN with a fresh 16-byte salt from the operating system's
/// generator. Whatever the salt, a stored hash verifies the PIN it was made
/// from.
pub fn pin_hash(pin: &str) -> (r: Result<String, String>)
    ensures
        r is Ok <==> vstd::utf8::encode_utf8(pin@).len() <= 0xffff_ffff,
        r matches Ok(h) ==> spec_pin_verifies(vstd::utf8::encode_utf8(pin@), h@) && exists|
            salt: Seq<u8>,
        |
            #![trigger spec_pin_hash(vstd::utf8::encode_utf8(pin@), salt)]
            salt.len() == 16 && h@ == spec_pin_hash(vstd::utf8::encode_utf8(pin@), salt),
        r matches Err(m) ==> pin_hash_error(m@),
{
    let salt = random_bytes_16();
    pin_hash_with_salt(pin, &salt)
}

/// The message when no open conversation could be locked.
pub open spec fn lock_refused_message() -> Seq<char> {
    "Conversation introuvable ou déjà verrouillée"@
}

/// The answer to a lock, from the number of conversations it changed: none
/// means the conversation does not exist, is blocked or is already locked.
pub fn lock_result(updated: usize) -> (r: Result<(), String>)
    ensures
        r is Ok <==> updated > 0,
        r matches Err(m) ==> m@ == lock_refused_message(),
{
    if updated == 0 {
        Err("Conversation introuvable ou déjà verrouillée".to_owned())
    } else {
        Ok(())
    }
}

/// The ids of the locked conversations whose stored hash the PIN verifies,
/// in their order.
pub open spec fn pin_matches(locked: Seq<(i64, Seq<char>)>, pin: Seq<u8>) -> Seq<i64>
    decreases locked.len(),
{
    if locked.len() == 0 {
        Seq::empty()
    } else {
        let prev = pin_matches(locked.drop_last(), pin);
        if spec_pin_verifies(pin, locked.last().1) {
            prev.push(locked.last().0)
        } else {
            prev
        }
    }
}

/// The locked conversations as ids and hash texts.
pub open spec fn locked_views(v: Seq<(i64, String)>) -> Seq<(i64, Seq<char>)> {
    v.map_values(|e: (i64, String)| (e.0, e.1@))
}

/// The locked conversations that a PIN opens.
pub fn matching_locked_conversations(locked: &[(i64, String)], pin: &str) -> (r: Vec<i64>)
    ensures
        r@ == pin_matches(locked_views(locked@), vstd::utf8::encode_utf8(pin@)),
{
    let ghost l = locked_views(locked@);
    let ghost p = vstd::utf8::encode_utf8(pin@);
    let mut out: Vec<i64> = Vec::new();
    let mut i: usize = 0;
    while i < locked.len()
        invariant
            i <= locked@.len(),
            l == locked_views(locked@),
            p == vstd::utf8::encode_utf8(pin@),
            out@ == pin_matches(l.take(i as int), p),
        decreases locked.len() - i,
    {
        assert(l.take(i + 1).drop_last() =~= l.take(i as int));
        assert(l.take(i + 1).last() == (locked@[i as int].0, locked@[i as int].1@));
        if argon2_pin_verifies(pin.as_bytes(), locked[i].1.as_str()) {
            out.push(locked[i].0);
        }
        i = i + 1;
    }
    assert(l.take(locked@.len() as int) =~= l);
    out
}

/// A locked conversation is among those its PIN opens.
pub proof fn lemma_locked_conversation_found(locked: Seq<(i64, Seq<char>)>, pin: Seq<u8>, k: int)
    requires
        0 <= k < locked.len(),
        spec_pin_verifies(pin, locked[k].1),
    ensures
        pin_matches(locked, pin).contains(locked[k].0),
    decreases locked.len(),
{
    let prev = locked.drop_last();
    if k == locked.len() - 1 {
        assert(pin_matches(locked, pin).last() == locked[k].0);
    } else {
        assert(prev[k] == locked[k]);
        lemma_locked_conversation_found(prev, pin, k);
        let j = choose|j: int| 0 <= j < pin_matches(prev, pin).len() && pin_matches(prev, pin)[j]
            == locked[k].0;
        if spec_pin_verifies(pin, locked.last().1) {
            assert(pin_matches(locked, pin)[j] == locked[k].0);
        }
    }
}

/// The message for a conversation that has no lock.
pub open spec fn not_locked_message() -> Seq<char> {
    "Cette conversation n'est pas verrouillée"@
}

/// The message for a wrong PIN.
pub open spec fn wrong_pin_message() -> Seq<char> {
    "PIN incorrect"@
}

/// Whether a conversation may be unlocked: it must be locked, and the PIN
/// must verify its stored hash.
pub fn check_unlock(stored_hash: Option<String>, pin: &str) -> (r: Result<(), String>)
    ensures
        match stored_hash {
            None => r matches Err(m) && m@ == not_locked_message(),
            Some(h) => if spec_pin_verifies(vstd::utf8::encode_utf8(pin@), h@) {
                r is Ok
            } else {
                r matches Err(m) && m@ == wrong_pin_message()
            },
        },
{
    match stored_hash {
        None => Err("Cette conversation n'est pas verrouillée".to_owned()),
        Some(h) => {
            if argon2_pin_verifies(pin.as_bytes(), h.as_str()) {
                Ok(())
            } else {
                Err("PIN incorrect".to_owned())
            }
        },
    }
}

} // verus!
