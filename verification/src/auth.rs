//! The signed-proof authorization validator.
//!
//! Every mutating action is gated by a proof: a manager's Ed25519
//! signature over the action's canonical digest, carried together with a
//! client-chosen single-use token and an expiration.  Validation checks,
//! in order: expiration, token freshness, signer authority, and the
//! signature itself.
//!
//! Token-burn policy (an explicit choice): the token is consumed as soon
//! as validation reaches the signature check — a failing signature still
//! burns it — while an expired, replayed or unauthorized proof leaves
//! the state untouched.  Top-level actions remain transactional: they
//! persist nothing, the burn included, unless the whole action succeeds.

use vstd::prelude::*;

use crate::error::ContractError;
use crate::state::{
    manager_key_active, spec_expired, token_used, BlockInfo, ContractState, Expiration, StateV,
};

verus! {

/// Whether the 64-byte signature verifies over the message under the
/// 32-byte public key; a function of the three byte strings alone.
pub uninterp spec fn ed25519_valid(message: Seq<u8>, signature: Seq<u8>, pub_key: Seq<u8>) -> bool;

/// Relies on ed25519_zebra::VerificationKey::verify: Ed25519 signature
/// verification, a pure function of message, signature and key bytes.
/// A malformed key or signature verifies nothing.
#[verifier::external_body]
fn ed25519_verify(message: &Vec<u8>, signature: &Vec<u8>, pub_key: &Vec<u8>) -> (r: bool)
    ensures
        r == ed25519_valid(message@, signature@, pub_key@),
{
    let Ok(vk) = ed25519_zebra::VerificationKey::try_from(pub_key.as_slice()) else {
        return false;
    };
    let Ok(sig) = ed25519_zebra::Signature::try_from(signature.as_slice()) else {
        return false;
    };
    vk.verify(&sig, message.as_slice()).is_ok()
}

/// The validator's verdict, checks in order: expiration, token
/// freshness, signer authority, signature.
pub open spec fn spec_auth_result(
    s: StateV,
    block: BlockInfo,
    token: Seq<char>,
    message: Seq<u8>,
    pub_key: Seq<u8>,
    exp: Expiration,
    signature: Seq<u8>,
) -> Result<(), ContractError> {
    if spec_expired(exp, block) {
        Err(ContractError::ProofExpired)
    } else if token_used(s.used_tokens, token) {
        Err(ContractError::TokenAlreadyUsed)
    } else if !manager_key_active(s.managers, pub_key) {
        Err(ContractError::InvalidSigner)
    } else if !ed25519_valid(message, signature, pub_key) {
        Err(ContractError::InvalidMessageHash)
    } else {
        Ok(())
    }
}

/// The state after validation: the token is burned exactly when the
/// signature check was reached, whatever that check's outcome.
pub open spec fn spec_auth_state(
    s: StateV,
    block: BlockInfo,
    token: Seq<char>,
    pub_key: Seq<u8>,
    exp: Expiration,
) -> StateV {
    if !spec_expired(exp, block) && !token_used(s.used_tokens, token) && manager_key_active(
        s.managers,
        pub_key,
    ) {
        StateV { used_tokens: s.used_tokens.push(token), ..s }
    } else {
        s
    }
}

/// The validator's checks alone, with no side effect on the state.
pub fn auth_check(
    state: &ContractState,
    block: &BlockInfo,
    token: &String,
    message: &Vec<u8>,
    pub_key: &Vec<u8>,
    time_to_expire: Expiration,
    signature: &Vec<u8>,
) -> (r: Result<(), ContractError>)
    ensures
        r == spec_auth_result(
            state@,
            *block,
            token@,
            message@,
            pub_key@,
            time_to_expire,
            signature@,
        ),
{
    if time_to_expire.is_expired(block) {
        return Err(ContractError::ProofExpired);
    }
    if crate::state::token_is_used(&state.used_tokens, token) {
        return Err(ContractError::TokenAlreadyUsed);
    }
    if !crate::state::manager_key_is_active(&state.managers, pub_key) {
        return Err(ContractError::InvalidSigner);
    }
    if !ed25519_verify(message, signature, pub_key) {
        return Err(ContractError::InvalidMessageHash);
    }
    Ok(())
}

/// Validates a proof and burns its token once the signature check is
/// reached, whatever that check's outcome.
pub fn auth_validations(
    state: &mut ContractState,
    block: &BlockInfo,
    token: &String,
    message: &Vec<u8>,
    pub_key: &Vec<u8>,
    time_to_expire: Expiration,
    signature: &Vec<u8>,
) -> (r: Result<(), ContractError>)
    ensures
        r == spec_auth_result(
            old(state)@,
            *block,
            token@,
            message@,
            pub_key@,
            time_to_expire,
            signature@,
        ),
        final(state)@ == spec_auth_state(old(state)@, *block, token@, pub_key@, time_to_expire),
{
    if time_to_expire.is_expired(block) {
        return Err(ContractError::ProofExpired);
    }
    if crate::state::token_is_used(&state.used_tokens, token) {
        return Err(ContractError::TokenAlreadyUsed);
    }
    if !crate::state::manager_key_is_active(&state.managers, pub_key) {
        return Err(ContractError::InvalidSigner);
    }
    let valid = ed25519_verify(message, signature, pub_key);
    state.used_tokens.push(token.clone());
    proof {
        assert(state@.used_tokens =~= old(state)@.used_tokens.push(token@));
        assert(state@ == spec_auth_state(
            old(state)@,
            *block,
            token@,
            pub_key@,
            time_to_expire,
        ));
    }
    if !valid {
        return Err(ContractError::InvalidMessageHash);
    }
    Ok(())
}

/// Law: a consumed token can never authorize a second action.  Whatever
/// digest is being signed — so whatever the action kind — and whatever
/// key and signature are claimed, a fresh (unexpired) proof that reuses
/// the token is rejected with TokenAlreadyUsed and the state is left
/// untouched.
pub proof fn lemma_token_replay_rejected(
    s: StateV,
    block: BlockInfo,
    token: Seq<char>,
    message: Seq<u8>,
    pub_key: Seq<u8>,
    exp: Expiration,
    signature: Seq<u8>,
)
    requires
        token_used(s.used_tokens, token),
        !spec_expired(exp, block),
    ensures
        spec_auth_result(s, block, token, message, pub_key, exp, signature) == Err::<(), _>(
            ContractError::TokenAlreadyUsed,
        ),
        spec_auth_state(s, block, token, pub_key, exp) == s,
{
}

/// Law: an elapsed proof fails before any signature work.  The verdict
/// is ProofExpired, the token is not burned, and neither verdict nor
/// post-state depends on the claimed key or signature.
pub proof fn lemma_expired_rejected_first(
    s: StateV,
    block: BlockInfo,
    token: Seq<char>,
    message: Seq<u8>,
    exp: Expiration,
    pub_key1: Seq<u8>,
    signature1: Seq<u8>,
    pub_key2: Seq<u8>,
    signature2: Seq<u8>,
)
    requires
        spec_expired(exp, block),
    ensures
        spec_auth_result(s, block, token, message, pub_key1, exp, signature1) == Err::<(), _>(
            ContractError::ProofExpired,
        ),
        spec_auth_state(s, block, token, pub_key1, exp) == s,
        spec_auth_result(s, block, token, message, pub_key1, exp, signature1) == spec_auth_result(
            s,
            block,
            token,
            message,
            pub_key2,
            exp,
            signature2,
        ),
{
}

} // verus!
