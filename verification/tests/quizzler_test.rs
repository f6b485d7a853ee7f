use ed25519_zebra::{SigningKey, VerificationKey};
use quizzler::contract;
use quizzler::error::ContractError;
use quizzler::execute;
use quizzler::ibc::{PacketLifecycleStatus, TransferOutcome};
use quizzler::query;
use quizzler::state::{BlockInfo, Coin, ContractState, Expiration, Manager};

const MANAGER_ONE: &str = "agoric1elueec97as0uwavlxpmj75u5w7yq9dgphq47zx";
const MANAGER_TWO: &str = "agoric1rwwley550k9mmk6uq6mm6z4udrg8kyuyvfszjk";
const GAS_STATION: &str = "agoric1jc5sfu3pjvgdt0p85mm4s95nr6kpdduvjf824x";
const CREATOR: &str = "agoric1rwwley550k9mmk6uq6mm6z4udrg8kyuyvfszjk";

fn block() -> BlockInfo {
    BlockInfo { height: 12345, time: 1571797419 }
}

fn signing_key(seed: u8) -> SigningKey {
    SigningKey::from([seed; 32])
}

fn pub_key_bytes(sk: &SigningKey) -> Vec<u8> {
    let vk = VerificationKey::from(sk);
    let bytes: [u8; 32] = vk.into();
    bytes.to_vec()
}

fn sign_message(message: &[u8], sk: &SigningKey) -> Vec<u8> {
    sk.sign(message).to_bytes().to_vec()
}

fn setup() -> (ContractState, Vec<SigningKey>) {
    let keys = vec![signing_key(7), signing_key(11)];
    let managers = vec![
        Manager { addr: MANAGER_ONE.to_string(), pub_key: pub_key_bytes(&keys[0]) },
        Manager { addr: MANAGER_TWO.to_string(), pub_key: pub_key_bytes(&keys[1]) },
    ];
    let state = execute::instantiate(
        &"owner".to_string(),
        &managers,
        &GAS_STATION.to_string(),
        &"uosmo".to_string(),
        &"agoric".to_string(),
        &"channel-0".to_string(),
    )
    .unwrap();
    (state, keys)
}

struct SurveyMock {
    survey_creator: String,
    participants_limit: u32,
    reward_per_user: u128,
    survey_hash: Vec<u8>,
    amount_to_gas_station: u128,
}

fn dummy_survey() -> SurveyMock {
    SurveyMock {
        survey_creator: CREATOR.to_string(),
        participants_limit: 100,
        reward_per_user: 10u128,
        survey_hash: b"dummy_hash".to_vec(),
        amount_to_gas_station: 100u128,
    }
}

#[allow(clippy::too_many_arguments)]
fn do_create(
    state: &mut ContractState,
    sk: &SigningKey,
    survey_id: &str,
    token: &str,
    expiration: Expiration,
    attached: u128,
    survey: &SurveyMock,
) -> Result<quizzler::state::BankTransfer, ContractError> {
    let proof = query::create_survey_proof(
        &token.to_string(),
        expiration,
        &survey.survey_creator,
        &survey_id.to_string(),
        survey.participants_limit,
        survey.reward_per_user,
        &survey.survey_hash,
        &"uosmo".to_string(),
        survey.amount_to_gas_station,
    );
    let signature = sign_message(&proof, sk);
    execute::create_survey(
        state,
        &block(),
        &vec![Coin { denom: "uosmo".to_string(), amount: attached }],
        &signature,
        &token.to_string(),
        expiration,
        &survey.survey_creator,
        &survey_id.to_string(),
        survey.participants_limit,
        survey.reward_per_user,
        &survey.survey_hash,
        survey.amount_to_gas_station,
        &pub_key_bytes(sk),
    )
}

#[test]
fn test_create_survey() {
    let (mut state, keys) = setup();
    let survey_id = "survey1".to_string();
    let survey_data = dummy_survey();
    let token = "token1";
    let expiration = Expiration::AtHeight(20000);

    let msg = do_create(&mut state, &keys[0], &survey_id, token, expiration, 1100, &survey_data)
        .unwrap();

    // The escrow stays with the contract; the side-payment goes out.
    assert_eq!(msg.to_address, GAS_STATION.to_string());
    assert_eq!(msg.amount, 100u128);
    assert_eq!(msg.denom, "uosmo".to_string());
    assert_eq!(query::get_survey_amount_to_fund(&state, &survey_id).unwrap(), 1000u128);

    let survey_response = query::get_survey(&state, &survey_id).unwrap();
    assert_eq!(survey_response.survey_creator, survey_data.survey_creator);
    assert_eq!(survey_response.participants_limit, survey_data.participants_limit);
    assert_eq!(survey_response.reward_per_user, survey_data.reward_per_user);
    assert_eq!(survey_response.survey_hash, survey_data.survey_hash);
    assert_eq!(survey_response.is_cancelled, false);
    assert_eq!(survey_response.participants_rewarded, 0);
}

#[test]
fn test_cancel_survey() {
    let (mut state, keys) = setup();
    let survey_id = "survey_to_cancel".to_string();
    let survey_data = dummy_survey();
    let token = "token_cancel";
    let expiration = Expiration::AtHeight(20000);

    do_create(&mut state, &keys[0], &survey_id, token, expiration, 1100, &survey_data).unwrap();
    assert_eq!(query::get_survey_amount_to_fund(&state, &survey_id).unwrap(), 1000u128);

    let cancel_token = "token_cancel_survey".to_string();
    let cancel_proof = query::cancel_survey_proof(&cancel_token, expiration, &survey_id);
    let cancel_signature = sign_message(&cancel_proof, &keys[0]);

    let refund = execute::cancel_survey(
        &mut state,
        &block(),
        1000,
        &cancel_signature,
        &cancel_token,
        expiration,
        &survey_id,
        &pub_key_bytes(&keys[0]),
    )
    .unwrap();

    let survey_response = query::get_survey(&state, &survey_id).unwrap();
    assert_eq!(survey_response.is_cancelled, true);

    // The creator is refunded the unspent rewards in full.
    let expected_refund = survey_data.participants_limit as u128 * survey_data.reward_per_user;
    assert_eq!(refund.amount, expected_refund);
    assert_eq!(refund.to_address, survey_data.survey_creator);
}

#[test]
fn test_pay_rewards() {
    let (mut state, keys) = setup();
    let survey_id = "test_survey".to_string();
    let create_token = "create_token";
    let reward_token = "reward_token".to_string();
    let participant = MANAGER_ONE.to_string();
    let expiration = Expiration::AtHeight(20000);
    let survey_data = dummy_survey();

    do_create(&mut state, &keys[0], &survey_id, create_token, expiration, 1100, &survey_data)
        .unwrap();
    assert_eq!(query::get_survey_amount_to_fund(&state, &survey_id).unwrap(), 1000u128);

    let pay_proof = query::pay_rewards_proof(
        &reward_token,
        expiration,
        vec![survey_id.clone()],
        vec![participant.clone()],
    );
    let pay_signature = sign_message(&pay_proof, &keys[0]);

    let transfers = execute::pay_rewards(
        &mut state,
        &block(),
        &pay_signature,
        &reward_token,
        expiration,
        &vec![survey_id.clone()],
        &vec![participant.clone()],
        &pub_key_bytes(&keys[0]),
    )
    .unwrap();

    // One reward transfer of the per-user amount goes to the participant.
    assert_eq!(transfers.len(), 1);
    assert_eq!(transfers[0].to_address, participant);
    assert_eq!(transfers[0].amount, survey_data.reward_per_user);
    assert_eq!(
        query::get_survey_rewards_amount_paid(&state, &survey_id).unwrap(),
        survey_data.reward_per_user
    );
    assert_eq!(query::get_survey(&state, &survey_id).unwrap().participants_rewarded, 1);
    assert_eq!(query::get_has_claimed_reward(&state, &survey_id, &participant).unwrap(), true);
}

#[test]
fn test_authentication_fails_with_wrong_signature() {
    let (mut state, keys) = setup();
    let survey_id = "survey_wrong_signature".to_string();
    let survey_data = dummy_survey();
    let token = "token_wrong_signature".to_string();
    let expiration = Expiration::AtHeight(20000);

    let proof = query::create_survey_proof(
        &token,
        expiration,
        &survey_data.survey_creator,
        &survey_id,
        survey_data.participants_limit,
        survey_data.reward_per_user,
        &survey_data.survey_hash,
        &"uosmo".to_string(),
        survey_data.amount_to_gas_station,
    );

    // Tamper with the proof to create a wrong signature.
    let mut tampered_proof = proof.clone();
    tampered_proof[0] ^= 0xFF;
    let wrong_signature = sign_message(&tampered_proof, &keys[0]);

    let result = execute::create_survey(
        &mut state,
        &block(),
        &vec![Coin { denom: "uosmo".to_string(), amount: 1100 }],
        &wrong_signature,
        &token,
        expiration,
        &survey_data.survey_creator,
        &survey_id,
        survey_data.participants_limit,
        survey_data.reward_per_user,
        &survey_data.survey_hash,
        survey_data.amount_to_gas_station,
        &pub_key_bytes(&keys[0]),
    );

    assert!(result.is_err());
    assert!(matches!(result, Err(ContractError::InvalidMessageHash)));
}

#[test]
fn test_authentication_fails_with_invalid_signer() {
    let (mut state, _keys) = setup();
    let survey_id = "survey_invalid_signer".to_string();
    let survey_data = dummy_survey();
    let invalid_manager = signing_key(32);
    let token = "token_invalid_signer";
    let expiration = Expiration::AtHeight(20000);

    let result =
        do_create(&mut state, &invalid_manager, &survey_id, token, expiration, 1100, &survey_data);

    assert!(result.is_err());
    assert!(matches!(result, Err(ContractError::InvalidSigner)));
}

#[test]
fn test_authentication_fails_with_expired_expiration() {
    let (mut state, keys) = setup();
    let survey_id = "survey_expired".to_string();
    let survey_data = dummy_survey();
    let token = "token_expired";
    let expiration = Expiration::AtHeight(1);

    let result = do_create(&mut state, &keys[0], &survey_id, token, expiration, 1100, &survey_data);

    assert!(result.is_err());
    assert!(matches!(result, Err(ContractError::ProofExpired)));
}

#[test]
fn exact_funding_succeeds_and_short_funding_fails() {
    let (mut state, keys) = setup();
    let expiration = Expiration::AtHeight(20000);
    let mut survey_data = dummy_survey();
    survey_data.amount_to_gas_station = 0;

    // cap 100 at 10 per user funds with exactly 1000 attached units.
    do_create(&mut state, &keys[0], "exact", "tok_exact", expiration, 1000, &survey_data).unwrap();
    assert_eq!(query::get_survey_amount_to_fund(&state, &"exact".to_string()).unwrap(), 1000u128);
    assert_eq!(
        query::get_survey_rewards_amount_paid(&state, &"exact".to_string()).unwrap(),
        0u128
    );

    // 999 attached units are not enough, and no record is created.
    let result =
        do_create(&mut state, &keys[0], "short", "tok_short", expiration, 999, &survey_data);
    assert!(matches!(result, Err(ContractError::InvalidTransactionValue)));
    assert!(matches!(
        query::get_survey(&state, &"short".to_string()),
        Err(ContractError::SurveyNotFound)
    ));
}

#[test]
fn second_create_with_same_id_fails() {
    let (mut state, keys) = setup();
    let expiration = Expiration::AtHeight(20000);
    let survey_data = dummy_survey();
    do_create(&mut state, &keys[0], "dup", "tok_dup_one", expiration, 1100, &survey_data).unwrap();
    let result = do_create(&mut state, &keys[0], "dup", "tok_dup_two", expiration, 1100, &survey_data);
    assert!(matches!(result, Err(ContractError::SurveyAlreadyExists)));
}

#[test]
fn cancel_twice_fails_with_nothing_to_refund() {
    let (mut state, keys) = setup();
    let expiration = Expiration::AtHeight(20000);
    let survey_data = dummy_survey();
    let survey_id = "cancel_twice".to_string();
    do_create(&mut state, &keys[0], &survey_id, "tok_ct_create", expiration, 1100, &survey_data)
        .unwrap();

    let first_token = "tok_ct_first".to_string();
    let proof = query::cancel_survey_proof(&first_token, expiration, &survey_id);
    let signature = sign_message(&proof, &keys[0]);
    let refund = execute::cancel_survey(
        &mut state,
        &block(),
        1000,
        &signature,
        &first_token,
        expiration,
        &survey_id,
        &pub_key_bytes(&keys[0]),
    )
    .unwrap();
    assert_eq!(refund.amount, 1000u128);

    let second_token = "tok_ct_second".to_string();
    let proof2 = query::cancel_survey_proof(&second_token, expiration, &survey_id);
    let signature2 = sign_message(&proof2, &keys[0]);
    let result = execute::cancel_survey(
        &mut state,
        &block(),
        1000,
        &signature2,
        &second_token,
        expiration,
        &survey_id,
        &pub_key_bytes(&keys[0]),
    );
    assert!(matches!(result, Err(ContractError::NothingToRefund)));
}

#[test]
fn cancel_fails_when_balance_cannot_cover_refund() {
    let (mut state, keys) = setup();
    let expiration = Expiration::AtHeight(20000);
    let survey_data = dummy_survey();
    let survey_id = "cancel_poor".to_string();
    do_create(&mut state, &keys[0], &survey_id, "tok_poor_create", expiration, 1100, &survey_data)
        .unwrap();

    let token = "tok_poor_cancel".to_string();
    let proof = query::cancel_survey_proof(&token, expiration, &survey_id);
    let signature = sign_message(&proof, &keys[0]);
    let result = execute::cancel_survey(
        &mut state,
        &block(),
        999,
        &signature,
        &token,
        expiration,
        &survey_id,
        &pub_key_bytes(&keys[0]),
    );
    assert!(matches!(result, Err(ContractError::InsufficientContractBalance)));
}

#[test]
fn token_replay_fails_across_action_kinds() {
    let (mut state, keys) = setup();
    let expiration = Expiration::AtHeight(20000);
    let survey_data = dummy_survey();
    let survey_id = "replay_survey".to_string();
    let token = "shared_token".to_string();
    do_create(&mut state, &keys[0], &survey_id, &token, expiration, 1100, &survey_data).unwrap();

    // Reusing the consumed token for a different action kind fails too.
    let proof = query::cancel_survey_proof(&token, expiration, &survey_id);
    let signature = sign_message(&proof, &keys[0]);
    let result = execute::cancel_survey(
        &mut state,
        &block(),
        1000,
        &signature,
        &token,
        expiration,
        &survey_id,
        &pub_key_bytes(&keys[0]),
    );
    assert!(matches!(result, Err(ContractError::TokenAlreadyUsed)));
}

#[test]
fn paying_the_same_participant_twice_fails_atomically() {
    let (mut state, keys) = setup();
    let expiration = Expiration::AtHeight(20000);
    let survey_data = dummy_survey();
    let survey_id = "double_pay".to_string();
    let participant = MANAGER_ONE.to_string();
    do_create(&mut state, &keys[0], &survey_id, "tok_dp_create", expiration, 1100, &survey_data)
        .unwrap();

    let t1 = "tok_dp_first".to_string();
    let proof1 = query::pay_rewards_proof(
        &t1,
        expiration,
        vec![survey_id.clone()],
        vec![participant.clone()],
    );
    let sig1 = sign_message(&proof1, &keys[0]);
    execute::pay_rewards(
        &mut state,
        &block(),
        &sig1,
        &t1,
        expiration,
        &vec![survey_id.clone()],
        &vec![participant.clone()],
        &pub_key_bytes(&keys[0]),
    )
    .unwrap();
    assert_eq!(query::get_survey(&state, &survey_id).unwrap().participants_rewarded, 1);

    // The identical pair in a later batch fails and changes nothing: the
    // counter before the failed batch equals the counter after, and the
    // innocent first pair of the batch is rolled back with it.
    let other = MANAGER_TWO.to_string();
    let t2 = "tok_dp_second".to_string();
    let proof2 = query::pay_rewards_proof(
        &t2,
        expiration,
        vec![survey_id.clone(), survey_id.clone()],
        vec![other.clone(), participant.clone()],
    );
    let sig2 = sign_message(&proof2, &keys[0]);
    let result = execute::pay_rewards(
        &mut state,
        &block(),
        &sig2,
        &t2,
        expiration,
        &vec![survey_id.clone(), survey_id.clone()],
        &vec![other.clone(), participant.clone()],
        &pub_key_bytes(&keys[0]),
    );
    assert!(matches!(result, Err(ContractError::UserAlreadyRewarded)));
    assert_eq!(query::get_survey(&state, &survey_id).unwrap().participants_rewarded, 1);
    assert_eq!(query::get_has_claimed_reward(&state, &survey_id, &other).unwrap(), false);
}

#[test]
fn duplicate_pair_within_one_batch_fails() {
    let (mut state, keys) = setup();
    let expiration = Expiration::AtHeight(20000);
    let survey_data = dummy_survey();
    let survey_id = "batch_dup".to_string();
    let participant = MANAGER_ONE.to_string();
    do_create(&mut state, &keys[0], &survey_id, "tok_bd_create", expiration, 1100, &survey_data)
        .unwrap();

    let token = "tok_bd_pay".to_string();
    let ids = vec![survey_id.clone(), survey_id.clone()];
    let parts = vec![participant.clone(), participant.clone()];
    let proof = query::pay_rewards_proof(&token, expiration, ids.clone(), parts.clone());
    let signature = sign_message(&proof, &keys[0]);
    let result = execute::pay_rewards(
        &mut state,
        &block(),
        &signature,
        &token,
        expiration,
        &ids,
        &parts,
        &pub_key_bytes(&keys[0]),
    );
    assert!(matches!(result, Err(ContractError::UserAlreadyRewarded)));
    assert_eq!(query::get_survey(&state, &survey_id).unwrap().participants_rewarded, 0);
}

#[test]
fn cap_reached_fails_with_all_participants_rewarded() {
    let (mut state, keys) = setup();
    let expiration = Expiration::AtHeight(20000);
    let mut survey_data = dummy_survey();
    survey_data.participants_limit = 1;
    let survey_id = "tiny_cap".to_string();
    do_create(&mut state, &keys[0], &survey_id, "tok_cap_create", expiration, 110, &survey_data)
        .unwrap();

    let t1 = "tok_cap_one".to_string();
    let proof1 = query::pay_rewards_proof(
        &t1,
        expiration,
        vec![survey_id.clone()],
        vec![MANAGER_ONE.to_string()],
    );
    let sig1 = sign_message(&proof1, &keys[0]);
    execute::pay_rewards(
        &mut state,
        &block(),
        &sig1,
        &t1,
        expiration,
        &vec![survey_id.clone()],
        &vec![MANAGER_ONE.to_string()],
        &pub_key_bytes(&keys[0]),
    )
    .unwrap();

    let t2 = "tok_cap_two".to_string();
    let proof2 = query::pay_rewards_proof(
        &t2,
        expiration,
        vec![survey_id.clone()],
        vec![MANAGER_TWO.to_string()],
    );
    let sig2 = sign_message(&proof2, &keys[0]);
    let result = execute::pay_rewards(
        &mut state,
        &block(),
        &sig2,
        &t2,
        expiration,
        &vec![survey_id.clone()],
        &vec![MANAGER_TWO.to_string()],
        &pub_key_bytes(&keys[0]),
    );
    assert!(matches!(result, Err(ContractError::AllParticipantsRewarded)));
}

#[test]
fn paying_a_cancelled_survey_fails() {
    let (mut state, keys) = setup();
    let expiration = Expiration::AtHeight(20000);
    let survey_data = dummy_survey();
    let survey_id = "cancelled_pay".to_string();
    do_create(&mut state, &keys[0], &survey_id, "tok_cp_create", expiration, 1100, &survey_data)
        .unwrap();

    let cancel_token = "tok_cp_cancel".to_string();
    let proof = query::cancel_survey_proof(&cancel_token, expiration, &survey_id);
    let signature = sign_message(&proof, &keys[0]);
    execute::cancel_survey(
        &mut state,
        &block(),
        1000,
        &signature,
        &cancel_token,
        expiration,
        &survey_id,
        &pub_key_bytes(&keys[0]),
    )
    .unwrap();

    let pay_token = "tok_cp_pay".to_string();
    let proof = query::pay_rewards_proof(
        &pay_token,
        expiration,
        vec![survey_id.clone()],
        vec![MANAGER_ONE.to_string()],
    );
    let signature = sign_message(&proof, &keys[0]);
    let result = execute::pay_rewards(
        &mut state,
        &block(),
        &signature,
        &pay_token,
        expiration,
        &vec![survey_id.clone()],
        &vec![MANAGER_ONE.to_string()],
        &pub_key_bytes(&keys[0]),
    );
    assert!(matches!(result, Err(ContractError::SurveyAlreadyCancelled)));
}

#[test]
fn a_freshly_registered_manager_can_authorize() {
    let (mut state, keys) = setup();
    let expiration = Expiration::AtHeight(20000);
    let survey_data = dummy_survey();
    let new_key = signing_key(42);
    // Before registration the new key cannot authorize anything.
    let result =
        do_create(&mut state, &new_key, "fresh_mgr", "tok_fresh_a", expiration, 1100, &survey_data);
    assert!(matches!(result, Err(ContractError::InvalidSigner)));

    execute::set_manager(
        &mut state,
        &"owner".to_string(),
        &GAS_STATION.to_string(),
        &pub_key_bytes(&new_key),
        true,
    )
    .unwrap();
    do_create(&mut state, &new_key, "fresh_mgr", "tok_fresh_b", expiration, 1100, &survey_data)
        .unwrap();
}

#[test]
fn sudo_routes_lifecycle_callbacks() {
    let (mut state, keys) = setup();
    let expiration = Expiration::AtHeight(20000);
    let survey_data = dummy_survey();
    do_create(&mut state, &keys[0], "sudo_s", "tok_sudo_create", expiration, 1100, &survey_data)
        .unwrap();
    let cancel_token = "tok_sudo_cancel".to_string();
    let proof = query::cancel_survey_proof(&cancel_token, expiration, &"sudo_s".to_string());
    let signature = sign_message(&proof, &keys[0]);
    let instr = execute::cancel_survey(
        &mut state,
        &block(),
        1000,
        &signature,
        &cancel_token,
        expiration,
        &"sudo_s".to_string(),
        &pub_key_bytes(&keys[0]),
    )
    .unwrap();
    let channel = "channel-0".to_string();
    contract::reply(&mut state, instr.correlation_id, &channel, 77);

    let outcome = contract::sudo(
        &mut state,
        &quizzler::msg::SudoMsg::IBCLifecycleComplete(
            quizzler::msg::IBCLifecycleComplete::IBCTimeout { channel: channel.clone(), sequence: 77 },
        ),
    );
    assert!(matches!(outcome, TransferOutcome::Resolved(PacketLifecycleStatus::TimedOut)));
    assert_eq!(state.recovery.len(), 1);

    let outcome = contract::sudo(
        &mut state,
        &quizzler::msg::SudoMsg::IBCLifecycleComplete(quizzler::msg::IBCLifecycleComplete::IBCAck {
            channel: channel.clone(),
            sequence: 77,
            ack: "result".to_string(),
            success: true,
        }),
    );
    assert!(matches!(outcome, TransferOutcome::AlreadyResolved));
    assert_eq!(state.recovery.len(), 1);
}

#[test]
fn mismatched_batch_lengths_fail() {
    let (mut state, keys) = setup();
    let expiration = Expiration::AtHeight(20000);
    let token = "tok_mismatch".to_string();
    let ids = vec!["a".to_string(), "b".to_string()];
    let parts = vec![MANAGER_ONE.to_string()];
    let proof = query::pay_rewards_proof(&token, expiration, ids.clone(), parts.clone());
    let signature = sign_message(&proof, &keys[0]);
    let result = execute::pay_rewards(
        &mut state,
        &block(),
        &signature,
        &token,
        expiration,
        &ids,
        &parts,
        &pub_key_bytes(&keys[0]),
    );
    assert!(matches!(result, Err(ContractError::ArrayLengthMismatch)));
}

#[test]
fn malformed_and_foreign_accounts_are_rejected() {
    let (mut state, keys) = setup();
    let expiration = Expiration::AtHeight(20000);
    let mut survey_data = dummy_survey();

    survey_data.survey_creator = "not a bech32 account".to_string();
    let result =
        do_create(&mut state, &keys[0], "bad_acct", "tok_bad_acct", expiration, 1100, &survey_data);
    assert!(matches!(result, Err(ContractError::InvalidAccount)));

    // A well-formed account under a foreign prefix is rejected too.
    survey_data.survey_creator = "bc1qw508d6qejxtdg4y5r3zarvary0c5xw7kv8f3t4".to_string();
    let result = do_create(
        &mut state,
        &keys[0],
        "foreign_acct",
        "tok_foreign_acct",
        expiration,
        1100,
        &survey_data,
    );
    assert!(matches!(result, Err(ContractError::ExpectedPrefixedAccount)));
}

#[test]
fn payment_errors_name_the_attached_funds() {
    let (mut state, keys) = setup();
    let expiration = Expiration::AtHeight(20000);
    let survey_data = dummy_survey();

    let proof = query::create_survey_proof(
        &"tok_funds".to_string(),
        expiration,
        &survey_data.survey_creator,
        &"funds_survey".to_string(),
        survey_data.participants_limit,
        survey_data.reward_per_user,
        &survey_data.survey_hash,
        &"uosmo".to_string(),
        survey_data.amount_to_gas_station,
    );
    let signature = sign_message(&proof, &keys[0]);
    let attempt = |state: &mut ContractState, funds: Vec<Coin>| {
        execute::create_survey(
            state,
            &block(),
            &funds,
            &signature,
            &"tok_funds".to_string(),
            expiration,
            &survey_data.survey_creator,
            &"funds_survey".to_string(),
            survey_data.participants_limit,
            survey_data.reward_per_user,
            &survey_data.survey_hash,
            survey_data.amount_to_gas_station,
            &pub_key_bytes(&keys[0]),
        )
    };
    assert!(matches!(attempt(&mut state, vec![]), Err(ContractError::NoFunds)));
    assert!(matches!(
        attempt(
            &mut state,
            vec![
                Coin { denom: "uosmo".to_string(), amount: 600 },
                Coin { denom: "uatom".to_string(), amount: 600 },
            ],
        ),
        Err(ContractError::MultipleDenoms)
    ));
    assert!(matches!(
        attempt(&mut state, vec![Coin { denom: "uatom".to_string(), amount: 1100 }]),
        Err(ContractError::MissingDenom)
    ));
    // The failed attempts burned nothing: the same token still works.
    attempt(&mut state, vec![Coin { denom: "uosmo".to_string(), amount: 1100 }]).unwrap();
}

#[test]
fn escrow_overflow_fails_with_arithmetic_error() {
    let (mut state, keys) = setup();
    let expiration = Expiration::AtHeight(20000);
    let mut survey_data = dummy_survey();
    survey_data.participants_limit = u32::MAX;
    survey_data.reward_per_user = u128::MAX / 2;
    let result = do_create(
        &mut state,
        &keys[0],
        "overflow",
        "tok_overflow",
        expiration,
        1100,
        &survey_data,
    );
    assert!(matches!(result, Err(ContractError::ArithmeticError)));
}

#[test]
fn ownership_gates_admin_operations() {
    let (mut state, _keys) = setup();
    let intruder = "intruder".to_string();
    let result = execute::set_manager(
        &mut state,
        &intruder,
        &MANAGER_ONE.to_string(),
        &vec![1, 2, 3],
        false,
    );
    assert!(matches!(result, Err(ContractError::Unauthorized)));

    // The owner can deactivate a manager; its proofs stop authorizing.
    let owner = "owner".to_string();
    execute::set_manager(&mut state, &owner, &MANAGER_ONE.to_string(), &vec![1, 2, 3], false)
        .unwrap();

    execute::set_gas_station(&mut state, &owner, &MANAGER_TWO.to_string()).unwrap();
    assert_eq!(query::get_config(&state).gas_station, MANAGER_TWO.to_string());

    execute::transfer_ownership(&mut state, &owner, &MANAGER_ONE.to_string()).unwrap();
    assert_eq!(query::get_config(&state).owner, MANAGER_ONE.to_string());
    let result = execute::set_gas_station(&mut state, &owner, &MANAGER_ONE.to_string());
    assert!(matches!(result, Err(ContractError::Unauthorized)));
}

#[test]
fn deactivated_manager_cannot_authorize() {
    let (mut state, keys) = setup();
    let expiration = Expiration::AtHeight(20000);
    let survey_data = dummy_survey();
    let owner = "owner".to_string();
    execute::set_manager(
        &mut state,
        &owner,
        &MANAGER_ONE.to_string(),
        &pub_key_bytes(&keys[0]),
        false,
    )
    .unwrap();
    let result =
        do_create(&mut state, &keys[0], "inactive", "tok_inactive", expiration, 1100, &survey_data);
    assert!(matches!(result, Err(ContractError::InvalidSigner)));
}

#[test]
fn digests_are_deterministic_and_domain_separated() {
    let expiration = Expiration::AtHeight(20000);
    let survey_data = dummy_survey();
    let one = query::create_survey_proof(
        &"tok".to_string(),
        expiration,
        &survey_data.survey_creator,
        &"s1".to_string(),
        survey_data.participants_limit,
        survey_data.reward_per_user,
        &survey_data.survey_hash,
        &"uosmo".to_string(),
        survey_data.amount_to_gas_station,
    );
    let two = query::create_survey_proof(
        &"tok".to_string(),
        expiration,
        &survey_data.survey_creator,
        &"s1".to_string(),
        survey_data.participants_limit,
        survey_data.reward_per_user,
        &survey_data.survey_hash,
        &"uosmo".to_string(),
        survey_data.amount_to_gas_station,
    );
    assert_eq!(one, two);
    assert_eq!(one.len(), 32);

    let other_token = query::create_survey_proof(
        &"tok2".to_string(),
        expiration,
        &survey_data.survey_creator,
        &"s1".to_string(),
        survey_data.participants_limit,
        survey_data.reward_per_user,
        &survey_data.survey_hash,
        &"uosmo".to_string(),
        survey_data.amount_to_gas_station,
    );
    assert_ne!(one, other_token);

    let cancel = query::cancel_survey_proof(&"tok".to_string(), expiration, &"s1".to_string());
    assert_eq!(cancel.len(), 32);
    assert_ne!(one, cancel);
    let pay = query::pay_rewards_proof(
        &"tok".to_string(),
        expiration,
        vec!["s1".to_string()],
        vec![survey_data.survey_creator.clone()],
    );
    assert_eq!(pay.len(), 32);
    assert_ne!(cancel, pay);
}

#[test]
fn transfer_lifecycle_resolves_exactly_once() {
    let (mut state, keys) = setup();
    let expiration = Expiration::AtHeight(20000);
    let survey_data = dummy_survey();
    let survey_id = "lifecycle".to_string();
    do_create(&mut state, &keys[0], &survey_id, "tok_lc_create", expiration, 1100, &survey_data)
        .unwrap();

    let cancel_token = "tok_lc_cancel".to_string();
    let proof = query::cancel_survey_proof(&cancel_token, expiration, &survey_id);
    let signature = sign_message(&proof, &keys[0]);
    let instr = execute::cancel_survey(
        &mut state,
        &block(),
        1000,
        &signature,
        &cancel_token,
        expiration,
        &survey_id,
        &pub_key_bytes(&keys[0]),
    )
    .unwrap();
    assert_eq!(instr.channel_id, "channel-0".to_string());
    assert_eq!(instr.timeout_timestamp, block().time + 600);

    // The host's reply supplies the sequence number; the transfer is
    // then tracked in flight as Sent.
    let channel = "channel-0".to_string();
    let outcome = contract::reply(&mut state, instr.correlation_id, &channel, 5);
    assert!(matches!(outcome, TransferOutcome::Registered));
    assert_eq!(state.inflight.len(), 1);
    assert!(matches!(state.inflight[0].status, PacketLifecycleStatus::Sent));
    assert_eq!(state.inflight[0].amount, 1000);
    assert_eq!(state.pending.len(), 0);

    // A timeout resolves it exactly once and appends one recovery entry.
    let outcome = quizzler::ibc::receive_timeout(&mut state, &channel, 5);
    assert!(matches!(outcome, TransferOutcome::Resolved(PacketLifecycleStatus::TimedOut)));
    assert!(matches!(state.inflight[0].status, PacketLifecycleStatus::TimedOut));
    assert_eq!(state.recovery.len(), 1);
    assert_eq!(state.recovery[0].recovery_addr, survey_data.survey_creator);

    // A duplicate timeout callback is a no-op: no second recovery entry.
    let outcome = quizzler::ibc::receive_timeout(&mut state, &channel, 5);
    assert!(matches!(outcome, TransferOutcome::AlreadyResolved));
    assert_eq!(state.recovery.len(), 1);

    // A callback for an unknown packet is tolerated.
    let outcome = quizzler::ibc::receive_ack(&mut state, &channel, 99, true);
    assert!(matches!(outcome, TransferOutcome::NotFound));
}

#[test]
fn failed_ack_appends_recovery_and_success_does_not() {
    let (mut state, keys) = setup();
    let expiration = Expiration::AtHeight(20000);
    let survey_data = dummy_survey();
    do_create(&mut state, &keys[0], "acks", "tok_acks_create", expiration, 1100, &survey_data)
        .unwrap();

    let token = "tok_acks_pay".to_string();
    let ids = vec!["acks".to_string(), "acks".to_string()];
    let parts = vec![MANAGER_ONE.to_string(), MANAGER_TWO.to_string()];
    let proof = query::pay_rewards_proof(&token, expiration, ids.clone(), parts.clone());
    let signature = sign_message(&proof, &keys[0]);
    let transfers = execute::pay_rewards(
        &mut state,
        &block(),
        &signature,
        &token,
        expiration,
        &ids,
        &parts,
        &pub_key_bytes(&keys[0]),
    )
    .unwrap();
    assert_eq!(transfers.len(), 2);
    assert_eq!(state.pending.len(), 2);

    let channel = "channel-0".to_string();
    assert!(matches!(
        contract::reply(&mut state, transfers[0].correlation_id, &channel, 10),
        TransferOutcome::Registered
    ));
    assert!(matches!(
        contract::reply(&mut state, transfers[1].correlation_id, &channel, 11),
        TransferOutcome::Registered
    ));

    // Success leaves the recovery ledger alone; failure appends for the
    // intended recipient, while the survey counters stay as they are.
    assert!(matches!(
        quizzler::ibc::receive_ack(&mut state, &channel, 10, true),
        TransferOutcome::Resolved(PacketLifecycleStatus::AckSuccess)
    ));
    assert_eq!(state.recovery.len(), 0);
    assert!(matches!(
        quizzler::ibc::receive_ack(&mut state, &channel, 11, false),
        TransferOutcome::Resolved(PacketLifecycleStatus::AckFailure)
    ));
    assert_eq!(state.recovery.len(), 1);
    assert_eq!(state.recovery[0].recovery_addr, MANAGER_TWO.to_string());
    assert_eq!(
        query::get_survey(&state, &"acks".to_string()).unwrap().participants_rewarded,
        2
    );
}

#[test]
fn response_builders_carry_their_fields() {
    let create = quizzler::msg::CreateSurveyResponse::new("survey1", 100, 10, "uosmo", 1571797419);
    assert_eq!(create.survey_id, "survey1".to_string());
    assert_eq!(create.participants_limit, 100);
    assert_eq!(create.reward_amount, 10);
    assert_eq!(create.reward_denom, "uosmo".to_string());
    assert_eq!(create.timestamp, 1571797419);

    let cancel = quizzler::msg::CancelSurveyResponse::new("survey1", 1000, 1571797419);
    assert_eq!(cancel.survey_id, "survey1".to_string());
    assert_eq!(cancel.amount_refunded, 1000);
    assert_eq!(cancel.timestamp, 1571797419);

    let pay = quizzler::msg::PayRewardsResponse::new(
        vec!["survey1".to_string()],
        10,
        vec![MANAGER_ONE.to_string()],
        1571797419,
    );
    assert_eq!(pay.survey_ids, vec!["survey1".to_string()]);
    assert_eq!(pay.participants, vec![MANAGER_ONE.to_string()]);
    assert_eq!(pay.total_rewards_paid, 10);
    assert_eq!(pay.timestamp, 1571797419);
}

#[test]
fn dispatch_layer_routes_requests() {
    let (mut state, keys) = setup();
    let expiration = Expiration::AtHeight(20000);
    let survey_data = dummy_survey();

    let proof = match contract::query(
        &state,
        &quizzler::msg::QueryMsg::CreateSurveyProof {
            token: "tok_route".to_string(),
            time_to_expire: expiration,
            owner: survey_data.survey_creator.clone(),
            survey_id: "routed".to_string(),
            participants_limit: survey_data.participants_limit,
            reward_per_user: survey_data.reward_per_user,
            survey_hash: survey_data.survey_hash.clone(),
            reward_denom: "uosmo".to_string(),
            amount_to_gas_station: survey_data.amount_to_gas_station,
        },
    )
    .unwrap()
    {
        quizzler::msg::QueryAnswer::Proof(d) => d,
        _ => panic!("expected a proof answer"),
    };
    let signature = sign_message(&proof, &keys[0]);

    let response = contract::execute(
        &mut state,
        &block(),
        &"owner".to_string(),
        &vec![Coin { denom: "uosmo".to_string(), amount: 1100 }],
        0,
        &quizzler::msg::ExecuteMsg::CreateSurvey {
            signature,
            token: "tok_route".to_string(),
            time_to_expire: expiration,
            owner: survey_data.survey_creator.clone(),
            survey_id: "routed".to_string(),
            participants_limit: survey_data.participants_limit,
            reward_per_user: survey_data.reward_per_user,
            survey_hash: survey_data.survey_hash.clone(),
            amount_to_gas_station: survey_data.amount_to_gas_station,
            manager_pub_key: pub_key_bytes(&keys[0]),
        },
    )
    .unwrap();
    assert_eq!(response.bank_transfers.len(), 1);
    assert_eq!(response.bank_transfers[0].amount, 100);

    match contract::query(
        &state,
        &quizzler::msg::QueryMsg::GetSurveyAmountToFund { survey_id: "routed".to_string() },
    )
    .unwrap()
    {
        quizzler::msg::QueryAnswer::Amount(a) => assert_eq!(a, 1000),
        _ => panic!("expected an amount answer"),
    }
}
