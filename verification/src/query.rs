//! The read operations: the canonical digests managers sign out of
//! band, and the public views of surveys and configuration.

use vstd::prelude::*;

use crate::codec::{
    encode_cancel, encode_create, encode_pay, sha256_of, str_bytes, str_list_view,
    CancelSurveyPayload, CreateSurveyPayload, PayRewardsPayload,
};
use crate::error::ContractError;
use crate::helpers::{clone_bytes, spec_validate_account, validate_account};
use crate::state::{get_survey_v, pair_rewarded, Config, ContractState, Expiration, SurveyInfoV};

verus! {

/// The digest a manager must sign to authorize a survey creation with
/// exactly these parameters.
pub fn create_survey_proof(
    token: &String,
    time_to_expire: Expiration,
    owner: &String,
    survey_id: &String,
    participants_limit: u32,
    reward_per_user: u128,
    survey_hash: &Vec<u8>,
    reward_denom: &String,
    amount_to_gas_station: u128,
) -> (r: Vec<u8>)
    ensures
        r@ == sha256_of(
            encode_create(
                str_bytes(token@),
                time_to_expire,
                str_bytes(owner@),
                str_bytes(survey_id@),
                participants_limit,
                reward_per_user,
                survey_hash@,
                str_bytes(reward_denom@),
                amount_to_gas_station,
            ),
        ),
        r@.len() == 32,
{
    let payload = CreateSurveyPayload {
        token: token.clone(),
        time_to_expire,
        owner: owner.clone(),
        survey_id: survey_id.clone(),
        participants_limit,
        reward_per_user,
        survey_hash: clone_bytes(survey_hash),
        reward_denom: reward_denom.clone(),
        amount_to_gas_station,
    };
    payload.digest()
}

/// The digest a manager must sign to authorize a survey cancellation.
pub fn cancel_survey_proof(token: &String, time_to_expire: Expiration, survey_id: &String) -> (r:
    Vec<u8>)
    ensures
        r@ == sha256_of(
            encode_cancel(str_bytes(token@), time_to_expire, str_bytes(survey_id@)),
        ),
        r@.len() == 32,
{
    let payload = CancelSurveyPayload {
        token: token.clone(),
        time_to_expire,
        survey_id: survey_id.clone(),
    };
    payload.digest()
}

/// The digest a manager must sign to authorize a reward batch.
pub fn pay_rewards_proof(
    token: &String,
    time_to_expire: Expiration,
    survey_id: Vec<String>,
    participants: Vec<String>,
) -> (r: Vec<u8>)
    ensures
        r@ == sha256_of(
            encode_pay(
                str_bytes(token@),
                time_to_expire,
                str_list_view(survey_id@),
                str_list_view(participants@),
            ),
        ),
        r@.len() == 32,
{
    let payload = PayRewardsPayload { token: token.clone(), time_to_expire, survey_id, participants };
    payload.digest()
}

/// The public view of one survey's state.
pub struct SurveyResponse {
    pub survey_creator: String,
    pub participants_limit: u32,
    pub reward_per_user: u128,
    pub participants_rewarded: u32,
    pub survey_hash: Vec<u8>,
    pub amount_to_fund: u128,
    pub is_cancelled: bool,
}

/// Whether the response reports exactly the stored record, with the
/// full escrow it takes to fund the survey.
pub open spec fn survey_response_matches(resp: SurveyResponse, si: SurveyInfoV) -> bool {
    &&& resp.survey_creator@ == si.survey_creator
    &&& resp.participants_limit == si.participants_limit
    &&& resp.reward_per_user == si.reward_per_user
    &&& resp.participants_rewarded == si.participants_rewarded
    &&& resp.survey_hash@ == si.survey_hash
    &&& resp.amount_to_fund == si.participants_limit * si.reward_per_user
    &&& resp.is_cancelled == si.is_cancelled
}

/// The stored record of a survey, with the escrow required to fund it.
pub fn get_survey(state: &ContractState, survey_id: &String) -> (r: Result<
    SurveyResponse,
    ContractError,
>)
    requires
        state@.wf(),
    ensures
        match get_survey_v(state@.surveys, survey_id@) {
            None => r == Err::<SurveyResponse, _>(ContractError::SurveyNotFound),
            Some(si) => r matches Ok(resp) && survey_response_matches(resp, si),
        },
{
    let i = match crate::state::find_survey(&state.surveys, survey_id) {
        None => {
            return Err(ContractError::SurveyNotFound);
        },
        Some(i) => i,
    };
    let si = &state.surveys[i].1;
    proof {
        assert(crate::state::survey_wf(state@.surveys[i as int].1));
    }
    Ok(
        SurveyResponse {
            survey_creator: si.survey_creator.clone(),
            participants_limit: si.participants_limit,
            reward_per_user: si.reward_per_user,
            participants_rewarded: si.participants_rewarded,
            survey_hash: clone_bytes(&si.survey_hash),
            amount_to_fund: (si.participants_limit as u128) * si.reward_per_user,
            is_cancelled: si.is_cancelled,
        },
    )
}

/// The full escrow it takes to fund the survey: cap times per-user
/// reward.
pub fn get_survey_amount_to_fund(state: &ContractState, survey_id: &String) -> (r: Result<
    u128,
    ContractError,
>)
    requires
        state@.wf(),
    ensures
        match get_survey_v(state@.surveys, survey_id@) {
            None => r == Err::<u128, _>(ContractError::SurveyNotFound),
            Some(si) => r == Ok::<_, ContractError>(
                (si.participants_limit * si.reward_per_user) as u128,
            ),
        },
{
    let i = match crate::state::find_survey(&state.surveys, survey_id) {
        None => {
            return Err(ContractError::SurveyNotFound);
        },
        Some(i) => i,
    };
    proof {
        assert(crate::state::survey_wf(state@.surveys[i as int].1));
    }
    Ok((state.surveys[i].1.participants_limit as u128) * state.surveys[i].1.reward_per_user)
}

/// The rewards paid out so far: rewarded count times per-user reward.
pub fn get_survey_rewards_amount_paid(state: &ContractState, survey_id: &String) -> (r: Result<
    u128,
    ContractError,
>)
    requires
        state@.wf(),
    ensures
        match get_survey_v(state@.surveys, survey_id@) {
            None => r == Err::<u128, _>(ContractError::SurveyNotFound),
            Some(si) => r == Ok::<_, ContractError>(
                (si.participants_rewarded * si.reward_per_user) as u128,
            ),
        },
{
    let i = match crate::state::find_survey(&state.surveys, survey_id) {
        None => {
            return Err(ContractError::SurveyNotFound);
        },
        Some(i) => i,
    };
    let si = &state.surveys[i].1;
    proof {
        assert(crate::state::survey_wf(state@.surveys[i as int].1));
        vstd::arithmetic::mul::lemma_mul_inequality(
            state@.surveys[i as int].1.participants_rewarded as int,
            state@.surveys[i as int].1.participants_limit as int,
            state@.surveys[i as int].1.reward_per_user as int,
        );
    }
    Ok((si.participants_rewarded as u128) * si.reward_per_user)
}

/// The stored configuration.
pub fn get_config(state: &ContractState) -> (r: &Config)
    ensures
        r@ == state@.config,
{
    &state.config
}

/// Whether the participant was already rewarded for the survey; the
/// participant account must validate.
pub fn get_has_claimed_reward(
    state: &ContractState,
    survey_id: &String,
    participant: &String,
) -> (r: Result<bool, ContractError>)
    ensures
        match spec_validate_account(state@.config.receiver_prefix, participant@) {
            Err(e) => r == Err::<bool, _>(e),
            Ok(_) => r == Ok::<_, ContractError>(
                pair_rewarded(state@.rewarded, survey_id@, participant@),
            ),
        },
{
    match validate_account(&state.config.receiver_prefix, participant) {
        Err(e) => {
            return Err(e);
        },
        Ok(_) => {},
    }
    Ok(crate::state::pair_is_rewarded(&state.rewarded, survey_id, participant))
}

} // verus!
