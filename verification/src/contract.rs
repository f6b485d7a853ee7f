//! The entry points: a closed dispatch over the action kinds, each
//! routed to one handler with its spec-level transition function.

use vstd::prelude::*;

use crate::error::ContractError;
use crate::execute::{
    spec_cancel_survey, spec_create_survey, spec_instantiate, spec_pay_rewards, spec_set_gas_station,
    spec_set_manager, spec_transfer_ownership,
};
use crate::ibc::{
    spec_receive_ack, spec_receive_timeout, spec_resolve_pending, TransferInstruction,
    TransferOutcome,
};
use crate::msg::{ExecuteMsg, IBCLifecycleComplete, InstantiateMsg, QueryAnswer, QueryMsg, SudoMsg};
use crate::query::survey_response_matches;
use crate::state::{BankTransfer, BlockInfo, Coin, ContractState, Manager, StateV};

verus! {

/// What the host is asked to do after a successful write: bank sends
/// and cross-chain transfer dispatches.
pub struct Response {
    pub bank_transfers: Vec<BankTransfer>,
    pub transfers: Vec<TransferInstruction>,
}

/// Sets up the contract's state from the instantiation data, the caller
/// becoming owner.
pub fn instantiate(sender: &String, msg: &InstantiateMsg) -> (r: Result<
    ContractState,
    ContractError,
>)
    ensures
        ({
            let s = spec_instantiate(
                sender@,
                msg.managers@.map_values(|m: Manager| m@),
                msg.gas_station@,
                msg.reward_denom@,
                msg.receiver_prefix@,
                msg.channel_id@,
            );
            match r {
                Ok(st) => s == Ok::<_, ContractError>(st@) && st@.wf(),
                Err(e) => s == Err::<StateV, _>(e),
            }
        }),
{
    crate::execute::instantiate(
        sender,
        &msg.managers,
        &msg.gas_station,
        &msg.reward_denom,
        &msg.receiver_prefix,
        &msg.channel_id,
    )
}

/// The number of transfers a write request dispatches, which its fresh
/// correlation ids must leave room for.
pub open spec fn dispatch_count(msg: ExecuteMsg) -> int {
    match msg {
        ExecuteMsg::CancelSurvey { .. } => 1,
        ExecuteMsg::PayRewards { survey_ids, .. } => survey_ids@.len() as int,
        _ => 0,
    }
}

/// Routes a write request to its handler.  The outcome of each arm is
/// the handler's own transition function; the response carries the bank
/// sends and transfer dispatches the host must perform.  The caller
/// supplies the contract account's current balance in the reward
/// currency, which a cancellation's refund is checked against.
pub fn execute(
    state: &mut ContractState,
    block: &BlockInfo,
    sender: &String,
    funds: &Vec<Coin>,
    contract_balance: u128,
    msg: &ExecuteMsg,
) -> (r: Result<Response, ContractError>)
    requires
        old(state)@.wf(),
        block.time + crate::helpers::TRANSFER_TIMEOUT_SECONDS <= u64::MAX,
        old(state).next_correlation_id + dispatch_count(*msg) <= u64::MAX,
    ensures
        final(state)@.wf(),
        match *msg {
            ExecuteMsg::SetManagers { managers, pub_key, status } => ({
                let outcome = spec_set_manager(
                    old(state)@,
                    sender@,
                    managers@,
                    pub_key@,
                    status,
                );
                match outcome {
                    Ok(s2) => r is Ok && final(state)@ == s2,
                    Err(e) => r matches Err(e2) && e2 == e && final(state)@ == old(state)@,
                }
            }),
            ExecuteMsg::SetGasStation { gas_station } => ({
                let outcome = spec_set_gas_station(old(state)@, sender@, gas_station@);
                match outcome {
                    Ok(s2) => r is Ok && final(state)@ == s2,
                    Err(e) => r matches Err(e2) && e2 == e && final(state)@ == old(state)@,
                }
            }),
            ExecuteMsg::TransferOwnership { new_owner } => ({
                let outcome = spec_transfer_ownership(old(state)@, sender@, new_owner@);
                match outcome {
                    Ok(s2) => r is Ok && final(state)@ == s2,
                    Err(e) => r matches Err(e2) && e2 == e && final(state)@ == old(state)@,
                }
            }),
            ExecuteMsg::CreateSurvey {
                signature,
                token,
                time_to_expire,
                owner,
                survey_id,
                participants_limit,
                reward_per_user,
                survey_hash,
                amount_to_gas_station,
                manager_pub_key,
            } => ({
                let outcome = spec_create_survey(
                    old(state)@,
                    *block,
                    funds@.map_values(|c: Coin| c@),
                    signature@,
                    token@,
                    time_to_expire,
                    owner@,
                    survey_id@,
                    participants_limit,
                    reward_per_user,
                    survey_hash@,
                    amount_to_gas_station,
                    manager_pub_key@,
                );
                match outcome {
                    Ok((s2, m)) => r matches Ok(resp) && final(state)@ == s2
                        && resp.bank_transfers@.len() == 1 && resp.bank_transfers@[0]@ == m
                        && resp.transfers@.len() == 0,
                    Err(e) => r matches Err(e2) && e2 == e && final(state)@ == old(state)@,
                }
            }),
            ExecuteMsg::CancelSurvey {
                signature,
                token,
                time_to_expire,
                survey_id,
                manager_pub_key,
            } => ({
                let outcome = spec_cancel_survey(
                    old(state)@,
                    *block,
                    contract_balance,
                    signature@,
                    token@,
                    time_to_expire,
                    survey_id@,
                    manager_pub_key@,
                );
                match outcome {
                    Ok((s2, instr)) => r matches Ok(resp) && final(state)@ == s2
                        && resp.transfers@.len() == 1 && resp.transfers@[0]@ == instr
                        && resp.bank_transfers@.len() == 0,
                    Err(e) => r matches Err(e2) && e2 == e && final(state)@ == old(state)@,
                }
            }),
            ExecuteMsg::PayRewards {
                signature,
                token,
                time_to_expire,
                survey_ids,
                participants,
                manager_pub_key,
            } => ({
                let outcome = spec_pay_rewards(
                    old(state)@,
                    *block,
                    signature@,
                    token@,
                    time_to_expire,
                    survey_ids@.map_values(|s: String| s@),
                    participants@.map_values(|s: String| s@),
                    manager_pub_key@,
                );
                match outcome {
                    Ok((s2, instrs)) => r matches Ok(resp) && final(state)@ == s2
                        && resp.transfers@.map_values(|t: TransferInstruction| t@) == instrs
                        && resp.bank_transfers@.len() == 0,
                    Err(e) => r matches Err(e2) && e2 == e && final(state)@ == old(state)@,
                }
            }),
        },
{
    match msg {
        ExecuteMsg::SetManagers { managers, pub_key, status } => {
            match crate::execute::set_manager(state, sender, managers, pub_key, *status) {
                Err(e) => Err(e),
                Ok(_) => Ok(Response { bank_transfers: Vec::new(), transfers: Vec::new() }),
            }
        },
        ExecuteMsg::SetGasStation { gas_station } => {
            match crate::execute::set_gas_station(state, sender, gas_station) {
                Err(e) => Err(e),
                Ok(_) => Ok(Response { bank_transfers: Vec::new(), transfers: Vec::new() }),
            }
        },
        ExecuteMsg::TransferOwnership { new_owner } => {
            match crate::execute::transfer_ownership(state, sender, new_owner) {
                Err(e) => Err(e),
                Ok(_) => Ok(Response { bank_transfers: Vec::new(), transfers: Vec::new() }),
            }
        },
        ExecuteMsg::CreateSurvey {
            signature,
            token,
            time_to_expire,
            owner,
            survey_id,
            participants_limit,
            reward_per_user,
            survey_hash,
            amount_to_gas_station,
            manager_pub_key,
        } => {
            match crate::execute::create_survey(
                state,
                block,
                funds,
                signature,
                token,
                *time_to_expire,
                owner,
                survey_id,
                *participants_limit,
                *reward_per_user,
                survey_hash,
                *amount_to_gas_station,
                manager_pub_key,
            ) {
                Err(e) => Err(e),
                Ok(m) => {
                    let mut bank_transfers: Vec<BankTransfer> = Vec::new();
                    bank_transfers.push(m);
                    Ok(Response { bank_transfers, transfers: Vec::new() })
                },
            }
        },
        ExecuteMsg::CancelSurvey { signature, token, time_to_expire, survey_id, manager_pub_key } => {
            match crate::execute::cancel_survey(
                state,
                block,
                contract_balance,
                signature,
                token,
                *time_to_expire,
                survey_id,
                manager_pub_key,
            ) {
                Err(e) => Err(e),
                Ok(instr) => {
                    let mut transfers: Vec<TransferInstruction> = Vec::new();
                    transfers.push(instr);
                    Ok(Response { bank_transfers: Vec::new(), transfers })
                },
            }
        },
        ExecuteMsg::PayRewards {
            signature,
            token,
            time_to_expire,
            survey_ids,
            participants,
            manager_pub_key,
        } => {
            match crate::execute::pay_rewards(
                state,
                block,
                signature,
                token,
                *time_to_expire,
                survey_ids,
                participants,
                manager_pub_key,
            ) {
                Err(e) => Err(e),
                Ok(transfers) => Ok(Response { bank_transfers: Vec::new(), transfers }),
            }
        },
    }
}

/// What a read request's answer must report, for each request kind.
pub open spec fn query_answers(s: StateV, msg: QueryMsg, r: Result<QueryAnswer, ContractError>) -> bool {
    match msg {
        QueryMsg::CreateSurveyProof {
            token,
            time_to_expire,
            owner,
            survey_id,
            participants_limit,
            reward_per_user,
            survey_hash,
            reward_denom,
            amount_to_gas_station,
        } => r matches Ok(QueryAnswer::Proof(d)) && d@ == crate::codec::sha256_of(
            crate::codec::encode_create(
                crate::codec::str_bytes(token@),
                time_to_expire,
                crate::codec::str_bytes(owner@),
                crate::codec::str_bytes(survey_id@),
                participants_limit,
                reward_per_user,
                survey_hash@,
                crate::codec::str_bytes(reward_denom@),
                amount_to_gas_station,
            ),
        ),
        QueryMsg::CancelSurveyProof { token, time_to_expire, survey_id } => r matches Ok(
            QueryAnswer::Proof(d),
        ) && d@ == crate::codec::sha256_of(
            crate::codec::encode_cancel(
                crate::codec::str_bytes(token@),
                time_to_expire,
                crate::codec::str_bytes(survey_id@),
            ),
        ),
        QueryMsg::PayRewardsProof { token, time_to_expire, survey_ids, participants } => r matches
            Ok(QueryAnswer::Proof(d)) && d@ == crate::codec::sha256_of(
            crate::codec::encode_pay(
                crate::codec::str_bytes(token@),
                time_to_expire,
                crate::codec::str_list_view(survey_ids@),
                crate::codec::str_list_view(participants@),
            ),
        ),
        QueryMsg::GetSurvey { survey_id } => match crate::state::get_survey_v(
            s.surveys,
            survey_id@,
        ) {
            None => r == Err::<QueryAnswer, _>(ContractError::SurveyNotFound),
            Some(si) => r matches Ok(QueryAnswer::Survey(resp)) && survey_response_matches(
                resp,
                si,
            ),
        },
        QueryMsg::GetSurveyAmountToFund { survey_id } => match crate::state::get_survey_v(
            s.surveys,
            survey_id@,
        ) {
            None => r == Err::<QueryAnswer, _>(ContractError::SurveyNotFound),
            Some(si) => r matches Ok(QueryAnswer::Amount(a)) && a == (si.participants_limit
                * si.reward_per_user) as u128,
        },
        QueryMsg::GetSurveyRewardsAmountPaid { survey_id } => match crate::state::get_survey_v(
            s.surveys,
            survey_id@,
        ) {
            None => r == Err::<QueryAnswer, _>(ContractError::SurveyNotFound),
            Some(si) => r matches Ok(QueryAnswer::Amount(a)) && a == (si.participants_rewarded
                * si.reward_per_user) as u128,
        },
        QueryMsg::GetConfig => r matches Ok(QueryAnswer::Config(c)) && c@ == s.config,
        QueryMsg::GetHasClaimedReward { survey_id, participant } => match crate::helpers::spec_validate_account(
            s.config.receiver_prefix,
            participant@,
        ) {
            Err(e) => r == Err::<QueryAnswer, _>(e),
            Ok(_) => r matches Ok(QueryAnswer::HasClaimed(b)) && b == crate::state::pair_rewarded(
                s.rewarded,
                survey_id@,
                participant@,
            ),
        },
    }
}

/// Routes a read request to its read operation.
pub fn query(state: &ContractState, msg: &QueryMsg) -> (r: Result<QueryAnswer, ContractError>)
    requires
        state@.wf(),
    ensures
        query_answers(state@, *msg, r),
{
    match msg {
        QueryMsg::CreateSurveyProof {
            token,
            time_to_expire,
            owner,
            survey_id,
            participants_limit,
            reward_per_user,
            survey_hash,
            reward_denom,
            amount_to_gas_station,
        } => {
            let d = crate::query::create_survey_proof(
                token,
                *time_to_expire,
                owner,
                survey_id,
                *participants_limit,
                *reward_per_user,
                survey_hash,
                reward_denom,
                *amount_to_gas_station,
            );
            return Ok(QueryAnswer::Proof(d));
        },
        QueryMsg::CancelSurveyProof { token, time_to_expire, survey_id } => {
            let d = crate::query::cancel_survey_proof(token, *time_to_expire, survey_id);
            return Ok(QueryAnswer::Proof(d));
        },
        QueryMsg::PayRewardsProof { token, time_to_expire, survey_ids, participants } => {
            let ids = crate::execute::clone_string_vec(survey_ids);
            let parts = crate::execute::clone_string_vec(participants);
            let d = crate::query::pay_rewards_proof(token, *time_to_expire, ids, parts);
            proof {
                assert(crate::codec::str_list_view(survey_ids@) =~= crate::codec::str_list_view(
                    ids@,
                ));
                assert(crate::codec::str_list_view(participants@)
                    =~= crate::codec::str_list_view(parts@));
            }
            return Ok(QueryAnswer::Proof(d));
        },
        QueryMsg::GetSurvey { survey_id } => {
            match crate::query::get_survey(state, survey_id) {
                Err(e) => {
                    return Err(e);
                },
                Ok(resp) => {
                    return Ok(QueryAnswer::Survey(resp));
                },
            }
        },
        QueryMsg::GetSurveyAmountToFund { survey_id } => {
            match crate::query::get_survey_amount_to_fund(state, survey_id) {
                Err(e) => {
                    return Err(e);
                },
                Ok(a) => {
                    return Ok(QueryAnswer::Amount(a));
                },
            }
        },
        QueryMsg::GetSurveyRewardsAmountPaid { survey_id } => {
            match crate::query::get_survey_rewards_amount_paid(state, survey_id) {
                Err(e) => {
                    return Err(e);
                },
                Ok(a) => {
                    return Ok(QueryAnswer::Amount(a));
                },
            }
        },
        QueryMsg::GetConfig => {
            return Ok(QueryAnswer::Config(crate::query::get_config(state).dup()));
        },
        QueryMsg::GetHasClaimedReward { survey_id, participant } => {
            match crate::query::get_has_claimed_reward(state, survey_id, participant) {
                Err(e) => {
                    return Err(e);
                },
                Ok(b) => {
                    return Ok(QueryAnswer::HasClaimed(b));
                },
            }
        },
    }
}

/// Routes a lifecycle callback to the transfer lifecycle; an unknown or
/// repeated callback is a no-op, never an error.
pub fn sudo(state: &mut ContractState, msg: &SudoMsg) -> (r: TransferOutcome)
    requires
        old(state)@.wf(),
    ensures
        final(state)@.wf(),
        match *msg {
            SudoMsg::IBCLifecycleComplete(
                IBCLifecycleComplete::IBCAck { channel, sequence, ack, success },
            ) => final(state)@ == spec_receive_ack(old(state)@, channel@, sequence, success).0 && r
                == spec_receive_ack(old(state)@, channel@, sequence, success).1,
            SudoMsg::IBCLifecycleComplete(IBCLifecycleComplete::IBCTimeout { channel, sequence }) =>
                final(state)@ == spec_receive_timeout(old(state)@, channel@, sequence).0 && r
                == spec_receive_timeout(old(state)@, channel@, sequence).1,
        },
{
    match msg {
        SudoMsg::IBCLifecycleComplete(IBCLifecycleComplete::IBCAck { channel, sequence, ack, success }) => {
            crate::ibc::receive_ack(state, channel, *sequence, *success)
        },
        SudoMsg::IBCLifecycleComplete(IBCLifecycleComplete::IBCTimeout { channel, sequence }) => {
            crate::ibc::receive_timeout(state, channel, *sequence)
        },
    }
}

/// Handles the host's reply to a dispatched transfer: the reply carries
/// the correlation id the dispatch was recorded under and the (channel,
/// sequence) the host assigned, which keys the transfer in flight.
pub fn reply(
    state: &mut ContractState,
    correlation_id: u64,
    channel: &String,
    sequence: u64,
) -> (r: TransferOutcome)
    requires
        old(state)@.wf(),
    ensures
        final(state)@.wf(),
        final(state)@ == spec_resolve_pending(old(state)@, correlation_id, channel@, sequence).0,
        r == spec_resolve_pending(old(state)@, correlation_id, channel@, sequence).1,
{
    crate::ibc::resolve_pending_transfer(state, correlation_id, channel, sequence)
}

} // verus!
