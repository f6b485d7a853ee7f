//! The write operations of the survey ledger.
//!
//! Every mutating entry point is transactional: it either commits its
//! whole effect and returns the messages the host must dispatch, or it
//! returns an error and leaves the state exactly as it was — the burn of
//! a proof token included.  Each entry point's behaviour is given by a
//! spec-level transition function of the same name.

use vstd::prelude::*;

use crate::auth::{auth_check, spec_auth_result};
use crate::codec::{encode_create, sha256_of, str_bytes, CancelSurveyPayload, CreateSurveyPayload, PayRewardsPayload};
use crate::error::ContractError;
use crate::helpers::{
    check_is_contract_owner, clone_bytes, map_validate, must_pay, spec_create_ibc_transfer,
    spec_map_validate, spec_must_pay, spec_validate_account, validate_account,
};
use crate::ibc::{PendingTransfer, PendingTransferV, TransferInstruction, TransferInstructionV};
use crate::state::{
    get_manager_v, get_survey_v, lemma_set_manager_at_index, lemma_set_survey_at_index,
    lemma_survey_push, lemma_survey_push_distinct, pair_rewarded, set_manager_v, set_survey_v,
    survey_wf,
    BankTransfer, BankTransferV, BlockInfo, Coin, Config, ConfigV, ContractState, Expiration,
    Manager, ManagerInfo, ManagerInfoV, StateV, SurveyInfo, SurveyInfoV,
};

verus! {

/// How the contract instantiates: every declared manager and the gas
/// station account must validate against the receiver prefix; the
/// caller becomes the owner and every ledger starts empty.
pub open spec fn spec_instantiate(
    sender: Seq<char>,
    managers: Seq<crate::state::ManagerV>,
    gas_station: Seq<char>,
    reward_denom: Seq<char>,
    receiver_prefix: Seq<char>,
    channel_id: Seq<char>,
) -> Result<StateV, ContractError> {
    match spec_map_validate(receiver_prefix, managers) {
        Err(e) => Err(e),
        Ok(ms) => match spec_validate_account(receiver_prefix, gas_station) {
            Err(e) => Err(e),
            Ok(_) => Ok(
                StateV {
                    config: ConfigV {
                        owner: sender,
                        gas_station,
                        reward_denom,
                        receiver_prefix,
                        channel_id,
                    },
                    managers: ms,
                    surveys: Seq::empty(),
                    rewarded: Seq::empty(),
                    used_tokens: Seq::empty(),
                    pending: Seq::empty(),
                    next_correlation_id: 0,
                    inflight: Seq::empty(),
                    recovery: Seq::empty(),
                },
            ),
        },
    }
}

/// Sets up the initial state: validated managers, validated gas
/// station, the caller as owner, and empty ledgers.
pub fn instantiate(
    sender: &String,
    managers: &Vec<Manager>,
    gas_station: &String,
    reward_denom: &String,
    receiver_prefix: &String,
    channel_id: &String,
) -> (r: Result<ContractState, ContractError>)
    ensures
        ({
            let s = spec_instantiate(
                sender@,
                managers@.map_values(|m: Manager| m@),
                gas_station@,
                reward_denom@,
                receiver_prefix@,
                channel_id@,
            );
            match r {
                Ok(st) => s == Ok::<_, ContractError>(st@) && st@.wf(),
                Err(e) => s == Err::<StateV, _>(e),
            }
        }),
{
    let validated = match map_validate(receiver_prefix, managers) {
        Err(e) => {
            return Err(e);
        },
        Ok(v) => v,
    };
    match validate_account(receiver_prefix, gas_station) {
        Err(e) => {
            return Err(e);
        },
        Ok(_) => {},
    }
    let state = ContractState {
        config: Config {
            owner: sender.clone(),
            gas_station: gas_station.clone(),
            reward_denom: reward_denom.clone(),
            receiver_prefix: receiver_prefix.clone(),
            channel_id: channel_id.clone(),
        },
        managers: validated,
        surveys: Vec::new(),
        rewarded: Vec::new(),
        used_tokens: Vec::new(),
        pending: Vec::new(),
        next_correlation_id: 0,
        inflight: Vec::new(),
        recovery: Vec::new(),
    };
    proof {
        assert(state@ =~= spec_instantiate(
            sender@,
            managers@.map_values(|m: Manager| m@),
            gas_station@,
            reward_denom@,
            receiver_prefix@,
            channel_id@,
        ).unwrap());
    }
    Ok(state)
}

/// How a survey creation executes.  In order: the identifier must be
/// fresh; the creator account must validate; the manager proof must
/// authorize the creation's canonical digest; exactly one positive coin
/// of the reward currency must be attached; the escrow (cap times
/// per-user reward) plus the side-payment must not overflow and must be
/// covered by the attached amount.  On success the survey is recorded,
/// the token is burned, and the side-payment is forwarded to the gas
/// station.
pub open spec fn spec_create_survey(
    s: StateV,
    block: BlockInfo,
    funds: Seq<crate::state::CoinV>,
    signature: Seq<u8>,
    token: Seq<char>,
    time_to_expire: Expiration,
    owner: Seq<char>,
    survey_id: Seq<char>,
    participants_limit: u32,
    reward_per_user: u128,
    survey_hash: Seq<u8>,
    amount_to_gas_station: u128,
    manager_pub_key: Seq<u8>,
) -> Result<(StateV, BankTransferV), ContractError> {
    let digest = sha256_of(
        encode_create(
            str_bytes(token),
            time_to_expire,
            str_bytes(owner),
            str_bytes(survey_id),
            participants_limit,
            reward_per_user,
            survey_hash,
            str_bytes(s.config.reward_denom),
            amount_to_gas_station,
        ),
    );
    if get_survey_v(s.surveys, survey_id) is Some {
        Err(ContractError::SurveyAlreadyExists)
    } else {
        match spec_validate_account(s.config.receiver_prefix, owner) {
            Err(e) => Err(e),
            Ok(_) => match spec_auth_result(
                s,
                block,
                token,
                digest,
                manager_pub_key,
                time_to_expire,
                signature,
            ) {
                Err(e) => Err(e),
                Ok(_) => match spec_must_pay(funds, s.config.reward_denom) {
                    Err(e) => Err(e),
                    Ok(amount_sent) => {
                        if participants_limit * reward_per_user > u128::MAX {
                            Err(ContractError::ArithmeticError)
                        } else if participants_limit * reward_per_user + amount_to_gas_station
                            > u128::MAX {
                            Err(ContractError::ArithmeticError)
                        } else if (amount_sent as int) < participants_limit * reward_per_user
                            + amount_to_gas_station {
                            Err(ContractError::InvalidTransactionValue)
                        } else {
                            Ok(
                                (
                                    StateV {
                                        surveys: s.surveys.push(
                                            (
                                                survey_id,
                                                SurveyInfoV {
                                                    survey_creator: owner,
                                                    participants_limit,
                                                    reward_per_user,
                                                    participants_rewarded: 0,
                                                    survey_hash,
                                                    is_cancelled: false,
                                                },
                                            ),
                                        ),
                                        used_tokens: s.used_tokens.push(token),
                                        ..s
                                    },
                                    BankTransferV {
                                        to_address: s.config.gas_station,
                                        amount: amount_to_gas_station,
                                        denom: s.config.reward_denom,
                                    },
                                ),
                            )
                        }
                    },
                },
            },
        }
    }
}

/// Creates a survey: escrows the attached funds and forwards the fixed
/// side-payment to the gas station.
#[allow(unused_variables)]
pub fn create_survey(
    state: &mut ContractState,
    block: &BlockInfo,
    funds: &Vec<Coin>,
    signature: &Vec<u8>,
    token: &String,
    time_to_expire: Expiration,
    owner: &String,
    survey_id: &String,
    participants_limit: u32,
    reward_per_user: u128,
    survey_hash: &Vec<u8>,
    amount_to_gas_station: u128,
    manager_pub_key: &Vec<u8>,
) -> (r: Result<BankTransfer, ContractError>)
    requires
        old(state)@.wf(),
    ensures
        final(state)@.wf(),
        ({
            let outcome = spec_create_survey(
                old(state)@,
                *block,
                funds@.map_values(|c: Coin| c@),
                signature@,
                token@,
                time_to_expire,
                owner@,
                survey_id@,
                participants_limit,
                reward_per_user,
                survey_hash@,
                amount_to_gas_station,
                manager_pub_key@,
            );
            match outcome {
                Ok((s2, msg)) => r matches Ok(m) && m@ == msg && final(state)@ == s2,
                Err(e) => r == Err::<BankTransfer, _>(e) && final(state)@ == old(state)@,
            }
        }),
{
    if find_survey_some(&state.surveys, survey_id) {
        return Err(ContractError::SurveyAlreadyExists);
    }
    let owner_addr = match validate_account(&state.config.receiver_prefix, owner) {
        Err(e) => {
            return Err(e);
        },
        Ok((_, a)) => a,
    };
    let payload = CreateSurveyPayload {
        token: token.clone(),
        time_to_expire,
        owner: owner_addr,
        survey_id: survey_id.clone(),
        participants_limit,
        reward_per_user,
        survey_hash: clone_bytes(survey_hash),
        reward_denom: state.config.reward_denom.clone(),
        amount_to_gas_station,
    };
    let message_hash = payload.digest();
    match auth_check(
        state,
        block,
        token,
        &message_hash,
        manager_pub_key,
        time_to_expire,
        signature,
    ) {
        Err(e) => {
            return Err(e);
        },
        Ok(_) => {},
    }
    let amount_sent = match must_pay(funds, &state.config.reward_denom) {
        Err(e) => {
            return Err(e);
        },
        Ok(a) => a,
    };
    let amount_to_survey = match (participants_limit as u128).checked_mul(reward_per_user) {
        None => {
            return Err(ContractError::ArithmeticError);
        },
        Some(x) => x,
    };
    let total_required = match amount_to_survey.checked_add(amount_to_gas_station) {
        None => {
            return Err(ContractError::ArithmeticError);
        },
        Some(x) => x,
    };
    if amount_sent < total_required {
        return Err(ContractError::InvalidTransactionValue);
    }
    let survey_info = SurveyInfo {
        survey_creator: payload.owner,
        participants_limit,
        reward_per_user,
        participants_rewarded: 0,
        survey_hash: payload.survey_hash,
        is_cancelled: false,
    };
    let ghost pre = state@;
    let ghost infov = survey_info@;
    state.surveys.push((survey_id.clone(), survey_info));
    state.used_tokens.push(token.clone());
    proof {
        assert(state@.surveys =~= pre.surveys.push((survey_id@, infov)));
        assert(state@.used_tokens =~= pre.used_tokens.push(token@));
        lemma_survey_push(pre.surveys, survey_id@, infov, survey_id@);
        lemma_survey_push_distinct(pre.surveys, survey_id@, infov);
        assert(forall|i: int|
            0 <= i < pre.surveys.len() ==> state@.surveys[i] == pre.surveys[i]);
        assert(state@ =~= spec_create_survey(
            pre,
            *block,
            funds@.map_values(|c: Coin| c@),
            signature@,
            token@,
            time_to_expire,
            owner@,
            survey_id@,
            participants_limit,
            reward_per_user,
            survey_hash@,
            amount_to_gas_station,
            manager_pub_key@,
        ).unwrap().0);
    }
    Ok(
        BankTransfer {
            to_address: state.config.gas_station.clone(),
            amount: amount_to_gas_station,
            denom: state.config.reward_denom.clone(),
        },
    )
}

/// Whether a survey record exists under the identifier.
fn find_survey_some(surveys: &Vec<(String, SurveyInfo)>, id: &String) -> (r: bool)
    ensures
        r == (get_survey_v(crate::state::surveys_view(surveys@), id@) is Some),
{
    match crate::state::find_survey(surveys, id) {
        Some(_) => true,
        None => false,
    }
}

/// How a survey cancellation executes.  The manager proof must
/// authorize the cancellation's canonical digest and the survey must
/// exist.  The refund is the escrow not yet paid out: cap times per-user
/// reward, minus rewards issued.  A survey already cancelled has had its
/// refund issued, so cancelling it again fails with NothingToRefund —
/// the explicit policy that makes repeated cancellation deterministic —
/// as does a refund of zero; a refund the contract's balance cannot
/// cover fails with InsufficientContractBalance.  On success the survey
/// is marked cancelled, the token is burned, and the refund transfer to
/// the creator is recorded pending under a fresh correlation id.
pub open spec fn spec_cancel_survey(
    s: StateV,
    block: BlockInfo,
    contract_balance: u128,
    signature: Seq<u8>,
    token: Seq<char>,
    time_to_expire: Expiration,
    survey_id: Seq<char>,
    manager_pub_key: Seq<u8>,
) -> Result<(StateV, TransferInstructionV), ContractError> {
    let digest = sha256_of(
        crate::codec::encode_cancel(str_bytes(token), time_to_expire, str_bytes(survey_id)),
    );
    match spec_auth_result(
        s,
        block,
        token,
        digest,
        manager_pub_key,
        time_to_expire,
        signature,
    ) {
        Err(e) => Err(e),
        Ok(_) => match get_survey_v(s.surveys, survey_id) {
            None => Err(ContractError::SurveyNotFound),
            Some(si) => {
                let funded = si.participants_limit * si.reward_per_user;
                let paid = si.participants_rewarded * si.reward_per_user;
                let refund: int = if funded >= paid {
                    funded - paid
                } else {
                    0
                };
                if si.is_cancelled {
                    Err(ContractError::NothingToRefund)
                } else if refund == 0 {
                    Err(ContractError::NothingToRefund)
                } else if (contract_balance as int) < refund {
                    Err(ContractError::InsufficientContractBalance)
                } else {
                    match spec_create_ibc_transfer(
                        s.config,
                        block,
                        si.survey_creator,
                        refund as u128,
                        s.config.reward_denom,
                        s.next_correlation_id,
                    ) {
                        Err(e) => Err(e),
                        Ok(instr) => Ok(
                            (
                                StateV {
                                    surveys: set_survey_v(
                                        s.surveys,
                                        survey_id,
                                        SurveyInfoV { is_cancelled: true, ..si },
                                    ),
                                    used_tokens: s.used_tokens.push(token),
                                    pending: s.pending.push(
                                        PendingTransferV {
                                            correlation_id: s.next_correlation_id,
                                            recovery_addr: si.survey_creator,
                                            amount: refund as u128,
                                            denom: s.config.reward_denom,
                                        },
                                    ),
                                    next_correlation_id: (s.next_correlation_id + 1) as u64,
                                    ..s
                                },
                                instr,
                            ),
                        ),
                    }
                }
            },
        },
    }
}

/// Cancels a survey and issues the refund of the unspent escrow to the
/// creator as a cross-chain transfer, recorded pending.
pub fn cancel_survey(
    state: &mut ContractState,
    block: &BlockInfo,
    contract_balance: u128,
    signature: &Vec<u8>,
    token: &String,
    time_to_expire: Expiration,
    survey_id: &String,
    manager_pub_key: &Vec<u8>,
) -> (r: Result<TransferInstruction, ContractError>)
    requires
        old(state)@.wf(),
        block.time + crate::helpers::TRANSFER_TIMEOUT_SECONDS <= u64::MAX,
        old(state).next_correlation_id < u64::MAX,
    ensures
        final(state)@.wf(),
        ({
            let outcome = spec_cancel_survey(
                old(state)@,
                *block,
                contract_balance,
                signature@,
                token@,
                time_to_expire,
                survey_id@,
                manager_pub_key@,
            );
            match outcome {
                Ok((s2, instr)) => r matches Ok(t) && t@ == instr && final(state)@ == s2,
                Err(e) => r == Err::<TransferInstruction, _>(e) && final(state)@ == old(state)@,
            }
        }),
{
    let payload = CancelSurveyPayload {
        token: token.clone(),
        time_to_expire,
        survey_id: survey_id.clone(),
    };
    let message_hash = payload.digest();
    match auth_check(
        state,
        block,
        token,
        &message_hash,
        manager_pub_key,
        time_to_expire,
        signature,
    ) {
        Err(e) => {
            return Err(e);
        },
        Ok(_) => {},
    }
    let i = match crate::state::find_survey(&state.surveys, survey_id) {
        None => {
            return Err(ContractError::SurveyNotFound);
        },
        Some(i) => i,
    };
    let ghost siv = state@.surveys[i as int].1;
    proof {
        assert(siv == get_survey_v(state@.surveys, survey_id@).unwrap());
        assert(survey_wf(siv));
        vstd::arithmetic::mul::lemma_mul_inequality(
            siv.participants_rewarded as int,
            siv.participants_limit as int,
            siv.reward_per_user as int,
        );
    }
    let limit = state.surveys[i].1.participants_limit;
    let reward = state.surveys[i].1.reward_per_user;
    let rewarded_count = state.surveys[i].1.participants_rewarded;
    let funded_amount = (limit as u128) * reward;
    let paid_amount = (rewarded_count as u128) * reward;
    let return_amount: u128 = if funded_amount >= paid_amount {
        funded_amount - paid_amount
    } else {
        0
    };
    if state.surveys[i].1.is_cancelled {
        return Err(ContractError::NothingToRefund);
    }
    if return_amount == 0 {
        return Err(ContractError::NothingToRefund);
    }
    if contract_balance < return_amount {
        return Err(ContractError::InsufficientContractBalance);
    }
    let creator = state.surveys[i].1.survey_creator.clone();
    let cid = state.next_correlation_id;
    let instr = match crate::helpers::create_ibc_transfer(
        &state.config,
        block,
        &creator,
        return_amount,
        &state.config.reward_denom,
        cid,
    ) {
        Err(e) => {
            return Err(e);
        },
        Ok(t) => t,
    };
    let ghost pre = state@;
    let key = state.surveys[i].0.clone();
    let new_info = SurveyInfo {
        survey_creator: creator.clone(),
        participants_limit: limit,
        reward_per_user: reward,
        participants_rewarded: rewarded_count,
        survey_hash: clone_bytes(&state.surveys[i].1.survey_hash),
        is_cancelled: true,
    };
    let ghost niv = new_info@;
    state.surveys[i] = (key, new_info);
    state.used_tokens.push(token.clone());
    state.pending.push(
        PendingTransfer {
            correlation_id: cid,
            recovery_addr: creator,
            amount: return_amount,
            denom: state.config.reward_denom.clone(),
        },
    );
    state.next_correlation_id = cid + 1;
    proof {
        assert(state@.surveys =~= pre.surveys.update(i as int, (survey_id@, niv)));
        lemma_set_survey_at_index(pre.surveys, i as int, niv);
        crate::state::lemma_survey_update(pre.surveys, i as int, niv, survey_id@);
        assert(niv =~= SurveyInfoV { is_cancelled: true, ..siv });
        assert(state@.used_tokens =~= pre.used_tokens.push(token@));
        assert(state@.pending =~= pre.pending.push(
            PendingTransferV {
                correlation_id: cid,
                recovery_addr: siv.survey_creator,
                amount: return_amount,
                denom: pre.config.reward_denom,
            },
        ));
        assert(state@ =~= spec_cancel_survey(
            pre,
            *block,
            contract_balance,
            signature@,
            token@,
            time_to_expire,
            survey_id@,
            manager_pub_key@,
        ).unwrap().0);
        assert forall|j: int| 0 <= j < state@.surveys.len() implies survey_wf(
            #[trigger] state@.surveys[j].1,
        ) by {
            if j != i as int {
                assert(state@.surveys[j] == pre.surveys[j]);
            }
        }
    }
    Ok(instr)
}

/// How a single (survey, participant) pair of a reward batch executes.
/// The participant account must validate; the pair must not have been
/// rewarded before; the survey must exist, not be cancelled, and still
/// have a free participant slot.  On success the survey's counter goes
/// up by one, the pair is marked rewarded, and the reward transfer is
/// recorded pending under a fresh correlation id.
pub open spec fn spec_pay_one(
    s: StateV,
    block: BlockInfo,
    survey_id: Seq<char>,
    participant: Seq<char>,
) -> Result<(StateV, TransferInstructionV), ContractError> {
    match spec_validate_account(s.config.receiver_prefix, participant) {
        Err(e) => Err(e),
        Ok(_) => {
            if pair_rewarded(s.rewarded, survey_id, participant) {
                Err(ContractError::UserAlreadyRewarded)
            } else {
                match get_survey_v(s.surveys, survey_id) {
                    None => Err(ContractError::SurveyNotFound),
                    Some(si) => {
                        if si.is_cancelled {
                            Err(ContractError::SurveyAlreadyCancelled)
                        } else if si.participants_rewarded >= si.participants_limit {
                            Err(ContractError::AllParticipantsRewarded)
                        } else {
                            Ok(
                                (
                                    StateV {
                                        surveys: set_survey_v(
                                            s.surveys,
                                            survey_id,
                                            SurveyInfoV {
                                                participants_rewarded: (si.participants_rewarded
                                                    + 1) as u32,
                                                ..si
                                            },
                                        ),
                                        rewarded: s.rewarded.push((survey_id, participant)),
                                        pending: s.pending.push(
                                            PendingTransferV {
                                                correlation_id: s.next_correlation_id,
                                                recovery_addr: participant,
                                                amount: si.reward_per_user,
                                                denom: s.config.reward_denom,
                                            },
                                        ),
                                        next_correlation_id: (s.next_correlation_id + 1) as u64,
                                        ..s
                                    },
                                    TransferInstructionV {
                                        channel_id: s.config.channel_id,
                                        to_address: participant,
                                        amount: si.reward_per_user,
                                        denom: s.config.reward_denom,
                                        timeout_timestamp: (block.time
                                            + crate::helpers::TRANSFER_TIMEOUT_SECONDS) as u64,
                                        correlation_id: s.next_correlation_id,
                                    },
                                ),
                            )
                        }
                    },
                }
            }
        },
    }
}

/// How a batch of pairs executes: in input order, each pair applied to
/// the state the previous pairs left; the first failing pair fails the
/// whole batch.
pub open spec fn spec_pay_pairs(
    s: StateV,
    block: BlockInfo,
    ids: Seq<Seq<char>>,
    parts: Seq<Seq<char>>,
) -> Result<(StateV, Seq<TransferInstructionV>), ContractError>
    decreases ids.len(),
{
    if ids.len() == 0 {
        Ok((s, Seq::empty()))
    } else {
        match spec_pay_one(s, block, ids[0], parts[0]) {
            Err(e) => Err(e),
            Ok((s2, instr)) => match spec_pay_pairs(
                s2,
                block,
                ids.drop_first(),
                parts.drop_first(),
            ) {
                Err(e) => Err(e),
                Ok((s3, rest)) => Ok((s3, seq![instr] + rest)),
            },
        }
    }
}

/// How a reward batch executes.  The survey and participant lists must
/// have one entry each per pair; the manager proof must authorize the
/// batch's canonical digest; then the pairs apply in order, atomically:
/// one failing pair discards the whole batch.  On success the token is
/// burned and one reward transfer per pair is recorded pending.
pub open spec fn spec_pay_rewards(
    s: StateV,
    block: BlockInfo,
    signature: Seq<u8>,
    token: Seq<char>,
    time_to_expire: Expiration,
    ids: Seq<Seq<char>>,
    parts: Seq<Seq<char>>,
    manager_pub_key: Seq<u8>,
) -> Result<(StateV, Seq<TransferInstructionV>), ContractError> {
    if ids.len() != parts.len() {
        Err(ContractError::ArrayLengthMismatch)
    } else {
        let digest = sha256_of(
            crate::codec::encode_pay(
                str_bytes(token),
                time_to_expire,
                ids.map_values(|x: Seq<char>| str_bytes(x)),
                parts.map_values(|x: Seq<char>| str_bytes(x)),
            ),
        );
        match spec_auth_result(
            s,
            block,
            token,
            digest,
            manager_pub_key,
            time_to_expire,
            signature,
        ) {
            Err(e) => Err(e),
            Ok(_) => spec_pay_pairs(
                StateV { used_tokens: s.used_tokens.push(token), ..s },
                block,
                ids,
                parts,
            ),
        }
    }
}

/// The scratch state a partially processed batch has reached.
spec fn pay_cursor(
    base: StateV,
    surveys: Seq<(Seq<char>, SurveyInfoV)>,
    rewarded: Seq<(Seq<char>, Seq<char>)>,
    added_pending: Seq<PendingTransferV>,
    cid: u64,
) -> StateV {
    StateV { surveys, rewarded, pending: base.pending + added_pending, next_correlation_id: cid, ..base }
}

/// A copy of the survey ledger, record for record.
fn clone_surveys(v: &Vec<(String, SurveyInfo)>) -> (r: Vec<(String, SurveyInfo)>)
    ensures
        crate::state::surveys_view(r@) == crate::state::surveys_view(v@),
{
    let mut r: Vec<(String, SurveyInfo)> = Vec::new();
    let n = v.len();
    for i in 0..n
        invariant
            n == v@.len(),
            r@.len() == i,
            forall|j: int| 0 <= j < i ==> r@[j].0@ == v@[j].0@ && r@[j].1@ == v@[j].1@,
    {
        let key = v[i].0.clone();
        let info = v[i].1.dup();
        r.push((key, info));
    }
    proof {
        assert(crate::state::surveys_view(r@) =~= crate::state::surveys_view(v@));
    }
    r
}

/// A copy of the rewarded-pair set, pair for pair.
fn clone_rewarded(v: &Vec<(String, String)>) -> (r: Vec<(String, String)>)
    ensures
        crate::state::rewarded_view(r@) == crate::state::rewarded_view(v@),
{
    let mut r: Vec<(String, String)> = Vec::new();
    let n = v.len();
    for i in 0..n
        invariant
            n == v@.len(),
            r@.len() == i,
            forall|j: int| 0 <= j < i ==> r@[j].0@ == v@[j].0@ && r@[j].1@ == v@[j].1@,
    {
        let a = v[i].0.clone();
        let b = v[i].1.clone();
        r.push((a, b));
    }
    proof {
        assert(crate::state::rewarded_view(r@) =~= crate::state::rewarded_view(v@));
    }
    r
}

/// A copy of a string list, entry for entry.
pub(crate) fn clone_string_vec(v: &Vec<String>) -> (r: Vec<String>)
    ensures
        r@.len() == v@.len(),
        forall|j: int| 0 <= j < v@.len() ==> r@[j]@ == v@[j]@,
{
    let mut r: Vec<String> = Vec::new();
    let n = v.len();
    for i in 0..n
        invariant
            n == v@.len(),
            r@.len() == i,
            forall|j: int| 0 <= j < i ==> r@[j]@ == v@[j]@,
    {
        let s = v[i].clone();
        r.push(s);
    }
    r
}

/// Pays one reward per (survey, participant) pair, atomically over the
/// whole batch, and returns the transfer instructions to dispatch.
pub fn pay_rewards(
    state: &mut ContractState,
    block: &BlockInfo,
    signature: &Vec<u8>,
    token: &String,
    time_to_expire: Expiration,
    survey_ids: &Vec<String>,
    participants: &Vec<String>,
    manager_pub_key: &Vec<u8>,
) -> (r: Result<Vec<TransferInstruction>, ContractError>)
    requires
        old(state)@.wf(),
        block.time + crate::helpers::TRANSFER_TIMEOUT_SECONDS <= u64::MAX,
        old(state).next_correlation_id + survey_ids@.len() <= u64::MAX,
    ensures
        final(state)@.wf(),
        ({
            let outcome = spec_pay_rewards(
                old(state)@,
                *block,
                signature@,
                token@,
                time_to_expire,
                survey_ids@.map_values(|s: String| s@),
                participants@.map_values(|s: String| s@),
                manager_pub_key@,
            );
            match outcome {
                Ok((s2, instrs)) => r matches Ok(v) && v@.map_values(
                    |t: TransferInstruction| t@,
                ) == instrs && final(state)@ == s2,
                Err(e) => r == Err::<Vec<TransferInstruction>, _>(e) && final(state)@ == old(
                    state,
                )@,
            }
        }),
{
    let ghost idsv = survey_ids@.map_values(|s: String| s@);
    let ghost partsv = participants@.map_values(|s: String| s@);
    if survey_ids.len() != participants.len() {
        return Err(ContractError::ArrayLengthMismatch);
    }
    let payload = PayRewardsPayload {
        token: token.clone(),
        time_to_expire,
        survey_id: clone_string_vec(survey_ids),
        participants: clone_string_vec(participants),
    };
    let message_hash = payload.digest();
    proof {
        assert(crate::codec::str_list_view(payload.survey_id@) =~= idsv.map_values(
            |x: Seq<char>| str_bytes(x),
        ));
        assert(crate::codec::str_list_view(payload.participants@) =~= partsv.map_values(
            |x: Seq<char>| str_bytes(x),
        ));
    }
    match auth_check(
        state,
        block,
        token,
        &message_hash,
        manager_pub_key,
        time_to_expire,
        signature,
    ) {
        Err(e) => {
            return Err(e);
        },
        Ok(_) => {},
    }
    let ghost s1 = StateV { used_tokens: old(state)@.used_tokens.push(token@), ..old(state)@ };
    let mut surveys2 = clone_surveys(&state.surveys);
    let mut rewarded2 = clone_rewarded(&state.rewarded);
    let mut new_pending: Vec<PendingTransfer> = Vec::new();
    let mut instrs: Vec<TransferInstruction> = Vec::new();
    let mut cid = state.next_correlation_id;
    let n = survey_ids.len();
    proof {
        assert(idsv.skip(0) =~= idsv);
        assert(partsv.skip(0) =~= partsv);
        assert(pay_cursor(
            s1,
            crate::state::surveys_view(surveys2@),
            crate::state::rewarded_view(rewarded2@),
            new_pending@.map_values(|p: PendingTransfer| p@),
            cid,
        ) =~= s1);
        assert(instrs@.map_values(|t: TransferInstruction| t@) =~= Seq::<
            TransferInstructionV,
        >::empty());
    }
    for i in 0..n
        invariant
            n == survey_ids@.len(),
            n == participants@.len(),
            idsv == survey_ids@.map_values(|s: String| s@),
            partsv == participants@.map_values(|s: String| s@),
            s1 == (StateV { used_tokens: old(state)@.used_tokens.push(token@), ..old(state)@ }),
            spec_pay_rewards(
                old(state)@,
                *block,
                signature@,
                token@,
                time_to_expire,
                idsv,
                partsv,
                manager_pub_key@,
            ) == spec_pay_pairs(s1, *block, idsv, partsv),
            *state == *old(state),
            old(state)@.wf(),
            cid == old(state).next_correlation_id + i,
            cid + (n - i) <= u64::MAX,
            block.time + crate::helpers::TRANSFER_TIMEOUT_SECONDS <= u64::MAX,
            instrs@.len() == i,
            crate::state::distinct_survey_keys(crate::state::surveys_view(surveys2@)),
            forall|j: int|
                0 <= j < surveys2@.len() ==> survey_wf(
                    #[trigger] crate::state::surveys_view(surveys2@)[j].1,
                ),
            spec_pay_pairs(s1, *block, idsv, partsv) == (match spec_pay_pairs(
                pay_cursor(
                    s1,
                    crate::state::surveys_view(surveys2@),
                    crate::state::rewarded_view(rewarded2@),
                    new_pending@.map_values(|p: PendingTransfer| p@),
                    cid,
                ),
                *block,
                idsv.skip(i as int),
                partsv.skip(i as int),
            ) {
                Ok((s3, rest)) => Ok::<_, ContractError>(
                    (s3, instrs@.map_values(|t: TransferInstruction| t@) + rest),
                ),
                Err(e) => Err(e),
            }),
    {
        let ghost cur = pay_cursor(
            s1,
            crate::state::surveys_view(surveys2@),
            crate::state::rewarded_view(rewarded2@),
            new_pending@.map_values(|p: PendingTransfer| p@),
            cid,
        );
        proof {
            assert(idsv.skip(i as int)[0] == idsv[i as int]);
            assert(partsv.skip(i as int)[0] == partsv[i as int]);
            assert(idsv.skip(i as int).drop_first() =~= idsv.skip(i as int + 1));
            assert(partsv.skip(i as int).drop_first() =~= partsv.skip(i as int + 1));
        }
        match validate_account(&state.config.receiver_prefix, &participants[i]) {
            Err(e) => {
                return Err(e);
            },
            Ok(_) => {},
        }
        if crate::state::pair_is_rewarded(&rewarded2, &survey_ids[i], &participants[i]) {
            return Err(ContractError::UserAlreadyRewarded);
        }
        let j = match crate::state::find_survey(&surveys2, &survey_ids[i]) {
            None => {
                return Err(ContractError::SurveyNotFound);
            },
            Some(j) => j,
        };
        let ghost siv = crate::state::surveys_view(surveys2@)[j as int].1;
        if surveys2[j].1.is_cancelled {
            return Err(ContractError::SurveyAlreadyCancelled);
        }
        if surveys2[j].1.participants_rewarded >= surveys2[j].1.participants_limit {
            return Err(ContractError::AllParticipantsRewarded);
        }
        let reward = surveys2[j].1.reward_per_user;
        let instr = TransferInstruction {
            channel_id: state.config.channel_id.clone(),
            to_address: participants[i].clone(),
            amount: reward,
            denom: state.config.reward_denom.clone(),
            timeout_timestamp: block.time + crate::helpers::TRANSFER_TIMEOUT_SECONDS,
            correlation_id: cid,
        };
        let ghost pre_surveys = crate::state::surveys_view(surveys2@);
        let ghost pre_rewarded = crate::state::rewarded_view(rewarded2@);
        let ghost pre_pending = new_pending@.map_values(|p: PendingTransfer| p@);
        let ghost pre_instrs = instrs@.map_values(|t: TransferInstruction| t@);
        let key = surveys2[j].0.clone();
        let new_info = SurveyInfo {
            survey_creator: surveys2[j].1.survey_creator.clone(),
            participants_limit: surveys2[j].1.participants_limit,
            reward_per_user: reward,
            participants_rewarded: surveys2[j].1.participants_rewarded + 1,
            survey_hash: clone_bytes(&surveys2[j].1.survey_hash),
            is_cancelled: false,
        };
        let ghost niv = new_info@;
        surveys2[j] = (key, new_info);
        rewarded2.push((survey_ids[i].clone(), participants[i].clone()));
        new_pending.push(
            PendingTransfer {
                correlation_id: cid,
                recovery_addr: participants[i].clone(),
                amount: reward,
                denom: state.config.reward_denom.clone(),
            },
        );
        let ghost instrv = instr@;
        instrs.push(instr);
        cid = cid + 1;
        proof {
            assert(crate::state::surveys_view(surveys2@) =~= pre_surveys.update(
                j as int,
                (idsv[i as int], niv),
            ));
            lemma_set_survey_at_index(pre_surveys, j as int, niv);
            crate::state::lemma_survey_update(pre_surveys, j as int, niv, idsv[i as int]);
            assert(niv =~= SurveyInfoV {
                participants_rewarded: (siv.participants_rewarded + 1) as u32,
                ..siv
            });
            assert(crate::state::rewarded_view(rewarded2@) =~= pre_rewarded.push(
                (idsv[i as int], partsv[i as int]),
            ));
            assert(new_pending@.map_values(|p: PendingTransfer| p@) =~= pre_pending.push(
                PendingTransferV {
                    correlation_id: cur.next_correlation_id,
                    recovery_addr: partsv[i as int],
                    amount: siv.reward_per_user,
                    denom: cur.config.reward_denom,
                },
            ));
            assert(instrs@.map_values(|t: TransferInstruction| t@) =~= pre_instrs.push(instrv));
            let stepped = spec_pay_one(cur, *block, idsv[i as int], partsv[i as int]);
            assert(stepped is Ok);
            let cur2 = pay_cursor(
                s1,
                crate::state::surveys_view(surveys2@),
                crate::state::rewarded_view(rewarded2@),
                new_pending@.map_values(|p: PendingTransfer| p@),
                cid,
            );
            assert(s1.pending + pre_pending.push(
                PendingTransferV {
                    correlation_id: cur.next_correlation_id,
                    recovery_addr: partsv[i as int],
                    amount: siv.reward_per_user,
                    denom: cur.config.reward_denom,
                },
            ) =~= (s1.pending + pre_pending).push(
                PendingTransferV {
                    correlation_id: cur.next_correlation_id,
                    recovery_addr: partsv[i as int],
                    amount: siv.reward_per_user,
                    denom: cur.config.reward_denom,
                },
            ));
            assert(cur2 =~= stepped.unwrap().0);
            assert(instrv =~= stepped.unwrap().1);
            match spec_pay_pairs(cur2, *block, idsv.skip(i as int + 1), partsv.skip(i as int + 1)) {
                Ok((s3, rest)) => {
                    assert(pre_instrs + (seq![instrv] + rest) =~= pre_instrs.push(instrv) + rest);
                },
                Err(_) => {},
            }
            assert forall|j2: int| 0 <= j2 < surveys2@.len() implies survey_wf(
                #[trigger] crate::state::surveys_view(surveys2@)[j2].1,
            ) by {
                if j2 != j as int {
                    assert(crate::state::surveys_view(surveys2@)[j2] == pre_surveys[j2]);
                }
            }
        }
    }
    let ghost cur = pay_cursor(
        s1,
        crate::state::surveys_view(surveys2@),
        crate::state::rewarded_view(rewarded2@),
        new_pending@.map_values(|p: PendingTransfer| p@),
        cid,
    );
    proof {
        assert(idsv.skip(n as int) =~= Seq::<Seq<char>>::empty());
        assert(partsv.skip(n as int) =~= Seq::<Seq<char>>::empty());
        assert(instrs@.map_values(|t: TransferInstruction| t@) + Seq::<
            TransferInstructionV,
        >::empty() =~= instrs@.map_values(|t: TransferInstruction| t@));
        assert(spec_pay_pairs(s1, *block, idsv, partsv) == Ok::<_, ContractError>(
            (cur, instrs@.map_values(|t: TransferInstruction| t@)),
        ));
    }
    state.surveys = surveys2;
    state.rewarded = rewarded2;
    state.pending.append(&mut new_pending);
    state.next_correlation_id = cid;
    state.used_tokens.push(token.clone());
    proof {
        assert(state@.used_tokens =~= s1.used_tokens);
        assert(state@ =~= cur);
    }
    Ok(instrs)
}

/// Law: a successful creation escrows exactly cap times per-user
/// reward, plus the side-payment.  The recorded survey starts with zero
/// rewards issued and reports exactly the requested cap and per-user
/// amount — so the amount to fund reads cap times per-user — the
/// side-payment goes to the gas station in the reward currency, and the
/// attached amount was checked to cover escrow plus side-payment.
pub proof fn lemma_create_survey_escrow(
    s: StateV,
    block: BlockInfo,
    funds: Seq<crate::state::CoinV>,
    signature: Seq<u8>,
    token: Seq<char>,
    time_to_expire: Expiration,
    owner: Seq<char>,
    survey_id: Seq<char>,
    participants_limit: u32,
    reward_per_user: u128,
    survey_hash: Seq<u8>,
    amount_to_gas_station: u128,
    manager_pub_key: Seq<u8>,
)
    requires
        spec_create_survey(
            s,
            block,
            funds,
            signature,
            token,
            time_to_expire,
            owner,
            survey_id,
            participants_limit,
            reward_per_user,
            survey_hash,
            amount_to_gas_station,
            manager_pub_key,
        ) is Ok,
    ensures
        ({
            let (s2, msg) = spec_create_survey(
                s,
                block,
                funds,
                signature,
                token,
                time_to_expire,
                owner,
                survey_id,
                participants_limit,
                reward_per_user,
                survey_hash,
                amount_to_gas_station,
                manager_pub_key,
            ).unwrap();
            &&& get_survey_v(s2.surveys, survey_id) matches Some(si)
                && si.participants_limit == participants_limit && si.reward_per_user
                == reward_per_user && si.participants_rewarded == 0 && !si.is_cancelled
            &&& msg == (BankTransferV {
                to_address: s.config.gas_station,
                amount: amount_to_gas_station,
                denom: s.config.reward_denom,
            })
            &&& spec_must_pay(funds, s.config.reward_denom) matches Ok(amount_sent)
                && amount_sent >= participants_limit * reward_per_user + amount_to_gas_station
        }),
{
    let nv = SurveyInfoV {
        survey_creator: owner,
        participants_limit,
        reward_per_user,
        participants_rewarded: 0,
        survey_hash,
        is_cancelled: false,
    };
    lemma_survey_push(s.surveys, survey_id, nv, survey_id);
}

/// Law: a survey identifier is globally unique.  After a successful
/// creation, a second creation under the same identifier — whatever its
/// other parameters, funds or proof — fails with SurveyAlreadyExists.
pub proof fn lemma_create_survey_unique_id(
    s: StateV,
    block: BlockInfo,
    funds: Seq<crate::state::CoinV>,
    signature: Seq<u8>,
    token: Seq<char>,
    time_to_expire: Expiration,
    owner: Seq<char>,
    survey_id: Seq<char>,
    participants_limit: u32,
    reward_per_user: u128,
    survey_hash: Seq<u8>,
    amount_to_gas_station: u128,
    manager_pub_key: Seq<u8>,
    block2: BlockInfo,
    funds2: Seq<crate::state::CoinV>,
    signature2: Seq<u8>,
    token2: Seq<char>,
    time_to_expire2: Expiration,
    owner2: Seq<char>,
    participants_limit2: u32,
    reward_per_user2: u128,
    survey_hash2: Seq<u8>,
    amount_to_gas_station2: u128,
    manager_pub_key2: Seq<u8>,
)
    requires
        spec_create_survey(
            s,
            block,
            funds,
            signature,
            token,
            time_to_expire,
            owner,
            survey_id,
            participants_limit,
            reward_per_user,
            survey_hash,
            amount_to_gas_station,
            manager_pub_key,
        ) is Ok,
    ensures
        ({
            let (s2, _) = spec_create_survey(
                s,
                block,
                funds,
                signature,
                token,
                time_to_expire,
                owner,
                survey_id,
                participants_limit,
                reward_per_user,
                survey_hash,
                amount_to_gas_station,
                manager_pub_key,
            ).unwrap();
            spec_create_survey(
                s2,
                block2,
                funds2,
                signature2,
                token2,
                time_to_expire2,
                owner2,
                survey_id,
                participants_limit2,
                reward_per_user2,
                survey_hash2,
                amount_to_gas_station2,
                manager_pub_key2,
            ) == Err::<(StateV, BankTransferV), _>(ContractError::SurveyAlreadyExists)
        }),
{
    let nv = SurveyInfoV {
        survey_creator: owner,
        participants_limit,
        reward_per_user,
        participants_rewarded: 0,
        survey_hash,
        is_cancelled: false,
    };
    lemma_survey_push(s.surveys, survey_id, nv, survey_id);
}

/// Law: a batch that succeeds never credits a pair that was already
/// rewarded, and never holds the same (survey, participant) pair twice.
pub proof fn lemma_pay_pairs_no_double_reward(
    s: StateV,
    block: BlockInfo,
    ids: Seq<Seq<char>>,
    parts: Seq<Seq<char>>,
)
    requires
        ids.len() == parts.len(),
        spec_pay_pairs(s, block, ids, parts) is Ok,
    ensures
        forall|i: int| 0 <= i < ids.len() ==> !pair_rewarded(s.rewarded, ids[i], parts[i]),
        forall|i: int, j: int|
            0 <= i < j < ids.len() ==> !(ids[i] == ids[j] && parts[i] == parts[j]),
    decreases ids.len(),
{
    if ids.len() > 0 {
        let step = spec_pay_one(s, block, ids[0], parts[0]);
        let s2 = step.unwrap().0;
        lemma_pay_pairs_no_double_reward(s2, block, ids.drop_first(), parts.drop_first());
        assert(s2.rewarded == s.rewarded.push((ids[0], parts[0])));
        assert forall|i: int|
            0 <= i < ids.len() implies !pair_rewarded(s.rewarded, ids[i], parts[i]) by {
            if i > 0 {
                assert(ids.drop_first()[i - 1] == ids[i]);
                assert(parts.drop_first()[i - 1] == parts[i]);
                assert(!pair_rewarded(s2.rewarded, ids[i], parts[i]));
                if pair_rewarded(s.rewarded, ids[i], parts[i]) {
                    let k = choose|k: int|
                        0 <= k < s.rewarded.len() && s.rewarded[k] == (ids[i], parts[i]);
                    assert(s2.rewarded[k] == (ids[i], parts[i]));
                    assert(pair_rewarded(s2.rewarded, ids[i], parts[i]));
                }
            }
        }
        assert forall|i: int, j: int|
            0 <= i < j < ids.len() implies !(ids[i] == ids[j] && parts[i] == parts[j]) by {
            if i == 0 {
                assert(s2.rewarded[s.rewarded.len() as int] == (ids[0], parts[0]));
                assert(pair_rewarded(s2.rewarded, ids[0], parts[0]));
                assert(ids.drop_first()[j - 1] == ids[j]);
                assert(parts.drop_first()[j - 1] == parts[j]);
                assert(!pair_rewarded(s2.rewarded, ids[j], parts[j]));
            } else {
                assert(ids.drop_first()[i - 1] == ids[i]);
                assert(parts.drop_first()[i - 1] == parts[i]);
                assert(ids.drop_first()[j - 1] == ids[j]);
                assert(parts.drop_first()[j - 1] == parts[j]);
            }
        }
    }
}

/// After a successful batch every processed pair is marked rewarded,
/// marks are never lost, the configuration is untouched, and each
/// participant's account was validated.
pub proof fn lemma_pay_pairs_marks_rewarded(
    s: StateV,
    block: BlockInfo,
    ids: Seq<Seq<char>>,
    parts: Seq<Seq<char>>,
)
    requires
        ids.len() == parts.len(),
        spec_pay_pairs(s, block, ids, parts) is Ok,
    ensures
        ({
            let s2 = spec_pay_pairs(s, block, ids, parts).unwrap().0;
            &&& s2.config == s.config
            &&& forall|i: int|
                0 <= i < ids.len() ==> pair_rewarded(s2.rewarded, ids[i], parts[i])
            &&& forall|a: Seq<char>, b: Seq<char>|
                pair_rewarded(s.rewarded, a, b) ==> pair_rewarded(s2.rewarded, a, b)
            &&& forall|i: int|
                0 <= i < ids.len() ==> crate::helpers::spec_validate_account(
                    s.config.receiver_prefix,
                    parts[i],
                ) is Ok
        }),
    decreases ids.len(),
{
    if ids.len() > 0 {
        let step = spec_pay_one(s, block, ids[0], parts[0]);
        let sm = step.unwrap().0;
        let s2 = spec_pay_pairs(s, block, ids, parts).unwrap().0;
        lemma_pay_pairs_marks_rewarded(sm, block, ids.drop_first(), parts.drop_first());
        assert(sm.rewarded == s.rewarded.push((ids[0], parts[0])));
        assert forall|a: Seq<char>, b: Seq<char>|
            pair_rewarded(s.rewarded, a, b) implies pair_rewarded(sm.rewarded, a, b) by {
            if pair_rewarded(s.rewarded, a, b) {
                let k = choose|k: int| 0 <= k < s.rewarded.len() && s.rewarded[k] == (a, b);
                assert(sm.rewarded[k] == (a, b));
            }
        }
        assert(sm.rewarded[s.rewarded.len() as int] == (ids[0], parts[0]));
        assert(pair_rewarded(sm.rewarded, ids[0], parts[0]));
        assert forall|i: int|
            0 <= i < ids.len() implies pair_rewarded(s2.rewarded, ids[i], parts[i]) by {
            if i > 0 {
                assert(ids.drop_first()[i - 1] == ids[i]);
                assert(parts.drop_first()[i - 1] == parts[i]);
            }
        }
        assert forall|i: int|
            0 <= i < ids.len() implies crate::helpers::spec_validate_account(
            s.config.receiver_prefix,
            parts[i],
        ) is Ok by {
            if i > 0 {
                assert(parts.drop_first()[i - 1] == parts[i]);
                assert(sm.config == s.config);
            }
        }
    }
}

/// Law: no participant is credited twice for the same survey.  After a
/// successful batch, re-issuing any one of its (survey, participant)
/// pairs — at any later block — fails with UserAlreadyRewarded.
pub proof fn lemma_pay_pair_replay_rejected(
    s: StateV,
    block: BlockInfo,
    ids: Seq<Seq<char>>,
    parts: Seq<Seq<char>>,
    k: int,
    block2: BlockInfo,
)
    requires
        ids.len() == parts.len(),
        spec_pay_pairs(s, block, ids, parts) is Ok,
        0 <= k < ids.len(),
    ensures
        ({
            let s2 = spec_pay_pairs(s, block, ids, parts).unwrap().0;
            spec_pay_one(s2, block2, ids[k], parts[k]) == Err::<
                (StateV, TransferInstructionV),
                _,
            >(ContractError::UserAlreadyRewarded)
        }),
{
    lemma_pay_pairs_marks_rewarded(s, block, ids, parts);
}

/// How the manager registry changes: only the owner may write; the
/// address must validate; an existing record gets the new key and
/// status, a missing one is appended with them.
pub open spec fn spec_set_manager(
    s: StateV,
    sender: Seq<char>,
    manager_addr: Seq<char>,
    pub_key: Seq<u8>,
    status: bool,
) -> Result<StateV, ContractError> {
    if sender != s.config.owner {
        Err(ContractError::Unauthorized)
    } else {
        match spec_validate_account(s.config.receiver_prefix, manager_addr) {
            Err(e) => Err(e),
            Ok(_) => {
                if get_manager_v(s.managers, manager_addr) is Some {
                    Ok(
                        StateV {
                            managers: set_manager_v(s.managers, manager_addr, pub_key, status),
                            ..s
                        },
                    )
                } else {
                    Ok(
                        StateV {
                            managers: s.managers.push(
                                ManagerInfoV { address: manager_addr, pub_key, status },
                            ),
                            ..s
                        },
                    )
                }
            },
        }
    }
}

/// Registers a manager or rewrites an existing one's key and status.
pub fn set_manager(
    state: &mut ContractState,
    sender: &String,
    manager_addr: &String,
    pub_key: &Vec<u8>,
    status: bool,
) -> (r: Result<(), ContractError>)
    requires
        old(state)@.wf(),
    ensures
        final(state)@.wf(),
        ({
            let outcome = spec_set_manager(old(state)@, sender@, manager_addr@, pub_key@, status);
            match outcome {
                Ok(s2) => r is Ok && final(state)@ == s2,
                Err(e) => r == Err::<(), _>(e) && final(state)@ == old(state)@,
            }
        }),
{
    match check_is_contract_owner(state, sender) {
        Err(e) => {
            return Err(e);
        },
        Ok(_) => {},
    }
    let validated_addr = match validate_account(&state.config.receiver_prefix, manager_addr) {
        Err(e) => {
            return Err(e);
        },
        Ok((_, a)) => a,
    };
    let ghost pre = state@;
    match crate::state::find_manager(&state.managers, manager_addr) {
        Some(i) => {
            let nm = ManagerInfo {
                address: validated_addr,
                pub_key: clone_bytes(pub_key),
                status,
            };
            let ghost nmv = nm@;
            state.managers[i] = nm;
            proof {
                assert(state@.managers =~= pre.managers.update(i as int, nmv));
                lemma_set_manager_at_index(pre.managers, i as int, pub_key@, status);
                assert(nmv =~= ManagerInfoV {
                    address: pre.managers[i as int].address,
                    pub_key: pub_key@,
                    status,
                });
                assert(state@ =~= spec_set_manager(
                    pre,
                    sender@,
                    manager_addr@,
                    pub_key@,
                    status,
                ).unwrap());
            }
        },
        None => {
            let nm = ManagerInfo {
                address: validated_addr,
                pub_key: clone_bytes(pub_key),
                status,
            };
            let ghost nmv = nm@;
            state.managers.push(nm);
            proof {
                assert(state@.managers =~= pre.managers.push(nmv));
                assert(state@ =~= spec_set_manager(
                    pre,
                    sender@,
                    manager_addr@,
                    pub_key@,
                    status,
                ).unwrap());
            }
        },
    }
    Ok(())
}

/// How ownership transfers: only the owner may write, and the new owner
/// must validate against the receiver prefix.
pub open spec fn spec_transfer_ownership(
    s: StateV,
    sender: Seq<char>,
    new_owner: Seq<char>,
) -> Result<StateV, ContractError> {
    if sender != s.config.owner {
        Err(ContractError::Unauthorized)
    } else {
        match spec_validate_account(s.config.receiver_prefix, new_owner) {
            Err(e) => Err(e),
            Ok(_) => Ok(StateV { config: ConfigV { owner: new_owner, ..s.config }, ..s }),
        }
    }
}

/// Transfers contract ownership to a validated account.
pub fn transfer_ownership(state: &mut ContractState, sender: &String, new_owner: &String) -> (r:
    Result<(), ContractError>)
    requires
        old(state)@.wf(),
    ensures
        final(state)@.wf(),
        ({
            let outcome = spec_transfer_ownership(old(state)@, sender@, new_owner@);
            match outcome {
                Ok(s2) => r is Ok && final(state)@ == s2,
                Err(e) => r == Err::<(), _>(e) && final(state)@ == old(state)@,
            }
        }),
{
    match check_is_contract_owner(state, sender) {
        Err(e) => {
            return Err(e);
        },
        Ok(_) => {},
    }
    let validated = match validate_account(&state.config.receiver_prefix, new_owner) {
        Err(e) => {
            return Err(e);
        },
        Ok((_, a)) => a,
    };
    state.config.owner = validated;
    proof {
        assert(state@ =~= spec_transfer_ownership(old(state)@, sender@, new_owner@).unwrap());
    }
    Ok(())
}

/// How the gas station account changes: only the owner may write, and
/// the new account must validate against the receiver prefix.
pub open spec fn spec_set_gas_station(
    s: StateV,
    sender: Seq<char>,
    new_gas_station: Seq<char>,
) -> Result<StateV, ContractError> {
    if sender != s.config.owner {
        Err(ContractError::Unauthorized)
    } else {
        match spec_validate_account(s.config.receiver_prefix, new_gas_station) {
            Err(e) => Err(e),
            Ok(_) => Ok(
                StateV { config: ConfigV { gas_station: new_gas_station, ..s.config }, ..s },
            ),
        }
    }
}

/// Points the side-payment at a new validated gas station account.
pub fn set_gas_station(state: &mut ContractState, sender: &String, new_gas_station: &String) -> (r:
    Result<(), ContractError>)
    requires
        old(state)@.wf(),
    ensures
        final(state)@.wf(),
        ({
            let outcome = spec_set_gas_station(old(state)@, sender@, new_gas_station@);
            match outcome {
                Ok(s2) => r is Ok && final(state)@ == s2,
                Err(e) => r == Err::<(), _>(e) && final(state)@ == old(state)@,
            }
        }),
{
    match check_is_contract_owner(state, sender) {
        Err(e) => {
            return Err(e);
        },
        Ok(_) => {},
    }
    let validated = match validate_account(&state.config.receiver_prefix, new_gas_station) {
        Err(e) => {
            return Err(e);
        },
        Ok((_, a)) => a,
    };
    state.config.gas_station = validated;
    proof {
        assert(state@ =~= spec_set_gas_station(old(state)@, sender@, new_gas_station@).unwrap());
    }
    Ok(())
}

} // verus!
