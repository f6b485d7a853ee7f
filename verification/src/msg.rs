//! The request and response shapes of the contract's boundary, over
//! plain values.

use vstd::prelude::*;

use crate::state::Expiration;

verus! {

/// The data instantiation takes.
pub struct InstantiateMsg {
    pub managers: Vec<crate::state::Manager>,
    pub gas_station: String,
    pub reward_denom: String,
    pub receiver_prefix: String,
    pub channel_id: String,
}

/// A write request.
pub enum ExecuteMsg {
    SetManagers { managers: String, pub_key: Vec<u8>, status: bool },
    SetGasStation { gas_station: String },
    TransferOwnership { new_owner: String },
    CreateSurvey {
        signature: Vec<u8>,
        token: String,
        time_to_expire: Expiration,
        owner: String,
        survey_id: String,
        participants_limit: u32,
        reward_per_user: u128,
        survey_hash: Vec<u8>,
        amount_to_gas_station: u128,
        manager_pub_key: Vec<u8>,
    },
    CancelSurvey {
        signature: Vec<u8>,
        token: String,
        time_to_expire: Expiration,
        survey_id: String,
        manager_pub_key: Vec<u8>,
    },
    PayRewards {
        signature: Vec<u8>,
        token: String,
        time_to_expire: Expiration,
        survey_ids: Vec<String>,
        participants: Vec<String>,
        manager_pub_key: Vec<u8>,
    },
}

/// A read request.
pub enum QueryMsg {
    CreateSurveyProof {
        token: String,
        time_to_expire: Expiration,
        owner: String,
        survey_id: String,
        participants_limit: u32,
        reward_per_user: u128,
        survey_hash: Vec<u8>,
        reward_denom: String,
        amount_to_gas_station: u128,
    },
    CancelSurveyProof { token: String, time_to_expire: Expiration, survey_id: String },
    PayRewardsProof {
        token: String,
        time_to_expire: Expiration,
        survey_ids: Vec<String>,
        participants: Vec<String>,
    },
    GetSurvey { survey_id: String },
    GetSurveyAmountToFund { survey_id: String },
    GetSurveyRewardsAmountPaid { survey_id: String },
    GetConfig,
    GetHasClaimedReward { survey_id: String, participant: String },
}

/// A read request's answer, over plain values.
pub enum QueryAnswer {
    /// A canonical digest to sign.
    Proof(Vec<u8>),
    /// One survey's public state.
    Survey(crate::query::SurveyResponse),
    /// A monetary amount.
    Amount(u128),
    /// The stored configuration.
    Config(crate::state::Config),
    /// Whether a participant was already rewarded.
    HasClaimed(bool),
}

/// A cross-chain lifecycle callback, identified by the packet's source
/// channel and sequence number.
pub enum IBCLifecycleComplete {
    IBCAck { channel: String, sequence: u64, ack: String, success: bool },
    IBCTimeout { channel: String, sequence: u64 },
}

/// A host callback routed to the transfer lifecycle.
pub enum SudoMsg {
    IBCLifecycleComplete(IBCLifecycleComplete),
}

pub struct Type1 {
    pub message: String,
}

pub struct Type2 {
    pub data: String,
}

/// The correlation payload attached to a dispatched transfer.
pub enum SudoPayload {
    HandlerPayload1(Type1),
    HandlerPayload2(Type2),
}

/// The data a successful creation reports back.
pub struct CreateSurveyResponse {
    pub survey_id: String,
    pub participants_limit: u32,
    pub reward_amount: u128,
    pub reward_denom: String,
    pub timestamp: u64,
}

impl CreateSurveyResponse {
    pub fn new(
        survey_id: &str,
        participants_limit: u32,
        reward_amount: u128,
        reward_denom: &str,
        timestamp: u64,
    ) -> (r: CreateSurveyResponse)
        ensures
            r.survey_id@ == survey_id@,
            r.participants_limit == participants_limit,
            r.reward_amount == reward_amount,
            r.reward_denom@ == reward_denom@,
            r.timestamp == timestamp,
    {
        CreateSurveyResponse {
            survey_id: survey_id.to_owned(),
            participants_limit,
            reward_amount,
            reward_denom: reward_denom.to_owned(),
            timestamp,
        }
    }
}

/// The data a successful cancellation reports back.
pub struct CancelSurveyResponse {
    pub survey_id: String,
    pub amount_refunded: u128,
    pub timestamp: u64,
}

impl CancelSurveyResponse {
    pub fn new(survey_id: &str, amount: u128, timestamp: u64) -> (r: CancelSurveyResponse)
        ensures
            r.survey_id@ == survey_id@,
            r.amount_refunded == amount,
            r.timestamp == timestamp,
    {
        CancelSurveyResponse { survey_id: survey_id.to_owned(), amount_refunded: amount, timestamp }
    }
}

/// The data a successful reward batch reports back.
pub struct PayRewardsResponse {
    pub survey_ids: Vec<String>,
    pub participants: Vec<String>,
    pub total_rewards_paid: u128,
    pub timestamp: u64,
}

impl PayRewardsResponse {
    pub fn new(
        survey_ids: Vec<String>,
        rewards: u128,
        participants: Vec<String>,
        timestamp: u64,
    ) -> (r: PayRewardsResponse)
        ensures
            r.survey_ids == survey_ids,
            r.participants == participants,
            r.total_rewards_paid == rewards,
            r.timestamp == timestamp,
    {
        PayRewardsResponse { survey_ids, total_rewards_paid: rewards, participants, timestamp }
    }
}

} // verus!
