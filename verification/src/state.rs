//! Persisted state of the contract: configuration, the manager registry,
//! the survey ledger, the per-participant reward flags, the consumed proof
//! tokens, and the cross-chain transfer ledgers.
//!
//! Every stored collection is a keyed vector; the mathematical model of a
//! store is a sequence of views, and lookups are recursive first-match
//! spec functions over that sequence.

use vstd::prelude::*;

use crate::ibc::{IBCTransfer, IBCTransferV, PendingTransfer, PendingTransferV};

verus! {

/// A coin attached to a call: currency name and amount.
pub struct Coin {
    pub denom: String,
    pub amount: u128,
}

#[verifier::ext_equal]
pub struct CoinV {
    pub denom: Seq<char>,
    pub amount: u128,
}

impl View for Coin {
    type V = CoinV;

    open spec fn view(&self) -> CoinV {
        CoinV { denom: self.denom@, amount: self.amount }
    }
}

/// A transfer the host's bank module is asked to perform.
pub struct BankTransfer {
    pub to_address: String,
    pub amount: u128,
    pub denom: String,
}

#[verifier::ext_equal]
pub struct BankTransferV {
    pub to_address: Seq<char>,
    pub amount: u128,
    pub denom: Seq<char>,
}

impl View for BankTransfer {
    type V = BankTransferV;

    open spec fn view(&self) -> BankTransferV {
        BankTransferV { to_address: self.to_address@, amount: self.amount, denom: self.denom@ }
    }
}

/// The ledger position a call executes at; expirations are checked
/// against it.
#[derive(Debug, Clone, Copy, PartialEq, Eq, Structural)]
pub struct BlockInfo {
    /// Current block height.
    pub height: u64,
    /// Current block time, in seconds.
    pub time: u64,
}

/// A point after which a proof is no longer accepted.
#[derive(Debug, Clone, Copy, PartialEq, Eq, Structural)]
pub enum Expiration {
    /// Expired once the block height reaches the value.
    AtHeight(u64),
    /// Expired once the block time (seconds) reaches the value.
    AtTime(u64),
    /// Never expires.
    Never,
}

pub open spec fn spec_expired(e: Expiration, block: BlockInfo) -> bool {
    match e {
        Expiration::AtHeight(h) => block.height >= h,
        Expiration::AtTime(t) => block.time >= t,
        Expiration::Never => false,
    }
}

impl Expiration {
    /// Whether the expiration has elapsed at the given block.
    pub fn is_expired(&self, block: &BlockInfo) -> (r: bool)
        ensures
            r == spec_expired(*self, *block),
    {
        match self {
            Expiration::AtHeight(h) => block.height >= *h,
            Expiration::AtTime(t) => block.time >= *t,
            Expiration::Never => false,
        }
    }
}

/// A manager declaration handed to instantiation: address and public key.
pub struct Manager {
    pub addr: String,
    pub pub_key: Vec<u8>,
}

#[verifier::ext_equal]
pub struct ManagerV {
    pub addr: Seq<char>,
    pub pub_key: Seq<u8>,
}

impl View for Manager {
    type V = ManagerV;

    open spec fn view(&self) -> ManagerV {
        ManagerV { addr: self.addr@, pub_key: self.pub_key@ }
    }
}

/// A registered manager: its signature authorizes actions while `status`
/// is true.
pub struct ManagerInfo {
    pub address: String,
    pub pub_key: Vec<u8>,
    pub status: bool,
}

#[verifier::ext_equal]
pub struct ManagerInfoV {
    pub address: Seq<char>,
    pub pub_key: Seq<u8>,
    pub status: bool,
}

impl View for ManagerInfo {
    type V = ManagerInfoV;

    open spec fn view(&self) -> ManagerInfoV {
        ManagerInfoV { address: self.address@, pub_key: self.pub_key@, status: self.status }
    }
}

/// Contract configuration, mutated only by ownership-gated operations.
pub struct Config {
    /// The only account allowed to run ownership-gated operations.
    pub owner: String,
    /// Receiver of the fixed side-payment attached to survey creation.
    pub gas_station: String,
    /// Currency every escrow and reward is denominated in.
    pub reward_denom: String,
    /// Required account prefix of every validated address.
    pub receiver_prefix: String,
    /// Channel outbound cross-chain transfers are sent on.
    pub channel_id: String,
}

#[verifier::ext_equal]
pub struct ConfigV {
    pub owner: Seq<char>,
    pub gas_station: Seq<char>,
    pub reward_denom: Seq<char>,
    pub receiver_prefix: Seq<char>,
    pub channel_id: Seq<char>,
}

impl Config {
    /// A field-for-field copy of the configuration.
    pub fn dup(&self) -> (r: Config)
        ensures
            r@ == self@,
    {
        Config {
            owner: self.owner.clone(),
            gas_station: self.gas_station.clone(),
            reward_denom: self.reward_denom.clone(),
            receiver_prefix: self.receiver_prefix.clone(),
            channel_id: self.channel_id.clone(),
        }
    }
}

impl View for Config {
    type V = ConfigV;

    open spec fn view(&self) -> ConfigV {
        ConfigV {
            owner: self.owner@,
            gas_station: self.gas_station@,
            reward_denom: self.reward_denom@,
            receiver_prefix: self.receiver_prefix@,
            channel_id: self.channel_id@,
        }
    }
}

/// One survey campaign's ledger record.
pub struct SurveyInfo {
    pub survey_creator: String,
    pub participants_limit: u32,
    pub reward_per_user: u128,
    pub participants_rewarded: u32,
    pub survey_hash: Vec<u8>,
    pub is_cancelled: bool,
}

#[verifier::ext_equal]
pub struct SurveyInfoV {
    pub survey_creator: Seq<char>,
    pub participants_limit: u32,
    pub reward_per_user: u128,
    pub participants_rewarded: u32,
    pub survey_hash: Seq<u8>,
    pub is_cancelled: bool,
}

impl SurveyInfo {
    /// A field-for-field copy of the record.
    pub fn dup(&self) -> (r: SurveyInfo)
        ensures
            r@ == self@,
    {
        SurveyInfo {
            survey_creator: self.survey_creator.clone(),
            participants_limit: self.participants_limit,
            reward_per_user: self.reward_per_user,
            participants_rewarded: self.participants_rewarded,
            survey_hash: crate::helpers::clone_bytes(&self.survey_hash),
            is_cancelled: self.is_cancelled,
        }
    }
}

impl View for SurveyInfo {
    type V = SurveyInfoV;

    open spec fn view(&self) -> SurveyInfoV {
        SurveyInfoV {
            survey_creator: self.survey_creator@,
            participants_limit: self.participants_limit,
            reward_per_user: self.reward_per_user,
            participants_rewarded: self.participants_rewarded,
            survey_hash: self.survey_hash@,
            is_cancelled: self.is_cancelled,
        }
    }
}

/// The whole persisted state, as one value.  The host serializes calls,
/// so a single value threaded through each action models the store.
pub struct ContractState {
    pub config: Config,
    /// Manager registry; lookups take the first record per address.
    pub managers: Vec<ManagerInfo>,
    /// Survey ledger, keyed by survey identifier (keys are unique).
    pub surveys: Vec<(String, SurveyInfo)>,
    /// Set of (survey id, participant) pairs already rewarded.
    pub rewarded: Vec<(String, String)>,
    /// Set of consumed single-use proof tokens.
    pub used_tokens: Vec<String>,
    /// Dispatched transfers whose host-assigned sequence number is not
    /// known yet, keyed by a locally generated correlation id.
    pub pending: Vec<PendingTransfer>,
    /// Next free correlation id.
    pub next_correlation_id: u64,
    /// In-flight transfers, keyed by (channel, sequence); keys are unique.
    pub inflight: Vec<IBCTransfer>,
    /// Append-only ledger of failed or timed-out transfers awaiting
    /// manual reclaim.
    pub recovery: Vec<IBCTransfer>,
}

#[verifier::ext_equal]
pub struct StateV {
    pub config: ConfigV,
    pub managers: Seq<ManagerInfoV>,
    pub surveys: Seq<(Seq<char>, SurveyInfoV)>,
    pub rewarded: Seq<(Seq<char>, Seq<char>)>,
    pub used_tokens: Seq<Seq<char>>,
    pub pending: Seq<PendingTransferV>,
    pub next_correlation_id: u64,
    pub inflight: Seq<IBCTransferV>,
    pub recovery: Seq<IBCTransferV>,
}

pub open spec fn surveys_view(v: Seq<(String, SurveyInfo)>) -> Seq<(Seq<char>, SurveyInfoV)> {
    v.map_values(|p: (String, SurveyInfo)| (p.0@, p.1@))
}

pub open spec fn rewarded_view(v: Seq<(String, String)>) -> Seq<(Seq<char>, Seq<char>)> {
    v.map_values(|p: (String, String)| (p.0@, p.1@))
}

impl View for ContractState {
    type V = StateV;

    open spec fn view(&self) -> StateV {
        StateV {
            config: self.config@,
            managers: self.managers@.map_values(|m: ManagerInfo| m@),
            surveys: surveys_view(self.surveys@),
            rewarded: rewarded_view(self.rewarded@),
            used_tokens: self.used_tokens@.map_values(|t: String| t@),
            pending: self.pending@.map_values(|p: PendingTransfer| p@),
            next_correlation_id: self.next_correlation_id,
            inflight: self.inflight@.map_values(|t: IBCTransfer| t@),
            recovery: self.recovery@.map_values(|t: IBCTransfer| t@),
        }
    }
}

// ---------------------------------------------------------------------
// Lookups over the modelled stores.
// ---------------------------------------------------------------------

/// First survey record stored under `id`.
pub open spec fn get_survey_v(s: Seq<(Seq<char>, SurveyInfoV)>, id: Seq<char>) -> Option<
    SurveyInfoV,
>
    decreases s.len(),
{
    if s.len() == 0 {
        None
    } else if s[0].0 == id {
        Some(s[0].1)
    } else {
        get_survey_v(s.drop_first(), id)
    }
}

/// First manager record stored under `addr`.
pub open spec fn get_manager_v(ms: Seq<ManagerInfoV>, addr: Seq<char>) -> Option<ManagerInfoV>
    decreases ms.len(),
{
    if ms.len() == 0 {
        None
    } else if ms[0].address == addr {
        Some(ms[0])
    } else {
        get_manager_v(ms.drop_first(), addr)
    }
}

/// Whether some active manager registered the public key.
pub open spec fn manager_key_active(ms: Seq<ManagerInfoV>, pk: Seq<u8>) -> bool {
    exists|i: int| 0 <= i < ms.len() && ms[i].pub_key == pk && ms[i].status
}

/// Whether the token was consumed by an earlier proof.
pub open spec fn token_used(ts: Seq<Seq<char>>, t: Seq<char>) -> bool {
    ts.contains(t)
}

/// Whether the participant was already rewarded for the survey.
pub open spec fn pair_rewarded(rs: Seq<(Seq<char>, Seq<char>)>, id: Seq<char>, p: Seq<char>) -> bool {
    rs.contains((id, p))
}

pub open spec fn distinct_survey_keys(s: Seq<(Seq<char>, SurveyInfoV)>) -> bool {
    forall|i: int, j: int| 0 <= i < j < s.len() ==> s[i].0 != s[j].0
}

/// A stored survey never over-rewards and its full escrow fits in the
/// 128-bit amount space.
pub open spec fn survey_wf(s: SurveyInfoV) -> bool {
    &&& s.participants_rewarded <= s.participants_limit
    &&& s.participants_limit * s.reward_per_user <= u128::MAX
}

impl StateV {
    /// Well-formedness of the whole state: survey keys are unique, every
    /// survey record is internally consistent, and in-flight transfer
    /// keys are unique.
    pub open spec fn wf(self) -> bool {
        &&& distinct_survey_keys(self.surveys)
        &&& forall|i: int|
            0 <= i < self.surveys.len() ==> survey_wf(#[trigger] self.surveys[i].1)
        &&& crate::ibc::distinct_transfer_keys(self.inflight)
    }
}

// ---------------------------------------------------------------------
// Facts about the recursive lookups.
// ---------------------------------------------------------------------

/// Appending a record under a fresh key leaves every other lookup
/// unchanged and makes the new key resolve to the new record.
pub proof fn lemma_survey_push(
    s: Seq<(Seq<char>, SurveyInfoV)>,
    id: Seq<char>,
    nv: SurveyInfoV,
    k: Seq<char>,
)
    requires
        get_survey_v(s, id) is None,
    ensures
        get_survey_v(s.push((id, nv)), k) == if k == id {
            Some(nv)
        } else {
            get_survey_v(s, k)
        },
    decreases s.len(),
{
    if s.len() == 0 {
        assert(s.push((id, nv)).drop_first() =~= s);
    } else {
        assert(s.push((id, nv)).drop_first() =~= s.drop_first().push((id, nv)));
        lemma_survey_push(s.drop_first(), id, nv, k);
    }
}

/// A fresh key keeps the keys distinct.
pub proof fn lemma_survey_push_distinct(
    s: Seq<(Seq<char>, SurveyInfoV)>,
    id: Seq<char>,
    nv: SurveyInfoV,
)
    requires
        distinct_survey_keys(s),
        get_survey_v(s, id) is None,
    ensures
        distinct_survey_keys(s.push((id, nv))),
{
    lemma_survey_get_all_keys(s, id);
}

/// A key that no record holds is one every recursive lookup misses.
pub proof fn lemma_survey_get_all_keys(s: Seq<(Seq<char>, SurveyInfoV)>, k: Seq<char>)
    ensures
        (get_survey_v(s, k) is None) <==> (forall|i: int| 0 <= i < s.len() ==> s[i].0 != k),
    decreases s.len(),
{
    if s.len() > 0 {
        lemma_survey_get_all_keys(s.drop_first(), k);
        assert forall|i: int| 1 <= i < s.len() implies s.drop_first()[i - 1] == s[i] by {}
    }
}

/// Replacing the record at the index holding `s[i].0` rewrites that
/// key's lookup and no other, when keys are distinct.
pub proof fn lemma_survey_update(
    s: Seq<(Seq<char>, SurveyInfoV)>,
    i: int,
    nv: SurveyInfoV,
    k: Seq<char>,
)
    requires
        0 <= i < s.len(),
        distinct_survey_keys(s),
    ensures
        get_survey_v(s.update(i, (s[i].0, nv)), k) == if k == s[i].0 {
            Some(nv)
        } else {
            get_survey_v(s, k)
        },
        distinct_survey_keys(s.update(i, (s[i].0, nv))),
    decreases s.len(),
{
    let s2 = s.update(i, (s[i].0, nv));
    if i == 0 {
        assert(s2.drop_first() =~= s.drop_first());
        if s[0].0 != k {
            lemma_survey_get_all_keys(s.drop_first(), k);
        }
    } else {
        assert(s2.drop_first() =~= s.drop_first().update(i - 1, (s.drop_first()[i - 1].0, nv)));
        lemma_survey_update(s.drop_first(), i - 1, nv, k);
    }
}

/// The store with the first record under `id` replaced by `nv`; the
/// store unchanged when the key is absent.
pub open spec fn set_survey_v(
    s: Seq<(Seq<char>, SurveyInfoV)>,
    id: Seq<char>,
    nv: SurveyInfoV,
) -> Seq<(Seq<char>, SurveyInfoV)>
    decreases s.len(),
{
    if s.len() == 0 {
        s
    } else if s[0].0 == id {
        seq![(id, nv)] + s.drop_first()
    } else {
        seq![s[0]] + set_survey_v(s.drop_first(), id, nv)
    }
}

/// Replacing a key's record is an update at its first index.
pub proof fn lemma_set_survey_at_index(
    s: Seq<(Seq<char>, SurveyInfoV)>,
    i: int,
    nv: SurveyInfoV,
)
    requires
        0 <= i < s.len(),
        forall|j: int| 0 <= j < i ==> s[j].0 != s[i].0,
    ensures
        set_survey_v(s, s[i].0, nv) == s.update(i, (s[i].0, nv)),
    decreases s.len(),
{
    if i == 0 {
        assert(set_survey_v(s, s[0].0, nv) =~= s.update(0, (s[0].0, nv)));
    } else {
        lemma_set_survey_at_index(s.drop_first(), i - 1, nv);
        assert(s.drop_first()[i - 1] == s[i]);
        assert(set_survey_v(s, s[i].0, nv) =~= s.update(i, (s[i].0, nv)));
    }
}

/// The manager registry with the first record under `addr` given the
/// new key and status; the registry unchanged when the address is
/// absent.
pub open spec fn set_manager_v(
    ms: Seq<ManagerInfoV>,
    addr: Seq<char>,
    pk: Seq<u8>,
    status: bool,
) -> Seq<ManagerInfoV>
    decreases ms.len(),
{
    if ms.len() == 0 {
        ms
    } else if ms[0].address == addr {
        seq![ManagerInfoV { address: addr, pub_key: pk, status }] + ms.drop_first()
    } else {
        seq![ms[0]] + set_manager_v(ms.drop_first(), addr, pk, status)
    }
}

/// Rewriting a manager's record is an update at its first index.
pub proof fn lemma_set_manager_at_index(ms: Seq<ManagerInfoV>, i: int, pk: Seq<u8>, status: bool)
    requires
        0 <= i < ms.len(),
        forall|j: int| 0 <= j < i ==> ms[j].address != ms[i].address,
    ensures
        set_manager_v(ms, ms[i].address, pk, status) == ms.update(
            i,
            ManagerInfoV { address: ms[i].address, pub_key: pk, status },
        ),
    decreases ms.len(),
{
    if i == 0 {
        assert(set_manager_v(ms, ms[0].address, pk, status) =~= ms.update(
            0,
            ManagerInfoV { address: ms[0].address, pub_key: pk, status },
        ));
    } else {
        lemma_set_manager_at_index(ms.drop_first(), i - 1, pk, status);
        assert(ms.drop_first()[i - 1] == ms[i]);
        assert(set_manager_v(ms, ms[i].address, pk, status) =~= ms.update(
            i,
            ManagerInfoV { address: ms[i].address, pub_key: pk, status },
        ));
    }
}

// ---------------------------------------------------------------------
// Executable lookups over the stores.
// ---------------------------------------------------------------------

/// Index of the first survey record stored under `id`.
pub fn find_survey(surveys: &Vec<(String, SurveyInfo)>, id: &String) -> (r: Option<usize>)
    ensures
        match r {
            Some(i) => i < surveys@.len() && surveys@[i as int].0@ == id@ && get_survey_v(
                surveys_view(surveys@),
                id@,
            ) == Some(surveys@[i as int].1@) && forall|j: int|
                0 <= j < i ==> surveys@[j].0@ != id@,
            None => get_survey_v(surveys_view(surveys@), id@) is None,
        },
{
    let ghost sv = surveys_view(surveys@);
    proof {
        assert(sv.skip(0) =~= sv);
    }
    let n = surveys.len();
    for i in 0..n
        invariant
            n == surveys@.len(),
            sv == surveys_view(surveys@),
            get_survey_v(sv, id@) == get_survey_v(sv.skip(i as int), id@),
            forall|j: int| 0 <= j < i ==> surveys@[j].0@ != id@,
    {
        if surveys[i].0 == *id {
            proof {
                assert(sv.skip(i as int)[0] == sv[i as int]);
            }
            return Some(i);
        }
        proof {
            assert(sv.skip(i as int).drop_first() =~= sv.skip(i as int + 1));
            assert(sv.skip(i as int)[0] == sv[i as int]);
        }
    }
    proof {
        assert(sv.skip(n as int) =~= Seq::<(Seq<char>, SurveyInfoV)>::empty());
    }
    None
}

/// Index of the first manager record stored under `addr`.
pub fn find_manager(managers: &Vec<ManagerInfo>, addr: &String) -> (r: Option<usize>)
    ensures
        ({
            let mv = managers@.map_values(|m: ManagerInfo| m@);
            match r {
                Some(i) => i < managers@.len() && managers@[i as int].address@ == addr@
                    && get_manager_v(mv, addr@) == Some(managers@[i as int]@) && forall|j: int|
                    0 <= j < i ==> managers@[j].address@ != addr@,
                None => get_manager_v(mv, addr@) is None,
            }
        }),
{
    let ghost mv = managers@.map_values(|m: ManagerInfo| m@);
    proof {
        assert(mv.skip(0) =~= mv);
    }
    let n = managers.len();
    for i in 0..n
        invariant
            n == managers@.len(),
            mv == managers@.map_values(|m: ManagerInfo| m@),
            get_manager_v(mv, addr@) == get_manager_v(mv.skip(i as int), addr@),
            forall|j: int| 0 <= j < i ==> managers@[j].address@ != addr@,
    {
        if managers[i].address == *addr {
            proof {
                assert(mv.skip(i as int)[0] == mv[i as int]);
            }
            return Some(i);
        }
        proof {
            assert(mv.skip(i as int).drop_first() =~= mv.skip(i as int + 1));
            assert(mv.skip(i as int)[0] == mv[i as int]);
        }
    }
    proof {
        assert(mv.skip(n as int) =~= Seq::<ManagerInfoV>::empty());
    }
    None
}

/// Whether some active manager registered the public key.
pub fn manager_key_is_active(managers: &Vec<ManagerInfo>, pk: &Vec<u8>) -> (r: bool)
    ensures
        r == manager_key_active(managers@.map_values(|m: ManagerInfo| m@), pk@),
{
    let ghost mv = managers@.map_values(|m: ManagerInfo| m@);
    let n = managers.len();
    for i in 0..n
        invariant
            n == managers@.len(),
            mv == managers@.map_values(|m: ManagerInfo| m@),
            forall|j: int| 0 <= j < i ==> !(mv[j].pub_key == pk@ && mv[j].status),
    {
        if managers[i].status && managers[i].pub_key == *pk {
            proof {
                assert(managers@[i as int].pub_key@ =~= pk@);
                assert(mv[i as int].pub_key == pk@ && mv[i as int].status);
            }
            return true;
        }
        proof {
            if managers@[i as int].pub_key@ == pk@ && managers@[i as int].status {
                assert(managers@[i as int].pub_key == *pk);
            }
        }
    }
    false
}

/// Whether the token is already in the consumed set.
pub fn token_is_used(tokens: &Vec<String>, t: &String) -> (r: bool)
    ensures
        r == token_used(tokens@.map_values(|s: String| s@), t@),
{
    let ghost tv = tokens@.map_values(|s: String| s@);
    let n = tokens.len();
    for i in 0..n
        invariant
            n == tokens@.len(),
            tv == tokens@.map_values(|s: String| s@),
            forall|j: int| 0 <= j < i ==> tv[j] != t@,
    {
        if tokens[i] == *t {
            proof {
                assert(tv[i as int] == t@);
            }
            return true;
        }
    }
    proof {
        assert(!tv.contains(t@));
    }
    false
}

/// Whether the (survey, participant) pair is already marked rewarded.
pub fn pair_is_rewarded(rs: &Vec<(String, String)>, id: &String, p: &String) -> (r: bool)
    ensures
        r == pair_rewarded(rewarded_view(rs@), id@, p@),
{
    let ghost rv = rewarded_view(rs@);
    let n = rs.len();
    for i in 0..n
        invariant
            n == rs@.len(),
            rv == rewarded_view(rs@),
            forall|j: int| 0 <= j < i ==> rv[j] != (id@, p@),
    {
        if rs[i].0 == *id && rs[i].1 == *p {
            proof {
                assert(rv[i as int] == (id@, p@));
            }
            return true;
        }
    }
    proof {
        assert(!rv.contains((id@, p@)));
    }
    false
}

} // verus!
