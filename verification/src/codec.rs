//! Canonical, domain-tagged serialization of each action's parameters,
//! hashed with SHA-256 to produce the digest that managers sign.
//!
//! Field order is fixed by the record layout, never by the call site:
//! the same logical inputs always serialize to the same bytes.  Every
//! variable-length field is length-prefixed, the expiration carries a
//! kind tag, and each action kind starts with its own tag byte, so the
//! three action encodings can never collide with one another.

use vstd::bytes::{
    spec_u128_to_le_bytes, spec_u32_to_le_bytes, spec_u64_to_le_bytes, u128_to_le_bytes,
    u32_to_le_bytes, u64_to_le_bytes,
};
use vstd::prelude::*;
use vstd::string::StringSliceAdditionalSpecFns;
use vstd::utf8::encode_utf8;

use crate::state::Expiration;

verus! {

/// The UTF-8 bytes of a string value.
pub open spec fn str_bytes(s: Seq<char>) -> Seq<u8> {
    encode_utf8(s)
}

/// SHA-256 of a byte string; a function of the input alone.
pub uninterp spec fn sha256_of(bytes: Seq<u8>) -> Seq<u8>;

/// Relies on sha2::Sha256::digest: the SHA-256 digest of the input, a
/// pure function of the input bytes, always 32 bytes long.
#[verifier::external_body]
fn sha256(bytes: &Vec<u8>) -> (r: Vec<u8>)
    ensures
        r@ == sha256_of(bytes@),
        r@.len() == 32,
{
    <sha2::Sha256 as sha2::Digest>::digest(bytes.as_slice()).to_vec()
}

/// The domain tag, the ASCII bytes of `SURVEY_V1`.
pub open spec fn domain_tag() -> Seq<u8> {
    seq![83u8, 85u8, 82u8, 86u8, 69u8, 89u8, 95u8, 86u8, 49u8]
}

/// A variable-length field: 8-byte little-endian length, then the bytes.
pub open spec fn encode_bytes_field(b: Seq<u8>) -> Seq<u8> {
    spec_u64_to_le_bytes(b.len() as u64) + b
}

/// An expiration: a kind tag byte, then the height or time.
pub open spec fn encode_expiration(e: Expiration) -> Seq<u8> {
    match e {
        Expiration::AtHeight(h) => seq![1u8] + spec_u64_to_le_bytes(h),
        Expiration::AtTime(t) => seq![2u8] + spec_u64_to_le_bytes(t),
        Expiration::Never => seq![0u8] + spec_u64_to_le_bytes(0),
    }
}

pub open spec fn encode_str_seq(l: Seq<Seq<u8>>) -> Seq<u8>
    decreases l.len(),
{
    if l.len() == 0 {
        Seq::empty()
    } else {
        encode_bytes_field(l[0]) + encode_str_seq(l.drop_first())
    }
}

/// A list of strings: 8-byte little-endian count, then each entry as a
/// length-prefixed field.
pub open spec fn encode_str_list(l: Seq<Seq<u8>>) -> Seq<u8> {
    spec_u64_to_le_bytes(l.len() as u64) + encode_str_seq(l)
}

/// The canonical record signed to authorize a survey creation.
pub open spec fn encode_create(
    token: Seq<u8>,
    exp: Expiration,
    owner: Seq<u8>,
    survey_id: Seq<u8>,
    participants_limit: u32,
    reward_per_user: u128,
    survey_hash: Seq<u8>,
    reward_denom: Seq<u8>,
    amount_to_gas_station: u128,
) -> Seq<u8> {
    seq![1u8] + encode_bytes_field(domain_tag()) + encode_bytes_field(token) + encode_expiration(
        exp,
    ) + encode_bytes_field(owner) + encode_bytes_field(survey_id) + spec_u32_to_le_bytes(
        participants_limit,
    ) + spec_u128_to_le_bytes(reward_per_user) + encode_bytes_field(survey_hash)
        + encode_bytes_field(reward_denom) + spec_u128_to_le_bytes(amount_to_gas_station)
}

/// The canonical record signed to authorize a survey cancellation.
pub open spec fn encode_cancel(token: Seq<u8>, exp: Expiration, survey_id: Seq<u8>) -> Seq<u8> {
    seq![2u8] + encode_bytes_field(domain_tag()) + encode_bytes_field(token) + encode_expiration(
        exp,
    ) + encode_bytes_field(survey_id)
}

/// The canonical record signed to authorize a reward batch.
pub open spec fn encode_pay(
    token: Seq<u8>,
    exp: Expiration,
    survey_ids: Seq<Seq<u8>>,
    participants: Seq<Seq<u8>>,
) -> Seq<u8> {
    seq![3u8] + encode_bytes_field(domain_tag()) + encode_bytes_field(token) + encode_expiration(
        exp,
    ) + encode_str_list(survey_ids) + encode_str_list(participants)
}

/// The three action kinds serialize to pairwise different records,
/// whatever the field values: each record starts with its action's own
/// tag byte.
pub proof fn lemma_action_kind_separation(
    token1: Seq<u8>,
    exp1: Expiration,
    owner: Seq<u8>,
    survey_id1: Seq<u8>,
    participants_limit: u32,
    reward_per_user: u128,
    survey_hash: Seq<u8>,
    reward_denom: Seq<u8>,
    amount_to_gas_station: u128,
    token2: Seq<u8>,
    exp2: Expiration,
    survey_id2: Seq<u8>,
    token3: Seq<u8>,
    exp3: Expiration,
    survey_ids: Seq<Seq<u8>>,
    participants: Seq<Seq<u8>>,
)
    ensures
        encode_create(
            token1,
            exp1,
            owner,
            survey_id1,
            participants_limit,
            reward_per_user,
            survey_hash,
            reward_denom,
            amount_to_gas_station,
        ) != encode_cancel(token2, exp2, survey_id2),
        encode_cancel(token2, exp2, survey_id2) != encode_pay(
            token3,
            exp3,
            survey_ids,
            participants,
        ),
        encode_create(
            token1,
            exp1,
            owner,
            survey_id1,
            participants_limit,
            reward_per_user,
            survey_hash,
            reward_denom,
            amount_to_gas_station,
        ) != encode_pay(token3, exp3, survey_ids, participants),
{
    let c = encode_create(
        token1,
        exp1,
        owner,
        survey_id1,
        participants_limit,
        reward_per_user,
        survey_hash,
        reward_denom,
        amount_to_gas_station,
    );
    let x = encode_cancel(token2, exp2, survey_id2);
    let p = encode_pay(token3, exp3, survey_ids, participants);
    assert(c[0] == 1u8);
    assert(x[0] == 2u8);
    assert(p[0] == 3u8);
}

// ---------------------------------------------------------------------
// Executable encoders.
// ---------------------------------------------------------------------

fn push_u64(v: &mut Vec<u8>, x: u64)
    ensures
        final(v)@ == old(v)@ + spec_u64_to_le_bytes(x),
{
    let mut b = u64_to_le_bytes(x);
    v.append(&mut b);
}

fn push_u32(v: &mut Vec<u8>, x: u32)
    ensures
        final(v)@ == old(v)@ + spec_u32_to_le_bytes(x),
{
    let mut b = u32_to_le_bytes(x);
    v.append(&mut b);
}

fn push_u128(v: &mut Vec<u8>, x: u128)
    ensures
        final(v)@ == old(v)@ + spec_u128_to_le_bytes(x),
{
    let mut b = u128_to_le_bytes(x);
    v.append(&mut b);
}

fn push_bytes_field(v: &mut Vec<u8>, b: &[u8])
    ensures
        final(v)@ == old(v)@ + encode_bytes_field(b@),
{
    push_u64(v, b.len() as u64);
    let ghost mid = v@;
    v.extend_from_slice(b);
    proof {
        assert(v@ =~= mid + b@);
        assert(v@ =~= old(v)@ + encode_bytes_field(b@));
    }
}

fn push_str_field(v: &mut Vec<u8>, s: &str)
    ensures
        final(v)@ == old(v)@ + encode_bytes_field(s.spec_bytes()),
{
    push_bytes_field(v, s.as_bytes());
}

fn push_expiration(v: &mut Vec<u8>, e: Expiration)
    ensures
        final(v)@ == old(v)@ + encode_expiration(e),
{
    match e {
        Expiration::AtHeight(h) => {
            v.push(1u8);
            push_u64(v, h);
        },
        Expiration::AtTime(t) => {
            v.push(2u8);
            push_u64(v, t);
        },
        Expiration::Never => {
            v.push(0u8);
            push_u64(v, 0);
        },
    }
    proof {
        assert(v@ =~= old(v)@ + encode_expiration(e));
    }
}

fn push_domain(v: &mut Vec<u8>)
    ensures
        final(v)@ == old(v)@ + encode_bytes_field(domain_tag()),
{
    push_u64(v, 9);
    v.push(83u8);
    v.push(85u8);
    v.push(82u8);
    v.push(86u8);
    v.push(69u8);
    v.push(89u8);
    v.push(95u8);
    v.push(86u8);
    v.push(49u8);
    proof {
        assert(v@ =~= old(v)@ + encode_bytes_field(domain_tag()));
    }
}

pub open spec fn str_list_view(l: Seq<String>) -> Seq<Seq<u8>> {
    l.map_values(|s: String| str_bytes(s@))
}

proof fn lemma_encode_str_seq_push(l: Seq<Seq<u8>>, x: Seq<u8>)
    ensures
        encode_str_seq(l.push(x)) == encode_str_seq(l) + encode_bytes_field(x),
    decreases l.len(),
{
    if l.len() == 0 {
        assert(l.push(x).drop_first() =~= l);
        assert(encode_str_seq(l) + encode_bytes_field(x) =~= encode_bytes_field(x));
        assert(encode_str_seq(l.push(x)) =~= encode_bytes_field(x) + encode_str_seq(l));
    } else {
        assert(l.push(x).drop_first() =~= l.drop_first().push(x));
        lemma_encode_str_seq_push(l.drop_first(), x);
        assert(encode_str_seq(l.push(x)) =~= encode_str_seq(l) + encode_bytes_field(x));
    }
}

fn push_str_list(v: &mut Vec<u8>, l: &Vec<String>)
    ensures
        final(v)@ == old(v)@ + encode_str_list(str_list_view(l@)),
{
    let ghost lv = str_list_view(l@);
    push_u64(v, l.len() as u64);
    let ghost start = v@;
    let n = l.len();
    for i in 0..n
        invariant
            n == l@.len(),
            lv == str_list_view(l@),
            v@ == start + encode_str_seq(lv.take(i as int)),
    {
        let ghost before = v@;
        push_str_field(v, l[i].as_str());
        proof {
            assert(lv.take(i as int).push(lv[i as int]) =~= lv.take(i as int + 1));
            lemma_encode_str_seq_push(lv.take(i as int), lv[i as int]);
            assert(v@ =~= start + encode_str_seq(lv.take(i as int + 1)));
        }
    }
    proof {
        assert(lv.take(n as int) =~= lv);
        assert(v@ =~= old(v)@ + encode_str_list(lv));
    }
}

// ---------------------------------------------------------------------
// The signed records and their digests.
// ---------------------------------------------------------------------

/// The business parameters a manager signs to authorize one survey
/// creation.
pub struct CreateSurveyPayload {
    pub token: String,
    pub time_to_expire: Expiration,
    pub owner: String,
    pub survey_id: String,
    pub participants_limit: u32,
    pub reward_per_user: u128,
    pub survey_hash: Vec<u8>,
    pub reward_denom: String,
    pub amount_to_gas_station: u128,
}

impl CreateSurveyPayload {
    /// The digest a manager must sign to authorize this creation.
    pub fn digest(&self) -> (r: Vec<u8>)
        ensures
            r@ == sha256_of(
                encode_create(
                    str_bytes(self.token@),
                    self.time_to_expire,
                    str_bytes(self.owner@),
                    str_bytes(self.survey_id@),
                    self.participants_limit,
                    self.reward_per_user,
                    self.survey_hash@,
                    str_bytes(self.reward_denom@),
                    self.amount_to_gas_station,
                ),
            ),
            r@.len() == 32,
    {
        let mut v: Vec<u8> = Vec::new();
        v.push(1u8);
        push_domain(&mut v);
        push_str_field(&mut v, self.token.as_str());
        push_expiration(&mut v, self.time_to_expire);
        push_str_field(&mut v, self.owner.as_str());
        push_str_field(&mut v, self.survey_id.as_str());
        push_u32(&mut v, self.participants_limit);
        push_u128(&mut v, self.reward_per_user);
        push_bytes_field(&mut v, self.survey_hash.as_slice());
        push_str_field(&mut v, self.reward_denom.as_str());
        push_u128(&mut v, self.amount_to_gas_station);
        proof {
            assert(v@ =~= encode_create(
                str_bytes(self.token@),
                self.time_to_expire,
                str_bytes(self.owner@),
                str_bytes(self.survey_id@),
                self.participants_limit,
                self.reward_per_user,
                self.survey_hash@,
                str_bytes(self.reward_denom@),
                self.amount_to_gas_station,
            ));
        }
        sha256(&v)
    }
}

/// The business parameters a manager signs to authorize one survey
/// cancellation.
pub struct CancelSurveyPayload {
    pub token: String,
    pub time_to_expire: Expiration,
    pub survey_id: String,
}

impl CancelSurveyPayload {
    /// The digest a manager must sign to authorize this cancellation.
    pub fn digest(&self) -> (r: Vec<u8>)
        ensures
            r@ == sha256_of(
                encode_cancel(
                    str_bytes(self.token@),
                    self.time_to_expire,
                    str_bytes(self.survey_id@),
                ),
            ),
            r@.len() == 32,
    {
        let mut v: Vec<u8> = Vec::new();
        v.push(2u8);
        push_domain(&mut v);
        push_str_field(&mut v, self.token.as_str());
        push_expiration(&mut v, self.time_to_expire);
        push_str_field(&mut v, self.survey_id.as_str());
        proof {
            assert(v@ =~= encode_cancel(
                str_bytes(self.token@),
                self.time_to_expire,
                str_bytes(self.survey_id@),
            ));
        }
        sha256(&v)
    }
}

/// The business parameters a manager signs to authorize one reward
/// batch.
pub struct PayRewardsPayload {
    pub token: String,
    pub time_to_expire: Expiration,
    pub survey_id: Vec<String>,
    pub participants: Vec<String>,
}

impl PayRewardsPayload {
    /// The digest a manager must sign to authorize this batch.
    pub fn digest(&self) -> (r: Vec<u8>)
        ensures
            r@ == sha256_of(
                encode_pay(
                    str_bytes(self.token@),
                    self.time_to_expire,
                    str_list_view(self.survey_id@),
                    str_list_view(self.participants@),
                ),
            ),
            r@.len() == 32,
    {
        let mut v: Vec<u8> = Vec::new();
        v.push(3u8);
        push_domain(&mut v);
        push_str_field(&mut v, self.token.as_str());
        push_expiration(&mut v, self.time_to_expire);
        push_str_list(&mut v, &self.survey_id);
        push_str_list(&mut v, &self.participants);
        proof {
            assert(v@ =~= encode_pay(
                str_bytes(self.token@),
                self.time_to_expire,
                str_list_view(self.survey_id@),
                str_list_view(self.participants@),
            ));
        }
        sha256(&v)
    }
}

} // verus!
