//! Account validation, payment checks, the ownership gate, and the
//! construction of outbound cross-chain transfer instructions.

use vstd::prelude::*;

use crate::error::ContractError;
use crate::ibc::{TransferInstruction, TransferInstructionV};
use crate::state::{BlockInfo, Coin, CoinV, Config, ContractState, Manager, ManagerInfo, ManagerInfoV, ManagerV};

verus! {

/// The lower-case human-readable prefix of a well-formed, checksummed
/// account string, or nothing when the string is malformed; a function
/// of the string alone.
pub uninterp spec fn bech32_hrp_of(s: Seq<char>) -> Option<Seq<char>>;

/// Relies on bech32::decode: accepts exactly the well-formed,
/// checksum-valid account strings and returns the lower-case
/// human-readable prefix, a function of the input alone.
#[verifier::external_body]
fn bech32_prefix(s: &str) -> (r: Option<String>)
    ensures
        r matches Some(p) ==> bech32_hrp_of(s@) == Some(p@),
        r is None ==> bech32_hrp_of(s@) is None,
{
    match bech32::decode(s) {
        Ok((prefix, _, _)) => Some(prefix),
        Err(_) => None,
    }
}

/// How an account string validates against the configured prefix.
pub open spec fn spec_validate_account(prefix: Seq<char>, receiver: Seq<char>) -> Result<
    (),
    ContractError,
> {
    match bech32_hrp_of(receiver) {
        None => Err(ContractError::InvalidAccount),
        Some(p) => if p == prefix {
            Ok(())
        } else {
            Err(ContractError::ExpectedPrefixedAccount)
        },
    }
}

/// Checks that `receiver` is a well-formed account string carrying the
/// expected prefix, and returns the prefix with the validated address.
pub fn validate_account(receiver_prefix: &String, receiver: &String) -> (r: Result<
    (String, String),
    ContractError,
>)
    ensures
        match r {
            Ok(pa) => spec_validate_account(receiver_prefix@, receiver@) is Ok && pa.0@
                == receiver_prefix@ && pa.1@ == receiver@,
            Err(e) => spec_validate_account(receiver_prefix@, receiver@) == Err::<(), _>(e),
        },
{
    match bech32_prefix(receiver.as_str()) {
        None => Err(ContractError::InvalidAccount),
        Some(p) => {
            if p == *receiver_prefix {
                Ok((p, receiver.clone()))
            } else {
                Err(ContractError::ExpectedPrefixedAccount)
            }
        },
    }
}

/// A byte-for-byte copy of a key.
pub fn clone_bytes(v: &Vec<u8>) -> (r: Vec<u8>)
    ensures
        r@ == v@,
{
    let mut r: Vec<u8> = Vec::new();
    let n = v.len();
    for i in 0..n
        invariant
            n == v@.len(),
            r@ == v@.take(i as int),
    {
        r.push(v[i]);
        proof {
            assert(v@.take(i as int).push(v@[i as int]) =~= v@.take(i as int + 1));
        }
    }
    proof {
        assert(v@.take(n as int) =~= v@);
    }
    r
}

/// How a manager list validates: each address must carry the configured
/// prefix; every accepted manager starts active.
pub open spec fn spec_map_validate(prefix: Seq<char>, ms: Seq<ManagerV>) -> Result<
    Seq<ManagerInfoV>,
    ContractError,
>
    decreases ms.len(),
{
    if ms.len() == 0 {
        Ok(Seq::empty())
    } else {
        match spec_validate_account(prefix, ms[0].addr) {
            Err(e) => Err(e),
            Ok(_) => match spec_map_validate(prefix, ms.drop_first()) {
                Err(e) => Err(e),
                Ok(rest) => Ok(
                    seq![
                        ManagerInfoV { address: ms[0].addr, pub_key: ms[0].pub_key, status: true },
                    ] + rest,
                ),
            },
        }
    }
}

/// Validates every declared manager against the configured prefix and
/// returns the registry records, all active.
pub fn map_validate(receiver_prefix: &String, managers: &Vec<Manager>) -> (r: Result<
    Vec<ManagerInfo>,
    ContractError,
>)
    ensures
        ({
            let mv = managers@.map_values(|m: Manager| m@);
            match r {
                Ok(v) => spec_map_validate(receiver_prefix@, mv) == Ok::<_, ContractError>(
                    v@.map_values(|m: ManagerInfo| m@),
                ),
                Err(e) => spec_map_validate(receiver_prefix@, mv) == Err::<Seq<ManagerInfoV>, _>(
                    e,
                ),
            }
        }),
{
    let ghost mv = managers@.map_values(|m: Manager| m@);
    let mut out: Vec<ManagerInfo> = Vec::new();
    let n = managers.len();
    proof {
        assert(mv.skip(0) =~= mv);
    }
    for i in 0..n
        invariant
            n == managers@.len(),
            mv == managers@.map_values(|m: Manager| m@),
            spec_map_validate(receiver_prefix@, mv) == match spec_map_validate(
                receiver_prefix@,
                mv.skip(i as int),
            ) {
                Ok(rest) => Ok::<_, ContractError>(out@.map_values(|m: ManagerInfo| m@) + rest),
                Err(e) => Err::<Seq<ManagerInfoV>, _>(e),
            },
            out@.len() == i,
    {
        let ghost pre = out@.map_values(|m: ManagerInfo| m@);
        match validate_account(receiver_prefix, &managers[i].addr) {
            Err(e) => {
                proof {
                    assert(mv.skip(i as int)[0] == mv[i as int]);
                }
                return Err(e);
            },
            Ok((_, validated_addr)) => {
                let info = ManagerInfo {
                    address: validated_addr,
                    pub_key: clone_bytes(&managers[i].pub_key),
                    status: true,
                };
                proof {
                    assert(mv.skip(i as int)[0] == mv[i as int]);
                    assert(mv.skip(i as int).drop_first() =~= mv.skip(i as int + 1));
                }
                let ghost infov = info@;
                out.push(info);
                proof {
                    assert(out@.map_values(|m: ManagerInfo| m@) =~= pre.push(infov));
                    assert forall|rest: Seq<ManagerInfoV>|
                        true implies pre + (seq![
                        ManagerInfoV {
                            address: mv[i as int].addr,
                            pub_key: mv[i as int].pub_key,
                            status: true,
                        },
                    ] + rest) =~= pre.push(infov) + rest by {}
                }
            },
        }
    }
    proof {
        assert(mv.skip(n as int) =~= Seq::<ManagerV>::empty());
        assert(out@.map_values(|m: ManagerInfo| m@) + Seq::<ManagerInfoV>::empty() =~= out@.map_values(
            |m: ManagerInfo| m@,
        ));
    }
    Ok(out)
}

/// How attached funds validate against a required currency: exactly one
/// coin, in that currency, with a positive amount.
pub open spec fn spec_must_pay(funds: Seq<CoinV>, denom: Seq<char>) -> Result<
    u128,
    ContractError,
> {
    if funds.len() == 0 {
        Err(ContractError::NoFunds)
    } else if funds.len() > 1 {
        Err(ContractError::MultipleDenoms)
    } else if funds[0].amount == 0 {
        Err(ContractError::NoFunds)
    } else if funds[0].denom != denom {
        Err(ContractError::MissingDenom)
    } else {
        Ok(funds[0].amount)
    }
}

/// Returns the amount attached in the required currency; fails unless
/// exactly one positive coin of that currency is attached.
pub fn must_pay(funds: &Vec<Coin>, denom: &String) -> (r: Result<u128, ContractError>)
    ensures
        r == spec_must_pay(funds@.map_values(|c: Coin| c@), denom@),
{
    let ghost fv = funds@.map_values(|c: Coin| c@);
    if funds.len() == 0 {
        Err(ContractError::NoFunds)
    } else if funds.len() > 1 {
        Err(ContractError::MultipleDenoms)
    } else if funds[0].amount == 0 {
        Err(ContractError::NoFunds)
    } else if !(funds[0].denom == *denom) {
        Err(ContractError::MissingDenom)
    } else {
        Ok(funds[0].amount)
    }
}

/// Fails unless the caller is the stored contract owner.
pub fn check_is_contract_owner(state: &ContractState, sender: &String) -> (r: Result<
    (),
    ContractError,
>)
    ensures
        r == if sender@ == state@.config.owner {
            Ok::<(), ContractError>(())
        } else {
            Err::<(), ContractError>(ContractError::Unauthorized)
        },
{
    if state.config.owner == *sender {
        Ok(())
    } else {
        Err(ContractError::Unauthorized)
    }
}

/// The fixed window, in seconds, an outbound transfer may stay in
/// flight before it times out.
pub const TRANSFER_TIMEOUT_SECONDS: u64 = 600;

/// How an outbound transfer instruction is built: the receiver must
/// validate against the configured prefix; the transfer goes out on the
/// configured channel and times out a fixed window after the current
/// block time.
pub open spec fn spec_create_ibc_transfer(
    config: crate::state::ConfigV,
    block: BlockInfo,
    receiver: Seq<char>,
    amount: u128,
    denom: Seq<char>,
    correlation_id: u64,
) -> Result<TransferInstructionV, ContractError> {
    match spec_validate_account(config.receiver_prefix, receiver) {
        Err(e) => Err(e),
        Ok(_) => Ok(
            TransferInstructionV {
                channel_id: config.channel_id,
                to_address: receiver,
                amount,
                denom,
                timeout_timestamp: (block.time + TRANSFER_TIMEOUT_SECONDS) as u64,
                correlation_id,
            },
        ),
    }
}

/// Builds the outbound transfer instruction for a validated receiver.
pub fn create_ibc_transfer(
    config: &Config,
    block: &BlockInfo,
    receiver: &String,
    amount: u128,
    denom: &String,
    correlation_id: u64,
) -> (r: Result<TransferInstruction, ContractError>)
    requires
        block.time + TRANSFER_TIMEOUT_SECONDS <= u64::MAX,
    ensures
        match r {
            Ok(t) => spec_create_ibc_transfer(
                config@,
                *block,
                receiver@,
                amount,
                denom@,
                correlation_id,
            ) == Ok::<_, ContractError>(t@),
            Err(e) => spec_create_ibc_transfer(
                config@,
                *block,
                receiver@,
                amount,
                denom@,
                correlation_id,
            ) == Err::<TransferInstructionV, _>(e),
        },
{
    match validate_account(&config.receiver_prefix, receiver) {
        Err(e) => Err(e),
        Ok((_, to_address)) => Ok(
            TransferInstruction {
                channel_id: config.channel_id.clone(),
                to_address,
                amount,
                denom: denom.clone(),
                timeout_timestamp: block.time + TRANSFER_TIMEOUT_SECONDS,
                correlation_id,
            },
        ),
    }
}

} // verus!
