//! The parameters that a governance proposal can change, and how the change that a
//! proposal asks for is read from its name and value.
//!
//! A proposal names the parameter by the entry point that sets it and gives the new
//! value as text: a decimal number for the two ratios, the hexadecimal form of a hash for
//! an address or a contract. A name that is not in the table is an error, and so is a
//! value that cannot be read.
use crate::account::AccountHash;
use vstd::prelude::*;
use vstd::string::*;

verus! {

/// A parameter that a governance proposal can change.
#[derive(Clone, Copy, Debug, PartialEq, Eq, Structural)]
pub enum ParameterKind {
    PolicingRatio,
    ReputationAllocationRatio,
    VotingEngineAddress,
    VotingEngineContractHash,
    ReputationContractHash,
}

/// Why the change that a proposal asks for cannot be applied.
#[derive(Clone, Copy, Debug, PartialEq, Eq, Structural)]
pub enum ParameterError {
    /// The name is not that of a parameter.
    UnknownParameter,
    /// The value is not one that the parameter can take.
    InvalidValue,
}

/// A change of one parameter to a new value.
#[derive(Clone, Copy, Debug, PartialEq, Eq)]
pub enum ParameterChange {
    PolicingRatio(u64),
    ReputationAllocationRatio(u64),
    VotingEngineAddress(AccountHash),
    /// The 32 bytes of the hash of the contract.
    VotingEngineContractHash([u8; 32]),
    /// The 32 bytes of the hash of the contract.
    ReputationContractHash([u8; 32]),
}

/// Why a call that sets a parameter was refused.
#[derive(Clone, Copy, Debug, PartialEq, Eq, Structural)]
pub enum Error {
    NotVotingEngine,
}

/// Admits the caller where the caller is the voting engine, which alone may set the
/// parameters of the organisation.
pub fn assert_voting_engine(caller: AccountHash, voting_engine_address: AccountHash) -> (r: Result<
    (),
    Error,
>)
    ensures
        r is Ok <==> caller == voting_engine_address,
{
    if caller.same(&voting_engine_address) {
        Ok(())
    } else {
        Err(Error::NotVotingEngine)
    }
}

/// The parameter that a name stands for, if it stands for one.
pub open spec fn kind_of_name(name: Seq<char>) -> Option<ParameterKind> {
    if name == "update_policing_ratio"@ {
        Some(ParameterKind::PolicingRatio)
    } else if name == "update_reputation_allocation_ratio"@ {
        Some(ParameterKind::ReputationAllocationRatio)
    } else if name == "update_voting_engine_address"@ {
        Some(ParameterKind::VotingEngineAddress)
    } else if name == "update_voting_engine_contract_hash"@ {
        Some(ParameterKind::VotingEngineContractHash)
    } else if name == "update_reputation_contract_hash"@ {
        Some(ParameterKind::ReputationContractHash)
    } else {
        None
    }
}

/// The value of a decimal digit.
pub open spec fn digit_value(c: char) -> Option<nat> {
    if '0' <= c <= '9' {
        Some((c as u32 - '0' as u32) as nat)
    } else {
        None
    }
}

/// The number that a sequence of decimal digits stands for; `None` where a character is
/// not a digit.
pub open spec fn digits_value(s: Seq<char>) -> Option<nat>
    decreases s.len(),
{
    if s.len() == 0 {
        Some(0)
    } else {
        match (digits_value(s.drop_last()), digit_value(s.last())) {
            (Some(high), Some(low)) => Some(high * 10 + low),
            _ => None,
        }
    }
}

/// The number that a text stands for: one or more decimal digits, with or without a
/// plus sign before them, that stand for a number below 2^64.
pub open spec fn decimal_u64(s: Seq<char>) -> Option<u64> {
    let digits = if s.len() > 0 && s[0] == '+' {
        s.subrange(1, s.len() as int)
    } else {
        s
    };
    if digits.len() == 0 {
        None
    } else {
        match digits_value(digits) {
            Some(n) => if n <= u64::MAX {
                Some(n as u64)
            } else {
                None
            },
            None => None,
        }
    }
}

/// The bytes of the account hash that a text in the form `account-hash-` and
/// hexadecimal digits stands for, as `casper_types` reads it; `None` where it reads
/// none.
pub uninterp spec fn formatted_account_hash(text: Seq<char>) -> Option<[u8; 32]>;

/// The bytes of the contract hash that a text in the form `contract-` and hexadecimal
/// digits stands for, as `casper_types` reads it; `None` where it reads none.
pub uninterp spec fn formatted_contract_hash(text: Seq<char>) -> Option<[u8; 32]>;

/// The change that a parameter and the readings of its value give: the number for a
/// ratio, the account for the address, the bytes for a contract; an error where the
/// reading that the parameter needs has failed.
pub open spec fn change_of(
    kind: ParameterKind,
    number: Option<u64>,
    account: Option<[u8; 32]>,
    contract: Option<[u8; 32]>,
) -> Result<ParameterChange, ParameterError> {
    match kind {
        ParameterKind::PolicingRatio => match number {
            Some(n) => Ok(ParameterChange::PolicingRatio(n)),
            None => Err(ParameterError::InvalidValue),
        },
        ParameterKind::ReputationAllocationRatio => match number {
            Some(n) => Ok(ParameterChange::ReputationAllocationRatio(n)),
            None => Err(ParameterError::InvalidValue),
        },
        ParameterKind::VotingEngineAddress => match account {
            Some(bytes) => Ok(
                ParameterChange::VotingEngineAddress(AccountHash::spec_from_bytes(bytes@)),
            ),
            None => Err(ParameterError::InvalidValue),
        },
        ParameterKind::VotingEngineContractHash => match contract {
            Some(bytes) => Ok(ParameterChange::VotingEngineContractHash(bytes)),
            None => Err(ParameterError::InvalidValue),
        },
        ParameterKind::ReputationContractHash => match contract {
            Some(bytes) => Ok(ParameterChange::ReputationContractHash(bytes)),
            None => Err(ParameterError::InvalidValue),
        },
    }
}

/// The change that a proposal asks for by a name and a value.
pub open spec fn change_of_text(name: Seq<char>, value: Seq<char>) -> Result<
    ParameterChange,
    ParameterError,
> {
    match kind_of_name(name) {
        None => Err(ParameterError::UnknownParameter),
        Some(kind) => change_of(
            kind,
            decimal_u64(value),
            formatted_account_hash("account-hash-"@ + value),
            formatted_contract_hash("contract-"@ + value),
        ),
    }
}

/// Whether the two texts are the same.
fn same_text(a: &str, b: &str) -> (r: bool)
    ensures
        r == (a@ == b@),
{
    let left: String = a.to_owned();
    let right: String = b.to_owned();
    left == right
}

/// The parameter that a name stands for; `UnknownParameter` where it stands for none.
pub fn parameter_kind(name: &str) -> (r: Result<ParameterKind, ParameterError>)
    ensures
        match r {
            Ok(kind) => kind_of_name(name@) == Some(kind),
            Err(e) => kind_of_name(name@) is None && e == ParameterError::UnknownParameter,
        },
{
    if same_text(name, "update_policing_ratio") {
        Ok(ParameterKind::PolicingRatio)
    } else if same_text(name, "update_reputation_allocation_ratio") {
        Ok(ParameterKind::ReputationAllocationRatio)
    } else if same_text(name, "update_voting_engine_address") {
        Ok(ParameterKind::VotingEngineAddress)
    } else if same_text(name, "update_voting_engine_contract_hash") {
        Ok(ParameterKind::VotingEngineContractHash)
    } else if same_text(name, "update_reputation_contract_hash") {
        Ok(ParameterKind::ReputationContractHash)
    } else {
        Err(ParameterError::UnknownParameter)
    }
}

/// A step of `digits_value`: the value of the first `i + 1` characters.
proof fn lemma_digits_value_step(s: Seq<char>, i: int)
    requires
        0 <= i < s.len(),
    ensures
        digits_value(s.take(i + 1)) == match (digits_value(s.take(i)), digit_value(s[i])) {
            (Some(high), Some(low)) => Some(high * 10 + low),
            _ => None::<nat>,
        },
{
    assert(s.take(i + 1).drop_last() =~= s.take(i));
}

/// The value of digits is at least the value of the digits before any place, and there
/// is none where there is none before a place.
proof fn lemma_digits_value_grows(s: Seq<char>, i: int)
    requires
        0 <= i <= s.len(),
    ensures
        digits_value(s.take(i)) is None ==> digits_value(s) is None,
        digits_value(s) matches Some(n) ==> digits_value(s.take(i))->Some_0 <= n,
    decreases s.len() - i,
{
    if i < s.len() {
        lemma_digits_value_step(s, i);
        lemma_digits_value_grows(s, i + 1);
    } else {
        assert(s.take(i) =~= s);
    }
}

/// Reads a decimal number below 2^64: one or more digits, with or without a plus sign
/// before them.
pub fn parse_decimal(value: &str) -> (r: Option<u64>)
    ensures
        r == decimal_u64(value@),
{
    let n = value.unicode_len();
    let start: usize = if n > 0 && value.get_char(0) == '+' {
        1
    } else {
        0
    };
    if start == n {
        return None;
    }
    let ghost digits = value@.subrange(start as int, n as int);
    proof {
        if start == 0 {
            assert(digits =~= value@);
        }
    }
    let mut total: u64 = 0;
    let mut i: usize = start;
    while i < n
        invariant
            start <= i <= n,
            n == value@.len(),
            digits == value@.subrange(start as int, n as int),
            decimal_u64(value@) == match digits_value(digits) {
                Some(n) => if n <= u64::MAX {
                    Some(n as u64)
                } else {
                    None
                },
                None => None::<u64>,
            },
            digits_value(digits.take(i - start)) == Some(total as nat),
        decreases n - i,
    {
        let c = value.get_char(i);
        proof {
            assert(digits[i - start] == c);
            lemma_digits_value_step(digits, i - start);
            lemma_digits_value_grows(digits, i - start + 1);
        }
        if !(c >= '0' && c <= '9') {
            return None;
        }
        let digit: u64 = (c as u32 - '0' as u32) as u64;
        if total > (u64::MAX - digit) / 10 {
            return None;
        }
        total = total * 10 + digit;
        i += 1;
    }
    assert(digits.take(i - start) =~= digits);
    Some(total)
}

/// Calls `casper_types::account::AccountHash::from_formatted_str` and hands back the
/// bytes of the hash it read, or `None` where it read none. What it reads depends on the
/// text alone.
#[verifier::external_body]
fn casper_account_hash_from_formatted_str(text: &str) -> (r: Option<[u8; 32]>)
    ensures
        r == formatted_account_hash(text@),
{
    match casper_types::account::AccountHash::from_formatted_str(text) {
        Ok(hash) => Some(hash.value()),
        Err(_) => None,
    }
}

/// Calls `casper_types::contracts::ContractHash::from_formatted_str` and hands back
/// the bytes of the hash it read, or `None` where it read none. What it reads depends on
/// the text alone.
#[verifier::external_body]
fn casper_contract_hash_from_formatted_str(text: &str) -> (r: Option<[u8; 32]>)
    ensures
        r == formatted_contract_hash(text@),
{
    match casper_types::contracts::ContractHash::from_formatted_str(text) {
        Ok(hash) => Some(hash.value()),
        Err(_) => None,
    }
}

/// The text `prefix` followed by `value`.
fn prefixed(prefix: &str, value: &str) -> (r: String)
    ensures
        r@ == prefix@ + value@,
{
    let mut text = prefix.to_owned();
    text.append(value);
    text
}

/// The change that a parameter and the readings of its value give. The reading that the
/// parameter does not need is not looked at.
pub fn change_from_readings(
    kind: ParameterKind,
    number: Option<u64>,
    account: Option<[u8; 32]>,
    contract: Option<[u8; 32]>,
) -> (r: Result<ParameterChange, ParameterError>)
    ensures
        r == change_of(kind, number, account, contract),
{
    match kind {
        ParameterKind::PolicingRatio => match number {
            Some(n) => Ok(ParameterChange::PolicingRatio(n)),
            None => Err(ParameterError::InvalidValue),
        },
        ParameterKind::ReputationAllocationRatio => match number {
            Some(n) => Ok(ParameterChange::ReputationAllocationRatio(n)),
            None => Err(ParameterError::InvalidValue),
        },
        ParameterKind::VotingEngineAddress => match account {
            Some(bytes) => Ok(ParameterChange::VotingEngineAddress(AccountHash::from_bytes(&bytes))),
            None => Err(ParameterError::InvalidValue),
        },
        ParameterKind::VotingEngineContractHash => match contract {
            Some(bytes) => Ok(ParameterChange::VotingEngineContractHash(bytes)),
            None => Err(ParameterError::InvalidValue),
        },
        ParameterKind::ReputationContractHash => match contract {
            Some(bytes) => Ok(ParameterChange::ReputationContractHash(bytes)),
            None => Err(ParameterError::InvalidValue),
        },
    }
}

/// Reads the change that a proposal asks for by a name and a value.
///
/// A name outside the table gives `UnknownParameter`. A ratio is read as a decimal
/// number, the address of the voting engine as an account hash and a contract as a
/// contract hash, each in its hexadecimal form without the prefix; a value that cannot
/// be read so gives `InvalidValue`.
pub fn decode_parameter(name: &str, value: &str) -> (r: Result<ParameterChange, ParameterError>)
    ensures
        r == change_of_text(name@, value@),
{
    let kind = match parameter_kind(name) {
        Ok(kind) => kind,
        Err(e) => {
            return Err(e);
        },
    };
    let number = parse_decimal(value);
    let account = casper_account_hash_from_formatted_str(prefixed("account-hash-", value).as_str());
    let contract = casper_contract_hash_from_formatted_str(prefixed("contract-", value).as_str());
    change_from_readings(kind, number, account, contract)
}

} // verus!
