//! The reputation ledger: what a transfer, a mint and a burn do to balances and to the
//! supply, and how a member's key is given its weight. A movement that would take a
//! balance below zero or beyond 256 bits does not take place.
use crate::account::AccountHash;
use crate::uint::{u256_max, U256};
use crate::voting_engine;
use vstd::prelude::*;

verus! {

/// Why a call into the ledger was refused.
#[derive(Clone, Copy, Debug, PartialEq, Eq, Structural)]
pub enum Error {
    NotTheAdminAccount,
}

impl Error {
    /// The number of the error.
    pub fn code(&self) -> (r: u16)
        ensures
            r == 0,
    {
        0
    }
}

/// Admits the caller where the caller is one of the two administrators of the
/// organisation, the failsafe account or the compliance account.
pub fn assert_admin(caller: AccountHash, failsafe: AccountHash, compliance: AccountHash) -> (r:
    Result<(), Error>)
    ensures
        r is Ok <==> caller == failsafe || caller == compliance,
{
    if caller.same(&failsafe) || caller.same(&compliance) {
        Ok(())
    } else {
        Err(Error::NotTheAdminAccount)
    }
}

/// Whether `amount` can move from a balance of `sender_balance` to one of
/// `recipient_balance`: the sender owns it, and the recipient's balance stays within 256
/// bits. A transfer to oneself needs the first only.
pub open spec fn can_transfer(
    to_self: bool,
    sender_balance: nat,
    recipient_balance: nat,
    amount: nat,
) -> bool {
    amount <= sender_balance && (to_self || recipient_balance + amount <= u256_max())
}

/// The balances of sender and recipient after a transfer of `amount`; `None` where the
/// transfer cannot take place. A transfer to oneself leaves the sender's balance as it
/// is, and that balance is handed back for both.
pub fn transfer(
    sender: AccountHash,
    recipient: AccountHash,
    sender_balance: U256,
    recipient_balance: U256,
    amount: U256,
) -> (r: Option<(U256, U256)>)
    ensures
        match r {
            Some((new_sender_balance, new_recipient_balance)) => {
                &&& can_transfer(
                    sender == recipient,
                    sender_balance@,
                    recipient_balance@,
                    amount@,
                )
                &&& if sender == recipient {
                    new_sender_balance == sender_balance && new_recipient_balance
                        == sender_balance
                } else {
                    new_sender_balance@ == sender_balance@ - amount@ && new_recipient_balance@
                        == recipient_balance@ + amount@
                }
            },
            None => !can_transfer(
                sender == recipient,
                sender_balance@,
                recipient_balance@,
                amount@,
            ),
        },
{
    let new_sender_balance = match sender_balance.checked_sub(&amount) {
        Some(balance) => balance,
        None => {
            return None;
        },
    };
    if sender.same(&recipient) {
        return Some((sender_balance, sender_balance));
    }
    match recipient_balance.checked_add(&amount) {
        Some(new_recipient_balance) => Some((new_sender_balance, new_recipient_balance)),
        None => None,
    }
}

/// The supply and the balance of an account after `amount` was minted to it; `None`
/// where either would leave 256 bits.
pub fn mint(current_supply: U256, balance: U256, amount: U256) -> (r: Option<(U256, U256)>)
    ensures
        match r {
            Some((new_supply, new_balance)) => new_supply@ == current_supply@ + amount@
                && new_balance@ == balance@ + amount@,
            None => current_supply@ + amount@ > u256_max() || balance@ + amount@ > u256_max(),
        },
{
    match (current_supply.checked_add(&amount), balance.checked_add(&amount)) {
        (Some(new_supply), Some(new_balance)) => Some((new_supply, new_balance)),
        _ => None,
    }
}

/// The supply and the balance of an account after `amount` was burnt from it; `None`
/// where the account or the supply holds less.
pub fn burn(current_supply: U256, balance: U256, amount: U256) -> (r: Option<(U256, U256)>)
    ensures
        match r {
            Some((new_supply, new_balance)) => new_supply@ == current_supply@ - amount@
                && new_balance@ == balance@ - amount@,
            None => amount@ > current_supply@ || amount@ > balance@,
        },
{
    match (current_supply.checked_sub(&amount), balance.checked_sub(&amount)) {
        (Some(new_supply), Some(new_balance)) => Some((new_supply, new_balance)),
        _ => None,
    }
}

/// A transfer between two accounts leaves the sum of their balances as it was.
pub proof fn lemma_transfer_conserves(sender_balance: nat, recipient_balance: nat, amount: nat)
    requires
        amount <= sender_balance,
    ensures
        (sender_balance - amount) + (recipient_balance + amount) == sender_balance
            + recipient_balance,
{
}

/// How the network answered a request to set the weight of a key of the account.
#[derive(Clone, Copy, Debug, PartialEq, Eq, Structural)]
pub enum UpdateKeyOutcome {
    Updated,
    MissingKey,
    PermissionDenied,
    ThresholdViolation,
}

/// How the network answered a request to add a key to the account.
#[derive(Clone, Copy, Debug, PartialEq, Eq, Structural)]
pub enum AddKeyOutcome {
    Added,
    MaxKeysLimit,
    DuplicateKey,
    PermissionDenied,
}

/// What is to be done next to give a key a weight.
#[derive(Clone, Copy, Debug, PartialEq, Eq, Structural)]
pub enum KeyStep {
    /// The key has its weight.
    Done,
    /// The account has no such key: it is to be added with the weight.
    AddKey,
    /// The call ends with this error.
    Refuse(voting_engine::Error),
}

/// What follows the attempt to set the weight of a key: nothing where it was set, the
/// attempt to add the key where the account has none such, and the error of the same name
/// where the network refused.
pub fn after_update_key(outcome: UpdateKeyOutcome) -> (r: KeyStep)
    ensures
        r == match outcome {
            UpdateKeyOutcome::Updated => KeyStep::Done,
            UpdateKeyOutcome::MissingKey => KeyStep::AddKey,
            UpdateKeyOutcome::PermissionDenied => KeyStep::Refuse(
                voting_engine::Error::PermissionDenied,
            ),
            UpdateKeyOutcome::ThresholdViolation => KeyStep::Refuse(
                voting_engine::Error::ThresholdViolation,
            ),
        },
{
    match outcome {
        UpdateKeyOutcome::Updated => KeyStep::Done,
        UpdateKeyOutcome::MissingKey => KeyStep::AddKey,
        UpdateKeyOutcome::PermissionDenied => KeyStep::Refuse(
            voting_engine::Error::PermissionDenied,
        ),
        UpdateKeyOutcome::ThresholdViolation => KeyStep::Refuse(
            voting_engine::Error::ThresholdViolation,
        ),
    }
}

/// What follows the attempt to add a key: nothing where it was added, and the error of
/// the same name where the network refused.
pub fn add_key(outcome: AddKeyOutcome) -> (r: KeyStep)
    ensures
        r == match outcome {
            AddKeyOutcome::Added => KeyStep::Done,
            AddKeyOutcome::MaxKeysLimit => KeyStep::Refuse(voting_engine::Error::MaxKeysLimit),
            AddKeyOutcome::DuplicateKey => KeyStep::Refuse(voting_engine::Error::DuplicateKey),
            AddKeyOutcome::PermissionDenied => KeyStep::Refuse(
                voting_engine::Error::PermissionDenied,
            ),
        },
        r != KeyStep::AddKey,
{
    match outcome {
        AddKeyOutcome::Added => KeyStep::Done,
        AddKeyOutcome::MaxKeysLimit => KeyStep::Refuse(voting_engine::Error::MaxKeysLimit),
        AddKeyOutcome::DuplicateKey => KeyStep::Refuse(voting_engine::Error::DuplicateKey),
        AddKeyOutcome::PermissionDenied => KeyStep::Refuse(voting_engine::Error::PermissionDenied),
    }
}

} // verus!
