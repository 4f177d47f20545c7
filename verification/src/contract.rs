use vstd::prelude::*;
use crate::host::{
    authorization, persistent_addresses, persistent_numbers, read_address, read_number,
    slot_present, write_address, write_number,
};
use crate::keys::{slot_name, slot_names_are_distinct_symbols, DataKey};
use crate::ledger::{ledger_of, settled, tallied, total_or_zero, DonationError};

verus! {

/// Whether persistent storage is the same in `before` and `after`.
pub open spec fn storage_unchanged(before: soroban_sdk::Env, after: soroban_sdk::Env) -> bool {
    &&& persistent_numbers(after) == persistent_numbers(before)
    &&& persistent_addresses(after) == persistent_addresses(before)
}

/// Whether `after` is `before` with `total` written to the total's slot and
/// `caller` to the last donor's, and nothing else touched.
pub open spec fn storage_recorded(
    before: soroban_sdk::Env,
    after: soroban_sdk::Env,
    caller: soroban_sdk::Address,
    total: u32,
) -> bool {
    let total_slot = slot_name(DataKey::TotalDonated);
    let donor_slot = slot_name(DataKey::LastDonor);
    &&& persistent_numbers(after) == persistent_numbers(before).insert(total_slot, total).remove(
        donor_slot,
    )
    &&& persistent_addresses(after) == persistent_addresses(before).remove(total_slot).insert(
        donor_slot,
        caller,
    )
}

/// The number that the host holds under the total's slot, if any.
fn stored_total(env: &soroban_sdk::Env) -> (found: Result<Option<u32>, soroban_sdk::Error>)
    ensures
        found matches Ok(stored) ==> total_or_zero(stored) == ledger_of(*env).total,
{
    let name = DataKey::TotalDonated.name();
    match slot_present(env, name) {
        Err(fault) => Err(fault),
        Ok(false) => Ok(None),
        Ok(true) => read_number(env, name),
    }
}

/// The donation ledger. It has no state of its own: everything is kept in the
/// persistent storage of the host environment handed to each operation.
pub struct DonationContract;

impl DonationContract {
    /// Records a donation of `amount` by `caller`, if the host accepts that
    /// `caller` authorized this invocation. Returns the new total.
    ///
    /// The recipient is a declared destination only: it is neither read nor
    /// stored. A refused caller gets `Unauthorized`, a total that would pass
    /// `u32::MAX` gets `Overflow`, and either way storage stays as it was.
    /// Where the host refuses storage itself the result is `Host`, and the
    /// invocation is to be aborted.
    pub fn donate(
        env: &mut soroban_sdk::Env,
        caller: soroban_sdk::Address,
        recipient: soroban_sdk::Address,
        amount: u32,
    ) -> (outcome: Result<u32, DonationError>)
        ensures
            !(outcome matches Err(DonationError::Host(_))) ==> (ledger_of(*final(env)), outcome)
                == settled(
                ledger_of(*old(env)),
                !(outcome matches Err(DonationError::Unauthorized)),
                caller,
                amount,
            ),
            outcome matches Err(DonationError::Unauthorized) ==> storage_unchanged(
                *old(env),
                *final(env),
            ),
            outcome matches Err(DonationError::Overflow) ==> storage_unchanged(
                *old(env),
                *final(env),
            ),
            outcome matches Ok(total) ==> storage_recorded(*old(env), *final(env), caller, total),
    {
        let _ = recipient;
        let authorized = authorization(env, &caller).is_ok();
        Self::settle(env, authorized, caller, amount)
    }

    /// Records a donation of `amount` by `caller` once the host has judged
    /// the caller: `authorized` is its verdict. Reads the total, adds
    /// `amount`, and writes the new total and `caller` back; returns the new
    /// total. With `authorized` false, or a total that would pass `u32::MAX`,
    /// nothing is written. Only an authorized donation reaches storage, so
    /// only one can end in `Host`.
    pub fn settle(
        env: &mut soroban_sdk::Env,
        authorized: bool,
        caller: soroban_sdk::Address,
        amount: u32,
    ) -> (outcome: Result<u32, DonationError>)
        ensures
            !(outcome matches Err(DonationError::Host(_))) ==> (ledger_of(*final(env)), outcome)
                == settled(ledger_of(*old(env)), authorized, caller, amount),
            outcome matches Err(DonationError::Host(_)) ==> authorized,
            outcome matches Err(DonationError::Unauthorized) ==> storage_unchanged(
                *old(env),
                *final(env),
            ),
            outcome matches Err(DonationError::Overflow) ==> storage_unchanged(
                *old(env),
                *final(env),
            ),
            outcome matches Ok(total) ==> storage_recorded(*old(env), *final(env), caller, total),
    {
        proof {
            slot_names_are_distinct_symbols();
        }
        if !authorized {
            return Err(DonationError::Unauthorized);
        }
        let current: u32 = match stored_total(env) {
            Ok(stored) => Self::total_or_zero(stored),
            Err(fault) => {
                return Err(DonationError::Host(fault));
            },
        };
        let total: u32 = match Self::tally(current, amount) {
            Ok(total) => total,
            Err(refusal) => {
                return Err(refusal);
            },
        };
        match write_number(env, DataKey::TotalDonated.name(), total) {
            Ok(()) => {},
            Err(fault) => {
                return Err(DonationError::Host(fault));
            },
        }
        match write_address(env, DataKey::LastDonor.name(), &caller) {
            Ok(()) => Ok(total),
            Err(fault) => Err(DonationError::Host(fault)),
        }
    }

    /// The total that a stored value stands for: zero where none was stored.
    pub fn total_or_zero(stored: Option<u32>) -> (total: u32)
        ensures
            total == total_or_zero(stored),
    {
        match stored {
            Some(total) => total,
            None => 0,
        }
    }

    /// Adds a donation to the running total: the sum where it fits in a
    /// `u32`, `Overflow` where it does not.
    pub fn tally(current: u32, amount: u32) -> (outcome: Result<u32, DonationError>)
        ensures
            outcome == tallied(current, amount),
    {
        match current.checked_add(amount) {
            Some(total) => Ok(total),
            None => Err(DonationError::Overflow),
        }
    }

    /// The running total of all accepted donations: zero before the first.
    /// An error is the host's own, where it refuses the read.
    pub fn get_total_donated(env: soroban_sdk::Env) -> (outcome: Result<u32, soroban_sdk::Error>)
        ensures
            outcome matches Ok(total) ==> total == ledger_of(env).total,
    {
        match stored_total(&env) {
            Ok(stored) => Ok(Self::total_or_zero(stored)),
            Err(fault) => Err(fault),
        }
    }

    /// The caller of the most recent accepted donation: `None` before the
    /// first. An error is the host's own, where it refuses the read.
    pub fn get_last_donor(env: soroban_sdk::Env) -> (outcome: Result<
        Option<soroban_sdk::Address>,
        soroban_sdk::Error,
    >)
        ensures
            outcome matches Ok(donor) ==> donor == ledger_of(env).last_donor,
    {
        let name = DataKey::LastDonor.name();
        match slot_present(&env, name) {
            Err(fault) => Err(fault),
            Ok(false) => Ok(None),
            Ok(true) => read_address(&env, name),
        }
    }
}

} // verus!
