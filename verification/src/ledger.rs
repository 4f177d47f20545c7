use vstd::prelude::*;
use crate::host::{lookup, persistent_addresses, persistent_numbers};
use crate::keys::{slot_name, DataKey};

verus! {

/// Why a donation was not recorded.
#[derive(Clone, Copy, Debug, PartialEq, Eq)]
pub enum DonationError {
    /// The host did not accept that the caller authorized the invocation.
    Unauthorized,
    /// The new total would not fit in a `u32`.
    Overflow,
    /// The host refused to read or write storage, with this error. The
    /// invocation is to be aborted with it, which has the host drop whatever
    /// the invocation wrote.
    Host(soroban_sdk::Error),
}

/// What the ledger records: the running total, and the caller of the most
/// recent accepted donation, if there was one.
pub struct Ledger {
    pub total: u32,
    pub last_donor: Option<soroban_sdk::Address>,
}

/// The total that a stored value stands for: one never stored counts as zero.
pub open spec fn total_or_zero(stored: Option<u32>) -> u32 {
    match stored {
        Some(total) => total,
        None => 0,
    }
}

/// What adding `amount` to `current` gives: the sum, or `Overflow` where it
/// would not fit in a `u32`.
pub open spec fn tallied(current: u32, amount: u32) -> Result<u32, DonationError> {
    if current + amount <= u32::MAX {
        Ok((current + amount) as u32)
    } else {
        Err(DonationError::Overflow)
    }
}

/// The ledger before any donation.
pub open spec fn empty_ledger() -> Ledger {
    Ledger { total: 0, last_donor: None }
}

/// The ledger that a host's persistent storage holds. A total that was never
/// stored counts as zero.
pub open spec fn ledger_of(env: soroban_sdk::Env) -> Ledger {
    Ledger {
        total: total_or_zero(lookup(persistent_numbers(env), slot_name(DataKey::TotalDonated))),
        last_donor: lookup(persistent_addresses(env), slot_name(DataKey::LastDonor)),
    }
}

/// Whether `amount` can be added to the ledger's total.
pub open spec fn fits(ledger: Ledger, amount: u32) -> bool {
    ledger.total + amount <= u32::MAX
}

/// The ledger after an accepted donation of `amount` by `caller`.
pub open spec fn credited(ledger: Ledger, caller: soroban_sdk::Address, amount: u32) -> Ledger
    recommends
        fits(ledger, amount),
{
    Ledger { total: (ledger.total + amount) as u32, last_donor: Some(caller) }
}

/// One donation: the ledger it leaves and what the caller is told. An
/// unauthorized caller and a total that would overflow both leave the ledger
/// as it was; authorization is judged first.
pub open spec fn settled(
    ledger: Ledger,
    authorized: bool,
    caller: soroban_sdk::Address,
    amount: u32,
) -> (Ledger, Result<u32, DonationError>) {
    if !authorized {
        (ledger, Err(DonationError::Unauthorized))
    } else {
        match tallied(ledger.total, amount) {
            Ok(total) => (credited(ledger, caller, amount), Ok(total)),
            Err(refusal) => (ledger, Err(refusal)),
        }
    }
}

/// The ledger after the authorized donations `donations`, each a caller and
/// an amount, applied in order. One that would overflow is skipped, as
/// `settled` says.
pub open spec fn replayed(ledger: Ledger, donations: Seq<(soroban_sdk::Address, u32)>) -> Ledger
    decreases donations.len(),
{
    if donations.len() == 0 {
        ledger
    } else {
        let last = donations.last();
        settled(replayed(ledger, donations.drop_last()), true, last.0, last.1).0
    }
}

/// Whether every donation of `donations`, applied in order from `ledger`,
/// is accepted.
pub open spec fn all_accepted(ledger: Ledger, donations: Seq<(soroban_sdk::Address, u32)>) -> bool
    decreases donations.len(),
{
    if donations.len() == 0 {
        true
    } else {
        let last = donations.last();
        &&& all_accepted(ledger, donations.drop_last())
        &&& fits(replayed(ledger, donations.drop_last()), last.1)
    }
}

/// The sum of the amounts of `donations`.
pub open spec fn amount_sum(donations: Seq<(soroban_sdk::Address, u32)>) -> int
    decreases donations.len(),
{
    if donations.len() == 0 {
        0
    } else {
        amount_sum(donations.drop_last()) + donations.last().1
    }
}

} // verus!
