use vstd::prelude::*;
use crate::host::{persistent_addresses, persistent_numbers};
use crate::keys::{slot_name, DataKey};
use crate::ledger::{
    all_accepted, amount_sum, empty_ledger, fits, ledger_of, replayed, settled, DonationError,
    Ledger,
};

verus! {

/// Storage in which neither slot was ever written holds the empty ledger: a
/// total of zero and no last donor.
pub proof fn untouched_storage_is_empty_ledger(env: soroban_sdk::Env)
    requires
        !persistent_numbers(env).contains_key(slot_name(DataKey::TotalDonated)),
        !persistent_addresses(env).contains_key(slot_name(DataKey::LastDonor)),
    ensures
        ledger_of(env) == empty_ledger(),
{
}

/// After accepted donations the total is the starting total plus the sum of
/// their amounts.
pub proof fn total_is_sum_of_amounts(ledger: Ledger, donations: Seq<(soroban_sdk::Address, u32)>)
    requires
        all_accepted(ledger, donations),
    ensures
        replayed(ledger, donations).total == ledger.total + amount_sum(donations),
    decreases donations.len(),
{
    if donations.len() > 0 {
        total_is_sum_of_amounts(ledger, donations.drop_last());
    }
}

/// Starting from the empty ledger, accepted donations leave a total equal to
/// the sum of their amounts.
pub proof fn total_from_empty_is_sum(donations: Seq<(soroban_sdk::Address, u32)>)
    requires
        all_accepted(empty_ledger(), donations),
    ensures
        replayed(empty_ledger(), donations).total == amount_sum(donations),
{
    total_is_sum_of_amounts(empty_ledger(), donations);
}

/// An accepted donation makes its caller the last donor, whatever the ledger
/// held before.
pub proof fn accepted_donation_sets_last_donor(
    ledger: Ledger,
    caller: soroban_sdk::Address,
    amount: u32,
)
    requires
        fits(ledger, amount),
    ensures
        settled(ledger, true, caller, amount).1 == Ok::<u32, DonationError>(
            (ledger.total + amount) as u32,
        ),
        settled(ledger, true, caller, amount).0.last_donor == Some(caller),
{
}

/// After a run of accepted donations that is not empty, the last donor is
/// the caller of the last one.
pub proof fn last_donor_is_last_caller(
    ledger: Ledger,
    donations: Seq<(soroban_sdk::Address, u32)>,
)
    requires
        all_accepted(ledger, donations),
        donations.len() > 0,
    ensures
        replayed(ledger, donations).last_donor == Some(donations.last().0),
{
}

/// The total never decreases, whether a donation is accepted or not.
pub proof fn total_never_decreases(
    ledger: Ledger,
    authorized: bool,
    caller: soroban_sdk::Address,
    amount: u32,
)
    ensures
        settled(ledger, authorized, caller, amount).0.total >= ledger.total,
{
}

/// A donation by an unauthorized caller reports `Unauthorized` and leaves the
/// total and the last donor as they were.
pub proof fn unauthorized_donation_changes_nothing(
    ledger: Ledger,
    caller: soroban_sdk::Address,
    amount: u32,
)
    ensures
        settled(ledger, false, caller, amount).0 == ledger,
        settled(ledger, false, caller, amount).1 == Err::<u32, DonationError>(
            DonationError::Unauthorized,
        ),
{
}

/// Donating is not idempotent: the same accepted donation made twice raises
/// the total by twice its amount, which differs from making it once unless
/// the amount is zero.
pub proof fn donating_twice_counts_twice(
    ledger: Ledger,
    caller: soroban_sdk::Address,
    amount: u32,
)
    requires
        fits(ledger, amount),
        fits(settled(ledger, true, caller, amount).0, amount),
    ensures
        ({
            let once = settled(ledger, true, caller, amount).0;
            let twice = settled(once, true, caller, amount).0;
            &&& twice.total == ledger.total + 2 * amount
            &&& amount > 0 ==> twice.total != once.total
        }),
{
}

/// A run of donations is accepted as a whole exactly when the starting total
/// plus the sum of their amounts fits in a `u32`.
pub proof fn accepted_iff_sum_fits(ledger: Ledger, donations: Seq<(soroban_sdk::Address, u32)>)
    ensures
        all_accepted(ledger, donations) <==> ledger.total + amount_sum(donations) <= u32::MAX,
        amount_sum(donations) >= 0,
    decreases donations.len(),
{
    if donations.len() > 0 {
        let earlier = donations.drop_last();
        accepted_iff_sum_fits(ledger, earlier);
        if all_accepted(ledger, earlier) {
            total_is_sum_of_amounts(ledger, earlier);
        }
    }
}

/// A donation that is refused, for either reason, leaves the ledger exactly
/// as it was.
pub proof fn refused_donation_changes_nothing(
    ledger: Ledger,
    authorized: bool,
    caller: soroban_sdk::Address,
    amount: u32,
)
    ensures
        settled(ledger, authorized, caller, amount).1 is Err ==> settled(
            ledger,
            authorized,
            caller,
            amount,
        ).0 == ledger,
        settled(ledger, authorized, caller, amount).1 is Ok <==> authorized && fits(ledger, amount),
{
}

/// A ledger that has a last donor keeps one: no donation, accepted or not,
/// leads back to the empty ledger's "no donor yet".
pub proof fn funded_ledger_stays_funded(
    ledger: Ledger,
    authorized: bool,
    caller: soroban_sdk::Address,
    amount: u32,
)
    requires
        ledger.last_donor is Some,
    ensures
        settled(ledger, authorized, caller, amount).0.last_donor is Some,
{
}

} // verus!
