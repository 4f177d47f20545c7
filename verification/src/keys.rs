use vstd::prelude::*;

verus! {

/// The two slots of persistent storage that the ledger owns.
#[derive(Clone, Copy, Debug, PartialEq, Eq, Structural)]
pub enum DataKey {
    /// The running total of all accepted donations.
    TotalDonated,
    /// The caller of the most recent accepted donation.
    LastDonor,
}

/// The characters that a host symbol may hold: ASCII letters, digits and `_`.
pub open spec fn is_symbol_char(c: char) -> bool {
    ||| ('a' <= c && c <= 'z')
    ||| ('A' <= c && c <= 'Z')
    ||| ('0' <= c && c <= '9')
    ||| c == '_'
}

/// Text that the host accepts as a symbol: at most 32 symbol characters.
pub open spec fn is_symbol_text(s: Seq<char>) -> bool {
    &&& s.len() <= 32
    &&& forall|i: int| 0 <= i < s.len() ==> is_symbol_char(#[trigger] s[i])
}

/// The symbol under which a slot is stored.
pub open spec fn slot_name(key: DataKey) -> Seq<char> {
    match key {
        DataKey::TotalDonated => "TotalDonated"@,
        DataKey::LastDonor => "LastDonor"@,
    }
}

/// Both slot names are symbols, and they differ.
pub proof fn slot_names_are_distinct_symbols()
    ensures
        is_symbol_text(slot_name(DataKey::TotalDonated)),
        is_symbol_text(slot_name(DataKey::LastDonor)),
        slot_name(DataKey::TotalDonated) != slot_name(DataKey::LastDonor),
{
    reveal_strlit("TotalDonated");
    reveal_strlit("LastDonor");
}

impl DataKey {
    /// The symbol text of this slot.
    pub fn name(&self) -> (text: &'static str)
        ensures
            text@ == slot_name(*self),
            is_symbol_text(text@),
    {
        proof {
            slot_names_are_distinct_symbols();
        }
        match self {
            DataKey::TotalDonated => "TotalDonated",
            DataKey::LastDonor => "LastDonor",
        }
    }
}

} // verus!
