//! Bond slash choices of an admin finalizing a dispute (settle or cancel).
use vstd::prelude::*;
use crate::order::{BondResolution, Payload};

verus! {

/// How anti-abuse bonds are resolved when an admin finalizes a dispute.
#[derive(Debug, Clone, Copy, PartialEq, Eq, Structural)]
pub enum BondSlashChoice {
    /// Release bonds; slash neither party.
    NoSlash,
    /// Slash the buyer's bond (if posted).
    SlashBuyer,
    /// Slash the seller's bond (if posted).
    SlashSeller,
    /// Slash both parties' bonds (if posted).
    SlashBoth,
}

impl Default for BondSlashChoice {
    fn default() -> (r: Self)
        ensures
            r == BondSlashChoice::NoSlash,
    {
        BondSlashChoice::NoSlash
    }
}

/// Position of a choice in display order.
pub open spec fn choice_position(c: BondSlashChoice) -> usize {
    match c {
        BondSlashChoice::NoSlash => 0,
        BondSlashChoice::SlashBuyer => 1,
        BondSlashChoice::SlashSeller => 2,
        BondSlashChoice::SlashBoth => 3,
    }
}

/// Choice at a display position; out of range is `NoSlash`.
pub open spec fn choice_at(index: usize) -> BondSlashChoice {
    if index == 1 {
        BondSlashChoice::SlashBuyer
    } else if index == 2 {
        BondSlashChoice::SlashSeller
    } else if index == 3 {
        BondSlashChoice::SlashBoth
    } else {
        BondSlashChoice::NoSlash
    }
}

pub open spec fn slashes_seller(c: BondSlashChoice) -> bool {
    c == BondSlashChoice::SlashSeller || c == BondSlashChoice::SlashBoth
}

pub open spec fn slashes_buyer(c: BondSlashChoice) -> bool {
    c == BondSlashChoice::SlashBuyer || c == BondSlashChoice::SlashBoth
}

impl BondSlashChoice {
    /// All choices in display order.
    pub const ALL: [BondSlashChoice; 4] = [
        BondSlashChoice::NoSlash,
        BondSlashChoice::SlashBuyer,
        BondSlashChoice::SlashSeller,
        BondSlashChoice::SlashBoth,
    ];

    /// Index of this choice in [`BondSlashChoice::ALL`].
    pub fn choice_index(self) -> (r: usize)
        ensures
            r == choice_position(self),
            r < 4,
    {
        match self {
            BondSlashChoice::NoSlash => 0,
            BondSlashChoice::SlashBuyer => 1,
            BondSlashChoice::SlashSeller => 2,
            BondSlashChoice::SlashBoth => 3,
        }
    }

    /// Choice at `index` in [`BondSlashChoice::ALL`], or `NoSlash` when out of range.
    pub fn from_choice_index(index: usize) -> (r: BondSlashChoice)
        ensures
            r == choice_at(index),
    {
        if index == 1 {
            BondSlashChoice::SlashBuyer
        } else if index == 2 {
            BondSlashChoice::SlashSeller
        } else if index == 3 {
            BondSlashChoice::SlashBoth
        } else {
            BondSlashChoice::NoSlash
        }
    }

    /// Label shown in the selection list.
    pub fn label(self) -> (r: &'static str)
        ensures
            r@ == match self {
                BondSlashChoice::NoSlash => "🔓 No bond slash"@,
                BondSlashChoice::SlashBuyer => "⚔️ Slash buyer bond"@,
                BondSlashChoice::SlashSeller => "⚔️ Slash seller bond"@,
                BondSlashChoice::SlashBoth => "⚔️ Slash both bonds"@,
            },
    {
        match self {
            BondSlashChoice::NoSlash => "🔓 No bond slash",
            BondSlashChoice::SlashBuyer => "⚔️ Slash buyer bond",
            BondSlashChoice::SlashSeller => "⚔️ Slash seller bond",
            BondSlashChoice::SlashBoth => "⚔️ Slash both bonds",
        }
    }

    /// Whether the seller's bond is slashed.
    pub fn slash_seller(self) -> (r: bool)
        ensures
            r == slashes_seller(self),
    {
        match self {
            BondSlashChoice::SlashSeller | BondSlashChoice::SlashBoth => true,
            _ => false,
        }
    }

    /// Whether the buyer's bond is slashed.
    pub fn slash_buyer(self) -> (r: bool)
        ensures
            r == slashes_buyer(self),
    {
        match self {
            BondSlashChoice::SlashBuyer | BondSlashChoice::SlashBoth => true,
            _ => false,
        }
    }

    /// The two slash flags of this choice.
    pub fn to_bond_resolution(self) -> (r: BondResolution)
        ensures
            r == (BondResolution { slash_seller: slashes_seller(self), slash_buyer: slashes_buyer(self) }),
    {
        BondResolution { slash_seller: self.slash_seller(), slash_buyer: self.slash_buyer() }
    }

    /// Explicit bond-resolution payload (both flags `false` for `NoSlash`).
    pub fn to_payload(self) -> (r: Payload)
        ensures
            r == Payload::BondResolution(
                BondResolution { slash_seller: slashes_seller(self), slash_buyer: slashes_buyer(self) },
            ),
    {
        Payload::BondResolution(self.to_bond_resolution())
    }

    /// Payload sent with admin settle / cancel: nothing for `NoSlash` (the legacy no-slash
    /// message), the bond resolution otherwise.
    pub fn to_optional_payload(self) -> (r: Option<Payload>)
        ensures
            self == BondSlashChoice::NoSlash ==> r is None,
            self != BondSlashChoice::NoSlash ==> r == Some(
                Payload::BondResolution(
                    BondResolution {
                        slash_seller: slashes_seller(self),
                        slash_buyer: slashes_buyer(self),
                    },
                ),
            ),
    {
        match self {
            BondSlashChoice::NoSlash => None,
            _ => Some(self.to_payload()),
        }
    }

    /// Short phrase for log lines of an admin finalization.
    pub fn log_context(self) -> (r: &'static str)
        ensures
            r@ == match self {
                BondSlashChoice::NoSlash => "no bond slash"@,
                BondSlashChoice::SlashBuyer => "slash buyer bond"@,
                BondSlashChoice::SlashSeller => "slash seller bond"@,
                BondSlashChoice::SlashBoth => "slash both bonds"@,
            },
    {
        match self {
            BondSlashChoice::NoSlash => "no bond slash",
            BondSlashChoice::SlashBuyer => "slash buyer bond",
            BondSlashChoice::SlashSeller => "slash seller bond",
            BondSlashChoice::SlashBoth => "slash both bonds",
        }
    }
}

/// Display positions and choices correspond one to one: every choice is found again at
/// its own index, and every in-range index names a choice whose index it is.
pub proof fn choice_index_roundtrip_law(c: BondSlashChoice, i: usize)
    ensures
        choice_at(choice_position(c)) == c,
        i < 4 ==> choice_position(choice_at(i)) == i,
{
}

/// A payload is sent exactly when something is slashed, and the flags name exactly the
/// parties that the choice slashes; distinct choices slash distinct sets of parties.
pub proof fn slash_payload_law(c: BondSlashChoice, d: BondSlashChoice)
    ensures
        (c == BondSlashChoice::NoSlash) <==> (!slashes_seller(c) && !slashes_buyer(c)),
        (slashes_seller(c) == slashes_seller(d) && slashes_buyer(c) == slashes_buyer(d)) ==> c == d,
{
}

} // verus!
