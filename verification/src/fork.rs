//! From the name of a protocol version to the rule set that the engine
//! runs.

use crate::model::SpecName;
use vstd::prelude::*;

verus! {

/// A rule set of the engine. The engine knows each by a number, and a rule
/// set is in force under every rule set with a number at least as large.
#[derive(Clone, Copy, Debug, PartialEq, Eq)]
pub enum SpecId {
    Frontier,
    Homestead,
    Tangerine,
    /// Introduced the clearing of empty accounts.
    SpuriousDragon,
    Byzantium,
    Petersburg,
    Istanbul,
    Berlin,
    London,
    Merge,
    Shanghai,
    Cancun,
}

/// The numbers that the engine accepts for a rule set.
pub open spec fn known_spec_number(n: u8) -> bool {
    n <= 19 || n == 255
}

impl SpecId {
    /// The number by which the engine knows the rule set.
    pub open spec fn spec_number(self) -> u8 {
        match self {
            SpecId::Frontier => 0,
            SpecId::Homestead => 2,
            SpecId::Tangerine => 4,
            SpecId::SpuriousDragon => 5,
            SpecId::Byzantium => 6,
            SpecId::Petersburg => 8,
            SpecId::Istanbul => 9,
            SpecId::Berlin => 11,
            SpecId::London => 12,
            SpecId::Merge => 15,
            SpecId::Shanghai => 16,
            SpecId::Cancun => 17,
        }
    }

    pub fn number(&self) -> (n: u8)
        ensures
            n == self.spec_number(),
            known_spec_number(n),
    {
        match self {
            SpecId::Frontier => 0,
            SpecId::Homestead => 2,
            SpecId::Tangerine => 4,
            SpecId::SpuriousDragon => 5,
            SpecId::Byzantium => 6,
            SpecId::Petersburg => 8,
            SpecId::Istanbul => 9,
            SpecId::Berlin => 11,
            SpecId::London => 12,
            SpecId::Merge => 15,
            SpecId::Shanghai => 16,
            SpecId::Cancun => 17,
        }
    }

    /// Whether the rule set `other` is in force under `our`.
    pub open spec fn spec_enabled(our: SpecId, other: SpecId) -> bool {
        our.spec_number() >= other.spec_number()
    }

    pub fn enabled(our: SpecId, other: SpecId) -> (r: bool)
        ensures
            r == SpecId::spec_enabled(our, other),
    {
        our.number() >= other.number()
    }

    /// Whether accounts left empty by a transaction are removed under this
    /// rule set.
    pub open spec fn spec_state_clear(self) -> bool {
        SpecId::spec_enabled(self, SpecId::SpuriousDragon)
    }

    pub fn state_clear(&self) -> (r: bool)
        ensures
            r == self.spec_state_clear(),
    {
        SpecId::enabled(*self, SpecId::SpuriousDragon)
    }
}

impl SpecName {
    /// Names that are never checked: the two that a later version
    /// replaced, and the one that stands for any unknown name.
    pub open spec fn spec_is_excluded(self) -> bool {
        self == SpecName::ByzantiumToConstantinopleAt5 || self == SpecName::Constantinople || self
            == SpecName::Unknown
    }

    pub fn is_excluded(&self) -> (r: bool)
        ensures
            r == self.spec_is_excluded(),
    {
        match self {
            SpecName::ByzantiumToConstantinopleAt5 => true,
            SpecName::Constantinople => true,
            SpecName::Unknown => true,
            _ => false,
        }
    }

    /// The rule set of a name; none for an excluded name.
    pub open spec fn spec_to_spec_id(self) -> Option<SpecId> {
        match self {
            SpecName::Frontier => Some(SpecId::Frontier),
            SpecName::Homestead | SpecName::FrontierToHomesteadAt5 => Some(SpecId::Homestead),
            SpecName::EIP150 | SpecName::HomesteadToDaoAt5 | SpecName::HomesteadToEIP150At5 => Some(
                SpecId::Tangerine,
            ),
            SpecName::EIP158 => Some(SpecId::SpuriousDragon),
            SpecName::Byzantium | SpecName::EIP158ToByzantiumAt5 => Some(SpecId::Byzantium),
            SpecName::ConstantinopleFix | SpecName::ByzantiumToConstantinopleFixAt5 => Some(
                SpecId::Petersburg,
            ),
            SpecName::Istanbul => Some(SpecId::Istanbul),
            SpecName::Berlin => Some(SpecId::Berlin),
            SpecName::London | SpecName::BerlinToLondonAt5 => Some(SpecId::London),
            SpecName::Merge => Some(SpecId::Merge),
            SpecName::Shanghai => Some(SpecId::Shanghai),
            SpecName::Cancun => Some(SpecId::Cancun),
            SpecName::ByzantiumToConstantinopleAt5 | SpecName::Constantinople | SpecName::Unknown => None,
        }
    }

    pub fn to_spec_id(&self) -> (r: Option<SpecId>)
        ensures
            r == self.spec_to_spec_id(),
            r is None <==> self.spec_is_excluded(),
    {
        match self {
            SpecName::Frontier => Some(SpecId::Frontier),
            SpecName::Homestead | SpecName::FrontierToHomesteadAt5 => Some(SpecId::Homestead),
            SpecName::EIP150 | SpecName::HomesteadToDaoAt5 | SpecName::HomesteadToEIP150At5 => Some(
                SpecId::Tangerine,
            ),
            SpecName::EIP158 => Some(SpecId::SpuriousDragon),
            SpecName::Byzantium | SpecName::EIP158ToByzantiumAt5 => Some(SpecId::Byzantium),
            SpecName::ConstantinopleFix | SpecName::ByzantiumToConstantinopleFixAt5 => Some(
                SpecId::Petersburg,
            ),
            SpecName::Istanbul => Some(SpecId::Istanbul),
            SpecName::Berlin => Some(SpecId::Berlin),
            SpecName::London | SpecName::BerlinToLondonAt5 => Some(SpecId::London),
            SpecName::Merge => Some(SpecId::Merge),
            SpecName::Shanghai => Some(SpecId::Shanghai),
            SpecName::Cancun => Some(SpecId::Cancun),
            SpecName::ByzantiumToConstantinopleAt5 | SpecName::Constantinople | SpecName::Unknown => None,
        }
    }
}

} // verus!
