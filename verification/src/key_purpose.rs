//! What a key is for.

use vstd::prelude::*;

verus! {

/// What a key of a DID document is used for.
#[derive(Clone, Copy, Debug, PartialEq, Eq, Structural)]
pub enum KeyPurpose {
    Signing,
    Authentication,
    Encryption,
    /// Not determined.
    Unknown,
}

impl Default for KeyPurpose {
    fn default() -> (purpose: Self)
        ensures
            purpose == KeyPurpose::Unknown,
    {
        KeyPurpose::Unknown
    }
}

impl KeyPurpose {
    /// The purpose in a word.
    pub open spec fn word(self) -> Seq<char> {
        match self {
            KeyPurpose::Signing => "Signing"@,
            KeyPurpose::Authentication => "Authentication"@,
            KeyPurpose::Encryption => "Encryption"@,
            KeyPurpose::Unknown => "Unknown"@,
        }
    }

    /// The purpose in a word.
    pub fn name(self) -> (text: String)
        ensures
            text@ == self.word(),
    {
        let word = match self {
            KeyPurpose::Signing => "Signing",
            KeyPurpose::Authentication => "Authentication",
            KeyPurpose::Encryption => "Encryption",
            KeyPurpose::Unknown => "Unknown",
        };
        word.to_owned()
    }
}

/// A slot for a key on a hardware card.
#[derive(Clone, Copy, Debug, PartialEq, Eq, Structural)]
pub enum CardSlot {
    Signing,
    Authentication,
    Decryption,
    Other,
}

impl vstd::std_specs::convert::FromSpecImpl<CardSlot> for KeyPurpose {
    open spec fn obeys_from_spec() -> bool {
        true
    }

    open spec fn from_spec(v: CardSlot) -> KeyPurpose {
        match v {
            CardSlot::Signing => KeyPurpose::Signing,
            CardSlot::Authentication => KeyPurpose::Authentication,
            CardSlot::Decryption => KeyPurpose::Encryption,
            CardSlot::Other => KeyPurpose::Unknown,
        }
    }
}

impl From<CardSlot> for KeyPurpose {
    /// What the key in a card's slot is for.
    fn from(slot: CardSlot) -> (purpose: Self) {
        match slot {
            CardSlot::Signing => KeyPurpose::Signing,
            CardSlot::Authentication => KeyPurpose::Authentication,
            CardSlot::Decryption => KeyPurpose::Encryption,
            CardSlot::Other => KeyPurpose::Unknown,
        }
    }
}

/// Each slot of a card holds a key for what the slot is for, and a slot for
/// something else one whose purpose is not known.
pub proof fn a_slot_holds_a_key_for_its_purpose(slot: CardSlot, purpose: KeyPurpose)
    requires
        call_ensures(<KeyPurpose as From<CardSlot>>::from, (slot,), purpose),
    ensures
        slot is Signing <==> purpose is Signing,
        slot is Authentication <==> purpose is Authentication,
        slot is Decryption <==> purpose is Encryption,
        slot is Other <==> purpose is Unknown,
{
}

} // verus!
