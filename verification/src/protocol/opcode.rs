//! The registry of BAP operation codes.
use vstd::prelude::*;
use crate::text::{hex_padded, push_hex, string_push, string_push_str};


verus! {

#[derive(Debug, Clone, Copy, PartialEq, Eq, Hash, Structural)]
pub enum Opcode {
    Signon,
    SignonExtended,
    QueueZ,
    AccountSummary,
    CharacterInventory,
    EquipItem,
    TransferItem,
    SetItemLockState,
    SetSocketSelection,
    ActivityMatchmaking,
    ActivityJoin,
    ActivityLeave,
    FireteamBroadcast,
    BindUdp,
    Unknown(u16),
}

/// The operation a wire code names; codes outside the registry stay `Unknown`.
pub open spec fn opcode_from_code(value: u16) -> Opcode {
    if value == 0x0101 {
        Opcode::Signon
    } else if value == 0x0102 {
        Opcode::SignonExtended
    } else if value == 0x0103 {
        Opcode::QueueZ
    } else if value == 0x0205 {
        Opcode::AccountSummary
    } else if value == 0x0206 {
        Opcode::CharacterInventory
    } else if value == 0x0501 {
        Opcode::EquipItem
    } else if value == 0x0503 {
        Opcode::TransferItem
    } else if value == 0x0504 {
        Opcode::SetItemLockState
    } else if value == 0x0505 {
        Opcode::SetSocketSelection
    } else if value == 0x0601 {
        Opcode::ActivityMatchmaking
    } else if value == 0x0602 {
        Opcode::ActivityJoin
    } else if value == 0x0603 {
        Opcode::ActivityLeave
    } else if value == 0x0604 {
        Opcode::FireteamBroadcast
    } else if value == 0x0701 {
        Opcode::BindUdp
    } else {
        Opcode::Unknown(value)
    }
}

/// The wire code of an operation.
pub open spec fn opcode_code(op: Opcode) -> u16 {
    match op {
        Opcode::Signon => 0x0101,
        Opcode::SignonExtended => 0x0102,
        Opcode::QueueZ => 0x0103,
        Opcode::AccountSummary => 0x0205,
        Opcode::CharacterInventory => 0x0206,
        Opcode::EquipItem => 0x0501,
        Opcode::TransferItem => 0x0503,
        Opcode::SetItemLockState => 0x0504,
        Opcode::SetSocketSelection => 0x0505,
        Opcode::ActivityMatchmaking => 0x0601,
        Opcode::ActivityJoin => 0x0602,
        Opcode::ActivityLeave => 0x0603,
        Opcode::FireteamBroadcast => 0x0604,
        Opcode::BindUdp => 0x0701,
        Opcode::Unknown(val) => val,
    }
}

/// An opcode that decoding can produce: a registered operation, or `Unknown`
/// holding a code the registry does not name.
pub open spec fn opcode_is_canonical(op: Opcode) -> bool {
    opcode_from_code(opcode_code(op)) == op
}

/// Every wire code survives the trip through `Opcode` unchanged.
pub proof fn lemma_opcode_code_roundtrip(value: u16)
    ensures
        opcode_code(opcode_from_code(value)) == value,
{
}

/// Every registered operation, and every `Unknown` holding an unregistered
/// code, survives the trip through its wire code unchanged.
pub proof fn lemma_opcode_roundtrip(op: Opcode)
    requires
        !(op matches Opcode::Unknown(v) && opcode_from_code(v) != Opcode::Unknown(v)),
    ensures
        opcode_from_code(opcode_code(op)) == op,
{
}

impl Opcode {
    pub fn from_code(value: u16) -> (op: Opcode)
        ensures
            op == opcode_from_code(value),
    {
        match value {
            0x0101 => Opcode::Signon,
            0x0102 => Opcode::SignonExtended,
            0x0103 => Opcode::QueueZ,
            0x0205 => Opcode::AccountSummary,
            0x0206 => Opcode::CharacterInventory,
            0x0501 => Opcode::EquipItem,
            0x0503 => Opcode::TransferItem,
            0x0504 => Opcode::SetItemLockState,
            0x0505 => Opcode::SetSocketSelection,
            0x0601 => Opcode::ActivityMatchmaking,
            0x0602 => Opcode::ActivityJoin,
            0x0603 => Opcode::ActivityLeave,
            0x0604 => Opcode::FireteamBroadcast,
            0x0701 => Opcode::BindUdp,
            other => Opcode::Unknown(other),
        }
    }

    pub fn code(self) -> (v: u16)
        ensures
            v == opcode_code(self),
    {
        match self {
            Opcode::Signon => 0x0101,
            Opcode::SignonExtended => 0x0102,
            Opcode::QueueZ => 0x0103,
            Opcode::AccountSummary => 0x0205,
            Opcode::CharacterInventory => 0x0206,
            Opcode::EquipItem => 0x0501,
            Opcode::TransferItem => 0x0503,
            Opcode::SetItemLockState => 0x0504,
            Opcode::SetSocketSelection => 0x0505,
            Opcode::ActivityMatchmaking => 0x0601,
            Opcode::ActivityJoin => 0x0602,
            Opcode::ActivityLeave => 0x0603,
            Opcode::FireteamBroadcast => 0x0604,
            Opcode::BindUdp => 0x0701,
            Opcode::Unknown(val) => val,
        }
    }
}

impl From<u16> for Opcode {
    fn from(value: u16) -> (op: Opcode) {
        Opcode::from_code(value)
    }
}

impl vstd::std_specs::convert::FromSpecImpl<u16> for Opcode {
    open spec fn obeys_from_spec() -> bool {
        true
    }

    open spec fn from_spec(v: u16) -> Opcode {
        opcode_from_code(v)
    }
}

impl From<Opcode> for u16 {
    fn from(op: Opcode) -> (v: u16) {
        op.code()
    }
}

impl vstd::std_specs::convert::FromSpecImpl<Opcode> for u16 {
    open spec fn obeys_from_spec() -> bool {
        true
    }

    open spec fn from_spec(op: Opcode) -> u16 {
        opcode_code(op)
    }
}

/// The name an opcode is shown by.
pub open spec fn opcode_name(op: Opcode) -> Seq<char> {
    match op {
        Opcode::Signon => "Signon"@,
        Opcode::SignonExtended => "SignonExtended"@,
        Opcode::QueueZ => "QueueZ"@,
        Opcode::AccountSummary => "AccountSummary"@,
        Opcode::CharacterInventory => "CharacterInventory"@,
        Opcode::EquipItem => "EquipItem"@,
        Opcode::TransferItem => "TransferItem"@,
        Opcode::SetItemLockState => "SetItemLockState"@,
        Opcode::SetSocketSelection => "SetSocketSelection"@,
        Opcode::ActivityMatchmaking => "ActivityMatchmaking"@,
        Opcode::ActivityJoin => "ActivityJoin"@,
        Opcode::ActivityLeave => "ActivityLeave"@,
        Opcode::FireteamBroadcast => "FireteamBroadcast"@,
        Opcode::BindUdp => "BindUdp"@,
        Opcode::Unknown(_) => "UnknownOpcode"@,
    }
}

/// How an opcode is shown: its name and its code as four upper-case
/// hexadecimal digits, for example `QueueZ (0x0103)`.
pub open spec fn opcode_label(op: Opcode) -> Seq<char> {
    opcode_name(op) + " (0x"@ + hex_padded(opcode_code(op) as nat, 4, true) + ")"@
}

impl Opcode {
    fn name(self) -> (s: &'static str)
        ensures
            s@ == opcode_name(self),
    {
        match self {
            Opcode::Signon => "Signon",
            Opcode::SignonExtended => "SignonExtended",
            Opcode::QueueZ => "QueueZ",
            Opcode::AccountSummary => "AccountSummary",
            Opcode::CharacterInventory => "CharacterInventory",
            Opcode::EquipItem => "EquipItem",
            Opcode::TransferItem => "TransferItem",
            Opcode::SetItemLockState => "SetItemLockState",
            Opcode::SetSocketSelection => "SetSocketSelection",
            Opcode::ActivityMatchmaking => "ActivityMatchmaking",
            Opcode::ActivityJoin => "ActivityJoin",
            Opcode::ActivityLeave => "ActivityLeave",
            Opcode::FireteamBroadcast => "FireteamBroadcast",
            Opcode::BindUdp => "BindUdp",
            Opcode::Unknown(_) => "UnknownOpcode",
        }
    }

    /// The opcode as shown to people.
    pub fn to_string(&self) -> (s: String)
        ensures
            s@ == opcode_label(*self),
    {
        let mut s = self.name().to_owned();
        string_push_str(&mut s, " (0x");
        push_hex(&mut s, self.code() as u64, 4, true);
        string_push(&mut s, ')');
        proof {
            assert(")"@ =~= seq![')']) by {
                reveal_strlit(")");
            }
        }
        s
    }
}

} // verus!
