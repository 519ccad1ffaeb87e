use vstd::prelude::*;

use crate::domain::ids::ChannelIndex;
use crate::text::{decimal, push_decimal, string_of};

verus! {

/// Role of a channel slot.
#[derive(Copy, Clone, Debug, PartialEq, Eq, Structural)]
pub enum ChannelRole {
    Primary,
    Secondary,
    Disabled,
}

/// One channel slot of a radio.
#[derive(Debug, PartialEq, Eq)]
pub struct Channel {
    pub index: ChannelIndex,
    pub role: ChannelRole,
    pub name: String,
    pub psk: Vec<u8>,
    pub uplink_enabled: bool,
    pub downlink_enabled: bool,
    pub position_precision: u32,
}

/// A copy of the byte vector `v`.
pub fn clone_bytes(v: &Vec<u8>) -> (r: Vec<u8>)
    ensures
        r@ == v@,
{
    let r = v.clone();
    assert(r@ =~= v@);
    r
}

/// A channel slot as plain values.
pub struct ChannelView {
    pub index: ChannelIndex,
    pub role: ChannelRole,
    pub name: Seq<char>,
    pub psk: Seq<u8>,
    pub uplink_enabled: bool,
    pub downlink_enabled: bool,
    pub position_precision: u32,
}

impl View for Channel {
    type V = ChannelView;

    open spec fn view(&self) -> ChannelView {
        ChannelView {
            index: self.index,
            role: self.role,
            name: self.name@,
            psk: self.psk@,
            uplink_enabled: self.uplink_enabled,
            downlink_enabled: self.downlink_enabled,
            position_precision: self.position_precision,
        }
    }
}

impl Clone for Channel {
    fn clone(&self) -> (r: Self)
        ensures
            r@ == self@,
    {
        Channel {
            index: self.index,
            role: self.role,
            name: self.name.clone(),
            psk: clone_bytes(&self.psk),
            uplink_enabled: self.uplink_enabled,
            downlink_enabled: self.downlink_enabled,
            position_precision: self.position_precision,
        }
    }
}

/// How a pre-shared key is described to the user, by its length.
pub open spec fn psk_summary_of(psk: Seq<u8>) -> PskSummary {
    if psk.len() == 0 {
        PskSummary::Unencrypted
    } else if psk.len() == 1 {
        PskSummary::Preset(psk[0])
    } else if psk.len() == 16 {
        PskSummary::Aes128
    } else if psk.len() == 32 {
        PskSummary::Aes256
    } else {
        PskSummary::Other(psk.len() as usize)
    }
}

impl Channel {
    /// The channel has a pre-shared key (of any length).
    pub fn has_psk(&self) -> (r: bool)
        ensures
            r == (self.psk@.len() > 0),
    {
        self.psk.len() != 0
    }

    /// Classifies the pre-shared key: none, a one-byte preset number, an AES
    /// key of 16 or 32 bytes, or some other length.
    pub fn psk_summary(&self) -> (r: PskSummary)
        ensures
            r == psk_summary_of(self.psk@),
    {
        let n = self.psk.len();
        if n == 0 {
            PskSummary::Unencrypted
        } else if n == 1 {
            PskSummary::Preset(self.psk[0])
        } else if n == 16 {
            PskSummary::Aes128
        } else if n == 32 {
            PskSummary::Aes256
        } else {
            PskSummary::Other(n)
        }
    }
}

/// What kind of pre-shared key a channel has.
#[derive(Copy, Clone, Debug, Eq, PartialEq, Structural)]
pub enum PskSummary {
    /// No key: the channel is not encrypted.
    Unencrypted,
    /// A one-byte reference to one of the firmware's default keys.
    Preset(u8),
    Aes128,
    Aes256,
    /// A key of some other length, in bytes.
    Other(usize),
}

/// The text `PskSummary::label` gives.
pub open spec fn psk_label_text(s: PskSummary) -> Seq<char> {
    match s {
        PskSummary::Unencrypted => "no encryption"@,
        PskSummary::Preset(n) => "default preset #"@ + decimal(n as nat),
        PskSummary::Aes128 => "AES128"@,
        PskSummary::Aes256 => "AES256"@,
        PskSummary::Other(n) => decimal(n as nat) + "B"@,
    }
}

impl PskSummary {
    /// A short human-readable description of the key.
    pub fn label(self) -> (r: String)
        ensures
            r@ == psk_label_text(self),
    {
        match self {
            Self::Unencrypted => string_of("no encryption"),
            Self::Preset(n) => {
                let mut s = string_of("default preset #");
                push_decimal(&mut s, n as u64);
                s
            },
            Self::Aes128 => string_of("AES128"),
            Self::Aes256 => string_of("AES256"),
            Self::Other(n) => {
                let mut s = String::new();
                push_decimal(&mut s, n as u64);
                s.append("B");
                s
            },
        }
    }
}

} // verus!
