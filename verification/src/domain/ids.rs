use vstd::prelude::*;

use crate::text::to_ascii_upper;
use rand::RngExt;

verus! {

/// A mesh node number.
#[derive(Copy, Clone, Eq, PartialEq, Hash, Debug, Default, Structural)]
pub struct NodeId(pub u32);

/// The node number that addresses every node.
pub const BROADCAST_NUM: u32 = 0xFFFF_FFFF;

/// One of the eight channel slots of a radio, `0..=7`.
#[derive(Copy, Clone, Eq, PartialEq, Hash, Debug, Structural)]
pub struct ChannelIndex(u8);

impl ChannelIndex {
    /// The highest slot number.
    pub const MAX: u8 = 7;

    /// The slot number.
    pub closed spec fn value(self) -> u8 {
        self.0
    }

    #[verifier::type_invariant]
    spec fn in_range(self) -> bool {
        self.0 <= 7
    }

    /// The slot `value`, if it is at most `MAX`.
    pub fn new(value: u8) -> (r: Option<Self>)
        ensures
            value <= 7 ==> (r matches Some(c) && c.value() == value),
            value > 7 ==> r is None,
    {
        if value <= Self::MAX {
            Some(Self(value))
        } else {
            None
        }
    }

    /// Two slots with the same number are the same slot.
    pub proof fn lemma_same_value(a: Self, b: Self)
        requires
            a.value() == b.value(),
        ensures
            a == b,
    {
    }

    /// Slot 0, the primary channel.
    pub fn primary() -> (r: Self)
        ensures
            r.value() == 0,
    {
        Self(0)
    }

    /// The slot number.
    pub fn get(self) -> (r: u8)
        ensures
            r == self.value(),
            r <= 7,
    {
        proof {
            use_type_invariant(&self);
        }
        self.0
    }
}

/// Identifier of a mesh packet.
#[derive(Copy, Clone, Eq, PartialEq, Hash, Debug, Structural)]
pub struct PacketId(pub u32);

/// `rand::rng().random_range(1..=u32::MAX)`: a random value drawn from the
/// thread-local generator. Only its range is stated; which value comes back
/// depends on the generator's state.
#[verifier::external_body]
fn random_nonzero_u32() -> (r: u32)
    ensures
        r >= 1,
{
    rand::rng().random_range(1..=u32::MAX)
}

impl PacketId {
    /// A fresh random, non-zero packet id.
    pub fn random() -> (r: Self)
        ensures
            r.0 >= 1,
    {
        Self(random_nonzero_u32())
    }
}

/// Nonce a client sends to ask the radio for its configuration.
#[derive(Copy, Clone, Eq, PartialEq, Hash, Debug, Structural)]
pub struct ConfigId(pub u32);

impl ConfigId {
    /// A fresh random, non-zero configuration nonce.
    pub fn random() -> (r: Self)
        ensures
            r.0 >= 1,
    {
        Self(random_nonzero_u32())
    }
}

/// A Bluetooth LE peripheral address, kept in upper case.
#[derive(Eq, PartialEq, Hash, Debug)]
pub struct BleAddress(String);

impl Clone for BleAddress {
    fn clone(&self) -> (r: Self)
        ensures
            r == *self,
    {
        Self(self.0.clone())
    }
}

impl View for BleAddress {
    type V = Seq<char>;

    closed spec fn view(&self) -> Seq<char> {
        self.0@
    }
}

impl BleAddress {
    /// The address `value` with ASCII letters made upper case.
    pub fn new(value: &str) -> (r: Self)
        ensures
            r@ == value@.map_values(|c: char| crate::text::ascii_upper(c)),
            r@ == upper_text(value@),
    {
        Self(to_ascii_upper(value))
    }

    /// The address text.
    pub fn as_str(&self) -> (r: &str)
        ensures
            r@ == self@,
    {
        self.0.as_str()
    }
}


/// An address text with ASCII letters made upper case, as `BleAddress::new`
/// keeps it.
pub open spec fn upper_text(s: Seq<char>) -> Seq<char> {
    s.map_values(|c: char| crate::text::ascii_upper(c))
}

/// Normalising an address text twice gives what normalising once gives, and
/// leaves no ASCII lower-case letter; so two addresses are the same exactly
/// when their upper-case forms agree.
pub proof fn lemma_address_normal_form(s: Seq<char>)
    ensures
        upper_text(upper_text(s)) == upper_text(s),
        forall|i: int| 0 <= i < s.len() ==> !('a' <= #[trigger] upper_text(s)[i] && upper_text(s)[i] <= 'z'),
{
    let n = upper_text(s);
    assert forall|i: int| 0 <= i < s.len() implies !('a' <= #[trigger] upper_text(s)[i] && upper_text(s)[i] <= 'z') by {
        let c = s[i];
        if 'a' <= c && c <= 'z' {
            assert(n[i] == ((c as u8) - 32) as char);
        }
    }
    assert(upper_text(n) =~= n);
}

} // verus!
