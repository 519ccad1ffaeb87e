use vstd::prelude::*;

use crate::domain::ids::BleAddress;
use crate::error::{ConnectError, PairingHint};
use crate::text::{chars_of, contains_seq, matches_at};

verus! {

/// A radio seen while scanning: its advertised name, address, signal
/// strength (dBm) and whether the system already has it paired.
#[derive(Debug)]
pub struct Discovered {
    pub name: String,
    pub address: BleAddress,
    pub rssi_dbm: Option<i16>,
    pub is_paired: bool,
}

/// Lower-case of an ASCII letter; every other character is left alone.
pub open spec fn ascii_lower(c: char) -> char {
    if 'A' <= c && c <= 'Z' {
        ((c as u8) + 32) as char
    } else {
        c
    }
}

fn to_ascii_lower(s: &str) -> (r: Vec<char>)
    ensures
        r@ == s@.map_values(|c: char| ascii_lower(c)),
{
    let v = chars_of(s);
    let mut out: Vec<char> = Vec::new();
    let mut i: usize = 0;
    while i < v.len()
        invariant
            v@ == s@,
            i <= v@.len(),
            out@ == s@.take(i as int).map_values(|c: char| ascii_lower(c)),
        decreases v@.len() - i,
    {
        let c = v[i];
        let l = if 'A' <= c && c <= 'Z' {
            ((c as u8) + 32) as char
        } else {
            c
        };
        out.push(l);
        i = i + 1;
        assert(out@ =~= s@.take(i as int).map_values(|c: char| ascii_lower(c)));
    }
    assert(s@.take(s@.len() as int) =~= s@);
    out
}

fn contains_chars(hay: &Vec<char>, needle: &Vec<char>) -> (r: bool)
    ensures
        r == contains_seq(hay@, needle@),
{
    if needle.len() > hay.len() {
        return false;
    }
    let last: usize = hay.len() - needle.len();
    let mut i: usize = 0;
    loop
        invariant
            last == hay@.len() - needle@.len(),
            i <= last,
            forall|k: int| 0 <= k < i ==> #[trigger] hay@.subrange(k, k + needle@.len()) != needle@,
        decreases last - i,
    {
        if matches_at(hay, needle, i) {
            return true;
        }
        if i == last {
            return false;
        }
        i = i + 1;
    }
}

/// How a failed connection attempt is reported: a message mentioning
/// "auth" (in any ASCII case) means the radio needs pairing first, with the
/// platform's pairing hint; anything else is a GATT failure with the message.
pub fn map_connect_error(msg: &str, hint: PairingHint) -> (r: ConnectError)
    ensures
        contains_seq(msg@.map_values(|c: char| ascii_lower(c)), "auth"@) ==> r
            == ConnectError::BlePairingRequired(hint),
        !contains_seq(msg@.map_values(|c: char| ascii_lower(c)), "auth"@) ==> (r matches ConnectError::BleGatt(m) && m@ == msg@),
{
    let lower = to_ascii_lower(msg);
    let needle = chars_of("auth");
    if contains_chars(&lower, &needle) {
        ConnectError::BlePairingRequired(hint)
    } else {
        ConnectError::BleGatt(String::from_str(msg))
    }
}

/// Whether a peripheral identifier names the radio at `address`: the same
/// text when ASCII letters are compared without regard to case.
pub open spec fn same_address_spec(id: Seq<char>, address: Seq<char>) -> bool {
    id.len() == address.len() && forall|k: int|
        0 <= k < id.len() ==> ascii_lower(#[trigger] id[k]) == ascii_lower(address[k])
}

/// Whether a peripheral identifier names the radio at `address`.
pub fn same_address(id: &str, address: &BleAddress) -> (r: bool)
    ensures
        r == same_address_spec(id@, address@),
{
    let a = to_ascii_lower(id);
    let b = to_ascii_lower(address.as_str());
    if a.len() != b.len() {
        return false;
    }
    let mut i: usize = 0;
    while i < a.len()
        invariant
            a@.len() == b@.len(),
            a@ == id@.map_values(|c: char| ascii_lower(c)),
            b@ == address@.map_values(|c: char| ascii_lower(c)),
            i <= a@.len(),
            forall|k: int| 0 <= k < i ==> ascii_lower(#[trigger] id@[k]) == ascii_lower(address@[k]),
        decreases a@.len() - i,
    {
        assert(a@[i as int] == ascii_lower(id@[i as int]));
        assert(b@[i as int] == ascii_lower(address@[i as int]));
        if a[i] != b[i] {
            return false;
        }
        i = i + 1;
    }
    true
}

} // verus!
