use vstd::prelude::*;

use crate::domain::ids::BleAddress;
use crate::text::{decimal, lemma_decimal_digits, lemma_decimal_injective, push_decimal, push_str, string_of};

verus! {

/// The kind of link to a radio.
#[derive(Copy, Clone, Debug, Eq, PartialEq, Structural)]
pub enum TransportKind {
    Ble,
    Serial,
    Tcp,
}

/// A saved way of reaching a radio. The serial device path is kept as text.
#[derive(Debug)]
pub enum ConnectionProfile {
    Ble { name: String, address: BleAddress },
    Serial { name: String, path: String },
    Tcp { name: String, host: String, port: u16 },
}

impl Clone for ConnectionProfile {
    fn clone(&self) -> (r: Self)
        ensures
            r == *self,
    {
        match self {
            ConnectionProfile::Ble { name, address } => ConnectionProfile::Ble {
                name: name.clone(),
                address: address.clone(),
            },
            ConnectionProfile::Serial { name, path } => ConnectionProfile::Serial {
                name: name.clone(),
                path: path.clone(),
            },
            ConnectionProfile::Tcp { name, host, port } => ConnectionProfile::Tcp {
                name: name.clone(),
                host: host.clone(),
                port: *port,
            },
        }
    }
}

/// The stable key of a profile: transport prefix and address.
pub open spec fn profile_key(p: ConnectionProfile) -> Seq<char> {
    match p {
        ConnectionProfile::Ble { address, .. } => "ble:"@ + address@,
        ConnectionProfile::Serial { path, .. } => "serial:"@ + path@,
        ConnectionProfile::Tcp { host, port, .. } => "tcp:"@ + host@ + ":"@ + decimal(port as nat),
    }
}

/// The user-given name of a profile.
pub open spec fn profile_name(p: ConnectionProfile) -> Seq<char> {
    match p {
        ConnectionProfile::Ble { name, .. } => name@,
        ConnectionProfile::Serial { name, .. } => name@,
        ConnectionProfile::Tcp { name, .. } => name@,
    }
}

impl ConnectionProfile {
    /// The kind of link this profile uses.
    pub fn kind(&self) -> (r: TransportKind)
        ensures
            r == match *self {
                ConnectionProfile::Ble { .. } => TransportKind::Ble,
                ConnectionProfile::Serial { .. } => TransportKind::Serial,
                ConnectionProfile::Tcp { .. } => TransportKind::Tcp,
            },
    {
        match self {
            Self::Ble { .. } => TransportKind::Ble,
            Self::Serial { .. } => TransportKind::Serial,
            Self::Tcp { .. } => TransportKind::Tcp,
        }
    }

    /// The user-given display name.
    pub fn name(&self) -> (r: &str)
        ensures
            r@ == profile_name(*self),
    {
        match self {
            Self::Ble { name, .. } => name.as_str(),
            Self::Serial { name, .. } => name.as_str(),
            Self::Tcp { name, .. } => name.as_str(),
        }
    }

    /// Stable identifier derived from the transport's address (the display
    /// name is user-editable and not a reliable key): `ble:<address>`,
    /// `serial:<path>` or `tcp:<host>:<port>`.
    pub fn key(&self) -> (r: String)
        ensures
            r@ == profile_key(*self),
    {
        match self {
            Self::Ble { address, .. } => {
                let mut s = string_of("ble:");
                push_str(&mut s, address.as_str());
                s
            },
            Self::Serial { path, .. } => {
                let mut s = string_of("serial:");
                push_str(&mut s, path.as_str());
                s
            },
            Self::Tcp { host, port, .. } => {
                let mut s = string_of("tcp:");
                push_str(&mut s, host.as_str());
                push_str(&mut s, ":");
                push_decimal(&mut s, *port as u64);
                s
            },
        }
    }
}


/// Whether two profiles reach the same radio the same way: same kind of
/// link and the same address, path, or host and port. Names do not count.
pub open spec fn same_link(p: ConnectionProfile, q: ConnectionProfile) -> bool {
    match (p, q) {
        (ConnectionProfile::Ble { address: a, .. }, ConnectionProfile::Ble { address: b, .. }) => a@ == b@,
        (ConnectionProfile::Serial { path: a, .. }, ConnectionProfile::Serial { path: b, .. }) => a@ == b@,
        (
            ConnectionProfile::Tcp { host: h, port: n, .. },
            ConnectionProfile::Tcp { host: g, port: m, .. },
        ) => h@ == g@ && n == m,
        _ => false,
    }
}

/// `h:d` splits back into `h` and `d` when `d` is a decimal rendering.
proof fn lemma_host_port_split(h: Seq<char>, n: nat, g: Seq<char>, m: nat)
    requires
        h + ":"@ + decimal(n) == g + ":"@ + decimal(m),
    ensures
        h == g,
        n == m,
{
    reveal_strlit(":");
    lemma_decimal_digits(n);
    lemma_decimal_digits(m);
    let d = decimal(n);
    let e = decimal(m);
    let hc = h + ":"@;
    let gc = g + ":"@;
    let t = hc + d;
    let u = gc + e;
    assert(hc.len() == h.len() + 1);
    assert(gc.len() == g.len() + 1);
    assert(t == u);
    assert(t.len() == hc.len() + d.len());
    assert(u.len() == gc.len() + e.len());
    if d.len() < e.len() {
        let j = h.len() as int;
        assert(t[j] == hc[j]);
        assert(t[j] == ':');
        assert(u[j] == e[j - gc.len()]);
        assert(false);
    } else if e.len() < d.len() {
        let j = g.len() as int;
        assert(u[j] == gc[j]);
        assert(u[j] == ':');
        assert(t[j] == d[j - hc.len()]);
        assert(false);
    }
    assert(h =~= t.subrange(0, h.len() as int));
    assert(g =~= u.subrange(0, g.len() as int));
    assert(d =~= t.subrange(h.len() + 1int, t.len() as int));
    assert(e =~= u.subrange(g.len() + 1int, u.len() as int));
    lemma_decimal_injective(n, m);
}

/// Two profiles have the same key exactly when they reach the same radio
/// the same way; renaming a profile never changes its key.
pub proof fn lemma_profile_key_injective(p: ConnectionProfile, q: ConnectionProfile)
    ensures
        profile_key(p) == profile_key(q) <==> same_link(p, q),
{
    reveal_strlit("ble:");
    reveal_strlit("serial:");
    reveal_strlit("tcp:");
    reveal_strlit(":");
    let k = profile_key(p);
    let l = profile_key(q);
    match (p, q) {
        (ConnectionProfile::Ble { address: a, .. }, ConnectionProfile::Ble { address: b, .. }) => {
            if k == l {
                assert(a@ =~= k.subrange(4, k.len() as int));
                assert(b@ =~= l.subrange(4, l.len() as int));
            }
        },
        (ConnectionProfile::Serial { path: a, .. }, ConnectionProfile::Serial { path: b, .. }) => {
            if k == l {
                assert(a@ =~= k.subrange(7, k.len() as int));
                assert(b@ =~= l.subrange(7, l.len() as int));
            }
        },
        (
            ConnectionProfile::Tcp { host: h, port: n, .. },
            ConnectionProfile::Tcp { host: g, port: m, .. },
        ) => {
            if k == l {
                assert(h@ + ":"@ + decimal(n as nat) =~= k.subrange(4, k.len() as int));
                assert(g@ + ":"@ + decimal(m as nat) =~= l.subrange(4, l.len() as int));
                lemma_host_port_split(h@, n as nat, g@, m as nat);
            }
        },
        _ => {
            if k == l {
                assert(k[0] == l[0]);
            }
        },
    }
}

} // verus!
