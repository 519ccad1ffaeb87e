use vstd::prelude::*;

use crate::domain::ids::BleAddress;
use crate::domain::profile::{ConnectionProfile, TransportKind};
use crate::text::{ascii_upper, parse_unsigned, parse_unsigned_spec};

verus! {

/// The connection screen.
#[derive(Debug)]
pub struct ConnectUi {
    pub add: AddForm,
}

impl Default for ConnectUi {
    fn default() -> (r: Self)
        ensures
            !r.add.open && r.add.kind is None,
    {
        ConnectUi { add: AddForm::default() }
    }
}

/// The form for adding a connection profile.
#[derive(Debug)]
pub struct AddForm {
    pub open: bool,
    pub kind: Option<TransportKind>,
    pub name: String,
    pub host: String,
    pub port: String,
    pub path: String,
    pub address: String,
}

impl Default for AddForm {
    fn default() -> (r: Self)
        ensures
            !r.open,
            r.kind is None,
            r.name@.len() == 0 && r.host@.len() == 0 && r.port@.len() == 0 && r.path@.len() == 0
                && r.address@.len() == 0,
    {
        AddForm {
            open: false,
            kind: None,
            name: String::new(),
            host: String::new(),
            port: String::new(),
            path: String::new(),
            address: String::new(),
        }
    }
}

/// `r` is the profile the form describes: none without a kind, or for a
/// TCP profile whose port is not a number from 0 to 65535; a Bluetooth
/// address is kept upper-cased.
pub open spec fn profile_of_form(form: AddForm, r: Option<ConnectionProfile>) -> bool {
    match form.kind {
        None => r is None,
        Some(TransportKind::Ble) => r matches Some(ConnectionProfile::Ble { name, address })
            && name == form.name && address@ == form.address@.map_values(|c: char| ascii_upper(c)),
        Some(TransportKind::Serial) => r == Some(
            ConnectionProfile::Serial { name: form.name, path: form.path },
        ),
        Some(TransportKind::Tcp) => match parse_unsigned_spec(form.port@, 65535) {
            Some(p) => r == Some(ConnectionProfile::Tcp { name: form.name, host: form.host, port: p as u16 }),
            None => r is None,
        },
    }
}

/// The profile the form describes, if it describes one.
pub fn build_profile(form: &AddForm) -> (r: Option<ConnectionProfile>)
    ensures
        profile_of_form(*form, r),
{
    let kind = match form.kind {
        Some(k) => k,
        None => {
            return None;
        },
    };
    match kind {
        TransportKind::Ble => Some(
            ConnectionProfile::Ble {
                name: form.name.clone(),
                address: BleAddress::new(form.address.as_str()),
            },
        ),
        TransportKind::Serial => Some(
            ConnectionProfile::Serial { name: form.name.clone(), path: form.path.clone() },
        ),
        TransportKind::Tcp => {
            match parse_unsigned(form.port.as_str(), 65535) {
                Some(p) => Some(
                    ConnectionProfile::Tcp {
                        name: form.name.clone(),
                        host: form.host.clone(),
                        port: p as u16,
                    },
                ),
                None => None,
            }
        },
    }
}

} // verus!
