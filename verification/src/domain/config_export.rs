use vstd::prelude::*;

use crate::domain::channel::{Channel, ChannelView};
use crate::domain::config::{
    BluetoothSettings, DeviceSettings, DisplaySettings, LoraSettings, NetworkSettings,
    PositionSettings, PowerSettings,
};
use crate::domain::snapshot::DeviceSnapshot;

verus! {

/// Version of the export document this build writes and reads.
pub const EXPORT_VERSION: u32 = 1;

/// A human-editable document holding every configuration section the client
/// can write back to a radio. Security keys are deliberately left out: they
/// belong to one radio's identity.
#[derive(Debug)]
pub struct ConfigExport {
    pub version: u32,
    pub owner: Owner,
    pub lora: Option<LoraSettings>,
    pub device: Option<DeviceSettings>,
    pub position: Option<PositionSettings>,
    pub power: Option<PowerSettings>,
    pub network: Option<NetworkSettings>,
    pub display: Option<DisplaySettings>,
    pub bluetooth: Option<BluetoothSettings>,
    pub channels: Vec<Channel>,
}

/// The names a radio announces for itself.
#[derive(Debug)]
pub struct Owner {
    pub long_name: String,
    pub short_name: String,
}

impl Default for Owner {
    fn default() -> (r: Self)
        ensures
            r.long_name@.len() == 0,
            r.short_name@.len() == 0,
    {
        Owner { long_name: String::new(), short_name: String::new() }
    }
}

#[verifier::external_type_specification]
#[verifier::external_body]
pub struct ExJsonError(serde_json::Error);

/// Why an export document was refused.
#[derive(Debug)]
pub enum ImportError {
    /// Not a well-formed export document.
    Parse(serde_json::Error),
    /// A document of another version.
    Version { found: u32 },
}

/// Copies of the channels `cs`.
pub fn clone_channels(cs: &Vec<Channel>) -> (r: Vec<Channel>)
    ensures
        r@.len() == cs@.len(),
        forall|i: int| 0 <= i < cs@.len() ==> #[trigger] r@[i]@ == cs@[i]@,
{
    let mut out: Vec<Channel> = Vec::new();
    let mut i: usize = 0;
    while i < cs.len()
        invariant
            i <= cs@.len(),
            out@.len() == i,
            forall|k: int| 0 <= k < i ==> #[trigger] out@[k]@ == cs@[k]@,
        decreases cs@.len() - i,
    {
        out.push(cs[i].clone());
        i = i + 1;
    }
    out
}

/// The views of the channels `cs`.
pub open spec fn channel_views(cs: Seq<Channel>) -> Seq<ChannelView> {
    cs.map_values(|c: Channel| c@)
}

/// `e` is the export of `snap`: the current version, the radio's names,
/// each configuration section and the channels.
pub open spec fn export_of(snap: DeviceSnapshot, e: ConfigExport) -> bool {
    &&& e.version == EXPORT_VERSION
    &&& e.owner.long_name == snap.long_name
    &&& e.owner.short_name == snap.short_name
    &&& e.lora == snap.lora
    &&& e.device == snap.device
    &&& e.position == snap.position
    &&& e.power == snap.power
    &&& e.network == snap.network
    &&& e.display == snap.display
    &&& e.bluetooth == snap.bluetooth
    &&& channel_views(e.channels@) == channel_views(snap.channels@)
}

/// The export document of a radio's current state.
pub fn export_snapshot(snapshot: &DeviceSnapshot) -> (r: ConfigExport)
    ensures
        export_of(*snapshot, r),
{
    let channels = clone_channels(&snapshot.channels);
    assert(channel_views(channels@) =~= channel_views(snapshot.channels@));
    ConfigExport {
        version: EXPORT_VERSION,
        owner: Owner {
            long_name: snapshot.long_name.clone(),
            short_name: snapshot.short_name.clone(),
        },
        lora: match &snapshot.lora {
            Some(s) => Some(s.clone()),
            None => None,
        },
        device: match &snapshot.device {
            Some(s) => Some(s.clone()),
            None => None,
        },
        position: match &snapshot.position {
            Some(s) => Some(s.clone()),
            None => None,
        },
        power: match &snapshot.power {
            Some(s) => Some(s.clone()),
            None => None,
        },
        network: match &snapshot.network {
            Some(s) => Some(s.clone()),
            None => None,
        },
        display: match &snapshot.display {
            Some(s) => Some(s.clone()),
            None => None,
        },
        bluetooth: match &snapshot.bluetooth {
            Some(s) => Some(s.clone()),
            None => None,
        },
        channels,
    }
}

/// Accepts a parsed export document only when it has this build's version.
pub fn check_version(parsed: ConfigExport) -> (r: Result<ConfigExport, ImportError>)
    ensures
        parsed.version == EXPORT_VERSION ==> r == Ok::<ConfigExport, ImportError>(parsed),
        parsed.version != EXPORT_VERSION ==> (r matches Err(ImportError::Version { found })
            && found == parsed.version),
{
    if parsed.version != EXPORT_VERSION {
        return Err(ImportError::Version { found: parsed.version });
    }
    Ok(parsed)
}

impl ImportError {
    /// The text the error is shown with (the parse error's own text follows
    /// its prefix).
    pub fn message(&self) -> (r: String)
        ensures
            match self {
                ImportError::Parse(_) => r@.len() >= 27 && r@.take(27)
                    == "not a valid config export: "@,
                ImportError::Version { found } => r@ == "unsupported export version "@ + crate::text::decimal(*found as nat) + "; this build understands v1"@,
            },
    {
        match self {
            ImportError::Parse(e) => {
                let mut s = crate::text::string_of("not a valid config export: ");
                let detail = json_error_text(e);
                crate::text::push_str(&mut s, detail.as_str());
                proof {
                    reveal_strlit("not a valid config export: ");
                    assert(s@.take(27) =~= "not a valid config export: "@);
                }
                s
            },
            ImportError::Version { found } => {
                let mut s = crate::text::string_of("unsupported export version ");
                crate::text::push_decimal(&mut s, *found as u64);
                crate::text::push_str(&mut s, "; this build understands v1");
                s
            },
        }
    }
}

/// `serde_json::Error`'s `Display` text. Nothing is stated of it.
#[verifier::external_body]
fn json_error_text(e: &serde_json::Error) -> String {
    format!("{e}")
}

} // verus!
