use vstd::prelude::*;

use std::collections::{HashMap, HashSet};

use rand::Rng;

use crate::domain::channel::{Channel, ChannelRole, ChannelView};
use crate::domain::ids::ChannelIndex;
use crate::domain::snapshot::{first_channel_at, DeviceSnapshot};
use crate::text::{decimal, push_decimal, push_str, string_of};

verus! {

broadcast use vstd::std_specs::hash::group_hash_axioms;

/// The number of channel slots of a radio.
pub const MAX_CHANNELS: u8 = 8;
/// The size of a freshly generated key (AES-256), in bytes.
pub const PSK_BYTES: usize = 32;
/// The one-byte key that selects the stock default key.
pub const DEFAULT_PRESET: u8 = 1;

/// The channels tab: a draft per slot, the slots with unsaved edits, the
/// slot awaiting save confirmation, the last save, and the expanded slots.
#[derive(Debug)]
pub struct ChannelsUi {
    pub drafts: HashMap<u8, Channel>,
    pub dirty: HashSet<u8>,
    pub pending_save: Option<u8>,
    pub last_save: Option<String>,
    pub expanded: HashSet<u8>,
}

impl Default for ChannelsUi {
    fn default() -> (r: Self)
        ensures
            r.drafts@.is_empty(),
            r.dirty@.is_empty(),
            r.pending_save is None,
            r.last_save is None,
            r.expanded@.is_empty(),
    {
        ChannelsUi {
            drafts: HashMap::new(),
            dirty: HashSet::new(),
            pending_save: None,
            last_save: None,
            expanded: HashSet::new(),
        }
    }
}

/// `c` is the empty channel of slot `index`: primary for slot 0, disabled
/// otherwise, with nothing set (a slot beyond 7 falls back to slot 0).
pub open spec fn empty_channel_ok(index: u8, c: Channel) -> bool {
    &&& c.index.value() == if index <= 7 {
        index
    } else {
        0
    }
    &&& c.role == if index == 0 {
        ChannelRole::Primary
    } else {
        ChannelRole::Disabled
    }
    &&& c.name@.len() == 0
    &&& c.psk@.len() == 0
    &&& !c.uplink_enabled
    &&& !c.downlink_enabled
    &&& c.position_precision == 0
}

/// The empty channel of slot `index`.
pub fn empty_channel(index: u8) -> (r: Channel)
    ensures
        empty_channel_ok(index, r),
{
    Channel {
        index: match ChannelIndex::new(index) {
            Some(i) => i,
            None => ChannelIndex::primary(),
        },
        role: if index == 0 {
            ChannelRole::Primary
        } else {
            ChannelRole::Disabled
        },
        name: String::new(),
        psk: Vec::new(),
        uplink_enabled: false,
        downlink_enabled: false,
        position_precision: 0,
    }
}

impl ChannelsUi {
    /// Opens or closes the editor of slot `index`.
    pub fn toggle_expanded(&mut self, index: u8, expanded: bool)
        ensures
            final(self).expanded@ == if expanded {
                old(self).expanded@.insert(index)
            } else {
                old(self).expanded@.remove(index)
            },
            final(self).drafts@ == old(self).drafts@,
            final(self).dirty@ == old(self).dirty@,
            final(self).pending_save == old(self).pending_save,
            final(self).last_save == old(self).last_save,
    {
        if expanded {
            let _ = self.expanded.insert(index);
        } else {
            let _ = self.expanded.remove(&index);
        }
    }

    /// Records an edited draft of slot `index`, which now has unsaved edits.
    pub fn mark_changed(&mut self, index: u8, draft: Channel)
        ensures
            final(self).drafts@ == old(self).drafts@.insert(index, draft),
            final(self).dirty@ == old(self).dirty@.insert(index),
            final(self).expanded@ == old(self).expanded@,
            final(self).pending_save == old(self).pending_save,
            final(self).last_save == old(self).last_save,
    {
        let _ = self.drafts.insert(index, draft);
        let _ = self.dirty.insert(index);
    }

    /// Throws away the edits of slot `index`; the next sync takes the
    /// radio's version again.
    pub fn discard(&mut self, index: u8)
        ensures
            final(self).drafts@ == old(self).drafts@.remove(index),
            final(self).dirty@ == old(self).dirty@.remove(index),
            final(self).expanded@ == old(self).expanded@,
            final(self).pending_save == old(self).pending_save,
            final(self).last_save == old(self).last_save,
    {
        let _ = self.dirty.remove(&index);
        let _ = self.drafts.remove(&index);
    }

    /// Takes the radio's channels as drafts for every slot without unsaved
    /// edits: the first channel of the slot, or the empty channel of the
    /// slot when the radio reports none.
    pub fn sync_from_snapshot(&mut self, snapshot: &DeviceSnapshot)
        ensures
            final(self).dirty@ == old(self).dirty@,
            final(self).expanded@ == old(self).expanded@,
            final(self).pending_save == old(self).pending_save,
            final(self).last_save == old(self).last_save,
            forall|k: u8|
                #![trigger final(self).drafts@.contains_key(k)]
                (k >= 8 || old(self).dirty@.contains(k)) ==> (final(self).drafts@.contains_key(k)
                    == old(self).drafts@.contains_key(k) && (old(self).drafts@.contains_key(k)
                    ==> final(self).drafts@[k] == old(self).drafts@[k])),
            forall|k: u8|
                #![trigger final(self).drafts@.contains_key(k)]
                k < 8 && !old(self).dirty@.contains(k) ==> final(self).drafts@.contains_key(k)
                    && slot_draft_ok(snapshot.channels@, k, final(self).drafts@[k]),
    {
        let mut index: u8 = 0;
        while index < MAX_CHANNELS
            invariant
                index <= 8,
                self.dirty@ == old(self).dirty@,
                self.expanded@ == old(self).expanded@,
                self.pending_save == old(self).pending_save,
                self.last_save == old(self).last_save,
                forall|k: u8|
                    #![trigger self.drafts@.contains_key(k)]
                    (k >= index || old(self).dirty@.contains(k)) ==> (self.drafts@.contains_key(k)
                        == old(self).drafts@.contains_key(k) && (old(self).drafts@.contains_key(k)
                        ==> self.drafts@[k] == old(self).drafts@[k])),
                forall|k: u8|
                    #![trigger self.drafts@.contains_key(k)]
                    k < index && !old(self).dirty@.contains(k) ==> self.drafts@.contains_key(k)
                        && slot_draft_ok(snapshot.channels@, k, self.drafts@[k]),
            decreases 8 - index,
        {
            if !self.dirty.contains(&index) {
                let draft = slot_draft(&snapshot.channels, index);
                let _ = self.drafts.insert(index, draft);
            }
            index = index + 1;
        }
    }
}

/// `d` is the draft slot `k` takes from the radio's channels `cs`: a copy of
/// the first channel in that slot, or the empty channel of the slot.
pub open spec fn slot_draft_ok(cs: Seq<Channel>, k: u8, d: Channel) -> bool {
    if k <= 7 && exists|i: int| 0 <= i < cs.len() && (#[trigger] cs[i]).index.value() == k {
        exists|i: int|
            0 <= i < cs.len() && (#[trigger] cs[i]).index.value() == k && d@ == cs[i]@ && forall|
                j: int,
            |
                0 <= j < i ==> (#[trigger] cs[j]).index.value() != k
    } else {
        empty_channel_ok(k, d)
    }
}

fn slot_draft(cs: &Vec<Channel>, k: u8) -> (r: Channel)
    ensures
        slot_draft_ok(cs@, k, r),
{
    let mut i: usize = 0;
    while i < cs.len()
        invariant
            i <= cs@.len(),
            forall|j: int| 0 <= j < i ==> (#[trigger] cs@[j]).index.value() != k,
        decreases cs@.len() - i,
    {
        let slot = cs[i].index.get();
        if slot == k {
            let r = cs[i].clone();
            return r;
        }
        i = i + 1;
    }
    empty_channel(k)
}

/// The heading of a slot's row: "#n  Role  ·  name", with "(unnamed)" for a
/// nameless primary, "(empty)" for another nameless slot, and " *" after it
/// while there are unsaved edits.
pub open spec fn row_title_text(ch: Channel, dirty: bool) -> Seq<char> {
    "#"@ + decimal(ch.index.value() as nat) + "  "@ + match ch.role {
        ChannelRole::Primary => "Primary"@,
        ChannelRole::Secondary => "Secondary"@,
        ChannelRole::Disabled => "Disabled"@,
    } + "  \u{b7}  "@ + (if ch.name@.len() == 0 {
        if ch.role == ChannelRole::Primary {
            "(unnamed)"@
        } else {
            "(empty)"@
        }
    } else {
        ch.name@
    }) + if dirty {
        " *"@
    } else {
        ""@
    }
}

/// The heading of a slot's row.
pub fn row_title(ch: &Channel, dirty: bool) -> (r: String)
    ensures
        r@ == row_title_text(*ch, dirty),
{
    let mut s = string_of("#");
    push_decimal(&mut s, ch.index.get() as u64);
    push_str(&mut s, "  ");
    push_str(
        &mut s,
        match ch.role {
            ChannelRole::Primary => "Primary",
            ChannelRole::Secondary => "Secondary",
            ChannelRole::Disabled => "Disabled",
        },
    );
    push_str(&mut s, "  \u{b7}  ");
    if ch.name.as_str().is_empty() {
        match ch.role {
            ChannelRole::Primary => push_str(&mut s, "(unnamed)"),
            _ => push_str(&mut s, "(empty)"),
        }
    } else {
        push_str(&mut s, ch.name.as_str());
    }
    if dirty {
        push_str(&mut s, " *");
    } else {
        push_str(&mut s, "");
    }
    s
}

/// The warning shown before saving slot `index` with the draft `draft`.
pub open spec fn save_warning_text(index: u8, draft: Channel) -> Seq<char> {
    if index == 0 {
        "Changing the Primary channel affects every device on your mesh. Nodes that do not get the new name and key will silently drop out of the mesh."@
    } else if draft.role == ChannelRole::Disabled {
        "Disabling a channel removes it from this device. Peers still using it won't see you."@
    } else {
        "Peers currently sharing this channel must pick up the new settings \u{2014} otherwise they'll stop receiving messages on this slot."@
    }
}

/// The warning shown before saving slot `index`.
pub fn save_warning(index: u8, draft: &Channel) -> (r: &'static str)
    ensures
        r@ == save_warning_text(index, *draft),
{
    if index == 0 {
        "Changing the Primary channel affects every device on your mesh. Nodes that do not get the new name and key will silently drop out of the mesh."
    } else {
        match draft.role {
            ChannelRole::Disabled => "Disabling a channel removes it from this device. Peers still using it won't see you.",
            _ => "Peers currently sharing this channel must pick up the new settings \u{2014} otherwise they'll stop receiving messages on this slot.",
        }
    }
}

/// `rand::rng().fill_bytes`: fills `buf` with bytes from the thread-local
/// generator. Only the length of the buffer is stated; its contents depend on
/// the generator's state.
#[verifier::external_body]
fn fill_random(buf: &mut Vec<u8>)
    ensures
        final(buf)@.len() == old(buf)@.len(),
{
    rand::rng().fill_bytes(buf.as_mut_slice())
}

/// A fresh random 32-byte key.
pub fn random_psk() -> (r: Vec<u8>)
    ensures
        r@.len() == PSK_BYTES,
{
    let mut buf: Vec<u8> = Vec::new();
    let mut i: usize = 0;
    while i < PSK_BYTES
        invariant
            i <= PSK_BYTES,
            buf@.len() == i,
        decreases PSK_BYTES - i,
    {
        buf.push(0);
        i = i + 1;
    }
    fill_random(&mut buf);
    buf
}

} // verus!
