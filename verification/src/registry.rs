//! The channel registry: a mapping from channel identifier to channel
//! state.
//!
//! Identifiers are assigned by the transport when a channel is created and
//! are never reused.  The registry holds, per identifier, the channel's
//! kind (immutable), its topic (immutable, unique across live channels)
//! and its mutable side metadata.  The store is a small association list,
//! which keeps every operation and both uniqueness invariants fully
//! verified; registry traffic is a handful of entries touched once per
//! write, so linear scans are cheap.

use vstd::prelude::*;

use crate::codec::{IMAGE_INFO_BYTES, decode_image_info, image_info_at};
use crate::types::{foxdbg_channel_type_t, foxdbg_image_info_t};

verus! {

/// Side metadata of a channel: image channels carry their dimensions once
/// provided, every other channel carries nothing.
#[derive(Debug, Clone, Copy, PartialEq, Eq, Structural)]
pub enum ChannelInfo {
    CompressedImageInfo(foxdbg_image_info_t),
    NoInfo,
}

/// Everything the registry records about one channel.
#[derive(Debug, Clone, PartialEq, Eq)]
pub struct ChannelState {
    /// The kind, fixed at creation: selects the decoder/encoder pair.
    pub channel_type: foxdbg_channel_type_t,
    /// Mutable side metadata, `NoInfo` until an info write provides it.
    pub channel_info: ChannelInfo,
    /// The unique topic the channel publishes under, fixed at creation.
    pub channel_topic: String,
}

struct ChannelEntry {
    id: u64,
    state: ChannelState,
}

/// The registry itself.  Viewed abstractly it is a finite map from channel
/// identifier to channel state.
pub struct Registry {
    entries: Vec<ChannelEntry>,
}

/// The side metadata that an info write with payload `data` leaves on a
/// channel of kind `kind`: image channels keep a well-formed image-info
/// record, every other case resets the metadata to `NoInfo`.
pub open spec fn info_after_update(
    kind: foxdbg_channel_type_t,
    data: Seq<u8>,
) -> ChannelInfo {
    if kind == foxdbg_channel_type_t::FOXDBG_CHANNEL_TYPE_IMAGE && data.len()
        == IMAGE_INFO_BYTES {
        ChannelInfo::CompressedImageInfo(image_info_at(data, 0))
    } else {
        ChannelInfo::NoInfo
    }
}

impl Registry {
    /// The abstract contents: channel identifier to channel state.
    pub closed spec fn as_map(self) -> Map<u64, ChannelState> {
        Map::new(
            |id: u64|
                exists|i: int|
                    0 <= i < self.entries@.len() && self.entries@[i].id == id,
            |id: u64|
                self.entries@[
                    choose|i: int|
                        0 <= i < self.entries@.len() && self.entries@[i].id == id
                ].state,
        )
    }

    /// Whether some live channel already publishes under `topic`.
    pub open spec fn topic_taken(self, topic: Seq<char>) -> bool {
        exists|id: u64|
            #[trigger] self.as_map().contains_key(id)
                && self.as_map()[id].channel_topic@ == topic
    }

    /// Well-formedness: no two entries share an identifier or a topic.
    /// `new` establishes it and every operation preserves it.
    pub closed spec fn wf(self) -> bool {
        forall|i: int, j: int|
            0 <= i < j < self.entries@.len() ==> self.entries@[i].id != self.entries@[j].id
                && self.entries@[i].state.channel_topic@
                != self.entries@[j].state.channel_topic@
    }

    proof fn lemma_entry_in_map(self, i: int)
        requires
            self.wf(),
            0 <= i < self.entries@.len(),
        ensures
            self.as_map().contains_key(self.entries@[i].id),
            self.as_map()[self.entries@[i].id] == self.entries@[i].state,
    {
        let id = self.entries@[i].id;
        assert(self.as_map().contains_key(id));
        let j = choose|j: int| 0 <= j < self.entries@.len() && self.entries@[j].id == id;
        if j != i {
            if j < i {
                assert(self.entries@[j].id != self.entries@[i].id);
            } else {
                assert(self.entries@[i].id != self.entries@[j].id);
            }
        }
        assert(j == i);
    }

    proof fn lemma_absent_from_map(self, id: u64)
        requires
            forall|i: int|
                0 <= i < self.entries@.len() ==> self.entries@[i].id != id,
        ensures
            !self.as_map().contains_key(id),
    {
    }

    /// Creates an empty registry.
    pub fn new() -> (r: Registry)
        ensures
            r.wf(),
            r.as_map() == Map::<u64, ChannelState>::empty(),
    {
        let r = Registry { entries: Vec::new() };
        proof {
            assert(r.as_map() =~= Map::<u64, ChannelState>::empty());
        }
        r
    }

    /// Registers a channel under a transport-assigned identifier.  Succeeds
    /// exactly when neither the identifier nor the topic is already live;
    /// the new channel starts with no side metadata.  On failure the
    /// registry is unchanged.
    pub fn add_channel(
        &mut self,
        id: u64,
        topic: String,
        channel_type: foxdbg_channel_type_t,
    ) -> (r: bool)
        requires
            old(self).wf(),
        ensures
            final(self).wf(),
            r == (!old(self).as_map().contains_key(id) && !old(self).topic_taken(topic@)),
            r ==> final(self).as_map() == old(self).as_map().insert(
                id,
                ChannelState {
                    channel_type,
                    channel_info: ChannelInfo::NoInfo,
                    channel_topic: topic,
                },
            ),
            !r ==> final(self).as_map() == old(self).as_map(),
    {
        let n = self.entries.len();
        let mut i: usize = 0;
        while i < n
            invariant
                *self == *old(self),
                self.wf(),
                n == self.entries@.len(),
                i <= n,
                forall|k: int|
                    0 <= k < i ==> self.entries@[k].id != id
                        && self.entries@[k].state.channel_topic@ != topic@,
            decreases n - i,
        {
            if self.entries[i].id == id || self.entries[i].state.channel_topic == topic {
                proof {
                    self.lemma_entry_in_map(i as int);
                }
                return false;
            }
            i = i + 1;
        }
        proof {
            self.lemma_absent_from_map(id);
            assert(!self.topic_taken(topic@)) by {
                if self.topic_taken(topic@) {
                    let t = choose|t: u64|
                        self.as_map().contains_key(t) && self.as_map()[t].channel_topic@
                            == topic@;
                    let k = choose|k: int|
                        0 <= k < self.entries@.len() && self.entries@[k].id == t;
                    self.lemma_entry_in_map(k);
                }
            }
        }
        let state = ChannelState {
            channel_type,
            channel_info: ChannelInfo::NoInfo,
            channel_topic: topic,
        };
        let ghost prev = *self;
        let ghost new_state = state;
        self.entries.push(ChannelEntry { id, state });
        proof {
            assert forall|k: int| 0 <= k < prev.entries@.len() implies self.entries@[k]
                == prev.entries@[k] by {}
            assert(self.wf());
            assert forall|x: u64| #[trigger] self.as_map().contains_key(x) implies prev
                .as_map().insert(id, new_state).contains_key(x) by {
                let k = choose|k: int|
                    0 <= k < self.entries@.len() && self.entries@[k].id == x;
                if k < prev.entries@.len() {
                    prev.lemma_entry_in_map(k);
                }
            }
            assert forall|x: u64| #[trigger] prev.as_map().insert(id, new_state)
                .contains_key(x) implies self.as_map().contains_key(x)
                && self.as_map()[x] == prev.as_map().insert(id, new_state)[x] by {
                if x == id {
                    self.lemma_entry_in_map(prev.entries@.len() as int);
                } else {
                    let k = choose|k: int|
                        0 <= k < prev.entries@.len() && prev.entries@[k].id == x;
                    prev.lemma_entry_in_map(k);
                    self.lemma_entry_in_map(k);
                }
            }
            assert(self.as_map() =~= prev.as_map().insert(id, new_state));
        }
        true
    }

    /// Looks up a channel by identifier.
    pub fn lookup(&self, id: u64) -> (r: Option<&ChannelState>)
        requires
            self.wf(),
        ensures
            match r {
                Some(s) => self.as_map().contains_key(id) && *s == self.as_map()[id],
                None => !self.as_map().contains_key(id),
            },
    {
        let n = self.entries.len();
        let mut i: usize = 0;
        while i < n
            invariant
                self.wf(),
                n == self.entries@.len(),
                i <= n,
                forall|k: int| 0 <= k < i ==> self.entries@[k].id != id,
            decreases n - i,
        {
            if self.entries[i].id == id {
                proof {
                    self.lemma_entry_in_map(i as int);
                }
                return Some(&self.entries[i].state);
            }
            i = i + 1;
        }
        proof {
            self.lemma_absent_from_map(id);
        }
        None
    }

    /// Replaces a channel's side metadata from a raw info payload.  On an
    /// image channel a well-formed payload installs the decoded image
    /// info; any other channel kind or a malformed payload resets the
    /// metadata to `NoInfo`, so the operation is always safe to call.
    /// Returns false, leaving the registry unchanged, when the identifier
    /// is unknown.
    pub fn update_channel_info(&mut self, id: u64, data: &[u8]) -> (r: bool)
        requires
            old(self).wf(),
        ensures
            final(self).wf(),
            r == old(self).as_map().contains_key(id),
            r ==> final(self).as_map() == old(self).as_map().insert(
                id,
                ChannelState {
                    channel_info: info_after_update(
                        old(self).as_map()[id].channel_type,
                        data@,
                    ),
                    ..old(self).as_map()[id]
                },
            ),
            !r ==> final(self).as_map() == old(self).as_map(),
    {
        let n = self.entries.len();
        let mut i: usize = 0;
        while i < n
            invariant
                *self == *old(self),
                self.wf(),
                n == self.entries@.len(),
                i <= n,
                forall|k: int| 0 <= k < i ==> self.entries@[k].id != id,
            decreases n - i,
        {
            if self.entries[i].id == id {
                proof {
                    self.lemma_entry_in_map(i as int);
                }
                let channel_info = match decode_image_info(data) {
                    Some(info) => {
                        match self.entries[i].state.channel_type {
                            foxdbg_channel_type_t::FOXDBG_CHANNEL_TYPE_IMAGE => {
                                ChannelInfo::CompressedImageInfo(info)
                            },
                            _ => ChannelInfo::NoInfo,
                        }
                    },
                    None => ChannelInfo::NoInfo,
                };
                let state = ChannelState {
                    channel_type: self.entries[i].state.channel_type,
                    channel_info,
                    channel_topic: self.entries[i].state.channel_topic.clone(),
                };
                let ghost prev = *self;
                let ghost new_state = state;
                self.entries[i] = ChannelEntry { id, state };
                proof {
                    assert(new_state.channel_info == info_after_update(
                        prev.as_map()[id].channel_type,
                        data@,
                    ));
                    assert(self.wf());
                    assert forall|x: u64| #[trigger] self.as_map().contains_key(x)
                        implies prev.as_map().insert(id, new_state).contains_key(x) by {
                        let k = choose|k: int|
                            0 <= k < self.entries@.len() && self.entries@[k].id == x;
                        prev.lemma_entry_in_map(k);
                    }
                    assert forall|x: u64| #[trigger] prev.as_map().insert(id, new_state)
                        .contains_key(x) implies self.as_map().contains_key(x)
                        && self.as_map()[x] == prev.as_map().insert(id, new_state)[x] by {
                        if x == id {
                            self.lemma_entry_in_map(i as int);
                        } else {
                            let k = choose|k: int|
                                0 <= k < prev.entries@.len() && prev.entries@[k].id == x;
                            prev.lemma_entry_in_map(k);
                            self.lemma_entry_in_map(k);
                        }
                    }
                    assert(self.as_map() =~= prev.as_map().insert(id, new_state));
                }
                return true;
            }
            i = i + 1;
        }
        proof {
            self.lemma_absent_from_map(id);
        }
        false
    }
}

/// No two live channels share an identifier or a topic: distinct channel
/// identifiers always map to distinct topics.
pub proof fn lemma_registry_topics_unique(r: Registry)
    requires
        r.wf(),
    ensures
        forall|a: u64, b: u64|
            r.as_map().contains_key(a) && r.as_map().contains_key(b) && a != b
                ==> r.as_map()[a].channel_topic@ != r.as_map()[b].channel_topic@,
{
    assert forall|a: u64, b: u64|
        r.as_map().contains_key(a) && r.as_map().contains_key(b) && a != b
        implies r.as_map()[a].channel_topic@ != r.as_map()[b].channel_topic@ by {
        let i = choose|i: int| 0 <= i < r.entries@.len() && r.entries@[i].id == a;
        let j = choose|j: int| 0 <= j < r.entries@.len() && r.entries@[j].id == b;
        r.lemma_entry_in_map(i);
        r.lemma_entry_in_map(j);
    }
}

} // verus!
