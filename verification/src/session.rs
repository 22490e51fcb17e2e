//! Broadcast session: the process-wide object a caller holds. It wraps the
//! channel registry with target-aware operations, keying every lookup by
//! the canonical key of the target.

use vstd::prelude::*;
use crate::key::BroadcastType;
use crate::key::lemma_pairwise_key_symmetric;
use crate::key::spec_key;
use crate::registry::BroadcastMap;
use crate::registry::BroadcastSendError;
use crate::registry::Subscription;

verus! {

/// Backlog capacity each fan-out channel is created with: how many
/// published units a slow subscriber may fall behind before it overruns.
pub const DEFAULT_CHANNEL_CAPACITY: usize = 1024;

/// The estimate of a subscriber count after one departure: one less than
/// the count, and never below zero.
pub open spec fn spec_pre_decrement(count: usize) -> usize {
    if count == 0 {
        0usize
    } else {
        (count - 1) as usize
    }
}

/// Adjusts a subscriber count to the estimate after one departure.
pub fn pre_decrement(count: usize) -> (r: usize)
    ensures
        r == spec_pre_decrement(count),
{
    if count == 0 {
        0
    } else {
        count - 1
    }
}

/// The broadcast session. Its only state is the channel registry; the set
/// of canonical keys with a live channel is its abstract value.
pub struct WebSocket {
    broadcast_map: BroadcastMap,
}

impl WebSocket {
    /// The registry's own invariant holds.
    pub closed spec fn well_formed(self) -> bool {
        self.broadcast_map.well_formed()
    }

    /// The set of canonical keys for which a channel exists.
    pub closed spec fn channel_keys(self) -> Set<Seq<char>> {
        self.broadcast_map.key_set()
    }

    /// Whether a channel exists for the target's canonical key.
    pub open spec fn has_channel(self, t: BroadcastType) -> bool {
        self.channel_keys().contains(spec_key(t))
    }

    /// A fresh session with no channel yet.
    pub fn new() -> (r: WebSocket)
        ensures
            r.well_formed(),
            r.channel_keys() == Set::<Seq<char>>::empty(),
    {
        WebSocket { broadcast_map: BroadcastMap::new(DEFAULT_CHANNEL_CAPACITY) }
    }

    /// Subscribes to the target's channel, creating the channel first when
    /// none exists yet; a target already subscribed somewhere joins that
    /// same channel and the session is left unchanged.
    pub fn subscribe_unwrap_or_insert(&mut self, broadcast_type: BroadcastType) -> (r: Subscription)
        requires
            old(self).well_formed(),
        ensures
            final(self).well_formed(),
            final(self).channel_keys() == old(self).channel_keys().insert(
                spec_key(broadcast_type),
            ),
            old(self).has_channel(broadcast_type) ==> *final(self) == *old(self),
    {
        let key = BroadcastType::get_key(broadcast_type);
        let subscription = self.broadcast_map.subscribe_unwrap_or_insert(key.as_str());
        subscription
    }

    /// Subscribes to the pairwise channel of the two peers.
    pub fn point_to_point(&mut self, key1: &str, key2: &str) -> (r: Subscription)
        requires
            old(self).well_formed(),
        ensures
            final(self).well_formed(),
            final(self).channel_keys() == old(self).channel_keys().insert(
                spec_key(BroadcastType::PointToPoint(key1, key2)),
            ),
    {
        self.subscribe_unwrap_or_insert(BroadcastType::PointToPoint(key1, key2))
    }

    /// Subscribes to the named group's channel.
    pub fn point_to_group(&mut self, key: &str) -> (r: Subscription)
        requires
            old(self).well_formed(),
        ensures
            final(self).well_formed(),
            final(self).channel_keys() == old(self).channel_keys().insert(
                spec_key(BroadcastType::PointToGroup(key)),
            ),
    {
        self.subscribe_unwrap_or_insert(BroadcastType::PointToGroup(key))
    }

    /// The number of live subscribers of the target's channel, known
    /// exactly when a channel exists for the target and unknown otherwise.
    /// The query never creates a channel.
    pub fn receiver_count(&self, broadcast_type: BroadcastType) -> (r: Option<usize>)
        ensures
            (r is Some) <==> self.has_channel(broadcast_type),
    {
        let key = BroadcastType::get_key(broadcast_type);
        self.broadcast_map.receiver_count(key.as_str())
    }

    /// Advisory estimate of the subscriber count after the current
    /// connection departs: the count less one, never below zero; unknown
    /// exactly when the count itself is unknown.
    pub fn pre_decrement_receiver_count(&self, broadcast_type: BroadcastType) -> (r: Option<usize>)
        ensures
            (r is Some) <==> self.has_channel(broadcast_type),
    {
        match self.receiver_count(broadcast_type) {
            Some(count) => Some(pre_decrement(count)),
            None => None,
        }
    }

    /// Publishes the payload to all current subscribers of the target's
    /// channel. Fails with `NoChannel` exactly when no channel has ever
    /// been created for the target, with `NoReceivers` when the channel
    /// exists but had zero live subscribers; on success the payload went
    /// to at least one subscriber. Never creates a channel.
    pub fn send(&self, broadcast_type: BroadcastType, data: Vec<u8>) -> (r: Result<usize, BroadcastSendError>)
        ensures
            (r matches Err(e) && e is NoChannel) <==> !self.has_channel(broadcast_type),
            r matches Err(e) && e is NoReceivers ==> self.has_channel(broadcast_type),
            r matches Ok(n) ==> n >= 1 && self.has_channel(broadcast_type),
    {
        let key = BroadcastType::get_key(broadcast_type);
        self.broadcast_map.send(key.as_str(), data)
    }
}

/// Two connections that name the same pair of peers, in either order,
/// address one channel: the session either has a channel for both
/// orderings or for neither, and a subscription under one ordering is a
/// subscription under the other.
pub proof fn lemma_pairwise_orderings_share_channel(ws: WebSocket, a: &str, b: &str)
    ensures
        ws.has_channel(BroadcastType::PointToPoint(a, b)) == ws.has_channel(
            BroadcastType::PointToPoint(b, a),
        ),
        ws.channel_keys().insert(spec_key(BroadcastType::PointToPoint(a, b)))
            == ws.channel_keys().insert(spec_key(BroadcastType::PointToPoint(b, a))),
{
    lemma_pairwise_key_symmetric(a, b);
}

} // verus!
