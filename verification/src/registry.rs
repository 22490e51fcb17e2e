//! Channel registry: one fan-out broadcast channel per canonical key,
//! created lazily on first subscription. The channels themselves are
//! tokio broadcast channels; the registry owns the senders and hands out
//! per-connection receive handles.

use vstd::prelude::*;
use vstd::string::StringExecFns;

verus! {

#[verifier::external_type_specification]
#[verifier::external_body]
#[verifier::reject_recursive_types(T)]
pub struct ExSender<T>(tokio::sync::broadcast::Sender<T>);

#[verifier::external_type_specification]
#[verifier::external_body]
#[verifier::reject_recursive_types(T)]
pub struct ExReceiver<T>(tokio::sync::broadcast::Receiver<T>);

#[verifier::external_type_specification]
#[verifier::external_body]
#[verifier::reject_recursive_types(T)]
pub struct ExSendError<T>(tokio::sync::broadcast::error::SendError<T>);

#[verifier::external_type_specification]
#[verifier::external_body]
pub struct ExTryRecvError(tokio::sync::broadcast::error::TryRecvError);

/// Relies on tokio::sync::broadcast::Sender::new: creates the sending half
/// of a broadcast channel; it panics only when the capacity is zero or
/// exceeds usize::MAX / 2.
#[verifier::external_body]
fn broadcast_sender_new(capacity: usize) -> (r: tokio::sync::broadcast::Sender<Vec<u8>>)
    requires
        1 <= capacity <= usize::MAX / 2,
{
    tokio::sync::broadcast::Sender::new(capacity)
}

/// Relies on tokio::sync::broadcast::Sender::subscribe: returns a fresh
/// receive handle on the sender's channel that sees values sent after the
/// call.
#[verifier::external_body]
fn broadcast_subscribe(sender: &tokio::sync::broadcast::Sender<Vec<u8>>) -> (r: tokio::sync::broadcast::Receiver<Vec<u8>>)
{
    sender.subscribe()
}

/// Relies on tokio::sync::broadcast::Sender::send: delivers the value to
/// all receive handles subscribed at send time and returns their number,
/// which is then at least one; with no live receiver it returns the value
/// back as an error. How many receivers there are depends on concurrent
/// subscribers, so no more is stated of the count.
#[verifier::external_body]
fn broadcast_send(
    sender: &tokio::sync::broadcast::Sender<Vec<u8>>,
    value: Vec<u8>,
) -> (r: Result<usize, tokio::sync::broadcast::error::SendError<Vec<u8>>>)
    ensures
        r matches Ok(n) ==> n >= 1,
{
    sender.send(value)
}

/// Relies on tokio::sync::broadcast::Sender::receiver_count: returns the
/// number of currently live receive handles. The number depends on
/// concurrent subscribers, so nothing is stated of it.
#[verifier::external_body]
fn broadcast_receiver_count(sender: &tokio::sync::broadcast::Sender<Vec<u8>>) -> usize {
    sender.receiver_count()
}

/// Relies on tokio::sync::broadcast::Receiver::try_recv: returns the next
/// pending value on this handle, or an error when none is pending, the
/// channel is closed, or the handle lagged. What is pending depends on
/// concurrent senders, so nothing is stated of the result.
#[verifier::external_body]
fn broadcast_try_recv(
    receiver: &mut tokio::sync::broadcast::Receiver<Vec<u8>>,
) -> (r: Result<Vec<u8>, tokio::sync::broadcast::error::TryRecvError>)
{
    receiver.try_recv()
}

/// A connection's receive handle on one channel.
pub struct Subscription {
    receiver: tokio::sync::broadcast::Receiver<Vec<u8>>,
}

impl Subscription {
    /// Returns the next value already delivered to this handle, or `None`
    /// when nothing is pending or the handle can no longer receive.
    pub fn try_next(&mut self) -> Option<Vec<u8>> {
        match broadcast_try_recv(&mut self.receiver) {
            Ok(value) => Some(value),
            Err(_) => None,
        }
    }

    /// Hands the underlying receive handle out, for a caller that drives
    /// the channel with its own executor.
    pub fn into_receiver(self) -> tokio::sync::broadcast::Receiver<Vec<u8>> {
        self.receiver
    }
}

/// Why a publish attempt failed.
pub enum BroadcastSendError {
    /// No channel has ever been created for the key.
    NoChannel,
    /// The channel exists, but had zero live subscribers at publish time.
    NoReceivers,
}

/// The registry: each entry binds one canonical key to the sending half of
/// its channel. Keys are unique, so at most one channel exists per key.
pub struct BroadcastMap {
    entries: Vec<(String, tokio::sync::broadcast::Sender<Vec<u8>>)>,
    capacity: usize,
}

impl BroadcastMap {
    /// Keys are pairwise distinct and the channel capacity is one tokio
    /// accepts.
    pub closed spec fn well_formed(self) -> bool {
        &&& 1 <= self.capacity <= usize::MAX / 2
        &&& forall|i: int, j: int|
            0 <= i < j < self.entries@.len() ==> self.entries@[i].0@ != self.entries@[j].0@
    }

    /// Whether a channel exists for the key.
    pub closed spec fn contains_key(self, k: Seq<char>) -> bool {
        exists|i: int| 0 <= i < self.entries@.len() && self.entries@[i].0@ == k
    }

    /// The set of keys for which a channel exists.
    pub closed spec fn key_set(self) -> Set<Seq<char>> {
        Set::new(|k: Seq<char>| self.contains_key(k))
    }

    /// An empty registry, with the per-channel backlog capacity every later
    /// channel is created with.
    pub fn new(capacity: usize) -> (r: BroadcastMap)
        requires
            1 <= capacity <= usize::MAX / 2,
        ensures
            r.well_formed(),
            r.key_set() == Set::<Seq<char>>::empty(),
    {
        let r = BroadcastMap { entries: Vec::new(), capacity };
        proof {
            assert(r.key_set() =~= Set::<Seq<char>>::empty());
        }
        r
    }

    /// Index of the key's entry, when a channel exists for it.
    fn find_index(&self, key: &str) -> (r: Option<usize>)
        ensures
            match r {
                Some(i) => i < self.entries@.len() && self.entries@[i as int].0@ == key@,
                None => !self.contains_key(key@),
            },
    {
        let owned = String::from_str(key);
        let mut i: usize = 0;
        while i < self.entries.len()
            invariant
                i <= self.entries@.len(),
                owned@ == key@,
                forall|j: int| 0 <= j < i ==> self.entries@[j].0@ != key@,
            decreases self.entries@.len() - i,
        {
            if self.entries[i].0 == owned {
                return Some(i);
            }
            i = i + 1;
        }
        None
    }

    /// Subscribes to the channel at the key, creating the channel first
    /// when none exists yet. Existing channels, and their keys, are left
    /// untouched.
    pub fn subscribe_unwrap_or_insert(&mut self, key: &str) -> (r: Subscription)
        requires
            old(self).well_formed(),
        ensures
            final(self).well_formed(),
            final(self).key_set().contains(key@),
            final(self).key_set() == old(self).key_set().insert(key@),
            old(self).key_set().contains(key@) ==> *final(self) == *old(self),
    {
        let subscription = match self.find_index(key) {
            Some(i) => Subscription { receiver: broadcast_subscribe(&self.entries[i].1) },
            None => {
                let sender = broadcast_sender_new(self.capacity);
                let receiver = broadcast_subscribe(&sender);
                let ghost old_entries = self.entries@;
                self.entries.push((String::from_str(key), sender));
                proof {
                    assert(self.entries@[old_entries.len() as int].0@ == key@);
                    assert(forall|i: int|
                        0 <= i < old_entries.len() ==> self.entries@[i] == old_entries[i]);
                }
                Subscription { receiver }
            },
        };
        proof {
            assert(self.key_set() =~= old(self).key_set().insert(key@));
        }
        subscription
    }

    /// The number of live subscribers of the key's channel, or `None` when
    /// no channel exists for the key. The query never creates a channel.
    pub fn receiver_count(&self, key: &str) -> (r: Option<usize>)
        ensures
            (r is Some) <==> self.key_set().contains(key@),
    {
        match self.find_index(key) {
            Some(i) => Some(broadcast_receiver_count(&self.entries[i].1)),
            None => None,
        }
    }

    /// Publishes the payload to all current subscribers of the key's
    /// channel. Fails with `NoChannel` exactly when no channel has ever
    /// been created for the key, and with `NoReceivers` when the channel
    /// exists but had zero live subscribers; on success at least one
    /// subscriber was delivered to. Never creates a channel.
    pub fn send(&self, key: &str, data: Vec<u8>) -> (r: Result<usize, BroadcastSendError>)
        ensures
            (r matches Err(e) && e is NoChannel) <==> !self.key_set().contains(key@),
            r matches Err(e) && e is NoReceivers ==> self.key_set().contains(key@),
            r matches Ok(n) ==> n >= 1 && self.key_set().contains(key@),
    {
        match self.find_index(key) {
            Some(i) => match broadcast_send(&self.entries[i].1, data) {
                Ok(n) => Ok(n),
                Err(_) => Err(BroadcastSendError::NoReceivers),
            },
            None => Err(BroadcastSendError::NoChannel),
        }
    }
}

} // verus!
