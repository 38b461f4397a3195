use crate::errors::Error;
use crate::events::Event;
use crate::location::para_destination;
use crate::location::para_destination_of;
use crate::location::Location;
use crate::message::build_transfer_message;
use crate::message::Message;
use crate::store::key_of;
use crate::store::lemma_key_of_injective;
use crate::store::Store;
use vstd::prelude::*;

verus! {

/// The longest metadata payload an asset may carry across the bridge.
pub const MAX_METADATA_LEN: usize = 1024;

/// The longest metadata URI an asset may carry across the bridge.
pub const MAX_URI_LEN: usize = 256;

/// The outbound message transport: best-effort delivery of one message to a
/// remote endpoint.  The embedder injects an implementation; delivery may
/// fail, and the engine then commits nothing.
pub trait OutboundChannel {
    /// Attempts to deliver `message` to `dest`; returns whether the transport
    /// accepted it.
    fn deliver(&mut self, dest: &Location, message: &Message) -> bool;
}

/// A transport that accepts every message and keeps what it accepted,
/// together with the destination, in order of delivery.
pub struct RecordingChannel {
    pub sent: Vec<(Location, Message)>,
}

impl RecordingChannel {
    /// A fresh channel with nothing delivered yet.
    pub fn new() -> (c: RecordingChannel)
        ensures
            c.sent@.len() == 0,
    {
        RecordingChannel { sent: Vec::new() }
    }
}

impl OutboundChannel for RecordingChannel {
    fn deliver(&mut self, dest: &Location, message: &Message) -> bool {
        self.sent.push((*dest, message.clone()));
        true
    }
}

/// A transport that refuses every message.
pub struct ClosedChannel {}

impl OutboundChannel for ClosedChannel {
    fn deliver(&mut self, _dest: &Location, _message: &Message) -> bool {
        false
    }
}

/// The metadata view of an optional byte string.
pub open spec fn uri_view(uri: Option<Vec<u8>>) -> Option<Seq<u8>> {
    match uri {
        Some(v) => Some(v@),
        None => None,
    }
}

/// The bridge protocol engine: the durable asset store, this module's
/// instance index on the host ledger, and the notifications recorded so far.
pub struct Pallet {
    pub store: Store,
    /// The index the host ledger assigned to this module, used to scope the
    /// asset identity in outbound messages; `None` when the host reports no
    /// registration, in which case no message can be constructed.
    pub pallet_instance: Option<u8>,
    pub events: Vec<Event>,
}

impl Pallet {
    /// The owner recorded for an asset, if it is owned here.
    pub open spec fn owner_of(self, collection_id: u64, item_id: u64) -> Option<u64> {
        self.store.owner_of(collection_id, item_id)
    }

    /// The destination of the asset's pending transfer, if one is in flight.
    pub open spec fn pending_of(self, collection_id: u64, item_id: u64) -> Option<Location> {
        self.store.pending_of(collection_id, item_id)
    }

    /// The metadata bytes recorded for an asset, if any.
    pub open spec fn metadata_of(self, collection_id: u64, item_id: u64) -> Option<Seq<u8>> {
        self.store.metadata_of(collection_id, item_id)
    }

    /// The metadata URI bytes recorded for an asset, if any.
    pub open spec fn uri_of(self, collection_id: u64, item_id: u64) -> Option<Seq<u8>> {
        self.store.uri_of(collection_id, item_id)
    }

    /// An asset is either owned here or locked pending a transfer, never
    /// both: for every key at most one of the two records exists.
    pub open spec fn mutual_exclusion(self) -> bool {
        forall|c: u64, i: u64|
            !((#[trigger] self.owner_of(c, i)) is Some && (#[trigger] self.pending_of(c, i))
                is Some)
    }
}

/// All four records of the asset `(c, i)` read the same in `pre` and `post`.
pub open spec fn unchanged_at(pre: Pallet, post: Pallet, c: u64, i: u64) -> bool {
    &&& post.owner_of(c, i) == pre.owner_of(c, i)
    &&& post.pending_of(c, i) == pre.pending_of(c, i)
    &&& post.metadata_of(c, i) == pre.metadata_of(c, i)
    &&& post.uri_of(c, i) == pre.uri_of(c, i)
}

/// No asset other than `(collection_id, item_id)` reads differently in
/// `post` than in `pre`.
pub open spec fn frame_except(pre: Pallet, post: Pallet, collection_id: u64, item_id: u64) -> bool {
    forall|c: u64, i: u64|
        !(c == collection_id && i == item_id) ==> #[trigger] unchanged_at(pre, post, c, i)
}

/// No asset reads differently in `post` than in `pre`.
pub open spec fn store_unchanged(pre: Pallet, post: Pallet) -> bool {
    &&& forall|c: u64, i: u64| #[trigger] post.owner_of(c, i) == pre.owner_of(c, i)
    &&& forall|c: u64, i: u64| #[trigger] post.pending_of(c, i) == pre.pending_of(c, i)
    &&& forall|c: u64, i: u64| #[trigger] post.metadata_of(c, i) == pre.metadata_of(c, i)
    &&& forall|c: u64, i: u64| #[trigger] post.uri_of(c, i) == pre.uri_of(c, i)
}

/// The call had no observable effect: the store, the notifications and the
/// module configuration are as they were.
pub open spec fn no_effect(pre: Pallet, post: Pallet) -> bool {
    &&& store_unchanged(pre, post)
    &&& post.events@ == pre.events@
    &&& post.pallet_instance == pre.pallet_instance
}

/// The metadata payload is within the bridge's bound.
pub open spec fn metadata_ok(md: Seq<u8>) -> bool {
    md.len() <= MAX_METADATA_LEN
}

/// The optional metadata URI is absent or within the bridge's bound.
pub open spec fn uri_ok(uri: Option<Seq<u8>>) -> bool {
    match uri {
        Some(u) => u.len() <= MAX_URI_LEN,
        None => true,
    }
}

/// Every precondition of `send` that the engine itself decides: the caller
/// owns the asset, the metadata fits, and the module can scope an asset
/// identity.  When this holds, only the transport can still make `send` fail.
pub open spec fn send_allowed(
    pre: Pallet,
    collection_id: u64,
    item_id: u64,
    sender: u64,
    md: Seq<u8>,
    uri: Option<Seq<u8>>,
) -> bool {
    &&& pre.owner_of(collection_id, item_id) == Some(sender)
    &&& metadata_ok(md)
    &&& uri_ok(uri)
    &&& pre.pallet_instance is Some
}

/// The effect of a successful `lock`: the ownership record is gone and
/// nothing else moved.
pub open spec fn lock_applied(pre: Pallet, post: Pallet, collection_id: u64, item_id: u64) -> bool {
    &&& post.owner_of(collection_id, item_id) is None
    &&& post.pending_of(collection_id, item_id) == pre.pending_of(collection_id, item_id)
    &&& post.metadata_of(collection_id, item_id) == pre.metadata_of(collection_id, item_id)
    &&& post.uri_of(collection_id, item_id) == pre.uri_of(collection_id, item_id)
    &&& frame_except(pre, post, collection_id, item_id)
    &&& post.events@ == pre.events@
    &&& post.pallet_instance == pre.pallet_instance
}

/// The effect of a successful `unlock`: ownership is restored to the
/// recipient, the pending record is gone, and the transient metadata copies
/// are purged.
pub open spec fn unlock_applied(
    pre: Pallet,
    post: Pallet,
    collection_id: u64,
    item_id: u64,
    recipient: u64,
) -> bool {
    &&& post.owner_of(collection_id, item_id) == Some(recipient)
    &&& post.pending_of(collection_id, item_id) is None
    &&& post.metadata_of(collection_id, item_id) is None
    &&& post.uri_of(collection_id, item_id) is None
    &&& frame_except(pre, post, collection_id, item_id)
    &&& post.events@ == pre.events@
    &&& post.pallet_instance == pre.pallet_instance
}

/// The effect of a successful `receive`: the recipient owns the asset
/// whatever was recorded before, the metadata is written, any pending
/// residue is cleared, and the arrival is notified.
pub open spec fn receive_applied(
    pre: Pallet,
    post: Pallet,
    collection_id: u64,
    item_id: u64,
    from_para_id: u32,
    recipient: u64,
    md: Seq<u8>,
    uri: Option<Seq<u8>>,
) -> bool {
    &&& post.owner_of(collection_id, item_id) == Some(recipient)
    &&& post.pending_of(collection_id, item_id) is None
    &&& post.metadata_of(collection_id, item_id) == Some(md)
    &&& match uri {
        Some(u) => post.uri_of(collection_id, item_id) == Some(u),
        None => post.uri_of(collection_id, item_id) == pre.uri_of(collection_id, item_id),
    }
    &&& frame_except(pre, post, collection_id, item_id)
    &&& post.events@ == pre.events@.push(
        Event::NFTReceived { collection_id, item_id, from_para_id },
    )
    &&& post.pallet_instance == pre.pallet_instance
}

/// The effect of a committed `send`: the asset is locked, its pending record
/// names the resolved destination, the metadata travels, and the departure
/// is notified.
pub open spec fn send_committed(
    pre: Pallet,
    post: Pallet,
    collection_id: u64,
    item_id: u64,
    sender: u64,
    dest_para_id: u32,
    md: Seq<u8>,
    uri: Option<Seq<u8>>,
) -> bool {
    &&& post.owner_of(collection_id, item_id) is None
    &&& post.pending_of(collection_id, item_id) == Some(para_destination_of(dest_para_id))
    &&& post.metadata_of(collection_id, item_id) == Some(md)
    &&& match uri {
        Some(u) => post.uri_of(collection_id, item_id) == Some(u),
        None => post.uri_of(collection_id, item_id) == pre.uri_of(collection_id, item_id),
    }
    &&& frame_except(pre, post, collection_id, item_id)
    &&& post.events@ == pre.events@.push(
        Event::NFTSent { collection_id, item_id, dest_para_id },
    )
    &&& post.pallet_instance == pre.pallet_instance
}

impl Pallet {
    /// A fresh engine over an empty store, remembering the instance index
    /// the host assigned to this module.
    pub fn new(pallet_instance: Option<u8>) -> (p: Pallet)
        ensures
            forall|c: u64, i: u64| p.owner_of(c, i) is None,
            forall|c: u64, i: u64| p.pending_of(c, i) is None,
            forall|c: u64, i: u64| p.metadata_of(c, i) is None,
            forall|c: u64, i: u64| p.uri_of(c, i) is None,
            p.events@.len() == 0,
            p.pallet_instance == pallet_instance,
            p.mutual_exclusion(),
    {
        Pallet { store: Store::new(), pallet_instance, events: Vec::new() }
    }

    /// Records an asset as owned by `owner`, the way an initial mint enters
    /// the bridge's ledger.  Minting presumes the asset is not mid-transfer.
    pub fn mint(&mut self, collection_id: u64, item_id: u64, owner: u64)
        requires
            old(self).pending_of(collection_id, item_id) is None,
        ensures
            final(self).owner_of(collection_id, item_id) == Some(owner),
            final(self).pending_of(collection_id, item_id) is None,
            final(self).metadata_of(collection_id, item_id) == old(self).metadata_of(
                collection_id,
                item_id,
            ),
            final(self).uri_of(collection_id, item_id) == old(self).uri_of(
                collection_id,
                item_id,
            ),
            frame_except(*old(self), *final(self), collection_id, item_id),
            final(self).events@ == old(self).events@,
            final(self).pallet_instance == old(self).pallet_instance,
            old(self).mutual_exclusion() ==> final(self).mutual_exclusion(),
    {
        self.store.set_owner(collection_id, item_id, owner);
        proof {
            assert forall|c: u64, i: u64|
                !(c == collection_id && i == item_id) implies #[trigger] unchanged_at(
                *old(self),
                *final(self),
                c,
                i,
            ) by {
                if key_of(c, i) == key_of(collection_id, item_id) {
                    lemma_key_of_injective(c, i, collection_id, item_id);
                }
            }
            if old(self).mutual_exclusion() {
                assert forall|c: u64, i: u64|
                    !((#[trigger] final(self).owner_of(c, i)) is Some && (
                    #[trigger] final(self).pending_of(c, i)) is Some) by {
                    if key_of(c, i) == key_of(collection_id, item_id) {
                        lemma_key_of_injective(c, i, collection_id, item_id);
                    }
                    assert(!(old(self).owner_of(c, i) is Some && old(self).pending_of(c, i)
                        is Some));
                }
            }
        }
    }

    /// The owner of an asset, if it is owned on this ledger.
    pub fn owner(&self, collection_id: u64, item_id: u64) -> (r: Option<u64>)
        ensures
            r == self.owner_of(collection_id, item_id),
    {
        self.store.get_owner(collection_id, item_id)
    }

    /// The owner of an asset, if it is owned on this ledger.
    pub fn get_owner(&self, collection_id: u64, item_id: u64) -> (r: Option<u64>)
        ensures
            r == self.owner_of(collection_id, item_id),
    {
        self.store.get_owner(collection_id, item_id)
    }

    /// Whether `who` is the recorded owner of the asset.
    pub fn is_owner(&self, collection_id: u64, item_id: u64, who: u64) -> (r: bool)
        ensures
            r == (self.owner_of(collection_id, item_id) == Some(who)),
    {
        match self.store.get_owner(collection_id, item_id) {
            Some(owner) => owner == who,
            None => false,
        }
    }

    /// The destination of the asset's pending transfer, if one is in flight.
    pub fn pending_transfer(&self, collection_id: u64, item_id: u64) -> (r: Option<Location>)
        ensures
            r == self.pending_of(collection_id, item_id),
    {
        self.store.get_pending(collection_id, item_id)
    }

    /// The metadata recorded for the asset, if any.
    pub fn nft_metadata(&self, collection_id: u64, item_id: u64) -> (r: Option<Vec<u8>>)
        ensures
            match r {
                Some(v) => self.metadata_of(collection_id, item_id) == Some(v@),
                None => self.metadata_of(collection_id, item_id) is None,
            },
    {
        self.store.get_metadata(collection_id, item_id)
    }

    /// The metadata URI recorded for the asset, if any.
    pub fn nft_metadata_uri(&self, collection_id: u64, item_id: u64) -> (r: Option<Vec<u8>>)
        ensures
            match r {
                Some(v) => self.uri_of(collection_id, item_id) == Some(v@),
                None => self.uri_of(collection_id, item_id) is None,
            },
    {
        self.store.get_metadata_uri(collection_id, item_id)
    }

    /// The most recently recorded notification, if any.
    pub fn last_event(&self) -> (r: Option<Event>)
        ensures
            match r {
                Some(e) => self.events@.len() > 0 && e == self.events@.last(),
                None => self.events@.len() == 0,
            },
    {
        if self.events.len() == 0 {
            None
        } else {
            Some(self.events[self.events.len() - 1])
        }
    }

    /// Locks an asset: the caller must be its recorded owner, and the
    /// ownership record is removed.  Locking alone creates no
    /// pending-transfer record; `send` records the destination itself.
    pub fn lock_nft(&mut self, collection_id: u64, item_id: u64, who: u64) -> (r: Result<
        (),
        Error,
    >)
        ensures
            old(self).owner_of(collection_id, item_id) is None ==> r == Err::<(), Error>(
                Error::NFTNotFound,
            ) && no_effect(*old(self), *final(self)),
            (old(self).owner_of(collection_id, item_id) matches Some(o) && o != who) ==> r
                == Err::<(), Error>(Error::NotOwner) && no_effect(*old(self), *final(self)),
            old(self).owner_of(collection_id, item_id) == Some(who) ==> r == Ok::<(), Error>(())
                && lock_applied(*old(self), *final(self), collection_id, item_id),
            old(self).owner_of(collection_id, item_id) == Some(who) ==> {
                &&& final(self).store.owners@ == old(self).store.owners@.remove(
                    key_of(collection_id, item_id),
                )
                &&& final(self).store.pending == old(self).store.pending
                &&& final(self).store.metadata == old(self).store.metadata
                &&& final(self).store.metadata_uri == old(self).store.metadata_uri
                &&& final(self).events == old(self).events
                &&& final(self).pallet_instance == old(self).pallet_instance
            },
            old(self).mutual_exclusion() ==> final(self).mutual_exclusion(),
    {
        let owner = match self.store.get_owner(collection_id, item_id) {
            Some(o) => o,
            None => {
                return Err(Error::NFTNotFound);
            },
        };
        if owner != who {
            return Err(Error::NotOwner);
        }
        self.store.clear_owner(collection_id, item_id);
        proof {
            assert forall|c: u64, i: u64|
                !(c == collection_id && i == item_id) implies #[trigger] unchanged_at(
                *old(self),
                *final(self),
                c,
                i,
            ) by {
                if key_of(c, i) == key_of(collection_id, item_id) {
                    lemma_key_of_injective(c, i, collection_id, item_id);
                }
            }
            if old(self).mutual_exclusion() {
                assert forall|c: u64, i: u64|
                    !((#[trigger] final(self).owner_of(c, i)) is Some && (
                    #[trigger] final(self).pending_of(c, i)) is Some) by {
                    if key_of(c, i) == key_of(collection_id, item_id) {
                        lemma_key_of_injective(c, i, collection_id, item_id);
                    }
                    assert(!(old(self).owner_of(c, i) is Some && old(self).pending_of(c, i)
                        is Some));
                }
            }
        }
        Ok(())
    }

    /// Reverses a pending transfer without the remote side: ownership is
    /// restored to `recipient`, the pending record is removed, and the
    /// metadata copies staged for the transfer are purged.
    pub fn unlock_nft(&mut self, collection_id: u64, item_id: u64, recipient: u64) -> (r: Result<
        (),
        Error,
    >)
        ensures
            old(self).pending_of(collection_id, item_id) is None ==> r == Err::<(), Error>(
                Error::NFTNotFound,
            ) && no_effect(*old(self), *final(self)),
            old(self).pending_of(collection_id, item_id) is Some ==> r == Ok::<(), Error>(())
                && unlock_applied(*old(self), *final(self), collection_id, item_id, recipient),
            old(self).mutual_exclusion() ==> final(self).mutual_exclusion(),
    {
        match self.store.get_pending(collection_id, item_id) {
            Some(_) => {},
            None => {
                return Err(Error::NFTNotFound);
            },
        }
        self.store.set_owner(collection_id, item_id, recipient);
        self.store.clear_pending(collection_id, item_id);
        self.store.clear_metadata(collection_id, item_id);
        self.store.clear_metadata_uri(collection_id, item_id);
        proof {
            assert forall|c: u64, i: u64|
                !(c == collection_id && i == item_id) implies #[trigger] unchanged_at(
                *old(self),
                *final(self),
                c,
                i,
            ) by {
                if key_of(c, i) == key_of(collection_id, item_id) {
                    lemma_key_of_injective(c, i, collection_id, item_id);
                }
            }
            if old(self).mutual_exclusion() {
                assert forall|c: u64, i: u64|
                    !((#[trigger] final(self).owner_of(c, i)) is Some && (
                    #[trigger] final(self).pending_of(c, i)) is Some) by {
                    if key_of(c, i) == key_of(collection_id, item_id) {
                        lemma_key_of_injective(c, i, collection_id, item_id);
                    }
                    if !(c == collection_id && i == item_id) {
                        assert(unchanged_at(*old(self), *final(self), c, i));
                        assert(!(old(self).owner_of(c, i) is Some && old(self).pending_of(c, i)
                            is Some));
                    }
                }
            }
        }
        Ok(())
    }

    /// Records the arrival of an asset from the remote ledger `from_para_id`:
    /// writes the metadata, sets `recipient` as owner whatever was recorded
    /// before, and clears any pending residue for the key.  Only the metadata
    /// bounds can make it fail; it never rejects based on existing state.
    pub fn do_receive_nft(
        &mut self,
        collection_id: u64,
        item_id: u64,
        from_para_id: u32,
        recipient: u64,
        metadata: Vec<u8>,
        metadata_uri: Option<Vec<u8>>,
    ) -> (r: Result<(), Error>)
        ensures
            !metadata_ok(metadata@) ==> r == Err::<(), Error>(Error::MetadataTooLong) && no_effect(
                *old(self),
                *final(self),
            ),
            metadata_ok(metadata@) && !uri_ok(uri_view(metadata_uri)) ==> r == Err::<(), Error>(
                Error::MetadataTooLong,
            ) && no_effect(*old(self), *final(self)),
            metadata_ok(metadata@) && uri_ok(uri_view(metadata_uri)) ==> r == Ok::<(), Error>(())
                && receive_applied(
                *old(self),
                *final(self),
                collection_id,
                item_id,
                from_para_id,
                recipient,
                metadata@,
                uri_view(metadata_uri),
            ),
            old(self).mutual_exclusion() ==> final(self).mutual_exclusion(),
    {
        if metadata.len() > MAX_METADATA_LEN {
            return Err(Error::MetadataTooLong);
        }
        match &metadata_uri {
            Some(uri) => {
                if uri.len() > MAX_URI_LEN {
                    return Err(Error::MetadataTooLong);
                }
            },
            None => {},
        }
        self.store.set_metadata(collection_id, item_id, metadata);
        match metadata_uri {
            Some(uri) => {
                self.store.set_metadata_uri(collection_id, item_id, uri);
            },
            None => {},
        }
        self.store.set_owner(collection_id, item_id, recipient);
        self.store.clear_pending(collection_id, item_id);
        self.events.push(Event::NFTReceived { collection_id, item_id, from_para_id });
        proof {
            assert forall|c: u64, i: u64|
                !(c == collection_id && i == item_id) implies #[trigger] unchanged_at(
                *old(self),
                *final(self),
                c,
                i,
            ) by {
                if key_of(c, i) == key_of(collection_id, item_id) {
                    lemma_key_of_injective(c, i, collection_id, item_id);
                }
            }
            if old(self).mutual_exclusion() {
                assert forall|c: u64, i: u64|
                    !((#[trigger] final(self).owner_of(c, i)) is Some && (
                    #[trigger] final(self).pending_of(c, i)) is Some) by {
                    if key_of(c, i) == key_of(collection_id, item_id) {
                        lemma_key_of_injective(c, i, collection_id, item_id);
                    }
                    if !(c == collection_id && i == item_id) {
                        assert(unchanged_at(*old(self), *final(self), c, i));
                        assert(!(old(self).owner_of(c, i) is Some && old(self).pending_of(c, i)
                            is Some));
                    }
                }
            }
        }
        Ok(())
    }

    /// The privileged arrival entry point.  The host's trust boundary must
    /// authenticate the caller as the authorized remote-execution path
    /// before this is invoked; the engine itself applies [`Self::do_receive_nft`].
    pub fn receive_nft(
        &mut self,
        collection_id: u64,
        item_id: u64,
        from_para_id: u32,
        recipient: u64,
        metadata: Vec<u8>,
        metadata_uri: Option<Vec<u8>>,
    ) -> (r: Result<(), Error>)
        ensures
            !metadata_ok(metadata@) ==> r == Err::<(), Error>(Error::MetadataTooLong) && no_effect(
                *old(self),
                *final(self),
            ),
            metadata_ok(metadata@) && !uri_ok(uri_view(metadata_uri)) ==> r == Err::<(), Error>(
                Error::MetadataTooLong,
            ) && no_effect(*old(self), *final(self)),
            metadata_ok(metadata@) && uri_ok(uri_view(metadata_uri)) ==> r == Ok::<(), Error>(())
                && receive_applied(
                *old(self),
                *final(self),
                collection_id,
                item_id,
                from_para_id,
                recipient,
                metadata@,
                uri_view(metadata_uri),
            ),
            old(self).mutual_exclusion() ==> final(self).mutual_exclusion(),
    {
        self.do_receive_nft(collection_id, item_id, from_para_id, recipient, metadata, metadata_uri)
    }

    /// Checks everything `send` decides before touching the transport, in
    /// the order the errors take precedence: ownership, metadata bound, URI
    /// bound, and the module's ability to scope an asset identity.
    pub fn check_send(
        &self,
        collection_id: u64,
        item_id: u64,
        sender: u64,
        metadata: &Vec<u8>,
        metadata_uri: &Option<Vec<u8>>,
    ) -> (r: Result<(), Error>)
        ensures
            self.owner_of(collection_id, item_id) is None ==> r == Err::<(), Error>(
                Error::NFTNotFound,
            ),
            (self.owner_of(collection_id, item_id) matches Some(o) && o != sender) ==> r
                == Err::<(), Error>(Error::NotOwner),
            self.owner_of(collection_id, item_id) == Some(sender) && !metadata_ok(metadata@) ==> r
                == Err::<(), Error>(Error::MetadataTooLong),
            self.owner_of(collection_id, item_id) == Some(sender) && metadata_ok(metadata@)
                && !uri_ok(uri_view(*metadata_uri)) ==> r == Err::<(), Error>(
                Error::MetadataTooLong,
            ),
            self.owner_of(collection_id, item_id) == Some(sender) && metadata_ok(metadata@)
                && uri_ok(uri_view(*metadata_uri)) && self.pallet_instance is None ==> r
                == Err::<(), Error>(Error::InvalidDestination),
            r == Ok::<(), Error>(()) <==> send_allowed(
                *self,
                collection_id,
                item_id,
                sender,
                metadata@,
                uri_view(*metadata_uri),
            ),
    {
        let owner = match self.store.get_owner(collection_id, item_id) {
            Some(o) => o,
            None => {
                return Err(Error::NFTNotFound);
            },
        };
        if owner != sender {
            return Err(Error::NotOwner);
        }
        if metadata.len() > MAX_METADATA_LEN {
            return Err(Error::MetadataTooLong);
        }
        match metadata_uri {
            Some(uri) => {
                if uri.len() > MAX_URI_LEN {
                    return Err(Error::MetadataTooLong);
                }
            },
            None => {},
        }
        match self.pallet_instance {
            Some(_) => Ok(()),
            None => Err(Error::InvalidDestination),
        }
    }

    /// Settles a `send` whose checks passed, given the transport's verdict
    /// on the outbound message.  A refusal aborts with no effect; an
    /// acceptance commits the whole transition: metadata written, ownership
    /// cleared through `lock`, the resolved destination recorded as pending,
    /// and the departure notified.
    pub fn complete_send(
        &mut self,
        collection_id: u64,
        item_id: u64,
        sender: u64,
        dest_para_id: u32,
        metadata: Vec<u8>,
        metadata_uri: Option<Vec<u8>>,
        accepted: bool,
    ) -> (r: Result<(), Error>)
        requires
            send_allowed(
                *old(self),
                collection_id,
                item_id,
                sender,
                metadata@,
                uri_view(metadata_uri),
            ),
        ensures
            accepted ==> r == Ok::<(), Error>(()) && send_committed(
                *old(self),
                *final(self),
                collection_id,
                item_id,
                sender,
                dest_para_id,
                metadata@,
                uri_view(metadata_uri),
            ),
            !accepted ==> r == Err::<(), Error>(Error::FailedToSendXCM) && no_effect(
                *old(self),
                *final(self),
            ),
            old(self).mutual_exclusion() ==> final(self).mutual_exclusion(),
    {
        if !accepted {
            return Err(Error::FailedToSendXCM);
        }
        self.store.set_metadata(collection_id, item_id, metadata);
        match metadata_uri {
            Some(uri) => {
                self.store.set_metadata_uri(collection_id, item_id, uri);
            },
            None => {},
        }
        match self.lock_nft(collection_id, item_id, sender) {
            Ok(()) => {},
            Err(e) => {
                // `send` re-derives the ownership check it already made; a
                // failure here is unreachable but is propagated, not
                // swallowed.
                return Err(e);
            },
        }
        let dest = para_destination(dest_para_id);
        self.store.set_pending(collection_id, item_id, dest);
        self.events.push(Event::NFTSent { collection_id, item_id, dest_para_id });
        proof {
            assert forall|c: u64, i: u64|
                !(c == collection_id && i == item_id) implies #[trigger] unchanged_at(
                *old(self),
                *final(self),
                c,
                i,
            ) by {
                if key_of(c, i) == key_of(collection_id, item_id) {
                    lemma_key_of_injective(c, i, collection_id, item_id);
                }
            }
            if old(self).mutual_exclusion() {
                assert forall|c: u64, i: u64|
                    !((#[trigger] final(self).owner_of(c, i)) is Some && (
                    #[trigger] final(self).pending_of(c, i)) is Some) by {
                    if key_of(c, i) == key_of(collection_id, item_id) {
                        lemma_key_of_injective(c, i, collection_id, item_id);
                    }
                    if !(c == collection_id && i == item_id) {
                        assert(unchanged_at(*old(self), *final(self), c, i));
                        assert(!(old(self).owner_of(c, i) is Some && old(self).pending_of(c, i)
                            is Some));
                    }
                }
            }
        }
        Ok(())
    }

    /// Executes the whole cross-chain transfer of an asset: validates, builds
    /// the outbound message, offers it to the transport, and commits the
    /// state transition only when the transport accepted it.  Any failure
    /// leaves every record as it was.
    pub fn do_xcm_transfer_nft<C: OutboundChannel>(
        &mut self,
        channel: &mut C,
        sender: u64,
        collection_id: u64,
        item_id: u64,
        dest_para_id: u32,
        metadata: Vec<u8>,
        metadata_uri: Option<Vec<u8>>,
    ) -> (r: Result<(), Error>)
        ensures
            old(self).owner_of(collection_id, item_id) is None ==> r == Err::<(), Error>(
                Error::NFTNotFound,
            ) && no_effect(*old(self), *final(self)),
            (old(self).owner_of(collection_id, item_id) matches Some(o) && o != sender) ==> r
                == Err::<(), Error>(Error::NotOwner) && no_effect(*old(self), *final(self)),
            old(self).owner_of(collection_id, item_id) == Some(sender) && !metadata_ok(metadata@)
                ==> r == Err::<(), Error>(Error::MetadataTooLong) && no_effect(
                *old(self),
                *final(self),
            ),
            old(self).owner_of(collection_id, item_id) == Some(sender) && metadata_ok(metadata@)
                && !uri_ok(uri_view(metadata_uri)) ==> r == Err::<(), Error>(Error::MetadataTooLong)
                && no_effect(*old(self), *final(self)),
            old(self).owner_of(collection_id, item_id) == Some(sender) && metadata_ok(metadata@)
                && uri_ok(uri_view(metadata_uri)) && old(self).pallet_instance is None ==> r
                == Err::<(), Error>(Error::InvalidDestination) && no_effect(
                *old(self),
                *final(self),
            ),
            send_allowed(
                *old(self),
                collection_id,
                item_id,
                sender,
                metadata@,
                uri_view(metadata_uri),
            ) ==> (r == Ok::<(), Error>(()) && send_committed(
                *old(self),
                *final(self),
                collection_id,
                item_id,
                sender,
                dest_para_id,
                metadata@,
                uri_view(metadata_uri),
            )) || (r == Err::<(), Error>(Error::FailedToSendXCM) && no_effect(
                *old(self),
                *final(self),
            )),
            r == Ok::<(), Error>(()) ==> send_allowed(
                *old(self),
                collection_id,
                item_id,
                sender,
                metadata@,
                uri_view(metadata_uri),
            ) && send_committed(
                *old(self),
                *final(self),
                collection_id,
                item_id,
                sender,
                dest_para_id,
                metadata@,
                uri_view(metadata_uri),
            ),
            old(self).mutual_exclusion() ==> final(self).mutual_exclusion(),
    {
        match self.check_send(collection_id, item_id, sender, &metadata, &metadata_uri) {
            Ok(()) => {},
            Err(e) => {
                return Err(e);
            },
        }
        let pallet_instance = match self.pallet_instance {
            Some(x) => x,
            None => {
                return Err(Error::InvalidDestination);
            },
        };
        let message = build_transfer_message(pallet_instance, collection_id, item_id, sender);
        let dest = para_destination(dest_para_id);
        let accepted = channel.deliver(&dest, &message);
        self.complete_send(
            collection_id,
            item_id,
            sender,
            dest_para_id,
            metadata,
            metadata_uri,
            accepted,
        )
    }

    /// The caller-facing send entry point: the host authenticates `sender`
    /// as the signed caller, and the engine runs [`Self::do_xcm_transfer_nft`].
    pub fn send_nft<C: OutboundChannel>(
        &mut self,
        channel: &mut C,
        sender: u64,
        collection_id: u64,
        item_id: u64,
        dest_para_id: u32,
        metadata: Vec<u8>,
        metadata_uri: Option<Vec<u8>>,
    ) -> (r: Result<(), Error>)
        ensures
            old(self).owner_of(collection_id, item_id) is None ==> r == Err::<(), Error>(
                Error::NFTNotFound,
            ) && no_effect(*old(self), *final(self)),
            (old(self).owner_of(collection_id, item_id) matches Some(o) && o != sender) ==> r
                == Err::<(), Error>(Error::NotOwner) && no_effect(*old(self), *final(self)),
            old(self).owner_of(collection_id, item_id) == Some(sender) && !metadata_ok(metadata@)
                ==> r == Err::<(), Error>(Error::MetadataTooLong) && no_effect(
                *old(self),
                *final(self),
            ),
            old(self).owner_of(collection_id, item_id) == Some(sender) && metadata_ok(metadata@)
                && !uri_ok(uri_view(metadata_uri)) ==> r == Err::<(), Error>(Error::MetadataTooLong)
                && no_effect(*old(self), *final(self)),
            old(self).owner_of(collection_id, item_id) == Some(sender) && metadata_ok(metadata@)
                && uri_ok(uri_view(metadata_uri)) && old(self).pallet_instance is None ==> r
                == Err::<(), Error>(Error::InvalidDestination) && no_effect(
                *old(self),
                *final(self),
            ),
            send_allowed(
                *old(self),
                collection_id,
                item_id,
                sender,
                metadata@,
                uri_view(metadata_uri),
            ) ==> (r == Ok::<(), Error>(()) && send_committed(
                *old(self),
                *final(self),
                collection_id,
                item_id,
                sender,
                dest_para_id,
                metadata@,
                uri_view(metadata_uri),
            )) || (r == Err::<(), Error>(Error::FailedToSendXCM) && no_effect(
                *old(self),
                *final(self),
            )),
            r == Ok::<(), Error>(()) ==> send_allowed(
                *old(self),
                collection_id,
                item_id,
                sender,
                metadata@,
                uri_view(metadata_uri),
            ) && send_committed(
                *old(self),
                *final(self),
                collection_id,
                item_id,
                sender,
                dest_para_id,
                metadata@,
                uri_view(metadata_uri),
            ),
            old(self).mutual_exclusion() ==> final(self).mutual_exclusion(),
    {
        self.do_xcm_transfer_nft(
            channel,
            sender,
            collection_id,
            item_id,
            dest_para_id,
            metadata,
            metadata_uri,
        )
    }
}

} // verus!
