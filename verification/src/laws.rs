use crate::pallet::frame_except;
use crate::pallet::lock_applied;
use crate::pallet::receive_applied;
use crate::pallet::send_committed;
use crate::pallet::unchanged_at;
use crate::pallet::unlock_applied;
use crate::pallet::Pallet;
use vstd::prelude::*;

verus! {

/// Locking preserves mutual exclusion: if no asset was both owned and
/// pending before an asset's ownership record was removed, none is after.
pub proof fn lemma_lock_preserves_exclusion(
    pre: Pallet,
    post: Pallet,
    collection_id: u64,
    item_id: u64,
)
    requires
        pre.mutual_exclusion(),
        lock_applied(pre, post, collection_id, item_id),
    ensures
        post.mutual_exclusion(),
{
    assert forall|c: u64, i: u64|
        !((#[trigger] post.owner_of(c, i)) is Some && (#[trigger] post.pending_of(c, i))
            is Some) by {
        if !(c == collection_id && i == item_id) {
            assert(unchanged_at(pre, post, c, i));
            assert(!(pre.owner_of(c, i) is Some && pre.pending_of(c, i) is Some));
        }
    }
}

/// Unlocking preserves mutual exclusion: restoring ownership removes the
/// pending record of the same asset, and touches no other.
pub proof fn lemma_unlock_preserves_exclusion(
    pre: Pallet,
    post: Pallet,
    collection_id: u64,
    item_id: u64,
    recipient: u64,
)
    requires
        pre.mutual_exclusion(),
        unlock_applied(pre, post, collection_id, item_id, recipient),
    ensures
        post.mutual_exclusion(),
{
    assert forall|c: u64, i: u64|
        !((#[trigger] post.owner_of(c, i)) is Some && (#[trigger] post.pending_of(c, i))
            is Some) by {
        if !(c == collection_id && i == item_id) {
            assert(unchanged_at(pre, post, c, i));
            assert(!(pre.owner_of(c, i) is Some && pre.pending_of(c, i) is Some));
        }
    }
}

/// Receiving preserves mutual exclusion: recording the arrived asset's owner
/// clears any pending residue of the same asset, and touches no other.
pub proof fn lemma_receive_preserves_exclusion(
    pre: Pallet,
    post: Pallet,
    collection_id: u64,
    item_id: u64,
    from_para_id: u32,
    recipient: u64,
    md: Seq<u8>,
    uri: Option<Seq<u8>>,
)
    requires
        pre.mutual_exclusion(),
        receive_applied(pre, post, collection_id, item_id, from_para_id, recipient, md, uri),
    ensures
        post.mutual_exclusion(),
{
    assert forall|c: u64, i: u64|
        !((#[trigger] post.owner_of(c, i)) is Some && (#[trigger] post.pending_of(c, i))
            is Some) by {
        if !(c == collection_id && i == item_id) {
            assert(unchanged_at(pre, post, c, i));
            assert(!(pre.owner_of(c, i) is Some && pre.pending_of(c, i) is Some));
        }
    }
}

/// A committed send preserves mutual exclusion: the asset it locks loses its
/// ownership record as its pending record appears, and no other asset moves.
pub proof fn lemma_send_preserves_exclusion(
    pre: Pallet,
    post: Pallet,
    collection_id: u64,
    item_id: u64,
    sender: u64,
    dest_para_id: u32,
    md: Seq<u8>,
    uri: Option<Seq<u8>>,
)
    requires
        pre.mutual_exclusion(),
        send_committed(pre, post, collection_id, item_id, sender, dest_para_id, md, uri),
    ensures
        post.mutual_exclusion(),
{
    assert forall|c: u64, i: u64|
        !((#[trigger] post.owner_of(c, i)) is Some && (#[trigger] post.pending_of(c, i))
            is Some) by {
        if !(c == collection_id && i == item_id) {
            assert(unchanged_at(pre, post, c, i));
            assert(!(pre.owner_of(c, i) is Some && pre.pending_of(c, i) is Some));
        }
    }
}

/// The lock/unlock round trip: a committed send leaves the asset pending, so
/// an unlock is owed success, and the unlock restores ownership to the given
/// recipient, leaves no pending transfer, and purges the staged metadata.
pub proof fn lemma_send_then_unlock_round_trip(
    s0: Pallet,
    s1: Pallet,
    s2: Pallet,
    collection_id: u64,
    item_id: u64,
    owner: u64,
    dest_para_id: u32,
    md: Seq<u8>,
    uri: Option<Seq<u8>>,
)
    requires
        send_committed(s0, s1, collection_id, item_id, owner, dest_para_id, md, uri),
        unlock_applied(s1, s2, collection_id, item_id, owner),
    ensures
        s1.pending_of(collection_id, item_id) is Some,
        s2.owner_of(collection_id, item_id) == Some(owner),
        s2.pending_of(collection_id, item_id) is None,
        s2.metadata_of(collection_id, item_id) is None,
        s2.uri_of(collection_id, item_id) is None,
{
}

/// Receive overwrites: two arrivals of the same asset both succeed, whatever
/// the store held, and the later recipient and metadata are what remain.
pub proof fn lemma_receive_overwrites(
    s0: Pallet,
    s1: Pallet,
    s2: Pallet,
    collection_id: u64,
    item_id: u64,
    from1: u32,
    recipient1: u64,
    md1: Seq<u8>,
    uri1: Option<Seq<u8>>,
    from2: u32,
    recipient2: u64,
    md2: Seq<u8>,
    uri2: Option<Seq<u8>>,
)
    requires
        receive_applied(s0, s1, collection_id, item_id, from1, recipient1, md1, uri1),
        receive_applied(s1, s2, collection_id, item_id, from2, recipient2, md2, uri2),
    ensures
        s2.owner_of(collection_id, item_id) == Some(recipient2),
        s2.metadata_of(collection_id, item_id) == Some(md2),
        s2.pending_of(collection_id, item_id) is None,
{
}

/// A transfer moves exactly one asset: every record of every other asset
/// reads after a committed send as it did before.
pub proof fn lemma_send_frames_other_assets(
    pre: Pallet,
    post: Pallet,
    collection_id: u64,
    item_id: u64,
    sender: u64,
    dest_para_id: u32,
    md: Seq<u8>,
    uri: Option<Seq<u8>>,
    c: u64,
    i: u64,
)
    requires
        send_committed(pre, post, collection_id, item_id, sender, dest_para_id, md, uri),
        !(c == collection_id && i == item_id),
    ensures
        post.owner_of(c, i) == pre.owner_of(c, i),
        post.pending_of(c, i) == pre.pending_of(c, i),
        post.metadata_of(c, i) == pre.metadata_of(c, i),
        post.uri_of(c, i) == pre.uri_of(c, i),
{
    assert(frame_except(pre, post, collection_id, item_id));
    assert(unchanged_at(pre, post, c, i));
}

} // verus!
