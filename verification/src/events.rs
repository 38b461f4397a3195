use vstd::prelude::*;

verus! {

/// Notifications recorded for outside observers whenever a transfer-related
/// operation commits.  They carry the asset's identity together with the
/// remote ledger involved.
#[derive(Clone, Copy, PartialEq, Eq, Structural, Debug)]
pub enum Event {
    /// An asset was locked here and an outbound message for it was delivered.
    NFTSent { collection_id: u64, item_id: u64, dest_para_id: u32 },
    /// An asset arriving from a remote ledger was recorded under a local owner.
    NFTReceived { collection_id: u64, item_id: u64, from_para_id: u32 },
    /// Reserved for a future two-phase completion handshake; no operation of
    /// this crate records it.
    NFTTransferCompleted {
        collection_id: u64,
        item_id: u64,
        from_para_id: u32,
        to_para_id: u32,
    },
}

} // verus!
