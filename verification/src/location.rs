use vstd::prelude::*;

verus! {

/// One step of an address path on or between ledgers.
#[derive(Clone, Copy, PartialEq, Eq, Structural, Debug)]
pub enum Junction {
    /// A sibling ledger, addressed by its numeric identifier.
    Parachain(u32),
    /// A module instance on a ledger, addressed by its index there.
    PalletInstance(u8),
    /// A plain index scoped to the junction before it; the bridge uses it for
    /// the collection-scoped asset identifier.
    GeneralIndex(u128),
}

/// The path part of a [`Location`]: how many junctions it descends through.
#[derive(Clone, Copy, PartialEq, Eq, Structural, Debug)]
pub enum Interior {
    /// No junctions: the point reached after taking `parents` steps up.
    Here,
    /// One junction down.
    X1(Junction),
    /// Two junctions down.
    X2(Junction, Junction),
}

/// A structured address: climb `parents` levels up from the current ledger,
/// then descend through the interior junctions.
#[derive(Clone, Copy, PartialEq, Eq, Structural, Debug)]
pub struct Location {
    pub parents: u8,
    pub interior: Interior,
}

/// The remote endpoint a numeric destination identifier resolves to: the
/// sibling ledger with that identifier, one level up from here.
pub open spec fn para_destination_of(para_id: u32) -> Location {
    Location { parents: 1, interior: Interior::X1(Junction::Parachain(para_id)) }
}

/// Resolves a numeric destination identifier to the remote-endpoint address
/// an outbound message is delivered to.
pub fn para_destination(para_id: u32) -> (loc: Location)
    ensures
        loc == para_destination_of(para_id),
{
    Location { parents: 1, interior: Interior::X1(Junction::Parachain(para_id)) }
}

/// The asset execution fees are paid in on the destination: the ledger one
/// level up, with no further junctions.
pub open spec fn fee_asset_location() -> Location {
    Location { parents: 1, interior: Interior::Here }
}

/// The local identity of the bridged asset: this module's instance on the
/// local ledger, then the collection-scoped index under it.
pub open spec fn asset_id_location(pallet_instance: u8, collection_index: u128) -> Location {
    Location {
        parents: 0,
        interior: Interior::X2(
            Junction::PalletInstance(pallet_instance),
            Junction::GeneralIndex(collection_index),
        ),
    }
}

} // verus!
