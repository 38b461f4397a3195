use crate::encoding::account_bytes;
use crate::encoding::account_bytes_of;
use crate::encoding::collection_asset_index;
use crate::encoding::collection_index;
use crate::encoding::item_asset_instance;
use crate::encoding::item_instance;
use crate::location::asset_id_location;
use crate::location::fee_asset_location;
use crate::location::Location;
use vstd::prelude::*;

verus! {

/// The execution fee reserved on the destination ledger.
pub const FEE_AMOUNT: u128 = 1_000_000_000;

/// The computation-time budget bought on the destination ledger.
pub const WEIGHT_REF_TIME: u64 = 400_000_000_000;

/// The proof-size budget bought on the destination ledger.
pub const WEIGHT_PROOF_SIZE: u64 = 65_536;

/// One instruction of an outbound cross-ledger message.
#[derive(Clone, PartialEq, Eq, Debug)]
pub enum Instruction {
    /// Clears the provenance of the message on arrival.
    ClearOrigin,
    /// Announces the bridged asset: its collection-scoped identity on this
    /// ledger and the non-fungible instance within the collection.
    ReserveAssetDeposited { asset_id: Location, instance: u128 },
    /// Reserves execution fees on the destination ledger.
    BuyExecution { fees_asset: Location, fees_amount: u128, ref_time: u64, proof_size: u64 },
    /// Deposits the asset to an account representation on the destination
    /// ledger.
    DepositToAccount { beneficiary: Vec<u8> },
}

/// An ordered list of instructions delivered as one cross-ledger message.
#[derive(Clone, PartialEq, Eq, Debug)]
pub struct Message {
    pub instructions: Vec<Instruction>,
}

/// What the outbound message for an asset must say: clear the origin,
/// describe the asset, reserve execution fees, and deposit the asset to the
/// sender's 32-byte account representation on the destination.
pub open spec fn is_transfer_message(
    m: Message,
    pallet_instance: u8,
    collection_id: u64,
    item_id: u64,
    sender: u64,
) -> bool {
    &&& m.instructions@.len() == 4
    &&& m.instructions@[0] == Instruction::ClearOrigin
    &&& m.instructions@[1] == (Instruction::ReserveAssetDeposited {
        asset_id: asset_id_location(pallet_instance, collection_asset_index(collection_id)),
        instance: item_asset_instance(item_id),
    })
    &&& m.instructions@[2] == (Instruction::BuyExecution {
        fees_asset: fee_asset_location(),
        fees_amount: FEE_AMOUNT as u128,
        ref_time: WEIGHT_REF_TIME as u64,
        proof_size: WEIGHT_PROOF_SIZE as u64,
    })
    &&& (m.instructions@[3] matches Instruction::DepositToAccount { beneficiary }
        && beneficiary@ == account_bytes_of(sender))
}

/// Builds the outbound message for one asset: the instruction list described
/// by [`is_transfer_message`].
pub fn build_transfer_message(
    pallet_instance: u8,
    collection_id: u64,
    item_id: u64,
    sender: u64,
) -> (m: Message)
    ensures
        is_transfer_message(m, pallet_instance, collection_id, item_id, sender),
{
    let mut instructions: Vec<Instruction> = Vec::new();
    instructions.push(Instruction::ClearOrigin);
    instructions.push(
        Instruction::ReserveAssetDeposited {
            asset_id: Location {
                parents: 0,
                interior: crate::location::Interior::X2(
                    crate::location::Junction::PalletInstance(pallet_instance),
                    crate::location::Junction::GeneralIndex(collection_index(collection_id)),
                ),
            },
            instance: item_instance(item_id),
        },
    );
    instructions.push(
        Instruction::BuyExecution {
            fees_asset: Location { parents: 1, interior: crate::location::Interior::Here },
            fees_amount: FEE_AMOUNT,
            ref_time: WEIGHT_REF_TIME,
            proof_size: WEIGHT_PROOF_SIZE,
        },
    );
    instructions.push(Instruction::DepositToAccount { beneficiary: account_bytes(sender) });
    Message { instructions }
}

} // verus!
