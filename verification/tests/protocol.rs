use nft_bridge::encoding::account_bytes;
use nft_bridge::encoding::collection_index;
use nft_bridge::encoding::item_instance;
use nft_bridge::errors::Error;
use nft_bridge::location::para_destination;
use nft_bridge::location::Interior;
use nft_bridge::location::Junction;
use nft_bridge::location::Location;
use nft_bridge::message::Instruction;
use nft_bridge::message::FEE_AMOUNT;
use nft_bridge::message::WEIGHT_PROOF_SIZE;
use nft_bridge::message::WEIGHT_REF_TIME;
use nft_bridge::pallet::ClosedChannel;
use nft_bridge::pallet::Pallet;
use nft_bridge::pallet::RecordingChannel;

#[test]
fn owned_and_pending_never_coexist() {
    let mut bridge = Pallet::new(Some(42));
    let mut channel = RecordingChannel::new();

    bridge.mint(1, 1, 1);
    assert!(bridge.owner(1, 1).is_some() && bridge.pending_transfer(1, 1).is_none());

    assert!(bridge
        .send_nft(&mut channel, 1, 1, 1, 2000, b"md".to_vec(), None)
        .is_ok());
    assert!(bridge.owner(1, 1).is_none() && bridge.pending_transfer(1, 1).is_some());

    assert!(bridge
        .receive_nft(1, 1, 2000, 2, b"md".to_vec(), None)
        .is_ok());
    assert!(bridge.owner(1, 1).is_some() && bridge.pending_transfer(1, 1).is_none());
}

#[test]
fn send_then_unlock_round_trip() {
    let owner = 7;
    let mut bridge = Pallet::new(Some(42));
    let mut channel = RecordingChannel::new();

    bridge.mint(3, 4, owner);
    assert!(bridge
        .send_nft(&mut channel, owner, 3, 4, 2000, b"payload".to_vec(), None)
        .is_ok());

    assert!(bridge.unlock_nft(3, 4, owner).is_ok());
    assert_eq!(bridge.owner(3, 4), Some(owner));
    assert!(bridge.pending_transfer(3, 4).is_none());
    // The staged metadata copies are purged on rollback.
    assert_eq!(bridge.nft_metadata(3, 4), None);
    assert_eq!(bridge.nft_metadata_uri(3, 4), None);
}

#[test]
fn oversized_metadata_is_rejected_without_effect() {
    let mut bridge = Pallet::new(Some(42));
    let mut channel = RecordingChannel::new();

    // Give the asset an owner and some stored metadata first.
    assert!(bridge
        .receive_nft(1, 1, 2000, 1, b"orig".to_vec(), Some(b"orig-uri".to_vec()))
        .is_ok());

    let oversized = vec![0u8; 1025];
    assert_eq!(
        bridge.send_nft(&mut channel, 1, 1, 1, 2000, oversized.clone(), None),
        Err(Error::MetadataTooLong)
    );
    assert_eq!(
        bridge.receive_nft(1, 1, 2000, 2, oversized, None),
        Err(Error::MetadataTooLong)
    );

    // A 1024-byte payload is the largest accepted; one byte more in the URI
    // is rejected too.
    let exact = vec![0u8; 1024];
    assert_eq!(
        bridge.send_nft(&mut channel, 1, 1, 1, 2000, exact, Some(vec![0u8; 257])),
        Err(Error::MetadataTooLong)
    );

    // All four records are as the first receive left them.
    assert_eq!(bridge.owner(1, 1), Some(1));
    assert!(bridge.pending_transfer(1, 1).is_none());
    assert_eq!(bridge.nft_metadata(1, 1), Some(b"orig".to_vec()));
    assert_eq!(bridge.nft_metadata_uri(1, 1), Some(b"orig-uri".to_vec()));
}

#[test]
fn receive_overwrites_previous_owner() {
    let mut bridge = Pallet::new(Some(42));

    assert!(bridge
        .receive_nft(1, 1, 2000, 5, b"first".to_vec(), None)
        .is_ok());
    assert!(bridge
        .receive_nft(1, 1, 2001, 6, b"second".to_vec(), None)
        .is_ok());

    assert_eq!(bridge.owner(1, 1), Some(6));
    assert_eq!(bridge.nft_metadata(1, 1), Some(b"second".to_vec()));
    assert!(bridge.pending_transfer(1, 1).is_none());
}

#[test]
fn send_records_resolved_destination() {
    let mut bridge = Pallet::new(Some(42));
    let mut channel = RecordingChannel::new();

    bridge.mint(1, 1, 1);
    assert!(bridge
        .send_nft(&mut channel, 1, 1, 1, 2000, b"test_metadata".to_vec(), None)
        .is_ok());

    assert_eq!(bridge.pending_transfer(1, 1), Some(para_destination(2000)));
    assert_eq!(
        para_destination(2000),
        Location { parents: 1, interior: Interior::X1(Junction::Parachain(2000)) }
    );
}

#[test]
fn outbound_message_carries_the_asset() {
    let mut bridge = Pallet::new(Some(42));
    let mut channel = RecordingChannel::new();

    bridge.mint(1, 1, 1);
    assert!(bridge
        .send_nft(&mut channel, 1, 1, 1, 2000, b"md".to_vec(), None)
        .is_ok());

    assert_eq!(channel.sent.len(), 1);
    let (dest, message) = &channel.sent[0];
    assert_eq!(*dest, para_destination(2000));

    // Identifier 1 encodes little-endian, so folding its bytes big-endian
    // puts the 1 in the top byte: 1 << 56.
    let folded = 72_057_594_037_927_936u128;
    assert_eq!(message.instructions.len(), 4);
    assert_eq!(message.instructions[0], Instruction::ClearOrigin);
    assert_eq!(
        message.instructions[1],
        Instruction::ReserveAssetDeposited {
            asset_id: Location {
                parents: 0,
                interior: Interior::X2(
                    Junction::PalletInstance(42),
                    Junction::GeneralIndex(folded),
                ),
            },
            instance: folded,
        }
    );
    assert_eq!(
        message.instructions[2],
        Instruction::BuyExecution {
            fees_asset: Location { parents: 1, interior: Interior::Here },
            fees_amount: FEE_AMOUNT,
            ref_time: WEIGHT_REF_TIME,
            proof_size: WEIGHT_PROOF_SIZE,
        }
    );
    let mut beneficiary = vec![0u8; 32];
    beneficiary[0] = 1;
    assert_eq!(
        message.instructions[3],
        Instruction::DepositToAccount { beneficiary }
    );
}

#[test]
fn identifier_folding_matches_the_formula() {
    assert_eq!(collection_index(1), 1u128 << 56);
    assert_eq!(collection_index(0), 0);
    assert_eq!(collection_index(0x0102_0304_0506_0708), 0x0807_0605_0403_0201);
    assert_eq!(item_instance(1), 1u128 << 56);
    assert_eq!(item_instance(0x0102_0304_0506_0708), 0x0807_0605_0403_0201);

    let account = account_bytes(0x0102_0304_0506_0708);
    assert_eq!(account.len(), 32);
    assert_eq!(&account[..8], &[8, 7, 6, 5, 4, 3, 2, 1]);
    assert!(account[8..].iter().all(|b| *b == 0));
}

#[test]
fn refused_delivery_aborts_send_without_effect() {
    let mut bridge = Pallet::new(Some(42));
    let mut channel = ClosedChannel {};

    bridge.mint(1, 1, 1);
    assert_eq!(
        bridge.send_nft(&mut channel, 1, 1, 1, 2000, b"md".to_vec(), None),
        Err(Error::FailedToSendXCM)
    );
    assert_eq!(bridge.owner(1, 1), Some(1));
    assert!(bridge.pending_transfer(1, 1).is_none());
    assert_eq!(bridge.nft_metadata(1, 1), None);
    assert_eq!(bridge.last_event(), None);
}

#[test]
fn unregistered_module_cannot_send() {
    let mut bridge = Pallet::new(None);
    let mut channel = RecordingChannel::new();

    bridge.mint(1, 1, 1);
    assert_eq!(
        bridge.send_nft(&mut channel, 1, 1, 1, 2000, b"md".to_vec(), None),
        Err(Error::InvalidDestination)
    );
    assert_eq!(bridge.owner(1, 1), Some(1));
    assert!(bridge.pending_transfer(1, 1).is_none());
}

#[test]
fn send_of_untracked_asset_is_not_found() {
    let mut bridge = Pallet::new(Some(42));
    let mut channel = RecordingChannel::new();

    assert_eq!(
        bridge.send_nft(&mut channel, 1, 9, 9, 2000, b"md".to_vec(), None),
        Err(Error::NFTNotFound)
    );
}

#[test]
fn ownership_queries_agree() {
    let mut bridge = Pallet::new(Some(42));
    bridge.mint(2, 3, 11);

    assert_eq!(bridge.get_owner(2, 3), Some(11));
    assert!(bridge.is_owner(2, 3, 11));
    assert!(!bridge.is_owner(2, 3, 12));
    assert!(!bridge.is_owner(2, 4, 11));
    assert_eq!(bridge.get_owner(2, 4), None);
}
