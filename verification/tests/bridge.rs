use nft_bridge::errors::Error;
use nft_bridge::events::Event;
use nft_bridge::pallet::Pallet;
use nft_bridge::pallet::RecordingChannel;

#[test]
fn send_nft_works() {
    let sender = 1;
    let collection_id = 1;
    let item_id = 1;
    let dest_para_id = 2000;
    let metadata = b"test_metadata".to_vec();

    let mut bridge = Pallet::new(Some(42));
    let mut channel = RecordingChannel::new();

    // First, assign the NFT to the sender, the way a mint would.
    bridge.mint(collection_id, item_id, sender);

    assert!(bridge
        .send_nft(
            &mut channel,
            sender,
            collection_id,
            item_id,
            dest_para_id,
            metadata.clone(),
            None, // no metadata URI
        )
        .is_ok());

    // The NFT is no longer owned by the sender.
    assert!(bridge.owner(collection_id, item_id).is_none());

    // The NFT is in pending transfer state.
    assert!(bridge.pending_transfer(collection_id, item_id).is_some());

    // An event was emitted.
    assert_eq!(
        bridge.last_event(),
        Some(Event::NFTSent { collection_id, item_id, dest_para_id })
    );
}

#[test]
fn receive_nft_works() {
    let collection_id = 1;
    let item_id = 1;
    let from_para_id = 2000;
    let recipient = 2;
    let metadata = b"test_metadata".to_vec();

    let mut bridge = Pallet::new(Some(42));

    // In practice the host authenticates the caller before this is invoked.
    assert!(bridge
        .receive_nft(collection_id, item_id, from_para_id, recipient, metadata, None)
        .is_ok());

    // The NFT is now owned by the recipient.
    assert_eq!(bridge.owner(collection_id, item_id), Some(recipient));

    // An event was emitted.
    assert_eq!(
        bridge.last_event(),
        Some(Event::NFTReceived { collection_id, item_id, from_para_id })
    );
}

#[test]
fn send_nft_fails_if_not_owner() {
    let sender = 1;
    let other = 2;
    let collection_id = 1;
    let item_id = 1;
    let dest_para_id = 2000;
    let metadata = b"test_metadata".to_vec();

    let mut bridge = Pallet::new(Some(42));
    let mut channel = RecordingChannel::new();

    // Assign the NFT to "other" instead of "sender".
    bridge.mint(collection_id, item_id, other);

    // Sending an NFT the sender does not own fails and changes nothing.
    assert_eq!(
        bridge.send_nft(
            &mut channel,
            sender,
            collection_id,
            item_id,
            dest_para_id,
            metadata,
            None,
        ),
        Err(Error::NotOwner)
    );
    assert_eq!(bridge.owner(collection_id, item_id), Some(other));
    assert!(bridge.pending_transfer(collection_id, item_id).is_none());
    assert_eq!(bridge.last_event(), None);
}

#[test]
fn metadata_preservation_works() {
    let sender = 1;
    let collection_id = 1;
    let item_id = 1;
    let dest_para_id = 2000;
    let metadata = b"test_metadata".to_vec();
    let metadata_uri = Some(b"ipfs://test".to_vec());

    let mut bridge = Pallet::new(Some(42));
    let mut channel = RecordingChannel::new();

    bridge.mint(collection_id, item_id, sender);

    assert!(bridge
        .send_nft(
            &mut channel,
            sender,
            collection_id,
            item_id,
            dest_para_id,
            metadata.clone(),
            metadata_uri.clone(),
        )
        .is_ok());

    // The metadata is stored.
    assert_eq!(bridge.nft_metadata(collection_id, item_id), Some(metadata));

    if let Some(uri) = metadata_uri {
        assert_eq!(bridge.nft_metadata_uri(collection_id, item_id), Some(uri));
    }
}

#[test]
fn nft_lock_unlock_works() {
    let sender = 1;
    let collection_id = 1;
    let item_id = 1;

    let mut bridge = Pallet::new(Some(42));

    bridge.mint(collection_id, item_id, sender);

    // Lock the NFT.
    assert!(bridge.lock_nft(collection_id, item_id, sender).is_ok());

    // The NFT is no longer owned by the sender.
    assert!(bridge.owner(collection_id, item_id).is_none());

    // Locking alone records no pending transfer, and unlocking demands one:
    // a bare lock cannot be reversed through unlock, which reports the asset
    // as not found and restores nothing.
    assert_eq!(
        bridge.unlock_nft(collection_id, item_id, sender),
        Err(Error::NFTNotFound)
    );
    assert!(bridge.owner(collection_id, item_id).is_none());
}

#[test]
fn nft_unlock_fails_if_not_locked() {
    let sender = 1;
    let collection_id = 1;
    let item_id = 1;

    let mut bridge = Pallet::new(Some(42));

    // Unlocking an NFT that is not in pending transfer state fails.
    assert_eq!(
        bridge.unlock_nft(collection_id, item_id, sender),
        Err(Error::NFTNotFound)
    );
    assert!(bridge.owner(collection_id, item_id).is_none());
}
