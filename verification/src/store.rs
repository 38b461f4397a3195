use crate::location::Location;
use std::collections::HashMap;
use vstd::prelude::*;

verus! {

broadcast use vstd::std_specs::hash::group_hash_axioms;

/// The composite key of an asset, packed into one integer: the collection
/// identifier in the high 64 bits, the item identifier in the low 64 bits.
pub open spec fn key_of(collection_id: u64, item_id: u64) -> u128 {
    (collection_id * 0x1_0000_0000_0000_0000 + item_id) as u128
}

/// Two distinct `(collection, item)` pairs pack to distinct keys.
pub proof fn lemma_key_of_injective(c1: u64, i1: u64, c2: u64, i2: u64)
    requires
        key_of(c1, i1) == key_of(c2, i2),
    ensures
        c1 == c2 && i1 == i2,
{
    let a: int = c1 * 0x1_0000_0000_0000_0000 + i1;
    let b: int = c2 * 0x1_0000_0000_0000_0000 + i2;
    assert(a <= 0xffff_ffff_ffff_ffff * 0x1_0000_0000_0000_0000 + 0xffff_ffff_ffff_ffff);
    assert(b <= 0xffff_ffff_ffff_ffff * 0x1_0000_0000_0000_0000 + 0xffff_ffff_ffff_ffff);
    assert(a == b);
    assert(c1 == c2 && i1 == i2) by (nonlinear_arith)
        requires
            c1 * 0x1_0000_0000_0000_0000 + i1 == c2 * 0x1_0000_0000_0000_0000 + i2,
            i1 < 0x1_0000_0000_0000_0000,
            i2 < 0x1_0000_0000_0000_0000,
            c1 >= 0,
            c2 >= 0,
    ;
}

/// Packs a composite asset key into one integer.
pub fn pack_key(collection_id: u64, item_id: u64) -> (k: u128)
    ensures
        k == key_of(collection_id, item_id),
{
    let k: u128 = ((collection_id as u128) << 64) | (item_id as u128);
    proof {
        let c = collection_id as u128;
        let i = item_id as u128;
        assert((c << 64) | i == c * 0x1_0000_0000_0000_0000 + i) by (bit_vector)
            requires
                c < 0x1_0000_0000_0000_0000,
                i < 0x1_0000_0000_0000_0000,
        ;
    }
    k
}

/// The durable state of the bridge: point-keyed tables mapping an asset to
/// its current owner, to the destination of a pending transfer, and to the
/// metadata preserved across the transfer boundary.
pub struct Store {
    /// Present exactly when the asset is owned and available on this ledger.
    pub owners: HashMap<u128, u64>,
    /// Present exactly when the asset is locked awaiting remote confirmation.
    pub pending: HashMap<u128, Location>,
    /// The asset's raw descriptive payload.
    pub metadata: HashMap<u128, Vec<u8>>,
    /// An optional pointer to off-ledger metadata storage.
    pub metadata_uri: HashMap<u128, Vec<u8>>,
}

impl Store {
    /// The owner recorded for an asset, if it is owned here.
    pub open spec fn owner_of(self, collection_id: u64, item_id: u64) -> Option<u64> {
        if self.owners@.contains_key(key_of(collection_id, item_id)) {
            Some(self.owners@[key_of(collection_id, item_id)])
        } else {
            None
        }
    }

    /// The destination recorded for an asset's pending transfer, if one is in
    /// flight.
    pub open spec fn pending_of(self, collection_id: u64, item_id: u64) -> Option<Location> {
        if self.pending@.contains_key(key_of(collection_id, item_id)) {
            Some(self.pending@[key_of(collection_id, item_id)])
        } else {
            None
        }
    }

    /// The metadata bytes recorded for an asset, if any.
    pub open spec fn metadata_of(self, collection_id: u64, item_id: u64) -> Option<Seq<u8>> {
        if self.metadata@.contains_key(key_of(collection_id, item_id)) {
            Some(self.metadata@[key_of(collection_id, item_id)]@)
        } else {
            None
        }
    }

    /// The metadata URI bytes recorded for an asset, if any.
    pub open spec fn uri_of(self, collection_id: u64, item_id: u64) -> Option<Seq<u8>> {
        if self.metadata_uri@.contains_key(key_of(collection_id, item_id)) {
            Some(self.metadata_uri@[key_of(collection_id, item_id)]@)
        } else {
            None
        }
    }

    /// An empty store: no asset is owned, pending, or described.
    pub fn new() -> (s: Store)
        ensures
            s.owners@ == Map::<u128, u64>::empty(),
            s.pending@ == Map::<u128, Location>::empty(),
            s.metadata@ == Map::<u128, Vec<u8>>::empty(),
            s.metadata_uri@ == Map::<u128, Vec<u8>>::empty(),
    {
        Store {
            owners: HashMap::new(),
            pending: HashMap::new(),
            metadata: HashMap::new(),
            metadata_uri: HashMap::new(),
        }
    }

    /// Point lookup of an asset's owner.
    pub fn get_owner(&self, collection_id: u64, item_id: u64) -> (r: Option<u64>)
        ensures
            r == self.owner_of(collection_id, item_id),
    {
        let k = pack_key(collection_id, item_id);
        match self.owners.get(&k) {
            Some(o) => Some(*o),
            None => None,
        }
    }

    /// Records `owner` as the asset's owner, replacing any previous owner.
    pub fn set_owner(&mut self, collection_id: u64, item_id: u64, owner: u64)
        ensures
            final(self).owners@ == old(self).owners@.insert(key_of(collection_id, item_id), owner),
            final(self).pending == old(self).pending,
            final(self).metadata == old(self).metadata,
            final(self).metadata_uri == old(self).metadata_uri,
    {
        let k = pack_key(collection_id, item_id);
        self.owners.insert(k, owner);
    }

    /// Removes the asset's ownership record, if present.
    pub fn clear_owner(&mut self, collection_id: u64, item_id: u64)
        ensures
            final(self).owners@ == old(self).owners@.remove(key_of(collection_id, item_id)),
            final(self).pending == old(self).pending,
            final(self).metadata == old(self).metadata,
            final(self).metadata_uri == old(self).metadata_uri,
    {
        let k = pack_key(collection_id, item_id);
        self.owners.remove(&k);
    }

    /// Point lookup of an asset's pending-transfer destination.
    pub fn get_pending(&self, collection_id: u64, item_id: u64) -> (r: Option<Location>)
        ensures
            r == self.pending_of(collection_id, item_id),
    {
        let k = pack_key(collection_id, item_id);
        match self.pending.get(&k) {
            Some(loc) => Some(*loc),
            None => None,
        }
    }

    /// Records `dest` as the destination of the asset's pending transfer.
    pub fn set_pending(&mut self, collection_id: u64, item_id: u64, dest: Location)
        ensures
            final(self).pending@ == old(self).pending@.insert(key_of(collection_id, item_id), dest),
            final(self).owners == old(self).owners,
            final(self).metadata == old(self).metadata,
            final(self).metadata_uri == old(self).metadata_uri,
    {
        let k = pack_key(collection_id, item_id);
        self.pending.insert(k, dest);
    }

    /// Removes the asset's pending-transfer record, if present.
    pub fn clear_pending(&mut self, collection_id: u64, item_id: u64)
        ensures
            final(self).pending@ == old(self).pending@.remove(key_of(collection_id, item_id)),
            final(self).owners == old(self).owners,
            final(self).metadata == old(self).metadata,
            final(self).metadata_uri == old(self).metadata_uri,
    {
        let k = pack_key(collection_id, item_id);
        self.pending.remove(&k);
    }

    /// Point lookup of an asset's metadata, copied out.
    pub fn get_metadata(&self, collection_id: u64, item_id: u64) -> (r: Option<Vec<u8>>)
        ensures
            match r {
                Some(v) => self.metadata_of(collection_id, item_id) == Some(v@),
                None => self.metadata_of(collection_id, item_id) is None,
            },
    {
        let k = pack_key(collection_id, item_id);
        match self.metadata.get(&k) {
            Some(v) => Some(clone_bytes(v)),
            None => None,
        }
    }

    /// Records the asset's metadata bytes, replacing any previous value.
    pub fn set_metadata(&mut self, collection_id: u64, item_id: u64, bytes: Vec<u8>)
        ensures
            final(self).metadata@ == old(self).metadata@.insert(
                key_of(collection_id, item_id),
                bytes,
            ),
            final(self).owners == old(self).owners,
            final(self).pending == old(self).pending,
            final(self).metadata_uri == old(self).metadata_uri,
    {
        let k = pack_key(collection_id, item_id);
        self.metadata.insert(k, bytes);
    }

    /// Removes the asset's metadata record, if present.
    pub fn clear_metadata(&mut self, collection_id: u64, item_id: u64)
        ensures
            final(self).metadata@ == old(self).metadata@.remove(key_of(collection_id, item_id)),
            final(self).owners == old(self).owners,
            final(self).pending == old(self).pending,
            final(self).metadata_uri == old(self).metadata_uri,
    {
        let k = pack_key(collection_id, item_id);
        self.metadata.remove(&k);
    }

    /// Point lookup of an asset's metadata URI, copied out.
    pub fn get_metadata_uri(&self, collection_id: u64, item_id: u64) -> (r: Option<Vec<u8>>)
        ensures
            match r {
                Some(v) => self.uri_of(collection_id, item_id) == Some(v@),
                None => self.uri_of(collection_id, item_id) is None,
            },
    {
        let k = pack_key(collection_id, item_id);
        match self.metadata_uri.get(&k) {
            Some(v) => Some(clone_bytes(v)),
            None => None,
        }
    }

    /// Records the asset's metadata URI bytes, replacing any previous value.
    pub fn set_metadata_uri(&mut self, collection_id: u64, item_id: u64, bytes: Vec<u8>)
        ensures
            final(self).metadata_uri@ == old(self).metadata_uri@.insert(
                key_of(collection_id, item_id),
                bytes,
            ),
            final(self).owners == old(self).owners,
            final(self).pending == old(self).pending,
            final(self).metadata == old(self).metadata,
    {
        let k = pack_key(collection_id, item_id);
        self.metadata_uri.insert(k, bytes);
    }

    /// Removes the asset's metadata-URI record, if present.
    pub fn clear_metadata_uri(&mut self, collection_id: u64, item_id: u64)
        ensures
            final(self).metadata_uri@ == old(self).metadata_uri@.remove(
                key_of(collection_id, item_id),
            ),
            final(self).owners == old(self).owners,
            final(self).pending == old(self).pending,
            final(self).metadata == old(self).metadata,
    {
        let k = pack_key(collection_id, item_id);
        self.metadata_uri.remove(&k);
    }
}

/// Copies a byte string.
fn clone_bytes(v: &Vec<u8>) -> (r: Vec<u8>)
    ensures
        r@ == v@,
{
    let mut r: Vec<u8> = Vec::new();
    let mut k: usize = 0;
    while k < v.len()
        invariant
            k <= v@.len(),
            r@ == v@.take(k as int),
        decreases v@.len() - k,
    {
        r.push(v[k]);
        proof {
            assert(v@.take(k + 1) =~= v@.take(k as int).push(v@[k as int]));
        }
        k = k + 1;
    }
    proof {
        assert(v@.take(v@.len() as int) =~= v@);
    }
    r
}

} // verus!
