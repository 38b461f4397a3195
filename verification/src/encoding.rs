use vstd::arithmetic::div_mod::lemma_div_basics;
use vstd::arithmetic::div_mod::lemma_div_denominator;
use vstd::prelude::*;

verus! {

/// `256^k`: the weight of the byte at position `k` of a little-endian
/// encoding.
pub open spec fn pow256(k: nat) -> nat
    decreases k,
{
    if k == 0 {
        1
    } else {
        256 * pow256((k - 1) as nat)
    }
}

pub proof fn lemma_pow256_pos(k: nat)
    ensures
        pow256(k) >= 1,
    decreases k,
{
    if k > 0 {
        lemma_pow256_pos((k - 1) as nat);
    }
}

pub proof fn lemma_pow256_increases(k1: nat, k2: nat)
    requires
        k1 <= k2,
    ensures
        pow256(k1) <= pow256(k2),
    decreases k2,
{
    if k1 < k2 {
        lemma_pow256_increases(k1, (k2 - 1) as nat);
        lemma_pow256_pos((k2 - 1) as nat);
    }
}

/// Byte `k` of the fixed-width little-endian encoding of `x`: the identifier
/// encoding the host codec uses for a 64-bit value.
pub open spec fn u64_le_byte(x: u64, k: nat) -> u8 {
    (((x as nat) / pow256(k)) % 256) as u8
}

/// The eight-byte little-endian wire encoding of a 64-bit identifier.
pub open spec fn id_bytes(x: u64) -> Seq<u8> {
    Seq::new(8, |k: int| u64_le_byte(x, k as nat))
}

/// Encodes an identifier as its eight little-endian bytes.
pub fn encode_id(x: u64) -> (v: Vec<u8>)
    ensures
        v@ == id_bytes(x),
{
    let mut v: Vec<u8> = Vec::new();
    let mut rest: u64 = x;
    let mut k: usize = 0;
    proof {
        lemma_div_basics(x as int);
    }
    while k < 8
        invariant
            k <= 8,
            v@.len() == k,
            rest as nat == (x as nat) / pow256(k as nat),
            forall|j: int| 0 <= j < k ==> v@[j] == u64_le_byte(x, j as nat),
        decreases 8 - k,
    {
        v.push((rest % 256) as u8);
        proof {
            lemma_pow256_pos(k as nat);
            lemma_div_denominator(x as int, pow256(k as nat) as int, 256);
        }
        rest = rest / 256;
        k = k + 1;
    }
    proof {
        assert(v@ =~= id_bytes(x));
    }
    v
}

/// Folds a byte string into a big-endian unsigned integer: each byte shifts
/// the accumulator one byte left and fills the low bits.
pub open spec fn be_fold(s: Seq<u8>) -> nat
    decreases s.len(),
{
    if s.len() == 0 {
        0
    } else {
        (256 * be_fold(s.drop_last()) + s.last()) as nat
    }
}

pub proof fn lemma_be_fold_bound(s: Seq<u8>)
    ensures
        be_fold(s) < pow256(s.len()),
    decreases s.len(),
{
    if s.len() > 0 {
        lemma_be_fold_bound(s.drop_last());
    }
}

/// The first `n` bytes of `s`, or all of `s` when it is shorter than `n`.
pub open spec fn take_at_most(s: Seq<u8>, n: int) -> Seq<u8> {
    if s.len() <= n {
        s
    } else {
        s.take(n)
    }
}

/// Folds up to the first `limit` bytes of `bytes` into a big-endian integer.
pub fn fold_be(bytes: &Vec<u8>, limit: usize) -> (r: u128)
    requires
        limit <= 16,
    ensures
        r as nat == be_fold(take_at_most(bytes@, limit as int)),
{
    let n: usize = if bytes.len() < limit {
        bytes.len()
    } else {
        limit
    };
    let mut acc: u128 = 0;
    let mut k: usize = 0;
    while k < n
        invariant
            n <= 16,
            n <= bytes@.len(),
            n == limit || n == bytes@.len(),
            k <= n,
            acc as nat == be_fold(bytes@.take(k as int)),
            (acc as nat) < pow256(k as nat),
        decreases n - k,
    {
        proof {
            lemma_pow256_increases(k as nat, 15);
            assert(pow256(16) == 0x1_0000_0000_0000_0000_0000_0000_0000_0000) by {
                reveal_with_fuel(pow256, 17);
            }
            assert(bytes@.take(k + 1).drop_last() =~= bytes@.take(k as int));
        }
        acc = acc * 256 + (bytes[k] as u128);
        k = k + 1;
    }
    proof {
        if n == bytes@.len() {
            assert(bytes@.take(n as int) =~= bytes@);
        }
    }
    acc
}

/// The collection-scoped asset index: up to the first eight bytes of the
/// encoded collection identifier, folded big-endian.
pub open spec fn collection_asset_index(collection_id: u64) -> u128 {
    be_fold(take_at_most(id_bytes(collection_id), 8)) as u128
}

/// The non-fungible instance identifier: up to the first sixteen bytes of the
/// encoded item identifier, folded big-endian.
pub open spec fn item_asset_instance(item_id: u64) -> u128 {
    be_fold(take_at_most(id_bytes(item_id), 16)) as u128
}

/// Computes the collection-scoped asset index of a collection identifier.
pub fn collection_index(collection_id: u64) -> (r: u128)
    ensures
        r == collection_asset_index(collection_id),
{
    let bytes = encode_id(collection_id);
    proof {
        lemma_be_fold_bound(take_at_most(bytes@, 8));
        lemma_pow256_increases(take_at_most(bytes@, 8).len(), 16);
        assert(pow256(16) == 0x1_0000_0000_0000_0000_0000_0000_0000_0000) by {
            reveal_with_fuel(pow256, 17);
        }
    }
    fold_be(&bytes, 8)
}

/// Computes the non-fungible instance identifier of an item identifier.
pub fn item_instance(item_id: u64) -> (r: u128)
    ensures
        r == item_asset_instance(item_id),
{
    let bytes = encode_id(item_id);
    proof {
        lemma_be_fold_bound(take_at_most(bytes@, 16));
        lemma_pow256_increases(take_at_most(bytes@, 16).len(), 16);
        assert(pow256(16) == 0x1_0000_0000_0000_0000_0000_0000_0000_0000) by {
            reveal_with_fuel(pow256, 17);
        }
    }
    fold_be(&bytes, 16)
}

/// The 32-byte account representation of a local account identifier on the
/// destination ledger: its little-endian bytes, zero-extended.
pub open spec fn account_bytes_of(account: u64) -> Seq<u8> {
    Seq::new(
        32,
        |k: int|
            if k < 8 {
                u64_le_byte(account, k as nat)
            } else {
                0u8
            },
    )
}

/// Widens an account identifier to its 32-byte representation.
pub fn account_bytes(account: u64) -> (v: Vec<u8>)
    ensures
        v@ == account_bytes_of(account),
{
    let mut v = encode_id(account);
    let mut k: usize = 8;
    while k < 32
        invariant
            8 <= k <= 32,
            v@.len() == k,
            forall|j: int| 0 <= j < 8 ==> v@[j] == u64_le_byte(account, j as nat),
            forall|j: int| 8 <= j < k ==> v@[j] == 0u8,
        decreases 32 - k,
    {
        v.push(0u8);
        k = k + 1;
    }
    proof {
        assert(v@ =~= account_bytes_of(account));
    }
    v
}

} // verus!
