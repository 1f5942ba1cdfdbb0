use vstd::prelude::*;
use crate::types::Data;

verus! {

/// The Keccak-256 digest of a byte string.
pub uninterp spec fn keccak256_of(input: Seq<u8>) -> Seq<u8>;

/// Relies on `ink::env::hash_bytes::<Keccak256>`: it writes the 32-byte
/// Keccak-256 digest of the input, which depends on the input alone.
#[verifier::external_body]
fn keccak256(input: &Vec<u8>) -> (r: [u8; 32])
    ensures
        r@ == keccak256_of(input@),
{
    let mut output = [0u8; 32];
    ink::env::hash_bytes::<ink::env::hash::Keccak256>(input.as_slice(), &mut output);
    output
}

/// The big-endian bytes of a 64-bit integer.
pub open spec fn be_bytes(x: u64) -> Seq<u8> {
    seq![
        (x >> 56u64) as u8,
        (x >> 48u64) as u8,
        (x >> 40u64) as u8,
        (x >> 32u64) as u8,
        (x >> 24u64) as u8,
        (x >> 16u64) as u8,
        (x >> 8u64) as u8,
        x as u8,
    ]
}

/// The bytes that are hashed for a draw: the timestamp, then the counter,
/// both big-endian.
pub open spec fn entropy_of(timestamp: u64, counter: u64) -> Seq<u8> {
    be_bytes(timestamp) + be_bytes(counter)
}

/// The index that a digest selects among `total_assets` assets: its first
/// byte reduced modulo the count.
pub open spec fn index_of_digest(digest: Seq<u8>, total_assets: u32) -> int {
    (digest[0] as int) % (total_assets as int)
}

/// The index drawn for a block timestamp and a counter value.
pub open spec fn selected_index(timestamp: u64, counter: u64, total_assets: u32) -> int {
    index_of_digest(keccak256_of(entropy_of(timestamp, counter)), total_assets)
}

/// The counter value `n` draws after `initial`, wrapping at the integer width.
pub open spec fn counter_after(initial: u64, n: nat) -> u64
    decreases n,
{
    if n == 0 {
        initial
    } else {
        let prev = counter_after(initial, (n - 1) as nat);
        if prev == u64::MAX { 0 } else { (prev + 1) as u64 }
    }
}

/// The 16 bytes hashed for a draw.
pub fn entropy_input(timestamp: u64, counter: u64) -> (r: Vec<u8>)
    ensures
        r@ == entropy_of(timestamp, counter),
{
    let r = vec![
        (timestamp >> 56u64) as u8,
        (timestamp >> 48u64) as u8,
        (timestamp >> 40u64) as u8,
        (timestamp >> 32u64) as u8,
        (timestamp >> 24u64) as u8,
        (timestamp >> 16u64) as u8,
        (timestamp >> 8u64) as u8,
        timestamp as u8,
        (counter >> 56u64) as u8,
        (counter >> 48u64) as u8,
        (counter >> 40u64) as u8,
        (counter >> 32u64) as u8,
        (counter >> 24u64) as u8,
        (counter >> 16u64) as u8,
        (counter >> 8u64) as u8,
        counter as u8,
    ];
    assert(r@ =~= entropy_of(timestamp, counter));
    r
}

/// The index that a digest selects among `total_assets` assets.
pub fn index_from_digest(digest: &[u8; 32], total_assets: u32) -> (r: u8)
    requires
        0 < total_assets < 256,
    ensures
        r as int == index_of_digest(digest@, total_assets),
        (r as u32) < total_assets,
{
    let first = digest[0];
    first % (total_assets as u8)
}

/// Draws an index in `[0, total_assets)` from a block timestamp and a counter
/// value.
pub fn select_index(timestamp: u64, counter: u64, total_assets: u32) -> (r: u8)
    requires
        0 < total_assets < 256,
    ensures
        r as int == selected_index(timestamp, counter, total_assets),
        (r as u32) < total_assets,
{
    let input = entropy_input(timestamp, counter);
    let digest = keccak256(&input);
    index_from_digest(&digest, total_assets)
}

impl Data {
    /// Draws an asset index with the current counter and advances the counter
    /// by one, wrapping at the integer width.
    pub fn draw_asset_index(&mut self, timestamp: u64, total_assets: u32) -> (r: u8)
        requires
            0 < total_assets < 256,
        ensures
            r as int == selected_index(timestamp, old(self).salt, total_assets),
            (r as u32) < total_assets,
            final(self).salt == counter_after(old(self).salt, 1),
            final(self).rmrk_contract == old(self).rmrk_contract,
            final(self).catalog_contract == old(self).catalog_contract,
    {
        let r = select_index(timestamp, self.salt, total_assets);
        proof {
            reveal_with_fuel(counter_after, 2);
        }
        self.salt = self.salt.wrapping_add(1);
        r
    }
}

/// A drawn index lies in `[0, total_assets)`, and the draw depends on the
/// timestamp, the counter and the asset count alone: the same three values
/// always give the same index.
pub proof fn lemma_selection_in_range_and_pure(
    timestamp: u64,
    counter: u64,
    total_assets: u32,
    timestamp2: u64,
    counter2: u64,
    total_assets2: u32,
)
    requires
        0 < total_assets < 256,
    ensures
        0 <= selected_index(timestamp, counter, total_assets) < total_assets,
        (timestamp == timestamp2 && counter == counter2 && total_assets == total_assets2)
            ==> selected_index(timestamp, counter, total_assets)
                == selected_index(timestamp2, counter2, total_assets2),
{
}

/// After `n` draws the counter has moved on by exactly `n`, modulo the
/// integer width.
pub proof fn lemma_counter_after_draws(initial: u64, n: nat)
    ensures
        counter_after(initial, n) as int == (initial as int + n) % 0x1_0000_0000_0000_0000,
    decreases n,
{
    if n > 0 {
        lemma_counter_after_draws(initial, (n - 1) as nat);
    }
}

} // verus!
