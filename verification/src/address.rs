//! Addresses, and the derivation of the address that belongs to a logical
//! key. No caller chooses where a record lives: a review lives where its
//! author and title lead, its comment counter where the review's address
//! leads, and a comment where the review's address and the comment's sequence
//! number lead.

use solana_program::pubkey::Pubkey;
use vstd::prelude::*;
use vstd::slice::slice_to_vec;
use vstd::std_specs::cmp::PartialEqSpecImpl;
use vstd::utf8::encode_utf8;

verus! {

/// A 32-byte identity: an account's address, its owner, or the program itself.
#[derive(Clone, Copy, Debug, Eq)]
pub struct Address {
    pub bytes: [u8; 32],
}

impl View for Address {
    type V = Seq<u8>;

    open spec fn view(&self) -> Seq<u8> {
        self.bytes@
    }
}

impl PartialEq for Address {
    fn eq(&self, other: &Address) -> (r: bool) {
        let mut i: usize = 0;
        while i < 32
            invariant
                i <= 32,
                forall|j: int| 0 <= j < i ==> self.bytes@[j] == other.bytes@[j],
            decreases 32 - i,
        {
            if self.bytes[i] != other.bytes[i] {
                return false;
            }
            i += 1;
        }
        assert(self.bytes@ =~= other.bytes@);
        true
    }
}

impl PartialEqSpecImpl for Address {
    open spec fn obeys_eq_spec() -> bool {
        true
    }

    open spec fn eq_spec(&self, other: &Address) -> bool {
        self@ == other@
    }
}

impl Address {
    /// The address as a freshly allocated byte vector, as a seed part holds it.
    pub fn to_vec(&self) -> (out: Vec<u8>)
        ensures
            out@ == self@,
    {
        let mut out: Vec<u8> = Vec::new();
        let mut i: usize = 0;
        while i < 32
            invariant
                i <= 32,
                out@ == self.bytes@.subrange(0, i as int),
            decreases 32 - i,
        {
            out.push(self.bytes[i]);
            i += 1;
        }
        out
    }
}

/// The program address that belongs to `seeds` under `program_id`, with the
/// bump seed that was found for it, or `None` where the seeds admit none.
/// It stands for the result of `Pubkey::try_find_program_address`.
pub uninterp spec fn program_address(seeds: Seq<Seq<u8>>, program_id: Seq<u8>) -> Option<
    (Seq<u8>, u8),
>;

/// Largest number of seed parts from which an address can be derived.
pub const MAX_SEED_PARTS: usize = 15;

/// Largest length of one seed part.
pub const MAX_SEED_PART_LEN: usize = 32;

/// The mathematical value of a derivation's result.
pub open spec fn derivation_view(r: Option<(Address, u8)>) -> Option<(Seq<u8>, u8)> {
    match r {
        Some((address, bump)) => Some((address@, bump)),
        None => None,
    }
}

/// Calls `solana_program::pubkey::Pubkey::try_find_program_address`.
///
/// Trusted: the result is the one that the name `program_address` stands for,
/// a function of the seeds and the program identity alone. The outside
/// function answers `None` when there are more than 15 seed parts or when one
/// of them is longer than 32 bytes, so an address is only ever found for
/// seeds within those limits.
#[verifier::external_body]
fn try_find_program_address(seeds: &Vec<Vec<u8>>, program_id: &Address) -> (r: Option<
    (Address, u8),
>)
    ensures
        derivation_view(r) == program_address(seeds.deep_view(), program_id@),
        r is Some ==> seeds.len() <= MAX_SEED_PARTS && forall|i: int|
            0 <= i < seeds.len() ==> (#[trigger] seeds[i]).len() <= MAX_SEED_PART_LEN,
{
    let parts: Vec<&[u8]> = seeds.iter().map(|part| part.as_slice()).collect();
    let program = Pubkey::new_from_array(program_id.bytes);
    match Pubkey::try_find_program_address(&parts, &program) {
        Some((key, bump)) => Some((Address { bytes: key.to_bytes() }, bump)),
        None => None,
    }
}

/// Derives the storage address that belongs to `seed_parts` under the
/// program `namespace`, together with the bump seed that has to be cited
/// when storage is created at that address.
///
/// The same inputs always give the same result. `None` means that no address
/// exists for these seeds; it is the answer for every key with more than 15
/// parts or with a part longer than 32 bytes.
pub fn derive_address(seed_parts: &Vec<Vec<u8>>, namespace: &Address) -> (r: Option<(Address, u8)>)
    ensures
        derivation_view(r) == program_address(seed_parts.deep_view(), namespace@),
        r is Some ==> seed_parts.len() <= MAX_SEED_PARTS && forall|i: int|
            0 <= i < seed_parts.len() ==> (#[trigger] seed_parts[i]).len() <= MAX_SEED_PART_LEN,
{
    try_find_program_address(seed_parts, namespace)
}

/// The seed part that marks a comment counter: the ASCII bytes of `comment`.
pub open spec fn counter_tag() -> Seq<u8> {
    seq![99u8, 111u8, 109u8, 109u8, 101u8, 110u8, 116u8]
}

/// The eight bytes of `x`, most significant first.
pub open spec fn be_bytes(x: u64) -> Seq<u8> {
    seq![
        (x / 0x100_0000_0000_0000) as u8,
        (x / 0x1_0000_0000_0000 % 256) as u8,
        (x / 0x100_0000_0000 % 256) as u8,
        (x / 0x1_0000_0000 % 256) as u8,
        (x / 0x100_0000 % 256) as u8,
        (x / 0x1_0000 % 256) as u8,
        (x / 0x100 % 256) as u8,
        (x % 256) as u8,
    ]
}

/// The logical key of a review: its author and its title.
pub open spec fn review_seeds(author: Seq<u8>, title: Seq<char>) -> Seq<Seq<u8>> {
    seq![author, encode_utf8(title)]
}

/// The logical key of a review's comment counter.
pub open spec fn counter_seeds(review: Seq<u8>) -> Seq<Seq<u8>> {
    seq![review, counter_tag()]
}

/// The logical key of the comment with sequence number `count` under a review.
pub open spec fn comment_seeds(review: Seq<u8>, count: u64) -> Seq<Seq<u8>> {
    seq![review, be_bytes(count)]
}

/// The seeds that authorise creating storage at a derived address: the
/// logical key followed by the bump seed.
pub open spec fn signer_seeds(seeds: Seq<Seq<u8>>, bump: u8) -> Seq<Seq<u8>> {
    seeds.push(seq![bump])
}

/// Encodes `x` in eight bytes, most significant first.
pub fn u64_to_be_bytes(x: u64) -> (out: Vec<u8>)
    ensures
        out@ == be_bytes(x),
{
    let mut out: Vec<u8> = Vec::new();
    out.push((x / 0x100_0000_0000_0000) as u8);
    out.push((x / 0x1_0000_0000_0000 % 256) as u8);
    out.push((x / 0x100_0000_0000 % 256) as u8);
    out.push((x / 0x1_0000_0000 % 256) as u8);
    out.push((x / 0x100_0000 % 256) as u8);
    out.push((x / 0x1_0000 % 256) as u8);
    out.push((x / 0x100 % 256) as u8);
    out.push((x % 256) as u8);
    assert(out@ =~= be_bytes(x));
    out
}

/// Builds the seed parts of a two-part key.
fn two_parts(first: Vec<u8>, second: Vec<u8>) -> (out: Vec<Vec<u8>>)
    ensures
        out.deep_view() == seq![first@, second@],
        out.len() == 2,
        out[1]@ == second@,
{
    let mut out: Vec<Vec<u8>> = Vec::new();
    out.push(first);
    out.push(second);
    assert(out.deep_view() =~~= seq![first@, second@]);
    out
}

/// The seed parts of a review's key.
pub fn review_seed_parts(author: &Address, title: &str) -> (out: Vec<Vec<u8>>)
    ensures
        out.deep_view() == review_seeds(author@, title@),
        out.len() == 2,
        out[1]@ == encode_utf8(title@),
{
    two_parts(author.to_vec(), slice_to_vec(title.as_bytes()))
}

/// The seed parts of the key of a review's comment counter.
pub fn counter_seed_parts(review: &Address) -> (out: Vec<Vec<u8>>)
    ensures
        out.deep_view() == counter_seeds(review@),
{
    let mut tag: Vec<u8> = Vec::new();
    tag.push(99u8);
    tag.push(111u8);
    tag.push(109u8);
    tag.push(109u8);
    tag.push(101u8);
    tag.push(110u8);
    tag.push(116u8);
    assert(tag@ =~= counter_tag());
    two_parts(review.to_vec(), tag)
}

/// The seed parts of the key of the comment numbered `count` under a review.
pub fn comment_seed_parts(review: &Address, count: u64) -> (out: Vec<Vec<u8>>)
    ensures
        out.deep_view() == comment_seeds(review@, count),
{
    two_parts(review.to_vec(), u64_to_be_bytes(count))
}

/// Appends the bump seed to a key's seed parts, which gives the seeds that
/// authorise creating storage at the derived address.
pub fn with_bump(seeds: Vec<Vec<u8>>, bump: u8) -> (out: Vec<Vec<u8>>)
    ensures
        out.deep_view() == signer_seeds(seeds.deep_view(), bump),
{
    let mut out = seeds;
    let mut last: Vec<u8> = Vec::new();
    last.push(bump);
    out.push(last);
    assert(out.deep_view() =~~= signer_seeds(seeds.deep_view(), bump));
    out
}

} // verus!
