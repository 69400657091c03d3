//! Account addresses, and the address under which a review is kept.

use vstd::prelude::*;
use vstd::utf8::*;

verus! {

/// The address of an account or of a program: 32 bytes.
#[derive(Clone, Copy, Debug)]
pub struct Pubkey {
    pub bytes: [u8; 32],
}

impl View for Pubkey {
    type V = Seq<u8>;

    open spec fn view(&self) -> Seq<u8> {
        self.bytes@
    }
}

impl PartialEq for Pubkey {
    fn eq(&self, other: &Pubkey) -> (r: bool) {
        let mut i: usize = 0;
        while i < 32
            invariant
                i <= 32,
                forall|j: int| 0 <= j < i ==> self.bytes@[j] == other.bytes@[j],
            decreases 32 - i,
        {
            if self.bytes[i] != other.bytes[i] {
                return false;
            }
            i += 1;
        }
        assert(self.bytes@ =~= other.bytes@);
        true
    }
}

impl vstd::std_specs::cmp::PartialEqSpecImpl for Pubkey {
    open spec fn obeys_eq_spec() -> bool {
        true
    }

    open spec fn eq_spec(&self, other: &Pubkey) -> bool {
        self@ == other@
    }
}

impl Eq for Pubkey {

}

/// What the host's search for a program address gives for these seeds and
/// this program: an address that is no point of the signing curve, with the
/// bump seed that led to it, or nothing where the search fails.
pub uninterp spec fn program_address(seeds: Seq<Seq<u8>>, program_id: Seq<u8>) -> Option<
    (Seq<u8>, u8),
>;

/// An address and bump seed as plain values.
pub open spec fn address_view(found: Option<(Pubkey, u8)>) -> Option<(Seq<u8>, u8)> {
    match found {
        Some((address, bump_seed)) => Some((address@, bump_seed)),
        None => None,
    }
}

/// The address of the account that holds `owner`'s review of `title` under
/// `program_id`, with its bump seed: the program address for the two seeds
/// `owner` and the UTF-8 bytes of `title`.
pub open spec fn review_address(owner: Seq<u8>, title: Seq<char>, program_id: Seq<u8>) -> Option<
    (Seq<u8>, u8),
> {
    program_address(seq![owner, encode_utf8(title)], program_id)
}

/// The seeds of a derivation as plain values.
pub open spec fn seed_bytes(seeds: Seq<&[u8]>) -> Seq<Seq<u8>> {
    seeds.map_values(|seed: &[u8]| seed@)
}

/// Calls `Pubkey::try_find_program_address` of `solana_program`, which
/// searches the bump seeds from 255 downwards for one that, hashed with
/// `seeds` and `program_id`, gives an address off the signing curve. Nothing
/// is proved of the search: its result is only given the name
/// `program_address`, as a function of the seeds and the program.
#[verifier::external_body]
fn try_find_program_address(seeds: &[&[u8]], program_id: &Pubkey) -> (found: Option<(Pubkey, u8)>)
    ensures
        address_view(found) == program_address(seed_bytes(seeds@), program_id@),
{
    let program = solana_program::pubkey::Pubkey::new_from_array(program_id.bytes);
    match solana_program::pubkey::Pubkey::try_find_program_address(seeds, &program) {
        Some((address, bump_seed)) => Some((Pubkey { bytes: address.to_bytes() }, bump_seed)),
        None => None,
    }
}

/// Derives the address of the account for `owner`'s review of `title`, with
/// its bump seed, from the two seeds `owner` and the bytes of `title`. The
/// same owner, title and program always give the same result. There is no
/// address where the search fails, as it does for a title that is too long
/// to be a seed.
pub fn find_review_address(program_id: &Pubkey, owner: &Pubkey, title: &str) -> (found: Option<
    (Pubkey, u8),
>)
    ensures
        address_view(found) == review_address(owner@, title@, program_id@),
{
    let seeds: [&[u8]; 2] = [owner.bytes.as_slice(), title.as_bytes()];
    let found = try_find_program_address(seeds.as_slice(), program_id);
    assert(seed_bytes(seeds@) =~= seq![owner@, encode_utf8(title@)]);
    found
}

/// Whether the derivation `found` led to the address `target`.
pub open spec fn derives(found: Option<(Seq<u8>, u8)>, target: Seq<u8>) -> bool {
    found matches Some((address, _)) && address == target
}

/// Whether `found` holds the address `target`.
pub fn is_address(found: &Option<(Pubkey, u8)>, target: &Pubkey) -> (r: bool)
    ensures
        r == derives(address_view(*found), target@),
{
    match found {
        Some((address, _)) => *address == *target,
        None => false,
    }
}

/// Two derivations for the same owner, title and program agree in address
/// and bump seed.
pub proof fn lemma_derivation_is_deterministic(
    owner: Seq<u8>,
    title: Seq<char>,
    program_id: Seq<u8>,
    first: Option<(Pubkey, u8)>,
    second: Option<(Pubkey, u8)>,
)
    ensures
        address_view(first) == review_address(owner, title, program_id) && address_view(second)
            == review_address(owner, title, program_id) ==> first == second,
{
    if address_view(first) == review_address(owner, title, program_id) && address_view(second)
        == review_address(owner, title, program_id) {
        if let Some((a, _)) = first {
            if let Some((b, _)) = second {
                assert(a.bytes@ == b.bytes@);
                assert(a.bytes == b.bytes);
            }
        }
    }
}

} // verus!
