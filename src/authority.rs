//! The position owner: an address derived from a fixed label and a bump,
//! which owns the position and signs for it.
use vstd::prelude::*;
use vstd::string::StringSliceAdditionalSpecFns;

verus! {

/// The label is fourteen bytes long.
pub proof fn lemma_owner_label_len()
    ensures
        owner_label().len() == 14,
{
    reveal_strlit("position_owner");
    broadcast use vstd::string::is_ascii_spec_bytes;

    assert("position_owner".is_ascii());
}

/// The owner's seeds are within the derivation limits, whatever the bump.
pub proof fn lemma_owner_seeds_within_limits(bump: u8)
    ensures
        seeds_within_limits(owner_seeds(bump)),
{
    lemma_owner_label_len();
    assert(owner_seeds(bump)[0] == owner_label());
    assert(owner_seeds(bump)[1].len() == 1);
}

/// The most seeds an address derivation takes.
pub const MAX_SEEDS: usize = 16;

/// The longest seed an address derivation takes, in bytes.
pub const MAX_SEED_LEN: usize = 32;

/// The label from which the position owner's address is derived.
pub open spec fn owner_label() -> Seq<u8> {
    "position_owner".spec_bytes()
}

/// The seeds that derive the position owner from `bump`: the label, then the
/// bump as a seed of one byte.
pub open spec fn owner_seeds(bump: u8) -> Seq<Seq<u8>> {
    seq![owner_label(), seq![bump]]
}

/// Seeds that an address derivation accepts: at most `MAX_SEEDS` of them,
/// none longer than `MAX_SEED_LEN` bytes.
pub open spec fn seeds_within_limits(seeds: Seq<Seq<u8>>) -> bool {
    &&& seeds.len() <= MAX_SEEDS
    &&& forall|i: int| 0 <= i < seeds.len() ==> #[trigger] seeds[i].len() <= MAX_SEED_LEN
}

/// The program address that `seeds` derive under `program_id`, or `None`
/// where the derived bytes fall on the curve and so name no program address.
pub uninterp spec fn program_address(seeds: Seq<Seq<u8>>, program_id: Seq<u8>) -> Option<Seq<u8>>;

/// `solana_program::pubkey::PubkeyError`, the error of an address
/// derivation, declared so that `create_program_address` can return it.
#[verifier::external_type_specification]
#[verifier::external_body]
pub struct ExPubkeyError(solana_program::pubkey::PubkeyError);

/// Relies on solana_program's `Pubkey::create_program_address`: it refuses
/// seeds beyond the limits, and otherwise hashes the seeds with the program
/// id and returns the hash unless it lies on the curve.
#[verifier::external_body]
fn create_program_address(seeds: &Vec<Vec<u8>>, program_id: &[u8; 32]) -> (r: Result<
    [u8; 32],
    solana_program::pubkey::PubkeyError,
>)
    ensures
        !seeds_within_limits(seeds@.map_values(|s: Vec<u8>| s@)) ==> r is Err,
        seeds_within_limits(seeds@.map_values(|s: Vec<u8>| s@)) ==> match program_address(
            seeds@.map_values(|s: Vec<u8>| s@),
            program_id@,
        ) {
            Some(a) => r is Ok && r->Ok_0@ == a,
            None => r is Err,
        },
{
    let refs: Vec<&[u8]> = seeds.iter().map(|s| s.as_slice()).collect();
    let id = solana_program::pubkey::Pubkey::new_from_array(*program_id);
    solana_program::pubkey::Pubkey::create_program_address(&refs, &id).map(|k| k.to_bytes())
}

/// Why no position owner could be derived.
#[derive(Clone, Copy, Debug, PartialEq, Eq, Structural)]
pub enum AuthorityError {
    /// The label and bump hash to a point on the curve: no program address.
    NotProgramAddress,
}

/// The position owner of one invocation: its address and the bump that,
/// with the label, derives it.
#[derive(Clone, Copy, Debug, PartialEq, Eq)]
pub struct Authority {
    pub address: [u8; 32],
    pub bump: u8,
}

impl Authority {
    /// The seeds that sign for this authority.
    pub open spec fn seeds(self) -> Seq<Seq<u8>> {
        owner_seeds(self.bump)
    }

    /// The signer seeds to present where a call needs the owner's signature.
    pub fn signer_seeds(&self) -> (r: Vec<Vec<u8>>)
        ensures
            r@.map_values(|s: Vec<u8>| s@) =~= self.seeds(),
    {
        seeds_for(self.bump)
    }
}

/// The label's bytes.
pub fn owner_label_bytes() -> (r: Vec<u8>)
    ensures
        r@ == owner_label(),
        r@.len() == 14,
{
    proof {
        lemma_owner_label_len();
    }
    "position_owner".as_bytes_vec()
}

/// The seeds that derive the position owner from `bump`.
fn seeds_for(bump: u8) -> (r: Vec<Vec<u8>>)
    ensures
        r@.map_values(|s: Vec<u8>| s@) =~= owner_seeds(bump),
{
    let mut bump_seed: Vec<u8> = Vec::new();
    bump_seed.push(bump);
    let mut r: Vec<Vec<u8>> = Vec::new();
    r.push(owner_label_bytes());
    r.push(bump_seed);
    assert(r@.map_values(|s: Vec<u8>| s@)[0] == owner_label());
    assert(r@.map_values(|s: Vec<u8>| s@)[1] =~= seq![bump]);
    r
}

/// Derives the position owner from its bump under `program_id`.
///
/// Succeeds exactly when the label and bump name a program address, which is
/// then the authority's address.
pub fn derive_authority(program_id: &[u8; 32], bump: u8) -> (r: Result<Authority, AuthorityError>)
    ensures
        match program_address(owner_seeds(bump), program_id@) {
            Some(a) => r is Ok && r->Ok_0.address@ == a && r->Ok_0.bump == bump,
            None => r == Err::<Authority, AuthorityError>(AuthorityError::NotProgramAddress),
        },
{
    let seeds = seeds_for(bump);
    proof {
        lemma_owner_seeds_within_limits(bump);
    }
    match create_program_address(&seeds, program_id) {
        Ok(address) => Ok(Authority { address, bump }),
        Err(_) => Err(AuthorityError::NotProgramAddress),
    }
}

} // verus!
