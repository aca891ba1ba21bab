use solana_program::pubkey::Pubkey;
use vstd::prelude::*;
use vstd::utf8::*;

verus! {

/// What the host's address search returns for these seeds under this program:
/// the first address off the curve, counting the bump byte down from 255,
/// with that bump, or `None` where no bump gives one.
pub uninterp spec fn program_address(seeds: Seq<Seq<u8>>, program_id: Seq<u8>) -> Option<(Seq<u8>, u8)>;

/// Relies on `Pubkey::try_find_program_address`: its result is a function of
/// the seeds and the program id alone.
#[verifier::external_body]
fn try_find_program_address(identity: &[u8; 32], title: &[u8], program_id: &[u8; 32]) -> (r: Option<([u8; 32], u8)>)
    ensures
        match r {
            Some((a, bump)) => program_address(seq![identity@, title@], program_id@) == Some((a@, bump)),
            None => program_address(seq![identity@, title@], program_id@) is None,
        },
{
    let program = Pubkey::new_from_array(*program_id);
    Pubkey::try_find_program_address(&[identity.as_ref(), title], &program).map(|(a, bump)| (a.to_bytes(), bump))
}

/// The canonical address and bump of the review by `identity` titled `title`.
pub open spec fn derived_address(identity: Seq<u8>, title: Seq<char>, program_id: Seq<u8>) -> Option<(Seq<u8>, u8)> {
    program_address(seq![identity, encode_utf8(title)], program_id)
}

/// Whether `key` is the canonical address of the review by `identity` titled `title`.
pub open spec fn derives_to(identity: Seq<u8>, title: Seq<char>, program_id: Seq<u8>, key: Seq<u8>) -> bool {
    match derived_address(identity, title, program_id) {
        Some((a, _)) => a == key,
        None => false,
    }
}

/// Derives the canonical address and bump of the review by `identity` titled `title`.
pub fn derive_address(identity: &[u8; 32], title: &str, program_id: &[u8; 32]) -> (r: Option<([u8; 32], u8)>)
    ensures
        match r {
            Some((a, bump)) => derived_address(identity@, title@, program_id@) == Some((a@, bump)),
            None => derived_address(identity@, title@, program_id@) is None,
        },
{
    try_find_program_address(identity, title.as_bytes(), program_id)
}

/// Deriving twice from the same author, title and program gives the same
/// address and bump.
pub proof fn lemma_derivation_deterministic(
    identity1: Seq<u8>,
    title1: Seq<char>,
    identity2: Seq<u8>,
    title2: Seq<char>,
    program_id: Seq<u8>,
)
    requires
        identity1 == identity2,
        title1 == title2,
    ensures
        derived_address(identity1, title1, program_id) == derived_address(identity2, title2, program_id),
{
}

} // verus!
