use vstd::prelude::*;
use crate::key::AccountKey;

verus! {

/// The program-derived address and bump seed that the seeds `prefix` and
/// `seed` give under the program `program`, or `None` where no bump seed
/// yields an address off the curve (or the seeds are too long).
pub uninterp spec fn program_address_of(prefix: Seq<u8>, seed: Seq<u8>, program: Seq<u8>) -> Option<
    (Seq<u8>, u8),
>;

/// Relies on `Pubkey::try_find_program_address` of anchor_lang (from
/// solana-address): a function of the seeds and the program id alone, which
/// returns `None` instead of panicking when no address can be found.
#[verifier::external_body]
pub(crate) fn find_program_address(prefix: &[u8], seed: &[u8], program: &AccountKey) -> (r: Option<
    (AccountKey, u8),
>)
    ensures
        match r {
            Some((a, b)) => program_address_of(prefix@, seed@, program@) == Some((a@, b)),
            None => program_address_of(prefix@, seed@, program@).is_none(),
        },
{
    let program_id = anchor_lang::prelude::Pubkey::new_from_array(program.bytes);
    match anchor_lang::prelude::Pubkey::try_find_program_address(&[prefix, seed], &program_id) {
        Some((a, b)) => Some((AccountKey { bytes: a.to_bytes() }, b)),
        None => None,
    }
}

} // verus!
