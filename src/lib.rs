//! A ledger of creator profiles and the tips they receive.
//!
//! Creators register a handle, which fixes the address of their profile
//! record and the token account that receives their tips. Donors send tips,
//! which move tokens to that account and raise the profile's running totals.

mod address;
mod error;
mod key;
mod laws;
mod ledger;
mod profile;

pub use address::program_address_of;
pub use error::FlowTipError;
pub use key::AccountKey;
pub use laws::{
    lemma_mismatch_refused, lemma_overflow_refused, lemma_register_once, lemma_tip_is_atomic,
    lemma_tips_accumulate,
    lemma_zero_tip_refused, sum_of, tip_result_after, tips_applied,
};
pub use ledger::{
    initialize_creator_profile, key_result, order_for, order_spec, profile_address, profile_of,
    profile_seed, register_at, register_at_spec, register_spec, send_tip, settle_spec, target_at,
    tip_at, tip_at_spec, tip_spec, tip_target, InitializeCreatorProfile, Ledger, SendTip,
    TransferOrder,
};
pub use profile::{
    check_handle, handle_bytes, handle_error, new_profile, tip_error, tip_overflows, tipped,
    CreatorProfile, TipSent, MAX_HANDLE_LEN,
};
