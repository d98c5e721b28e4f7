use vstd::prelude::*;
use crate::error::FlowTipError;
use crate::ledger::{
    order_spec, profile_address, profile_of, register_spec, tip_spec, InitializeCreatorProfile, SendTip,
};
use crate::profile::{handle_error, tip_overflows, tipped, CreatorProfile, TipSent};

verus! {

/// The sum of the amounts.
pub open spec fn sum_of(amounts: Seq<u64>) -> int
    decreases amounts.len(),
{
    if amounts.len() == 0 {
        0
    } else {
        sum_of(amounts.drop_last()) + amounts.last()
    }
}

/// The profiles after tips of `amounts`, in order, to the creator of
/// `handle`, each of whose transfers the token program carried out.
pub open spec fn tips_applied(
    profiles: Map<Seq<u8>, CreatorProfile>,
    program: Seq<u8>,
    accounts: SendTip,
    handle: Seq<char>,
    amounts: Seq<u64>,
) -> Map<Seq<u8>, CreatorProfile>
    decreases amounts.len(),
{
    if amounts.len() == 0 {
        profiles
    } else {
        tip_spec(
            tips_applied(profiles, program, accounts, handle, amounts.drop_last()),
            program,
            accounts,
            handle,
            amounts.last(),
            Ok(()),
        ).1
    }
}

/// The result of the tip of `amounts[k]`, after the tips before it.
pub open spec fn tip_result_after(
    profiles: Map<Seq<u8>, CreatorProfile>,
    program: Seq<u8>,
    accounts: SendTip,
    handle: Seq<char>,
    amounts: Seq<u64>,
    k: int,
) -> Result<TipSent, FlowTipError> {
    tip_spec(
        tips_applied(profiles, program, accounts, handle, amounts.take(k)),
        program,
        accounts,
        handle,
        amounts[k],
        Ok(()),
    ).0
}

/// A valid handle can be registered once: where no profile stands at its
/// address, registration succeeds exactly when an address can be derived
/// from it; a handle already registered is refused; and after a success, a
/// second registration of the same handle is refused and changes nothing.
pub proof fn lemma_register_once(
    profiles: Map<Seq<u8>, CreatorProfile>,
    program: Seq<u8>,
    accounts: InitializeCreatorProfile,
    handle: String,
    again: InitializeCreatorProfile,
    same_handle: String,
)
    requires
        handle_error(handle@) is None,
        same_handle@ == handle@,
    ensures
        profile_of(profiles, program, handle@) is None ==> (register_spec(
            profiles,
            program,
            accounts,
            handle,
        ).0 is Ok <==> profile_address(program, handle@) is Some),
        profile_of(profiles, program, handle@) is Some ==> register_spec(
            profiles,
            program,
            accounts,
            handle,
        ) == (Err::<Seq<u8>, FlowTipError>(FlowTipError::CreatorAlreadyInitialized), profiles),
        ({
            let (first, after) = register_spec(profiles, program, accounts, handle);
            first is Ok ==> register_spec(after, program, again, same_handle) == (Err::<
                Seq<u8>,
                FlowTipError,
            >(FlowTipError::CreatorAlreadyInitialized), after)
        }),
{
}

/// A tip of zero tokens is refused before any transfer is ordered, and
/// changes nothing, whatever the token program would answer.
pub proof fn lemma_zero_tip_refused(
    profiles: Map<Seq<u8>, CreatorProfile>,
    program: Seq<u8>,
    accounts: SendTip,
    handle: Seq<char>,
    transfer: Result<(), u64>,
)
    ensures
        order_spec(profiles, program, accounts, handle, 0) is Err,
        tip_spec(profiles, program, accounts, handle, 0, transfer) == (Err::<TipSent, FlowTipError>(
            FlowTipError::InvalidAmount,
        ), profiles),
{
}

proof fn lemma_tips_add_up(
    profiles: Map<Seq<u8>, CreatorProfile>,
    program: Seq<u8>,
    accounts: SendTip,
    handle: Seq<char>,
    amounts: Seq<u64>,
    start: CreatorProfile,
)
    requires
        profile_of(profiles, program, handle) == Some(start),
        forall|k: int|
            0 <= k < amounts.len() ==> #[trigger] tip_result_after(
                profiles,
                program,
                accounts,
                handle,
                amounts,
                k,
            ) is Ok,
    ensures
        ({
            let p = profile_of(tips_applied(profiles, program, accounts, handle, amounts), program, handle);
            &&& p is Some
            &&& p.unwrap().total_tips_received == start.total_tips_received + sum_of(amounts)
            &&& p.unwrap().tips_count == start.tips_count + amounts.len()
        }),
    decreases amounts.len(),
{
    if amounts.len() > 0 {
        let rest = amounts.drop_last();
        assert forall|k: int| 0 <= k < rest.len() implies #[trigger] tip_result_after(
            profiles,
            program,
            accounts,
            handle,
            rest,
            k,
        ) is Ok by {
            assert(rest.take(k) =~= amounts.take(k));
            assert(tip_result_after(profiles, program, accounts, handle, amounts, k) is Ok);
        }
        lemma_tips_add_up(profiles, program, accounts, handle, rest, start);
        let n = amounts.len() - 1;
        assert(amounts.take(n) =~= rest);
        assert(tip_result_after(profiles, program, accounts, handle, amounts, n) is Ok);
    }
}

/// After a run of successful tips to a freshly registered creator, the
/// profile's total is the sum of their amounts and its count is their number.
pub proof fn lemma_tips_accumulate(
    profiles: Map<Seq<u8>, CreatorProfile>,
    program: Seq<u8>,
    accounts: SendTip,
    handle: Seq<char>,
    amounts: Seq<u64>,
)
    requires
        profile_of(profiles, program, handle) matches Some(p) && p.total_tips_received == 0
            && p.tips_count == 0,
        forall|k: int|
            0 <= k < amounts.len() ==> #[trigger] tip_result_after(
                profiles,
                program,
                accounts,
                handle,
                amounts,
                k,
            ) is Ok,
    ensures
        ({
            let p = profile_of(tips_applied(profiles, program, accounts, handle, amounts), program, handle);
            &&& p is Some
            &&& p.unwrap().total_tips_received == sum_of(amounts)
            &&& p.unwrap().tips_count == amounts.len()
        }),
{
    lemma_tips_add_up(profiles, program, accounts, handle, amounts, profile_of(profiles, program, handle).unwrap());
}

/// A tip that would carry the total or the count past `u64::MAX` is refused
/// with `MathOverflow` and leaves every profile as it was.
pub proof fn lemma_overflow_refused(
    profiles: Map<Seq<u8>, CreatorProfile>,
    program: Seq<u8>,
    accounts: SendTip,
    handle: Seq<char>,
    amount: u64,
)
    requires
        profile_of(profiles, program, handle) matches Some(p) && tip_overflows(p, amount)
            && p.usdc_ata@ == accounts.creator_usdc_ata@,
        amount > 0,
    ensures
        tip_spec(profiles, program, accounts, handle, amount, Ok(())) == (Err::<TipSent, FlowTipError>(
            FlowTipError::MathOverflow,
        ), profiles),
{
}

/// A tip that presents a token account other than the profile's bound one is
/// refused with `AccountMismatch`: no transfer is ordered, and nothing
/// changes, whatever the token program would answer.
pub proof fn lemma_mismatch_refused(
    profiles: Map<Seq<u8>, CreatorProfile>,
    program: Seq<u8>,
    accounts: SendTip,
    handle: Seq<char>,
    amount: u64,
    transfer: Result<(), u64>,
)
    requires
        profile_of(profiles, program, handle) matches Some(p) && p.usdc_ata@ != accounts.creator_usdc_ata@,
        amount > 0,
    ensures
        order_spec(profiles, program, accounts, handle, amount) == Err::<crate::ledger::TransferOrder, FlowTipError>(
            FlowTipError::AccountMismatch,
        ),
        tip_spec(profiles, program, accounts, handle, amount, transfer) == (Err::<TipSent, FlowTipError>(
            FlowTipError::AccountMismatch,
        ), profiles),
{
}

/// A tip is all or nothing: when refused it changes no profile; when it
/// succeeds it changes only the profile at the handle's address, whose total
/// rises by the amount and whose count rises by one, together.
pub proof fn lemma_tip_is_atomic(
    profiles: Map<Seq<u8>, CreatorProfile>,
    program: Seq<u8>,
    accounts: SendTip,
    handle: Seq<char>,
    amount: u64,
    transfer: Result<(), u64>,
)
    ensures
        ({
            let (r, after) = tip_spec(profiles, program, accounts, handle, amount, transfer);
            &&& r is Err ==> after == profiles
            &&& r is Ok ==> (profile_address(program, handle) matches Some((a, _)) && profiles.contains_key(a)
                && after == profiles.insert(a, tipped(profiles[a], amount))
                && after[a].total_tips_received == profiles[a].total_tips_received + amount
                && after[a].tips_count == profiles[a].tips_count + 1)
        }),
{
}

} // verus!
