use vstd::prelude::*;
use crate::address::{find_program_address, program_address_of};
use crate::error::FlowTipError;
use crate::key::AccountKey;
use crate::profile::{
    check_handle, handle_bytes, handle_error, new_profile, tip_overflows, tipped, CreatorProfile, TipSent,
};

verus! {

/// The first seed of every profile address: the bytes of "creator_profile".
pub open spec fn profile_seed() -> Seq<u8> {
    seq![99u8, 114, 101, 97, 116, 111, 114, 95, 112, 114, 111, 102, 105, 108, 101]
}

/// Where the profile of `handle` is stored under the program `program`, with
/// the bump seed of that address.
pub open spec fn profile_address(program: Seq<u8>, handle: Seq<char>) -> Option<(Seq<u8>, u8)> {
    program_address_of(profile_seed(), handle_bytes(handle), program)
}

/// The accounts that a registration names.
pub struct InitializeCreatorProfile {
    /// The creator who registers, and who owns the profile.
    pub creator: AccountKey,
    /// The token account that is to receive the creator's tips.
    pub creator_usdc_ata: AccountKey,
}

/// The accounts that a tip names.
pub struct SendTip {
    /// The donor, who signs the transfer.
    pub donor: AccountKey,
    /// The donor's token account, which pays the tip.
    pub donor_usdc_ata: AccountKey,
    /// The token account that the donor believes is bound to the profile.
    pub creator_usdc_ata: AccountKey,
}

/// A token transfer for the token program to carry out.
pub struct TransferOrder {
    pub from: AccountKey,
    pub to: AccountKey,
    pub authority: AccountKey,
    pub amount: u64,
}

struct Entry {
    address: AccountKey,
    profile: CreatorProfile,
}

/// The profiles of a program, each stored at the address derived from its
/// handle.
pub struct Ledger {
    program_id: AccountKey,
    entries: Vec<Entry>,
}

spec fn holds_address(s: Seq<Entry>, k: Seq<u8>, i: int) -> bool {
    0 <= i < s.len() && s[i].address@ == k
}

spec fn entries_map(s: Seq<Entry>) -> Map<Seq<u8>, CreatorProfile> {
    Map::new(
        |k: Seq<u8>| exists|i: int| holds_address(s, k, i),
        |k: Seq<u8>| s[choose|i: int| holds_address(s, k, i)].profile,
    )
}

spec fn unique_addresses(s: Seq<Entry>) -> bool {
    forall|i: int, j: int| 0 <= i < s.len() && 0 <= j < s.len() && i != j ==> s[i].address@ != s[j].address@
}

proof fn lemma_entry_in_map(s: Seq<Entry>, i: int)
    requires
        unique_addresses(s),
        0 <= i < s.len(),
    ensures
        entries_map(s).contains_key(s[i].address@),
        entries_map(s)[s[i].address@] == s[i].profile,
{
    let k = s[i].address@;
    assert(holds_address(s, k, i));
    let j = choose|j: int| holds_address(s, k, j);
    assert(j == i);
}

proof fn lemma_push(s: Seq<Entry>, e: Entry)
    requires
        unique_addresses(s),
        !entries_map(s).contains_key(e.address@),
    ensures
        unique_addresses(s.push(e)),
        entries_map(s.push(e)) == entries_map(s).insert(e.address@, e.profile),
{
    let t = s.push(e);
    assert forall|i: int, j: int| 0 <= i < t.len() && 0 <= j < t.len() && i != j implies t[i].address@ != t[j].address@ by {
        if i == s.len() {
            assert(!holds_address(s, e.address@, j));
        } else if j == s.len() {
            assert(!holds_address(s, e.address@, i));
        }
    }
    assert forall|k: Seq<u8>| #[trigger] entries_map(t).contains_key(k) == entries_map(s).insert(e.address@, e.profile).contains_key(k) by {
        if exists|i: int| holds_address(s, k, i) {
            let i = choose|i: int| holds_address(s, k, i);
            assert(holds_address(t, k, i));
        }
        if k == e.address@ {
            assert(holds_address(t, k, s.len() as int));
        }
        if exists|i: int| holds_address(t, k, i) {
            let i = choose|i: int| holds_address(t, k, i);
            if i < s.len() {
                assert(holds_address(s, k, i));
            }
        }
    }
    assert forall|k: Seq<u8>| entries_map(t).contains_key(k) implies entries_map(t)[k] == entries_map(s).insert(e.address@, e.profile)[k] by {
        let i = choose|i: int| holds_address(t, k, i);
        lemma_entry_in_map(t, i);
        if i < s.len() {
            lemma_entry_in_map(s, i);
        }
    }
    assert(entries_map(t) =~= entries_map(s).insert(e.address@, e.profile));
}

proof fn lemma_update(s: Seq<Entry>, i: int, e: Entry)
    requires
        unique_addresses(s),
        0 <= i < s.len(),
        e.address@ == s[i].address@,
    ensures
        unique_addresses(s.update(i, e)),
        entries_map(s.update(i, e)) == entries_map(s).insert(e.address@, e.profile),
{
    let t = s.update(i, e);
    assert forall|a: int, b: int| 0 <= a < t.len() && 0 <= b < t.len() && a != b implies t[a].address@ != t[b].address@ by {
        assert(s[a].address@ != s[b].address@);
    }
    assert forall|k: Seq<u8>| #[trigger] entries_map(t).contains_key(k) == entries_map(s).contains_key(k) by {
        if exists|j: int| holds_address(s, k, j) {
            let j = choose|j: int| holds_address(s, k, j);
            assert(holds_address(t, k, j));
        }
        if exists|j: int| holds_address(t, k, j) {
            let j = choose|j: int| holds_address(t, k, j);
            assert(holds_address(s, k, j));
        }
    }
    lemma_entry_in_map(s, i);
    assert forall|k: Seq<u8>| entries_map(t).contains_key(k) implies entries_map(t)[k] == entries_map(s).insert(e.address@, e.profile)[k] by {
        let j = choose|j: int| holds_address(t, k, j);
        lemma_entry_in_map(t, j);
        lemma_entry_in_map(s, j);
    }
    assert(entries_map(t) =~= entries_map(s).insert(e.address@, e.profile));
}

impl Ledger {
    /// The program under which profile addresses are derived.
    pub closed spec fn program(&self) -> Seq<u8> {
        self.program_id@
    }

    /// The profiles, by address.
    pub closed spec fn profiles(&self) -> Map<Seq<u8>, CreatorProfile> {
        entries_map(self.entries@)
    }

    /// At most one profile per address, each stored at the address of its own
    /// handle, with a handle of 1 to 32 bytes.
    pub closed spec fn wf(&self) -> bool {
        &&& unique_addresses(self.entries@)
        &&& forall|i: int|
            0 <= i < self.entries@.len() ==> {
                &&& profile_address(self.program(), #[trigger] self.entries@[i].profile.handle@) == Some(
                    (self.entries@[i].address@, self.entries@[i].profile.bump),
                )
                &&& handle_error(self.entries@[i].profile.handle@) is None
            }
    }

    /// An empty ledger for the program `program_id`.
    pub fn new(program_id: AccountKey) -> (r: Ledger)
        ensures
            r.wf(),
            r.program() == program_id@,
            r.profiles() == Map::<Seq<u8>, CreatorProfile>::empty(),
    {
        let r = Ledger { program_id, entries: Vec::new() };
        assert(r.profiles() =~= Map::<Seq<u8>, CreatorProfile>::empty());
        r
    }

    /// The program under which profile addresses are derived.
    pub fn program_id(&self) -> (r: AccountKey)
        ensures
            r@ == self.program(),
    {
        self.program_id
    }

    fn find(&self, address: &AccountKey) -> (r: Option<usize>)
        requires
            self.wf(),
        ensures
            match r {
                Some(i) => i < self.entries@.len() && self.entries@[i as int].address@ == address@
                    && self.profiles().contains_key(address@)
                    && self.profiles()[address@] == self.entries@[i as int].profile,
                None => !self.profiles().contains_key(address@),
            },
    {
        let mut i: usize = 0;
        while i < self.entries.len()
            invariant
                self.wf(),
                0 <= i <= self.entries@.len(),
                forall|j: int| 0 <= j < i ==> self.entries@[j].address@ != address@,
            decreases self.entries@.len() - i,
        {
            if self.entries[i].address.same_as(address) {
                proof {
                    lemma_entry_in_map(self.entries@, i as int);
                }
                return Some(i);
            }
            i = i + 1;
        }
        None
    }
}

/// What creating the profile of `handle` at the address `address` does to
/// `profiles`: refused where a profile already stands there, else a fresh
/// profile stands there afterwards.
pub open spec fn register_at_spec(
    profiles: Map<Seq<u8>, CreatorProfile>,
    address: Seq<u8>,
    bump: u8,
    accounts: InitializeCreatorProfile,
    handle: String,
) -> (Result<Seq<u8>, FlowTipError>, Map<Seq<u8>, CreatorProfile>) {
    if profiles.contains_key(address) {
        (Err(FlowTipError::CreatorAlreadyInitialized), profiles)
    } else {
        (Ok(address), profiles.insert(address, new_profile(accounts.creator, handle, accounts.creator_usdc_ata, bump)))
    }
}

/// What registering `handle` with `accounts` does to the profiles
/// `profiles` of the program `program`: the result (the new profile's
/// address, or why there is none) and the profiles afterwards.
pub open spec fn register_spec(
    profiles: Map<Seq<u8>, CreatorProfile>,
    program: Seq<u8>,
    accounts: InitializeCreatorProfile,
    handle: String,
) -> (Result<Seq<u8>, FlowTipError>, Map<Seq<u8>, CreatorProfile>) {
    match handle_error(handle@) {
        Some(e) => (Err(e), profiles),
        None => match profile_address(program, handle@) {
            None => (Err(FlowTipError::AddressUnavailable), profiles),
            Some((a, bump)) => register_at_spec(profiles, a, bump, accounts, handle),
        },
    }
}

/// The view of a result that carries a key.
pub open spec fn key_result(r: Result<AccountKey, FlowTipError>) -> Result<Seq<u8>, FlowTipError> {
    match r {
        Ok(k) => Ok(k@),
        Err(e) => Err(e),
    }
}

fn profile_seed_bytes() -> (r: Vec<u8>)
    ensures
        r@ == profile_seed(),
{
    let r: Vec<u8> = vec![99u8, 114, 101, 97, 116, 111, 114, 95, 112, 114, 111, 102, 105, 108, 101];
    assert(r@ =~= profile_seed());
    r
}

impl Ledger {
    /// The address of the profile of `handle`, with its bump seed, or `None`
    /// where no address can be derived from it.
    pub fn derive_profile_address(&self, handle: &str) -> (r: Option<(AccountKey, u8)>)
        ensures
            match r {
                Some((a, b)) => profile_address(self.program(), handle@) == Some((a@, b)),
                None => profile_address(self.program(), handle@).is_none(),
            },
    {
        let seed = profile_seed_bytes();
        find_program_address(seed.as_slice(), handle.as_bytes(), &self.program_id)
    }
}

/// Creates a profile with no tips for `handle` at `address`, the address
/// derived from it, unless one already stands there.
pub fn register_at(
    ledger: &mut Ledger,
    address: AccountKey,
    bump: u8,
    accounts: &InitializeCreatorProfile,
    handle: String,
) -> (r: Result<AccountKey, FlowTipError>)
    requires
        old(ledger).wf(),
        handle_error(handle@) is None,
        profile_address(old(ledger).program(), handle@) == Some((address@, bump)),
    ensures
        final(ledger).wf(),
        final(ledger).program() == old(ledger).program(),
        (key_result(r), final(ledger).profiles()) == register_at_spec(
            old(ledger).profiles(),
            address@,
            bump,
            *accounts,
            handle,
        ),
{
    if ledger.find(&address).is_some() {
        return Err(FlowTipError::CreatorAlreadyInitialized);
    }
    let profile = CreatorProfile {
        owner: accounts.creator,
        handle,
        usdc_ata: accounts.creator_usdc_ata,
        bump,
        total_tips_received: 0,
        tips_count: 0,
    };
    let entry = Entry { address, profile };
    proof {
        lemma_push(ledger.entries@, entry);
    }
    ledger.entries.push(entry);
    Ok(address)
}

/// Registers a creator under `handle`: checks the handle, derives the
/// profile's address from it, and creates a profile with no tips there unless
/// one already stands there. Returns the new profile's address.
pub fn initialize_creator_profile(
    ledger: &mut Ledger,
    accounts: &InitializeCreatorProfile,
    handle: String,
) -> (r: Result<AccountKey, FlowTipError>)
    requires
        old(ledger).wf(),
    ensures
        final(ledger).wf(),
        final(ledger).program() == old(ledger).program(),
        (key_result(r), final(ledger).profiles()) == register_spec(
            old(ledger).profiles(),
            old(ledger).program(),
            *accounts,
            handle,
        ),
{
    if let Err(e) = check_handle(handle.as_str()) {
        return Err(e);
    }
    match ledger.derive_profile_address(handle.as_str()) {
        Some((address, bump)) => register_at(ledger, address, bump, accounts, handle),
        None => Err(FlowTipError::AddressUnavailable),
    }
}

/// The profile of `handle` among `profiles`, if any stands at its address.
pub open spec fn profile_of(profiles: Map<Seq<u8>, CreatorProfile>, program: Seq<u8>, handle: Seq<char>) -> Option<
    CreatorProfile,
> {
    match profile_address(program, handle) {
        Some((a, _)) => if profiles.contains_key(a) {
            Some(profiles[a])
        } else {
            None
        },
        None => None,
    }
}

/// The checks of a tip to the profile at `address` that come before any
/// tokens move, in order: a positive amount, a profile there, and the bound
/// token account. Gives the address, or why the tip is refused.
pub open spec fn target_at(
    profiles: Map<Seq<u8>, CreatorProfile>,
    address: Seq<u8>,
    accounts: SendTip,
    amount: u64,
) -> Result<Seq<u8>, FlowTipError> {
    if amount == 0 {
        Err(FlowTipError::InvalidAmount)
    } else if !profiles.contains_key(address) {
        Err(FlowTipError::ProfileNotFound)
    } else if profiles[address].usdc_ata@ != accounts.creator_usdc_ata@ {
        Err(FlowTipError::AccountMismatch)
    } else {
        Ok(address)
    }
}

/// The same checks for a tip to the creator of `handle`, whose profile is
/// looked for at the address derived from the handle.
pub open spec fn tip_target(
    profiles: Map<Seq<u8>, CreatorProfile>,
    program: Seq<u8>,
    accounts: SendTip,
    handle: Seq<char>,
    amount: u64,
) -> Result<Seq<u8>, FlowTipError> {
    if amount == 0 {
        Err(FlowTipError::InvalidAmount)
    } else {
        match profile_address(program, handle) {
            None => Err(FlowTipError::ProfileNotFound),
            Some((a, _)) => target_at(profiles, a, accounts, amount),
        }
    }
}

/// The transfer that a tip which passed its checks asks of the token program.
pub open spec fn order_for(profiles: Map<Seq<u8>, CreatorProfile>, target: Result<Seq<u8>, FlowTipError>, accounts: SendTip, amount: u64) -> Result<
    TransferOrder,
    FlowTipError,
> {
    match target {
        Err(e) => Err(e),
        Ok(a) => Ok(
            TransferOrder {
                from: accounts.donor_usdc_ata,
                to: profiles[a].usdc_ata,
                authority: accounts.donor,
                amount,
            },
        ),
    }
}

/// The transfer that a tip to the creator of `handle` asks of the token
/// program, or why it asks none.
pub open spec fn order_spec(
    profiles: Map<Seq<u8>, CreatorProfile>,
    program: Seq<u8>,
    accounts: SendTip,
    handle: Seq<char>,
    amount: u64,
) -> Result<TransferOrder, FlowTipError> {
    order_for(profiles, tip_target(profiles, program, accounts, handle, amount), accounts, amount)
}

/// What a tip that passed its checks at `target` does to `profiles`, given
/// what the token program answered to its transfer (`Err` with an error code
/// where it refused): the result and the profiles afterwards.
pub open spec fn settle_spec(
    profiles: Map<Seq<u8>, CreatorProfile>,
    target: Result<Seq<u8>, FlowTipError>,
    accounts: SendTip,
    amount: u64,
    transfer: Result<(), u64>,
) -> (Result<TipSent, FlowTipError>, Map<Seq<u8>, CreatorProfile>) {
    match target {
        Err(e) => (Err(e), profiles),
        Ok(a) => match transfer {
            Err(code) => (Err(FlowTipError::TransferFailed(code)), profiles),
            Ok(()) => if tip_overflows(profiles[a], amount) {
                (Err(FlowTipError::MathOverflow), profiles)
            } else {
                (
                    Ok(
                        TipSent {
                            creator: profiles[a].owner,
                            donor: accounts.donor,
                            amount,
                            handle: profiles[a].handle,
                        },
                    ),
                    profiles.insert(a, tipped(profiles[a], amount)),
                )
            },
        },
    }
}

/// What a tip to the profile at `address` does to `profiles`.
pub open spec fn tip_at_spec(
    profiles: Map<Seq<u8>, CreatorProfile>,
    address: Seq<u8>,
    accounts: SendTip,
    amount: u64,
    transfer: Result<(), u64>,
) -> (Result<TipSent, FlowTipError>, Map<Seq<u8>, CreatorProfile>) {
    settle_spec(profiles, target_at(profiles, address, accounts, amount), accounts, amount, transfer)
}

/// What a tip to the creator of `handle` does to `profiles`.
pub open spec fn tip_spec(
    profiles: Map<Seq<u8>, CreatorProfile>,
    program: Seq<u8>,
    accounts: SendTip,
    handle: Seq<char>,
    amount: u64,
    transfer: Result<(), u64>,
) -> (Result<TipSent, FlowTipError>, Map<Seq<u8>, CreatorProfile>) {
    settle_spec(profiles, tip_target(profiles, program, accounts, handle, amount), accounts, amount, transfer)
}

impl Ledger {
    /// The profile registered under `handle`, if any.
    pub fn profile(&self, handle: &str) -> (r: Option<&CreatorProfile>)
        requires
            self.wf(),
        ensures
            match r {
                Some(p) => profile_of(self.profiles(), self.program(), handle@) == Some(*p),
                None => profile_of(self.profiles(), self.program(), handle@).is_none(),
            },
    {
        let (address, _) = match self.derive_profile_address(handle) {
            Some(found) => found,
            None => return None,
        };
        match self.find(&address) {
            Some(i) => Some(&self.entries[i].profile),
            None => None,
        }
    }

    fn locate_at(&self, address: &AccountKey, accounts: &SendTip, amount: u64) -> (r: Result<usize, FlowTipError>)
        requires
            self.wf(),
        ensures
            match r {
                Ok(i) => i < self.entries@.len() && target_at(self.profiles(), address@, *accounts, amount)
                    == Ok::<Seq<u8>, FlowTipError>(address@) && self.entries@[i as int].address@ == address@
                    && self.profiles()[address@] == self.entries@[i as int].profile,
                Err(e) => target_at(self.profiles(), address@, *accounts, amount) == Err::<Seq<u8>, FlowTipError>(e),
            },
    {
        if amount == 0 {
            return Err(FlowTipError::InvalidAmount);
        }
        let i = match self.find(address) {
            Some(i) => i,
            None => return Err(FlowTipError::ProfileNotFound),
        };
        if !self.entries[i].profile.usdc_ata.same_as(&accounts.creator_usdc_ata) {
            return Err(FlowTipError::AccountMismatch);
        }
        Ok(i)
    }

    /// Checks a tip to the profile at `address` before any tokens move, and
    /// gives the transfer that it asks of the token program: from the donor's
    /// token account to the profile's, signed by the donor.
    pub fn prepare_tip_at(&self, address: &AccountKey, accounts: &SendTip, amount: u64) -> (r: Result<
        TransferOrder,
        FlowTipError,
    >)
        requires
            self.wf(),
        ensures
            r == order_for(self.profiles(), target_at(self.profiles(), address@, *accounts, amount), *accounts, amount),
    {
        match self.locate_at(address, accounts, amount) {
            Err(e) => Err(e),
            Ok(i) => Ok(
                TransferOrder {
                    from: accounts.donor_usdc_ata,
                    to: self.entries[i].profile.usdc_ata,
                    authority: accounts.donor,
                    amount,
                },
            ),
        }
    }

    /// Checks a tip to the creator of `handle` before any tokens move, and
    /// gives the transfer that it asks of the token program.
    pub fn prepare_tip(&self, accounts: &SendTip, handle: &str, amount: u64) -> (r: Result<
        TransferOrder,
        FlowTipError,
    >)
        requires
            self.wf(),
        ensures
            r == order_spec(self.profiles(), self.program(), *accounts, handle@, amount),
    {
        if amount == 0 {
            return Err(FlowTipError::InvalidAmount);
        }
        match self.derive_profile_address(handle) {
            Some((address, _)) => self.prepare_tip_at(&address, accounts, amount),
            None => Err(FlowTipError::ProfileNotFound),
        }
    }
}

/// Completes a tip of `amount` to the profile at `address`, given what the
/// token program answered to the transfer that `Ledger::prepare_tip_at`
/// ordered. On success both running totals of the profile rise together and
/// the announcement of the tip is returned; on any refusal the ledger is left
/// as it was.
pub fn tip_at(
    ledger: &mut Ledger,
    address: &AccountKey,
    accounts: &SendTip,
    amount: u64,
    transfer: Result<(), u64>,
) -> (r: Result<TipSent, FlowTipError>)
    requires
        old(ledger).wf(),
    ensures
        final(ledger).wf(),
        final(ledger).program() == old(ledger).program(),
        (r, final(ledger).profiles()) == tip_at_spec(old(ledger).profiles(), address@, *accounts, amount, transfer),
{
    let i = match ledger.locate_at(address, accounts, amount) {
        Ok(i) => i,
        Err(e) => return Err(e),
    };
    if let Err(code) = transfer {
        return Err(FlowTipError::TransferFailed(code));
    }
    let current = &ledger.entries[i].profile;
    let mut profile = CreatorProfile {
        owner: current.owner,
        handle: current.handle.clone(),
        usdc_ata: current.usdc_ata,
        bump: current.bump,
        total_tips_received: current.total_tips_received,
        tips_count: current.tips_count,
    };
    if let Err(e) = profile.record_tip(amount) {
        return Err(e);
    }
    let event = TipSent {
        creator: profile.owner,
        donor: accounts.donor,
        amount,
        handle: profile.handle.clone(),
    };
    let entry = Entry { address: *address, profile };
    proof {
        lemma_update(ledger.entries@, i as int, entry);
    }
    ledger.entries.set(i, entry);
    Ok(event)
}

/// Completes a tip of `amount` to the creator of `handle`, given what the
/// token program answered to the transfer that `Ledger::prepare_tip` ordered.
/// On success both running totals of the profile rise together and the
/// announcement of the tip is returned; on any refusal the ledger is left as
/// it was.
pub fn send_tip(
    ledger: &mut Ledger,
    accounts: &SendTip,
    handle: &str,
    amount: u64,
    transfer: Result<(), u64>,
) -> (r: Result<TipSent, FlowTipError>)
    requires
        old(ledger).wf(),
    ensures
        final(ledger).wf(),
        final(ledger).program() == old(ledger).program(),
        (r, final(ledger).profiles()) == tip_spec(
            old(ledger).profiles(),
            old(ledger).program(),
            *accounts,
            handle@,
            amount,
            transfer,
        ),
{
    if amount == 0 {
        return Err(FlowTipError::InvalidAmount);
    }
    match ledger.derive_profile_address(handle) {
        Some((address, _)) => tip_at(ledger, &address, accounts, amount, transfer),
        None => Err(FlowTipError::ProfileNotFound),
    }
}

} // verus!
