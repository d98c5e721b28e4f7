use anchor_lang::prelude::Pubkey;
use flowtip::{
    check_handle, initialize_creator_profile, register_at, send_tip, tip_at, AccountKey, CreatorProfile, FlowTipError,
    InitializeCreatorProfile, Ledger, SendTip,
};

fn key(b: u8) -> AccountKey {
    AccountKey::new([b; 32])
}

fn program() -> AccountKey {
    key(200)
}

fn creator_accounts() -> InitializeCreatorProfile {
    InitializeCreatorProfile { creator: key(1), creator_usdc_ata: key(2) }
}

fn tip_accounts() -> SendTip {
    SendTip { donor: key(3), donor_usdc_ata: key(4), creator_usdc_ata: key(2) }
}

fn ledger_with(handle: &str) -> Ledger {
    let mut ledger = Ledger::new(program());
    assert!(initialize_creator_profile(&mut ledger, &creator_accounts(), handle.to_string()).is_ok());
    ledger
}

fn counters(ledger: &Ledger, handle: &str) -> (u64, u64) {
    let p = ledger.profile(handle).expect("profile");
    (p.total_tips_received, p.tips_count)
}

#[test]
fn register_succeeds_once_then_conflicts() {
    let mut ledger = Ledger::new(program());
    let first = initialize_creator_profile(&mut ledger, &creator_accounts(), "bob".to_string());
    assert!(first.is_ok());
    let again = InitializeCreatorProfile { creator: key(9), creator_usdc_ata: key(8) };
    let second = initialize_creator_profile(&mut ledger, &again, "bob".to_string());
    assert_eq!(second, Err(FlowTipError::CreatorAlreadyInitialized));
    let p = ledger.profile("bob").unwrap();
    assert_eq!(p.owner, key(1));
    assert_eq!(p.usdc_ata, key(2));
}

#[test]
fn distinct_handles_both_register() {
    let mut ledger = ledger_with("alice");
    let r = initialize_creator_profile(&mut ledger, &creator_accounts(), "carol".to_string());
    assert!(r.is_ok());
    assert_ne!(r.unwrap(), ledger.derive_profile_address("alice").unwrap().0);
    assert!(ledger.profile("alice").is_some());
    assert!(ledger.profile("carol").is_some());
    assert!(ledger.profile("dave").is_none());
}

#[test]
fn register_empty_handle_fails() {
    let mut ledger = Ledger::new(program());
    let r = initialize_creator_profile(&mut ledger, &creator_accounts(), String::new());
    assert_eq!(r, Err(FlowTipError::HandleEmpty));
    assert!(ledger.profile("").is_none());
}

#[test]
fn register_handle_of_33_bytes_fails() {
    let mut ledger = Ledger::new(program());
    let h = "a".repeat(33);
    let r = initialize_creator_profile(&mut ledger, &creator_accounts(), h.clone());
    assert_eq!(r, Err(FlowTipError::HandleTooLong));
    assert!(ledger.profile(&h).is_none());
}

#[test]
fn register_handle_of_32_bytes_succeeds() {
    let mut ledger = Ledger::new(program());
    let h = "z".repeat(32);
    assert!(initialize_creator_profile(&mut ledger, &creator_accounts(), h.clone()).is_ok());
    assert_eq!(counters(&ledger, &h), (0, 0));
}

#[test]
fn handle_length_counts_bytes() {
    assert_eq!(check_handle(&"é".repeat(16)), Ok(()));
    assert_eq!(check_handle(&"é".repeat(17)), Err(FlowTipError::HandleTooLong));
    assert_eq!(check_handle(""), Err(FlowTipError::HandleEmpty));
    assert_eq!(check_handle("x"), Ok(()));
}

#[test]
fn profile_address_is_the_program_derived_address() {
    let ledger = Ledger::new(program());
    let (address, bump) = ledger.derive_profile_address("alice").unwrap();
    let pid = Pubkey::new_from_array([200; 32]);
    let (expected, expected_bump) = Pubkey::find_program_address(&[b"creator_profile", b"alice"], &pid);
    assert_eq!(address.bytes, expected.to_bytes());
    assert_eq!(bump, expected_bump);
    assert_ne!(address, program());
    let r = {
        let mut l = Ledger::new(program());
        initialize_creator_profile(&mut l, &creator_accounts(), "alice".to_string()).unwrap()
    };
    assert_eq!(r, address);
}

#[test]
fn zero_tip_is_refused() {
    let mut ledger = ledger_with("alice");
    assert_eq!(ledger.prepare_tip(&tip_accounts(), "alice", 0).err(), Some(FlowTipError::InvalidAmount));
    let r = send_tip(&mut ledger, &tip_accounts(), "alice", 0, Ok(()));
    assert_eq!(r.err(), Some(FlowTipError::InvalidAmount));
    assert_eq!(counters(&ledger, "alice"), (0, 0));
}

#[test]
fn tips_accumulate_sum_and_count() {
    let mut ledger = ledger_with("alice");
    let amounts: [u64; 4] = [7, 1, 1000, 42];
    for a in amounts {
        assert!(send_tip(&mut ledger, &tip_accounts(), "alice", a, Ok(())).is_ok());
    }
    assert_eq!(counters(&ledger, "alice"), (1050, 4));
}

#[test]
fn overflowing_tip_is_refused_and_changes_nothing() {
    let mut ledger = ledger_with("alice");
    assert!(send_tip(&mut ledger, &tip_accounts(), "alice", u64::MAX, Ok(())).is_ok());
    assert_eq!(counters(&ledger, "alice"), (u64::MAX, 1));
    let r = send_tip(&mut ledger, &tip_accounts(), "alice", 1, Ok(()));
    assert_eq!(r.err(), Some(FlowTipError::MathOverflow));
    assert_eq!(counters(&ledger, "alice"), (u64::MAX, 1));
}

#[test]
fn tip_count_overflow_is_refused() {
    let mut p = CreatorProfile::new(key(1), "alice".to_string(), key(2), 255).unwrap();
    p.tips_count = u64::MAX;
    p.total_tips_received = 10;
    assert_eq!(p.record_tip(5), Err(FlowTipError::MathOverflow));
    assert_eq!(p.tips_count, u64::MAX);
    assert_eq!(p.total_tips_received, 10);
}

#[test]
fn mismatched_account_is_refused_before_transfer() {
    let mut ledger = ledger_with("alice");
    let wrong = SendTip { donor: key(3), donor_usdc_ata: key(4), creator_usdc_ata: key(77) };
    assert_eq!(ledger.prepare_tip(&wrong, "alice", 10).err(), Some(FlowTipError::AccountMismatch));
    let r = send_tip(&mut ledger, &wrong, "alice", 10, Ok(()));
    assert_eq!(r.err(), Some(FlowTipError::AccountMismatch));
    assert_eq!(counters(&ledger, "alice"), (0, 0));
}

#[test]
fn tip_to_unknown_handle_is_refused() {
    let mut ledger = ledger_with("alice");
    assert_eq!(ledger.prepare_tip(&tip_accounts(), "nobody", 10).err(), Some(FlowTipError::ProfileNotFound));
    let r = send_tip(&mut ledger, &tip_accounts(), "nobody", 10, Ok(()));
    assert_eq!(r.err(), Some(FlowTipError::ProfileNotFound));
}

#[test]
fn failed_transfer_is_passed_through() {
    let mut ledger = ledger_with("alice");
    let r = send_tip(&mut ledger, &tip_accounts(), "alice", 10, Err(17));
    assert_eq!(r.err(), Some(FlowTipError::TransferFailed(17)));
    assert_eq!(counters(&ledger, "alice"), (0, 0));
}

#[test]
fn alice_scenario() {
    let mut ledger = ledger_with("alice");
    assert_eq!(counters(&ledger, "alice"), (0, 0));

    let order = ledger.prepare_tip(&tip_accounts(), "alice", 100).unwrap();
    assert_eq!(order.from, key(4));
    assert_eq!(order.to, key(2));
    assert_eq!(order.authority, key(3));
    assert_eq!(order.amount, 100);
    let event = send_tip(&mut ledger, &tip_accounts(), "alice", 100, Ok(())).unwrap();
    assert_eq!(event.creator, key(1));
    assert_eq!(event.donor, key(3));
    assert_eq!(event.amount, 100);
    assert_eq!(event.handle, "alice");
    assert_eq!(counters(&ledger, "alice"), (100, 1));

    assert!(send_tip(&mut ledger, &tip_accounts(), "alice", 50, Ok(())).is_ok());
    assert_eq!(counters(&ledger, "alice"), (150, 2));
}

#[test]
fn profile_checks_a_tip() {
    let p = CreatorProfile::new(key(1), "alice".to_string(), key(2), 254).unwrap();
    assert_eq!(p.check_tip(&key(2), 0), Err(FlowTipError::InvalidAmount));
    assert_eq!(p.check_tip(&key(5), 3), Err(FlowTipError::AccountMismatch));
    assert_eq!(p.check_tip(&key(2), 3), Ok(()));
    assert_eq!(CreatorProfile::new(key(1), String::new(), key(2), 0).err(), Some(FlowTipError::HandleEmpty));
}

#[test]
fn account_keys_compare_by_bytes() {
    let mut b = [9u8; 32];
    assert!(key(9).same_as(&AccountKey::new(b)));
    b[31] = 8;
    assert!(!key(9).same_as(&AccountKey::new(b)));
    assert_eq!(Ledger::new(key(5)).program_id(), key(5));
}

#[test]
fn tips_by_address() {
    let mut ledger = ledger_with("alice");
    let (address, _) = ledger.derive_profile_address("alice").unwrap();
    let order = ledger.prepare_tip_at(&address, &tip_accounts(), 30).unwrap();
    assert_eq!(order.to, key(2));
    assert_eq!(order.amount, 30);
    let event = tip_at(&mut ledger, &address, &tip_accounts(), 30, Ok(())).unwrap();
    assert_eq!(event.handle, "alice");
    assert_eq!(counters(&ledger, "alice"), (30, 1));
    let elsewhere = key(55);
    assert_eq!(ledger.prepare_tip_at(&elsewhere, &tip_accounts(), 30).err(), Some(FlowTipError::ProfileNotFound));
    assert_eq!(tip_at(&mut ledger, &address, &tip_accounts(), 0, Ok(())).err(), Some(FlowTipError::InvalidAmount));
    assert_eq!(counters(&ledger, "alice"), (30, 1));
}

#[test]
fn register_by_address() {
    let mut ledger = Ledger::new(program());
    let (address, bump) = ledger.derive_profile_address("erin").unwrap();
    let r = register_at(&mut ledger, address, bump, &creator_accounts(), "erin".to_string());
    assert_eq!(r, Ok(address));
    assert_eq!(ledger.profile("erin").unwrap().bump, bump);
    let again = register_at(&mut ledger, address, bump, &creator_accounts(), "erin".to_string());
    assert_eq!(again, Err(FlowTipError::CreatorAlreadyInitialized));
}
