use sbtc_bridge::signer::model::{
    BitcoinBlock, DkgSharesStatus, EncryptedDkgShares, Hash256, PublicKey,
};
use sbtc_bridge::signer::state::{SbtcLimits, SignerSetInfo, SignerState};
use sbtc_bridge::signer::store::Store;

fn key(n: u8) -> PublicKey {
    let mut bytes = [n; 33];
    bytes[0] = 2;
    PublicKey { bytes }
}

fn shares(n: u8, status: DkgSharesStatus, started_at: u64) -> EncryptedDkgShares {
    EncryptedDkgShares {
        aggregate_key: key(n),
        signer_set_public_keys: vec![key(n + 1), key(n + 2), key(n + 3)],
        signature_share_threshold: 2,
        dkg_shares_status: status,
        started_at_bitcoin_block_height: started_at,
        started_at_bitcoin_block_hash: Hash256 { bytes: [n; 32] },
        script_pubkey: vec![0x51, 0x20, n],
    }
}

/// Observes the block at `height` as the block observer does: writes it and
/// checks the pending shares against it.
fn observe(store: &mut Store, height: u64, verification_window: u64) {
    let mut hash = [0u8; 32];
    hash[..8].copy_from_slice(&height.to_be_bytes());
    store.write_bitcoin_block(&BitcoinBlock {
        block_hash: Hash256 { bytes: hash },
        block_height: height,
        parent_hash: Hash256 { bytes: [0; 32] },
    });
    let tip = store.get_bitcoin_canonical_chain_tip().unwrap();
    assert_eq!(tip.block_height, height);
    store.check_pending_dkg_shares(tip.block_height, verification_window);
}

#[test]
fn shares_stay_pending_for_the_whole_window_and_fail_after_it() {
    let verification_window = 5;
    let mut store = Store::new();
    observe(&mut store, 101, verification_window);

    // Initially there are no shares, and key generation may begin.
    assert_eq!(store.get_latest_encrypted_dkg_shares(), None);
    assert_eq!(store.get_encrypted_dkg_shares_count(), 0);
    assert!(!store.has_pending_dkg_shares());

    let dkg_shares = shares(7, DkgSharesStatus::Unverified, 101);
    store.write_encrypted_dkg_shares(&dkg_shares);
    assert_eq!(store.get_encrypted_dkg_shares_count(), 1);
    assert!(store.has_pending_dkg_shares());

    // While in the verification window, the shares stay pending.
    for n in 0..verification_window {
        observe(&mut store, 102 + n, verification_window);
        let latest = store.get_latest_encrypted_dkg_shares().unwrap();
        assert_eq!(latest, dkg_shares);
        assert_eq!(store.get_encrypted_dkg_shares_count(), 1);
        assert!(store.has_pending_dkg_shares());
    }

    // With this block we leave the verification window.
    observe(&mut store, 102 + verification_window, verification_window);
    let latest = store.get_latest_encrypted_dkg_shares().unwrap();
    assert_eq!(latest.dkg_shares_status, DkgSharesStatus::Failed);
    assert_eq!(latest.aggregate_key, dkg_shares.aggregate_key);
    assert_eq!(store.get_encrypted_dkg_shares_count(), 0);
    assert!(!store.has_pending_dkg_shares());

    // Failed shares stay failed.
    observe(&mut store, 200, verification_window);
    let latest = store.get_latest_encrypted_dkg_shares().unwrap();
    assert_eq!(latest.dkg_shares_status, DkgSharesStatus::Failed);
}

#[test]
fn window_boundary_is_exact() {
    let mut pending = shares(1, DkgSharesStatus::Unverified, 100);
    assert!(!pending.is_overdue(100, 10));
    assert!(!pending.is_overdue(110, 10));
    assert!(pending.is_overdue(111, 10));
    assert!(!pending.observe(110, 10));
    assert_eq!(pending.dkg_shares_status, DkgSharesStatus::Unverified);
    assert!(pending.observe(111, 10));
    assert_eq!(pending.dkg_shares_status, DkgSharesStatus::Failed);
    assert!(!pending.observe(10_000, 10));

    // A tip below the start of the round, and a window that reaches the end of the heights.
    let mut early = shares(1, DkgSharesStatus::Unverified, 100);
    assert!(!early.observe(50, 0));
    let mut late = shares(1, DkgSharesStatus::Unverified, u64::MAX - 1);
    assert!(!late.observe(u64::MAX, 5));
    assert!(late.observe(u64::MAX, 0));

    let mut window_zero = shares(1, DkgSharesStatus::Unverified, 100);
    assert!(!window_zero.observe(100, 0));
    assert!(window_zero.observe(101, 0));
}

#[test]
fn verified_shares_are_left_alone() {
    let mut store = Store::new();
    store.write_encrypted_dkg_shares(&shares(1, DkgSharesStatus::Verified, 10));
    store.write_encrypted_dkg_shares(&shares(5, DkgSharesStatus::Unverified, 10));
    store.write_encrypted_dkg_shares(&shares(9, DkgSharesStatus::Failed, 10));
    store.check_pending_dkg_shares(1_000, 5);
    let statuses: Vec<_> = store.dkg_shares().iter().map(|s| s.dkg_shares_status).collect();
    assert_eq!(
        statuses,
        vec![DkgSharesStatus::Verified, DkgSharesStatus::Failed, DkgSharesStatus::Failed]
    );
    assert_eq!(store.get_encrypted_dkg_shares_count(), 1);
    assert_eq!(
        store.get_latest_verified_dkg_shares().map(|s| s.aggregate_key),
        Some(key(1))
    );
    // Shares are written once for an aggregate key.
    store.write_encrypted_dkg_shares(&shares(1, DkgSharesStatus::Failed, 99));
    assert_eq!(store.dkg_shares().len(), 3);
    assert_eq!(store.dkg_shares()[0].dkg_shares_status, DkgSharesStatus::Verified);
}

#[test]
fn pending_shares_are_settled_once() {
    let mut store = Store::new();
    store.write_encrypted_dkg_shares(&shares(1, DkgSharesStatus::Unverified, 10));
    store.write_encrypted_dkg_shares(&shares(5, DkgSharesStatus::Unverified, 10));
    assert!(store.get_signers_script_pubkeys().is_empty());
    assert!(!store.verify_dkg_shares(&key(9)));
    assert!(store.verify_dkg_shares(&key(1)));
    assert_eq!(store.dkg_shares()[0].dkg_shares_status, DkgSharesStatus::Verified);
    assert_eq!(store.dkg_shares()[1].dkg_shares_status, DkgSharesStatus::Unverified);
    assert_eq!(store.get_signers_script_pubkeys(), vec![vec![0x51, 0x20, 1]]);
    // Verified and failed are final.
    assert!(!store.revoke_dkg_shares(&key(1)));
    assert_eq!(store.dkg_shares()[0].dkg_shares_status, DkgSharesStatus::Verified);
    assert!(store.revoke_dkg_shares(&key(5)));
    assert!(!store.verify_dkg_shares(&key(5)));
    assert_eq!(store.dkg_shares()[1].dkg_shares_status, DkgSharesStatus::Failed);
    assert!(!store.has_pending_dkg_shares());
    assert_eq!(store.get_encrypted_dkg_shares_count(), 1);
}

#[test]
fn state_starts_closed_and_takes_the_fetched_limits() {
    let mut state = SignerState::new(103);
    assert!(state.get_current_limits().same(&SbtcLimits::zero()));
    assert!(state.registry_signer_set_info().is_none());
    assert!(!state.sbtc_contracts_deployed());
    assert_eq!(state.get_sbtc_bitcoin_start_height(), 103);
    assert_eq!(SbtcLimits::zero().total_cap, Some(0));
    assert_eq!(SbtcLimits::zero().per_deposit_minimum, Some(u64::MAX));
    assert_eq!(SbtcLimits::unlimited().total_cap, None);

    let store = Store::new();
    state.refresh(SbtcLimits::unlimited(), false, None, &store);
    assert!(state.get_current_limits().same(&SbtcLimits::unlimited()));
    assert!(state.registry_signer_set_info().is_none());

    let capped = SbtcLimits { total_cap: Some(1_000), ..SbtcLimits::unlimited() };
    state.refresh(capped, false, None, &store);
    assert_eq!(state.get_current_limits().total_cap, Some(1_000));
    assert!(!state.get_current_limits().same(&SbtcLimits::unlimited()));
}

#[test]
fn get_signer_set_info_falls_back() {
    let registry = SignerSetInfo {
        aggregate_key: key(0x40),
        signer_set: vec![key(0x41), key(0x42)],
        signatures_required: 2,
    };
    let mut store = Store::new();
    let mut state = SignerState::new(0);

    // Contracts not deployed, no shares: nothing is known, whatever the chain says.
    state.refresh(SbtcLimits::unlimited(), false, Some(registry.clone()), &store);
    assert!(state.registry_signer_set_info().is_none());

    // Contracts not deployed: the latest verified shares stand in.
    store.write_encrypted_dkg_shares(&shares(1, DkgSharesStatus::Verified, 10));
    store.write_encrypted_dkg_shares(&shares(5, DkgSharesStatus::Verified, 20));
    store.write_encrypted_dkg_shares(&shares(9, DkgSharesStatus::Unverified, 30));
    state.refresh(SbtcLimits::unlimited(), false, Some(registry.clone()), &store);
    let info = state.registry_signer_set_info().unwrap();
    assert_eq!(info.aggregate_key, key(5));
    assert_eq!(info.signatures_required, 2);
    assert_eq!(info.signer_set, vec![key(6), key(7), key(8)]);

    // Contracts seen deployed: the record of the chain is preferred.
    state.refresh(SbtcLimits::unlimited(), true, Some(registry.clone()), &store);
    assert!(state.sbtc_contracts_deployed());
    let info = state.registry_signer_set_info().unwrap();
    assert_eq!(info.aggregate_key, key(0x40));
    assert_eq!(info.signer_set, vec![key(0x41), key(0x42)]);

    // The flag stays set; without a record the verified shares stand in again.
    state.refresh(SbtcLimits::unlimited(), false, None, &store);
    assert!(state.sbtc_contracts_deployed());
    assert_eq!(state.registry_signer_set_info().unwrap().aggregate_key, key(5));

    // With neither, what was known stays.
    let empty = Store::new();
    state.refresh(SbtcLimits::zero(), false, None, &empty);
    assert_eq!(state.registry_signer_set_info().unwrap().aggregate_key, key(5));
    assert!(state.get_current_limits().same(&SbtcLimits::zero()));

    let mut fresh = SignerState::new(0);
    fresh.set_sbtc_contracts_deployed();
    fresh.refresh(SbtcLimits::unlimited(), false, Some(registry), &empty);
    assert_eq!(fresh.registry_signer_set_info().unwrap().aggregate_key, key(0x40));
    fresh.update_current_limits(SbtcLimits::zero());
    assert!(fresh.get_current_limits().same(&SbtcLimits::zero()));
}
