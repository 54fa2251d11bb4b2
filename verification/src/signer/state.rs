//! The state that the signer's parts share: the operational limits, the
//! signer set as the chain records it, and whether the sBTC contracts are
//! deployed. One owner refreshes it after each processed chain tip; the
//! others read it. It is not stored: a restart builds it anew.

use super::dkg::latest_verified;
use super::model::{keys_clone, EncryptedDkgShares, EncryptedDkgSharesView, PublicKey};
use super::store::Store;
use vstd::prelude::*;
use vstd::std_specs::convert::FromSpecImpl;

verus! {

/// The caps on what the signers may do. A cap that is `None` does not bind.
#[derive(Clone, Copy, Debug)]
pub struct SbtcLimits {
    /// The most sBTC that may exist, in satoshis.
    pub total_cap: Option<u64>,
    /// The least that one deposit may bring.
    pub per_deposit_minimum: Option<u64>,
    /// The most that one deposit may bring.
    pub per_deposit_cap: Option<u64>,
    /// The most that one withdrawal may take.
    pub per_withdrawal_cap: Option<u64>,
    /// The number of blocks over which withdrawals are summed.
    pub rolling_withdrawal_blocks: Option<u64>,
    /// The most that the withdrawals of that many blocks may take together.
    pub rolling_withdrawal_cap: Option<u64>,
    /// The most that may still be minted.
    pub max_mintable_cap: Option<u64>,
}

/// Whether two optional numbers are the same.
fn same_cap(a: Option<u64>, b: Option<u64>) -> (r: bool)
    ensures
        r == (a == b),
{
    match (a, b) {
        (Some(x), Some(y)) => x == y,
        (None, None) => true,
        _ => false,
    }
}

impl SbtcLimits {
    /// The limits under which nothing can be deposited or withdrawn: what a
    /// signer starts with.
    pub open spec fn spec_zero() -> SbtcLimits {
        SbtcLimits {
            total_cap: Some(0),
            per_deposit_minimum: Some(u64::MAX),
            per_deposit_cap: Some(0),
            per_withdrawal_cap: Some(0),
            rolling_withdrawal_blocks: Some(0),
            rolling_withdrawal_cap: Some(0),
            max_mintable_cap: Some(0),
        }
    }

    /// The limits that bind nothing.
    pub open spec fn spec_unlimited() -> SbtcLimits {
        SbtcLimits {
            total_cap: None,
            per_deposit_minimum: None,
            per_deposit_cap: None,
            per_withdrawal_cap: None,
            rolling_withdrawal_blocks: None,
            rolling_withdrawal_cap: None,
            max_mintable_cap: None,
        }
    }

    /// The limits under which nothing can be deposited or withdrawn.
    #[verifier::when_used_as_spec(spec_zero)]
    pub fn zero() -> (r: SbtcLimits)
        ensures
            r == SbtcLimits::spec_zero(),
    {
        SbtcLimits {
            total_cap: Some(0),
            per_deposit_minimum: Some(u64::MAX),
            per_deposit_cap: Some(0),
            per_withdrawal_cap: Some(0),
            rolling_withdrawal_blocks: Some(0),
            rolling_withdrawal_cap: Some(0),
            max_mintable_cap: Some(0),
        }
    }

    /// The limits that bind nothing.
    #[verifier::when_used_as_spec(spec_unlimited)]
    pub fn unlimited() -> (r: SbtcLimits)
        ensures
            r == SbtcLimits::spec_unlimited(),
    {
        SbtcLimits {
            total_cap: None,
            per_deposit_minimum: None,
            per_deposit_cap: None,
            per_withdrawal_cap: None,
            rolling_withdrawal_blocks: None,
            rolling_withdrawal_cap: None,
            max_mintable_cap: None,
        }
    }

    /// Whether two sets of limits are the same.
    pub fn same(&self, other: &SbtcLimits) -> (r: bool)
        ensures
            r == (*self == *other),
    {
        same_cap(self.total_cap, other.total_cap) && same_cap(
            self.per_deposit_minimum,
            other.per_deposit_minimum,
        ) && same_cap(self.per_deposit_cap, other.per_deposit_cap) && same_cap(
            self.per_withdrawal_cap,
            other.per_withdrawal_cap,
        ) && same_cap(self.rolling_withdrawal_blocks, other.rolling_withdrawal_blocks) && same_cap(
            self.rolling_withdrawal_cap,
            other.rolling_withdrawal_cap,
        ) && same_cap(self.max_mintable_cap, other.max_mintable_cap)
    }
}

/// The signer set as a key rotation recorded it.
#[derive(Debug)]
pub struct SignerSetInfo {
    /// The aggregate key of the set.
    pub aggregate_key: PublicKey,
    /// The public keys of the signers in the set.
    pub signer_set: Vec<PublicKey>,
    /// How many signatures a transaction of the set takes.
    pub signatures_required: u16,
}

/// Mathematical value of a [`SignerSetInfo`].
pub ghost struct SignerSetInfoView {
    pub aggregate_key: PublicKey,
    pub signer_set: Seq<PublicKey>,
    pub signatures_required: u16,
}

impl SignerSetInfoView {
    /// The signer set that the outcome `shares` of a key generation stands
    /// for.
    pub open spec fn from_shares(shares: EncryptedDkgSharesView) -> SignerSetInfoView {
        SignerSetInfoView {
            aggregate_key: shares.aggregate_key,
            signer_set: shares.signer_set_public_keys,
            signatures_required: shares.signature_share_threshold,
        }
    }
}

impl View for SignerSetInfo {
    type V = SignerSetInfoView;

    open spec fn view(&self) -> SignerSetInfoView {
        SignerSetInfoView {
            aggregate_key: self.aggregate_key,
            signer_set: self.signer_set@,
            signatures_required: self.signatures_required,
        }
    }
}

impl Clone for SignerSetInfo {
    fn clone(&self) -> (r: Self)
        ensures
            r@ == self@,
    {
        SignerSetInfo {
            aggregate_key: self.aggregate_key,
            signer_set: keys_clone(&self.signer_set),
            signatures_required: self.signatures_required,
        }
    }
}

impl From<EncryptedDkgShares> for SignerSetInfo {
    fn from(shares: EncryptedDkgShares) -> (r: Self) {
        SignerSetInfo {
            aggregate_key: shares.aggregate_key,
            signer_set: shares.signer_set_public_keys,
            signatures_required: shares.signature_share_threshold,
        }
    }
}

impl FromSpecImpl<EncryptedDkgShares> for SignerSetInfo {
    open spec fn obeys_from_spec() -> bool {
        true
    }

    open spec fn from_spec(shares: EncryptedDkgShares) -> Self {
        SignerSetInfo {
            aggregate_key: shares.aggregate_key,
            signer_set: shares.signer_set_public_keys,
            signatures_required: shares.signature_share_threshold,
        }
    }
}

impl SignerSetInfo {
    /// The signer set that the outcome `shares` of a key generation stands
    /// for.
    pub fn from_shares(shares: &EncryptedDkgShares) -> (r: Self)
        ensures
            r@ == SignerSetInfoView::from_shares(shares@),
    {
        SignerSetInfo {
            aggregate_key: shares.aggregate_key,
            signer_set: keys_clone(&shares.signer_set_public_keys),
            signatures_required: shares.signature_share_threshold,
        }
    }
}

/// Mathematical value of an optional signer set.
pub open spec fn info_view(info: Option<SignerSetInfo>) -> Option<SignerSetInfoView> {
    match info {
        Some(i) => Some(i@),
        None => None,
    }
}

/// The state that the signer's parts share.
#[derive(Debug)]
pub struct SignerState {
    current_limits: SbtcLimits,
    registry_signer_set_info: Option<SignerSetInfo>,
    sbtc_contracts_deployed: bool,
    sbtc_bitcoin_start_height: u64,
}

/// Mathematical value of a [`SignerState`].
pub ghost struct SignerStateView {
    /// The limits in force.
    pub current_limits: SbtcLimits,
    /// The signer set, once one is known.
    pub registry_signer_set_info: Option<SignerSetInfoView>,
    /// Whether the sBTC contracts were ever seen deployed.
    pub sbtc_contracts_deployed: bool,
    /// The height at which the signers start to observe the Bitcoin chain.
    pub sbtc_bitcoin_start_height: u64,
}

impl SignerStateView {
    /// The state that a signer starts with.
    pub open spec fn initial(start_height: u64) -> SignerStateView {
        SignerStateView {
            current_limits: SbtcLimits::spec_zero(),
            registry_signer_set_info: None,
            sbtc_contracts_deployed: false,
            sbtc_bitcoin_start_height: start_height,
        }
    }

    /// The state after a refresh that fetched the limits `limits`, saw the
    /// contracts deployed or not, got the key-rotation record `registry`
    /// from the chain, and found `verified_shares` to be the latest
    /// verified shares of the store.
    ///
    /// The limits are the fetched ones. The contracts count as deployed if
    /// they ever were seen so. The signer set is that of the key-rotation
    /// record, if the contracts are deployed and there is one; else that
    /// of the verified shares, if there are any; else what it was.
    pub open spec fn refreshed(
        self,
        limits: SbtcLimits,
        deployed_seen: bool,
        registry: Option<SignerSetInfoView>,
        verified_shares: Option<EncryptedDkgSharesView>,
    ) -> SignerStateView {
        let deployed = self.sbtc_contracts_deployed || deployed_seen;
        SignerStateView {
            current_limits: limits,
            registry_signer_set_info: if deployed && registry is Some {
                registry
            } else if verified_shares is Some {
                Some(SignerSetInfoView::from_shares(verified_shares.unwrap()))
            } else {
                self.registry_signer_set_info
            },
            sbtc_contracts_deployed: deployed,
            sbtc_bitcoin_start_height: self.sbtc_bitcoin_start_height,
        }
    }
}

impl View for SignerState {
    type V = SignerStateView;

    closed spec fn view(&self) -> SignerStateView {
        SignerStateView {
            current_limits: self.current_limits,
            registry_signer_set_info: info_view(self.registry_signer_set_info),
            sbtc_contracts_deployed: self.sbtc_contracts_deployed,
            sbtc_bitcoin_start_height: self.sbtc_bitcoin_start_height,
        }
    }
}

impl SignerState {
    /// The state that a signer starts with: limits under which nothing
    /// moves, no signer set, contracts not deployed.
    pub fn new(start_height: u64) -> (r: Self)
        ensures
            r@ == SignerStateView::initial(start_height),
    {
        SignerState {
            current_limits: SbtcLimits::zero(),
            registry_signer_set_info: None,
            sbtc_contracts_deployed: false,
            sbtc_bitcoin_start_height: start_height,
        }
    }

    /// The limits in force.
    pub fn get_current_limits(&self) -> (r: SbtcLimits)
        ensures
            r == self@.current_limits,
    {
        self.current_limits
    }

    /// Puts `limits` in force.
    pub fn update_current_limits(&mut self, limits: SbtcLimits)
        ensures
            final(self)@ == (SignerStateView { current_limits: limits, ..old(self)@ }),
    {
        self.current_limits = limits;
    }

    /// The signer set, once one is known.
    pub fn registry_signer_set_info(&self) -> (r: Option<SignerSetInfo>)
        ensures
            info_view(r) == self@.registry_signer_set_info,
    {
        match &self.registry_signer_set_info {
            Some(info) => Some(info.clone()),
            None => None,
        }
    }

    /// Whether the sBTC contracts were ever seen deployed.
    pub fn sbtc_contracts_deployed(&self) -> (r: bool)
        ensures
            r == self@.sbtc_contracts_deployed,
    {
        self.sbtc_contracts_deployed
    }

    /// Takes note that the sBTC contracts are deployed.
    pub fn set_sbtc_contracts_deployed(&mut self)
        ensures
            final(self)@ == (SignerStateView { sbtc_contracts_deployed: true, ..old(self)@ }),
    {
        self.sbtc_contracts_deployed = true;
    }

    /// The height at which the signers start to observe the Bitcoin chain.
    pub fn get_sbtc_bitcoin_start_height(&self) -> (r: u64)
        ensures
            r == self@.sbtc_bitcoin_start_height,
    {
        self.sbtc_bitcoin_start_height
    }

    /// Refreshes the state after a chain tip was processed, from the
    /// limits that were fetched, whether the contracts were seen deployed,
    /// the key-rotation record that the chain gave, if it gave one, and the
    /// latest verified shares of `store`.
    ///
    /// Once the contracts were seen deployed they count as deployed for
    /// good.
    pub fn refresh(
        &mut self,
        limits: SbtcLimits,
        deployed_seen: bool,
        registry: Option<SignerSetInfo>,
        store: &Store,
    )
        ensures
            final(self)@ == old(self)@.refreshed(
                limits,
                deployed_seen,
                info_view(registry),
                latest_verified(store@.dkg_shares),
            ),
            old(self)@.sbtc_contracts_deployed ==> final(self)@.sbtc_contracts_deployed,
    {
        self.current_limits = limits;
        if deployed_seen {
            self.sbtc_contracts_deployed = true;
        }
        let from_chain = if self.sbtc_contracts_deployed {
            registry
        } else {
            None
        };
        match from_chain {
            Some(info) => {
                self.registry_signer_set_info = Some(info);
            },
            None => {
                match store.get_latest_verified_dkg_shares() {
                    Some(shares) => {
                        self.registry_signer_set_info = Some(SignerSetInfo::from_shares(&shares));
                    },
                    None => {},
                }
            },
        }
    }
}

/// Once the contracts were seen deployed they stay so through every refresh;
/// and every refresh puts the fetched limits in force and keeps the start
/// height.
pub proof fn law_deployed_contracts_stay_deployed(
    state: SignerStateView,
    limits: SbtcLimits,
    deployed_seen: bool,
    registry: Option<SignerSetInfoView>,
    verified_shares: Option<EncryptedDkgSharesView>,
)
    ensures
        ({
            let after = state.refreshed(limits, deployed_seen, registry, verified_shares);
            &&& state.sbtc_contracts_deployed || deployed_seen ==> after.sbtc_contracts_deployed
            &&& after.current_limits == limits
            &&& after.sbtc_bitcoin_start_height == state.sbtc_bitcoin_start_height
            &&& state.registry_signer_set_info is Some ==> after.registry_signer_set_info is Some
        }),
{
}

} // verus!
