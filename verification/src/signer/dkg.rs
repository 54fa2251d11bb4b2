//! The verification window of distributed key generation.
//!
//! Shares that a round of key generation produced start out unverified.
//! They stay pending while the chain tip is within the verification window
//! of the height at which the round started; the first tip beyond it makes
//! them failed. Verified and failed shares stay what they are. While shares
//! are pending, no new round may start.

use super::model::{DkgSharesStatus, EncryptedDkgShares, EncryptedDkgSharesView, PublicKey};
use vstd::prelude::*;

verus! {

impl EncryptedDkgSharesView {
    /// Whether the shares wait to be verified.
    pub open spec fn is_pending(self) -> bool {
        self.dkg_shares_status == DkgSharesStatus::Unverified
    }

    /// Whether the shares have waited too long when the chain tip is at
    /// `chain_tip_height`: they are pending, and the tip is more than
    /// `verification_window` blocks above the height at which their round
    /// started.
    pub open spec fn is_overdue(self, chain_tip_height: u64, verification_window: u64) -> bool {
        self.is_pending() && chain_tip_height > self.started_at_bitcoin_block_height
            + verification_window
    }

    /// The shares after a chain tip at `chain_tip_height` was observed:
    /// failed if they were overdue, else as before.
    pub open spec fn observed(
        self,
        chain_tip_height: u64,
        verification_window: u64,
    ) -> EncryptedDkgSharesView {
        if self.is_overdue(chain_tip_height, verification_window) {
            EncryptedDkgSharesView { dkg_shares_status: DkgSharesStatus::Failed, ..self }
        } else {
            self
        }
    }

    /// The shares after they were settled as `status`, if they are the
    /// pending shares of the aggregate key `key`; else as they are.
    pub open spec fn settled(
        self,
        key: PublicKey,
        status: DkgSharesStatus,
    ) -> EncryptedDkgSharesView {
        if self.is_pending() && self.aggregate_key == key {
            EncryptedDkgSharesView { dkg_shares_status: status, ..self }
        } else {
            self
        }
    }

    /// The shares after chain tips at `heights` were observed, first to
    /// last.
    pub open spec fn observed_all(
        self,
        heights: Seq<u64>,
        verification_window: u64,
    ) -> EncryptedDkgSharesView
        decreases heights.len(),
    {
        if heights.len() == 0 {
            self
        } else {
            self.observed_all(heights.drop_last(), verification_window).observed(
                heights.last(),
                verification_window,
            )
        }
    }
}

/// The number of shares among `shares` that have not failed.
pub open spec fn live_count(shares: Seq<EncryptedDkgSharesView>) -> nat
    decreases shares.len(),
{
    if shares.len() == 0 {
        0
    } else {
        live_count(shares.drop_last()) + if shares.last().dkg_shares_status
            == DkgSharesStatus::Failed {
            0nat
        } else {
            1nat
        }
    }
}

/// The verified shares that come last among `shares`.
pub open spec fn latest_verified(shares: Seq<EncryptedDkgSharesView>) -> Option<
    EncryptedDkgSharesView,
>
    decreases shares.len(),
{
    if shares.len() == 0 {
        None
    } else if shares.last().dkg_shares_status == DkgSharesStatus::Verified {
        Some(shares.last())
    } else {
        latest_verified(shares.drop_last())
    }
}

/// The custody scripts of the verified shares among `shares`, in their
/// order: the scripts that lock or have locked the signers' funds.
pub open spec fn verified_scripts(shares: Seq<EncryptedDkgSharesView>) -> Seq<Seq<u8>>
    decreases shares.len(),
{
    if shares.len() == 0 {
        Seq::empty()
    } else {
        let before = verified_scripts(shares.drop_last());
        if shares.last().dkg_shares_status == DkgSharesStatus::Verified {
            before.push(shares.last().script_pubkey)
        } else {
            before
        }
    }
}

/// Whether any of `shares` wait to be verified.
pub open spec fn any_pending(shares: Seq<EncryptedDkgSharesView>) -> bool {
    exists|i: int| 0 <= i < shares.len() && (#[trigger] shares[i]).is_pending()
}

/// Each of `shares` after a chain tip at `chain_tip_height` was observed.
pub open spec fn all_observed(
    shares: Seq<EncryptedDkgSharesView>,
    chain_tip_height: u64,
    verification_window: u64,
) -> Seq<EncryptedDkgSharesView> {
    shares.map_values(
        |s: EncryptedDkgSharesView| s.observed(chain_tip_height, verification_window),
    )
}

/// Each of `shares` after the pending shares of the aggregate key `key`
/// were settled as `status`.
pub open spec fn all_settled(
    shares: Seq<EncryptedDkgSharesView>,
    key: PublicKey,
    status: DkgSharesStatus,
) -> Seq<EncryptedDkgSharesView> {
    shares.map_values(|s: EncryptedDkgSharesView| s.settled(key, status))
}

/// Whether any of `shares` are the pending shares of the aggregate key
/// `key`.
pub open spec fn any_pending_for(shares: Seq<EncryptedDkgSharesView>, key: PublicKey) -> bool {
    exists|i: int|
        0 <= i < shares.len() && (#[trigger] shares[i]).is_pending() && shares[i].aggregate_key
            == key
}

impl EncryptedDkgShares {
    /// Whether the shares wait to be verified.
    pub fn is_pending(&self) -> (r: bool)
        ensures
            r == self@.is_pending(),
    {
        match self.dkg_shares_status {
            DkgSharesStatus::Unverified => true,
            _ => false,
        }
    }

    /// Whether the shares have waited too long when the chain tip is at
    /// `chain_tip_height`.
    pub fn is_overdue(&self, chain_tip_height: u64, verification_window: u64) -> (r: bool)
        ensures
            r == self@.is_overdue(chain_tip_height, verification_window),
    {
        self.is_pending() && chain_tip_height > self.started_at_bitcoin_block_height
            && chain_tip_height - self.started_at_bitcoin_block_height > verification_window
    }

    /// Settles the shares as `status` if they are the pending shares of the
    /// aggregate key `key`. Says whether it did.
    pub fn settle(&mut self, key: &PublicKey, status: DkgSharesStatus) -> (changed: bool)
        ensures
            final(self)@ == old(self)@.settled(*key, status),
            changed == (old(self)@.is_pending() && old(self)@.aggregate_key == *key),
    {
        if self.is_pending() && self.aggregate_key.same(key) {
            self.dkg_shares_status = status;
            true
        } else {
            false
        }
    }

    /// Takes note of a chain tip at `chain_tip_height`: marks the shares as
    /// failed if they were overdue. Says whether it did.
    pub fn observe(&mut self, chain_tip_height: u64, verification_window: u64) -> (failed: bool)
        ensures
            final(self)@ == old(self)@.observed(chain_tip_height, verification_window),
            failed == old(self)@.is_overdue(chain_tip_height, verification_window),
    {
        if self.is_overdue(chain_tip_height, verification_window) {
            self.dkg_shares_status = DkgSharesStatus::Failed;
            true
        } else {
            false
        }
    }
}

/// Observing tips leaves shares pending as long as none of the tips is
/// beyond the verification window: shares of a round started at height H
/// stay unverified through the tips at H+1, .., H+W, where W is the
/// window, however many of them are observed.
pub proof fn law_shares_pending_within_window(
    shares: EncryptedDkgSharesView,
    heights: Seq<u64>,
    verification_window: u64,
)
    requires
        forall|i: int|
            0 <= i < heights.len() ==> heights[i] <= shares.started_at_bitcoin_block_height
                + verification_window,
    ensures
        shares.observed_all(heights, verification_window) == shares,
    decreases heights.len(),
{
    if heights.len() > 0 {
        let front = heights.drop_last();
        assert forall|i: int| 0 <= i < front.len() implies front[i]
            <= shares.started_at_bitcoin_block_height + verification_window by {
            assert(front[i] == heights[i]);
        }
        law_shares_pending_within_window(shares, front, verification_window);
        assert(heights.last() == heights[heights.len() - 1]);
    }
}

/// The first tip beyond the verification window makes pending shares
/// failed, and failed shares are not pending.
pub proof fn law_shares_fail_beyond_window(
    shares: EncryptedDkgSharesView,
    chain_tip_height: u64,
    verification_window: u64,
)
    requires
        shares.is_pending(),
        chain_tip_height > shares.started_at_bitcoin_block_height + verification_window,
    ensures
        shares.observed(chain_tip_height, verification_window).dkg_shares_status
            == DkgSharesStatus::Failed,
        !shares.observed(chain_tip_height, verification_window).is_pending(),
        live_count(seq![shares.observed(chain_tip_height, verification_window)]) == 0,
        !any_pending(seq![shares.observed(chain_tip_height, verification_window)]),
{
    let failed = shares.observed(chain_tip_height, verification_window);
    assert(seq![failed].drop_last() =~= Seq::empty());
    assert(live_count(seq![failed].drop_last()) == 0);
}

/// Shares that are verified or failed stay so, whatever tips are observed.
pub proof fn law_settled_shares_stay(
    shares: EncryptedDkgSharesView,
    heights: Seq<u64>,
    verification_window: u64,
)
    requires
        !shares.is_pending(),
    ensures
        shares.observed_all(heights, verification_window) == shares,
    decreases heights.len(),
{
    if heights.len() > 0 {
        law_settled_shares_stay(shares, heights.drop_last(), verification_window);
    }
}

/// After any tips, pending shares are failed exactly if one of the tips was
/// beyond the verification window; nothing else of them changes.
pub proof fn law_shares_after_tips(
    shares: EncryptedDkgSharesView,
    heights: Seq<u64>,
    verification_window: u64,
)
    requires
        shares.is_pending(),
    ensures
        shares.observed_all(heights, verification_window) == if exists|i: int|
            0 <= i < heights.len() && #[trigger] heights[i] > shares.started_at_bitcoin_block_height
                + verification_window {
            EncryptedDkgSharesView { dkg_shares_status: DkgSharesStatus::Failed, ..shares }
        } else {
            shares
        },
    decreases heights.len(),
{
    if heights.len() > 0 {
        let front = heights.drop_last();
        let limit = shares.started_at_bitcoin_block_height + verification_window;
        law_shares_after_tips(shares, front, verification_window);
        if exists|i: int| 0 <= i < front.len() && #[trigger] front[i] > limit {
            let i = choose|i: int| 0 <= i < front.len() && #[trigger] front[i] > limit;
            assert(heights[i] == front[i]);
        } else if heights.last() > limit {
            assert(heights[heights.len() - 1] > limit);
        } else {
            if exists|i: int| 0 <= i < heights.len() && #[trigger] heights[i] > limit {
                let i = choose|i: int| 0 <= i < heights.len() && #[trigger] heights[i] > limit;
                if i < front.len() {
                    assert(front[i] == heights[i]);
                }
            }
        }
    }
}

} // verus!
