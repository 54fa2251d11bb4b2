//! Made-up chain data to fill a store with.

pub mod blocks;
pub mod data;
pub mod generate;
pub mod requests;
pub mod tx_info;

pub use blocks::{anchored_to, is_child_block, stacks_chained, stacks_per_block};
pub use data::{
    contains_row, difference, vec_diff, written, Params, StacksBlockSummary, TestData,
    TestDataView, UNKNOWN_PARENT_HEIGHT,
};
pub use generate::{are_new_blocks, built_from, follows, next_parent, parent_for};
pub use requests::{
    decides_deposit, decides_withdrawal, max_request_id, signers_per_request, to_x_only, x_only,
    DepositData, DepositDataView, WithdrawData, WithdrawDataView,
};
pub use tx_info::{test_infos_view, PrevoutRef, TestBitcoinTxInfo, TestBitcoinTxInfoView};
