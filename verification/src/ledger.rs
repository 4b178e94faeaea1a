//! The ledger as a mathematical object: its state, and every operation as a
//! function from the state before to the state after.
//!
//! An operation either succeeds, with a new state and a result, or fails with
//! a [`LedgerError`]. A failure has no new state: the ledger stays as it was.

use crate::bloom::{delete_each, insert_each};
use crate::fraction::{floor_share, percent_parts, rational_parts};
use crate::miner::MinerInfoView;
use crate::registry::sha2_256_digest;
use crate::types::{
    AccountId, Accumulator, Balance, BlockNumber, Config, LedgerError, MinerState,
    RestoralTargetInfo, RewardOrder, RewardView, TeeSig,
};
use vstd::prelude::*;

verus! {

/// The penalty of a miner that has not earned anything yet.
pub const MINIMAL_PUNISH: Balance = 100;

/// What became of a round's reward for one miner.
#[derive(Clone, Copy, Debug, PartialEq, Eq)]
pub enum Settlement {
    /// The miner already holds as many orders as it may: nothing was recorded.
    Skipped,
    /// A new order was recorded. The reward pool owes `order_reward` for it:
    /// the caller debits the pool, and undoes the settlement if that fails.
    Admitted { order_reward: Balance },
}

/// What happens to the collateral of a miner that leaves.
#[derive(Clone, Copy, Debug, PartialEq, Eq)]
pub enum CollateralRelease {
    /// The miner has no reward record: its collateral stays reserved.
    Untouched,
    /// The miner never earned a reward: the caller unreserves `amount` for
    /// `staking_account` at once.
    Immediate { staking_account: AccountId, amount: Balance },
    /// The miner earned rewards: the caller returns `residue_reward` to the
    /// reward pool, and the collateral is released at `exec_block`.
    Deferred { residue_reward: Balance, exec_block: BlockNumber },
}

/// What the caller has to settle with the other ledgers after an exit.
#[derive(Clone, Copy, Debug, PartialEq, Eq)]
pub struct ExitReceipt {
    /// What happens to the collateral.
    pub collateral: CollateralRelease,
    /// The idle and locked space that leaves the network's total idle space.
    pub idle_space_removed: u128,
}

/// The state of the ledger.
#[verifier::ext_equal]
pub struct PalletView {
    /// The fixed policy.
    pub config: Config,
    /// The active miners, in the order in which they joined.
    pub all_miner: Seq<AccountId>,
    /// The space record of every miner.
    pub miner_items: Map<AccountId, MinerInfoView>,
    /// The reward record of every miner.
    pub reward_map: Map<AccountId, RewardView>,
    /// The block at which each miner began to stake.
    pub staking_start_block: Map<AccountId, BlockNumber>,
    /// The collateral to release at a block: staking account and amount.
    pub return_staking_schedule: Map<BlockNumber, Seq<(AccountId, Balance)>>,
    /// The space that departed miners left for others to take over.
    pub restoral_target: Map<AccountId, RestoralTargetInfo>,
    /// The account that each proof key, by its digest, is bound to.
    pub miner_public_key: Map<Seq<u8>, AccountId>,
    /// The replacement space that each miner has yet to fill.
    pub pending_replacements: Map<AccountId, u128>,
}

/// The accounts of `list` other than `acc`, in their order.
pub open spec fn without_account(list: Seq<AccountId>, acc: AccountId) -> Seq<AccountId> {
    list.filter(|a: AccountId| a != acc)
}

/// The part of `limit` that the `count`-th violation in a row costs: nothing
/// for the first, 5 percent for the second, 15 percent for any other count.
pub open spec fn escalation(limit: Balance, count: u8) -> nat {
    if count == 1 {
        0
    } else if count == 2 {
        floor_share(percent_parts(5), limit as nat)
    } else {
        floor_share(percent_parts(15), limit as nat)
    }
}

impl PalletView {
    /// Whether no miner has retired more idle segments than it has committed.
    pub open spec fn cursors_in_order(self) -> bool {
        forall|a: AccountId| #[trigger]
            self.miner_items.contains_key(a) ==> self.miner_items[a].space_proof_info.in_order()
    }

    /// The rules that hold of the ledger at all times: no miner holds more
    /// space than it declared, no miner has retired more idle segments than it
    /// has committed, no miner has more reward orders than there are
    /// installments, and no block has more releases than the schedule allows.
    pub open spec fn inv(self) -> bool {
        &&& forall|a: AccountId| #[trigger]
            self.miner_items.contains_key(a) ==> self.miner_items[a].within_declaration()
        &&& self.cursors_in_order()
        &&& forall|a: AccountId| #[trigger]
            self.reward_map.contains_key(a) ==> self.reward_map[a].order_list.len()
                <= self.config.release_number
        &&& forall|b: BlockNumber| #[trigger]
            self.return_staking_schedule.contains_key(b)
                ==> self.return_staking_schedule[b].len() <= self.config.schedule_limit
    }

    /// The state of a ledger without miners, under the policy `config`.
    pub open spec fn empty(config: Config) -> PalletView {
        PalletView {
            config,
            all_miner: Seq::empty(),
            miner_items: Map::empty(),
            reward_map: Map::empty(),
            staking_start_block: Map::empty(),
            return_staking_schedule: Map::empty(),
            restoral_target: Map::empty(),
            miner_public_key: Map::empty(),
            pending_replacements: Map::empty(),
        }
    }

    /// The state in which `acc` has the space record `info`.
    pub open spec fn with_miner(self, acc: AccountId, info: MinerInfoView) -> PalletView {
        PalletView { miner_items: self.miner_items.insert(acc, info), ..self }
    }

    /// The record `info` is filed for `acc`. A record that breaks the
    /// capacity rule, or whose cursor is out of order, is refused.
    pub open spec fn file_miner(self, acc: AccountId, info: MinerInfoView) -> Result<
        (PalletView, ()),
        LedgerError,
    > {
        if !info.within_declaration() {
            Err(LedgerError::ExceedingDeclarationSpace)
        } else if !info.space_proof_info.in_order() {
            Err(LedgerError::CountError)
        } else {
            Ok((self.with_miner(acc, info), ()))
        }
    }

    /// The releases scheduled for `block`.
    pub open spec fn releases_at(self, block: BlockNumber) -> Seq<(AccountId, Balance)> {
        if self.return_staking_schedule.contains_key(block) {
            self.return_staking_schedule[block]
        } else {
            Seq::empty()
        }
    }

    /// A miner commits idle segments up to `new_rear`.
    pub open spec fn commit_idle_growth(
        self,
        acc: AccountId,
        accumulator: Accumulator,
        expected_front: u64,
        new_rear: u64,
        signature: TeeSig,
    ) -> Result<(PalletView, u128), LedgerError> {
        if !self.miner_items.contains_key(acc) {
            Err(LedgerError::NotMiner)
        } else {
            match self.miner_items[acc].commit_idle_growth(
                self.config.idle_seg_size,
                accumulator,
                expected_front,
                new_rear,
                signature,
            ) {
                Ok((next, added)) => Ok((self.with_miner(acc, next), added)),
                Err(e) => Err(e),
            }
        }
    }

    /// A miner retires idle segments up to `new_front`.
    pub open spec fn commit_idle_retirement(
        self,
        acc: AccountId,
        accumulator: Accumulator,
        new_front: u64,
        expected_rear: u64,
        signature: TeeSig,
    ) -> Result<(PalletView, u64), LedgerError> {
        if !self.miner_items.contains_key(acc) {
            Err(LedgerError::NotMiner)
        } else {
            match self.miner_items[acc].commit_idle_retirement(
                accumulator,
                new_front,
                expected_rear,
                signature,
            ) {
                Ok((next, count)) => Ok((self.with_miner(acc, next), count)),
                Err(e) => Err(e),
            }
        }
    }

    /// A miner gives up `bytes` of idle space.
    pub open spec fn apply_idle_shrink(self, acc: AccountId, bytes: u128) -> Result<
        (PalletView, ()),
        LedgerError,
    > {
        if !self.miner_items.contains_key(acc) {
            Err(LedgerError::NotMiner)
        } else {
            match self.miner_items[acc].apply_idle_shrink(bytes) {
                Ok(next) => Ok((self.with_miner(acc, next), ())),
                Err(e) => Err(e),
            }
        }
    }

    /// A miner takes on `bytes` of service space. Nothing happens for an
    /// account without a record, or for a miner that has departed.
    pub open spec fn grow_service_space(self, acc: AccountId, bytes: u128) -> Result<
        (PalletView, ()),
        LedgerError,
    > {
        if !self.miner_items.contains_key(acc) {
            Ok((self, ()))
        } else {
            match self.miner_items[acc].grow_service_space(bytes) {
                Ok(next) => Ok((self.with_miner(acc, next), ())),
                Err(e) => Err(e),
            }
        }
    }

    /// A miner lets go of `bytes` of service space. Nothing happens for an
    /// account without a record, or for a miner that has departed.
    pub open spec fn shrink_service_space(self, acc: AccountId, bytes: u128) -> Result<
        (PalletView, ()),
        LedgerError,
    > {
        if !self.miner_items.contains_key(acc) {
            Ok((self, ()))
        } else {
            match self.miner_items[acc].shrink_service_space(bytes) {
                Ok(next) => Ok((self.with_miner(acc, next), ())),
                Err(e) => Err(e),
            }
        }
    }

    /// A miner registers the files with the fingerprints `list`.
    pub open spec fn register_service_files(self, acc: AccountId, list: Seq<Seq<u8>>) -> Result<
        (PalletView, ()),
        LedgerError,
    > {
        if !self.miner_items.contains_key(acc) {
            Err(LedgerError::NotMiner)
        } else {
            let info = self.miner_items[acc];
            let (counters, complete) = insert_each(info.service_bloom_filter, list);
            if complete {
                Ok(
                    (
                        self.with_miner(
                            acc,
                            MinerInfoView { service_bloom_filter: counters, ..info },
                        ),
                        (),
                    ),
                )
            } else {
                Err(LedgerError::FilterCapacityError)
            }
        }
    }

    /// A miner deregisters the files with the fingerprints `list`.
    pub open spec fn deregister_service_files(self, acc: AccountId, list: Seq<Seq<u8>>) -> Result<
        (PalletView, ()),
        LedgerError,
    > {
        if !self.miner_items.contains_key(acc) {
            Err(LedgerError::NotMiner)
        } else {
            let info = self.miner_items[acc];
            let (counters, complete) = delete_each(info.service_bloom_filter, list);
            if complete {
                Ok(
                    (
                        self.with_miner(
                            acc,
                            MinerInfoView { service_bloom_filter: counters, ..info },
                        ),
                        (),
                    ),
                )
            } else {
                Err(LedgerError::FilterCapacityError)
            }
        }
    }

    /// The reward of a miner with the power `miner_power` for a round in which
    /// all miners together have the power `total_power` and the pool pays
    /// `reward_base`.
    pub open spec fn round_reward(total_power: u128, miner_power: u128, reward_base: Balance) -> nat {
        floor_share(rational_parts(miner_power as nat, total_power as nat), reward_base as nat)
    }

    /// The order that admits `round_reward` for release in installments.
    pub open spec fn new_order(self, round_reward: Balance, now: BlockNumber) -> RewardOrder {
        RewardOrder {
            receive_count: 0,
            max_count: self.config.release_number,
            atonce: false,
            order_reward: round_reward,
            each_amount: (floor_share(self.config.installment_share@, round_reward as nat) / (
            self.config.release_number as nat)) as u128,
            last_receive_block: now,
        }
    }

    /// A round's reward is settled for `miner` at block `now`.
    pub open spec fn settle_round_reward(
        self,
        miner: AccountId,
        total_power: u128,
        miner_power: u128,
        reward_base: Balance,
        now: BlockNumber,
    ) -> Result<(PalletView, Settlement), LedgerError> {
        let round_reward = Self::round_reward(total_power, miner_power, reward_base) as u128;
        if self.config.release_number == 0 {
            Err(LedgerError::Overflow)
        } else if !self.reward_map.contains_key(miner) {
            Err(LedgerError::Unexpected)
        } else {
            let reward = self.reward_map[miner];
            if reward.order_list.len() == self.config.release_number {
                Ok((self, Settlement::Skipped))
            } else if reward.total_reward + round_reward > u128::MAX {
                Err(LedgerError::Overflow)
            } else if reward.order_list.len() > self.config.release_number {
                Err(LedgerError::ScheduleCapacityError)
            } else {
                Ok(
                    (
                        PalletView {
                            reward_map: self.reward_map.insert(
                                miner,
                                RewardView {
                                    total_reward: (reward.total_reward + round_reward) as u128,
                                    order_list: reward.order_list.push(
                                        self.new_order(round_reward, now),
                                    ),
                                    ..reward
                                },
                            ),
                            ..self
                        },
                        Settlement::Admitted { order_reward: round_reward },
                    ),
                )
            }
        }
    }

    /// The penalty for a failed idle proof of a miner whose penalties are
    /// capped at `limit`.
    pub open spec fn idle_penalty(self, miner: AccountId, limit: Balance) -> Result<
        Balance,
        LedgerError,
    > {
        if !self.miner_items.contains_key(miner) {
            Err(LedgerError::NotMiner)
        } else {
            Ok(floor_share(self.config.idle_punish_ratio@, limit as nat) as u128)
        }
    }

    /// The penalty for a failed service proof of a miner whose penalties are
    /// capped at `limit`.
    pub open spec fn service_penalty(self, miner: AccountId, limit: Balance) -> Result<
        Balance,
        LedgerError,
    > {
        if !self.miner_items.contains_key(miner) {
            Err(LedgerError::NotMiner)
        } else {
            Ok(floor_share(self.config.service_punish_ratio@, limit as nat) as u128)
        }
    }

    /// The penalty for the `count`-th missed proof in a row. A miner that has
    /// not earned anything pays the minimal penalty, whatever the count.
    pub open spec fn escalating_penalty(self, miner: AccountId, limit: Balance, count: u8) -> Result<
        Balance,
        LedgerError,
    > {
        if !self.reward_map.contains_key(miner) {
            Err(LedgerError::NotMiner)
        } else if self.reward_map[miner].total_reward == 0 {
            Ok(MINIMAL_PUNISH)
        } else {
            Ok(escalation(limit, count) as u128)
        }
    }

    /// What happens to the collateral of `acc` when it leaves, and the release
    /// schedule afterwards.
    pub open spec fn collateral_on_exit(self, acc: AccountId) -> Result<
        (Map<BlockNumber, Seq<(AccountId, Balance)>>, CollateralRelease),
        LedgerError,
    > {
        let info = self.miner_items[acc];
        if !self.reward_map.contains_key(acc) {
            Ok((self.return_staking_schedule, CollateralRelease::Untouched))
        } else if self.reward_map[acc].total_reward == 0 {
            Ok(
                (
                    self.return_staking_schedule,
                    CollateralRelease::Immediate {
                        staking_account: info.staking_account,
                        amount: info.collaterals,
                    },
                ),
            )
        } else {
            let reward = self.reward_map[acc];
            let exec_block = self.staking_start_block[acc] + self.config.staking_lock_block;
            if reward.reward_issued > reward.total_reward {
                Err(LedgerError::Overflow)
            } else if !self.staking_start_block.contains_key(acc) {
                Err(LedgerError::BugInvalid)
            } else if exec_block > BlockNumber::MAX {
                Err(LedgerError::Overflow)
            } else if self.releases_at(exec_block as BlockNumber).len()
                >= self.config.schedule_limit {
                Err(LedgerError::ScheduleCapacityError)
            } else {
                Ok(
                    (
                        self.return_staking_schedule.insert(
                            exec_block as BlockNumber,
                            self.releases_at(exec_block as BlockNumber).push(
                                (info.staking_account, info.collaterals),
                            ),
                        ),
                        CollateralRelease::Deferred {
                            residue_reward: (reward.total_reward - reward.reward_issued) as u128,
                            exec_block: exec_block as BlockNumber,
                        },
                    ),
                )
            }
        }
    }

    /// A miner leaves the network. The caller has made sure that it may.
    pub open spec fn exit_miner(self, acc: AccountId) -> Result<
        (PalletView, ExitReceipt),
        LedgerError,
    > {
        if !self.miner_items.contains_key(acc) {
            Err(LedgerError::Unexpected)
        } else {
            let info = self.miner_items[acc];
            match self.collateral_on_exit(acc) {
                Err(e) => Err(e),
                Ok((schedule, collateral)) => {
                    if info.idle_space + info.lock_space > u128::MAX || info.service_space
                        + info.lock_space > u128::MAX {
                        Err(LedgerError::Overflow)
                    } else {
                        Ok(
                            (
                                PalletView {
                                    config: self.config,
                                    all_miner: without_account(self.all_miner, acc),
                                    miner_items: self.miner_items.insert(
                                        acc,
                                        MinerInfoView { state: MinerState::Offline, ..info },
                                    ),
                                    reward_map: self.reward_map.remove(acc),
                                    staking_start_block: self.staking_start_block,
                                    return_staking_schedule: schedule,
                                    restoral_target: self.restoral_target.insert(
                                        acc,
                                        RestoralTargetInfo {
                                            service_space: (info.service_space
                                                + info.lock_space) as u128,
                                            restored_space: 0,
                                        },
                                    ),
                                    miner_public_key: self.miner_public_key.remove(
                                        sha2_256_digest(info.space_proof_info.pois_key.encoding()),
                                    ),
                                    pending_replacements: self.pending_replacements.remove(acc),
                                },
                                ExitReceipt {
                                    collateral,
                                    idle_space_removed: (info.idle_space + info.lock_space) as u128,
                                },
                            ),
                        )
                    }
                },
            }
        }
    }

    /// Other miners have taken over `bytes` of the space that `miner` left.
    pub open spec fn absorb_restoral(self, miner: AccountId, bytes: u128) -> Result<
        (PalletView, ()),
        LedgerError,
    > {
        if !self.restoral_target.contains_key(miner) {
            Err(LedgerError::NotExisted)
        } else {
            let target = self.restoral_target[miner];
            if target.restored_space + bytes > u128::MAX {
                Err(LedgerError::Overflow)
            } else {
                Ok(
                    (
                        PalletView {
                            restoral_target: self.restoral_target.insert(
                                miner,
                                RestoralTargetInfo {
                                    restored_space: (target.restored_space + bytes) as u128,
                                    ..target
                                },
                            ),
                            ..self
                        },
                        (),
                    ),
                )
            }
        }
    }
}

} // verus!
