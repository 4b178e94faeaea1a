//! The ledger itself: the keyed stores and the operations on them.
//!
//! The ledger owns no money and no clock. Where an operation needs the
//! current block or a figure from the reward pool, the caller passes it in;
//! where an operation obliges the caller to move funds, it says so in what it
//! returns.

use crate::bloom::fingerprints;
use crate::fraction::Fraction;
use crate::ledger::{
    without_account, CollateralRelease, ExitReceipt, PalletView, Settlement, MINIMAL_PUNISH,
};
use crate::miner::{MinerInfo, MinerInfoView};
use crate::registry::{key_digest, sha2_256_digest, KeyRegistry};
use crate::types::{
    AccountId, Accumulator, Balance, BlockNumber, Config, LedgerError, MinerState, PoISKeyInfo,
    RestoralTargetInfo, Reward, RewardOrder, RewardView, TeeSig,
};
use std::collections::HashMap;
use vstd::prelude::*;

verus! {

/// The capacity and incentive ledger of the network's miners.
#[derive(Clone, Debug)]
pub struct Pallet {
    config: Config,
    all_miner: Vec<AccountId>,
    miner_items: HashMap<AccountId, MinerInfo>,
    reward_map: HashMap<AccountId, Reward>,
    staking_start_block: HashMap<AccountId, BlockNumber>,
    return_staking_schedule: HashMap<BlockNumber, Vec<(AccountId, Balance)>>,
    restoral_target: HashMap<AccountId, RestoralTargetInfo>,
    miner_public_key: KeyRegistry,
    pending_replacements: HashMap<AccountId, u128>,
}

/// The content of a store of space records.
pub open spec fn miner_views(m: Map<AccountId, MinerInfo>) -> Map<AccountId, MinerInfoView> {
    Map::new(|a: AccountId| m.contains_key(a), |a: AccountId| m[a]@)
}

/// The content of a store of reward records.
pub open spec fn reward_views(m: Map<AccountId, Reward>) -> Map<AccountId, RewardView> {
    Map::new(|a: AccountId| m.contains_key(a), |a: AccountId| m[a]@)
}

/// The content of a release schedule.
pub open spec fn schedule_views(m: Map<BlockNumber, Vec<(AccountId, Balance)>>) -> Map<
    BlockNumber,
    Seq<(AccountId, Balance)>,
> {
    Map::new(|b: BlockNumber| m.contains_key(b), |b: BlockNumber| m[b]@)
}

/// A copy of a list.
fn copy_list<T: Copy>(list: &Vec<T>) -> (copy: Vec<T>)
    ensures
        copy@ == list@,
{
    let mut copy: Vec<T> = Vec::new();
    let mut i: usize = 0;
    while i < list.len()
        invariant
            i <= list.len(),
            copy@ == list@.take(i as int),
        decreases list.len() - i,
    {
        copy.push(list[i]);
        i = i + 1;
    }
    assert(list@.take(i as int) == list@);
    copy
}

/// A ledger whose policy, space records, reward records and release
/// schedule are those of another ledger keeps the rules that the other keeps.
proof fn lemma_same_records_same_rules(before: Pallet, after: Pallet)
    requires
        after.config == before.config,
        after.miner_items == before.miner_items,
        after.reward_map == before.reward_map,
        after.return_staking_schedule == before.return_staking_schedule,
    ensures
        after@.config == before@.config,
        after@.miner_items == before@.miner_items,
        after@.reward_map == before@.reward_map,
        after@.return_staking_schedule == before@.return_staking_schedule,
        before@.inv() ==> after@.inv(),
{
    assert(after@.miner_items == before@.miner_items);
    assert(after@.reward_map == before@.reward_map);
    assert(after@.return_staking_schedule == before@.return_staking_schedule);
}

impl View for Pallet {
    type V = PalletView;

    closed spec fn view(&self) -> PalletView {
        PalletView {
            config: self.config,
            all_miner: self.all_miner@,
            miner_items: miner_views(self.miner_items@),
            reward_map: reward_views(self.reward_map@),
            staking_start_block: self.staking_start_block@,
            return_staking_schedule: schedule_views(self.return_staking_schedule@),
            restoral_target: self.restoral_target@,
            miner_public_key: self.miner_public_key@,
            pending_replacements: self.pending_replacements@,
        }
    }
}

impl Pallet {
    /// A ledger without miners, under the policy `config`.
    pub fn new(config: Config) -> (pallet: Pallet)
        ensures
            pallet@ == PalletView::empty(config),
            pallet@.inv(),
    {
        let pallet = Pallet {
            config,
            all_miner: Vec::new(),
            miner_items: HashMap::new(),
            reward_map: HashMap::new(),
            staking_start_block: HashMap::new(),
            return_staking_schedule: HashMap::new(),
            restoral_target: HashMap::new(),
            miner_public_key: KeyRegistry::new(),
            pending_replacements: HashMap::new(),
        };
        assert(pallet@ =~= PalletView::empty(config));
        pallet
    }

    /// The policy of the ledger.
    pub fn config(&self) -> (config: Config)
        ensures
            config == self@.config,
    {
        self.config
    }

    /// The active miners, in the order in which they were enlisted.
    pub fn all_miner(&self) -> (list: Vec<AccountId>)
        ensures
            list@ == self@.all_miner,
    {
        copy_list(&self.all_miner)
    }

    /// The space record of `acc`.
    pub fn miner(&self, acc: AccountId) -> (res: Option<MinerInfo>)
        ensures
            match res {
                Some(info) => self@.miner_items.contains_key(acc) && info@
                    == self@.miner_items[acc],
                None => !self@.miner_items.contains_key(acc),
            },
    {
        match self.miner_items.get(&acc) {
            Some(info) => Some(*info),
            None => None,
        }
    }

    /// The reward record of `acc`.
    pub fn reward(&self, acc: AccountId) -> (res: Option<Reward>)
        ensures
            match res {
                Some(reward) => self@.reward_map.contains_key(acc) && reward@
                    == self@.reward_map[acc],
                None => !self@.reward_map.contains_key(acc),
            },
    {
        match self.reward_map.get(&acc) {
            Some(reward) => Some(
                Reward {
                    total_reward: reward.total_reward,
                    reward_issued: reward.reward_issued,
                    order_list: copy_list(&reward.order_list),
                },
            ),
            None => None,
        }
    }

    /// The block at which `acc` began to stake.
    pub fn staking_start_block(&self, acc: AccountId) -> (res: Option<BlockNumber>)
        ensures
            match res {
                Some(block) => self@.staking_start_block.contains_key(acc) && block
                    == self@.staking_start_block[acc],
                None => !self@.staking_start_block.contains_key(acc),
            },
    {
        match self.staking_start_block.get(&acc) {
            Some(block) => Some(*block),
            None => None,
        }
    }

    /// The collateral to release at `block`: staking account and amount, in
    /// the order in which the releases were scheduled.
    pub fn releases_at(&self, block: BlockNumber) -> (list: Vec<(AccountId, Balance)>)
        ensures
            list@ == self@.releases_at(block),
    {
        match self.return_staking_schedule.get(&block) {
            Some(bucket) => copy_list(bucket),
            None => Vec::new(),
        }
    }

    /// The restoral target that `acc` left behind.
    pub fn restoral_target(&self, acc: AccountId) -> (res: Option<RestoralTargetInfo>)
        ensures
            match res {
                Some(target) => self@.restoral_target.contains_key(acc) && target
                    == self@.restoral_target[acc],
                None => !self@.restoral_target.contains_key(acc),
            },
    {
        match self.restoral_target.get(&acc) {
            Some(target) => Some(*target),
            None => None,
        }
    }

    /// The account that the proof key `key` is bound to.
    pub fn public_key_owner(&self, key: &PoISKeyInfo) -> (res: Option<AccountId>)
        ensures
            match res {
                Some(acc) => self@.miner_public_key.contains_key(
                    sha2_256_digest(key.encoding()),
                ) && acc == self@.miner_public_key[sha2_256_digest(key.encoding())],
                None => !self@.miner_public_key.contains_key(sha2_256_digest(key.encoding())),
            },
    {
        let digest = key_digest(&key.encode());
        self.miner_public_key.get(&digest)
    }

    /// The replacement space that `acc` has yet to fill.
    pub fn pending_replacement(&self, acc: AccountId) -> (res: Option<u128>)
        ensures
            match res {
                Some(space) => self@.pending_replacements.contains_key(acc) && space
                    == self@.pending_replacements[acc],
                None => !self@.pending_replacements.contains_key(acc),
            },
    {
        match self.pending_replacements.get(&acc) {
            Some(space) => Some(*space),
            None => None,
        }
    }

    /// Files `info` as the space record of `acc`, in place of any record the
    /// account had. A record that holds more space than it declares is
    /// refused with `ExceedingDeclarationSpace`, and one whose cursor has its
    /// front beyond its rear with `CountError`.
    pub fn put_miner(&mut self, acc: AccountId, info: MinerInfo) -> (res: Result<(), LedgerError>)
        ensures
            match old(self)@.file_miner(acc, info@) {
                Ok((next, _)) => res == Ok::<(), LedgerError>(()) && final(self)@ == next,
                Err(e) => res == Err::<(), LedgerError>(e) && final(self)@ == old(self)@,
            },
            old(self)@.inv() ==> final(self)@.inv(),
    {
        let held: Option<u128> = match info.idle_space.checked_add(info.service_space) {
            Some(v) => v.checked_add(info.lock_space),
            None => None,
        };
        match held {
            Some(v) => {
                if v > info.declaration_space {
                    return Err(LedgerError::ExceedingDeclarationSpace);
                }
            },
            None => {
                return Err(LedgerError::ExceedingDeclarationSpace);
            },
        }
        if info.space_proof_info.front > info.space_proof_info.rear {
            return Err(LedgerError::CountError);
        }
        self.store_miner(acc, info);
        Ok(())
    }

    /// Adds `acc` to the end of the list of active miners, unless it is on
    /// the list already.
    pub fn enlist_miner(&mut self, acc: AccountId)
        ensures
            final(self)@ == (PalletView {
                all_miner: if old(self)@.all_miner.contains(acc) {
                    old(self)@.all_miner
                } else {
                    old(self)@.all_miner.push(acc)
                },
                ..old(self)@
            }),
            old(self)@.inv() ==> final(self)@.inv(),
    {
        let mut i: usize = 0;
        while i < self.all_miner.len()
            invariant
                i <= self.all_miner.len(),
                forall|k: int| 0 <= k < i ==> self.all_miner@[k] != acc,
            decreases self.all_miner.len() - i,
        {
            if self.all_miner[i] == acc {
                return ;
            }
            i = i + 1;
        }
        self.all_miner.push(acc);
    }

    /// Binds the proof key `key` to `acc`, in place of any account the key
    /// was bound to.
    pub fn bind_public_key(&mut self, acc: AccountId, key: &PoISKeyInfo)
        ensures
            final(self)@ == (PalletView {
                miner_public_key: old(self)@.miner_public_key.insert(
                    sha2_256_digest(key.encoding()),
                    acc,
                ),
                ..old(self)@
            }),
            old(self)@.inv() ==> final(self)@.inv(),
    {
        let digest = key_digest(&key.encode());
        self.miner_public_key.insert(digest, acc);
        proof {
            lemma_same_records_same_rules(*old(self), *self);
        }
    }

    /// Files `reward` as the reward record of `acc`, in place of any record
    /// the account had. A record with more orders than there are installments
    /// is refused with `ScheduleCapacityError`.
    pub fn put_reward(&mut self, acc: AccountId, reward: Reward) -> (res: Result<(), LedgerError>)
        ensures
            reward@.order_list.len() <= old(self)@.config.release_number ==> res == Ok::<
                (),
                LedgerError,
            >(()) && final(self)@ == (PalletView {
                reward_map: old(self)@.reward_map.insert(acc, reward@),
                ..old(self)@
            }),
            reward@.order_list.len() > old(self)@.config.release_number ==> res == Err::<
                (),
                LedgerError,
            >(LedgerError::ScheduleCapacityError) && final(self)@ == old(self)@,
            old(self)@.inv() ==> final(self)@.inv(),
    {
        if reward.order_list.len() > self.config.release_number as usize {
            return Err(LedgerError::ScheduleCapacityError);
        }
        self.reward_map.insert(acc, reward);
        assert(self@.reward_map =~= old(self)@.reward_map.insert(acc, reward@));
        Ok(())
    }

    /// Records that `acc` began to stake at `block`.
    pub fn put_staking_start_block(&mut self, acc: AccountId, block: BlockNumber)
        ensures
            final(self)@ == (PalletView {
                staking_start_block: old(self)@.staking_start_block.insert(acc, block),
                ..old(self)@
            }),
            old(self)@.inv() ==> final(self)@.inv(),
    {
        self.staking_start_block.insert(acc, block);
        proof {
            lemma_same_records_same_rules(*old(self), *self);
        }
    }

    /// Records that `acc` has yet to fill `space` bytes of replacement space.
    pub fn put_pending_replacement(&mut self, acc: AccountId, space: u128)
        ensures
            final(self)@ == (PalletView {
                pending_replacements: old(self)@.pending_replacements.insert(acc, space),
                ..old(self)@
            }),
            old(self)@.inv() ==> final(self)@.inv(),
    {
        self.pending_replacements.insert(acc, space);
        proof {
            lemma_same_records_same_rules(*old(self), *self);
        }
    }

    /// Stores `info` as the space record of `acc`.
    fn store_miner(&mut self, acc: AccountId, info: MinerInfo)
        ensures
            final(self)@ == old(self)@.with_miner(acc, info@),
    {
        self.miner_items.insert(acc, info);
        assert(self@.miner_items =~= old(self)@.miner_items.insert(acc, info@));
    }

    /// Commits the idle segments that `acc` has proven up to `rear`, and
    /// returns the bytes of idle space gained: the segment size for each new
    /// segment. The miner must be in state `Positive`, `check_front` must be
    /// the front of its cursor, and `rear` must lie beyond the cursor's rear.
    pub fn add_miner_idle_space(
        &mut self,
        acc: AccountId,
        accumulator: Accumulator,
        check_front: u64,
        rear: u64,
        tee_sig: TeeSig,
    ) -> (res: Result<u128, LedgerError>)
        ensures
            match old(self)@.commit_idle_growth(acc, accumulator, check_front, rear, tee_sig) {
                Ok((next, added)) => res == Ok::<u128, LedgerError>(added) && final(self)@ == next,
                Err(e) => res == Err::<u128, LedgerError>(e) && final(self)@ == old(self)@,
            },
            old(self)@.inv() ==> final(self)@.inv(),
    {
        let mut info: MinerInfo = match self.miner_items.get(&acc) {
            Some(info) => *info,
            None => {
                return Err(LedgerError::NotMiner);
            },
        };
        match info.commit_idle_growth(
            self.config.idle_seg_size,
            accumulator,
            check_front,
            rear,
            tee_sig,
        ) {
            Ok(added) => {
                self.store_miner(acc, info);
                Ok(added)
            },
            Err(e) => Err(e),
        }
    }

    /// Retires the idle segments of `acc` up to `front`, and returns how many
    /// were retired. `check_rear` must be the rear of the miner's cursor, and
    /// `front` must lie beyond the cursor's front. The idle space itself is
    /// reduced by [`Pallet::delete_idle_update_space`].
    pub fn delete_idle_update_accu(
        &mut self,
        acc: AccountId,
        accumulator: Accumulator,
        front: u64,
        check_rear: u64,
        tee_sig: TeeSig,
    ) -> (res: Result<u64, LedgerError>)
        ensures
            match old(self)@.commit_idle_retirement(acc, accumulator, front, check_rear, tee_sig) {
                Ok((next, count)) => res == Ok::<u64, LedgerError>(count) && final(self)@ == next,
                Err(e) => res == Err::<u64, LedgerError>(e) && final(self)@ == old(self)@,
            },
            old(self)@.inv() ==> final(self)@.inv(),
    {
        let mut info: MinerInfo = match self.miner_items.get(&acc) {
            Some(info) => *info,
            None => {
                return Err(LedgerError::NotMiner);
            },
        };
        match info.commit_idle_retirement(accumulator, front, check_rear, tee_sig) {
            Ok(count) => {
                self.store_miner(acc, info);
                Ok(count)
            },
            Err(e) => Err(e),
        }
    }

    /// Takes `idle_space` bytes away from the idle space of `acc`.
    pub fn delete_idle_update_space(&mut self, acc: AccountId, idle_space: u128) -> (res: Result<
        (),
        LedgerError,
    >)
        ensures
            match old(self)@.apply_idle_shrink(acc, idle_space) {
                Ok((next, _)) => res == Ok::<(), LedgerError>(()) && final(self)@ == next,
                Err(e) => res == Err::<(), LedgerError>(e) && final(self)@ == old(self)@,
            },
            old(self)@.inv() ==> final(self)@.inv(),
    {
        let mut info: MinerInfo = match self.miner_items.get(&acc) {
            Some(info) => *info,
            None => {
                return Err(LedgerError::NotMiner);
            },
        };
        match info.apply_idle_shrink(idle_space) {
            Ok(()) => {
                self.store_miner(acc, info);
                Ok(())
            },
            Err(e) => Err(e),
        }
    }

    /// Adds `increment` bytes to the service space of `acc`. An account
    /// without a record and a miner that has departed are passed over in
    /// silence: such a change may arrive while the miner is leaving.
    pub fn add_miner_service_space(&mut self, acc: AccountId, increment: u128) -> (res: Result<
        (),
        LedgerError,
    >)
        ensures
            match old(self)@.grow_service_space(acc, increment) {
                Ok((next, _)) => res == Ok::<(), LedgerError>(()) && final(self)@ == next,
                Err(e) => res == Err::<(), LedgerError>(e) && final(self)@ == old(self)@,
            },
            old(self)@.inv() ==> final(self)@.inv(),
    {
        let mut info: MinerInfo = match self.miner_items.get(&acc) {
            Some(info) => *info,
            None => {
                return Ok(());
            },
        };
        match info.grow_service_space(increment) {
            Ok(()) => {
                self.store_miner(acc, info);
                Ok(())
            },
            Err(e) => Err(e),
        }
    }

    /// Takes `increment` bytes away from the service space of `acc`. An
    /// account without a record and a miner that has departed are passed over
    /// in silence.
    pub fn sub_miner_service_space(&mut self, acc: AccountId, increment: u128) -> (res: Result<
        (),
        LedgerError,
    >)
        ensures
            match old(self)@.shrink_service_space(acc, increment) {
                Ok((next, _)) => res == Ok::<(), LedgerError>(()) && final(self)@ == next,
                Err(e) => res == Err::<(), LedgerError>(e) && final(self)@ == old(self)@,
            },
            old(self)@.inv() ==> final(self)@.inv(),
    {
        let mut info: MinerInfo = match self.miner_items.get(&acc) {
            Some(info) => *info,
            None => {
                return Ok(());
            },
        };
        match info.shrink_service_space(increment) {
            Ok(()) => {
                self.store_miner(acc, info);
                Ok(())
            },
            Err(e) => Err(e),
        }
    }

    /// Inserts the fingerprints of `hash_list` into the membership filter of
    /// `acc`. If the filter has no room for one of them, none is inserted.
    pub fn insert_service_bloom(&mut self, acc: AccountId, hash_list: Vec<Box<[u8; 256]>>) -> (res:
        Result<(), LedgerError>)
        ensures
            match old(self)@.register_service_files(acc, fingerprints(hash_list@)) {
                Ok((next, _)) => res == Ok::<(), LedgerError>(()) && final(self)@ == next,
                Err(e) => res == Err::<(), LedgerError>(e) && final(self)@ == old(self)@,
            },
            old(self)@.inv() ==> final(self)@.inv(),
    {
        let mut info: MinerInfo = match self.miner_items.get(&acc) {
            Some(info) => *info,
            None => {
                return Err(LedgerError::NotMiner);
            },
        };
        match info.service_bloom_filter.insert_each(&hash_list) {
            Ok(()) => {
                self.store_miner(acc, info);
                Ok(())
            },
            Err(e) => Err(e),
        }
    }

    /// Deletes the fingerprints of `hash_list` from the membership filter of
    /// `acc`. If the filter cannot give one of them back, none is deleted.
    pub fn delete_service_bloom(&mut self, acc: AccountId, hash_list: Vec<Box<[u8; 256]>>) -> (res:
        Result<(), LedgerError>)
        ensures
            match old(self)@.deregister_service_files(acc, fingerprints(hash_list@)) {
                Ok((next, _)) => res == Ok::<(), LedgerError>(()) && final(self)@ == next,
                Err(e) => res == Err::<(), LedgerError>(e) && final(self)@ == old(self)@,
            },
            old(self)@.inv() ==> final(self)@.inv(),
    {
        let mut info: MinerInfo = match self.miner_items.get(&acc) {
            Some(info) => *info,
            None => {
                return Err(LedgerError::NotMiner);
            },
        };
        match info.service_bloom_filter.delete_each(&hash_list) {
            Ok(()) => {
                self.store_miner(acc, info);
                Ok(())
            },
            Err(e) => Err(e),
        }
    }

    /// What settling a round's reward for `miner` at block `now` would give,
    /// without settling it: the result that
    /// [`Pallet::calculate_miner_reward`] returns on the same arguments. A
    /// caller that has to debit the reward pool asks here first, debits, and
    /// settles once the pool has paid.
    pub fn preview_miner_reward(
        &self,
        miner: AccountId,
        total_power: u128,
        miner_power: u128,
        reward_base: Balance,
        now: BlockNumber,
    ) -> (res: Result<Settlement, LedgerError>)
        ensures
            match self@.settle_round_reward(miner, total_power, miner_power, reward_base, now) {
                Ok((_, settlement)) => res == Ok::<Settlement, LedgerError>(settlement),
                Err(e) => res == Err::<Settlement, LedgerError>(e),
            },
    {
        let miner_prop = Fraction::from_rational(miner_power, total_power);
        let this_round_reward: Balance = miner_prop.mul_floor(reward_base);
        if self.config.release_number == 0 {
            return Err(LedgerError::Overflow);
        }
        let reward = match self.reward_map.get(&miner) {
            Some(reward) => reward,
            None => {
                return Err(LedgerError::Unexpected);
            },
        };
        let held: usize = reward.order_list.len();
        if held == self.config.release_number as usize {
            return Ok(Settlement::Skipped);
        }
        if reward.total_reward.checked_add(this_round_reward).is_none() {
            return Err(LedgerError::Overflow);
        }
        if held > self.config.release_number as usize {
            return Err(LedgerError::ScheduleCapacityError);
        }
        Ok(Settlement::Admitted { order_reward: this_round_reward })
    }

    /// Settles a round's reward for `miner` at block `now`. The miner's share
    /// of `reward_base` is its power over the power of all miners; it is
    /// recorded as a new order, to be released in installments, and added to
    /// the miner's total. A miner that already holds as many orders as there
    /// are installments is skipped. The reward pool owes the amount of an
    /// admitted order.
    pub fn calculate_miner_reward(
        &mut self,
        miner: AccountId,
        total_power: u128,
        miner_power: u128,
        reward_base: Balance,
        now: BlockNumber,
    ) -> (res: Result<Settlement, LedgerError>)
        ensures
            match old(self)@.settle_round_reward(miner, total_power, miner_power, reward_base, now) {
                Ok((next, settlement)) => res == Ok::<Settlement, LedgerError>(settlement)
                    && final(self)@ == next,
                Err(e) => res == Err::<Settlement, LedgerError>(e) && final(self)@ == old(self)@,
            },
            old(self)@.inv() ==> final(self)@.inv(),
    {
        let this_round_reward: Balance = match self.preview_miner_reward(
            miner,
            total_power,
            miner_power,
            reward_base,
            now,
        ) {
            Ok(Settlement::Admitted { order_reward }) => order_reward,
            Ok(Settlement::Skipped) => {
                return Ok(Settlement::Skipped);
            },
            Err(e) => {
                return Err(e);
            },
        };
        let released: Balance = self.config.installment_share.mul_floor(this_round_reward);
        let order = RewardOrder {
            receive_count: 0,
            max_count: self.config.release_number,
            atonce: false,
            order_reward: this_round_reward,
            each_amount: released / (self.config.release_number as u128),
            last_receive_block: now,
        };
        let mut reward: Reward = match self.reward_map.remove(&miner) {
            Some(reward) => reward,
            None => {
                return Err(LedgerError::Unexpected);
            },
        };
        reward.total_reward = reward.total_reward + this_round_reward;
        reward.order_list.push(order);
        self.reward_map.insert(miner, reward);
        proof {
            let next = old(self)@.settle_round_reward(
                miner,
                total_power,
                miner_power,
                reward_base,
                now,
            )->Ok_0.0;
            assert(self@.reward_map =~= next.reward_map);
            assert(self@ =~= next);
        }
        Ok(Settlement::Admitted { order_reward: this_round_reward })
    }

    /// The penalty that `miner` owes for its `count`-th missed proof in a
    /// row, where `limit` caps the miner's penalties. A miner that has not
    /// earned anything owes the minimal penalty. Otherwise the first miss is
    /// free, the second costs 5 percent of the limit, and any other count
    /// 15 percent. The caller collects the penalty.
    pub fn clear_punish(&self, miner: AccountId, limit: Balance, count: u8) -> (res: Result<
        Balance,
        LedgerError,
    >)
        ensures
            res == self@.escalating_penalty(miner, limit, count),
    {
        let reward = match self.reward_map.get(&miner) {
            Some(reward) => reward,
            None => {
                return Err(LedgerError::NotMiner);
            },
        };
        if reward.total_reward == 0 {
            return Ok(MINIMAL_PUNISH);
        }
        let punish_amount: Balance = if count == 1 {
            0
        } else if count == 2 {
            Fraction::from_percent(5).mul_floor(limit)
        } else {
            Fraction::from_percent(15).mul_floor(limit)
        };
        Ok(punish_amount)
    }

    /// The penalty that `miner` owes for a failed idle proof, where `limit`
    /// caps the miner's penalties. The caller collects the penalty.
    pub fn idle_punish(&self, miner: AccountId, limit: Balance) -> (res: Result<
        Balance,
        LedgerError,
    >)
        ensures
            res == self@.idle_penalty(miner, limit),
    {
        if !self.miner_items.contains_key(&miner) {
            return Err(LedgerError::NotMiner);
        }
        Ok(self.config.idle_punish_ratio.mul_floor(limit))
    }

    /// The penalty that `miner` owes for a failed service proof, where
    /// `limit` caps the miner's penalties. The caller collects the penalty.
    pub fn service_punish(&self, miner: AccountId, limit: Balance) -> (res: Result<
        Balance,
        LedgerError,
    >)
        ensures
            res == self@.service_penalty(miner, limit),
    {
        if !self.miner_items.contains_key(&miner) {
            return Err(LedgerError::NotMiner);
        }
        Ok(self.config.service_punish_ratio.mul_floor(limit))
    }

    /// Records that other miners have taken over `service_space` bytes of the
    /// space that `miner` left behind.
    pub fn update_restoral_target(&mut self, miner: AccountId, service_space: u128) -> (res: Result<
        (),
        LedgerError,
    >)
        ensures
            match old(self)@.absorb_restoral(miner, service_space) {
                Ok((next, _)) => res == Ok::<(), LedgerError>(()) && final(self)@ == next,
                Err(e) => res == Err::<(), LedgerError>(e) && final(self)@ == old(self)@,
            },
            old(self)@.inv() ==> final(self)@.inv(),
    {
        let target: RestoralTargetInfo = match self.restoral_target.get(&miner) {
            Some(target) => *target,
            None => {
                return Err(LedgerError::NotExisted);
            },
        };
        let restored_space: u128 = match target.restored_space.checked_add(service_space) {
            Some(v) => v,
            None => {
                return Err(LedgerError::Overflow);
            },
        };
        self.restoral_target.insert(
            miner,
            RestoralTargetInfo { service_space: target.service_space, restored_space },
        );
        Ok(())
    }

    /// Takes `acc` out of the list of active miners.
    fn retire_from_all_miner(&mut self, acc: AccountId)
        ensures
            final(self)@ == (PalletView {
                all_miner: without_account(old(self)@.all_miner, acc),
                ..old(self)@
            }),
    {
        let mut kept: Vec<AccountId> = Vec::new();
        let mut i: usize = 0;
        proof {
            reveal(Seq::filter);
        }
        while i < self.all_miner.len()
            invariant
                i <= self.all_miner.len(),
                kept@ == without_account(self.all_miner@.take(i as int), acc),
            decreases self.all_miner.len() - i,
        {
            let a: AccountId = self.all_miner[i];
            proof {
                reveal(Seq::filter);
                let next = self.all_miner@.take(i + 1);
                assert(next.drop_last() == self.all_miner@.take(i as int));
                assert(next.last() == a);
            }
            if a != acc {
                kept.push(a);
            }
            i = i + 1;
        }
        assert(self.all_miner@.take(i as int) == self.all_miner@);
        self.all_miner = kept;
    }

    /// Decides what happens to the collateral of `acc`, whose space record is
    /// `info`, and whether the release schedule has room for it.
    fn collateral_on_exit(&self, acc: AccountId, info: &MinerInfo) -> (res: Result<
        CollateralRelease,
        LedgerError,
    >)
        requires
            self@.miner_items.contains_key(acc),
            self@.miner_items[acc] == info@,
        ensures
            match self@.collateral_on_exit(acc) {
                Ok((_, collateral)) => res == Ok::<CollateralRelease, LedgerError>(collateral),
                Err(e) => res == Err::<CollateralRelease, LedgerError>(e),
            },
    {
        let reward = match self.reward_map.get(&acc) {
            Some(reward) => reward,
            None => {
                return Ok(CollateralRelease::Untouched);
            },
        };
        if reward.total_reward == 0 {
            return Ok(
                CollateralRelease::Immediate {
                    staking_account: info.staking_account,
                    amount: info.collaterals,
                },
            );
        }
        let residue_reward: Balance = match reward.total_reward.checked_sub(reward.reward_issued) {
            Some(v) => v,
            None => {
                return Err(LedgerError::Overflow);
            },
        };
        let start_block: BlockNumber = match self.staking_start_block.get(&acc) {
            Some(b) => *b,
            None => {
                return Err(LedgerError::BugInvalid);
            },
        };
        let exec_block: BlockNumber = match start_block.checked_add(
            self.config.staking_lock_block,
        ) {
            Some(b) => b,
            None => {
                return Err(LedgerError::Overflow);
            },
        };
        let scheduled: usize = match self.return_staking_schedule.get(&exec_block) {
            Some(bucket) => bucket.len(),
            None => 0,
        };
        if scheduled >= self.config.schedule_limit as usize {
            return Err(LedgerError::ScheduleCapacityError);
        }
        Ok(CollateralRelease::Deferred { residue_reward, exec_block })
    }

    /// Schedules the release of `amount` to `staking_account` at `block`.
    fn schedule_release(&mut self, block: BlockNumber, staking_account: AccountId, amount: Balance)
        ensures
            final(self)@ == (PalletView {
                return_staking_schedule: old(self)@.return_staking_schedule.insert(
                    block,
                    old(self)@.releases_at(block).push((staking_account, amount)),
                ),
                ..old(self)@
            }),
    {
        let mut bucket: Vec<(AccountId, Balance)> = match self.return_staking_schedule.remove(
            &block,
        ) {
            Some(bucket) => bucket,
            None => Vec::new(),
        };
        bucket.push((staking_account, amount));
        self.return_staking_schedule.insert(block, bucket);
        assert(self@.return_staking_schedule =~= old(self)@.return_staking_schedule.insert(
            block,
            old(self)@.releases_at(block).push((staking_account, amount)),
        ));
    }

    /// What the exit of `acc` would give, without carrying it out: the result
    /// that [`Pallet::force_miner_exit`] returns for the same account. A
    /// caller that has to move funds asks here first, moves them, and carries
    /// out the exit once they have moved.
    pub fn preview_miner_exit(&self, acc: AccountId) -> (res: Result<ExitReceipt, LedgerError>)
        ensures
            match self@.exit_miner(acc) {
                Ok((_, receipt)) => res == Ok::<ExitReceipt, LedgerError>(receipt),
                Err(e) => res == Err::<ExitReceipt, LedgerError>(e),
            },
    {
        let info: MinerInfo = match self.miner_items.get(&acc) {
            Some(info) => *info,
            None => {
                return Err(LedgerError::Unexpected);
            },
        };
        let collateral = match self.collateral_on_exit(acc, &info) {
            Ok(collateral) => collateral,
            Err(e) => {
                return Err(e);
            },
        };
        let idle_space_removed: u128 = match info.idle_space.checked_add(info.lock_space) {
            Some(v) => v,
            None => {
                return Err(LedgerError::Overflow);
            },
        };
        if info.service_space.checked_add(info.lock_space).is_none() {
            return Err(LedgerError::Overflow);
        }
        Ok(ExitReceipt { collateral, idle_space_removed })
    }

    /// Removes `acc` from the network: it leaves the list of active miners,
    /// its collateral is released or scheduled for release, the space it
    /// served becomes a target for restoral, its state becomes `Offline`, its
    /// proof key is freed, and its reward record and pending replacements are
    /// deleted. The caller has made sure that the miner may leave, and settles
    /// what the receipt names.
    pub fn force_miner_exit(&mut self, acc: AccountId) -> (res: Result<ExitReceipt, LedgerError>)
        ensures
            match old(self)@.exit_miner(acc) {
                Ok((next, receipt)) => res == Ok::<ExitReceipt, LedgerError>(receipt)
                    && final(self)@ == next,
                Err(e) => res == Err::<ExitReceipt, LedgerError>(e) && final(self)@ == old(self)@,
            },
            old(self)@.inv() ==> final(self)@.inv(),
    {
        let receipt = match self.preview_miner_exit(acc) {
            Ok(receipt) => receipt,
            Err(e) => {
                return Err(e);
            },
        };
        let mut info: MinerInfo = match self.miner_items.get(&acc) {
            Some(info) => *info,
            None => {
                return Err(LedgerError::Unexpected);
            },
        };
        let service_space: u128 = info.service_space + info.lock_space;
        self.retire_from_all_miner(acc);
        match receipt.collateral {
            CollateralRelease::Deferred { residue_reward: _, exec_block } => {
                self.schedule_release(exec_block, info.staking_account, info.collaterals);
            },
            _ => {},
        }
        self.restoral_target.insert(acc, RestoralTargetInfo { service_space, restored_space: 0 });
        let digest = key_digest(&info.space_proof_info.pois_key.encode());
        self.miner_public_key.remove(&digest);
        info.state = MinerState::Offline;
        self.miner_items.insert(acc, info);
        self.reward_map.remove(&acc);
        self.pending_replacements.remove(&acc);
        proof {
            let next = old(self)@.exit_miner(acc)->Ok_0.0;
            assert(self@.miner_items =~= next.miner_items);
            assert(self@.reward_map =~= next.reward_map);
            assert(self@.return_staking_schedule =~= next.return_staking_schedule);
            assert(self@ =~= next);
        }
        Ok(receipt)
    }
}

} // verus!
