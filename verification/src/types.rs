//! The records that the ledger keeps, and the failures that its operations report.

use crate::fraction::Fraction;
use vstd::prelude::*;

verus! {

/// An account on the network.
pub type AccountId = u64;

/// An amount of the network's currency.
pub type Balance = u128;

/// The height of a block.
pub type BlockNumber = u32;

/// The digest that commits to every idle segment a miner has proven.
pub type Accumulator = [u8; 256];

/// The attestation that came with a proof update. It is stored, never inspected.
pub type TeeSig = [u8; 64];

/// Why an operation of the ledger was rejected. A rejected operation changes nothing.
#[derive(Clone, Copy, Debug, PartialEq, Eq, Structural)]
pub enum LedgerError {
    /// No miner record is on file for the account.
    NotMiner,
    /// No record of the requested kind is on file for the account.
    NotExisted,
    /// The miner's state does not allow the operation.
    InvalidState,
    /// The caller's view of the proof cursor is stale, or the cursor would not advance.
    CountError,
    /// A sum, difference or product left the range of its type.
    Overflow,
    /// The miner's spaces would exceed the space it declared.
    ExceedingDeclarationSpace,
    /// The membership filter cannot take the identifier.
    FilterCapacityError,
    /// A bounded list of releases is full.
    ScheduleCapacityError,
    /// A record that must accompany another one is missing.
    Unexpected,
    /// Bookkeeping that every staked miner has is missing.
    BugInvalid,
}

/// Where a miner stands in its life on the network.
#[derive(Clone, Copy, Debug, PartialEq, Eq, Structural)]
pub enum MinerState {
    Positive,
    Frozen,
    Offline,
    Exiting,
}

/// The key under which a miner proves its idle space.
#[derive(Clone, Copy, Debug, PartialEq, Eq)]
pub struct PoISKeyInfo {
    pub g: [u8; 256],
    pub n: [u8; 256],
}

/// The cursor over a miner's proven idle segments: `rear` counts the segments
/// committed so far, `front` the segments retired so far.
#[derive(Clone, Copy, Debug, PartialEq, Eq)]
pub struct SpaceProofInfo {
    pub front: u64,
    pub rear: u64,
    pub pois_key: PoISKeyInfo,
    pub accumulator: Accumulator,
}

/// One round's entitlement of a miner, paid out in `max_count` installments.
#[derive(Clone, Copy, Debug, PartialEq, Eq)]
pub struct RewardOrder {
    pub receive_count: u8,
    pub max_count: u8,
    pub atonce: bool,
    pub order_reward: Balance,
    pub each_amount: Balance,
    pub last_receive_block: BlockNumber,
}

/// What a miner has earned and what it has been paid.
#[derive(Clone, Debug, PartialEq, Eq)]
pub struct Reward {
    pub total_reward: Balance,
    pub reward_issued: Balance,
    pub order_list: Vec<RewardOrder>,
}

/// The mathematical content of a [`Reward`].
#[verifier::ext_equal]
pub struct RewardView {
    pub total_reward: Balance,
    pub reward_issued: Balance,
    pub order_list: Seq<RewardOrder>,
}

impl View for Reward {
    type V = RewardView;

    open spec fn view(&self) -> RewardView {
        RewardView {
            total_reward: self.total_reward,
            reward_issued: self.reward_issued,
            order_list: self.order_list@,
        }
    }
}

/// The space that a departed miner served and that other miners have to take over.
#[derive(Clone, Copy, Debug, PartialEq, Eq)]
pub struct RestoralTargetInfo {
    /// The space the miner held for files and obligations when it left.
    pub service_space: u128,
    /// How much of it other miners have taken over so far.
    pub restored_space: u128,
}

/// The fixed policy of a network.
#[derive(Clone, Copy, Debug)]
pub struct Config {
    /// The bytes of one proven idle segment.
    pub idle_seg_size: u128,
    /// The number of installments of a reward order, and the most orders a miner may hold.
    pub release_number: u8,
    /// The part of a round's reward that is paid out in ordinary installments.
    pub installment_share: Fraction,
    /// The part of the limit that a failed idle proof costs.
    pub idle_punish_ratio: Fraction,
    /// The part of the limit that a failed service proof costs.
    pub service_punish_ratio: Fraction,
    /// The blocks for which collateral stays locked after staking began.
    pub staking_lock_block: BlockNumber,
    /// The most releases that may be scheduled for one block.
    pub schedule_limit: u32,
}

impl SpaceProofInfo {
    /// Whether the front has not passed the rear.
    pub open spec fn in_order(self) -> bool {
        self.front <= self.rear
    }

    /// The cursor after the segments up to `new_rear` were committed, and the
    /// number of segments committed. The caller's view of the front must be
    /// current, and the rear must advance.
    pub open spec fn advance_rear(
        self,
        accumulator: Accumulator,
        expected_front: u64,
        new_rear: u64,
    ) -> Result<(SpaceProofInfo, u64), LedgerError> {
        if expected_front != self.front || new_rear <= self.rear {
            Err(LedgerError::CountError)
        } else {
            Ok(
                (
                    SpaceProofInfo { rear: new_rear, accumulator, ..self },
                    (new_rear - self.rear) as u64,
                ),
            )
        }
    }

    /// The cursor after the segments up to `new_front` were retired, and the
    /// number of segments retired. The caller's view of the rear must be
    /// current, and the front must advance without passing the rear: no
    /// segment is retired that was not committed.
    pub open spec fn advance_front(
        self,
        accumulator: Accumulator,
        new_front: u64,
        expected_rear: u64,
    ) -> Result<(SpaceProofInfo, u64), LedgerError> {
        if expected_rear != self.rear || new_front <= self.front || new_front > self.rear {
            Err(LedgerError::CountError)
        } else {
            Ok(
                (
                    SpaceProofInfo { front: new_front, accumulator, ..self },
                    (new_front - self.front) as u64,
                ),
            )
        }
    }

    /// Moves the rear to `rear` and returns the number of segments that this
    /// commits. `check_front` is the front that the caller saw.
    pub fn commit_growth(&mut self, accumulator: Accumulator, check_front: u64, rear: u64) -> (res:
        Result<u64, LedgerError>)
        ensures
            match old(self).advance_rear(accumulator, check_front, rear) {
                Ok((next, count)) => res == Ok::<u64, LedgerError>(count) && *final(self) == next,
                Err(e) => res == Err::<u64, LedgerError>(e) && *final(self) == *old(self),
            },
    {
        if check_front != self.front || self.rear >= rear {
            return Err(LedgerError::CountError);
        }
        let count: u64 = rear - self.rear;
        self.rear = rear;
        self.accumulator = accumulator;
        Ok(count)
    }

    /// Moves the front to `front` and returns the number of segments that
    /// this retires. `check_rear` is the rear that the caller saw. A front
    /// beyond the rear is rejected.
    pub fn commit_retirement(&mut self, accumulator: Accumulator, front: u64, check_rear: u64) -> (res:
        Result<u64, LedgerError>)
        ensures
            match old(self).advance_front(accumulator, front, check_rear) {
                Ok((next, count)) => res == Ok::<u64, LedgerError>(count) && *final(self) == next,
                Err(e) => res == Err::<u64, LedgerError>(e) && *final(self) == *old(self),
            },
    {
        if check_rear != self.rear || self.front >= front || front > self.rear {
            return Err(LedgerError::CountError);
        }
        let count: u64 = front - self.front;
        self.front = front;
        self.accumulator = accumulator;
        Ok(count)
    }
}

impl PoISKeyInfo {
    /// The bytes that identify the key: `g` followed by `n`.
    pub open spec fn encoding(self) -> Seq<u8> {
        self.g@ + self.n@
    }

    /// The bytes that identify the key.
    pub fn encode(&self) -> (bytes: Vec<u8>)
        ensures
            bytes@ == self.encoding(),
    {
        let mut bytes: Vec<u8> = Vec::new();
        let mut i: usize = 0;
        while i < 256
            invariant
                i <= 256,
                bytes@ == self.g@.take(i as int),
            decreases 256 - i,
        {
            bytes.push(self.g[i]);
            i = i + 1;
        }
        let mut j: usize = 0;
        while j < 256
            invariant
                j <= 256,
                bytes@ == self.g@ + self.n@.take(j as int),
            decreases 256 - j,
        {
            bytes.push(self.n[j]);
            j = j + 1;
        }
        bytes
    }
}

} // verus!
