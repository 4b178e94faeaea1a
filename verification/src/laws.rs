//! What holds of the ledger whatever it is asked to do.

use crate::bloom::{deletable, insertable, may_contain, with_deleted, with_inserted, FILTER_WIDTH};
use crate::ledger::{PalletView, Settlement, MINIMAL_PUNISH};
use crate::types::{
    AccountId, Accumulator, Balance, BlockNumber, LedgerError, MinerState, SpaceProofInfo, TeeSig,
};
use vstd::prelude::*;

verus! {

/// A cursor moves forward only: committing segments raises the rear and
/// leaves the front, retiring segments raises the front and leaves the rear,
/// and the number of segments reported is the distance moved. Committing
/// keeps a cursor in order, and retiring leaves any cursor in order: the
/// front never passes the rear.
pub proof fn lemma_cursor_moves_forward(
    cursor: SpaceProofInfo,
    accumulator: Accumulator,
    expected: u64,
    target: u64,
)
    ensures
        cursor.advance_rear(accumulator, expected, target) matches Ok((next, count)) ==> {
            &&& next.front == cursor.front
            &&& next.rear == target
            &&& target > cursor.rear
            &&& count == target - cursor.rear
            &&& (cursor.in_order() ==> next.in_order())
        },
        cursor.advance_front(accumulator, target, expected) matches Ok((next, count)) ==> {
            &&& next.rear == cursor.rear
            &&& next.front == target
            &&& target > cursor.front
            &&& count == target - cursor.front
            &&& target <= cursor.rear
            &&& next.in_order()
        },
{
}

/// A fingerprint that was inserted may be contained, and deleting it gives
/// back the filter from before the insertion.
pub proof fn lemma_inserted_fingerprint_is_held(counters: Seq<u64>, elem: Seq<u8>)
    requires
        counters.len() == FILTER_WIDTH,
        insertable(counters, elem),
    ensures
        may_contain(with_inserted(counters, elem), elem),
        deletable(with_inserted(counters, elem), elem),
        with_deleted(with_inserted(counters, elem), elem) == counters,
{
    assert(with_deleted(with_inserted(counters, elem), elem) =~= counters);
}

/// Committing idle segments keeps every cursor in order: the front never
/// passes the rear.
pub proof fn lemma_growth_keeps_cursors_in_order(
    s: PalletView,
    acc: AccountId,
    accumulator: Accumulator,
    expected_front: u64,
    new_rear: u64,
    signature: TeeSig,
)
    requires
        s.cursors_in_order(),
    ensures
        s.commit_idle_growth(acc, accumulator, expected_front, new_rear, signature) matches Ok(
            (next, _),
        ) ==> next.cursors_in_order(),
{
}

/// Retiring idle segments keeps every cursor in order: a front beyond the
/// rear is refused.
pub proof fn lemma_retirement_keeps_cursors_in_order(
    s: PalletView,
    acc: AccountId,
    accumulator: Accumulator,
    new_front: u64,
    expected_rear: u64,
    signature: TeeSig,
)
    requires
        s.cursors_in_order(),
    ensures
        s.commit_idle_retirement(acc, accumulator, new_front, expected_rear, signature) matches Ok(
            (next, _),
        ) ==> next.cursors_in_order(),
{
}

/// Committing idle segments keeps the ledger's rules: the miner stays within
/// the space it declared.
pub proof fn lemma_growth_keeps_rules(
    s: PalletView,
    acc: AccountId,
    accumulator: Accumulator,
    expected_front: u64,
    new_rear: u64,
    signature: TeeSig,
)
    requires
        s.inv(),
    ensures
        s.commit_idle_growth(acc, accumulator, expected_front, new_rear, signature) matches Ok(
            (next, _),
        ) ==> next.inv(),
{
}

/// Retiring idle segments keeps the ledger's rules: the front stays within
/// the rear.
pub proof fn lemma_retirement_keeps_rules(
    s: PalletView,
    acc: AccountId,
    accumulator: Accumulator,
    new_front: u64,
    expected_rear: u64,
    signature: TeeSig,
)
    requires
        s.inv(),
    ensures
        s.commit_idle_retirement(acc, accumulator, new_front, expected_rear, signature) matches Ok(
            (next, _),
        ) ==> next.inv(),
{
}

/// Giving up idle space keeps the ledger's rules.
pub proof fn lemma_idle_shrink_keeps_rules(s: PalletView, acc: AccountId, bytes: u128)
    requires
        s.inv(),
    ensures
        s.apply_idle_shrink(acc, bytes) matches Ok((next, _)) ==> next.inv(),
{
}

/// Taking on service space keeps the ledger's rules: growth beyond the
/// declared space is refused.
pub proof fn lemma_service_growth_keeps_rules(s: PalletView, acc: AccountId, bytes: u128)
    requires
        s.inv(),
    ensures
        s.grow_service_space(acc, bytes) matches Ok((next, _)) ==> next.inv(),
{
}

/// Letting go of service space keeps the ledger's rules.
pub proof fn lemma_service_shrink_keeps_rules(s: PalletView, acc: AccountId, bytes: u128)
    requires
        s.inv(),
    ensures
        s.shrink_service_space(acc, bytes) matches Ok((next, _)) ==> next.inv(),
{
}

/// Registering files changes no space, and so keeps the ledger's rules.
pub proof fn lemma_register_keeps_rules(s: PalletView, acc: AccountId, list: Seq<Seq<u8>>)
    requires
        s.inv(),
    ensures
        s.register_service_files(acc, list) matches Ok((next, _)) ==> next.inv(),
{
}

/// Deregistering files changes no space, and so keeps the ledger's rules.
pub proof fn lemma_deregister_keeps_rules(s: PalletView, acc: AccountId, list: Seq<Seq<u8>>)
    requires
        s.inv(),
    ensures
        s.deregister_service_files(acc, list) matches Ok((next, _)) ==> next.inv(),
{
}

/// Settling a round keeps the ledger's rules: no miner ends up with more
/// orders than there are installments.
pub proof fn lemma_settlement_keeps_rules(
    s: PalletView,
    miner: AccountId,
    total_power: u128,
    miner_power: u128,
    reward_base: Balance,
    now: BlockNumber,
)
    requires
        s.inv(),
    ensures
        s.settle_round_reward(miner, total_power, miner_power, reward_base, now) matches Ok(
            (next, _),
        ) ==> next.inv(),
{
}

/// An exit keeps the ledger's rules: the miner's spaces stay as they were,
/// and no block gets more releases than the schedule allows.
pub proof fn lemma_exit_keeps_rules(s: PalletView, acc: AccountId)
    requires
        s.inv(),
    ensures
        s.exit_miner(acc) matches Ok((next, _)) ==> next.inv(),
{
}

/// Absorbing restored space keeps the ledger's rules.
pub proof fn lemma_restoral_keeps_rules(s: PalletView, miner: AccountId, bytes: u128)
    requires
        s.inv(),
    ensures
        s.absorb_restoral(miner, bytes) matches Ok((next, _)) ==> next.inv(),
{
}

/// A miner in state `Positive` that commits idle segments with a stale view
/// of its front is turned away with `CountError`, whatever else it sends.
pub proof fn lemma_stale_front_is_rejected(
    s: PalletView,
    acc: AccountId,
    accumulator: Accumulator,
    expected_front: u64,
    new_rear: u64,
    signature: TeeSig,
)
    requires
        s.miner_items.contains_key(acc),
        s.miner_items[acc].state == MinerState::Positive,
        expected_front != s.miner_items[acc].space_proof_info.front,
    ensures
        s.commit_idle_growth(acc, accumulator, expected_front, new_rear, signature) == Err::<
            (PalletView, u128),
            LedgerError,
        >(LedgerError::CountError),
{
}

/// A miner cannot retire segments that it has not committed: a front beyond
/// the rear of its cursor is turned away with `CountError`.
pub proof fn lemma_retirement_beyond_rear_is_rejected(
    s: PalletView,
    acc: AccountId,
    accumulator: Accumulator,
    new_front: u64,
    expected_rear: u64,
    signature: TeeSig,
)
    requires
        s.miner_items.contains_key(acc),
        new_front > s.miner_items[acc].space_proof_info.rear,
    ensures
        s.commit_idle_retirement(acc, accumulator, new_front, expected_rear, signature) == Err::<
            (PalletView, u64),
            LedgerError,
        >(LedgerError::CountError),
{
}

/// An update that committed idle segments cannot be replayed: the same front
/// and rear, sent again, are turned away with `CountError`.
pub proof fn lemma_growth_cannot_be_replayed(
    s: PalletView,
    acc: AccountId,
    accumulator: Accumulator,
    expected_front: u64,
    new_rear: u64,
    signature: TeeSig,
    replayed_accumulator: Accumulator,
    replayed_signature: TeeSig,
)
    requires
        s.commit_idle_growth(acc, accumulator, expected_front, new_rear, signature) is Ok,
    ensures
        s.commit_idle_growth(
            acc,
            accumulator,
            expected_front,
            new_rear,
            signature,
        )->Ok_0.0.commit_idle_growth(
            acc,
            replayed_accumulator,
            expected_front,
            new_rear,
            replayed_signature,
        ) == Err::<(PalletView, u128), LedgerError>(LedgerError::CountError),
{
}

/// A miner that holds as many reward orders as there are installments gets no
/// further order: a settlement leaves its orders and its total as they are.
pub proof fn lemma_full_order_list_is_never_extended(
    s: PalletView,
    miner: AccountId,
    total_power: u128,
    miner_power: u128,
    reward_base: Balance,
    now: BlockNumber,
)
    requires
        s.reward_map.contains_key(miner),
        s.reward_map[miner].order_list.len() == s.config.release_number,
    ensures
        match s.settle_round_reward(miner, total_power, miner_power, reward_base, now) {
            Ok((next, settlement)) => next == s && settlement == Settlement::Skipped,
            Err(_) => true,
        },
        s.config.release_number != 0 ==> s.settle_round_reward(
            miner,
            total_power,
            miner_power,
            reward_base,
            now,
        ) == Ok::<(PalletView, Settlement), LedgerError>((s, Settlement::Skipped)),
{
}

/// A miner that has not earned anything owes the minimal penalty for a missed
/// proof, whatever its limit and however many proofs it has missed.
pub proof fn lemma_penalty_without_reward_is_minimal(
    s: PalletView,
    miner: AccountId,
    limit: Balance,
    count: u8,
)
    requires
        s.reward_map.contains_key(miner),
        s.reward_map[miner].total_reward == 0,
    ensures
        s.escalating_penalty(miner, limit, count) == Ok::<Balance, LedgerError>(MINIMAL_PUNISH),
{
}

/// Idle space that would leave the range of its type is not committed: the
/// update fails with `Overflow`.
pub proof fn lemma_growth_overflow_fails(
    s: PalletView,
    acc: AccountId,
    accumulator: Accumulator,
    expected_front: u64,
    new_rear: u64,
    signature: TeeSig,
)
    requires
        s.miner_items.contains_key(acc),
        s.miner_items[acc].state == MinerState::Positive,
        expected_front == s.miner_items[acc].space_proof_info.front,
        new_rear > s.miner_items[acc].space_proof_info.rear,
        s.miner_items[acc].idle_space + s.config.idle_seg_size * (new_rear
            - s.miner_items[acc].space_proof_info.rear) + s.miner_items[acc].service_space
            + s.miner_items[acc].lock_space > u128::MAX,
    ensures
        s.commit_idle_growth(acc, accumulator, expected_front, new_rear, signature) == Err::<
            (PalletView, u128),
            LedgerError,
        >(LedgerError::Overflow),
{
}

/// A miner cannot give up more idle space than it has: the attempt fails
/// with `Overflow`.
pub proof fn lemma_idle_shrink_underflow_fails(s: PalletView, acc: AccountId, bytes: u128)
    requires
        s.miner_items.contains_key(acc),
        bytes > s.miner_items[acc].idle_space,
    ensures
        s.apply_idle_shrink(acc, bytes) == Err::<(PalletView, ()), LedgerError>(
            LedgerError::Overflow,
        ),
{
}

/// Service space that would leave the range of its type is not taken on: the
/// attempt fails with `Overflow`.
pub proof fn lemma_service_growth_overflow_fails(s: PalletView, acc: AccountId, bytes: u128)
    requires
        s.miner_items.contains_key(acc),
        !s.miner_items[acc].departed(),
        s.miner_items[acc].idle_space + s.miner_items[acc].service_space + bytes
            + s.miner_items[acc].lock_space > u128::MAX,
    ensures
        s.grow_service_space(acc, bytes) == Err::<(PalletView, ()), LedgerError>(
            LedgerError::Overflow,
        ),
{
}

/// A miner cannot let go of more service space than it has: the attempt
/// fails with `Overflow`.
pub proof fn lemma_service_shrink_underflow_fails(s: PalletView, acc: AccountId, bytes: u128)
    requires
        s.miner_items.contains_key(acc),
        !s.miner_items[acc].departed(),
        bytes > s.miner_items[acc].service_space,
    ensures
        s.shrink_service_space(acc, bytes) == Err::<(PalletView, ()), LedgerError>(
            LedgerError::Overflow,
        ),
{
}

/// A reward that would take a miner's total out of the range of its type is
/// not admitted: the settlement fails with `Overflow`.
pub proof fn lemma_settlement_overflow_fails(
    s: PalletView,
    miner: AccountId,
    total_power: u128,
    miner_power: u128,
    reward_base: Balance,
    now: BlockNumber,
)
    requires
        s.config.release_number != 0,
        s.reward_map.contains_key(miner),
        s.reward_map[miner].order_list.len() != s.config.release_number,
        s.reward_map[miner].total_reward + PalletView::round_reward(
            total_power,
            miner_power,
            reward_base,
        ) > u128::MAX,
    ensures
        s.settle_round_reward(miner, total_power, miner_power, reward_base, now) == Err::<
            (PalletView, Settlement),
            LedgerError,
        >(LedgerError::Overflow),
{
    crate::fraction::lemma_rational_parts_bound(miner_power as nat, total_power as nat);
    crate::fraction::lemma_floor_share_bound(
        crate::fraction::rational_parts(miner_power as nat, total_power as nat),
        reward_base as nat,
    );
}

/// A miner that was paid more than it earned cannot leave: the exit fails
/// with `Overflow`.
pub proof fn lemma_exit_residue_underflow_fails(s: PalletView, acc: AccountId)
    requires
        s.miner_items.contains_key(acc),
        s.reward_map.contains_key(acc),
        s.reward_map[acc].total_reward != 0,
        s.reward_map[acc].reward_issued > s.reward_map[acc].total_reward,
    ensures
        s.exit_miner(acc) is Err,
        s.exit_miner(acc)->Err_0 == LedgerError::Overflow,
{
}

/// A release that would fall beyond the last block cannot be scheduled: the
/// exit fails with `Overflow`.
pub proof fn lemma_exit_block_overflow_fails(s: PalletView, acc: AccountId)
    requires
        s.miner_items.contains_key(acc),
        s.reward_map.contains_key(acc),
        s.reward_map[acc].total_reward != 0,
        s.reward_map[acc].reward_issued <= s.reward_map[acc].total_reward,
        s.staking_start_block.contains_key(acc),
        s.staking_start_block[acc] + s.config.staking_lock_block > BlockNumber::MAX,
    ensures
        s.exit_miner(acc) is Err,
        s.exit_miner(acc)->Err_0 == LedgerError::Overflow,
{
}

/// Restored space that would leave the range of its type is not recorded: the
/// attempt fails with `Overflow`.
pub proof fn lemma_restoral_overflow_fails(s: PalletView, miner: AccountId, bytes: u128)
    requires
        s.restoral_target.contains_key(miner),
        s.restoral_target[miner].restored_space + bytes > u128::MAX,
    ensures
        s.absorb_restoral(miner, bytes) == Err::<(PalletView, ()), LedgerError>(
            LedgerError::Overflow,
        ),
{
}

} // verus!
