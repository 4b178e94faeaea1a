use sminer::bloom::BloomFilter;
use sminer::fraction::Fraction;
use sminer::ledger::{CollateralRelease, ExitReceipt};
use sminer::miner::MinerInfo;
use sminer::pallet::Pallet;
use sminer::types::{
    Config, LedgerError, MinerState, PoISKeyInfo, RestoralTargetInfo, Reward, SpaceProofInfo,
};

fn exit_config() -> Config {
    Config {
        idle_seg_size: 100,
        release_number: 3,
        installment_share: Fraction::from_percent(50),
        idle_punish_ratio: Fraction::from_percent(10),
        service_punish_ratio: Fraction::from_percent(25),
        staking_lock_block: 1000,
        schedule_limit: 2,
    }
}

fn exit_key(tag: u8) -> PoISKeyInfo {
    PoISKeyInfo { g: [tag; 256], n: [2u8; 256] }
}

fn exit_miner_record(acc: u64) -> MinerInfo {
    MinerInfo {
        beneficiary: 100 + acc,
        staking_account: 200 + acc,
        state: MinerState::Exiting,
        declaration_space: 1000,
        idle_space: 100,
        service_space: 300,
        lock_space: 50,
        collaterals: 5000 + acc as u128,
        space_proof_info: SpaceProofInfo {
            front: 0,
            rear: 1,
            pois_key: exit_key(acc as u8),
            accumulator: [0u8; 256],
        },
        service_bloom_filter: BloomFilter::new(),
        tee_signature: [0u8; 64],
    }
}

fn exit_enroll(pallet: &mut Pallet, acc: u64, total_reward: u128, reward_issued: u128, start: u32) {
    pallet.put_miner(acc, exit_miner_record(acc)).unwrap();
    pallet.enlist_miner(acc);
    pallet.bind_public_key(acc, &exit_key(acc as u8));
    pallet
        .put_reward(acc, Reward { total_reward, reward_issued, order_list: Vec::new() })
        .unwrap();
    pallet.put_staking_start_block(acc, start);
    pallet.put_pending_replacement(acc, 77);
}

fn exit_pallet() -> Pallet {
    let mut pallet = Pallet::new(exit_config());
    exit_enroll(&mut pallet, 1, 0, 0, 50);
    exit_enroll(&mut pallet, 2, 1000, 200, 50);
    exit_enroll(&mut pallet, 3, 10, 0, 50);
    pallet
}

#[test]
fn exit_without_reward_releases_the_collateral_at_once() {
    let mut pallet = exit_pallet();
    assert_eq!(
        pallet.force_miner_exit(1),
        Ok(ExitReceipt {
            collateral: CollateralRelease::Immediate { staking_account: 201, amount: 5001 },
            idle_space_removed: 150,
        })
    );
    assert_eq!(pallet.releases_at(1050), Vec::new());
    assert_eq!(pallet.releases_at(50), Vec::new());
}

#[test]
fn exit_with_reward_returns_the_residue_and_defers_the_collateral() {
    let mut pallet = exit_pallet();
    assert_eq!(
        pallet.force_miner_exit(2),
        Ok(ExitReceipt {
            collateral: CollateralRelease::Deferred { residue_reward: 800, exec_block: 1050 },
            idle_space_removed: 150,
        })
    );
    assert_eq!(pallet.releases_at(1050), vec![(202, 5002)]);
}

#[test]
fn exit_updates_every_store() {
    let mut pallet = exit_pallet();
    pallet.force_miner_exit(2).unwrap();
    assert_eq!(pallet.all_miner(), vec![1, 3]);
    let mut record = exit_miner_record(2);
    record.state = MinerState::Offline;
    assert_eq!(pallet.miner(2), Some(record));
    assert_eq!(pallet.reward(2), None);
    assert_eq!(pallet.pending_replacement(2), None);
    assert_eq!(pallet.public_key_owner(&exit_key(2)), None);
    assert_eq!(
        pallet.restoral_target(2),
        Some(RestoralTargetInfo { service_space: 350, restored_space: 0 })
    );
    assert_eq!(pallet.staking_start_block(2), Some(50));
}

#[test]
fn exit_leaves_other_miners_alone() {
    let mut pallet = exit_pallet();
    pallet.force_miner_exit(2).unwrap();
    assert_eq!(pallet.miner(1), Some(exit_miner_record(1)));
    assert_eq!(pallet.miner(3), Some(exit_miner_record(3)));
    assert_eq!(pallet.reward(1).unwrap().total_reward, 0);
    assert_eq!(pallet.reward(3).unwrap().total_reward, 10);
    assert_eq!(pallet.pending_replacement(1), Some(77));
    assert_eq!(pallet.public_key_owner(&exit_key(1)), Some(1));
    assert_eq!(pallet.public_key_owner(&exit_key(3)), Some(3));
    assert_eq!(pallet.restoral_target(1), None);
}

#[test]
fn exits_at_the_same_block_queue_up() {
    let mut pallet = exit_pallet();
    pallet.force_miner_exit(3).unwrap();
    pallet.force_miner_exit(2).unwrap();
    assert_eq!(pallet.releases_at(1050), vec![(203, 5003), (202, 5002)]);
    assert_eq!(pallet.all_miner(), vec![1]);
}

#[test]
fn exit_into_a_full_block_is_refused() {
    let mut pallet = exit_pallet();
    exit_enroll(&mut pallet, 4, 5, 5, 50);
    pallet.force_miner_exit(3).unwrap();
    pallet.force_miner_exit(2).unwrap();
    let miner = pallet.miner(4);
    let reward = pallet.reward(4);
    assert_eq!(
        pallet.force_miner_exit(4),
        Err(LedgerError::ScheduleCapacityError)
    );
    assert_eq!(pallet.all_miner(), vec![1, 4]);
    assert_eq!(pallet.miner(4), miner);
    assert_eq!(pallet.reward(4), reward);
    assert_eq!(pallet.releases_at(1050), vec![(203, 5003), (202, 5002)]);
    assert_eq!(pallet.restoral_target(4), None);
    assert_eq!(pallet.public_key_owner(&exit_key(4)), Some(4));
    assert_eq!(pallet.pending_replacement(4), Some(77));
}

#[test]
fn exit_of_an_unknown_account_fails() {
    let mut pallet = exit_pallet();
    assert_eq!(pallet.force_miner_exit(9), Err(LedgerError::Unexpected));
    assert_eq!(pallet.all_miner(), vec![1, 2, 3]);
}

#[test]
fn exit_of_a_listed_account_without_record_changes_nothing() {
    let mut pallet = exit_pallet();
    pallet.enlist_miner(9);
    assert_eq!(pallet.force_miner_exit(9), Err(LedgerError::Unexpected));
    assert_eq!(pallet.all_miner(), vec![1, 2, 3, 9]);
}

#[test]
fn exit_without_reward_record_leaves_the_collateral() {
    let mut pallet = Pallet::new(exit_config());
    pallet.put_miner(1, exit_miner_record(1)).unwrap();
    pallet.enlist_miner(1);
    assert_eq!(
        pallet.force_miner_exit(1),
        Ok(ExitReceipt { collateral: CollateralRelease::Untouched, idle_space_removed: 150 })
    );
    assert_eq!(pallet.all_miner(), Vec::<u64>::new());
    assert_eq!(pallet.miner(1).unwrap().state, MinerState::Offline);
}

#[test]
fn exit_with_more_issued_than_earned_is_an_overflow() {
    let mut pallet = exit_pallet();
    exit_enroll(&mut pallet, 4, 5, 6, 50);
    assert_eq!(pallet.force_miner_exit(4), Err(LedgerError::Overflow));
    assert_eq!(pallet.all_miner(), vec![1, 2, 3, 4]);
    assert_eq!(pallet.miner(4), Some(exit_miner_record(4)));
    assert_eq!(pallet.reward(4).unwrap().reward_issued, 6);
    assert_eq!(pallet.releases_at(1050), Vec::new());
}

#[test]
fn exit_without_staking_start_is_a_bug() {
    let mut pallet = Pallet::new(exit_config());
    pallet.put_miner(1, exit_miner_record(1)).unwrap();
    pallet.enlist_miner(1);
    pallet
        .put_reward(1, Reward { total_reward: 10, reward_issued: 0, order_list: Vec::new() })
        .unwrap();
    assert_eq!(pallet.force_miner_exit(1), Err(LedgerError::BugInvalid));
    assert_eq!(pallet.all_miner(), vec![1]);
    assert_eq!(pallet.miner(1), Some(exit_miner_record(1)));
}

#[test]
fn exit_beyond_the_last_block_is_an_overflow() {
    let mut pallet = exit_pallet();
    exit_enroll(&mut pallet, 4, 5, 5, u32::MAX - 999);
    assert_eq!(pallet.force_miner_exit(4), Err(LedgerError::Overflow));
    assert_eq!(pallet.all_miner(), vec![1, 2, 3, 4]);
    exit_enroll(&mut pallet, 5, 5, 5, u32::MAX - 1000);
    assert_eq!(
        pallet.force_miner_exit(5),
        Ok(ExitReceipt {
            collateral: CollateralRelease::Deferred { residue_reward: 0, exec_block: u32::MAX },
            idle_space_removed: 150,
        })
    );
}

#[test]
fn restoral_target_absorbs_space() {
    let mut pallet = exit_pallet();
    pallet.force_miner_exit(2).unwrap();
    assert_eq!(pallet.update_restoral_target(2, 100), Ok(()));
    assert_eq!(pallet.update_restoral_target(2, 50), Ok(()));
    assert_eq!(
        pallet.restoral_target(2),
        Some(RestoralTargetInfo { service_space: 350, restored_space: 150 })
    );
}

#[test]
fn restoral_needs_a_target() {
    let mut pallet = exit_pallet();
    assert_eq!(
        pallet.update_restoral_target(2, 100),
        Err(LedgerError::NotExisted)
    );
    assert_eq!(pallet.restoral_target(2), None);
}

#[test]
fn restoral_that_overflows_is_refused() {
    let mut pallet = exit_pallet();
    pallet.force_miner_exit(2).unwrap();
    pallet.update_restoral_target(2, 100).unwrap();
    assert_eq!(
        pallet.update_restoral_target(2, u128::MAX - 99),
        Err(LedgerError::Overflow)
    );
    assert_eq!(
        pallet.restoral_target(2),
        Some(RestoralTargetInfo { service_space: 350, restored_space: 100 })
    );
    assert_eq!(pallet.update_restoral_target(2, u128::MAX - 100), Ok(()));
    assert_eq!(pallet.restoral_target(2).unwrap().restored_space, u128::MAX);
}

#[test]
fn enlisting_twice_lists_once() {
    let mut pallet = Pallet::new(exit_config());
    pallet.enlist_miner(4);
    pallet.enlist_miner(5);
    pallet.enlist_miner(4);
    assert_eq!(pallet.all_miner(), vec![4, 5]);
    assert_eq!(pallet.config().schedule_limit, 2);
}

#[test]
fn preview_announces_the_exit_and_changes_nothing() {
    let mut pallet = exit_pallet();
    for acc in [1u64, 2, 3, 9] {
        let announced = pallet.preview_miner_exit(acc);
        assert_eq!(pallet.all_miner(), vec![1, 2, 3]);
        assert_eq!(pallet.miner(2), Some(exit_miner_record(2)));
        assert_eq!(pallet.releases_at(1050), Vec::new());
        assert_eq!(pallet.restoral_target(acc), None);
        let mut copy = pallet.clone();
        assert_eq!(copy.force_miner_exit(acc), announced);
    }
    assert_eq!(
        pallet.preview_miner_exit(2),
        Ok(ExitReceipt {
            collateral: CollateralRelease::Deferred { residue_reward: 800, exec_block: 1050 },
            idle_space_removed: 150,
        })
    );
    assert_eq!(pallet.preview_miner_exit(9), Err(LedgerError::Unexpected));
    pallet.force_miner_exit(3).unwrap();
    pallet.force_miner_exit(2).unwrap();
    exit_enroll(&mut pallet, 4, 5, 5, 50);
    assert_eq!(
        pallet.preview_miner_exit(4),
        Err(LedgerError::ScheduleCapacityError)
    );
}
