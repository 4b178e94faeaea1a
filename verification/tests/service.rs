use sminer::bloom::BloomFilter;
use sminer::fraction::Fraction;
use sminer::miner::MinerInfo;
use sminer::pallet::Pallet;
use sminer::types::{Config, LedgerError, MinerState, PoISKeyInfo, SpaceProofInfo};

fn service_config() -> Config {
    Config {
        idle_seg_size: 100,
        release_number: 3,
        installment_share: Fraction::from_percent(50),
        idle_punish_ratio: Fraction::from_percent(10),
        service_punish_ratio: Fraction::from_percent(25),
        staking_lock_block: 1000,
        schedule_limit: 2,
    }
}

fn service_miner(state: MinerState) -> MinerInfo {
    MinerInfo {
        beneficiary: 100,
        staking_account: 200,
        state,
        declaration_space: 1000,
        idle_space: 100,
        service_space: 300,
        lock_space: 50,
        collaterals: 5000,
        space_proof_info: SpaceProofInfo {
            front: 0,
            rear: 1,
            pois_key: PoISKeyInfo { g: [1u8; 256], n: [2u8; 256] },
            accumulator: [0u8; 256],
        },
        service_bloom_filter: BloomFilter::new(),
        tee_signature: [0u8; 64],
    }
}

fn service_pallet(info: MinerInfo) -> Pallet {
    let mut pallet = Pallet::new(service_config());
    pallet.put_miner(1, info).unwrap();
    pallet
}

fn service_mark(positions: &[usize]) -> Box<[u8; 256]> {
    let mut elem = [0u8; 256];
    for p in positions {
        elem[*p] = 1;
    }
    Box::new(elem)
}

#[test]
fn service_space_grows_and_shrinks() {
    let mut pallet = service_pallet(service_miner(MinerState::Positive));
    assert_eq!(pallet.add_miner_service_space(1, 200), Ok(()));
    assert_eq!(pallet.miner(1).unwrap().service_space, 500);
    assert_eq!(pallet.sub_miner_service_space(1, 450), Ok(()));
    assert_eq!(pallet.miner(1).unwrap().service_space, 50);
    let mut expected = service_miner(MinerState::Positive);
    expected.service_space = 50;
    assert_eq!(pallet.miner(1), Some(expected));
}

#[test]
fn service_change_for_an_unknown_account_is_passed_over() {
    let mut pallet = service_pallet(service_miner(MinerState::Positive));
    assert_eq!(pallet.add_miner_service_space(2, 200), Ok(()));
    assert_eq!(pallet.sub_miner_service_space(2, 200), Ok(()));
    assert_eq!(pallet.miner(2), None);
    assert_eq!(pallet.miner(1), Some(service_miner(MinerState::Positive)));
}

#[test]
fn service_change_for_a_departed_miner_is_passed_over() {
    for state in [MinerState::Offline, MinerState::Exiting] {
        let mut pallet = service_pallet(service_miner(state));
        assert_eq!(pallet.add_miner_service_space(1, 200), Ok(()));
        assert_eq!(pallet.add_miner_service_space(1, u128::MAX), Ok(()));
        assert_eq!(pallet.sub_miner_service_space(1, 200), Ok(()));
        assert_eq!(pallet.sub_miner_service_space(1, 301), Ok(()));
        assert_eq!(pallet.miner(1), Some(service_miner(state)));
    }
}

#[test]
fn service_change_reaches_a_frozen_miner() {
    let mut pallet = service_pallet(service_miner(MinerState::Frozen));
    assert_eq!(pallet.add_miner_service_space(1, 10), Ok(()));
    assert_eq!(pallet.miner(1).unwrap().service_space, 310);
    assert_eq!(pallet.sub_miner_service_space(1, 20), Ok(()));
    assert_eq!(pallet.miner(1).unwrap().service_space, 290);
}

#[test]
fn service_growth_that_overflows_is_refused() {
    let mut pallet = service_pallet(service_miner(MinerState::Positive));
    assert_eq!(
        pallet.add_miner_service_space(1, u128::MAX),
        Err(LedgerError::Overflow)
    );
    assert_eq!(
        pallet.add_miner_service_space(1, u128::MAX - 449),
        Err(LedgerError::Overflow)
    );
    assert_eq!(pallet.miner(1), Some(service_miner(MinerState::Positive)));
}

#[test]
fn service_growth_beyond_the_declaration_is_refused() {
    let mut pallet = service_pallet(service_miner(MinerState::Positive));
    assert_eq!(
        pallet.add_miner_service_space(1, 551),
        Err(LedgerError::ExceedingDeclarationSpace)
    );
    assert_eq!(pallet.miner(1), Some(service_miner(MinerState::Positive)));
    assert_eq!(pallet.add_miner_service_space(1, 550), Ok(()));
    let info = pallet.miner(1).unwrap();
    assert_eq!(
        info.idle_space + info.service_space + info.lock_space,
        info.declaration_space
    );
}

#[test]
fn service_shrink_below_zero_is_an_overflow() {
    let mut pallet = service_pallet(service_miner(MinerState::Positive));
    assert_eq!(
        pallet.sub_miner_service_space(1, 301),
        Err(LedgerError::Overflow)
    );
    assert_eq!(pallet.miner(1), Some(service_miner(MinerState::Positive)));
    assert_eq!(pallet.sub_miner_service_space(1, 300), Ok(()));
    assert_eq!(pallet.miner(1).unwrap().service_space, 0);
}

#[test]
fn spaces_stay_within_the_declaration() {
    let mut pallet = service_pallet(service_miner(MinerState::Positive));
    let amounts: [u128; 6] = [100, 400, 60, 1, u128::MAX, 49];
    for amount in amounts {
        let _ = pallet.add_miner_service_space(1, amount);
        let _ = pallet.add_miner_idle_space(
            1,
            [0u8; 256],
            0,
            pallet.miner(1).unwrap().space_proof_info.rear + 1,
            [0u8; 64],
        );
        let _ = pallet.sub_miner_service_space(1, amount / 3);
        let info = pallet.miner(1).unwrap();
        let held = info.idle_space + info.service_space + info.lock_space;
        assert!(held <= info.declaration_space);
    }
}

#[test]
fn file_marks_are_inserted_and_deleted() {
    let mut pallet = service_pallet(service_miner(MinerState::Positive));
    let list = vec![service_mark(&[1, 2]), service_mark(&[2, 3])];
    assert_eq!(pallet.insert_service_bloom(1, list), Ok(()));
    let mut expected = [0u64; 256];
    expected[1] = 1;
    expected[2] = 2;
    expected[3] = 1;
    assert_eq!(pallet.miner(1).unwrap().service_bloom_filter.0, expected);
    assert_eq!(
        pallet.delete_service_bloom(1, vec![service_mark(&[1, 2])]),
        Ok(())
    );
    expected[1] = 0;
    expected[2] = 1;
    assert_eq!(pallet.miner(1).unwrap().service_bloom_filter.0, expected);
    let mut record = service_miner(MinerState::Positive);
    record.service_bloom_filter = BloomFilter(expected);
    assert_eq!(pallet.miner(1), Some(record));
}

#[test]
fn file_marks_need_a_miner() {
    let mut pallet = service_pallet(service_miner(MinerState::Positive));
    assert_eq!(
        pallet.insert_service_bloom(2, vec![service_mark(&[1])]),
        Err(LedgerError::NotMiner)
    );
    assert_eq!(
        pallet.delete_service_bloom(2, Vec::new()),
        Err(LedgerError::NotMiner)
    );
}

#[test]
fn failed_insertion_inserts_nothing() {
    let mut pallet = service_pallet(service_miner(MinerState::Positive));
    let mut bad = [0u8; 256];
    bad[4] = 2;
    let list = vec![service_mark(&[1, 2]), Box::new(bad)];
    assert_eq!(
        pallet.insert_service_bloom(1, list),
        Err(LedgerError::FilterCapacityError)
    );
    assert_eq!(pallet.miner(1), Some(service_miner(MinerState::Positive)));
}

#[test]
fn failed_insertion_on_a_full_counter_inserts_nothing() {
    let mut record = service_miner(MinerState::Positive);
    record.service_bloom_filter.0[9] = u64::MAX;
    let mut pallet = service_pallet(record);
    let list = vec![service_mark(&[1]), service_mark(&[9])];
    assert_eq!(
        pallet.insert_service_bloom(1, list),
        Err(LedgerError::FilterCapacityError)
    );
    assert_eq!(pallet.miner(1), Some(record));
}

#[test]
fn failed_deletion_deletes_nothing() {
    let mut pallet = service_pallet(service_miner(MinerState::Positive));
    pallet
        .insert_service_bloom(1, vec![service_mark(&[1, 2])])
        .unwrap();
    let before = pallet.miner(1);
    let list = vec![service_mark(&[1]), service_mark(&[1])];
    assert_eq!(
        pallet.delete_service_bloom(1, list),
        Err(LedgerError::FilterCapacityError)
    );
    assert_eq!(pallet.miner(1), before);
}
