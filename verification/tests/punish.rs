use sminer::bloom::BloomFilter;
use sminer::fraction::Fraction;
use sminer::ledger::MINIMAL_PUNISH;
use sminer::miner::MinerInfo;
use sminer::pallet::Pallet;
use sminer::types::{Config, LedgerError, MinerState, PoISKeyInfo, Reward, SpaceProofInfo};

fn punish_config() -> Config {
    Config {
        idle_seg_size: 100,
        release_number: 3,
        installment_share: Fraction::from_percent(50),
        idle_punish_ratio: Fraction::from_percent(10),
        service_punish_ratio: Fraction::from_percent(25),
        staking_lock_block: 1000,
        schedule_limit: 2,
    }
}

fn punish_pallet(total_reward: u128) -> Pallet {
    let mut pallet = Pallet::new(punish_config());
    let info = MinerInfo {
        beneficiary: 100,
        staking_account: 200,
        state: MinerState::Positive,
        declaration_space: 1000,
        idle_space: 100,
        service_space: 300,
        lock_space: 50,
        collaterals: 5000,
        space_proof_info: SpaceProofInfo {
            front: 0,
            rear: 1,
            pois_key: PoISKeyInfo { g: [1u8; 256], n: [2u8; 256] },
            accumulator: [0u8; 256],
        },
        service_bloom_filter: BloomFilter::new(),
        tee_signature: [0u8; 64],
    };
    pallet.put_miner(1, info).unwrap();
    pallet
        .put_reward(1, Reward { total_reward, reward_issued: 0, order_list: Vec::new() })
        .unwrap();
    pallet
}

#[test]
fn idle_punish_is_the_idle_ratio_of_the_limit() {
    let pallet = punish_pallet(500);
    assert_eq!(pallet.idle_punish(1, 4000), Ok(400));
    assert_eq!(pallet.idle_punish(1, 4009), Ok(400));
    assert_eq!(pallet.idle_punish(1, 0), Ok(0));
    assert_eq!(
        pallet.idle_punish(1, u128::MAX),
        Ok(34_028_236_692_093_846_346_337_460_743_176_821_145)
    );
}

#[test]
fn service_punish_is_the_service_ratio_of_the_limit() {
    let pallet = punish_pallet(500);
    assert_eq!(pallet.service_punish(1, 4000), Ok(1000));
    assert_eq!(pallet.service_punish(1, 4003), Ok(1000));
    assert_eq!(pallet.service_punish(1, 3), Ok(0));
}

#[test]
fn punishing_an_unknown_miner_fails() {
    let pallet = punish_pallet(500);
    assert_eq!(pallet.idle_punish(2, 4000), Err(LedgerError::NotMiner));
    assert_eq!(pallet.service_punish(2, 4000), Err(LedgerError::NotMiner));
    assert_eq!(pallet.clear_punish(2, 4000, 1), Err(LedgerError::NotMiner));
}

#[test]
fn clear_punish_escalates_with_the_count() {
    let pallet = punish_pallet(500);
    assert_eq!(pallet.clear_punish(1, 4000, 1), Ok(0));
    assert_eq!(pallet.clear_punish(1, 4000, 2), Ok(200));
    assert_eq!(pallet.clear_punish(1, 4000, 3), Ok(600));
    assert_eq!(pallet.clear_punish(1, 4000, 4), Ok(600));
    assert_eq!(pallet.clear_punish(1, 4000, 255), Ok(600));
    assert_eq!(pallet.clear_punish(1, 4000, 0), Ok(600));
}

#[test]
fn clear_punish_rounds_down() {
    let pallet = punish_pallet(1);
    assert_eq!(pallet.clear_punish(1, 19, 2), Ok(0));
    assert_eq!(pallet.clear_punish(1, 39, 2), Ok(1));
    assert_eq!(pallet.clear_punish(1, 99, 3), Ok(14));
}

#[test]
fn clear_punish_without_reward_is_the_minimal_penalty() {
    let pallet = punish_pallet(0);
    assert_eq!(MINIMAL_PUNISH, 100);
    for count in [0u8, 1, 2, 3, 4, 100, 255] {
        for limit in [0u128, 1, 4000, u128::MAX] {
            assert_eq!(pallet.clear_punish(1, limit, count), Ok(100));
        }
    }
}

#[test]
fn punishing_changes_nothing() {
    let pallet = punish_pallet(500);
    let miner = pallet.miner(1);
    let reward = pallet.reward(1);
    pallet.idle_punish(1, 4000).unwrap();
    pallet.service_punish(1, 4000).unwrap();
    pallet.clear_punish(1, 4000, 3).unwrap();
    assert_eq!(pallet.miner(1), miner);
    assert_eq!(pallet.reward(1), reward);
}
