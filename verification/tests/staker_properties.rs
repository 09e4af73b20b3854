use wattpeak::decimal::Decimal;
use wattpeak::response::Coin;
use wattpeak::response::Env;
use wattpeak::response::MessageInfo;
use wattpeak::response::Payment;
use wattpeak::staker::error::StakingError;
use wattpeak::staker::execute::claim_rewards;
use wattpeak::staker::execute::deposit_rewards;
use wattpeak::staker::execute::execute;
use wattpeak::staker::execute::stake_wattpeak;
use wattpeak::staker::execute::unstake_wattpeak;
use wattpeak::staker::execute::update_config;
use wattpeak::staker::helpers::calculate_interest_after_epoch;
use wattpeak::staker::helpers::calculate_staker_share_of_reward;
use wattpeak::staker::helpers::epoch_interest;
use wattpeak::staker::helpers::set_yearly_percentage;
use wattpeak::staker::instantiate;
use wattpeak::staker::msg::ExecuteMsg;
use wattpeak::staker::msg::InstantiateMsg;
use wattpeak::staker::query::query_staker;
use wattpeak::staker::query::query_stakers;
use wattpeak::staker::state::is_sorted;
use wattpeak::staker::state::Config;
use wattpeak::staker::state::EpochState;
use wattpeak::staker::state::Ledger;
use wattpeak::staker::state::Staker;
use wattpeak::staker::state::StakerEntry;

fn env_at(block_time: u64) -> Env {
    Env { block_time }
}

fn info(sender: &str, amount: Option<u128>) -> MessageInfo {
    MessageInfo {
        sender: sender.to_string(),
        funds: amount.map(|a| Coin { denom: "watt".to_string(), amount: a }).into_iter().collect(),
    }
}

fn config(rewards_percent: u64, epoch_length: u64, fee_percent: u64) -> Config {
    Config {
        admin: "admin".to_string(),
        rewards_percentage: Decimal::percent(rewards_percent),
        epoch_length,
        wattpeak_denom: "watt".to_string(),
        staking_fee_address: "staking_fee_address".to_string(),
        staking_fee_percentage: Decimal::percent(fee_percent),
    }
}

fn setup(rewards_percent: u64, epoch_length: u64) -> Ledger {
    instantiate(InstantiateMsg { config: config(rewards_percent, epoch_length, 5) }, true).unwrap().0
}

fn outside(d: cosmwasm_std::Decimal) -> Decimal {
    Decimal::raw(d.atomics().u128())
}

/// The totals of a ledger are the sums over its records.
fn assert_totals(ledger: &Ledger) {
    let staked: u128 = ledger.stakers().iter().map(|e| e.staker.wattpeak_staked).sum();
    let interest: u128 = ledger.stakers().iter().map(|e| e.staker.interest_wattpeak.atomics).sum();
    assert_eq!(ledger.total_wattpeak_staked(), staked);
    assert_eq!(ledger.total_interest_wattpeak().atomics, interest);
    assert!(is_sorted(ledger.stakers()));
}

fn assert_none_drained(ledger: &Ledger) {
    for entry in ledger.stakers() {
        assert!(!entry.staker.is_drained(), "{} is drained", entry.address);
    }
}

#[test]
fn totals_are_sums_through_a_run_of_operations() {
    let mut ledger = setup(10, 86000);
    let env = env_at(100);
    let admin = info("admin", None);
    assert_totals(&ledger);
    for (who, amount) in [("addr3", 300u128), ("addr1", 100), ("addr2", 200), ("addr1", 50)] {
        stake_wattpeak(&mut ledger, &env, &info(who, Some(amount))).unwrap();
        assert_totals(&ledger);
        assert_none_drained(&ledger);
    }
    assert_eq!(ledger.total_wattpeak_staked(), 650);
    calculate_interest_after_epoch(&mut ledger, &admin).unwrap();
    assert_totals(&ledger);
    unstake_wattpeak(&mut ledger, &info("addr2", None), 200).unwrap();
    assert_totals(&ledger);
    assert_none_drained(&ledger);
    // addr2 has nothing staked, but its interest keeps the record
    assert_eq!(ledger.staker("addr2").unwrap().wattpeak_staked, 0);
    calculate_interest_after_epoch(&mut ledger, &admin).unwrap();
    assert_totals(&ledger);
    deposit_rewards(&mut ledger, &info("admin", Some(1_000_000))).unwrap();
    assert_totals(&ledger);
    assert_eq!(ledger.total_interest_wattpeak(), Decimal::zero());
    assert_none_drained(&ledger);
    claim_rewards(&mut ledger, &info("addr2", None)).unwrap();
    assert_totals(&ledger);
    assert_none_drained(&ledger);
    // the claim drained addr2, so its record is gone
    assert_eq!(ledger.staker("addr2"), None);
    claim_rewards(&mut ledger, &info("addr1", None)).unwrap();
    unstake_wattpeak(&mut ledger, &info("addr1", None), 150).unwrap();
    assert_eq!(ledger.staker("addr1"), None);
    assert_totals(&ledger);
    assert_none_drained(&ledger);
    assert_eq!(ledger.total_wattpeak_staked(), 300);
    assert_eq!(ledger.epoch_count(), 2);
}

#[test]
fn records_are_listed_in_ascending_order_of_address() {
    let mut ledger = setup(10, 86000);
    let env = env_at(7);
    for who in ["carol", "alice", "bob", "alicf", "alic"] {
        stake_wattpeak(&mut ledger, &env, &info(who, Some(1))).unwrap();
    }
    let listed: Vec<&str> = ledger.stakers().iter().map(|e| e.address.as_str()).collect();
    assert_eq!(listed, vec!["alic", "alice", "alicf", "bob", "carol"]);
    assert_eq!(query_stakers(&ledger).stakers.len(), 5);
    assert_eq!(ledger.staker("bob").unwrap().stake_start_time, 7);
}

#[test]
fn stake_then_unstake_restores_the_ledger() {
    // a staker without a record: the record made by the stake is struck again
    let mut ledger = setup(10, 86000);
    let env = env_at(100);
    stake_wattpeak(&mut ledger, &env, &info("addr1", Some(100))).unwrap();
    let before = ledger.clone();
    stake_wattpeak(&mut ledger, &env_at(200), &info("addr0", Some(40))).unwrap();
    assert_ne!(ledger, before);
    unstake_wattpeak(&mut ledger, &info("addr0", None), 40).unwrap();
    assert_eq!(ledger, before);
    // a staker with a record: the balance is as it was
    stake_wattpeak(&mut ledger, &env_at(300), &info("addr1", Some(40))).unwrap();
    assert_eq!(ledger.staker("addr1").unwrap().wattpeak_staked, 140);
    assert_eq!(ledger.staker("addr1").unwrap().stake_start_time, 100);
    unstake_wattpeak(&mut ledger, &info("addr1", None), 40).unwrap();
    assert_eq!(ledger, before);
}

#[test]
fn two_epochs_accrue_twice_the_interest_of_one() {
    let mut ledger = setup(10, 86000);
    let env = env_at(100);
    let admin = info("admin", None);
    stake_wattpeak(&mut ledger, &env, &info("addr1", Some(100))).unwrap();
    stake_wattpeak(&mut ledger, &env, &info("addr2", Some(12345))).unwrap();
    calculate_interest_after_epoch(&mut ledger, &admin).unwrap();
    let one1 = ledger.staker("addr1").unwrap().interest_wattpeak.atomics;
    let one2 = ledger.staker("addr2").unwrap().interest_wattpeak.atomics;
    let total1 = ledger.total_interest_wattpeak().atomics;
    assert!(one1 > 0);
    calculate_interest_after_epoch(&mut ledger, &admin).unwrap();
    assert_eq!(ledger.staker("addr1").unwrap().interest_wattpeak.atomics, 2 * one1);
    assert_eq!(ledger.staker("addr2").unwrap().interest_wattpeak.atomics, 2 * one2);
    assert_eq!(ledger.total_interest_wattpeak().atomics, 2 * total1);
    assert_eq!(ledger.epoch_count(), 2);
}

#[test]
fn interest_of_one_epoch_is_stake_times_rate_times_part_of_year() {
    let mut ledger = setup(10, 86000);
    let env = env_at(100);
    let admin = info("admin", None);
    for (who, amount) in [("addr1", 100u128), ("addr2", 200), ("addr3", 300)] {
        stake_wattpeak(&mut ledger, &env, &info(who, Some(amount))).unwrap();
    }
    assert_eq!(ledger.total_wattpeak_staked(), 600);
    let response = calculate_interest_after_epoch(&mut ledger, &admin).unwrap();
    assert!(response.messages.is_empty());
    assert!(response.attributes.is_empty());
    // 86000 / 31556926 = 0.002725233756925500, rounded down
    assert_eq!(ledger.percentage_of_year(), Decimal::raw(2_725_233_756_925_500));
    let part = cosmwasm_std::Decimal::from_ratio(86000u128, 31556926u128);
    assert_eq!(ledger.percentage_of_year(), outside(part));
    for (who, amount) in [("addr1", 100u128), ("addr2", 200), ("addr3", 300)] {
        let expected = cosmwasm_std::Decimal::from_ratio(amount, 1u128)
            .checked_mul(cosmwasm_std::Decimal::percent(10))
            .unwrap()
            .checked_mul(part)
            .unwrap();
        assert_eq!(ledger.staker(who).unwrap().interest_wattpeak, outside(expected));
    }
    // 100 * 0.1 * 0.0027252337569255 = 0.027252337569255
    assert_eq!(ledger.staker("addr1").unwrap().interest_wattpeak, Decimal::raw(27_252_337_569_255_000));
    assert_eq!(ledger.total_interest_wattpeak(), Decimal::raw(6 * 27_252_337_569_255_000));
    assert_eq!(ledger.epoch_count(), 1);
    assert_eq!(
        epoch_interest(100, Decimal::percent(10), ledger.percentage_of_year()),
        Some(Decimal::raw(27_252_337_569_255_000))
    );
}

#[test]
fn deposit_is_shared_by_interest() {
    let mut ledger = setup(10, 86000);
    let env = env_at(100);
    let admin = info("admin", None);
    for (who, amount) in [("addr1", 100u128), ("addr2", 200), ("addr3", 300)] {
        stake_wattpeak(&mut ledger, &env, &info(who, Some(amount))).unwrap();
    }
    calculate_interest_after_epoch(&mut ledger, &admin).unwrap();
    let total = ledger.total_interest_wattpeak();
    let interests: Vec<Decimal> =
        ["addr1", "addr2", "addr3"].iter().map(|who| ledger.staker(who).unwrap().interest_wattpeak).collect();
    deposit_rewards(&mut ledger, &info("admin", Some(574))).unwrap();
    let mut paid = 0u128;
    for (who, interest) in ["addr1", "addr2", "addr3"].iter().zip(interests) {
        let share = cosmwasm_std::Decimal::raw(interest.atomics)
            .checked_div(cosmwasm_std::Decimal::raw(total.atomics))
            .unwrap();
        let expected = cosmwasm_std::Decimal::from_ratio(574u128, 1u128).checked_mul(share).unwrap();
        let staker = ledger.staker(who).unwrap();
        assert_eq!(staker.claimable_rewards, outside(expected));
        assert_eq!(staker.interest_wattpeak, Decimal::zero());
        paid += staker.claimable_rewards.atomics;
    }
    assert_eq!(ledger.total_interest_wattpeak(), Decimal::zero());
    // rounding loses to the stakers, never gains
    assert!(paid <= 574 * 1_000_000_000_000_000_000);
    assert!(paid > 573 * 1_000_000_000_000_000_000);
}

#[test]
fn sole_earner_receives_the_whole_deposit() {
    let mut ledger = setup(7, 12345);
    stake_wattpeak(&mut ledger, &env_at(1), &info("only", Some(999))).unwrap();
    calculate_interest_after_epoch(&mut ledger, &info("admin", None)).unwrap();
    deposit_rewards(&mut ledger, &info("admin", Some(5_000_001))).unwrap();
    assert_eq!(
        ledger.staker("only").unwrap().claimable_rewards,
        Decimal::raw(5_000_001 * 1_000_000_000_000_000_000)
    );
}

#[test]
fn claim_splits_fee_and_payout() {
    let mut ledger = setup(5, 86400);
    for (who, amount) in [("addr1", 100u128), ("addr2", 200), ("addr3", 300)] {
        stake_wattpeak(&mut ledger, &env_at(1), &info(who, Some(amount))).unwrap();
    }
    calculate_interest_after_epoch(&mut ledger, &info("admin", None)).unwrap();
    deposit_rewards(&mut ledger, &info("admin", Some(574))).unwrap();
    let claimable = ledger.staker("addr1").unwrap().claimable_rewards;
    assert_eq!(claimable, Decimal::raw(95_666_666_666_666_666_284));
    let response = claim_rewards(&mut ledger, &info("addr1", None)).unwrap();
    // the fee is 4.783333333333333314, the rest 90.88333333333333297
    assert_eq!(
        response.messages,
        vec![
            Payment { to_address: "addr1".to_string(), denom: "watt".to_string(), amount: 90 },
            Payment { to_address: "staking_fee_address".to_string(), denom: "watt".to_string(), amount: 4 },
        ]
    );
    assert_eq!(response.attributes.len(), 3);
    assert_eq!(response.attributes[0].key, "action");
    assert_eq!(response.attributes[0].value, "claim_rewards");
    assert_eq!(response.attributes[1].key, "from");
    assert_eq!(response.attributes[1].value, "addr1");
    assert_eq!(response.attributes[2].key, "amount");
    assert_eq!(response.attributes[2].value, "95.666666666666666284");
    assert_eq!(ledger.staker("addr1").unwrap().claimable_rewards, Decimal::zero());
    assert_eq!(ledger.staker("addr1").unwrap().wattpeak_staked, 100);
}

#[test]
fn full_unstake_strikes_the_record() {
    let mut ledger = setup(5, 86400);
    stake_wattpeak(&mut ledger, &env_at(1), &info("addr1", Some(100))).unwrap();
    let response = unstake_wattpeak(&mut ledger, &info("addr1", None), 100).unwrap();
    assert_eq!(
        response.messages,
        vec![Payment { to_address: "addr1".to_string(), denom: "watt".to_string(), amount: 100 }]
    );
    assert_eq!(response.attributes[0].value, "unstake");
    assert_eq!(response.attributes[1].value, "addr1");
    assert_eq!(response.attributes[2].value, "100");
    assert_eq!(ledger.staker("addr1"), None);
    assert!(ledger.stakers().is_empty());
    assert_eq!(query_staker(&ledger, "addr1".to_string()), Staker::default());
    assert_eq!(ledger.total_wattpeak_staked(), 0);
}

#[test]
fn deposit_without_outstanding_interest_is_rejected() {
    // before any epoch has ended
    let mut ledger = setup(5, 86400);
    stake_wattpeak(&mut ledger, &env_at(1), &info("addr1", Some(100))).unwrap();
    let before = ledger.clone();
    let res = deposit_rewards(&mut ledger, &info("admin", Some(574)));
    assert_eq!(res.unwrap_err(), StakingError::NothingToDistribute);
    assert_eq!(ledger, before);
    assert_eq!(calculate_staker_share_of_reward(&mut ledger, 574), Err(StakingError::NothingToDistribute));
    assert_eq!(ledger, before);
    // with no staker at all
    let mut empty = setup(5, 86400);
    let res = execute(&mut empty, &env_at(1), &info("admin", Some(574)), ExecuteMsg::DepositRewards {}, true);
    assert_eq!(res.unwrap_err(), StakingError::NothingToDistribute);
    // after a distribution has used the interest up
    calculate_interest_after_epoch(&mut ledger, &info("admin", None)).unwrap();
    deposit_rewards(&mut ledger, &info("admin", Some(574))).unwrap();
    let res = deposit_rewards(&mut ledger, &info("admin", Some(574)));
    assert_eq!(res.unwrap_err(), StakingError::NothingToDistribute);
}

#[test]
fn rejections_leave_the_ledger_as_it_was() {
    let mut ledger = setup(5, 86400);
    stake_wattpeak(&mut ledger, &env_at(1), &info("addr1", Some(100))).unwrap();
    calculate_interest_after_epoch(&mut ledger, &info("admin", None)).unwrap();
    let before = ledger.clone();
    let env = env_at(2);

    let zero = MessageInfo { sender: "addr1".to_string(), funds: vec![Coin { denom: "watt".to_string(), amount: 0 }] };
    assert_eq!(stake_wattpeak(&mut ledger, &env, &zero), Err(StakingError::ZeroStake));
    assert_eq!(stake_wattpeak(&mut ledger, &env, &info("addr1", None)), Err(StakingError::NoStakeFunds));
    let mixed = MessageInfo {
        sender: "addr1".to_string(),
        funds: vec![
            Coin { denom: "watt".to_string(), amount: 5 },
            Coin { denom: "other".to_string(), amount: 0 },
        ],
    };
    assert_eq!(stake_wattpeak(&mut ledger, &env, &mixed), Err(StakingError::ZeroStake));
    assert_eq!(
        stake_wattpeak(&mut ledger, &env, &info("addr2", Some(u128::MAX))),
        Err(StakingError::Overflow)
    );
    assert_eq!(unstake_wattpeak(&mut ledger, &info("addr1", None), 0), Err(StakingError::ZeroUnstake));
    assert_eq!(unstake_wattpeak(&mut ledger, &info("addr1", None), 101), Err(StakingError::InsufficientStake));
    assert_eq!(unstake_wattpeak(&mut ledger, &info("nobody", None), 1), Err(StakingError::StakerNotFound));
    assert_eq!(claim_rewards(&mut ledger, &info("addr1", None)), Err(StakingError::NoRewards));
    assert_eq!(claim_rewards(&mut ledger, &info("nobody", None)), Err(StakingError::ClaimerNotFound));
    assert_eq!(deposit_rewards(&mut ledger, &info("addr1", Some(5))), Err(StakingError::Unauthorized));
    assert_eq!(deposit_rewards(&mut ledger, &info("admin", None)), Err(StakingError::NoDepositFunds));
    assert_eq!(deposit_rewards(&mut ledger, &info("admin", Some(0))), Err(StakingError::ZeroDeposit));
    assert_eq!(deposit_rewards(&mut ledger, &info("admin", Some(u128::MAX))), Err(StakingError::Overflow));
    assert_eq!(
        calculate_interest_after_epoch(&mut ledger, &info("addr1", None)),
        Err(StakingError::Unauthorized)
    );
    assert_eq!(
        update_config(&mut ledger, &info("addr1", None), None, Some(5), None, true),
        Err(StakingError::Unauthorized)
    );
    assert_eq!(
        update_config(&mut ledger, &info("admin", None), Some("x".to_string()), None, None, false),
        Err(StakingError::InvalidAddress)
    );
    assert_eq!(
        update_config(&mut ledger, &info("admin", None), None, Some(0), None, true),
        Err(StakingError::ZeroEpochLength)
    );
    assert_eq!(
        update_config(&mut ledger, &info("admin", None), None, None, Some(Decimal::raw(1_000_000_000_000_000_001)), true),
        Err(StakingError::RewardsPercentageTooHigh)
    );
    assert_eq!(ledger, before);
    assert_eq!(ledger.epoch_count(), 1);
}

#[test]
fn the_first_coin_of_the_denomination_counts() {
    let mut ledger = setup(5, 86400);
    let funds = MessageInfo {
        sender: "addr1".to_string(),
        funds: vec![
            Coin { denom: "other".to_string(), amount: 9 },
            Coin { denom: "watt".to_string(), amount: 5 },
            Coin { denom: "watt".to_string(), amount: 7 },
        ],
    };
    let response = stake_wattpeak(&mut ledger, &env_at(3), &funds).unwrap();
    assert_eq!(ledger.staker("addr1").unwrap().wattpeak_staked, 5);
    assert_eq!(ledger.total_wattpeak_staked(), 5);
    assert!(response.messages.is_empty());
    assert_eq!(response.attributes[0].key, "action");
    assert_eq!(response.attributes[0].value, "stake_wattpeak");
    assert_eq!(response.attributes[1].key, "from");
    assert_eq!(response.attributes[1].value, "addr1");
    assert_eq!(response.attributes[2].key, "amount");
    assert_eq!(response.attributes[2].value, "5");
}

#[test]
fn overflow_of_interest_is_rejected_without_a_trace() {
    // a stake too large to be written as a fixed-point number
    let mut ledger = setup(100, u64::MAX);
    stake_wattpeak(&mut ledger, &env_at(1), &info("small", Some(10))).unwrap();
    stake_wattpeak(&mut ledger, &env_at(1), &info("whale", Some(u128::MAX / 1_000_000_000_000_000_000 + 1))).unwrap();
    let before = ledger.clone();
    assert_eq!(calculate_interest_after_epoch(&mut ledger, &info("admin", None)), Err(StakingError::Overflow));
    assert_eq!(ledger, before);
    assert_eq!(epoch_interest(u128::MAX, Decimal::one(), Decimal::one()), None);
    assert_eq!(epoch_interest(u128::MAX / 1_000_000_000_000_000_000, Decimal::one(), Decimal::one()),
        Some(Decimal::raw((u128::MAX / 1_000_000_000_000_000_000) * 1_000_000_000_000_000_000)));
    // the interest itself too large
    assert_eq!(epoch_interest(1_000_000, Decimal::one(), Decimal::raw(u128::MAX)), None);
}

#[test]
fn configuration_is_checked_in_order() {
    let bad_everything = Config {
        admin: "admin".to_string(),
        rewards_percentage: Decimal::percent(101),
        epoch_length: 0,
        wattpeak_denom: "watt".to_string(),
        staking_fee_address: "fee".to_string(),
        staking_fee_percentage: Decimal::percent(101),
    };
    assert_eq!(bad_everything.validate(false), Err(StakingError::InvalidAddress));
    assert_eq!(bad_everything.validate(true), Err(StakingError::ZeroEpochLength));
    let mut c = bad_everything.clone();
    c.epoch_length = 1;
    assert_eq!(c.validate(true), Err(StakingError::RewardsPercentageTooHigh));
    c.rewards_percentage = Decimal::percent(100);
    assert_eq!(c.validate(true), Err(StakingError::FeePercentageTooHigh));
    c.staking_fee_percentage = Decimal::percent(100);
    assert_eq!(c.validate(true), Ok(()));
    assert_eq!(
        instantiate(InstantiateMsg { config: bad_everything }, true).unwrap_err(),
        StakingError::ZeroEpochLength
    );
    assert_eq!(StakingError::FeePercentageTooHigh.to_string(),
        "Generic error: staking_fee_percentage cannot be greater than 100%");
    assert_eq!(StakingError::Overflow.to_string(), "Generic error: Overflow");
}

#[test]
fn update_of_configuration_merges_and_recomputes_the_part_of_year() {
    let mut ledger = setup(5, 86400);
    let old_part = ledger.percentage_of_year();
    let response =
        update_config(&mut ledger, &info("admin", None), None, Some(43200), Some(Decimal::percent(7)), true).unwrap();
    assert_eq!(response.attributes.len(), 1);
    assert_eq!(response.attributes[0].key, "action");
    assert_eq!(response.attributes[0].value, "update_config");
    assert_eq!(ledger.config().admin, "admin");
    assert_eq!(ledger.config().epoch_length, 43200);
    assert_eq!(ledger.config().rewards_percentage, Decimal::percent(7));
    assert_eq!(ledger.config().staking_fee_percentage, Decimal::percent(5));
    assert_eq!(ledger.percentage_of_year(), outside(cosmwasm_std::Decimal::from_ratio(43200u128, 31556926u128)));
    assert_ne!(ledger.percentage_of_year(), old_part);
    // the new admin is the one who may act from now on
    update_config(&mut ledger, &info("admin", None), Some("new_admin".to_string()), None, None, true).unwrap();
    assert_eq!(
        calculate_interest_after_epoch(&mut ledger, &info("admin", None)),
        Err(StakingError::Unauthorized)
    );
    calculate_interest_after_epoch(&mut ledger, &info("new_admin", None)).unwrap();
}

#[test]
fn part_of_year_is_epoch_length_over_seconds_of_a_year() {
    let mut part = Decimal::zero();
    set_yearly_percentage(&mut part, 31_556_926);
    assert_eq!(part, Decimal::one());
    set_yearly_percentage(&mut part, 0);
    assert_eq!(part, Decimal::zero());
    set_yearly_percentage(&mut part, 86400);
    // 86400 / 31556926 = 0.002737909262771665...
    assert_eq!(part, Decimal::raw(2_737_909_262_771_665));
    set_yearly_percentage(&mut part, u64::MAX);
    let expected = cosmwasm_std::Decimal::from_ratio(u64::MAX, 1u64)
        .checked_div(cosmwasm_std::Decimal::from_ratio(31556926u64, 1u64))
        .unwrap();
    assert_eq!(part, outside(expected));
}

#[test]
fn restore_accepts_well_formed_ledgers_only() {
    let a = Staker {
        wattpeak_staked: 10,
        interest_wattpeak: Decimal::raw(3),
        stake_start_time: 1,
        claimable_rewards: Decimal::raw(8),
    };
    let b = Staker {
        wattpeak_staked: 20,
        interest_wattpeak: Decimal::raw(4),
        stake_start_time: 2,
        claimable_rewards: Decimal::zero(),
    };
    let entries = |first: &str, second: &str| {
        vec![
            StakerEntry { address: first.to_string(), staker: a },
            StakerEntry { address: second.to_string(), staker: b },
        ]
    };
    let ledger = Ledger::restore(config(5, 86400, 5), entries("a", "b"), 30, Decimal::raw(7), 9).unwrap();
    assert_eq!(ledger.epoch_count(), 9);
    assert_eq!(ledger.total_wattpeak_staked(), 30);
    assert_eq!(ledger.total_interest_wattpeak(), Decimal::raw(7));
    assert_eq!(ledger.staker("b"), Some(b));
    assert_eq!(ledger.percentage_of_year(), Decimal::raw(2_737_909_262_771_665));
    // out of order, or an address twice
    assert_eq!(Ledger::restore(config(5, 86400, 5), entries("b", "a"), 30, Decimal::raw(7), 9), None);
    assert_eq!(Ledger::restore(config(5, 86400, 5), entries("a", "a"), 30, Decimal::raw(7), 9), None);
    // totals that are not the sums
    assert_eq!(Ledger::restore(config(5, 86400, 5), entries("a", "b"), 31, Decimal::raw(7), 9), None);
    assert_eq!(Ledger::restore(config(5, 86400, 5), entries("a", "b"), 30, Decimal::raw(6), 9), None);
    // a configuration that is not valid
    assert_eq!(Ledger::restore(config(5, 0, 5), entries("a", "b"), 30, Decimal::raw(7), 9), None);
    assert_eq!(Ledger::restore(config(5, 86400, 101), entries("a", "b"), 30, Decimal::raw(7), 9), None);
    // sums beyond 128 bits
    let huge = Staker { wattpeak_staked: u128::MAX, ..a };
    let both = vec![
        StakerEntry { address: "a".to_string(), staker: huge },
        StakerEntry { address: "b".to_string(), staker: huge },
    ];
    assert_eq!(Ledger::restore(config(5, 86400, 5), both, u128::MAX, Decimal::raw(6), 9), None);
}

#[test]
fn epoch_clock_advances_when_the_epoch_is_over() {
    let mut clock = EpochState { epoch_length: 86000, current_epoch: 1, epoch_start_time: 1000 };
    clock.check_update_epoch(&env_at(86_999));
    assert_eq!(clock, EpochState { epoch_length: 86000, current_epoch: 1, epoch_start_time: 1000 });
    clock.check_update_epoch(&env_at(87_000));
    assert_eq!(clock, EpochState { epoch_length: 86000, current_epoch: 2, epoch_start_time: 87_000 });
    clock.check_update_epoch(&env_at(87_001));
    assert_eq!(clock.current_epoch, 2);
    // an end of epoch beyond the range of the clock is never reached
    let mut far = EpochState { epoch_length: u64::MAX, current_epoch: 5, epoch_start_time: 10 };
    far.check_update_epoch(&env_at(u64::MAX));
    assert_eq!(far.current_epoch, 5);
    assert_eq!(far.epoch_start_time, 10);
}

#[test]
fn distribution_keeps_a_record_whose_part_rounds_to_zero() {
    // "a" has nothing staked and nothing to claim, and so little interest
    // that its share of the total rounds down to zero
    let a = Staker {
        wattpeak_staked: 0,
        interest_wattpeak: Decimal::raw(1),
        stake_start_time: 3,
        claimable_rewards: Decimal::zero(),
    };
    let b = Staker {
        wattpeak_staked: 10,
        interest_wattpeak: Decimal::raw(2_000_000_000_000_000_000),
        stake_start_time: 4,
        claimable_rewards: Decimal::zero(),
    };
    let entries = vec![
        StakerEntry { address: "a".to_string(), staker: a },
        StakerEntry { address: "b".to_string(), staker: b },
    ];
    let mut ledger =
        Ledger::restore(config(5, 86400, 5), entries, 10, Decimal::raw(2_000_000_000_000_000_001), 1).unwrap();
    assert_none_drained(&ledger);
    deposit_rewards(&mut ledger, &info("admin", Some(5))).unwrap();
    assert_totals(&ledger);
    let left = ledger.staker("a").unwrap();
    assert!(left.is_drained());
    assert_eq!(left.stake_start_time, 3);
    // 5 * 0.999999999999999999
    assert_eq!(ledger.staker("b").unwrap().claimable_rewards, Decimal::raw(4_999_999_999_999_999_995));
}
