use lido::account_map::AccountMap;
use lido::error::LidoError;
use lido::pubkey::Pubkey;
use lido::state::{
    distribute_fees, FeeDistribution, Fees, Lido, Maintainers, Validator, Validators,
    LIDO_CONSTANT_SIZE,
};
use lido::token::{Lamports, Rational, StLamports};

#[test]
fn test_account_map_required_bytes_relates_to_maximum_entries() {
    for buffer_size in 0..8_000 {
        let max_entries = Validators::maximum_entries(buffer_size);
        let needed_size = Validators::required_bytes(max_entries);
        assert!(
            needed_size <= buffer_size || max_entries == 0,
            "Buffer of len {} can fit {} validators which need {} bytes.",
            buffer_size,
            max_entries,
            needed_size,
        );

        let max_entries = Maintainers::maximum_entries(buffer_size);
        let needed_size = Maintainers::required_bytes(max_entries);
        assert!(
            needed_size <= buffer_size || max_entries == 0,
            "Buffer of len {} can fit {} maintainers which need {} bytes.",
            buffer_size,
            max_entries,
            needed_size,
        );
    }
}

#[test]
fn lido_initialized() {
    let lido = Lido::default();

    assert!(lido.is_initialized().is_ok());
}

#[test]
fn test_pool_tokens_when_total_lamports_is_zero() {
    let lido = Lido::default();

    let pool_tokens_for_deposit = lido.calc_pool_tokens_for_deposit(Lamports(123), Lamports(0));

    assert_eq!(pool_tokens_for_deposit, Some(StLamports(123)));
}

#[test]
fn test_pool_tokens_when_st_sol_total_shares_is_default() {
    let lido = Lido::default();

    let pool_tokens_for_deposit = lido.calc_pool_tokens_for_deposit(Lamports(200), Lamports(100));

    assert_eq!(pool_tokens_for_deposit, Some(StLamports(0)));
}

#[test]
fn test_pool_tokens_when_st_sol_total_shares_is_increased() {
    let mut lido = Lido::default();
    lido.st_sol_total_shares = StLamports(120);

    let pool_tokens_for_deposit = lido.calc_pool_tokens_for_deposit(Lamports(200), Lamports(40));

    assert_eq!(pool_tokens_for_deposit, Some(StLamports(600)));
}

#[test]
fn test_pool_tokens_when_stake_lamports_is_zero() {
    let mut lido = Lido::default();
    lido.st_sol_total_shares = StLamports(120);

    let pool_tokens_for_deposit = lido.calc_pool_tokens_for_deposit(Lamports(0), Lamports(40));

    assert_eq!(pool_tokens_for_deposit, Some(StLamports(0)));
}

#[test]
fn test_lido_for_deposit_wrong_mint() {
    let mut lido = Lido::default();
    lido.st_sol_mint = Pubkey([7; 32]);

    let other_mint = Pubkey([9; 32]);
    let result = lido.check_mint_is_st_sol_mint(&other_mint);

    assert_eq!(result, Err(LidoError::InvalidStSolAccount));
}

#[test]
fn test_fee_distribution() {
    let spec = FeeDistribution {
        treasury_fee: 3,
        validation_fee: 2,
        developer_fee: 1,
    };
    assert_eq!(
        Fees {
            treasury_amount: StLamports(300),
            reward_per_validator: StLamports(200),
            developer_amount: StLamports(100),
        },
        // Test no rounding errors
        distribute_fees(&spec, 1, Lamports(600)).unwrap()
    );

    assert_eq!(
        Fees {
            treasury_amount: StLamports(500),
            reward_per_validator: StLamports(83),
            developer_amount: StLamports(168),
        },
        // Test rounding errors going to manager
        distribute_fees(&spec, 4, Lamports(1_000)).unwrap()
    );
    let spec_coprime = FeeDistribution {
        treasury_fee: 17,
        validation_fee: 23,
        developer_fee: 19,
    };
    assert_eq!(
        Fees {
            treasury_amount: StLamports(288),
            reward_per_validator: StLamports(389),
            developer_amount: StLamports(323),
        },
        distribute_fees(&spec_coprime, 1, Lamports(1_000)).unwrap()
    );
}

#[test]
fn fee_distribution_without_parts_or_validators_is_none() {
    let none = FeeDistribution { treasury_fee: 0, validation_fee: 0, developer_fee: 0 };
    assert_eq!(distribute_fees(&none, 3, Lamports(1_000)), None);
    let spec = FeeDistribution { treasury_fee: 1, validation_fee: 1, developer_fee: 1 };
    assert_eq!(distribute_fees(&spec, 0, Lamports(1_000)), None);
}

#[test]
fn fee_distribution_conserves_and_bounds_loss() {
    let spec = FeeDistribution { treasury_fee: 5, validation_fee: 7, developer_fee: 11 };
    for n in 1..20u64 {
        for reward in [0u64, 1, 22, 23, 999, 1_000_003, u64::MAX] {
            let f = distribute_fees(&spec, n, Lamports(reward)).unwrap();
            let total = f.treasury_amount.0 as u128
                + f.reward_per_validator.0 as u128 * n as u128
                + f.developer_amount.0 as u128;
            assert_eq!(total, reward as u128);
            let target = reward as u128 * 7 / 23;
            let actual = f.reward_per_validator.0 as u128 * n as u128;
            assert!(actual <= target && target - actual < n as u128);
            assert!(f.developer_amount.0 as u128 * 23 >= reward as u128 * 11);
        }
    }
}

#[test]
fn fee_distribution_large_reward_does_not_overflow() {
    let spec = FeeDistribution { treasury_fee: u32::MAX, validation_fee: u32::MAX, developer_fee: u32::MAX };
    let f = distribute_fees(&spec, 1, Lamports(u64::MAX)).unwrap();
    assert_eq!(f.treasury_amount.0, u64::MAX / 3);
    assert_eq!(f.reward_per_validator.0, u64::MAX / 3);
    assert_eq!(f.developer_amount.0, u64::MAX - 2 * (u64::MAX / 3));
}

#[test]
fn fee_fractions_share_the_sum() {
    let spec = FeeDistribution { treasury_fee: u32::MAX, validation_fee: 2, developer_fee: u32::MAX };
    assert_eq!(spec.sum(), 2 * u32::MAX as u64 + 2);
    assert_eq!(spec.treasury_fraction(), Rational { numerator: u32::MAX as u64, denominator: spec.sum() });
    assert_eq!(spec.validation_fraction(), Rational { numerator: 2, denominator: spec.sum() });
}

#[test]
fn pool_tokens_overflow_is_none() {
    let mut lido = Lido::default();
    lido.st_sol_total_shares = StLamports(u64::MAX);
    assert_eq!(lido.calc_pool_tokens_for_deposit(Lamports(u64::MAX), Lamports(1)), None);
    assert_eq!(
        lido.calc_pool_tokens_for_deposit(Lamports(u64::MAX), Lamports(u64::MAX)),
        Some(StLamports(u64::MAX))
    );
}

#[test]
fn pool_tokens_round_down_and_at_par() {
    let mut lido = Lido::default();
    lido.st_sol_total_shares = StLamports(10);
    assert_eq!(lido.calc_pool_tokens_for_deposit(Lamports(7), Lamports(3)), Some(StLamports(23)));
    lido.st_sol_total_shares = StLamports(55);
    assert_eq!(lido.calc_pool_tokens_for_deposit(Lamports(12), Lamports(55)), Some(StLamports(12)));
}

#[test]
fn token_arithmetic_edges() {
    assert_eq!(StLamports(10).mul_rational(Rational { numerator: 1, denominator: 0 }), None);
    assert_eq!(StLamports(10).checked_div(0), None);
    assert_eq!(StLamports(10).checked_div(3), Some(StLamports(3)));
    assert_eq!(StLamports(u64::MAX).checked_mul(2), None);
    assert_eq!(StLamports(4).checked_mul(5), Some(StLamports(20)));
    assert_eq!(StLamports(4).checked_sub(StLamports(5)), None);
    assert_eq!(StLamports(5).checked_sub(StLamports(4)), Some(StLamports(1)));
}

#[test]
fn is_initialized_rejects_instance_in_use() {
    let mut lido = Lido::default();
    lido.manager = Pubkey([1; 32]);
    assert_eq!(lido.is_initialized(), Err(LidoError::AlreadyInUse));
}

#[test]
fn manager_and_maintainer_checks() {
    let mut lido = Lido::default();
    lido.manager = Pubkey([3; 32]);
    assert_eq!(lido.check_manager(&Pubkey([3; 32])), Ok(()));
    assert_eq!(lido.check_manager(&Pubkey([4; 32])), Err(LidoError::InvalidManager));

    let mut maintainers: Maintainers = AccountMap::new(2);
    maintainers.entries.push(lido::account_map::PubkeyAndEntry { pubkey: Pubkey([5; 32]), entry: () });
    lido.maintainers = maintainers;
    assert_eq!(lido.check_maintainer(&Pubkey([5; 32])), Ok(()));
    assert_eq!(lido.check_maintainer(&Pubkey([6; 32])), Err(LidoError::InvalidManager));
    assert_eq!(lido.check_mint_is_st_sol_mint(&Pubkey([0; 32])), Ok(()));
}

#[test]
fn calculate_size_of_bounds() {
    assert_eq!(Lido::calculate_size(0, 0), LIDO_CONSTANT_SIZE + 16);
    assert_eq!(LIDO_CONSTANT_SIZE, 151);
    assert_eq!(Lido::calculate_size(1, 0), 151 + 16 + 96);
    assert_eq!(Lido::calculate_size(2, 3), 151 + 16 + 2 * 96 + 3 * 32);
    assert_eq!(
        Lido::calculate_size(10_000, 3),
        LIDO_CONSTANT_SIZE + Validators::required_bytes(10_000) + Maintainers::required_bytes(3)
    );
}

#[test]
fn maximum_entries_of_exact_buffer() {
    let n_validators: usize = 10_000;
    let size = Validators::required_bytes(n_validators);
    assert_eq!(Validators::maximum_entries(size), n_validators);
    assert_eq!(Validators::maximum_entries(size - 1), n_validators - 1);
    assert_eq!(Maintainers::maximum_entries(Maintainers::required_bytes(7)), 7);
    assert_eq!(Validators::maximum_entries(3), 0);
}

#[test]
fn new_validator_is_empty() {
    let v = Validator::new(Pubkey([8; 32]));
    assert_eq!(v.fee_address, Pubkey([8; 32]));
    assert_eq!(v.fee_credit, StLamports(0));
    assert_eq!(v.stake_accounts_seed_begin, 0);
    assert_eq!(v.stake_accounts_seed_end, 0);
    assert_eq!(v.stake_accounts_balance, Lamports(0));
}
