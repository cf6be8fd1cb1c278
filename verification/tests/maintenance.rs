use lido::account_map::PubkeyAndEntry;
use lido::maintenance::{MaintenanceAction, MaintenanceResult, SolidoState, StakeBalance, StakeBalanceError};
use lido::pubkey::Pubkey;
use lido::rent::Rent;
use lido::state::{Lido, Validator};
use lido::token::Lamports;

fn default_rent() -> Rent {
    // Rate 6960 lamports per byte, threshold 1.0.
    Rent { lamports_per_byte: 6_960, exemption_threshold: [0, 0, 0, 0, 0, 0, 240, 63], burn_percent: 50 }
}

fn balance(inactive: u64, activating: u64, active: u64, deactivating: u64) -> StakeBalance {
    StakeBalance {
        inactive: Lamports(inactive),
        activating: Lamports(activating),
        active: Lamports(active),
        deactivating: Lamports(deactivating),
    }
}

#[test]
fn fully_active_needs_all_stake_active_and_some_stake() {
    assert!(balance(0, 0, 10, 0).is_fully_active());
    assert!(!balance(0, 0, 0, 0).is_fully_active());
    assert!(!balance(1, 0, 10, 0).is_fully_active());
    assert!(!balance(0, 1, 10, 0).is_fully_active());
    assert!(!balance(0, 0, 10, 1).is_fully_active());
}

#[test]
fn stake_balance_split() {
    assert_eq!(StakeBalance::from_activation(100, 50, 20, 10), Ok(balance(20, 20, 50, 10)));
    assert_eq!(StakeBalance::from_activation(100, 101, 0, 0), Err(StakeBalanceError::ActiveExceedsBalance));
    assert_eq!(StakeBalance::from_activation(100, 50, 51, 0), Err(StakeBalanceError::ActivatingExceedsRemainder));
    assert_eq!(StakeBalance::from_activation(100, 50, 20, 31), Err(StakeBalanceError::DeactivatingExceedsRemainder));
    assert_eq!(StakeBalance::from_activation(100, 50, 20, 30), Ok(balance(0, 20, 50, 30)));
}

fn state(reserve: u64, rent: Rent) -> SolidoState {
    SolidoState {
        solido: Lido::default(),
        validator_stake_accounts: vec![vec![(Pubkey([1; 32]), balance(0, 0, 5, 0))]],
        reserve_account_lamports: reserve,
        rent,
    }
}

#[test]
fn effective_reserve_keeps_the_reserve_rent_exempt() {
    // An empty account must hold (128 + 0) * 6960 lamports.
    assert_eq!(state(1_000_000, default_rent()).get_effective_reserve(), Lamports(1_000_000 - 890_880));
    assert_eq!(state(100, default_rent()).get_effective_reserve(), Lamports(0));
    let doubled = Rent { exemption_threshold: [0, 0, 0, 0, 0, 0, 0, 64], ..default_rent() };
    assert_eq!(state(2_000_000, doubled).get_effective_reserve(), Lamports(2_000_000 - 2 * 890_880));
    let half = Rent { exemption_threshold: 0.5f64.to_le_bytes(), ..default_rent() };
    assert_eq!(state(1_000_000, half).get_effective_reserve(), Lamports(1_000_000 - 445_440));
}

fn state_with_validators(reserve: u64, lists: Vec<Vec<(Pubkey, StakeBalance)>>) -> SolidoState {
    let mut solido = Lido::default();
    solido.validators.maximum_entries = 3;
    for v in 0..3u8 {
        solido.validators.entries.push(PubkeyAndEntry { pubkey: Pubkey([100 + v; 32]), entry: Validator::new(Pubkey([v; 32])) });
    }
    SolidoState { solido, validator_stake_accounts: lists, reserve_account_lamports: reserve, rent: default_rent() }
}

#[test]
fn stake_deposit_needs_a_rent_exempt_stake_account() {
    // A stake account must hold (128 + 200) * 6960 = 2_282_880 lamports; the
    // reserve keeps 890_880 for itself.
    assert_eq!(state(3_173_759, default_rent()).try_stake_deposit(), None);
    assert_eq!(
        state(3_173_760, default_rent()).try_stake_deposit(),
        Some(MaintenanceAction::StakeDeposit { amount: Lamports(2_282_880) })
    );
    assert_eq!(
        state(10_000_000, default_rent()).try_stake_deposit(),
        Some(MaintenanceAction::StakeDeposit { amount: Lamports(10_000_000 - 890_880) })
    );
    assert_eq!(state(0, default_rent()).try_stake_deposit(), None);
}

#[test]
fn deposit_takes_first_fully_active_begin_seed_account() {
    let lists = vec![
        vec![(Pubkey([1; 32]), balance(0, 5, 5, 0)), (Pubkey([2; 32]), balance(0, 0, 5, 0))],
        vec![],
        vec![(Pubkey([3; 32]), balance(0, 0, 7, 0))],
    ];
    let s = state_with_validators(0, lists);
    assert_eq!(
        s.try_deposit_active_stake_to_pool(),
        Some(MaintenanceAction::DepositActiveStakeToPool {
            validator_vote_account: Pubkey([102; 32]),
            stake_account: Pubkey([3; 32]),
        })
    );
    assert_eq!(
        s.perform_maintenance_step(),
        (
            MaintenanceResult::DidExecute,
            Some(MaintenanceAction::DepositActiveStakeToPool {
                validator_vote_account: Pubkey([102; 32]),
                stake_account: Pubkey([3; 32]),
            })
        )
    );

    // Only begin-seed accounts count, and only for validators with an entry.
    let lists = vec![vec![(Pubkey([1; 32]), balance(1, 0, 5, 0)), (Pubkey([2; 32]), balance(0, 0, 5, 0))]];
    assert_eq!(state_with_validators(0, lists).try_deposit_active_stake_to_pool(), None);
    assert_eq!(state(0, default_rent()).try_deposit_active_stake_to_pool(), None);
}

#[test]
fn maintenance_stakes_before_depositing() {
    let lists = vec![vec![(Pubkey([1; 32]), balance(0, 0, 5, 0))]];
    let s = state_with_validators(5_000_000, lists.clone());
    assert_eq!(
        s.perform_maintenance_step(),
        (MaintenanceResult::DidExecute, Some(MaintenanceAction::StakeDeposit { amount: Lamports(5_000_000 - 890_880) }))
    );
    let lists = vec![vec![(Pubkey([1; 32]), balance(0, 5, 0, 0))]];
    let s = state_with_validators(1_000, lists);
    assert_eq!(s.perform_maintenance_step(), (MaintenanceResult::NothingToDo, None));
}
