use lido::error::LidoError;
use lido::pubkey::{u64_le_seed, Pubkey};
use lido::state::{Lido, Validator};
use solana_program::program_pack::Pack;

fn outside(k: &Pubkey) -> solana_program::pubkey::Pubkey {
    solana_program::pubkey::Pubkey::new_from_array(k.0)
}

#[test]
fn reserve_account_is_the_program_address_of_its_seeds() {
    let program_id = Pubkey([11; 32]);
    let solido = Pubkey([12; 32]);
    let (expected, bump) = solana_program::pubkey::Pubkey::find_program_address(
        &[&solido.0[..], b"reserve_authority"],
        &outside(&program_id),
    );
    let mut lido = Lido::default();
    lido.sol_reserve_authority_bump_seed = bump;
    let reserve = lido.get_reserve_account(&program_id, &solido).unwrap();
    assert_eq!(reserve.0, expected.to_bytes());
    assert_ne!(reserve.0, solido.0);

    assert_eq!(lido.check_reserve_authority(&program_id, &solido, &reserve), Ok(reserve));
    assert_eq!(
        lido.check_reserve_authority(&program_id, &solido, &Pubkey([13; 32])),
        Err(LidoError::InvalidReserveAuthority)
    );
}

#[test]
fn reserve_account_on_curve_is_rejected() {
    let program_id = Pubkey([21; 32]);
    let solido = Pubkey([22; 32]);
    // Some bump seed gives a hash on the curve; the derivation refuses it.
    let mut found_error = false;
    for bump in 0..=255u8 {
        let mut lido = Lido::default();
        lido.sol_reserve_authority_bump_seed = bump;
        let outside_result = solana_program::pubkey::Pubkey::create_program_address(
            &[&solido.0[..], b"reserve_authority", &[bump]],
            &outside(&program_id),
        );
        match (lido.get_reserve_account(&program_id, &solido), outside_result) {
            (Ok(k), Ok(o)) => assert_eq!(k.0, o.to_bytes()),
            (Err(e), Err(_)) => {
                assert_eq!(e, LidoError::InvalidReserveAuthority);
                found_error = true;
            }
            _ => panic!("derivations disagree"),
        }
    }
    assert!(found_error);
}

#[test]
fn stake_account_address_matches_find_program_address() {
    let program_id = Pubkey([31; 32]);
    let solido = Pubkey([32; 32]);
    let vote = Pubkey([33; 32]);
    for seed in [0u64, 1, 7, 0x0102_0304_0506_0708, u64::MAX] {
        let (expected, expected_bump) = solana_program::pubkey::Pubkey::find_program_address(
            &[&solido.0[..], &vote.0[..], b"validator_stake_account", &seed.to_le_bytes()[..]],
            &outside(&program_id),
        );
        let (key, bump) = Validator::find_stake_account_address(&program_id, &solido, &vote, seed);
        assert_eq!(key.0, expected.to_bytes());
        assert_eq!(bump, expected_bump);
        assert_eq!(
            Validator::try_find_stake_account_address(&program_id, &solido, &vote, seed),
            Some((key, bump))
        );
        // The found address is the one created with the found bump.
        let created = solana_program::pubkey::Pubkey::create_program_address(
            &[&solido.0[..], &vote.0[..], b"validator_stake_account", &seed.to_le_bytes()[..], &[bump]],
            &outside(&program_id),
        )
        .unwrap();
        assert_eq!(created.to_bytes(), key.0);
    }
}

#[test]
fn little_endian_seed() {
    assert_eq!(u64_le_seed(0x0102_0304_0506_0708), vec![8, 7, 6, 5, 4, 3, 2, 1]);
    assert_eq!(u64_le_seed(0), vec![0; 8]);
}

#[test]
fn pubkey_comparison_and_zero() {
    assert!(Pubkey([1; 32]).same_as(&Pubkey([1; 32])));
    let mut k = [1u8; 32];
    k[31] = 2;
    assert!(!Pubkey([1; 32]).same_as(&Pubkey(k)));
    assert_eq!(Pubkey::zero(), Pubkey([0; 32]));
    assert_eq!(Pubkey([4; 32]).to_seed(), vec![4u8; 32]);
}

fn token_account_bytes(mint: [u8; 32]) -> Vec<u8> {
    let account = spl_token::state::Account {
        mint: spl_token::solana_program::pubkey::Pubkey::new_from_array(mint),
        owner: spl_token::solana_program::pubkey::Pubkey::new_from_array([2; 32]),
        amount: 5,
        state: spl_token::state::AccountState::Initialized,
        ..Default::default()
    };
    let mut data = vec![0u8; spl_token::state::Account::LEN];
    spl_token::state::Account::pack_into_slice(&account, &mut data);
    data
}

#[test]
fn st_sol_account_check() {
    let mut lido = Lido::default();
    lido.st_sol_mint = Pubkey([41; 32]);

    let good = token_account_bytes([41; 32]);
    assert_eq!(lido.check_is_st_sol_account(&good), Ok(()));

    let wrong_mint = token_account_bytes([42; 32]);
    assert_eq!(lido.check_is_st_sol_account(&wrong_mint), Err(LidoError::InvalidFeeRecipient));

    let mut bad_state = good.clone();
    bad_state[108] = 3;
    assert_eq!(lido.check_is_st_sol_account(&bad_state), Err(LidoError::InvalidStSolAccount));

    let mut bad_tag = good.clone();
    bad_tag[72] = 2;
    assert_eq!(lido.check_is_st_sol_account(&bad_tag), Err(LidoError::InvalidStSolAccount));

    assert_eq!(lido.check_is_st_sol_account(&good[..164]), Err(LidoError::InvalidStSolAccount));
    assert_eq!(lido.check_is_st_sol_account(&[]), Err(LidoError::InvalidStSolAccount));

    let mut longer = good.clone();
    longer.extend_from_slice(&[9, 9, 9]);
    assert_eq!(lido.check_is_st_sol_account(&longer), Ok(()));
}
