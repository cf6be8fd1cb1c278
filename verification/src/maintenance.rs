//! Decisions of the maintenance daemon, taken on a snapshot of the on-chain
//! accounts that are relevant to Solido.
use vstd::prelude::*;
use crate::pubkey::Pubkey;
use crate::rent::{minimum_balance, minimum_balance_computable, rent_minimum_balance, Rent};
use crate::state::Lido;
use crate::token::Lamports;

verus! {

/// Whether a maintenance step did something.
#[derive(Clone, Copy, Debug, PartialEq, Eq, Structural)]
pub enum MaintenanceResult {
    DidExecute,
    NothingToDo,
}

/// A maintenance operation that the daemon should carry out: the library
/// decides it, the daemon turns it into an instruction for the program.
#[derive(Clone, Copy, Debug, PartialEq, Eq)]
pub enum MaintenanceAction {
    /// Stake `amount` lamports from the reserve in a new stake account.
    StakeDeposit { amount: Lamports },
    /// Deposit the fully active stake account `stake_account`, the one at the
    /// begin seed of the validator with vote account `validator_vote_account`,
    /// into the stake pool.
    DepositActiveStakeToPool { validator_vote_account: Pubkey, stake_account: Pubkey },
}

/// Size of the state of a stake account.
pub const STAKE_STATE_LEN: usize = 200;

/// Calls `StakeStateV2::size_of` of `solana_stake_interface`. Claimed: it is
/// 200, the constant that its source returns.
#[verifier::external_body]
fn stake_state_size() -> (n: usize)
    ensures
        n == STAKE_STATE_LEN,
{
    solana_stake_interface::state::StakeStateV2::size_of()
}

/// The balance of a stake account, split into the four states that stake can be in.
///
/// The sum of the four fields is equal to the SOL balance of the stake account.
#[derive(Clone, Copy, Debug, PartialEq, Eq, Structural)]
pub struct StakeBalance {
    pub inactive: Lamports,
    pub activating: Lamports,
    pub active: Lamports,
    pub deactivating: Lamports,
}

/// Why a split of a stake account's balance is impossible.
#[derive(Clone, Copy, Debug, PartialEq, Eq, Structural)]
pub enum StakeBalanceError {
    /// Active stake cannot be larger than stake account balance.
    ActiveExceedsBalance,
    /// Activating stake cannot be larger than stake account balance - active.
    ActivatingExceedsRemainder,
    /// Deactivating stake cannot be larger than stake account balance - active - activating.
    DeactivatingExceedsRemainder,
}

/// Whether all of the stake of a stake account is active, and there is some.
pub open spec fn fully_active(b: StakeBalance) -> bool {
    b.inactive.0 == 0 && b.activating.0 == 0 && b.deactivating.0 == 0 && b.active.0 > 0
}

impl StakeBalance {
    /// Whether all of the stake is active. We define an empty stake account to
    /// not be fully active, because the SPL stake pool program considers such
    /// accounts to not be fully active. The case is not relevant anyway,
    /// because an empty stake account would not be rent-exempt, so it would
    /// disappear.
    pub fn is_fully_active(&self) -> (r: bool)
        ensures
            r == fully_active(*self),
    {
        true && self.inactive.0 == 0 && self.activating.0 == 0 && self.deactivating.0 == 0 && self.active.0 > 0
    }

    /// Splits the balance of a stake account into its four states, given the
    /// active, activating and deactivating parts; the rest is inactive.
    pub fn from_activation(account_lamports: u64, active: u64, activating: u64, deactivating: u64) -> (res: Result<StakeBalance, StakeBalanceError>)
        ensures
            active > account_lamports ==> res == Err::<StakeBalance, StakeBalanceError>(StakeBalanceError::ActiveExceedsBalance),
            active <= account_lamports && activating > account_lamports - active
                ==> res == Err::<StakeBalance, StakeBalanceError>(StakeBalanceError::ActivatingExceedsRemainder),
            active + activating <= account_lamports && deactivating > account_lamports - active - activating
                ==> res == Err::<StakeBalance, StakeBalanceError>(StakeBalanceError::DeactivatingExceedsRemainder),
            active + activating + deactivating <= account_lamports ==> res == Ok::<StakeBalance, StakeBalanceError>(
                StakeBalance {
                    inactive: Lamports((account_lamports - active - activating - deactivating) as u64),
                    activating: Lamports(activating),
                    active: Lamports(active),
                    deactivating: Lamports(deactivating),
                },
            ),
            res matches Ok(b) ==> b.inactive.0 + b.activating.0 + b.active.0 + b.deactivating.0 == account_lamports,
    {
        if active > account_lamports {
            return Err(StakeBalanceError::ActiveExceedsBalance);
        }
        let rest = account_lamports - active;
        if activating > rest {
            return Err(StakeBalanceError::ActivatingExceedsRemainder);
        }
        let rest = rest - activating;
        if deactivating > rest {
            return Err(StakeBalanceError::DeactivatingExceedsRemainder);
        }
        Ok(
            StakeBalance {
                inactive: Lamports(rest - deactivating),
                activating: Lamports(activating),
                active: Lamports(active),
                deactivating: Lamports(deactivating),
            },
        )
    }
}

/// A snapshot of on-chain accounts relevant to Solido.
pub struct SolidoState {
    /// The Solido instance.
    pub solido: Lido,
    /// For each validator, in the same order as in `solido.validators`, holds
    /// the stake balance of the derived stake accounts from the begin seed until
    /// end seed.
    pub validator_stake_accounts: Vec<Vec<(Pubkey, StakeBalance)>>,
    /// The SOL balance of the reserve account.
    pub reserve_account_lamports: u64,
    /// The rent parameters of the cluster.
    pub rent: Rent,
}

/// Whether the rent that the maintenance decisions look up can be computed:
/// that of an empty account and that of a stake account.
pub open spec fn rent_lookups_computable(state: SolidoState) -> bool {
    &&& minimum_balance_computable(state.rent, 0)
    &&& minimum_balance_computable(state.rent, STAKE_STATE_LEN)
}

/// The SOL of the reserve above what keeps it rent-exempt.
pub open spec fn effective_reserve(state: SolidoState) -> u64 {
    let min = minimum_balance(state.rent, 0);
    if state.reserve_account_lamports >= min {
        (state.reserve_account_lamports - min) as u64
    } else {
        0
    }
}

/// The staking action: where the effective reserve can pay for a rent-exempt
/// stake account, stake all of it.
pub open spec fn stake_deposit_action(state: SolidoState) -> Option<MaintenanceAction> {
    if effective_reserve(state) >= minimum_balance(state.rent, STAKE_STATE_LEN) {
        Some(MaintenanceAction::StakeDeposit { amount: Lamports(effective_reserve(state)) })
    } else {
        None
    }
}

/// How many validators have both an entry and a list of stake accounts.
pub open spec fn inspected_validators(state: SolidoState) -> int {
    let a = state.solido.validators.entries@.len() as int;
    let b = state.validator_stake_accounts@.len() as int;
    if a < b { a } else { b }
}

/// Whether the stake account at the begin seed of validator `i` is fully
/// active, so that it can be deposited into the stake pool.
pub open spec fn begin_stake_account_active(state: SolidoState, i: int) -> bool {
    &&& state.validator_stake_accounts@[i]@.len() > 0
    &&& fully_active(state.validator_stake_accounts@[i]@[0].1)
}

/// The deposit of validator `i`'s begin-seed stake account.
pub open spec fn deposit_action_of(state: SolidoState, i: int) -> MaintenanceAction {
    MaintenanceAction::DepositActiveStakeToPool {
        validator_vote_account: state.solido.validators.entries@[i].pubkey,
        stake_account: state.validator_stake_accounts@[i]@[0].0,
    }
}

/// The deposit action for the first validator from `i` on whose begin-seed
/// stake account is fully active.
pub open spec fn first_deposit_action_from(state: SolidoState, i: int) -> Option<MaintenanceAction>
    decreases inspected_validators(state) - i,
{
    if i < 0 || i >= inspected_validators(state) {
        None
    } else if begin_stake_account_active(state, i) {
        Some(deposit_action_of(state, i))
    } else {
        first_deposit_action_from(state, i + 1)
    }
}

/// The deposit action: that of the first validator whose begin-seed stake
/// account is fully active.
pub open spec fn deposit_action(state: SolidoState) -> Option<MaintenanceAction> {
    first_deposit_action_from(state, 0)
}

/// The action of a maintenance step: staking first, else depositing.
pub open spec fn maintenance_action(state: SolidoState) -> Option<MaintenanceAction> {
    match stake_deposit_action(state) {
        Some(a) => Some(a),
        None => deposit_action(state),
    }
}

impl SolidoState {
    /// Return the amount of SOL in the reserve account that could be spent
    /// while still keeping the reserve account rent-exempt.
    pub fn get_effective_reserve(&self) -> (r: Lamports)
        requires
            minimum_balance_computable(self.rent, 0),
        ensures
            r.0 == effective_reserve(*self),
    {
        Lamports(self.reserve_account_lamports.saturating_sub(rent_minimum_balance(&self.rent, 0)))
    }

    /// If there is a deposit that can be staked, return the action to do so:
    /// where the effective reserve can pay for a new rent-exempt stake
    /// account, stake all of it.
    pub fn try_stake_deposit(&self) -> (res: Option<MaintenanceAction>)
        requires
            rent_lookups_computable(*self),
        ensures
            res == stake_deposit_action(*self),
    {
        let reserve_balance = self.get_effective_reserve();
        let minimum_stake_account_balance = Lamports(rent_minimum_balance(&self.rent, stake_state_size()));
        // If there is not enough reserve to create a new stake account, we
        // can't stake the deposit, even if there is some balance.
        if reserve_balance.0 < minimum_stake_account_balance.0 {
            return None;
        }
        Some(MaintenanceAction::StakeDeposit { amount: reserve_balance })
    }

    /// If there is active stake that can be deposited to the stake pool,
    /// return the action to do so. Only the stake account at a validator's
    /// begin seed may be deposited, once it is fully active; the first
    /// validator that has one is taken.
    pub fn try_deposit_active_stake_to_pool(&self) -> (res: Option<MaintenanceAction>)
        ensures
            res == deposit_action(*self),
    {
        let n_validators = self.solido.validators.entries.len();
        let n_lists = self.validator_stake_accounts.len();
        let n = if n_validators < n_lists { n_validators } else { n_lists };
        let mut i: usize = 0;
        while i < n
            invariant
                i <= n,
                n == inspected_validators(*self),
                n <= self.validator_stake_accounts@.len(),
                n <= self.solido.validators.entries@.len(),
                deposit_action(*self) == first_deposit_action_from(*self, i as int),
            decreases n - i,
        {
            let stake_accounts = &self.validator_stake_accounts[i];
            if stake_accounts.len() > 0 && stake_accounts[0].1.is_fully_active() {
                let action = MaintenanceAction::DepositActiveStakeToPool {
                    validator_vote_account: self.solido.validators.entries[i].pubkey,
                    stake_account: stake_accounts[0].0,
                };
                return Some(action);
            }
            i += 1;
        }
        None
    }

    /// One maintenance step: try the operations one by one and take the first
    /// that produces an action, staking before depositing. The step did
    /// something exactly when there is an action.
    pub fn perform_maintenance_step(&self) -> (res: (MaintenanceResult, Option<MaintenanceAction>))
        requires
            rent_lookups_computable(*self),
        ensures
            res.1 == maintenance_action(*self),
            res.0 == (if res.1 is Some { MaintenanceResult::DidExecute } else { MaintenanceResult::NothingToDo }),
    {
        let action = match self.try_stake_deposit() {
            Some(a) => Some(a),
            None => self.try_deposit_active_stake_to_pool(),
        };
        match action {
            Some(a) => (MaintenanceResult::DidExecute, Some(a)),
            None => (MaintenanceResult::NothingToDo, None),
        }
    }
}

/// The effective reserve never exceeds the reserve, and together with the
/// rent-exempt minimum it covers the whole reserve.
pub proof fn lemma_effective_reserve_bounds(state: SolidoState)
    ensures
        effective_reserve(state) <= state.reserve_account_lamports,
        effective_reserve(state) + minimum_balance(state.rent, 0) >= state.reserve_account_lamports,
{
}

/// A deposit comes back exactly when some inspected validator's begin-seed
/// stake account is fully active, and then it is that of the first such
/// validator.
pub proof fn lemma_deposit_action_exists(state: SolidoState, i: int)
    requires
        0 <= i,
    ensures
        (first_deposit_action_from(state, i) is Some) <==> (exists|j: int|
            i <= j < inspected_validators(state) && #[trigger] begin_stake_account_active(state, j)),
        first_deposit_action_from(state, i) matches Some(a) ==> exists|j: int|
            i <= j < inspected_validators(state) && #[trigger] begin_stake_account_active(state, j)
                && a == deposit_action_of(state, j)
                && forall|k: int| i <= k < j ==> !begin_stake_account_active(state, k),
    decreases inspected_validators(state) - i,
{
    if i < inspected_validators(state) {
        lemma_deposit_action_exists(state, i + 1);
        if !begin_stake_account_active(state, i) {
            if let Some(a) = first_deposit_action_from(state, i) {
                let j = choose|j: int| i + 1 <= j < inspected_validators(state) && #[trigger] begin_stake_account_active(state, j)
                    && a == deposit_action_of(state, j)
                    && forall|k: int| i + 1 <= k < j ==> !begin_stake_account_active(state, k);
                assert(forall|k: int| i <= k < j ==> !begin_stake_account_active(state, k));
            }
        }
    }
}

/// The staking decision in terms of the reserve: with `m0` the rent-exempt
/// minimum of the (empty) reserve and `ms` that of a stake account, a reserve
/// that covers both stakes everything above `m0`, of any size; a reserve
/// above `m0` that does not cover both stakes nothing; a reserve below `m0`
/// has nothing to spend, so it stakes (nothing) only where a stake account
/// needs nothing.
pub proof fn lemma_stake_deposit_decision(state: SolidoState)
    ensures
        ({
            let m0 = minimum_balance(state.rent, 0) as int;
            let ms = minimum_balance(state.rent, STAKE_STATE_LEN) as int;
            let reserve = state.reserve_account_lamports as int;
            &&& reserve >= m0 + ms ==> stake_deposit_action(state) == Some(
                MaintenanceAction::StakeDeposit { amount: Lamports((reserve - m0) as u64) },
            )
            &&& m0 <= reserve < m0 + ms ==> stake_deposit_action(state) is None
            &&& reserve < m0 && ms > 0 ==> stake_deposit_action(state) is None
            &&& reserve < m0 && ms == 0 ==> stake_deposit_action(state) == Some(
                MaintenanceAction::StakeDeposit { amount: Lamports(0) },
            )
        }),
{
}

/// A maintenance step stakes whenever staking is possible, whether or not a
/// pool deposit is possible too; only where nothing can be staked does it
/// deposit, and it has nothing to do only where neither is possible. In
/// terms of the reserve: one that covers its own and a stake account's
/// rent-exempt minimum is staked, above its own minimum.
pub proof fn lemma_maintenance_prefers_staking(state: SolidoState)
    ensures
        stake_deposit_action(state) is Some ==> maintenance_action(state) == stake_deposit_action(state),
        stake_deposit_action(state) is None ==> maintenance_action(state) == deposit_action(state),
        maintenance_action(state) is None <==> (stake_deposit_action(state) is None && deposit_action(state) is None),
        state.reserve_account_lamports >= minimum_balance(state.rent, 0) + minimum_balance(state.rent, STAKE_STATE_LEN)
            ==> maintenance_action(state) == Some(MaintenanceAction::StakeDeposit {
                amount: Lamports((state.reserve_account_lamports - minimum_balance(state.rent, 0)) as u64),
            }),
{
    lemma_stake_deposit_decision(state);
}

/// A pool deposit names a validator with an entry and a list of stake
/// accounts, and the first account of that list, the one at the begin seed,
/// which is fully active; validators before it have no fully active
/// begin-seed account. A deposit comes back exactly when some validator has
/// one.
pub proof fn lemma_deposit_names_begin_seed_account(state: SolidoState)
    ensures
        (deposit_action(state) is Some) <==> (exists|i: int|
            0 <= i < inspected_validators(state) && #[trigger] begin_stake_account_active(state, i)),
        deposit_action(state) is Some ==> deposit_action(state).unwrap() is DepositActiveStakeToPool,
        deposit_action(state) matches Some(MaintenanceAction::DepositActiveStakeToPool { validator_vote_account, stake_account })
            ==> exists|i: int| {
                &&& 0 <= i
                &&& i < state.solido.validators.entries@.len()
                &&& i < state.validator_stake_accounts@.len()
                &&& #[trigger] state.validator_stake_accounts@[i]@.len() > 0
                &&& stake_account == state.validator_stake_accounts@[i]@[0].0
                &&& validator_vote_account == state.solido.validators.entries@[i].pubkey
                &&& state.validator_stake_accounts@[i]@[0].1.inactive.0 == 0
                &&& state.validator_stake_accounts@[i]@[0].1.activating.0 == 0
                &&& state.validator_stake_accounts@[i]@[0].1.deactivating.0 == 0
                &&& state.validator_stake_accounts@[i]@[0].1.active.0 > 0
                &&& forall|k: int| 0 <= k < i ==> !begin_stake_account_active(state, k)
            },
{
    lemma_deposit_action_exists(state, 0);
}

} // verus!
